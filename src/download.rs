//! The decisions of a resumable model download: the expected size, whether
//! to fetch or only finish, the range to ask for, progress reports and the
//! final size check.
use crate::provider::{decimal, decimal_string, ProviderError};
use crate::text::{chars_of, joined, last_index_of, owned, rfind_char, slice_chars, string_of};
use vstd::prelude::*;
use vstd::string::StringExecFns;

verus! {

pub open spec fn is_digit(c: char) -> bool {
    '0' <= c && c <= '9'
}

/// The value of a run of decimal digits.
pub open spec fn digits_value(s: Seq<char>) -> nat
    decreases s.len(),
{
    if s.len() == 0 {
        0
    } else {
        digits_value(s.drop_last()) * 10 + ((s.last() as u32) - ('0' as u32)) as nat
    }
}

/// The digits of a number text: the text without its leading `+`, if any.
pub open spec fn unsigned_body(s: Seq<char>) -> Seq<char> {
    if s.len() > 0 && s[0] == '+' {
        s.subrange(1, s.len() as int)
    } else {
        s
    }
}

pub open spec fn all_digits(s: Seq<char>) -> bool {
    forall|i: int| 0 <= i < s.len() ==> is_digit(#[trigger] s[i])
}

/// What `str::parse::<u64>` accepts: an optional `+` and then one or more
/// ASCII digits whose value fits in a `u64`.
pub open spec fn parse_u64_of(s: Seq<char>) -> Option<u64> {
    let body = unsigned_body(s);
    if body.len() > 0 && all_digits(body) && digits_value(body) <= u64::MAX {
        Some(digits_value(body) as u64)
    } else {
        None
    }
}

/// A longer run of digits is worth at least as much as its prefix.
proof fn lemma_digits_grow(s: Seq<char>, k: int)
    requires
        0 <= k <= s.len(),
    ensures
        digits_value(s.subrange(0, k)) <= digits_value(s),
    decreases s.len() - k,
{
    if k < s.len() {
        lemma_digits_grow(s, k + 1);
        assert(s.subrange(0, k + 1).drop_last() =~= s.subrange(0, k));
    } else {
        assert(s.subrange(0, k) =~= s);
    }
}

/// What `str::parse::<u64>` returns.
fn parse_u64(s: &str) -> (r: Option<u64>)
    ensures
        r == parse_u64_of(s@),
{
    let cs = chars_of(s);
    let start: usize = if cs.len() > 0 && cs[0] == '+' { 1 } else { 0 };
    let ghost body = unsigned_body(s@);
    assert(body =~= cs@.subrange(start as int, cs@.len() as int));
    if start >= cs.len() {
        return None;
    }
    let mut acc: u64 = 0;
    let mut i: usize = start;
    while i < cs.len()
        invariant
            start <= i <= cs.len(),
            cs@ == s@,
            body == unsigned_body(s@),
            body == cs@.subrange(start as int, cs@.len() as int),
            forall|j: int| 0 <= j < i - start ==> is_digit(#[trigger] body[j]),
            acc as nat == digits_value(body.subrange(0, i - start)),
        decreases cs.len() - i,
    {
        let c = cs[i];
        assert(body[i - start] == c);
        if !('0' <= c && c <= '9') {
            assert(0 <= i - start < body.len());
            assert(!is_digit(body[i - start]));
            assert(!all_digits(body));
            return None;
        }
        let d: u64 = ((c as u32) - ('0' as u32)) as u64;
        assert(body.subrange(0, i - start + 1).drop_last() =~= body.subrange(0, i - start));
        if acc > (u64::MAX - d) / 10 {
            proof {
                assert(acc * 10 + d > u64::MAX) by (nonlinear_arith)
                    requires
                        acc > (u64::MAX - d) / 10,
                        d <= 9,
                ;
                lemma_digits_grow(body, i - start + 1);
                assert(digits_value(body.subrange(0, i - start + 1)) == acc * 10 + d);
            }
            return None;
        }
        assert(acc * 10 + d <= u64::MAX) by (nonlinear_arith)
            requires
                acc <= (u64::MAX - d) / 10,
                d <= 9,
        ;
        acc = acc * 10 + d;
        i = i + 1;
    }
    assert(body.subrange(0, body.len() as int) =~= body);
    Some(acc)
}

pub open spec fn header_size(h: Option<Seq<char>>) -> Option<u64> {
    match h {
        Some(v) => parse_u64_of(v),
        None => None,
    }
}

/// The expected size of the model file: the `x-linked-size` header if it is
/// a number, else the `content-length` header if it is one, else 0
/// (unknown).
pub open spec fn total_size_of(linked: Option<Seq<char>>, length: Option<Seq<char>>) -> u64 {
    match header_size(linked) {
        Some(n) => n,
        None => match header_size(length) {
            Some(n) => n,
            None => 0,
        },
    }
}

fn header_value(h: Option<&str>) -> (r: Option<u64>)
    ensures
        r == header_size(
            match h {
                Some(v) => Some(v@),
                None => None,
            },
        ),
{
    match h {
        Some(v) => parse_u64(v),
        None => None,
    }
}

/// The expected size of the model file, from the metadata probe's headers;
/// 0 when neither header gives a number.
pub fn total_size_from_headers(linked_size: Option<&str>, content_length: Option<&str>) -> (r: u64)
    ensures
        r == total_size_of(
            match linked_size {
                Some(v) => Some(v@),
                None => None,
            },
            match content_length {
                Some(v) => Some(v@),
                None => None,
            },
        ),
{
    match header_value(linked_size) {
        Some(n) => n,
        None => match header_value(content_length) {
            Some(n) => n,
            None => 0,
        },
    }
}

/// The metadata probe failed when its status is 400 or more.
pub fn probe_status_error(status: u16) -> (r: Option<ProviderError>)
    ensures
        r is Some <==> status >= 400,
        r matches Some(e) ==> e is ServerResponseError && e->ServerResponseError_0@
            == "Failed to download model; status code: "@ + decimal(status as nat),
{
    if status >= 400 {
        Some(
            ProviderError::ServerResponseError(
                joined("Failed to download model; status code: ", decimal_string(status as u64).as_str()),
            ),
        )
    } else {
        None
    }
}

/// The transfer request failed unless its status is a success (2xx).
pub fn transfer_status_error(status: u16) -> (r: Option<ProviderError>)
    ensures
        r is Some <==> !(200 <= status < 300),
        r matches Some(e) ==> e is ServerResponseError && e->ServerResponseError_0@
            == "Download failed; status code: "@ + decimal(status as nat),
{
    if 200 <= status && status < 300 {
        None
    } else {
        Some(
            ProviderError::ServerResponseError(
                joined("Download failed; status code: ", decimal_string(status as u64).as_str()),
            ),
        )
    }
}

/// The `Range` header that resumes a transfer at byte `n`.
pub open spec fn range_header_of(n: u64) -> Seq<char> {
    "bytes="@ + decimal(n as nat) + "-"@
}

/// What to do with the partial file.
#[derive(Debug, Clone, PartialEq, Eq)]
pub enum DownloadPlan {
    /// The partial file is complete: only rename it.
    Finalize,
    /// Transfer from `resume_from` on, appending to the partial file when
    /// it is not empty, with a `Range` header when resuming.
    Fetch { resume_from: u64, append: bool, range_header: Option<String> },
}

/// The plan for a download: when the size is known and the partial file
/// has all of it, finish; otherwise fetch what is missing, from the end of
/// the partial file.
pub open spec fn plan_is(p: DownloadPlan, total: u64, part_size: u64) -> bool {
    if total > 0 && part_size == total {
        p is Finalize
    } else {
        &&& p matches DownloadPlan::Fetch { resume_from, append, range_header }
        &&& resume_from == part_size
        &&& append == (part_size > 0)
        &&& match range_header {
            Some(h) => part_size > 0 && h@ == range_header_of(part_size),
            None => part_size == 0,
        }
    }
}

pub fn plan_download(total: u64, part_size: u64) -> (r: DownloadPlan)
    ensures
        plan_is(r, total, part_size),
{
    if total > 0 && part_size == total {
        return DownloadPlan::Finalize;
    }
    let range_header = if part_size > 0 {
        let a = joined("bytes=", decimal_string(part_size).as_str());
        Some(joined(a.as_str(), "-"))
    } else {
        None
    };
    DownloadPlan::Fetch { resume_from: part_size, append: part_size > 0, range_header }
}

/// The percentage of `total` that `downloaded` is, rounded down.
pub open spec fn percent_of(downloaded: nat, total: nat) -> nat {
    if total == 0 {
        0
    } else {
        downloaded * 100 / total
    }
}

/// Bytes received so far, against the expected size, and the last
/// percentage reported.
pub struct DownloadProgress {
    pub downloaded: u64,
    pub total: u64,
    pub last_percentage: u128,
}

/// The sum of the chunk sizes.
pub open spec fn sum_of(chunks: Seq<u64>) -> nat
    decreases chunks.len(),
{
    if chunks.len() == 0 {
        0
    } else {
        sum_of(chunks.drop_last()) + chunks.last() as nat
    }
}

impl DownloadProgress {
    /// Progress at the start of a transfer that resumes at `resume_from`.
    pub fn new(resume_from: u64, total: u64) -> (r: DownloadProgress)
        ensures
            r.downloaded == resume_from,
            r.total == total,
            r.last_percentage == resume_from as nat * 100 / (if total == 0 { 1 } else { total as nat }),
    {
        let d: u128 = if total == 0 { 1 } else { total as u128 };
        assert(resume_from as u128 * 100 <= u64::MAX as u128 * 100) by (nonlinear_arith);
        DownloadProgress { downloaded: resume_from, total, last_percentage: (resume_from as u128) * 100 / d }
    }

    /// Count a chunk; the percentage to report, if this chunk crossed to a
    /// new multiple of ten (only when the size is known).
    pub fn record_chunk(&mut self, len: u64) -> (r: Option<u128>)
        requires
            old(self).downloaded as nat + len as nat <= u64::MAX,
        ensures
            final(self).downloaded == old(self).downloaded + len,
            final(self).total == old(self).total,
            ({
                let p = percent_of(final(self).downloaded as nat, old(self).total as nat);
                if old(self).total > 0 && p > old(self).last_percentage && p % 10 == 0 {
                    r == Some(p as u128) && final(self).last_percentage == p
                } else {
                    r is None && final(self).last_percentage == old(self).last_percentage
                }
            }),
    {
        self.downloaded = self.downloaded + len;
        if self.total == 0 {
            return None;
        }
        assert(self.downloaded as u128 * 100 <= u64::MAX as u128 * 100) by (nonlinear_arith)
            requires
                self.downloaded <= u64::MAX,
        ;
        let p: u128 = (self.downloaded as u128) * 100 / (self.total as u128);
        if p > self.last_percentage && p % 10 == 0 {
            self.last_percentage = p;
            Some(p)
        } else {
            None
        }
    }
}

/// The final size matches when the expected size is unknown or equal.
pub open spec fn size_matches(total: u64, final_size: u64) -> bool {
    total == 0 || final_size == total
}

/// Whether the finished file has the expected size; a mismatch is only
/// reported, never fatal.
pub fn verify_final_size(total: u64, final_size: u64) -> (r: bool)
    ensures
        r == size_matches(total, final_size),
{
    total == 0 || final_size == total
}

/// The partial-download file beside a model file: the model file's
/// extension replaced by `part` (or `.part` added when it has none).
pub open spec fn part_path_of(path: Seq<char>) -> Seq<char> {
    let name_start = match last_index_of(path, '/') {
        Some(i) => i + 1,
        None => 0,
    };
    let name = path.subrange(name_start, path.len() as int);
    match last_index_of(name, '.') {
        Some(d) if d > 0 => path.subrange(0, name_start + d) + ".part"@,
        _ => path + ".part"@,
    }
}

/// The path of the partial-download file for a model file.
pub fn part_file_path(model_path: &str) -> (r: String)
    ensures
        r@ == part_path_of(model_path@),
{
    let p = chars_of(model_path);
    let name_start: usize = match rfind_char(&p, '/') {
        Some(i) => i + 1,
        None => 0,
    };
    let name = slice_chars(&p, name_start, p.len());
    match rfind_char(&name, '.') {
        Some(d) if d > 0 => {
            let stem = string_of(&slice_chars(&p, 0, name_start + d));
            joined(stem.as_str(), ".part")
        },
        _ => joined(model_path, ".part"),
    }
}

/// Where model files are kept, below the home directory.
pub open spec fn model_path_of(home: Seq<char>, file: Seq<char>) -> Seq<char> {
    if home.len() > 0 && home.last() == '/' {
        home + ".blessnet/models/"@ + file
    } else {
        home + "/.blessnet/models/"@ + file
    }
}

/// The path of a model file: `<home>/.blessnet/models/<file>`.
pub fn model_file_path(home: &str, file: &str) -> (r: String)
    ensures
        r@ == model_path_of(home@, file@),
{
    let h = chars_of(home);
    let mut r = owned(home);
    if h.len() > 0 && h[h.len() - 1] == '/' {
        r.append(".blessnet/models/");
    } else {
        r.append("/.blessnet/models/");
    }
    r.append(file);
    r
}

/// A transfer resumed from a partial file of `n` bytes asks for the range
/// from byte `n` on and appends to the file; once the chunks that arrive
/// add up to the rest of a known size, the count of bytes held equals that
/// size and the size check passes.
pub proof fn lemma_resume_reaches_total(
    plan: DownloadPlan,
    total: u64,
    n: u64,
    chunks: Seq<u64>,
)
    requires
        n > 0,
        n != total,
        plan_is(plan, total, n),
        total > 0 ==> n + sum_of(chunks) == total,
    ensures
        plan matches DownloadPlan::Fetch { resume_from, append, range_header } && resume_from == n && append
            && (range_header matches Some(h) && h@ == range_header_of(n)),
        total > 0 ==> size_matches(total, (n + sum_of(chunks)) as u64),
{
}

} // verus!
