//! The model catalog: known model names, custom download URLs and the
//! security policy that a custom URL must pass.
use crate::text::{
    after_last, chars_of, has_char, has_infix, has_infix_exec, has_prefix, has_prefix_exec,
    has_suffix, has_suffix_exec, joined, occurs_at_exec, owned, rfind_char, same_chars,
    slice_chars, string_of,
};
use vstd::prelude::*;

verus! {

/// What a URL parser reports of an absolute URL: its serialization, scheme,
/// host (if any) and path, the last three as the parser normalised them.
pub struct UrlParts {
    pub href: Seq<char>,
    pub scheme: Seq<char>,
    pub host: Option<Seq<char>>,
    pub path: Seq<char>,
}

/// The parts of the URL that `url::Url::parse` makes of a text, or `None`
/// where it rejects the text.
pub uninterp spec fn parsed_url(s: Seq<char>) -> Option<UrlParts>;

/// An absolute URL, held as the plain parts that the model catalog reads.
#[derive(Clone, Debug)]
pub struct ModelUrl {
    href: String,
    scheme: String,
    host: Option<String>,
    path: String,
}

pub open spec fn opt_view(o: Option<String>) -> Option<Seq<char>> {
    match o {
        Some(s) => Some(s@),
        None => None,
    }
}

impl View for ModelUrl {
    type V = UrlParts;

    closed spec fn view(&self) -> UrlParts {
        UrlParts {
            href: self.href@,
            scheme: self.scheme@,
            host: opt_view(self.host),
            path: self.path@,
        }
    }
}

/// Relies on `url::Url::parse`, and on `Url::as_str`, `Url::scheme`,
/// `Url::host_str` and `Url::path` to read the parsed URL back: the parts
/// depend on the text alone.
#[verifier::external_body]
fn parse_url_parts(s: &str) -> (r: Option<ModelUrl>)
    ensures
        match r {
            Some(u) => parsed_url(s@) == Some(u@),
            None => parsed_url(s@) is None,
        },
{
    match url::Url::parse(s) {
        Ok(u) => Some(
            ModelUrl {
                href: u.as_str().to_string(),
                scheme: u.scheme().to_string(),
                host: u.host_str().map(String::from),
                path: u.path().to_string(),
            },
        ),
        Err(_) => None,
    }
}

/// The last `/`-separated segment of the path, as `Url::path_segments`
/// yields it: `None` where the path does not start with `/`.
pub open spec fn last_segment(u: UrlParts) -> Option<Seq<char>> {
    if has_prefix(u.path, seq!['/']) {
        Some(after_last(u.path, '/'))
    } else {
        None
    }
}

impl ModelUrl {
    /// Parse an absolute URL.
    pub fn parse(s: &str) -> (r: Option<ModelUrl>)
        ensures
            match r {
                Some(u) => parsed_url(s@) == Some(u@),
                None => parsed_url(s@) is None,
            },
    {
        parse_url_parts(s)
    }

    /// The URL's serialization.
    pub fn as_str(&self) -> (r: &str)
        ensures
            r@ == self@.href,
    {
        self.href.as_str()
    }

    pub fn scheme(&self) -> (r: &str)
        ensures
            r@ == self@.scheme,
    {
        self.scheme.as_str()
    }

    pub fn host_str(&self) -> (r: Option<&str>)
        ensures
            match r {
                Some(h) => self@.host == Some(h@),
                None => self@.host is None,
            },
    {
        match &self.host {
            Some(h) => Some(h.as_str()),
            None => None,
        }
    }

    pub fn path(&self) -> (r: &str)
        ensures
            r@ == self@.path,
    {
        self.path.as_str()
    }

    /// The last segment of the path, if the path has segments.
    pub fn last_segment(&self) -> (r: Option<String>)
        ensures
            opt_view(r) == last_segment(self@),
    {
        let p = chars_of(self.path.as_str());
        let slash = chars_of("/");
        proof {
            reveal_strlit("/");
            assert(slash@ =~= seq!['/']);
        }
        if !has_prefix_exec(&p, &slash) {
            return None;
        }
        assert(p@.subrange(0, 1)[0] == p@[0]);
        match rfind_char(&p, '/') {
            Some(i) => {
                assert(i < p.len());
                Some(string_of(&slice_chars(&p, i + 1, p.len())))
            },
            None => {
                assert(p@[0] == '/');
                None
            },
        }
    }
}

/// The policy that a custom model URL must meet.
#[derive(Debug, Clone)]
pub struct SecurityConfig {
    pub allowed_domains: Vec<String>,
    pub require_https: bool,
    pub allowed_file_extensions: Vec<String>,
}

pub open spec fn views(v: Seq<String>) -> Seq<Seq<char>> {
    v.map_values(|s: String| s@)
}

/// The mathematical content of a `SecurityConfig`.
pub struct SecurityPolicy {
    pub domains: Seq<Seq<char>>,
    pub require_https: bool,
    pub extensions: Seq<Seq<char>>,
}

impl View for SecurityConfig {
    type V = SecurityPolicy;

    open spec fn view(&self) -> SecurityPolicy {
        SecurityPolicy {
            domains: views(self.allowed_domains@),
            require_https: self.require_https,
            extensions: views(self.allowed_file_extensions@),
        }
    }
}

/// The default policy: HTTPS only, from Hugging Face or GitHub, and only
/// `.llamafile` files.
pub open spec fn default_policy() -> SecurityPolicy {
    SecurityPolicy {
        domains: seq!["huggingface.co"@, "github.com"@, "releases.github.com"@],
        require_https: true,
        extensions: seq![".llamafile"@],
    }
}

impl Default for SecurityConfig {
    fn default() -> (r: Self)
        ensures
            r@ == default_policy(),
    {
        let mut domains: Vec<String> = Vec::new();
        domains.push(owned("huggingface.co"));
        domains.push(owned("github.com"));
        domains.push(owned("releases.github.com"));
        let mut extensions: Vec<String> = Vec::new();
        extensions.push(owned(".llamafile"));
        let r = SecurityConfig {
            allowed_domains: domains,
            require_https: true,
            allowed_file_extensions: extensions,
        };
        assert(r@.domains =~= default_policy().domains);
        assert(r@.extensions =~= default_policy().extensions);
        r
    }
}

/// A host is `domain` itself or one of its subdomains.
pub open spec fn domain_matches(host: Seq<char>, domain: Seq<char>) -> bool {
    host == domain || has_suffix(host, seq!['.'] + domain)
}

pub open spec fn host_allowed(p: SecurityPolicy, host: Seq<char>) -> bool {
    exists|i: int| 0 <= i < p.domains.len() && domain_matches(host, #[trigger] p.domains[i])
}

pub open spec fn extension_allowed(p: SecurityPolicy, name: Seq<char>) -> bool {
    exists|i: int| 0 <= i < p.extensions.len() && has_suffix(name, #[trigger] p.extensions[i])
}

/// Control characters: the general category Cc, which `char::is_control`
/// tests (and which holds every character that `is_ascii_control` accepts).
pub open spec fn is_control_char(c: char) -> bool {
    (c as u32) < 0x20 || (0x7f <= (c as u32) && (c as u32) < 0xa0)
}

pub open spec fn msg_traversal() -> Seq<char> {
    "Invalid filename: path traversal detected"@
}

pub open spec fn msg_extension() -> Seq<char> {
    "Invalid file extension"@
}

pub open spec fn msg_empty() -> Seq<char> {
    "Filename cannot be empty"@
}

pub open spec fn msg_control() -> Seq<char> {
    "Filename contains invalid control characters"@
}

pub open spec fn msg_https() -> Seq<char> {
    "Only HTTPS URLs are allowed for security"@
}

pub open spec fn msg_no_host() -> Seq<char> {
    "Invalid URL: no host"@
}

pub open spec fn msg_untrusted() -> Seq<char> {
    "Untrusted domain: "@
}

pub open spec fn msg_dotdot() -> Seq<char> {
    "Path contains suspicious '..' segments"@
}

pub open spec fn msg_no_filename() -> Seq<char> {
    "Invalid URL: no filename in path"@
}

pub open spec fn msg_system_path() -> Seq<char> {
    "Suspicious system path detected"@
}

/// The verdict on a file name: the first rule it breaks, in the order
/// traversal, extension, emptiness, control characters.
pub open spec fn filename_verdict(p: SecurityPolicy, name: Seq<char>) -> Result<(), Seq<char>> {
    if has_infix(name, ".."@) || name.contains('/') || name.contains('\\') {
        Err(msg_traversal())
    } else if !extension_allowed(p, name) {
        Err(msg_extension())
    } else if name.len() == 0 {
        Err(msg_empty())
    } else if exists|i: int| 0 <= i < name.len() && is_control_char(#[trigger] name[i]) {
        Err(msg_control())
    } else {
        Ok(())
    }
}

pub open spec fn system_path(path: Seq<char>) -> bool {
    has_prefix(path, "/etc/"@) || has_prefix(path, "/windows/"@) || has_prefix(path, "/system32/"@)
}

/// The verdict on a URL: the first rule it breaks, in the order scheme,
/// host, domain, `..` in the path, file name, system path.
pub open spec fn url_verdict(p: SecurityPolicy, u: UrlParts) -> Result<(), Seq<char>> {
    if p.require_https && u.scheme != "https"@ {
        Err(msg_https())
    } else if u.host is None {
        Err(msg_no_host())
    } else if !host_allowed(p, u.host->0) {
        Err(msg_untrusted() + u.host->0)
    } else if has_infix(u.path, ".."@) {
        Err(msg_dotdot())
    } else if last_segment(u) is None {
        Err(msg_no_filename())
    } else if filename_verdict(p, last_segment(u)->0) is Err {
        filename_verdict(p, last_segment(u)->0)
    } else if system_path(u.path) {
        Err(msg_system_path())
    } else {
        Ok(())
    }
}

pub open spec fn err_view(r: Result<(), String>) -> Result<(), Seq<char>> {
    match r {
        Ok(()) => Ok(()),
        Err(e) => Err(e@),
    }
}

fn is_control(c: char) -> (r: bool)
    ensures
        r == is_control_char(c),
{
    let n = c as u32;
    n < 0x20 || (0x7f <= n && n < 0xa0)
}

fn has_suffix_str(s: &Vec<char>, suffix: &str) -> (r: bool)
    ensures
        r == has_suffix(s@, suffix@),
{
    has_suffix_exec(s, &chars_of(suffix))
}

fn has_prefix_str(s: &Vec<char>, prefix: &str) -> (r: bool)
    ensures
        r == has_prefix(s@, prefix@),
{
    has_prefix_exec(s, &chars_of(prefix))
}

impl SecurityConfig {
    fn domain_allowed(&self, host: &Vec<char>) -> (r: bool)
        ensures
            r == host_allowed(self@, host@),
    {
        let mut i: usize = 0;
        while i < self.allowed_domains.len()
            invariant
                i <= self.allowed_domains.len(),
                forall|j: int| 0 <= j < i ==> !domain_matches(host@, #[trigger] self@.domains[j]),
            decreases self.allowed_domains.len() - i,
        {
            let d = chars_of(self.allowed_domains[i].as_str());
            let dotted = chars_of(joined(".", self.allowed_domains[i].as_str()).as_str());
            proof {
                reveal_strlit(".");
                assert(dotted@ =~= seq!['.'] + d@);
            }
            let exact = host.len() == d.len() && occurs_at_exec(host, &d, 0);
            proof {
                if host@ == d@ {
                    assert(host@.subrange(0, host@.len() as int) =~= host@);
                }
                if exact {
                    assert(host@.subrange(0, host@.len() as int) =~= host@);
                }
            }
            if exact || has_suffix_exec(host, &dotted) {
                assert(domain_matches(host@, self@.domains[i as int]));
                return true;
            }
            i = i + 1;
        }
        false
    }

    fn extension_ok(&self, name: &Vec<char>) -> (r: bool)
        ensures
            r == extension_allowed(self@, name@),
    {
        let mut i: usize = 0;
        while i < self.allowed_file_extensions.len()
            invariant
                i <= self.allowed_file_extensions.len(),
                forall|j: int| 0 <= j < i ==> !has_suffix(name@, #[trigger] self@.extensions[j]),
            decreases self.allowed_file_extensions.len() - i,
        {
            if has_suffix_str(name, self.allowed_file_extensions[i].as_str()) {
                assert(has_suffix(name@, self@.extensions[i as int]));
                return true;
            }
            i = i + 1;
        }
        false
    }

    /// Check a file name: no `..`, `/` or `\`, an allowed extension, not
    /// empty, no control characters.
    pub fn validate_filename(&self, filename: &str) -> (r: Result<(), String>)
        ensures
            err_view(r) == filename_verdict(self@, filename@),
    {
        let name = chars_of(filename);
        let dots = chars_of("..");
        if has_infix_exec(&name, &dots) || has_char(&name, '/') || has_char(&name, '\\') {
            return Err(owned("Invalid filename: path traversal detected"));
        }
        if !self.extension_ok(&name) {
            return Err(owned("Invalid file extension"));
        }
        if name.len() == 0 {
            return Err(owned("Filename cannot be empty"));
        }
        let mut i: usize = 0;
        while i < name.len()
            invariant
                i <= name.len(),
                name@ == filename@,
                !(has_infix(name@, ".."@) || name@.contains('/') || name@.contains('\\')),
                extension_allowed(self@, name@),
                name@.len() != 0,
                forall|j: int| 0 <= j < i ==> !is_control_char(#[trigger] name@[j]),
            decreases name.len() - i,
        {
            if is_control(name[i]) {
                assert(is_control_char(name@[i as int]));
                return Err(owned("Filename contains invalid control characters"));
            }
            i = i + 1;
        }
        Ok(())
    }

    /// Check a custom model URL against this policy.
    pub fn validate_model_url(&self, url: &ModelUrl) -> (r: Result<(), String>)
        ensures
            err_view(r) == url_verdict(self@, url@),
    {
        if self.require_https && !same_chars(&chars_of(url.scheme()), "https") {
            return Err(owned("Only HTTPS URLs are allowed for security"));
        }
        let host = match url.host_str() {
            Some(h) => h,
            None => {
                return Err(owned("Invalid URL: no host"));
            },
        };
        if !self.domain_allowed(&chars_of(host)) {
            return Err(joined("Untrusted domain: ", host));
        }
        let path = chars_of(url.path());
        if has_infix_exec(&path, &chars_of("..")) {
            return Err(owned("Path contains suspicious '..' segments"));
        }
        let filename = match url.last_segment() {
            Some(f) => f,
            None => {
                return Err(owned("Invalid URL: no filename in path"));
            },
        };
        match self.validate_filename(filename.as_str()) {
            Ok(()) => {},
            Err(e) => {
                return Err(e);
            },
        }
        if has_prefix_str(&path, "/etc/") || has_prefix_str(&path, "/windows/") || has_prefix_str(
            &path,
            "/system32/",
        ) {
            return Err(owned("Suspicious system path detected"));
        }
        Ok(())
    }
}

/// A model the driver can serve: one of the catalog's models, with an
/// optional quantization suffix, or a custom download URL that passed the
/// default security policy.
#[derive(Debug, Clone)]
pub enum Models {
    Llama321BInstruct(Option<String>),
    Llama323BInstruct(Option<String>),
    Mistral7BInstructV03(Option<String>),
    Mixtral8x7BInstructV01(Option<String>),
    Gemma22BInstruct(Option<String>),
    Gemma27BInstruct(Option<String>),
    Gemma29BInstruct(Option<String>),
    Url(ModelUrl),
}

/// The mathematical content of a `Models` value: a catalog family (by its
/// place in the catalog, 0 to 6) with its quantization, or a URL.
pub enum ModelChoice {
    Catalog(nat, Option<Seq<char>>),
    Url(UrlParts),
}

/// Number of model families in the catalog.
pub const FAMILY_COUNT: usize = 7;

/// The base file name of each catalog family, which is also its name.
pub open spec fn family_base(f: nat) -> Seq<char> {
    if f == 0 {
        "Llama-3.2-1B-Instruct"@
    } else if f == 1 {
        "Llama-3.2-3B-Instruct"@
    } else if f == 2 {
        "Mistral-7B-Instruct-v0.3"@
    } else if f == 3 {
        "Mixtral-8x7B-Instruct-v0.1"@
    } else if f == 4 {
        "gemma-2-2b-it"@
    } else if f == 5 {
        "gemma-2-27b-it"@
    } else {
        "gemma-2-9b-it"@
    }
}

/// The quantization that a name suffix selects for a family: `Q6_K` (after
/// `-`, `_` or `.`) for the two Llama families, `q4f16_1` (after `-` or `.`)
/// for every family.
pub open spec fn quant_for_suffix(f: nat, rest: Seq<char>) -> Option<Seq<char>> {
    if f <= 1 && (rest == "-Q6_K"@ || rest == "_Q6_K"@ || rest == ".Q6_K"@) {
        Some("Q6_K"@)
    } else if rest == "-q4f16_1"@ || rest == ".q4f16_1"@ {
        Some("q4f16_1"@)
    } else {
        None
    }
}

/// How a name selects family `f`: `Some(None)` for the bare name,
/// `Some(Some(q))` for the name with a quantization suffix.
pub open spec fn family_match(s: Seq<char>, f: nat) -> Option<Option<Seq<char>>> {
    let b = family_base(f);
    if s == b {
        Some(None)
    } else if has_prefix(s, b) && quant_for_suffix(f, s.subrange(b.len() as int, s.len() as int)) is Some {
        Some(quant_for_suffix(f, s.subrange(b.len() as int, s.len() as int)))
    } else {
        None
    }
}

/// The first family, from `f` on, that the name selects.
pub open spec fn catalog_from(s: Seq<char>, f: nat) -> Option<(nat, Option<Seq<char>>)>
    decreases 7 - f,
{
    if f >= 7 {
        None
    } else {
        match family_match(s, f) {
            Some(q) => Some((f, q)),
            None => catalog_from(s, f + 1),
        }
    }
}

pub open spec fn catalog_lookup(s: Seq<char>) -> Option<(nat, Option<Seq<char>>)> {
    catalog_from(s, 0)
}

/// What parsing a model identifier gives: a catalog model, else a URL that
/// parses and passes the default policy; else the error text.
pub open spec fn parse_model(s: Seq<char>) -> Result<ModelChoice, Seq<char>> {
    match catalog_lookup(s) {
        Some((f, q)) => Ok(ModelChoice::Catalog(f, q)),
        None => match parsed_url(s) {
            None => Err("Invalid model name or URL: "@ + s),
            Some(u) => match url_verdict(default_policy(), u) {
                Ok(()) => Ok(ModelChoice::Url(u)),
                Err(e) => Err(e),
            },
        },
    }
}

/// The default quantized file suffix of catalog models.
pub open spec fn default_suffix() -> Seq<char> {
    "Q6_K.llamafile"@
}

/// The file a model is stored in.
pub open spec fn model_file_of(m: ModelChoice) -> Seq<char> {
    match m {
        ModelChoice::Catalog(f, q) => family_base(f) + "."@ + match q {
            Some(q) => q,
            None => default_suffix(),
        },
        ModelChoice::Url(u) => match last_segment(u) {
            Some(name) => name,
            None => Seq::empty(),
        },
    }
}

/// The Hugging Face repository of a catalog model.
pub open spec fn model_repo_of(m: ModelChoice) -> Option<Seq<char>> {
    match m {
        ModelChoice::Catalog(f, _) => Some("Mozilla/"@ + family_base(f) + "-llamafile"@),
        ModelChoice::Url(_) => None,
    }
}

/// The name a model is shown by.
pub open spec fn model_name_of(m: ModelChoice) -> Seq<char> {
    match m {
        ModelChoice::Catalog(f, _) => family_base(f),
        ModelChoice::Url(u) => u.href,
    }
}

/// Where the model file is downloaded from.
pub open spec fn download_url_of(m: ModelChoice) -> Seq<char> {
    match model_repo_of(m) {
        Some(repo) => "https://huggingface.co/"@ + repo + "/resolve/main/"@ + model_file_of(m)
            + "?download=true"@,
        None => model_name_of(m),
    }
}

fn family_base_str(f: usize) -> (r: &'static str)
    requires
        f < 7,
    ensures
        r@ == family_base(f as nat),
{
    if f == 0 {
        "Llama-3.2-1B-Instruct"
    } else if f == 1 {
        "Llama-3.2-3B-Instruct"
    } else if f == 2 {
        "Mistral-7B-Instruct-v0.3"
    } else if f == 3 {
        "Mixtral-8x7B-Instruct-v0.1"
    } else if f == 4 {
        "gemma-2-2b-it"
    } else if f == 5 {
        "gemma-2-27b-it"
    } else {
        "gemma-2-9b-it"
    }
}

fn quant_for_suffix_exec(f: usize, rest: &Vec<char>) -> (r: Option<String>)
    ensures
        opt_view(r) == quant_for_suffix(f as nat, rest@),
{
    if f <= 1 && (same_chars(rest, "-Q6_K") || same_chars(rest, "_Q6_K") || same_chars(rest, ".Q6_K")) {
        Some(owned("Q6_K"))
    } else if same_chars(rest, "-q4f16_1") || same_chars(rest, ".q4f16_1") {
        Some(owned("q4f16_1"))
    } else {
        None
    }
}

fn family_match_exec(s: &Vec<char>, f: usize) -> (r: Option<Option<String>>)
    requires
        f < 7,
    ensures
        match r {
            Some(q) => family_match(s@, f as nat) == Some(opt_view(q)),
            None => family_match(s@, f as nat) is None,
        },
{
    let b = chars_of(family_base_str(f));
    if same_chars(s, family_base_str(f)) {
        return Some(None);
    }
    if has_prefix_exec(s, &b) {
        let rest = slice_chars(s, b.len(), s.len());
        match quant_for_suffix_exec(f, &rest) {
            Some(q) => {
                return Some(Some(q));
            },
            None => {},
        }
    }
    None
}

impl Models {
    /// The mathematical content of this model.
    pub open spec fn choice(&self) -> ModelChoice {
        match self {
            Models::Llama321BInstruct(q) => ModelChoice::Catalog(0, opt_view(*q)),
            Models::Llama323BInstruct(q) => ModelChoice::Catalog(1, opt_view(*q)),
            Models::Mistral7BInstructV03(q) => ModelChoice::Catalog(2, opt_view(*q)),
            Models::Mixtral8x7BInstructV01(q) => ModelChoice::Catalog(3, opt_view(*q)),
            Models::Gemma22BInstruct(q) => ModelChoice::Catalog(4, opt_view(*q)),
            Models::Gemma27BInstruct(q) => ModelChoice::Catalog(5, opt_view(*q)),
            Models::Gemma29BInstruct(q) => ModelChoice::Catalog(6, opt_view(*q)),
            Models::Url(u) => ModelChoice::Url(u@),
        }
    }

    /// A URL model holds a URL that passed the default policy.
    pub open spec fn wf(&self) -> bool {
        match self.choice() {
            ModelChoice::Url(u) => url_verdict(default_policy(), u) is Ok,
            ModelChoice::Catalog(f, _) => f < 7,
        }
    }

    fn catalog_model(f: usize, q: Option<String>) -> (r: Models)
        requires
            f < 7,
        ensures
            r.choice() == ModelChoice::Catalog(f as nat, opt_view(q)),
    {
        if f == 0 {
            Models::Llama321BInstruct(q)
        } else if f == 1 {
            Models::Llama323BInstruct(q)
        } else if f == 2 {
            Models::Mistral7BInstructV03(q)
        } else if f == 3 {
            Models::Mixtral8x7BInstructV01(q)
        } else if f == 4 {
            Models::Gemma22BInstruct(q)
        } else if f == 5 {
            Models::Gemma27BInstruct(q)
        } else {
            Models::Gemma29BInstruct(q)
        }
    }

    fn catalog_parts(&self) -> (r: Option<(usize, &Option<String>)>)
        ensures
            match r {
                Some((f, q)) => f < 7 && self.choice() == ModelChoice::Catalog(f as nat, opt_view(*q)),
                None => self.choice() is Url,
            },
    {
        match self {
            Models::Llama321BInstruct(q) => Some((0, q)),
            Models::Llama323BInstruct(q) => Some((1, q)),
            Models::Mistral7BInstructV03(q) => Some((2, q)),
            Models::Mixtral8x7BInstructV01(q) => Some((3, q)),
            Models::Gemma22BInstruct(q) => Some((4, q)),
            Models::Gemma27BInstruct(q) => Some((5, q)),
            Models::Gemma29BInstruct(q) => Some((6, q)),
            Models::Url(_) => None,
        }
    }

    /// Parse a model identifier: a catalog name, with an optional
    /// quantization suffix, or else a custom URL that passes the default
    /// security policy.
    pub fn parse(s: &str) -> (r: Result<Models, String>)
        ensures
            match r {
                Ok(m) => parse_model(s@) == Ok::<ModelChoice, Seq<char>>(m.choice()) && m.wf(),
                Err(e) => parse_model(s@) == Err::<ModelChoice, Seq<char>>(e@),
            },
    {
        let cs = chars_of(s);
        let mut f: usize = 0;
        while f < FAMILY_COUNT
            invariant
                f <= 7,
                cs@ == s@,
                catalog_lookup(s@) == catalog_from(s@, f as nat),
            decreases 7 - f,
        {
            match family_match_exec(&cs, f) {
                Some(q) => {
                    return Ok(Models::catalog_model(f, q));
                },
                None => {},
            }
            f = f + 1;
        }
        let url = match ModelUrl::parse(s) {
            Some(u) => u,
            None => {
                return Err(joined("Invalid model name or URL: ", s));
            },
        };
        let policy = SecurityConfig::default();
        match policy.validate_model_url(&url) {
            Ok(()) => Ok(Models::Url(url)),
            Err(e) => Err(e),
        }
    }

    /// Whether the model is well formed: a URL model's URL passes the
    /// default policy.
    pub fn is_valid(&self) -> (r: bool)
        ensures
            r == self.wf(),
    {
        match self {
            Models::Url(u) => SecurityConfig::default().validate_model_url(u).is_ok(),
            _ => {
                proof {
                    assert(self.choice() is Catalog);
                }
                true
            },
        }
    }

    /// The Hugging Face repository of a catalog model; `None` for a URL.
    pub fn model_repo(&self) -> (r: Option<String>)
        ensures
            opt_view(r) == model_repo_of(self.choice()),
    {
        match self.catalog_parts() {
            Some((f, _)) => {
                let r = joined(joined("Mozilla/", family_base_str(f)).as_str(), "-llamafile");
                Some(r)
            },
            None => None,
        }
    }

    /// The file name the model is stored under.
    pub fn model_file(&self) -> (r: String)
        requires
            self.wf(),
        ensures
            r@ == model_file_of(self.choice()),
            last_segment_some(self),
    {
        match self.catalog_parts() {
            Some((f, q)) => {
                let stem = joined(family_base_str(f), ".");
                match q {
                    Some(q) => joined(stem.as_str(), q.as_str()),
                    None => joined(stem.as_str(), "Q6_K.llamafile"),
                }
            },
            None => match self {
                Models::Url(u) => match u.last_segment() {
                    Some(name) => name,
                    None => String::new(),
                },
                _ => String::new(),
            },
        }
    }

    /// The name the model is shown by: the catalog name, or the URL.
    pub fn name(&self) -> (r: String)
        ensures
            r@ == model_name_of(self.choice()),
    {
        match self.catalog_parts() {
            Some((f, _)) => owned(family_base_str(f)),
            None => match self {
                Models::Url(u) => owned(u.as_str()),
                _ => String::new(),
            },
        }
    }

    /// The URL the model file is downloaded from.
    pub fn download_url(&self) -> (r: String)
        requires
            self.wf(),
        ensures
            r@ == download_url_of(self.choice()),
    {
        match self.model_repo() {
            Some(repo) => {
                let a = joined("https://huggingface.co/", repo.as_str());
                let b = joined(a.as_str(), "/resolve/main/");
                let c = joined(b.as_str(), self.model_file().as_str());
                joined(c.as_str(), "?download=true")
            },
            None => self.name(),
        }
    }
}

/// A URL model's file name comes from a path segment that exists.
pub open spec fn last_segment_some(m: &Models) -> bool {
    m.choice() matches ModelChoice::Url(u) ==> last_segment(u) is Some
}

impl std::str::FromStr for Models {
    type Err = String;

    fn from_str(s: &str) -> (r: Result<Models, String>)
        ensures
            match r {
                Ok(m) => parse_model(s@) == Ok::<ModelChoice, Seq<char>>(m.choice()) && m.wf(),
                Err(e) => parse_model(s@) == Err::<ModelChoice, Seq<char>>(e@),
            },
    {
        Models::parse(s)
    }
}

} // verus!
