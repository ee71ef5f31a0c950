//! The tool bridge: the map of discovered tools, the system prompt that
//! describes them, and the detection of function calls in model output.
use crate::models::{opt_view, parsed_url, ModelUrl};
use crate::session::LlmOptions;
use crate::text::{
    chars_of, first_index_of, find_char, joined, last_index_of, owned, rfind_char, slice_chars,
    string_of,
};
use std::fmt::Write;
use vstd::prelude::*;
use vstd::string::StringExecFns;

verus! {

#[verifier::external_type_specification]
#[verifier::external_body]
pub struct ExJsonValue(serde_json::Value);

/// What the logic reads of a tool.
pub struct ToolView {
    pub url: Seq<char>,
    pub tool: serde_json::Value,
    pub is_accessible: bool,
}

/// A tool discovered at an endpoint: its name, the endpoint's URL, its
/// definition as JSON, and whether it can be reached.
#[derive(Debug)]
pub struct ToolInfo {
    pub name: String,
    pub url: String,
    pub tool: serde_json::Value,
    pub is_accessible: bool,
}

impl View for ToolInfo {
    type V = ToolView;

    open spec fn view(&self) -> ToolView {
        ToolView { url: self.url@, tool: self.tool, is_accessible: self.is_accessible }
    }
}

/// Each name stands once in `e`, and `m` maps each name to its tool.
pub closed spec fn tools_inv(e: Seq<ToolInfo>, m: Map<Seq<char>, ToolView>) -> bool {
    &&& forall|i: int, j: int| 0 <= i < j < e.len() ==> e[i].name@ != e[j].name@
    &&& forall|i: int|
        0 <= i < e.len() ==> m.contains_key(#[trigger] e[i].name@) && m[e[i].name@] == e[i]@
    &&& forall|k: Seq<char>|
        #[trigger] m.contains_key(k) ==> exists|i: int| 0 <= i < e.len() && e[i].name@ == k
}

/// The tools of a session, keyed by name; each name stands once.
pub struct ToolsMap {
    entries: Vec<ToolInfo>,
    keyed: Ghost<Map<Seq<char>, ToolView>>,
}

impl View for ToolsMap {
    type V = Map<Seq<char>, ToolView>;

    closed spec fn view(&self) -> Map<Seq<char>, ToolView> {
        self.keyed@
    }
}

impl ToolsMap {
    #[verifier::type_invariant]
    closed spec fn inv(self) -> bool {
        tools_inv(self.entries@, self.keyed@)
    }

    /// The tools in the order they were first added.
    pub closed spec fn order(&self) -> Seq<ToolInfo> {
        self.entries@
    }

    pub fn new() -> (r: ToolsMap)
        ensures
            r@ == Map::<Seq<char>, ToolView>::empty(),
    {
        ToolsMap { entries: Vec::new(), keyed: Ghost(Map::empty()) }
    }

    pub fn len(&self) -> (r: usize)
        ensures
            r == self@.dom().len(),
    {
        proof {
            use_type_invariant(self);
            self.lemma_dom_is_names();
        }
        self.entries.len()
    }

    proof fn lemma_dom_is_names(&self)
        requires
            self.inv(),
        ensures
            self@.dom().finite(),
            self@.dom().len() == self.entries@.len(),
        decreases self.entries@.len(),
    {
        let names = self.entries@.map_values(|t: ToolInfo| t.name@);
        assert forall|k: Seq<char>| self@.dom().contains(k) <==> names.to_set().contains(k) by {
            if self@.dom().contains(k) {
                let i = choose|i: int| 0 <= i < self.entries@.len() && self.entries@[i].name@ == k;
                assert(names[i] == k);
            }
            if names.to_set().contains(k) {
                let i = choose|i: int| 0 <= i < names.len() && names[i] == k;
                assert(self.entries@[i].name@ == k);
            }
        }
        assert(self@.dom() =~= names.to_set());
        assert(names.no_duplicates()) by {
            assert forall|i: int, j: int| 0 <= i < names.len() && 0 <= j < names.len() && i != j
                implies names[i] != names[j] by {
                if i < j {
                } else {
                }
            }
        }
        names.unique_seq_to_set();
    }

    /// The entry for a name.
    fn index_of(&self, name: &Vec<char>) -> (r: Option<usize>)
        ensures
            match r {
                Some(i) => i < self.order().len() && self.order()[i as int].name@ == name@,
                None => !self@.contains_key(name@),
            },
    {
        proof {
            use_type_invariant(self);
        }
        let mut i: usize = 0;
        while i < self.entries.len()
            invariant
                i <= self.entries.len(),
                forall|j: int| 0 <= j < i ==> self.entries@[j].name@ != name@,
            decreases self.entries.len() - i,
        {
            if crate::text::same_chars(name, self.entries[i].name.as_str()) {
                return Some(i);
            }
            i = i + 1;
        }
        None
    }

    /// This map with a tool added; a tool of the same name is replaced.
    pub fn with_tool(self, info: ToolInfo) -> (r: ToolsMap)
        ensures
            r@ == self@.insert(info.name@, info@),
    {
        proof {
            use_type_invariant(&self);
        }
        let key = chars_of(info.name.as_str());
        let ghost v = info@;
        let found = self.index_of(&key);
        let ghost old_entries = self.entries@;
        let ghost old_keyed = self.keyed@;
        let ToolsMap { mut entries, keyed } = self;
        let ghost m = old_keyed.insert(key@, v);
        match found {
            Some(i) => {
                entries.set(i, info);
                assert forall|k: Seq<char>| #[trigger] m.contains_key(k) implies exists|j: int|
                    0 <= j < entries@.len() && entries@[j].name@ == k by {
                    if k != key@ {
                        let j = choose|j: int| 0 <= j < old_entries.len() && old_entries[j].name@ == k;
                        assert(entries@[j].name@ == k);
                    } else {
                        assert(entries@[i as int].name@ == k);
                    }
                }
                assert forall|j: int| 0 <= j < entries@.len() implies m.contains_key(
                    #[trigger] entries@[j].name@,
                ) && m[entries@[j].name@] == entries@[j]@ by {
                    if j != i {
                        assert(old_entries[j].name@ != old_entries[i as int].name@);
                    }
                }
                assert forall|a: int, b: int| 0 <= a < b < entries@.len() implies entries@[a].name@
                    != entries@[b].name@ by {
                    assert(old_entries[a].name@ != old_entries[b].name@);
                }
                assert(tools_inv(entries@, m));
                ToolsMap { entries, keyed: Ghost(m) }
            },
            None => {
                entries.push(info);
                assert forall|k: Seq<char>| #[trigger] m.contains_key(k) implies exists|j: int|
                    0 <= j < entries@.len() && entries@[j].name@ == k by {
                    if k != key@ {
                        let j = choose|j: int| 0 <= j < old_entries.len() && old_entries[j].name@ == k;
                        assert(entries@[j].name@ == k);
                    } else {
                        assert(entries@[entries@.len() - 1].name@ == k);
                    }
                }
                assert forall|j: int| 0 <= j < old_entries.len() implies old_entries[j].name@ != key@ by {
                    assert(old_keyed.contains_key(old_entries[j].name@));
                }
                assert forall|j: int| 0 <= j < entries@.len() implies m.contains_key(
                    #[trigger] entries@[j].name@,
                ) && m[entries@[j].name@] == entries@[j]@ by {
                    if j < old_entries.len() {
                        assert(old_entries[j].name@ != key@);
                    }
                }
                assert forall|a: int, b: int| 0 <= a < b < entries@.len() implies entries@[a].name@
                    != entries@[b].name@ by {
                    if b < old_entries.len() {
                        assert(old_entries[a].name@ != old_entries[b].name@);
                    } else {
                        assert(old_entries[a].name@ != key@);
                    }
                }
                assert(tools_inv(entries@, m));
                ToolsMap { entries, keyed: Ghost(m) }
            },
        }
    }

    /// The tool of a name.
    pub fn get(&self, name: &str) -> (r: Option<&ToolInfo>)
        ensures
            match r {
                Some(t) => self@.contains_key(name@) && self@[name@] == t@ && t.name@ == name@,
                None => !self@.contains_key(name@),
            },
    {
        proof {
            use_type_invariant(self);
        }
        match self.index_of(&chars_of(name)) {
            Some(i) => Some(&self.entries[i]),
            None => None,
        }
    }

    /// Whether at least one tool can be reached.
    pub fn has_accessible_tool(&self) -> (r: bool)
        ensures
            r == exists|k: Seq<char>| #[trigger] self@.contains_key(k) && self@[k].is_accessible,
    {
        proof {
            use_type_invariant(self);
        }
        let mut i: usize = 0;
        while i < self.entries.len()
            invariant
                i <= self.entries.len(),
                forall|j: int| 0 <= j < i ==> !self.entries@[j].is_accessible,
            decreases self.entries.len() - i,
        {
            if self.entries[i].is_accessible {
                proof {
                    use_type_invariant(self);
                }
                assert(self@.contains_key(self.entries@[i as int].name@));
                return true;
            }
            i = i + 1;
        }
        proof {
            use_type_invariant(self);
        }
        assert forall|k: Seq<char>| #[trigger] self@.contains_key(k) implies !self@[k].is_accessible by {
            let j = choose|j: int| 0 <= j < self.entries@.len() && self.entries@[j].name@ == k;
        }
        false
    }

    /// The tools, in the order they were first added: each name once, each
    /// tool as the map holds it.
    pub fn tools(&self) -> (r: &Vec<ToolInfo>)
        ensures
            r@ == self.order(),
            r@.len() == self@.dom().len(),
            forall|i: int, j: int| 0 <= i < j < r@.len() ==> r@[i].name@ != r@[j].name@,
            forall|i: int|
                0 <= i < r@.len() ==> self@.contains_key(#[trigger] r@[i].name@) && self@[r@[i].name@]
                    == r@[i]@,
            forall|k: Seq<char>| #[trigger] self@.contains_key(k) ==> exists|i: int| 0 <= i < r@.len() && r@[i].name@ == k,
    {
        proof {
            use_type_invariant(self);
            self.lemma_dom_is_names();
        }
        &self.entries
    }
}

/// A tool found at an endpoint during discovery: its name and definition.
#[derive(Debug)]
pub struct DiscoveredTool {
    pub name: String,
    pub tool: serde_json::Value,
}

/// The map after the tools `found` (name and definition), in order, were
/// added from endpoint `url`: a later tool of a name replaces an earlier
/// one.
pub open spec fn with_endpoint_tools(
    m: Map<Seq<char>, ToolView>,
    url: Seq<char>,
    found: Seq<(Seq<char>, serde_json::Value)>,
) -> Map<Seq<char>, ToolView>
    decreases found.len(),
{
    if found.len() == 0 {
        m
    } else {
        with_endpoint_tools(m, url, found.drop_last()).insert(
            found.last().0,
            ToolView { url, tool: found.last().1, is_accessible: true },
        )
    }
}

pub open spec fn discovered_entries(v: Seq<DiscoveredTool>) -> Seq<(Seq<char>, serde_json::Value)> {
    v.map_values(|t: DiscoveredTool| (t.name@, t.tool))
}

/// Add the tools an endpoint listed, in order; each is reachable, and a tool
/// replaces any earlier tool of its name.
pub fn merge_endpoint_tools(map: ToolsMap, url: &str, tools: Vec<DiscoveredTool>) -> (r: ToolsMap)
    ensures
        r@ == with_endpoint_tools(map@, url@, discovered_entries(tools@)),
{
    let ghost found = discovered_entries(tools@);
    let ghost start = map@;
    assert(found.len() == tools.len());
    let mut rest = tools;
    let mut map = map;
    let mut i: usize = 0;
    while rest.len() > 0
        invariant
            i + rest@.len() == found.len(),
            found.len() <= usize::MAX,
            discovered_entries(rest@) == found.subrange(i as int, found.len() as int),
            map@ == with_endpoint_tools(start, url@, found.subrange(0, i as int)),
        decreases rest.len(),
    {
        let ghost before = rest@;
        let t = rest.remove(0);
        assert(rest@ =~= before.subrange(1, before.len() as int));
        assert(found.subrange(i as int, found.len() as int)[0] == (t.name@, t.tool));
        assert(found.subrange(0, i + 1).drop_last() =~= found.subrange(0, i as int));
        map = map.with_tool(ToolInfo { name: t.name, url: owned(url), tool: t.tool, is_accessible: true });
        assert(discovered_entries(rest@) =~= discovered_entries(before).subrange(1, before.len() as int));
        assert(discovered_entries(rest@) =~= found.subrange(i + 1, found.len() as int));
        i = i + 1;
    }
    assert(found.subrange(0, found.len() as int) =~= found);
    map
}

/// The endpoints, of those given, that parse as URLs, as the URL parser
/// writes them; the others are skipped.
pub open spec fn endpoints_of(urls: Seq<Seq<char>>) -> Seq<Seq<char>>
    decreases urls.len(),
{
    if urls.len() == 0 {
        Seq::empty()
    } else {
        endpoints_of(urls.drop_last()) + match parsed_url(urls.last()) {
            Some(u) => seq![u.href],
            None => Seq::empty(),
        }
    }
}

pub open spec fn strings_view(v: Seq<String>) -> Seq<Seq<char>> {
    v.map_values(|s: String| s@)
}

/// The tool endpoints that parse as URLs; the others are skipped.
pub fn tool_endpoints(urls: &Vec<String>) -> (r: Vec<String>)
    ensures
        strings_view(r@) == endpoints_of(strings_view(urls@)),
{
    let mut r: Vec<String> = Vec::new();
    let mut i: usize = 0;
    while i < urls.len()
        invariant
            i <= urls.len(),
            strings_view(r@) == endpoints_of(strings_view(urls@).subrange(0, i as int)),
        decreases urls.len() - i,
    {
        let ghost before = r@;
        assert(strings_view(urls@).subrange(0, i + 1).drop_last() =~= strings_view(urls@).subrange(0, i as int));
        match ModelUrl::parse(urls[i].as_str()) {
            Some(u) => {
                r.push(owned(u.as_str()));
                assert(strings_view(r@) =~= strings_view(before) + seq![u@.href]);
            },
            None => {
                assert(strings_view(urls@).subrange(0, i + 1).last() == urls@[i as int]@);
            },
        }
        i = i + 1;
    }
    assert(strings_view(urls@).subrange(0, urls@.len() as int) =~= strings_view(urls@));
    r
}

/// What a JSON text holds under `key`: `None` where the text is not JSON;
/// else whether the member is there, and its text if it is a string.
pub uninterp spec fn json_member_of(s: Seq<char>, key: Seq<char>) -> Option<(bool, Option<Seq<char>>)>;

/// A member of a JSON value: the value itself, and its text if it is a
/// string.
pub struct JsonMember {
    pub value: Option<serde_json::Value>,
    pub text: Option<String>,
}

/// Relies on `serde_json::from_str` into a `serde_json::Value`, then
/// `Value::get` for the member and `Value::as_str` for its text: the result
/// depends on the text and the key alone.
#[verifier::external_body]
fn json_member(s: &str, key: &str) -> (r: Option<JsonMember>)
    ensures
        match r {
            Some(m) => json_member_of(s@, key@) == Some((m.value is Some, opt_view(m.text))),
            None => json_member_of(s@, key@) is None,
        },
{
    match serde_json::from_str::<serde_json::Value>(s) {
        Ok(v) => {
            let member = v.get(key);
            Some(
                JsonMember {
                    text: member.and_then(serde_json::Value::as_str).map(String::from),
                    value: member.cloned(),
                },
            )
        },
        Err(_) => None,
    }
}

/// The `name` of a function call: the `name` member, when it is a string.
pub open spec fn call_name_of(cand: Seq<char>) -> Option<Seq<char>> {
    match json_member_of(cand, "name"@) {
        Some((_, Some(n))) => Some(n),
        _ => None,
    }
}

/// A function call carries an `arguments` member.
pub open spec fn has_arguments(cand: Seq<char>) -> bool {
    json_member_of(cand, "arguments"@) matches Some((true, _))
}

/// The text that may hold a function call: from the first `{` to the last
/// `}` when that `}` comes after it, else from the first `{` to the end;
/// `None` when there is no `{`.
pub open spec fn call_candidate(c: Seq<char>) -> Option<Seq<char>> {
    match first_index_of(c, '{') {
        None => None,
        Some(start) => match last_index_of(c, '}') {
            Some(end) if start < end => Some(c.subrange(start, end + 1)),
            _ => Some(c.subrange(start, c.len() as int)),
        },
    }
}

/// What a model output asks for.
pub enum CallView {
    NoCall,
    Unknown(Seq<char>),
    Call(Seq<char>, Seq<char>),
}

/// The verdict on a model output: no function call unless the candidate
/// text is JSON with a string `name` and an `arguments` member; then a call
/// of that tool at its endpoint, or an unknown tool.
pub open spec fn detection_of(c: Seq<char>, tools: Map<Seq<char>, ToolView>) -> CallView {
    match call_candidate(c) {
        None => CallView::NoCall,
        Some(cand) => match call_name_of(cand) {
            Some(name) if has_arguments(cand) => if tools.contains_key(name) {
                CallView::Call(name, tools[name].url)
            } else {
                CallView::Unknown(name)
            },
            _ => CallView::NoCall,
        },
    }
}

/// A call of a tool: its name, its endpoint and the arguments object.
#[derive(Debug)]
pub struct ToolCall {
    pub name: String,
    pub url: String,
    pub arguments: serde_json::Value,
}

/// What a model output asks for.
#[derive(Debug)]
pub enum FunctionCall {
    NoFunctionCall,
    UnknownTool(String),
    Call(ToolCall),
}

impl View for FunctionCall {
    type V = CallView;

    open spec fn view(&self) -> CallView {
        match self {
            FunctionCall::NoFunctionCall => CallView::NoCall,
            FunctionCall::UnknownTool(n) => CallView::Unknown(n@),
            FunctionCall::Call(c) => CallView::Call(c.name@, c.url@),
        }
    }
}

/// Find the function call, if any, in a model output.
pub fn detect_function_call(content: &str, tools: &ToolsMap) -> (r: FunctionCall)
    ensures
        r@ == detection_of(content@, tools@),
{
    let c = chars_of(content);
    let start = match find_char(&c, '{') {
        Some(i) => i,
        None => {
            return FunctionCall::NoFunctionCall;
        },
    };
    let candidate = match rfind_char(&c, '}') {
        Some(end) if start < end => slice_chars(&c, start, end + 1),
        _ => slice_chars(&c, start, c.len()),
    };
    let text = string_of(&candidate);
    let name = match json_member(text.as_str(), "name") {
        Some(JsonMember { text: Some(n), .. }) => n,
        _ => {
            return FunctionCall::NoFunctionCall;
        },
    };
    let arguments = match json_member(text.as_str(), "arguments") {
        Some(JsonMember { value: Some(a), .. }) => a,
        _ => {
            return FunctionCall::NoFunctionCall;
        },
    };
    match tools.get(name.as_str()) {
        Some(info) => FunctionCall::Call(ToolCall { name, url: info.url.clone(), arguments }),
        None => FunctionCall::UnknownTool(name),
    }
}

/// Result of processing a potential function call.
#[derive(Debug)]
pub enum ProcessFunctionResult {
    NoFunctionCall,
    FunctionExecuted(String),
    Error(String),
}

/// The text of a tool's output: its text segments joined by single spaces.
pub open spec fn joined_texts(v: Seq<Seq<char>>) -> Seq<char>
    decreases v.len(),
{
    if v.len() == 0 {
        Seq::empty()
    } else if v.len() == 1 {
        v[0]
    } else {
        joined_texts(v.drop_last()) + " "@ + v.last()
    }
}

/// The texts among a tool's output items (`None` for an item that is not
/// text).
pub open spec fn texts_of(v: Seq<Option<String>>) -> Seq<Seq<char>>
    decreases v.len(),
{
    if v.len() == 0 {
        Seq::empty()
    } else {
        texts_of(v.drop_last()) + match v.last() {
            Some(t) => seq![t@],
            None => Seq::empty(),
        }
    }
}

/// The outcome of a tool call from the tool's answer: an error when the tool
/// flagged one, else its text items joined by spaces.
pub fn tool_output(name: &str, is_error: bool, items: &Vec<Option<String>>) -> (r: Result<String, String>)
    ensures
        is_error ==> (r matches Err(e) && e@ == "Tool "@ + name@ + " returned an error"@),
        !is_error ==> (r matches Ok(t) && t@ == joined_texts(texts_of(items@))),
{
    if is_error {
        return Err(joined(joined("Tool ", name).as_str(), " returned an error"));
    }
    let mut out = String::new();
    let mut any = false;
    let mut i: usize = 0;
    while i < items.len()
        invariant
            i <= items.len(),
            any == (texts_of(items@.subrange(0, i as int)).len() > 0),
            out@ == joined_texts(texts_of(items@.subrange(0, i as int))),
        decreases items.len() - i,
    {
        let ghost prev = texts_of(items@.subrange(0, i as int));
        assert(items@.subrange(0, i + 1).drop_last() =~= items@.subrange(0, i as int));
        match &items[i] {
            Some(t) => {
                let ghost next = prev + seq![t@];
                assert(next.drop_last() =~= prev);
                if any {
                    out.append(" ");
                }
                out.append(t.as_str());
                any = true;
                assert(texts_of(items@.subrange(0, i + 1)) =~= next);
            },
            None => {
                assert(texts_of(items@.subrange(0, i + 1)) =~= prev);
            },
        }
        i = i + 1;
    }
    assert(items@.subrange(0, items@.len() as int) =~= items@);
    Ok(out)
}

/// The result of a call whose tool was not found.
pub fn unknown_tool_result(name: &str) -> (r: ProcessFunctionResult)
    ensures
        r matches ProcessFunctionResult::Error(e) && e@ == "Error calling function '"@ + name@
            + "': Tool "@ + name@ + " not found"@,
{
    let a = joined("Error calling function '", name);
    let b = joined(a.as_str(), "': Tool ");
    let c = joined(b.as_str(), name);
    ProcessFunctionResult::Error(joined(c.as_str(), " not found"))
}

/// The result of a call from the call's outcome.
pub fn tool_call_result(name: &str, outcome: Result<String, String>) -> (r: ProcessFunctionResult)
    ensures
        match outcome {
            Ok(t) => r matches ProcessFunctionResult::FunctionExecuted(u) && u@ == t@,
            Err(e) => r matches ProcessFunctionResult::Error(m) && m@ == "Error calling function '"@
                + name@ + "': "@ + e@,
        },
{
    match outcome {
        Ok(t) => ProcessFunctionResult::FunctionExecuted(t),
        Err(e) => {
            let a = joined("Error calling function '", name);
            let b = joined(a.as_str(), "': ");
            ProcessFunctionResult::Error(joined(b.as_str(), e.as_str()))
        },
    }
}

pub open spec fn default_system_message() -> Seq<char> {
    "You are a helpful AI assistant."@
}

pub open spec fn tool_intro() -> Seq<char> {
    "\n# Assistant Instructions\nYou are a helpful AI assistant that can leverage tools to provide accurate and up-to-date information. You excel at understanding when and how to use the right tools to solve user requests efficiently.\n"@
}

pub open spec fn tool_header() -> Seq<char> {
    "\n# Tool Instructions\nYou have access to external tools that can provide real-time information, perform calculations, and execute specific actions. Always consider using these tools when:\n- The user asks for real-time or up-to-date information\n- The user's request requires external data that may not be in your training\n- A specialized capability would provide a more accurate or detailed response\n- You need to verify facts or check current information\n\nAvailable functions:\n"@
}

pub open spec fn tool_protocol() -> Seq<char> {
    "\n\nFunction calling protocol:\n```\n<function>{ \"name\": \"example_function_name\", \"arguments\": { \"example_name\": \"example_value\" } }</function>\n```\n\nCritical requirements for function calls:\n- Function calls MUST be enclosed in BOTH <function> and </function> tags\n- All required parameters MUST be specified in the arguments object\n- When calling a function, respond ONLY with the function call JSON object\n- Keep the entire function call on a single line\n- Call only one function at a time\n- Include exact parameter names as specified in the function definition\n- When using search results in non-function responses, always cite your sources\n\nFor complex requests, use a step-by-step approach:\n1. Analyze what tool is most appropriate for the request\n2. Call the function with precise parameters\n3. Use the returned data to formulate your complete response\n\nWhen explicitly asked to use MCP (Model Context Protocol), you MUST use the functions provided to you.\n"@
}

/// The system prompt: the date line, then either the tool instructions
/// around the caller's message and the rendered tool list, or (with no
/// tools) the caller's message or a default one.
pub open spec fn system_prompt_of(
    date: Seq<char>,
    message: Option<Seq<char>>,
    rendered_tools: Option<Seq<char>>,
) -> Seq<char> {
    let head = "Today Date: "@ + date + "\n"@;
    match rendered_tools {
        Some(t) => head + tool_intro() + match message {
            Some(m) => m + "\n"@,
            None => Seq::empty(),
        } + tool_header() + t + tool_protocol(),
        None => head + "# Assistant Instructions\n"@ + match message {
            Some(m) => m,
            None => default_system_message(),
        },
    }
}

/// Assemble the system prompt from the date, the caller's message and, if
/// tools were found, their rendered definitions.
pub fn assemble_system_prompt(date: &str, message: &Option<String>, rendered_tools: Option<&str>) -> (r: String)
    ensures
        r@ == system_prompt_of(
            date@,
            opt_view(*message),
            match rendered_tools {
                Some(t) => Some(t@),
                None => None,
            },
        ),
{
    let mut p = joined("Today Date: ", date);
    p.append("\n");
    match rendered_tools {
        Some(t) => {
            p.append("\n# Assistant Instructions\nYou are a helpful AI assistant that can leverage tools to provide accurate and up-to-date information. You excel at understanding when and how to use the right tools to solve user requests efficiently.\n");
            match message {
                Some(m) => {
                    p.append(m.as_str());
                    p.append("\n");
                },
                None => {},
            }
            p.append("\n# Tool Instructions\nYou have access to external tools that can provide real-time information, perform calculations, and execute specific actions. Always consider using these tools when:\n- The user asks for real-time or up-to-date information\n- The user's request requires external data that may not be in your training\n- A specialized capability would provide a more accurate or detailed response\n- You need to verify facts or check current information\n\nAvailable functions:\n");
            p.append(t);
            p.append("\n\nFunction calling protocol:\n```\n<function>{ \"name\": \"example_function_name\", \"arguments\": { \"example_name\": \"example_value\" } }</function>\n```\n\nCritical requirements for function calls:\n- Function calls MUST be enclosed in BOTH <function> and </function> tags\n- All required parameters MUST be specified in the arguments object\n- When calling a function, respond ONLY with the function call JSON object\n- Keep the entire function call on a single line\n- Call only one function at a time\n- Include exact parameter names as specified in the function definition\n- When using search results in non-function responses, always cite your sources\n\nFor complex requests, use a step-by-step approach:\n1. Analyze what tool is most appropriate for the request\n2. Call the function with precise parameters\n3. Use the returned data to formulate your complete response\n\nWhen explicitly asked to use MCP (Model Context Protocol), you MUST use the functions provided to you.\n");
        },
        None => {
            p.append("# Assistant Instructions\n");
            match message {
                Some(m) => p.append(m.as_str()),
                None => p.append("You are a helpful AI assistant."),
            }
        },
    }
    p
}

/// Relies on `chrono::Local::now` and `DateTime::format`: the local date
/// written by a strftime-style `format`; `None` where the format cannot be
/// written. It depends on the clock.
#[verifier::external_body]
fn local_date(format: &str) -> (r: Option<String>) {
    let mut out = String::new();
    match write!(out, "{}", chrono::Local::now().format(format)) {
        Ok(()) => Some(out),
        Err(_) => None,
    }
}

/// Relies on `serde_json::to_string_pretty`: the tool definitions as one
/// indented JSON array, in map order (empty if serialising fails).
#[verifier::external_body]
fn render_tool_definitions(tools: &ToolsMap) -> (r: String) {
    let defs: Vec<&serde_json::Value> = tools.tools().iter().map(|t| &t.tool).collect();
    serde_json::to_string_pretty(&defs).unwrap_or_default()
}

/// The system prompt for a session and the tools it keeps: with at least one
/// discovered tool the prompt describes the tools; otherwise it is the
/// caller's system message (or the default one). The map is kept whenever
/// tool endpoints were given.
pub fn construct_system_prompt_with_tools(options: &LlmOptions, tools_map: Option<ToolsMap>) -> (r: (
    String,
    Option<ToolsMap>,
))
    ensures
        match tools_map {
            Some(m) => r.1 matches Some(k) && k@ == m@,
            None => r.1 is None,
        },
        (tools_map is None || tools_map->0@.dom().len() == 0) ==> exists|d: Seq<char>|
            r.0@ == #[trigger] system_prompt_of(d, opt_view(options.system_message), None),
        (tools_map matches Some(m) && m@.dom().len() > 0) ==> exists|d: Seq<char>, t: Seq<char>|
            r.0@ == #[trigger] system_prompt_of(d, opt_view(options.system_message), Some(t)),
{
    let date = match local_date("%B %d, %Y") {
        Some(d) => d,
        None => String::new(),
    };
    match tools_map {
        Some(m) => {
            if m.len() > 0 {
                let rendered = render_tool_definitions(&m);
                let p = assemble_system_prompt(date.as_str(), &options.system_message, Some(rendered.as_str()));
                (p, Some(m))
            } else {
                let p = assemble_system_prompt(date.as_str(), &options.system_message, None);
                (p, Some(m))
            }
        },
        None => (assemble_system_prompt(date.as_str(), &options.system_message, None), None),
    }
}

} // verus!
