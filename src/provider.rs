//! Messages, provider errors and the configuration of the local inference
//! server.
use crate::text::{chars_of, joined, owned, string_of};
use vstd::prelude::*;

verus! {

/// Who wrote a message.
#[derive(Debug, Clone, Copy, PartialEq, Eq, Structural)]
pub enum Role {
    System,
    User,
    Assistant,
    Tool,
}

/// The wire name of a role.
pub open spec fn role_name(r: Role) -> Seq<char> {
    match r {
        Role::System => "system"@,
        Role::User => "user"@,
        Role::Assistant => "assistant"@,
        Role::Tool => "tool"@,
    }
}

impl Role {
    /// The wire name of the role.
    pub fn as_str(&self) -> (r: &'static str)
        ensures
            r@ == role_name(*self),
    {
        match self {
            Role::System => "system",
            Role::User => "user",
            Role::Assistant => "assistant",
            Role::Tool => "tool",
        }
    }

    /// The role with the given wire name.
    pub fn from_name(name: &str) -> (r: Option<Role>)
        ensures
            r matches Some(role) ==> role_name(role) == name@,
            r is None ==> forall|role: Role| role_name(role) != name@,
    {
        let cs = chars_of(name);
        if crate::text::same_chars(&cs, "system") {
            Some(Role::System)
        } else if crate::text::same_chars(&cs, "user") {
            Some(Role::User)
        } else if crate::text::same_chars(&cs, "assistant") {
            Some(Role::Assistant)
        } else if crate::text::same_chars(&cs, "tool") {
            Some(Role::Tool)
        } else {
            None
        }
    }
}

/// The content of a message.
pub struct MessageView {
    pub role: Role,
    pub content: Seq<char>,
}

/// One turn of a conversation.
#[derive(Debug, Clone)]
pub struct Message {
    pub role: Role,
    pub content: String,
}

impl View for Message {
    type V = MessageView;

    open spec fn view(&self) -> MessageView {
        MessageView { role: self.role, content: self.content@ }
    }
}

pub open spec fn msg(role: Role, content: Seq<char>) -> MessageView {
    MessageView { role, content }
}

/// The contents of a message log.
pub open spec fn log_view(v: Seq<Message>) -> Seq<MessageView> {
    v.map_values(|m: Message| m@)
}

impl Message {
    pub fn new(role: Role, content: String) -> (r: Message)
        ensures
            r@ == msg(role, content@),
    {
        Message { role, content }
    }

    /// A copy of the message.
    pub fn duplicate(&self) -> (r: Message)
        ensures
            r@ == self@,
    {
        Message { role: self.role, content: self.content.clone() }
    }
}

/// A copy of a message log.
pub fn copy_log(v: &Vec<Message>) -> (r: Vec<Message>)
    ensures
        log_view(r@) == log_view(v@),
{
    let mut r: Vec<Message> = Vec::new();
    let mut i: usize = 0;
    while i < v.len()
        invariant
            i <= v.len(),
            log_view(r@) =~= log_view(v@.subrange(0, i as int)),
        decreases v.len() - i,
    {
        let ghost before = r@;
        let m = v[i].duplicate();
        r.push(m);
        assert(v@.subrange(0, i + 1) =~= v@.subrange(0, i as int).push(v@[i as int]));
        assert(log_view(r@) =~= log_view(before).push(m@));
        assert(log_view(v@.subrange(0, i + 1)) =~= log_view(v@.subrange(0, i as int)).push(v@[i as int]@));
        i = i + 1;
    }
    assert(v@.subrange(0, v@.len() as int) =~= v@);
    r
}

/// What went wrong in the provider.
#[derive(Debug, Clone)]
pub enum ProviderError {
    InitializationFailed(String),
    CommunicationError(String),
    InvalidResponse(String),
    ShutdownError(String),
    LLamaFileServerError(String),
    ServerResponseError(String),
    StreamError(String),
}

/// The text that describes a provider error.
pub open spec fn provider_error_text(e: ProviderError) -> Seq<char> {
    match e {
        ProviderError::InitializationFailed(m) => "Initialization failed: "@ + m@,
        ProviderError::CommunicationError(m) => "Communication error: "@ + m@,
        ProviderError::InvalidResponse(m) => "Invalid response: "@ + m@,
        ProviderError::ShutdownError(m) => "Shutdown error: "@ + m@,
        ProviderError::LLamaFileServerError(m) => "Llamafile server error: "@ + m@,
        ProviderError::ServerResponseError(m) => "Server response error: "@ + m@,
        ProviderError::StreamError(m) => "Stream error: "@ + m@,
    }
}

impl ProviderError {
    /// The text that describes the error.
    pub fn message(&self) -> (r: String)
        ensures
            r@ == provider_error_text(*self),
    {
        match self {
            ProviderError::InitializationFailed(m) => joined("Initialization failed: ", m.as_str()),
            ProviderError::CommunicationError(m) => joined("Communication error: ", m.as_str()),
            ProviderError::InvalidResponse(m) => joined("Invalid response: ", m.as_str()),
            ProviderError::ShutdownError(m) => joined("Shutdown error: ", m.as_str()),
            ProviderError::LLamaFileServerError(m) => joined("Llamafile server error: ", m.as_str()),
            ProviderError::ServerResponseError(m) => joined("Server response error: ", m.as_str()),
            ProviderError::StreamError(m) => joined("Stream error: ", m.as_str()),
        }
    }
}

/// How spawning the server process failed.
#[derive(Debug, Clone)]
pub enum SpawnFailure {
    NotFound,
    PermissionDenied,
    Other(String),
}

/// The provider error for a failed spawn: a missing file and a refused
/// permission each get a message that says what to do.
pub fn spawn_error(f: SpawnFailure) -> (r: ProviderError)
    ensures
        r is LLamaFileServerError,
        r->LLamaFileServerError_0@ == match f {
            SpawnFailure::NotFound => "LlamaFile not found"@,
            SpawnFailure::PermissionDenied => "Permission denied; please re-download the model"@,
            SpawnFailure::Other(m) => m@,
        },
{
    match f {
        SpawnFailure::NotFound => ProviderError::LLamaFileServerError(owned("LlamaFile not found")),
        SpawnFailure::PermissionDenied => ProviderError::LLamaFileServerError(
            owned("Permission denied; please re-download the model"),
        ),
        SpawnFailure::Other(m) => ProviderError::LLamaFileServerError(m),
    }
}

/// Where the inference server listens, and how long a request may take.
#[derive(Debug, Clone)]
pub struct ProviderConfig {
    pub host: String,
    pub port: u16,
    pub timeout_secs: u64,
}

impl Default for ProviderConfig {
    /// Loopback, port 8080, 30 seconds.
    fn default() -> (r: Self)
        ensures
            r.host@ == "127.0.0.1"@,
            r.port == 8080,
            r.timeout_secs == 30,
    {
        ProviderConfig { host: owned("127.0.0.1"), port: 8080, timeout_secs: 30 }
    }
}

pub open spec fn digit_char(d: nat) -> char {
    if d == 0 {
        '0'
    } else if d == 1 {
        '1'
    } else if d == 2 {
        '2'
    } else if d == 3 {
        '3'
    } else if d == 4 {
        '4'
    } else if d == 5 {
        '5'
    } else if d == 6 {
        '6'
    } else if d == 7 {
        '7'
    } else if d == 8 {
        '8'
    } else {
        '9'
    }
}

/// The decimal digits of `n`, most significant first, without leading zeros.
pub open spec fn decimal(n: nat) -> Seq<char>
    decreases n,
{
    if n < 10 {
        seq![digit_char(n)]
    } else {
        decimal(n / 10).push(digit_char(n % 10))
    }
}

fn digit_exec(d: u64) -> (c: char)
    requires
        d < 10,
    ensures
        c == digit_char(d as nat),
{
    if d == 0 {
        '0'
    } else if d == 1 {
        '1'
    } else if d == 2 {
        '2'
    } else if d == 3 {
        '3'
    } else if d == 4 {
        '4'
    } else if d == 5 {
        '5'
    } else if d == 6 {
        '6'
    } else if d == 7 {
        '7'
    } else if d == 8 {
        '8'
    } else {
        '9'
    }
}

fn decimal_chars(n: u64) -> (r: Vec<char>)
    ensures
        r@ == decimal(n as nat),
    decreases n,
{
    if n < 10 {
        let mut v: Vec<char> = Vec::new();
        v.push(digit_exec(n));
        assert(v@ =~= seq![digit_char(n as nat)]);
        v
    } else {
        let mut v = decimal_chars(n / 10);
        v.push(digit_exec(n % 10));
        v
    }
}

/// The decimal text of `n`.
pub fn decimal_string(n: u64) -> (r: String)
    ensures
        r@ == decimal(n as nat),
{
    string_of(&decimal_chars(n))
}

/// The server's chat-completion endpoint.
pub open spec fn chat_url_of(host: Seq<char>, port: u16) -> Seq<char> {
    "http://"@ + host + ":"@ + decimal(port as nat) + "/v1/chat/completions"@
}

/// The arguments the server process is started with.
pub open spec fn server_args_of(host: Seq<char>, port: u16) -> Seq<Seq<char>> {
    seq!["--server"@, "--nobrowser"@, "--host"@, host, "--port"@, decimal(port as nat)]
}

/// The model identifier sent with every chat-completion request.
pub const CHAT_MODEL_ID: &'static str = "LLaMA_CPP";

impl ProviderConfig {
    /// The URL of the server's chat-completion endpoint.
    pub fn chat_completions_url(&self) -> (r: String)
        ensures
            r@ == chat_url_of(self.host@, self.port),
    {
        let a = joined("http://", self.host.as_str());
        let b = joined(a.as_str(), ":");
        let c = joined(b.as_str(), decimal_string(self.port as u64).as_str());
        joined(c.as_str(), "/v1/chat/completions")
    }

    /// The arguments that start the model file as a server: server mode, no
    /// browser, the configured host and port.
    pub fn server_args(&self) -> (r: Vec<String>)
        ensures
            r@.map_values(|a: String| a@) == server_args_of(self.host@, self.port),
    {
        let mut r: Vec<String> = Vec::new();
        r.push(owned("--server"));
        r.push(owned("--nobrowser"));
        r.push(owned("--host"));
        r.push(self.host.clone());
        r.push(owned("--port"));
        r.push(decimal_string(self.port as u64));
        assert(r@.map_values(|a: String| a@) =~= server_args_of(self.host@, self.port));
        r
    }
}

} // verus!
