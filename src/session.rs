//! Sessions: per-handle conversation state, the driver's operations on it,
//! and the steps of reading a response.
use crate::handle::HandleMap;
use crate::mcp::{
    detect_function_call, detection_of, CallView, FunctionCall, ProcessFunctionResult, ToolCall,
    ToolView, ToolsMap,
};
use crate::mcp::{call_candidate, call_name_of, has_arguments, system_prompt_of};
use crate::models::{opt_view, parse_model, ModelChoice, ModelUrl, Models};
use crate::text::{has_infix, occurs_at};
use crate::provider::{copy_log, log_view, msg, Message, MessageView, ProviderError, Role};
use crate::text::owned;
use std::sync::Arc;
use vstd::prelude::*;

verus! {

broadcast use vstd::std_specs::hash::group_hash_axioms;

/// The errors the driver reports, one kind per condition.
#[derive(Debug, Clone, Copy, PartialEq, Eq, Structural)]
pub enum LlmErrorKind {
    ModelNotSet,
    ModelNotSupported,
    ModelInitializationFailed,
    ModelCompletionFailed,
    ModelOptionsNotSet,
    ModelShutdownFailed,
    Utf8Error,
    RuntimeError,
    MCPFunctionCallError,
    PermissionDeny,
}

/// What a caller configures for a session. The sampling parameters are held
/// as the bit patterns of their `f32` values; nothing here reads them.
#[derive(Debug, Clone)]
pub struct LlmOptions {
    pub system_message: Option<String>,
    pub tools_sse_urls: Option<Vec<String>>,
    pub temperature_bits: Option<u32>,
    pub top_p_bits: Option<u32>,
}

pub struct OptionsView {
    pub system_message: Option<Seq<char>>,
    pub tools_sse_urls: Option<Seq<Seq<char>>>,
    pub temperature_bits: Option<u32>,
    pub top_p_bits: Option<u32>,
}

pub open spec fn urls_view(u: Option<Vec<String>>) -> Option<Seq<Seq<char>>> {
    match u {
        Some(v) => Some(v@.map_values(|s: String| s@)),
        None => None,
    }
}

impl View for LlmOptions {
    type V = OptionsView;

    open spec fn view(&self) -> OptionsView {
        OptionsView {
            system_message: opt_view(self.system_message),
            tools_sse_urls: urls_view(self.tools_sse_urls),
            temperature_bits: self.temperature_bits,
            top_p_bits: self.top_p_bits,
        }
    }
}

pub open spec fn no_options() -> OptionsView {
    OptionsView { system_message: None, tools_sse_urls: None, temperature_bits: None, top_p_bits: None }
}

impl Default for LlmOptions {
    fn default() -> (r: Self)
        ensures
            r@ == no_options(),
    {
        LlmOptions { system_message: None, tools_sse_urls: None, temperature_bits: None, top_p_bits: None }
    }
}

fn copy_strings(v: &Vec<String>) -> (r: Vec<String>)
    ensures
        r@.map_values(|s: String| s@) == v@.map_values(|s: String| s@),
{
    let mut r: Vec<String> = Vec::new();
    let mut i: usize = 0;
    while i < v.len()
        invariant
            i <= v.len(),
            r@.map_values(|s: String| s@) =~= v@.subrange(0, i as int).map_values(|s: String| s@),
        decreases v.len() - i,
    {
        let ghost before = r@;
        let c = v[i].clone();
        r.push(c);
        assert(r@.map_values(|s: String| s@) =~= before.map_values(|s: String| s@).push(c@));
        assert(v@.subrange(0, i + 1).map_values(|s: String| s@) =~= v@.subrange(0, i as int).map_values(
            |s: String| s@,
        ).push(v@[i as int]@));
        i = i + 1;
    }
    assert(v@.subrange(0, v@.len() as int) =~= v@);
    r
}

impl LlmOptions {
    /// A copy of the options.
    pub fn duplicate(&self) -> (r: LlmOptions)
        ensures
            r@ == self@,
    {
        let urls = match &self.tools_sse_urls {
            Some(v) => Some(copy_strings(v)),
            None => None,
        };
        let message = match &self.system_message {
            Some(m) => Some(m.clone()),
            None => None,
        };
        LlmOptions {
            system_message: message,
            tools_sse_urls: urls,
            temperature_bits: self.temperature_bits,
            top_p_bits: self.top_p_bits,
        }
    }
}

/// The content of a session: its model name, options, message log and
/// tools.
pub struct SessionView {
    pub model: Seq<char>,
    pub options: OptionsView,
    pub messages: Seq<MessageView>,
    pub tools: Option<Map<Seq<char>, ToolView>>,
}

/// A new session: no options, no messages, no tools.
pub open spec fn fresh_session(model: Seq<char>) -> SessionView {
    SessionView { model, options: no_options(), messages: Seq::empty(), tools: None }
}

/// The session with one more message at the end of its log.
pub open spec fn with_message(s: SessionView, role: Role, content: Seq<char>) -> SessionView {
    SessionView { messages: s.messages.push(msg(role, content)), ..s }
}

/// The session after new options: the options replaced, the log reset to
/// the one system message, and the tools replaced when new ones were found.
pub open spec fn reset_session(
    s: SessionView,
    options: OptionsView,
    system_prompt: Seq<char>,
    tools: Option<Map<Seq<char>, ToolView>>,
) -> SessionView {
    SessionView {
        model: s.model,
        options,
        messages: seq![msg(Role::System, system_prompt)],
        tools: match tools {
            Some(t) => Some(t),
            None => s.tools,
        },
    }
}

pub open spec fn found_tools(t: &Option<ToolsMap>) -> Option<Map<Seq<char>, ToolView>> {
    match t {
        Some(m) => Some(m@),
        None => None,
    }
}

pub open spec fn tools_view(t: Option<Arc<ToolsMap>>) -> Option<Map<Seq<char>, ToolView>> {
    match t {
        Some(m) => Some(m@),
        None => None,
    }
}

/// The state of one session. The provider is shared so that work in flight
/// can hold it while the session changes or closes.
pub struct LlmContext<P> {
    model: String,
    provider: Arc<P>,
    options: LlmOptions,
    messages: Vec<Message>,
    tools_map: Option<Arc<ToolsMap>>,
}

impl<P> View for LlmContext<P> {
    type V = SessionView;

    closed spec fn view(&self) -> SessionView {
        SessionView {
            model: self.model@,
            options: self.options@,
            messages: log_view(self.messages@),
            tools: tools_view(self.tools_map),
        }
    }
}

impl<P> LlmContext<P> {
    /// The session's provider.
    pub closed spec fn provider_value(&self) -> P {
        *self.provider
    }

    /// A session for a model whose provider is ready.
    pub fn new(model: String, provider: P) -> (r: Self)
        ensures
            r@ == fresh_session(model@),
            r.provider_value() == provider,
    {
        let r = LlmContext {
            model,
            provider: Arc::new(provider),
            options: LlmOptions::default(),
            messages: Vec::new(),
            tools_map: None,
        };
        assert(log_view(r.messages@) =~= Seq::<MessageView>::empty());
        r
    }

    fn add_message(&mut self, role: Role, content: String)
        ensures
            final(self)@ == with_message(old(self)@, role, content@),
    {
        let m = Message::new(role, content);
        self.messages.push(m);
        assert(log_view(self.messages@) =~= log_view(old(self).messages@).push(msg(role, content@)));
    }

    /// The session's tools, shared.
    pub fn get_tools_map(&self) -> (r: Option<Arc<ToolsMap>>)
        ensures
            tools_view(r) == self@.tools,
    {
        match &self.tools_map {
            Some(m) => Some(m.clone()),
            None => None,
        }
    }

    /// Replace the session's tools.
    pub fn set_tools_map(&mut self, tools_map: ToolsMap)
        ensures
            final(self)@ == (SessionView { tools: Some(tools_map@), ..old(self)@ }),
    {
        self.tools_map = Some(Arc::new(tools_map));
    }

    /// The provider, shared.
    pub fn provider(&self) -> (r: Arc<P>)
        ensures
            *r == self.provider_value(),
    {
        self.provider.clone()
    }

    /// The name the session's model was set by.
    pub fn model(&self) -> (r: &str)
        ensures
            r@ == self@.model,
    {
        self.model.as_str()
    }

    /// Apply new options: the log becomes the one system message.
    fn reset(self, options: LlmOptions, system_prompt: String, tools_map: Option<ToolsMap>) -> (r: Self)
        ensures
            r@ == reset_session(
                self@,
                options@,
                system_prompt@,
                found_tools(&tools_map),
            ),
    {
        let mut ctx = self;
        let mut messages: Vec<Message> = Vec::new();
        messages.push(Message::new(Role::System, system_prompt));
        ctx.messages = messages;
        assert(log_view(ctx.messages@) =~= seq![msg(Role::System, system_prompt@)]);
        match tools_map {
            Some(t) => ctx.set_tools_map(t),
            None => {},
        }
        ctx.options = options;
        ctx
    }
}

/// The sessions of the driver, by handle.
pub struct LlmDriver<P> {
    contexts: HandleMap<LlmContext<P>>,
}

pub open spec fn session_views<P>(m: Map<u32, LlmContext<P>>) -> Map<u32, SessionView> {
    m.map_values(|c: LlmContext<P>| c@)
}

impl<P> LlmDriver<P> {
    /// The sessions, by handle.
    pub closed spec fn sessions(&self) -> Map<u32, SessionView> {
        session_views(self.contexts@)
    }

    /// The handle the next session will get.
    pub closed spec fn next_handle(&self) -> nat {
        self.contexts.next()
    }

    pub closed spec fn wf(&self) -> bool {
        self.contexts.wf()
    }

    /// The provider of each session, by handle.
    pub closed spec fn providers(&self) -> Map<u32, P> {
        self.contexts@.map_values(|c: LlmContext<P>| c.provider_value())
    }

    pub fn new() -> (r: Self)
        ensures
            r.wf(),
            r.sessions() == Map::<u32, SessionView>::empty(),
            r.next_handle() == 1,
    {
        let r = LlmDriver { contexts: HandleMap::new() };
        assert(r.sessions() =~= Map::<u32, SessionView>::empty());
        r
    }

    /// Publish a session whose provider is ready, under a new handle.
    pub fn register(&mut self, context: LlmContext<P>) -> (r: Result<u32, LlmErrorKind>)
        requires
            old(self).wf(),
        ensures
            final(self).wf(),
            match r {
                Ok(h) => h as nat == old(self).next_handle() && !old(self).sessions().contains_key(h)
                    && final(self).sessions() == old(self).sessions().insert(h, context@)
                    && final(self).providers() == old(self).providers().insert(h, context.provider_value())
                    && final(self).next_handle() == old(self).next_handle() + 1,
                Err(e) => e == LlmErrorKind::RuntimeError && old(self).next_handle() == u32::MAX
                    && final(self).sessions() == old(self).sessions()
                    && final(self).next_handle() == old(self).next_handle(),
            },
    {
        if !self.contexts.has_capacity() {
            return Err(LlmErrorKind::RuntimeError);
        }
        let ghost c = context@;
        let ghost p = context.provider_value();
        let h = self.contexts.insert(context);
        assert(self.sessions() =~= old(self).sessions().insert(h, c));
        assert(self.providers() =~= old(self).providers().insert(h, p));
        Ok(h)
    }

    /// The name the session's model was set by.
    pub fn get_model(&self, handle: u32) -> (r: Result<String, LlmErrorKind>)
        ensures
            match r {
                Ok(m) => self.sessions().contains_key(handle) && m@ == self.sessions()[handle].model,
                Err(e) => !self.sessions().contains_key(handle) && e == LlmErrorKind::ModelNotSet,
            },
    {
        match self.contexts.get(handle) {
            Some(ctx) => Ok(owned(ctx.model())),
            None => Err(LlmErrorKind::ModelNotSet),
        }
    }

    /// A copy of the session's options.
    pub fn get_options(&self, handle: u32) -> (r: Result<LlmOptions, LlmErrorKind>)
        ensures
            match r {
                Ok(o) => self.sessions().contains_key(handle) && o@ == self.sessions()[handle].options,
                Err(e) => !self.sessions().contains_key(handle) && e == LlmErrorKind::ModelNotSet,
            },
    {
        match self.contexts.get(handle) {
            Some(ctx) => Ok(ctx.options.duplicate()),
            None => Err(LlmErrorKind::ModelNotSet),
        }
    }

    /// The session's provider, shared.
    pub fn provider(&self, handle: u32) -> (r: Option<Arc<P>>)
        ensures
            r is Some <==> self.sessions().contains_key(handle),
            r matches Some(p) ==> self.providers().contains_key(handle) && *p == self.providers()[handle],
    {
        match self.contexts.get(handle) {
            Some(ctx) => Some(ctx.provider()),
            None => None,
        }
    }

    /// Whether a session is open under the handle.
    pub fn contains(&self, handle: u32) -> (r: bool)
        ensures
            r == self.sessions().contains_key(handle),
    {
        self.contexts.contains(handle)
    }

    fn append(&mut self, handle: u32, role: Role, content: String) -> (r: bool)
        requires
            old(self).wf(),
        ensures
            final(self).wf(),
            final(self).next_handle() == old(self).next_handle(),
            r == old(self).sessions().contains_key(handle),
            r ==> final(self).sessions() == old(self).sessions().insert(
                handle,
                with_message(old(self).sessions()[handle], role, content@),
            ),
            !r ==> final(self).sessions() == old(self).sessions(),
    {
        let ghost text = content@;
        let f = move |ctx: LlmContext<P>| -> (r: (LlmContext<P>, ()))
            ensures
                r.0@ == with_message(ctx@, role, text),
            {
                let mut ctx = ctx;
                ctx.add_message(role, content);
                (ctx, ())
            };
        let r = self.contexts.with_instance_mut(handle, f);
        proof {
            if r is Some {
                let t = choose|t: LlmContext<P>|
                    #[trigger] f.ensures((old(self).contexts@[handle],), (t, ()))
                        && self.contexts@ == old(self).contexts@.insert(handle, t);
                assert(self.sessions() =~= old(self).sessions().insert(handle, t@));
            } else {
                assert(self.sessions() =~= old(self).sessions());
            }
        }
        r.is_some()
    }

    /// Append the caller's turn to the session's log.
    pub fn prompt(&mut self, handle: u32, text: &str) -> (r: Result<(), LlmErrorKind>)
        requires
            old(self).wf(),
        ensures
            final(self).wf(),
            final(self).next_handle() == old(self).next_handle(),
            match r {
                Ok(()) => old(self).sessions().contains_key(handle) && final(self).sessions()
                    == old(self).sessions().insert(
                    handle,
                    with_message(old(self).sessions()[handle], Role::User, text@),
                ),
                Err(e) => !old(self).sessions().contains_key(handle) && e == LlmErrorKind::ModelNotSet
                    && final(self).sessions() == old(self).sessions(),
            },
    {
        if self.append(handle, Role::User, owned(text)) {
            Ok(())
        } else {
            Err(LlmErrorKind::ModelNotSet)
        }
    }

    /// Apply new options to a session: the options are replaced, the tools
    /// are replaced when new ones were found, and the log is reset to the
    /// one system message.
    pub fn set_options(
        &mut self,
        handle: u32,
        options: LlmOptions,
        system_prompt: String,
        tools_map: Option<ToolsMap>,
    ) -> (r: Result<(), LlmErrorKind>)
        requires
            old(self).wf(),
        ensures
            final(self).wf(),
            final(self).next_handle() == old(self).next_handle(),
            match r {
                Ok(()) => old(self).sessions().contains_key(handle) && final(self).sessions()
                    == old(self).sessions().insert(
                    handle,
                    reset_session(
                        old(self).sessions()[handle],
                        options@,
                        system_prompt@,
                        found_tools(&tools_map),
                    ),
                ),
                Err(e) => !old(self).sessions().contains_key(handle) && e == LlmErrorKind::ModelNotSet
                    && final(self).sessions() == old(self).sessions(),
            },
    {
        let ghost o = options@;
        let ghost p = system_prompt@;
        let ghost t = found_tools(&tools_map);
        let f = move |ctx: LlmContext<P>| -> (r: (LlmContext<P>, ()))
            ensures
                r.0@ == reset_session(ctx@, o, p, t),
            { (ctx.reset(options, system_prompt, tools_map), ()) };
        let r = self.contexts.with_instance_mut(handle, f);
        proof {
            if r is Some {
                let c = choose|c: LlmContext<P>|
                    #[trigger] f.ensures((old(self).contexts@[handle],), (c, ()))
                        && self.contexts@ == old(self).contexts@.insert(handle, c);
                assert(self.sessions() =~= old(self).sessions().insert(handle, c@));
            } else {
                assert(self.sessions() =~= old(self).sessions());
            }
        }
        match r {
            Some(()) => Ok(()),
            None => Err(LlmErrorKind::ModelNotSet),
        }
    }

    /// Close a session: it leaves the driver and is handed back, so that its
    /// provider can be shut down. Closing an unknown handle does nothing.
    pub fn close(&mut self, handle: u32) -> (r: Option<LlmContext<P>>)
        requires
            old(self).wf(),
        ensures
            final(self).wf(),
            final(self).next_handle() == old(self).next_handle(),
            final(self).sessions() == old(self).sessions().remove(handle),
            match r {
                Some(c) => old(self).sessions().contains_key(handle) && c@ == old(self).sessions()[handle]
                    && c.provider_value() == old(self).providers()[handle],
                None => !old(self).sessions().contains_key(handle),
            },
    {
        let r = self.contexts.remove(handle);
        assert(self.sessions() =~= old(self).sessions().remove(handle));
        r
    }
}

/// Where a response read stands.
#[derive(Debug, Clone, Copy, PartialEq, Eq, Structural)]
pub enum ReadStage {
    AwaitingReply,
    AwaitingToolResult,
    AwaitingFinalReply,
    Finished,
}

/// A response read in progress: the session's handle, the tools as they
/// were when the read began, and the stage reached.
pub struct ResponseReader {
    handle: u32,
    tools: Option<Arc<ToolsMap>>,
    stage: ReadStage,
    first_content: String,
}

impl ResponseReader {
    pub closed spec fn handle(&self) -> u32 {
        self.handle
    }

    pub closed spec fn tools_seen(&self) -> Option<Map<Seq<char>, ToolView>> {
        tools_view(self.tools)
    }

    pub closed spec fn stage(&self) -> ReadStage {
        self.stage
    }

    /// The content of the first reply, once it came.
    pub closed spec fn first_reply(&self) -> Seq<char> {
        self.first_content@
    }

    /// The stage reached.
    pub fn current_stage(&self) -> (r: ReadStage)
        ensures
            r == self.stage(),
    {
        self.stage
    }
}

/// What the caller of a response read must do next.
#[derive(Debug)]
pub enum ReadAction {
    /// Ask the provider for a completion of this log.
    Chat(Vec<Message>),
    /// Call this tool and hand back its result.
    CallTool(ToolCall),
    /// The read is over, with this outcome.
    Finish(Result<String, LlmErrorKind>),
}

pub enum ActionView {
    Chat(Seq<MessageView>),
    CallTool(Seq<char>, Seq<char>),
    Finish(Result<Seq<char>, LlmErrorKind>),
}

impl View for ReadAction {
    type V = ActionView;

    open spec fn view(&self) -> ActionView {
        match self {
            ReadAction::Chat(m) => ActionView::Chat(log_view(m@)),
            ReadAction::CallTool(c) => ActionView::CallTool(c.name@, c.url@),
            ReadAction::Finish(Ok(t)) => ActionView::Finish(Ok(t@)),
            ReadAction::Finish(Err(e)) => ActionView::Finish(Err(*e)),
        }
    }
}

pub open spec fn any_accessible(t: Map<Seq<char>, ToolView>) -> bool {
    exists|k: Seq<char>| #[trigger] t.contains_key(k) && t[k].is_accessible
}

/// What follows the first reply: its content is the response unless tools
/// are reachable and it holds a function call; a call of a known tool is
/// made, a call of an unknown tool fails the read.
pub open spec fn reply_action(tools: Option<Map<Seq<char>, ToolView>>, content: Seq<char>) -> ActionView {
    match tools {
        None => ActionView::Finish(Ok(content)),
        Some(t) => if !any_accessible(t) {
            ActionView::Finish(Ok(content))
        } else {
            match detection_of(content, t) {
                CallView::NoCall => ActionView::Finish(Ok(content)),
                CallView::Unknown(_) => ActionView::Finish(Err(LlmErrorKind::MCPFunctionCallError)),
                CallView::Call(name, url) => ActionView::CallTool(name, url),
            }
        },
    }
}

impl<P> LlmDriver<P> {
    /// Begin reading a response: a reader, and the snapshot of the log to
    /// send to the provider.
    pub fn begin_read(&self, handle: u32) -> (r: Result<(ResponseReader, Vec<Message>), LlmErrorKind>)
        ensures
            match r {
                Ok((rd, m)) => self.sessions().contains_key(handle) && rd.handle() == handle
                    && rd.stage() == ReadStage::AwaitingReply && rd.tools_seen()
                    == self.sessions()[handle].tools && log_view(m@) == self.sessions()[handle].messages,
                Err(e) => !self.sessions().contains_key(handle) && e == LlmErrorKind::ModelNotSet,
            },
    {
        match self.contexts.get(handle) {
            Some(ctx) => {
                let rd = ResponseReader {
                    handle,
                    tools: ctx.get_tools_map(),
                    stage: ReadStage::AwaitingReply,
                    first_content: String::new(),
                };
                Ok((rd, copy_log(&ctx.messages)))
            },
            None => Err(LlmErrorKind::ModelNotSet),
        }
    }

    /// The log of a session, copied.
    pub fn messages(&self, handle: u32) -> (r: Option<Vec<Message>>)
        ensures
            match r {
                Some(m) => self.sessions().contains_key(handle) && log_view(m@)
                    == self.sessions()[handle].messages,
                None => !self.sessions().contains_key(handle),
            },
    {
        match self.contexts.get(handle) {
            Some(ctx) => Some(copy_log(&ctx.messages)),
            None => None,
        }
    }

    /// Take the provider's reply. The reply's content is appended to the
    /// log as the assistant's turn; what follows depends on the stage: after
    /// the first reply see `reply_action`, after the final one the read ends
    /// with its content. A failed completion ends the read.
    pub fn on_reply(&mut self, reader: &mut ResponseReader, reply: Result<Message, ProviderError>) -> (a: ReadAction)
        requires
            old(self).wf(),
        ensures
            final(self).wf(),
            final(self).next_handle() == old(self).next_handle(),
            final(reader).handle() == old(reader).handle(),
            final(reader).tools_seen() == old(reader).tools_seen(),
            ({
                let h = old(reader).handle();
                let st = old(reader).stage();
                if st != ReadStage::AwaitingReply && st != ReadStage::AwaitingFinalReply {
                    a@ == ActionView::Finish(Err(LlmErrorKind::RuntimeError))
                        && final(self).sessions() == old(self).sessions()
                        && final(reader).stage() == st
                } else {
                    match reply {
                        Err(_) => a@ == ActionView::Finish(Err(LlmErrorKind::ModelCompletionFailed))
                            && final(self).sessions() == old(self).sessions()
                            && final(reader).stage() == ReadStage::Finished,
                        Ok(m) => if !old(self).sessions().contains_key(h) {
                            a@ == ActionView::Finish(Err(LlmErrorKind::ModelNotSet))
                                && final(self).sessions() == old(self).sessions()
                                && final(reader).stage() == ReadStage::Finished
                        } else {
                            &&& final(self).sessions() == old(self).sessions().insert(
                                h,
                                with_message(old(self).sessions()[h], Role::Assistant, m.content@),
                            )
                            &&& st == ReadStage::AwaitingReply ==> a@ == reply_action(
                                old(reader).tools_seen(),
                                m.content@,
                            ) && final(reader).first_reply() == m.content@ && final(reader).stage() == (
                            if a@ is CallTool {
                                ReadStage::AwaitingToolResult
                            } else {
                                ReadStage::Finished
                            })
                            &&& st == ReadStage::AwaitingFinalReply ==> a@ == ActionView::Finish(
                                Ok(m.content@),
                            ) && final(reader).stage() == ReadStage::Finished
                        },
                    }
                }
            }),
    {
        let st = reader.stage;
        if st != ReadStage::AwaitingReply && st != ReadStage::AwaitingFinalReply {
            return ReadAction::Finish(Err(LlmErrorKind::RuntimeError));
        }
        let m = match reply {
            Err(_) => {
                reader.stage = ReadStage::Finished;
                return ReadAction::Finish(Err(LlmErrorKind::ModelCompletionFailed));
            },
            Ok(m) => m,
        };
        let content = m.content;
        if !self.append(reader.handle, Role::Assistant, content.clone()) {
            reader.stage = ReadStage::Finished;
            return ReadAction::Finish(Err(LlmErrorKind::ModelNotSet));
        }
        if st == ReadStage::AwaitingFinalReply {
            reader.stage = ReadStage::Finished;
            return ReadAction::Finish(Ok(content));
        }
        reader.first_content = content.clone();
        reader.stage = ReadStage::Finished;
        let tools = match &reader.tools {
            None => {
                return ReadAction::Finish(Ok(content));
            },
            Some(t) => t.clone(),
        };
        if !tools.has_accessible_tool() {
            return ReadAction::Finish(Ok(content));
        }
        match detect_function_call(content.as_str(), &tools) {
            FunctionCall::NoFunctionCall => ReadAction::Finish(Ok(content)),
            FunctionCall::UnknownTool(_) => ReadAction::Finish(Err(LlmErrorKind::MCPFunctionCallError)),
            FunctionCall::Call(call) => {
                reader.stage = ReadStage::AwaitingToolResult;
                ReadAction::CallTool(call)
            },
        }
    }

    /// Take the outcome of the tool call. Its output is appended to the log
    /// as a tool message and the grown log is to be sent for a final reply;
    /// a failed call ends the read with an error.
    pub fn on_tool_result(&mut self, reader: &mut ResponseReader, result: ProcessFunctionResult) -> (a: ReadAction)
        requires
            old(self).wf(),
        ensures
            final(self).wf(),
            final(self).next_handle() == old(self).next_handle(),
            final(reader).handle() == old(reader).handle(),
            final(reader).tools_seen() == old(reader).tools_seen(),
            ({
                let h = old(reader).handle();
                if old(reader).stage() != ReadStage::AwaitingToolResult {
                    a@ == ActionView::Finish(Err(LlmErrorKind::RuntimeError))
                        && final(self).sessions() == old(self).sessions()
                        && final(reader).stage() == old(reader).stage()
                } else {
                    match result {
                        ProcessFunctionResult::FunctionExecuted(t) => if old(self).sessions().contains_key(h) {
                            &&& final(self).sessions() == old(self).sessions().insert(
                                h,
                                with_message(old(self).sessions()[h], Role::Tool, t@),
                            )
                            &&& a@ == ActionView::Chat(final(self).sessions()[h].messages)
                            &&& final(reader).stage() == ReadStage::AwaitingFinalReply
                        } else {
                            a@ == ActionView::Finish(Err(LlmErrorKind::ModelNotSet))
                                && final(self).sessions() == old(self).sessions()
                                && final(reader).stage() == ReadStage::Finished
                        },
                        ProcessFunctionResult::Error(_) => a@ == ActionView::Finish(
                            Err(LlmErrorKind::MCPFunctionCallError),
                        ) && final(self).sessions() == old(self).sessions() && final(reader).stage()
                            == ReadStage::Finished,
                        ProcessFunctionResult::NoFunctionCall => a@ == ActionView::Finish(
                            Ok(old(reader).first_reply()),
                        ) && final(self).sessions() == old(self).sessions() && final(reader).stage()
                            == ReadStage::Finished,
                    }
                }
            }),
    {
        if reader.stage != ReadStage::AwaitingToolResult {
            return ReadAction::Finish(Err(LlmErrorKind::RuntimeError));
        }
        reader.stage = ReadStage::Finished;
        match result {
            ProcessFunctionResult::FunctionExecuted(t) => {
                if !self.append(reader.handle, Role::Tool, t) {
                    return ReadAction::Finish(Err(LlmErrorKind::ModelNotSet));
                }
                match self.messages(reader.handle) {
                    Some(m) => {
                        reader.stage = ReadStage::AwaitingFinalReply;
                        ReadAction::Chat(m)
                    },
                    None => ReadAction::Finish(Err(LlmErrorKind::ModelNotSet)),
                }
            },
            ProcessFunctionResult::Error(_) => ReadAction::Finish(Err(LlmErrorKind::MCPFunctionCallError)),
            ProcessFunctionResult::NoFunctionCall => ReadAction::Finish(Ok(reader.first_content.clone())),
        }
    }
}

/// Resolve a model identifier for a new session: it must parse (a catalog
/// name, or a URL that passes the default security policy), and a URL must
/// also be allowed by the caller's permission check.
pub fn resolve_model<F>(model: &str, url_permission_checker: F) -> (r: Result<Models, LlmErrorKind>)
    where
        F: Fn(&ModelUrl) -> bool,
    requires
        forall|u: &ModelUrl| url_permission_checker.requires((u,)),
    ensures
        parse_model(model@) is Err <==> r == Err::<Models, LlmErrorKind>(LlmErrorKind::ModelNotSupported),
        match r {
            Ok(m) => parse_model(model@) == Ok::<ModelChoice, Seq<char>>(m.choice()) && m.wf() && (
            m matches Models::Url(u) ==> url_permission_checker.ensures((&u,), true)),
            Err(LlmErrorKind::PermissionDeny) => exists|u: ModelUrl|
                parse_model(model@) == Ok::<ModelChoice, Seq<char>>(ModelChoice::Url(u@))
                    && #[trigger] url_permission_checker.ensures((&u,), false),
            Err(e) => e == LlmErrorKind::ModelNotSupported,
        },
{
    let m = match Models::parse(model) {
        Ok(m) => m,
        Err(_) => {
            return Err(LlmErrorKind::ModelNotSupported);
        },
    };
    match &m {
        Models::Url(u) => {
            let allowed = url_permission_checker(u);
            if !allowed {
                assert(url_permission_checker.ensures((u,), false));
                assert(parse_model(model@) == Ok::<ModelChoice, Seq<char>>(ModelChoice::Url(u@)));
                return Err(LlmErrorKind::PermissionDeny);
            }
        },
        _ => {},
    }
    Ok(m)
}

/// Resetting the options with a system message and no tools leaves exactly
/// one message in the log: a system message whose text holds the caller's
/// message.
pub proof fn lemma_options_reset_log(
    s: SessionView,
    options: OptionsView,
    date: Seq<char>,
    message: Seq<char>,
)
    requires
        options.system_message == Some(message),
    ensures
        ({
            let p = system_prompt_of(date, options.system_message, None);
            &&& reset_session(s, options, p, None).messages == seq![msg(Role::System, p)]
            &&& reset_session(s, options, p, None).messages.len() == 1
            &&& has_infix(p, message)
        }),
{
    let p = system_prompt_of(date, options.system_message, None);
    let head = "Today Date: "@ + date + "\n"@ + "# Assistant Instructions\n"@;
    assert(p =~= head + message);
    assert(p.subrange(head.len() as int, (head.len() + message.len()) as int) =~= message);
    assert(occurs_at(p, message, head.len() as int));
}

/// A turn with no reachable tools: the prompt and the reply add exactly a
/// user message and an assistant message, and the reply's content is the
/// response.
pub proof fn lemma_turn_without_tools(
    s: SessionView,
    text: Seq<char>,
    reply: Seq<char>,
    tools: Option<Map<Seq<char>, ToolView>>,
)
    requires
        tools is None || !any_accessible(tools->0),
    ensures
        reply_action(tools, reply) == ActionView::Finish(Ok::<Seq<char>, LlmErrorKind>(reply)),
        with_message(with_message(s, Role::User, text), Role::Assistant, reply).messages == s.messages
            + seq![msg(Role::User, text), msg(Role::Assistant, reply)],
{
    assert(with_message(with_message(s, Role::User, text), Role::Assistant, reply).messages =~= s.messages
        + seq![msg(Role::User, text), msg(Role::Assistant, reply)]);
}

/// A turn whose first reply calls a known tool, with reachable tools: the
/// tool is called; its output and the final reply follow the first reply
/// in the log, three messages after the user's, and the final reply is
/// the response.
pub proof fn lemma_turn_with_tool_call(
    s: SessionView,
    text: Seq<char>,
    first: Seq<char>,
    output: Seq<char>,
    last: Seq<char>,
    tools: Map<Seq<char>, ToolView>,
)
    requires
        any_accessible(tools),
        detection_of(first, tools) is Call,
    ensures
        ({
            let asked = with_message(s, Role::User, text);
            let answered = with_message(asked, Role::Assistant, first);
            let tooled = with_message(answered, Role::Tool, output);
            let done = with_message(tooled, Role::Assistant, last);
            &&& reply_action(Some(tools), first) == ActionView::CallTool(
                detection_of(first, tools)->Call_0,
                detection_of(first, tools)->Call_1,
            )
            &&& tooled.messages == asked.messages + seq![msg(Role::Assistant, first), msg(Role::Tool, output)]
            &&& done.messages == s.messages + seq![
                msg(Role::User, text),
                msg(Role::Assistant, first),
                msg(Role::Tool, output),
                msg(Role::Assistant, last),
            ]
            &&& done.messages.len() == asked.messages.len() + 3
        }),
{
    let asked = with_message(s, Role::User, text);
    let answered = with_message(asked, Role::Assistant, first);
    let tooled = with_message(answered, Role::Tool, output);
    let done = with_message(tooled, Role::Assistant, last);
    assert(tooled.messages =~= asked.messages + seq![msg(Role::Assistant, first), msg(Role::Tool, output)]);
    assert(done.messages =~= s.messages + seq![
        msg(Role::User, text),
        msg(Role::Assistant, first),
        msg(Role::Tool, output),
        msg(Role::Assistant, last),
    ]);
}

/// Output without a well-formed function call (no `{`, text that is not
/// JSON, or JSON without a string `name` and an `arguments` member) holds no
/// function call, and the read returns it as the response, never an error.
pub proof fn lemma_malformed_call_is_plain_text(
    content: Seq<char>,
    tools: Option<Map<Seq<char>, ToolView>>,
)
    requires
        call_candidate(content) matches Some(c) ==> (call_name_of(c) is None || !has_arguments(c)),
    ensures
        tools matches Some(t) ==> detection_of(content, t) == CallView::NoCall,
        reply_action(tools, content) == ActionView::Finish(Ok::<Seq<char>, LlmErrorKind>(content)),
{
}

} // verus!
