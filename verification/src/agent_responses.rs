//! The conversation that the agent loop and the user interface share: its
//! messages and whether an agent run is under way, the decisions of the agent
//! loop, and what the message panel shows.

use vstd::prelude::*;
use crate::tools::{ToolCall, ToolCallSpec, ToolCallResponse};

verus! {

/// One message of the conversation, as the chat completion API carries it.
#[derive(Debug)]
pub struct Message {
    pub role: Option<String>,
    pub content: Option<String>,
    pub tool_call_id: Option<String>,
    pub tool_calls: Option<Vec<ToolCall>>,
}

/// The mathematical form of a [`Message`].
pub struct MessageSpec {
    pub role: Option<Seq<char>>,
    pub content: Option<Seq<char>>,
    pub tool_call_id: Option<Seq<char>>,
    pub tool_calls: Option<Seq<ToolCallSpec>>,
}

/// The view of an optional string.
pub open spec fn text_view(s: Option<String>) -> Option<Seq<char>> {
    match s {
        Some(t) => Some(t@),
        None => None,
    }
}

/// The views of a sequence of tool calls.
pub open spec fn calls_view(calls: Seq<ToolCall>) -> Seq<ToolCallSpec> {
    calls.map_values(|c: ToolCall| c@)
}

/// The view of optional tool calls.
pub open spec fn opt_calls_view(calls: Option<Vec<ToolCall>>) -> Option<Seq<ToolCallSpec>> {
    match calls {
        Some(v) => Some(calls_view(v@)),
        None => None,
    }
}

impl View for Message {
    type V = MessageSpec;

    open spec fn view(&self) -> MessageSpec {
        MessageSpec {
            role: text_view(self.role),
            content: text_view(self.content),
            tool_call_id: text_view(self.tool_call_id),
            tool_calls: opt_calls_view(self.tool_calls),
        }
    }
}

/// The views of a sequence of messages.
pub open spec fn messages_view(messages: Seq<Message>) -> Seq<MessageSpec> {
    messages.map_values(|m: Message| m@)
}

fn clone_text(s: &Option<String>) -> (copy: Option<String>)
    ensures
        copy == *s,
{
    match s {
        Some(t) => Some(t.clone()),
        None => None,
    }
}

fn clone_calls(calls: &Option<Vec<ToolCall>>) -> (copy: Option<Vec<ToolCall>>)
    ensures
        opt_calls_view(copy) == opt_calls_view(*calls),
{
    match calls {
        Some(v) => {
            let copy = v.clone();
            assert(calls_view(copy@) =~= calls_view(v@));
            Some(copy)
        },
        None => None,
    }
}

impl Message {
    /// A copy of the message.
    pub fn duplicate(&self) -> (copy: Message)
        ensures
            copy@ == self@,
    {
        Message {
            role: clone_text(&self.role),
            content: clone_text(&self.content),
            tool_call_id: clone_text(&self.tool_call_id),
            tool_calls: clone_calls(&self.tool_calls),
        }
    }
}

impl Clone for Message {
    fn clone(&self) -> (copy: Self)
        ensures
            copy@ == self@,
    {
        self.duplicate()
    }
}

/// How far the loading of a response has come.
#[derive(Debug, Clone, PartialEq, Eq)]
pub enum LoadingState {
    Idle,
    Loading,
    Loaded,
    Error(String),
}

impl Default for LoadingState {
    fn default() -> (state: Self)
        ensures
            state is Idle,
    {
        LoadingState::Idle
    }
}

/// The model with which the agent talks.
pub const LLM_MODEL: &'static str = "mistralai/devstral-2512";

/// The number of requests that one agent run may send to the model.
pub const MAX_AGENT_REQUESTS: u32 = 6;

/// The message that a user sends.
pub open spec fn user_message_spec(text: Seq<char>) -> MessageSpec {
    MessageSpec { role: Some("user"@), content: Some(text), tool_call_id: None, tool_calls: None }
}

/// The message that carries the answer `content` to the tool call `id`.
pub open spec fn tool_message(id: Seq<char>, content: Seq<char>) -> MessageSpec {
    MessageSpec { role: Some("tool"@), content: Some(content), tool_call_id: Some(id), tool_calls: None }
}

/// The answer to a tool call is recorded with exactly the content and the id
/// of that answer, unchanged, as a message of the role `tool` that asks for no
/// tool calls.
pub proof fn law_tool_result_is_recorded_unchanged(id: Seq<char>, content: Seq<char>)
    ensures
        tool_message(id, content).content == Some(content),
        tool_message(id, content).tool_call_id == Some(id),
        tool_message(id, content).role == Some("tool"@),
        tool_message(id, content).tool_calls is None,
{
}

/// A user's request is recorded with exactly the text that the user sent, as
/// a message of the role `user`.
pub proof fn law_user_message_is_recorded_unchanged(text: Seq<char>)
    ensures
        user_message_spec(text).content == Some(text),
        user_message_spec(text).role == Some("user"@),
        user_message_spec(text).tool_call_id is None,
        user_message_spec(text).tool_calls is None,
{
}

/// The conversation and whether an agent run is under way.
#[derive(Debug)]
pub struct AgentResponsesState {
    pub messages: Vec<Message>,
    pub loading_state: LoadingState,
    pub agent_is_active: bool,
}

impl Default for AgentResponsesState {
    fn default() -> (state: Self)
        ensures
            state.messages@.len() == 0,
            state.loading_state is Idle,
            !state.agent_is_active,
    {
        AgentResponsesState {
            messages: Vec::new(),
            loading_state: LoadingState::default(),
            agent_is_active: false,
        }
    }
}

impl AgentResponsesState {
    /// The views of the messages, oldest first.
    pub open spec fn history(&self) -> Seq<MessageSpec> {
        messages_view(self.messages@)
    }

    fn push_message(&mut self, message: Message)
        ensures
            final(self).history() == old(self).history().push(message@),
            final(self).agent_is_active == old(self).agent_is_active,
            final(self).loading_state == old(self).loading_state,
    {
        self.messages.push(message);
        assert(final(self).history() =~= old(self).history().push(message@));
    }

    /// Starts an agent run on `user_message`, unless one is under way: then
    /// the request is refused and nothing changes. Returns whether the run
    /// started.
    pub fn begin_user_turn(&mut self, user_message: String) -> (started: bool)
        ensures
            started == !old(self).agent_is_active,
            !started ==> *final(self) == *old(self),
            started ==> final(self).history() == old(self).history().push(
                user_message_spec(user_message@),
            ),
            started ==> final(self).agent_is_active,
            final(self).loading_state == old(self).loading_state,
    {
        if self.agent_is_active {
            return false;
        }
        let message = Message {
            role: Some(String::from_str("user")),
            tool_calls: None,
            tool_call_id: None,
            content: Some(user_message),
        };
        self.push_message(message);
        self.agent_is_active = true;
        true
    }

    /// Records the reply of the model. Where it asks for tool calls, they are
    /// returned and the run goes on; where it asks for none, the run ends.
    pub fn record_assistant_reply(&mut self, reply: Message) -> (tool_calls: Option<Vec<ToolCall>>)
        ensures
            final(self).history() == old(self).history().push(reply@),
            opt_calls_view(tool_calls) == reply@.tool_calls,
            final(self).agent_is_active == (old(self).agent_is_active && reply.tool_calls is Some),
            final(self).loading_state == old(self).loading_state,
    {
        let tool_calls = clone_calls(&reply.tool_calls);
        let asks_for_tools = reply.tool_calls.is_some();
        self.push_message(reply);
        if !asks_for_tools {
            self.agent_is_active = false;
        }
        tool_calls
    }

    /// Records the answer to a tool call, as a message of the role `tool`.
    pub fn record_tool_result(&mut self, response: ToolCallResponse)
        ensures
            final(self).history() == old(self).history().push(
                tool_message(response.id@, response.content@),
            ),
            final(self).agent_is_active == old(self).agent_is_active,
            final(self).loading_state == old(self).loading_state,
    {
        let message = Message {
            tool_call_id: Some(response.id),
            content: Some(response.content),
            role: Some(String::from_str("tool")),
            tool_calls: None,
        };
        self.push_message(message);
    }

    /// Ends the agent run; the messages stay.
    pub fn end_turn(&mut self)
        ensures
            !final(self).agent_is_active,
            final(self).history() == old(self).history(),
            final(self).loading_state == old(self).loading_state,
    {
        self.agent_is_active = false;
    }

    /// Whether the run of `turn` may send one more request to the model; where
    /// it may, the request is counted, and where it may not, the run ends.
    pub fn next_request(&mut self, turn: &mut AgentLoop) -> (allowed: bool)
        ensures
            allowed == (old(turn).sent() < MAX_AGENT_REQUESTS),
            final(turn).sent() == if allowed { old(turn).sent() + 1 } else { old(turn).sent() },
            old(turn).wf() ==> final(turn).wf(),
            final(self).agent_is_active == (old(self).agent_is_active && allowed),
            final(self).history() == old(self).history(),
            final(self).loading_state == old(self).loading_state,
    {
        let allowed = turn.next_request();
        if !allowed {
            self.end_turn();
        }
        allowed
    }

    /// Forgets every message; whether a run is under way stays as it is.
    pub fn clear_messages(&mut self)
        ensures
            final(self).history() == Seq::<MessageSpec>::empty(),
            final(self).agent_is_active == old(self).agent_is_active,
            final(self).loading_state == old(self).loading_state,
    {
        self.messages.clear();
        assert(final(self).history() =~= Seq::<MessageSpec>::empty());
    }

    /// A copy of the messages, oldest first.
    pub fn snapshot(&self) -> (messages: Vec<Message>)
        ensures
            messages_view(messages@) == self.history(),
    {
        let copy = self.messages.clone();
        assert(messages_view(copy@) =~= self.history());
        copy
    }
}

/// The count of requests that one agent run has sent to the model.
#[derive(Debug)]
pub struct AgentLoop {
    requests: u32,
}

/// The number of requests that a fresh run has sent after the agent loop has
/// asked `asks` times whether it may send one.
pub open spec fn requests_after(asks: nat) -> nat {
    if asks < MAX_AGENT_REQUESTS { asks } else { MAX_AGENT_REQUESTS as nat }
}

/// However often the agent loop asks, one run sends at most
/// [`MAX_AGENT_REQUESTS`] requests: the count after each ask is the one that
/// [`AgentLoop::next_request`] leaves after the count before it, and it never
/// exceeds the budget.
pub proof fn law_request_budget(asks: nat)
    ensures
        requests_after(0) == 0,
        requests_after(asks) <= MAX_AGENT_REQUESTS,
        requests_after(asks + 1) == if requests_after(asks) < MAX_AGENT_REQUESTS {
            requests_after(asks) + 1
        } else {
            requests_after(asks)
        },
{
}

impl AgentLoop {
    /// The number of requests sent so far.
    pub closed spec fn sent(&self) -> nat {
        self.requests as nat
    }

    /// The run has sent no more requests than its budget.
    pub open spec fn wf(&self) -> bool {
        self.sent() <= MAX_AGENT_REQUESTS
    }

    /// A run that has sent no request yet.
    pub fn new() -> (turn: AgentLoop)
        ensures
            turn.sent() == 0,
            turn.wf(),
    {
        AgentLoop { requests: 0 }
    }

    /// The number of requests sent so far.
    pub fn requests_sent(&self) -> (n: u32)
        ensures
            n == self.sent(),
    {
        self.requests
    }

    /// Whether the run may send one more request; where it may, the request is
    /// counted.
    pub fn next_request(&mut self) -> (allowed: bool)
        ensures
            allowed == (old(self).sent() < MAX_AGENT_REQUESTS),
            final(self).sent() == if allowed { old(self).sent() + 1 } else { old(self).sent() },
            old(self).wf() ==> final(self).wf(),
    {
        if self.requests < MAX_AGENT_REQUESTS {
            self.requests = self.requests + 1;
            true
        } else {
            false
        }
    }
}


/// The number of messages that the message panel shows.
pub const MAX_NUMBER_MESSAGES: usize = 4;

/// One message as the message panel shows it.
#[derive(Debug, Clone)]
pub struct MessagePanel {
    pub content: String,
    /// Whether the message asks for tool calls or answers one; such a message
    /// is shown dimmed.
    pub is_tool_call: bool,
}

/// The mathematical form of a [`MessagePanel`].
pub struct PanelSpec {
    pub content: Seq<char>,
    pub is_tool_call: bool,
}

impl View for MessagePanel {
    type V = PanelSpec;

    open spec fn view(&self) -> PanelSpec {
        PanelSpec { content: self.content@, is_tool_call: self.is_tool_call }
    }
}

/// How the message panel shows `m`: its content, empty where it has none.
pub open spec fn panel_of(m: MessageSpec) -> PanelSpec {
    PanelSpec {
        content: match m.content {
            Some(c) => c,
            None => Seq::empty(),
        },
        is_tool_call: m.tool_calls is Some || m.tool_call_id is Some,
    }
}

/// What the message panel shows of `history`: the most recent messages, at
/// most [`MAX_NUMBER_MESSAGES`] of them, newest first.
pub open spec fn visible_panels(history: Seq<MessageSpec>) -> Seq<PanelSpec> {
    let n = if history.len() < MAX_NUMBER_MESSAGES { history.len() } else {
        MAX_NUMBER_MESSAGES as nat
    };
    Seq::new(n, |i: int| panel_of(history[history.len() - 1 - i]))
}

/// The message panel shows the newest messages, at most
/// [`MAX_NUMBER_MESSAGES`] of them, newest first; each panel shows the whole
/// content of its message (every line of it), or nothing where the message has
/// none, and is dimmed exactly where the message asks for tool calls or answers
/// one.
pub proof fn law_panels_show_whole_newest_messages(history: Seq<MessageSpec>, i: int)
    requires
        0 <= i < history.len(),
        i < MAX_NUMBER_MESSAGES,
    ensures
        visible_panels(history).len() == if history.len() < MAX_NUMBER_MESSAGES { history.len() } else {
            MAX_NUMBER_MESSAGES as nat
        },
        history[history.len() - 1 - i].content matches Some(c) ==> visible_panels(history)[i].content == c,
        history[history.len() - 1 - i].content is None ==> visible_panels(history)[i].content == Seq::<char>::empty(),
        visible_panels(history)[i].is_tool_call == (history[history.len() - 1 - i].tool_calls is Some
            || history[history.len() - 1 - i].tool_call_id is Some),
{
}

impl AgentResponsesState {
    /// What the message panel shows of the conversation.
    pub fn message_panels(&self) -> (panels: Vec<MessagePanel>)
        ensures
            panels@.map_values(|p: MessagePanel| p@) == visible_panels(self.history()),
            panels@.len() <= MAX_NUMBER_MESSAGES,
    {
        let n = self.messages.len();
        let mut panels: Vec<MessagePanel> = Vec::new();
        let mut index: usize = 0;
        while index < n && index < MAX_NUMBER_MESSAGES
            invariant
                n == self.messages@.len(),
                index <= n,
                index <= MAX_NUMBER_MESSAGES,
                panels@.len() == index,
                forall|i: int|
                    0 <= i < index ==> #[trigger] panels@[i]@ == panel_of(
                        self.history()[n - 1 - i],
                    ),
            decreases n - index,
        {
            let message = &self.messages[n - 1 - index];
            let content = match &message.content {
                Some(c) => c.clone(),
                None => String::new(),
            };
            let is_tool_call = message.tool_calls.is_some() || message.tool_call_id.is_some();
            panels.push(MessagePanel { content, is_tool_call });
            index = index + 1;
        }
        assert(panels@.map_values(|p: MessagePanel| p@) =~= visible_panels(self.history()));
        panels
    }
}

/// The conversation as the interface holds it. The interface and the agent
/// loop share it: the program around the library hands them the interface in
/// turn, under a lock.
pub struct AgentResponsesWidget {
    pub state: AgentResponsesState,
}

impl AgentResponsesWidget {
    /// The views of the messages, oldest first.
    pub open spec fn history(&self) -> Seq<MessageSpec> {
        self.state.history()
    }

    /// Whether an agent run is under way.
    pub open spec fn active(&self) -> bool {
        self.state.agent_is_active
    }
}

impl Default for AgentResponsesWidget {
    fn default() -> (widget: Self)
        ensures
            widget.history() == Seq::<MessageSpec>::empty(),
            !widget.active(),
            widget.state.loading_state is Idle,
    {
        AgentResponsesWidget::new()
    }
}

impl AgentResponsesWidget {
    /// A widget with no messages and no run under way.
    pub fn new() -> (widget: AgentResponsesWidget)
        ensures
            widget.history() == Seq::<MessageSpec>::empty(),
            !widget.active(),
            widget.state.loading_state is Idle,
    {
        let state = AgentResponsesState::default();
        assert(state.history() =~= Seq::<MessageSpec>::empty());
        AgentResponsesWidget { state }
    }

    /// Starts an agent run on `user_message` unless one is under way, and
    /// returns whether it started; the caller then runs the agent loop.
    pub fn run(&mut self, user_message: String) -> (started: bool)
        ensures
            started == !old(self).active(),
            !started ==> *final(self) == *old(self),
            started ==> final(self).history() == old(self).history().push(
                user_message_spec(user_message@),
            ),
            started ==> final(self).active(),
            final(self).state.loading_state == old(self).state.loading_state,
    {
        self.state.begin_user_turn(user_message)
    }

    /// Forgets every message of the conversation; whether a run is under way
    /// stays as it is.
    pub fn clear_messages(&mut self)
        ensures
            final(self).history() == Seq::<MessageSpec>::empty(),
            final(self).active() == old(self).active(),
            final(self).state.loading_state == old(self).state.loading_state,
    {
        self.state.clear_messages();
    }

    /// A copy of the messages of the conversation, oldest first.
    pub fn messages(&self) -> (messages: Vec<Message>)
        ensures
            messages_view(messages@) == self.history(),
    {
        self.state.snapshot()
    }

    /// Whether an agent run is under way.
    pub fn is_agent_active(&self) -> (active: bool)
        ensures
            active == self.active(),
    {
        self.state.agent_is_active
    }

    /// What the message panel shows of the conversation.
    pub fn message_panels(&self) -> (panels: Vec<MessagePanel>)
        ensures
            panels@.map_values(|p: MessagePanel| p@) == visible_panels(self.history()),
            panels@.len() <= MAX_NUMBER_MESSAGES,
    {
        self.state.message_panels()
    }

    /// Whether the run of `turn` may send one more request to the model; where
    /// it may, the request is counted, and where it may not, the run ends.
    pub fn next_request(&mut self, turn: &mut AgentLoop) -> (allowed: bool)
        ensures
            allowed == (old(turn).sent() < MAX_AGENT_REQUESTS),
            final(turn).sent() == if allowed { old(turn).sent() + 1 } else { old(turn).sent() },
            old(turn).wf() ==> final(turn).wf(),
            final(self).active() == (old(self).active() && allowed),
            final(self).history() == old(self).history(),
            final(self).state.loading_state == old(self).state.loading_state,
    {
        self.state.next_request(turn)
    }

    /// Records the reply of the model and returns the tool calls that it asks
    /// for; where it asks for none, the run ends.
    pub fn record_assistant_reply(&mut self, reply: Message) -> (tool_calls: Option<Vec<ToolCall>>)
        ensures
            final(self).history() == old(self).history().push(reply@),
            opt_calls_view(tool_calls) == reply@.tool_calls,
            final(self).active() == (old(self).active() && reply.tool_calls is Some),
            final(self).state.loading_state == old(self).state.loading_state,
    {
        self.state.record_assistant_reply(reply)
    }

    /// Records the answer to a tool call, as a message of the role `tool`.
    pub fn record_tool_result(&mut self, response: ToolCallResponse)
        ensures
            final(self).history() == old(self).history().push(
                tool_message(response.id@, response.content@),
            ),
            final(self).active() == old(self).active(),
            final(self).state.loading_state == old(self).state.loading_state,
    {
        self.state.record_tool_result(response);
    }

    /// Ends the agent run; the messages stay.
    pub fn end_turn(&mut self)
        ensures
            !final(self).active(),
            final(self).history() == old(self).history(),
            final(self).state.loading_state == old(self).state.loading_state,
    {
        self.state.end_turn();
    }
}

} // verus!
