//! The agent loop as a state machine. A session holds the conversation and
//! decides, event by event, what is to happen next: ask the model, run a
//! tool, finish with an answer, or fail. The caller performs the model calls
//! and the tool runs and reports their outcomes as events.

use vstd::prelude::*;
use vstd::string::StringExecFns;
use crate::memory::{
    awaits_result, carries_call, issued_at, lemma_push_keeps_linked,
    lemma_push_tool_keeps_linked, lemma_rendered_keeps_all, lemma_turn_linkage, linked, rendered,
    seed_text, shaped, turn_views, Memory,
};
use crate::prompts::{
    react_instructions, react_system_prompt, reflexion_instructions, reflexion_system_prompt,
    REFLECTION_PROMPT,
};
use crate::registry::{
    create_tool_map, definition_views, dispatch, dispatch_tool, parse_arguments,
    parsed_arguments, tool_catalog, tool_error_message, ToolDefinition, ToolError, ToolErrorView,
    ToolRequest, ToolRequestView,
};
use crate::types::{
    assistant_turn, call_views, clone_calls, clone_option, option_view, tool_turn, user_turn,
    AgentType, Message, MessageView, Role, ToolCall, ToolCallView,
};

verus! {

/// The step ceiling: a run may take this many reasoning steps and no more.
pub const MAX_STEPS: usize = 20;

/// Where a session stands.
#[derive(Clone, Copy, Debug, PartialEq, Eq, Structural)]
pub enum Phase {
    /// Waiting for the model's next reply.
    Reasoning,
    /// Waiting for the result of a tool invocation of the current batch.
    Acting,
    /// Waiting for the model's critique of the round just finished.
    Reflecting,
    /// A final answer was given.
    Done,
    /// The run was aborted.
    Failed,
}

/// Why the model gave no usable reply.
#[derive(Debug, PartialEq, Eq)]
pub enum GatewayError {
    /// The provider returned no choice.
    EmptyResponse,
    /// The request did not get through; the transport's message.
    TransportError(String),
    /// The model sent a tool invocation whose arguments are not valid JSON;
    /// the payload.
    ToolParseError(String),
}

/// A gateway error as a mathematical value.
pub enum GatewayErrorView {
    EmptyResponse,
    TransportError(Seq<char>),
    ToolParseError(Seq<char>),
}

impl View for GatewayError {
    type V = GatewayErrorView;

    open spec fn view(&self) -> GatewayErrorView {
        match self {
            GatewayError::EmptyResponse => GatewayErrorView::EmptyResponse,
            GatewayError::TransportError(message) => GatewayErrorView::TransportError(message@),
            GatewayError::ToolParseError(payload) => GatewayErrorView::ToolParseError(payload@),
        }
    }
}

/// Why a run was aborted.
#[derive(Debug, PartialEq, Eq)]
pub enum AgentError {
    /// The model gateway failed.
    Gateway(GatewayError),
    /// A tool invocation could not be dispatched or run.
    Tool(ToolError),
    /// The step ceiling was passed without a final answer.
    BudgetExceeded,
    /// The session was handed an event it was not waiting for.
    UnexpectedEvent,
}

/// An agent error as a mathematical value.
pub enum AgentErrorView {
    Gateway(GatewayErrorView),
    Tool(ToolErrorView),
    BudgetExceeded,
    UnexpectedEvent,
}

impl View for AgentError {
    type V = AgentErrorView;

    open spec fn view(&self) -> AgentErrorView {
        match self {
            AgentError::Gateway(error) => AgentErrorView::Gateway(error@),
            AgentError::Tool(error) => AgentErrorView::Tool(error@),
            AgentError::BudgetExceeded => AgentErrorView::BudgetExceeded,
            AgentError::UnexpectedEvent => AgentErrorView::UnexpectedEvent,
        }
    }
}

/// The message of an agent error.
pub open spec fn agent_error_message(error: AgentErrorView) -> Seq<char> {
    match error {
        AgentErrorView::Gateway(GatewayErrorView::EmptyResponse) => "No choices in the model's response"@,
        AgentErrorView::Gateway(GatewayErrorView::TransportError(message)) => "Failed to call the model: "@
            + message,
        AgentErrorView::Gateway(GatewayErrorView::ToolParseError(payload)) => "Failed to parse tool arguments: "@
            + payload,
        AgentErrorView::Tool(error) => tool_error_message(error),
        AgentErrorView::BudgetExceeded => "Exceeded maximum number of steps"@,
        AgentErrorView::UnexpectedEvent => "Unexpected event for the session's phase"@,
    }
}

impl AgentError {
    /// A sentence that says why the run was aborted.
    pub fn message(&self) -> (r: String)
        ensures
            r@ == agent_error_message(self@),
    {
        match self {
            AgentError::Gateway(GatewayError::EmptyResponse) => String::from_str(
                "No choices in the model's response",
            ),
            AgentError::Gateway(GatewayError::TransportError(message)) => String::from_str(
                "Failed to call the model: ",
            ).concat(message.as_str()),
            AgentError::Gateway(GatewayError::ToolParseError(payload)) => String::from_str(
                "Failed to parse tool arguments: ",
            ).concat(payload.as_str()),
            AgentError::Tool(error) => error.message(),
            AgentError::BudgetExceeded => String::from_str("Exceeded maximum number of steps"),
            AgentError::UnexpectedEvent => String::from_str(
                "Unexpected event for the session's phase",
            ),
        }
    }
}

/// What the caller reports to the session.
#[derive(Debug, PartialEq, Eq)]
pub enum Event {
    /// The model replied with this text and these tool invocations.
    ModelReplied { text: String, tool_calls: Vec<ToolCall> },
    /// The model call failed.
    ModelFailed(GatewayError),
    /// The tool ran; its output as text.
    ToolFinished(String),
    /// The tool could not run at all; its message.
    ToolFailed(String),
}

/// An event as a mathematical value.
pub enum EventView {
    ModelReplied { text: Seq<char>, tool_calls: Seq<ToolCallView> },
    ModelFailed(GatewayErrorView),
    ToolFinished(Seq<char>),
    ToolFailed(Seq<char>),
}

impl View for Event {
    type V = EventView;

    open spec fn view(&self) -> EventView {
        match self {
            Event::ModelReplied { text, tool_calls } => EventView::ModelReplied {
                text: text@,
                tool_calls: call_views(tool_calls@),
            },
            Event::ModelFailed(error) => EventView::ModelFailed(error@),
            Event::ToolFinished(output) => EventView::ToolFinished(output@),
            Event::ToolFailed(message) => EventView::ToolFailed(message@),
        }
    }
}

/// What the session asks of the caller.
#[derive(Debug, PartialEq, Eq)]
pub enum Action {
    /// Render the memory, call the model, and report its reply.
    CallModel,
    /// Carry out this request and report the tool's output.
    RunTool(ToolRequest),
    /// The run is done; this is its answer.
    Finish(String),
    /// The run is aborted.
    Fail(AgentError),
}

/// An action as a mathematical value.
pub enum ActionView {
    CallModel,
    RunTool(ToolRequestView),
    Finish(Seq<char>),
    Fail(AgentErrorView),
}

impl View for Action {
    type V = ActionView;

    open spec fn view(&self) -> ActionView {
        match self {
            Action::CallModel => ActionView::CallModel,
            Action::RunTool(request) => ActionView::RunTool(request@),
            Action::Finish(answer) => ActionView::Finish(answer@),
            Action::Fail(error) => ActionView::Fail(error@),
        }
    }
}

/// A session as a mathematical value.
pub struct SessionView {
    pub agent_type: AgentType,
    pub system_instructions: Seq<char>,
    pub turns: Seq<MessageView>,
    pub step: nat,
    pub phase: Phase,
    pub pending: Seq<ToolCallView>,
    pub cursor: nat,
    pub final_answer: Option<Seq<char>>,
}

/// A session right after it was seeded: the first reasoning step is due.
pub open spec fn seeded(
    agent_type: AgentType,
    system_instructions: Seq<char>,
    prompt: Seq<char>,
    directory: Seq<char>,
) -> SessionView {
    SessionView {
        agent_type,
        system_instructions,
        turns: seq![user_turn(seed_text(prompt, directory))],
        step: 1,
        phase: Phase::Reasoning,
        pending: Seq::empty(),
        cursor: 0,
        final_answer: None,
    }
}

/// The system instructions of a variant.
pub open spec fn default_instructions(agent_type: AgentType) -> Seq<char> {
    match agent_type {
        AgentType::ReAct => react_instructions(),
        AgentType::Reflexion => reflexion_instructions(),
    }
}

/// The instructions in force: during a reflection the session's instructions
/// followed by the reflection directive, else the session's instructions.
pub open spec fn active_instructions(s: SessionView) -> Seq<char> {
    if s.phase == Phase::Reflecting {
        s.system_instructions + "\n\n"@ + REFLECTION_PROMPT@
    } else {
        s.system_instructions
    }
}

/// While a batch is acted upon, the turn that issued it stands `cursor`
/// places before the end of the memory, followed by the results of the
/// invocations dealt with so far.
pub open spec fn batch_open(s: SessionView) -> bool {
    &&& s.cursor < s.pending.len()
    &&& s.cursor < s.turns.len()
    &&& s.turns[s.turns.len() - 1 - s.cursor] == assistant_turn(
        s.turns[s.turns.len() - 1 - s.cursor].content,
        s.pending,
    )
    &&& forall|m: int|
        s.turns.len() - 1 - s.cursor < m < s.turns.len() ==> (#[trigger] s.turns[m]).role
            == Role::Tool
}

/// The invariant of a session.
pub open spec fn valid(s: SessionView) -> bool {
    &&& linked(s.turns)
    &&& forall|i: int| 0 <= i < s.turns.len() ==> shaped(#[trigger] s.turns[i])
    &&& s.turns.len() >= 1
    &&& s.turns[0].role == Role::User
    &&& 1 <= s.step <= MAX_STEPS + 1
    &&& (s.phase != Phase::Done && s.phase != Phase::Failed ==> s.step <= MAX_STEPS)
    &&& (s.phase == Phase::Acting ==> batch_open(s))
    &&& (s.phase == Phase::Reflecting ==> s.agent_type == AgentType::Reflexion)
    &&& (s.phase == Phase::Done <==> s.final_answer is Some)
}

/// What the loop makes of one tool invocation: the request it stands for, or
/// the error that aborts the run. A payload that is not valid JSON is a
/// parse error; a well-formed payload is dispatched through the registry.
pub open spec fn decide_call(call: ToolCallView) -> Result<ToolRequestView, AgentErrorView> {
    match parsed_arguments(call.arguments) {
        None => Err(AgentErrorView::Gateway(GatewayErrorView::ToolParseError(call.arguments))),
        Some(args) => match dispatch(call.name, args) {
            Ok(request) => Ok(request),
            Err(error) => Err(AgentErrorView::Tool(error)),
        },
    }
}

/// The session aborted with `error`.
pub open spec fn failed(s: SessionView, error: AgentErrorView) -> (SessionView, ActionView) {
    (SessionView { phase: Phase::Failed, ..s }, ActionView::Fail(error))
}

/// A reasoning round ends: the step counter goes up, and the run either
/// fails on its budget or goes on to the next model call.
pub open spec fn end_round(s: SessionView) -> (SessionView, ActionView) {
    let next = SessionView { step: s.step + 1, ..s };
    if next.step > MAX_STEPS {
        failed(next, AgentErrorView::BudgetExceeded)
    } else {
        (SessionView { phase: Phase::Reasoning, ..next }, ActionView::CallModel)
    }
}

/// A batch is through: the reflecting variant asks for a critique first, the
/// plain one ends the round.
pub open spec fn end_batch(s: SessionView) -> (SessionView, ActionView) {
    if s.agent_type == AgentType::Reflexion {
        (SessionView { phase: Phase::Reflecting, ..s }, ActionView::CallModel)
    } else {
        end_round(s)
    }
}

/// The invocation under the cursor is looked at: a final answer ends the
/// run at once, any other request goes to the caller, an error aborts.
pub open spec fn examine(s: SessionView) -> (SessionView, ActionView) {
    match decide_call(s.pending[s.cursor as int]) {
        Err(error) => failed(s, error),
        Ok(ToolRequestView::FinalAnswer { answer }) => (
            SessionView { phase: Phase::Done, final_answer: Some(answer), ..s },
            ActionView::Finish(answer),
        ),
        Ok(request) => (s, ActionView::RunTool(request)),
    }
}

/// The transition function of the agent loop: the state and the action that
/// follow from a state and an event.
pub open spec fn transition(s: SessionView, event: EventView) -> (SessionView, ActionView) {
    match s.phase {
        Phase::Reasoning => match event {
            EventView::ModelReplied { text, tool_calls } => {
                let heard = SessionView {
                    turns: s.turns.push(assistant_turn(text, tool_calls)),
                    pending: tool_calls,
                    cursor: 0,
                    ..s
                };
                if tool_calls.len() == 0 {
                    end_round(heard)
                } else {
                    examine(SessionView { phase: Phase::Acting, ..heard })
                }
            },
            EventView::ModelFailed(error) => failed(s, AgentErrorView::Gateway(error)),
            _ => failed(s, AgentErrorView::UnexpectedEvent),
        },
        Phase::Acting => match event {
            EventView::ToolFinished(output) => {
                let call = s.pending[s.cursor as int];
                let observed = SessionView {
                    turns: s.turns.push(tool_turn(call.id, call.name, output)),
                    cursor: s.cursor + 1,
                    ..s
                };
                if observed.cursor < observed.pending.len() {
                    examine(observed)
                } else {
                    end_batch(observed)
                }
            },
            EventView::ToolFailed(message) => failed(
                s,
                AgentErrorView::Tool(ToolErrorView::Failed(message)),
            ),
            _ => failed(s, AgentErrorView::UnexpectedEvent),
        },
        Phase::Reflecting => match event {
            EventView::ModelReplied { text, tool_calls } => end_round(
                SessionView { turns: s.turns.push(assistant_turn(text, Seq::empty())), ..s },
            ),
            EventView::ModelFailed(error) => failed(s, AgentErrorView::Gateway(error)),
            _ => failed(s, AgentErrorView::UnexpectedEvent),
        },
        Phase::Done => (s, ActionView::Fail(AgentErrorView::UnexpectedEvent)),
        Phase::Failed => (s, ActionView::Fail(AgentErrorView::UnexpectedEvent)),
    }
}

/// While a batch is open, the invocation under the cursor is waiting for its
/// result.
pub proof fn lemma_batch_awaits(s: SessionView)
    requires
        batch_open(s),
    ensures
        awaits_result(s.turns, s.pending[s.cursor as int].id),
{
    let j = s.turns.len() - 1 - s.cursor;
    let id = s.pending[s.cursor as int].id;
    assert(s.turns[j].tool_calls[s.cursor as int].id == id);
    assert(carries_call(s.turns[j], id));
    assert(issued_at(s.turns, j, s.turns.len() as int, id));
}

/// Looking at the invocation under the cursor keeps a session valid.
pub proof fn lemma_examine_valid(s: SessionView)
    requires
        valid(s),
        s.phase == Phase::Acting,
    ensures
        valid(examine(s).0),
{
}

/// Ending a round keeps a session valid.
pub proof fn lemma_end_round_valid(s: SessionView)
    requires
        valid(s),
        s.phase != Phase::Done,
        s.phase != Phase::Failed,
    ensures
        valid(end_round(s).0),
{
}

/// Every transition keeps a session valid.
pub proof fn lemma_transition_valid(s: SessionView, event: EventView)
    requires
        valid(s),
    ensures
        valid(transition(s, event).0),
{
    match s.phase {
        Phase::Reasoning => match event {
            EventView::ModelReplied { text, tool_calls } => {
                let added = assistant_turn(text, tool_calls);
                let heard = SessionView {
                    turns: s.turns.push(added),
                    pending: tool_calls,
                    cursor: 0,
                    ..s
                };
                lemma_push_keeps_linked(s.turns, added);
                assert forall|i: int| 0 <= i < heard.turns.len() implies shaped(
                    #[trigger] heard.turns[i],
                ) by {
                    if i < s.turns.len() {
                        assert(heard.turns[i] == s.turns[i]);
                    }
                }
                assert(heard.turns[0] == s.turns[0]);
                assert(valid(heard));
                if tool_calls.len() == 0 {
                    lemma_end_round_valid(heard);
                } else {
                    let acting = SessionView { phase: Phase::Acting, ..heard };
                    assert(batch_open(acting));
                    lemma_examine_valid(acting);
                }
            },
            _ => {},
        },
        Phase::Acting => match event {
            EventView::ToolFinished(output) => {
                let call = s.pending[s.cursor as int];
                let added = tool_turn(call.id, call.name, output);
                let observed = SessionView {
                    turns: s.turns.push(added),
                    cursor: s.cursor + 1,
                    ..s
                };
                lemma_batch_awaits(s);
                lemma_push_tool_keeps_linked(s.turns, call.id, call.name, output);
                assert forall|i: int| 0 <= i < observed.turns.len() implies shaped(
                    #[trigger] observed.turns[i],
                ) by {
                    if i < s.turns.len() {
                        assert(observed.turns[i] == s.turns[i]);
                    }
                }
                assert(observed.turns[0] == s.turns[0]);
                if observed.cursor < observed.pending.len() {
                    let j = s.turns.len() - 1 - s.cursor;
                    assert(observed.turns[j] == s.turns[j]);
                    assert forall|m: int| j < m < observed.turns.len() implies (
                    #[trigger] observed.turns[m]).role == Role::Tool by {
                        if m < s.turns.len() {
                            assert(observed.turns[m] == s.turns[m]);
                        }
                    }
                    assert(batch_open(observed));
                    assert(valid(observed));
                    lemma_examine_valid(observed);
                } else {
                    let closed = SessionView { phase: Phase::Reasoning, ..observed };
                    assert(valid(closed));
                    if s.agent_type != AgentType::Reflexion {
                        lemma_end_round_valid(closed);
                        assert(end_round(closed) == end_round(observed));
                    }
                }
            },
            _ => {},
        },
        Phase::Reflecting => match event {
            EventView::ModelReplied { text, tool_calls } => {
                let added = assistant_turn(text, Seq::empty());
                let heard = SessionView { turns: s.turns.push(added), ..s };
                lemma_push_keeps_linked(s.turns, added);
                assert forall|i: int| 0 <= i < heard.turns.len() implies shaped(
                    #[trigger] heard.turns[i],
                ) by {
                    if i < s.turns.len() {
                        assert(heard.turns[i] == s.turns[i]);
                    }
                }
                assert(heard.turns[0] == s.turns[0]);
                lemma_end_round_valid(heard);
            },
            _ => {},
        },
        _ => {},
    }
}

/// What the loop makes of one tool invocation: parses its argument payload
/// and dispatches it through the registry.
pub fn decide(call: &ToolCall) -> (r: Result<ToolRequest, AgentError>)
    ensures
        match decide_call(call@) {
            Ok(request) => r is Ok && r->Ok_0@ == request,
            Err(error) => r is Err && r->Err_0@ == error,
        },
{
    match parse_arguments(call.function.arguments.as_str()) {
        None => Err(AgentError::Gateway(GatewayError::ToolParseError(call.function.arguments.clone()))),
        Some(args) => match dispatch_tool(call.function.name.as_str(), &args) {
            Ok(request) => Ok(request),
            Err(error) => Err(AgentError::Tool(error)),
        },
    }
}

/// One run of the agent loop: its memory, its instructions and how far it
/// has come.
#[derive(Debug, PartialEq, Eq)]
pub struct AgentSession {
    agent_type: AgentType,
    system_instructions: String,
    memory: Memory,
    step: usize,
    phase: Phase,
    pending: Vec<ToolCall>,
    cursor: usize,
    final_answer: Option<String>,
}

impl View for AgentSession {
    type V = SessionView;

    closed spec fn view(&self) -> SessionView {
        SessionView {
            agent_type: self.agent_type,
            system_instructions: self.system_instructions@,
            turns: self.memory@,
            step: self.step as nat,
            phase: self.phase,
            pending: call_views(self.pending@),
            cursor: self.cursor as nat,
            final_answer: option_view(self.final_answer),
        }
    }
}

impl AgentSession {
    /// The session satisfies the invariant of the loop.
    pub open spec fn well_formed(&self) -> bool {
        valid(self@)
    }

    /// A seeded session of the given variant with the variant's own system
    /// instructions.
    pub fn new(agent_type: AgentType, prompt: &str, directory: &str) -> (session: Self)
        ensures
            session.well_formed(),
            session@ == seeded(agent_type, default_instructions(agent_type), prompt@, directory@),
    {
        let instructions = match agent_type {
            AgentType::ReAct => react_system_prompt(),
            AgentType::Reflexion => reflexion_system_prompt(),
        };
        AgentSession::with_instructions(agent_type, instructions.as_str(), prompt, directory)
    }

    /// A seeded session with the given system instructions: its memory holds
    /// the one User turn made from the prompt and the directory, and the
    /// first reasoning step is due.
    pub fn with_instructions(
        agent_type: AgentType,
        system_instructions: &str,
        prompt: &str,
        directory: &str,
    ) -> (session: Self)
        ensures
            session.well_formed(),
            session@ == seeded(agent_type, system_instructions@, prompt@, directory@),
    {
        let mut memory = Memory::new();
        let _ = memory.seed(prompt, directory);
        let session = AgentSession {
            agent_type,
            system_instructions: String::from_str(system_instructions),
            memory,
            step: 1,
            phase: Phase::Reasoning,
            pending: Vec::new(),
            cursor: 0,
            final_answer: None,
        };
        proof {
            assert(call_views(session.pending@) =~= Seq::empty());
            assert(session@ == seeded(agent_type, system_instructions@, prompt@, directory@));
        }
        session
    }

    /// The variant of the loop that this session runs.
    pub fn agent_type(&self) -> (r: AgentType)
        ensures
            r == self@.agent_type,
    {
        self.agent_type
    }

    /// Where the session stands.
    pub fn phase(&self) -> (r: Phase)
        ensures
            r == self@.phase,
    {
        self.phase
    }

    /// The number of the reasoning step that is due or under way, counted
    /// from 1.
    pub fn step_number(&self) -> (r: usize)
        ensures
            r == self@.step,
    {
        self.step
    }

    /// The conversation so far.
    pub fn memory(&self) -> (r: &Memory)
        ensures
            r@ == self@.turns,
    {
        &self.memory
    }

    /// The final answer, once the run is done.
    pub fn final_answer(&self) -> (r: Option<String>)
        ensures
            option_view(r) == self@.final_answer,
    {
        clone_option(&self.final_answer)
    }

    /// The session's own system instructions, which no step changes.
    pub fn system_instructions(&self) -> (r: String)
        ensures
            r@ == self@.system_instructions,
    {
        self.system_instructions.clone()
    }

    /// The instructions in force: while a critique is awaited, the session's
    /// instructions followed by the reflection directive.
    pub fn active_instructions(&self) -> (r: String)
        ensures
            r@ == active_instructions(self@),
    {
        match self.phase {
            Phase::Reflecting => self.system_instructions.clone().concat("\n\n").concat(
                REFLECTION_PROMPT,
            ),
            _ => self.system_instructions.clone(),
        }
    }

    /// What the model is to be sent now: one System turn with the
    /// instructions in force, then the conversation.
    pub fn render_for_model(&self) -> (r: Vec<Message>)
        ensures
            turn_views(r@) == rendered(active_instructions(self@), self@.turns),
    {
        let instructions = self.active_instructions();
        self.memory.render_for_model(instructions.as_str())
    }

    fn abort(&mut self, error: AgentError) -> (action: Action)
        ensures
            (final(self)@, action@) == failed(old(self)@, error@),
    {
        self.phase = Phase::Failed;
        Action::Fail(error)
    }

    fn close_round(&mut self) -> (action: Action)
        requires
            old(self).step <= MAX_STEPS,
        ensures
            (final(self)@, action@) == end_round(old(self)@),
    {
        self.step = self.step + 1;
        if self.step > MAX_STEPS {
            self.abort(AgentError::BudgetExceeded)
        } else {
            self.phase = Phase::Reasoning;
            Action::CallModel
        }
    }

    fn close_batch(&mut self) -> (action: Action)
        requires
            old(self).step <= MAX_STEPS,
        ensures
            (final(self)@, action@) == end_batch(old(self)@),
    {
        match self.agent_type {
            AgentType::Reflexion => {
                self.phase = Phase::Reflecting;
                Action::CallModel
            },
            AgentType::ReAct => self.close_round(),
        }
    }

    fn inspect(&mut self) -> (action: Action)
        requires
            old(self).cursor < old(self).pending.len(),
        ensures
            (final(self)@, action@) == examine(old(self)@),
    {
        let decision = decide(&self.pending[self.cursor]);
        match decision {
            Err(error) => self.abort(error),
            Ok(ToolRequest::FinalAnswer { answer }) => {
                self.final_answer = Some(answer.clone());
                self.phase = Phase::Done;
                Action::Finish(answer)
            },
            Ok(request) => Action::RunTool(request),
        }
    }

    /// Takes the session one event further and says what is to happen next.
    ///
    /// A model reply is appended as an Assistant turn; its tool invocations
    /// are then dealt with one by one, in order. A `final_answer` invocation
    /// ends the run at once with its answer. For any other invocation the
    /// caller is asked to run the tool, and the output it reports is appended
    /// as a Tool turn. When a batch is through, the reflecting variant asks
    /// for one more model call, whose text is appended as a plain Assistant
    /// turn. Each round then counts against the step ceiling. A failed model
    /// call, a payload that does not parse, an invocation that cannot be
    /// dispatched and a tool that cannot run abort the run. A session that is
    /// done or has failed stays as it is.
    pub fn step(&mut self, event: Event) -> (action: Action)
        requires
            old(self).well_formed(),
        ensures
            final(self).well_formed(),
            (final(self)@, action@) == transition(old(self)@, event@),
    {
        proof {
            lemma_transition_valid(self@, event@);
        }
        match self.phase {
            Phase::Reasoning => match event {
                Event::ModelReplied { text, tool_calls } => {
                    let batch = clone_calls(&tool_calls);
                    self.memory.append_assistant(text.as_str(), tool_calls);
                    self.pending = batch;
                    self.cursor = 0;
                    if self.pending.len() == 0 {
                        self.close_round()
                    } else {
                        self.phase = Phase::Acting;
                        self.inspect()
                    }
                },
                Event::ModelFailed(error) => self.abort(AgentError::Gateway(error)),
                _ => self.abort(AgentError::UnexpectedEvent),
            },
            Phase::Acting => match event {
                Event::ToolFinished(output) => {
                    proof {
                        lemma_batch_awaits(self@);
                    }
                    assert(self.cursor < self.pending.len());
                    let next = self.cursor + 1;
                    let call = &self.pending[self.cursor];
                    let _ = self.memory.append_tool_result(
                        call.id.as_str(),
                        call.function.name.as_str(),
                        output.as_str(),
                    );
                    self.cursor = next;
                    if self.cursor < self.pending.len() {
                        self.inspect()
                    } else {
                        self.close_batch()
                    }
                },
                Event::ToolFailed(message) => self.abort(
                    AgentError::Tool(ToolError::Failed(message)),
                ),
                _ => self.abort(AgentError::UnexpectedEvent),
            },
            Phase::Reflecting => match event {
                Event::ModelReplied { text, tool_calls: _ } => {
                    let none: Vec<ToolCall> = Vec::new();
                    assert(call_views(none@) =~= Seq::empty());
                    self.memory.append_assistant(text.as_str(), none);
                    self.close_round()
                },
                Event::ModelFailed(error) => self.abort(AgentError::Gateway(error)),
                _ => self.abort(AgentError::UnexpectedEvent),
            },
            Phase::Done => Action::Fail(AgentError::UnexpectedEvent),
            Phase::Failed => Action::Fail(AgentError::UnexpectedEvent),
        }
    }
}

/// One choice of a model response: its text, if any, and the tool
/// invocations it asks for, if any.
#[derive(Debug, PartialEq, Eq)]
pub struct Choice {
    pub content: Option<String>,
    pub tool_calls: Option<Vec<ToolCall>>,
}

/// A choice as a mathematical value.
pub struct ChoiceView {
    pub content: Option<Seq<char>>,
    pub tool_calls: Option<Seq<ToolCallView>>,
}

impl View for Choice {
    type V = ChoiceView;

    open spec fn view(&self) -> ChoiceView {
        ChoiceView {
            content: option_view(self.content),
            tool_calls: match self.tool_calls {
                Some(calls) => Some(call_views(calls@)),
                None => None,
            },
        }
    }
}

/// The views of a sequence of choices, in order.
pub open spec fn choice_views(choices: Seq<Choice>) -> Seq<ChoiceView> {
    Seq::new(choices.len(), |i: int| choices[i]@)
}

/// What a response amounts to: the text and the invocations of its first
/// choice, an absent text counting as empty and absent invocations as none;
/// a response without choices is an error.
pub open spec fn interpreted(choices: Seq<ChoiceView>) -> Result<
    (Seq<char>, Seq<ToolCallView>),
    GatewayErrorView,
> {
    if choices.len() == 0 {
        Err(GatewayErrorView::EmptyResponse)
    } else {
        Ok(
            (
                match choices[0].content {
                    Some(text) => text,
                    None => Seq::empty(),
                },
                match choices[0].tool_calls {
                    Some(calls) => calls,
                    None => Seq::empty(),
                },
            ),
        )
    }
}

/// Reads a model response: only its first choice counts.
pub fn interpret_response(choices: &Vec<Choice>) -> (r: Result<(String, Vec<ToolCall>), GatewayError>)
    ensures
        match interpreted(choice_views(choices@)) {
            Ok((text, calls)) => r is Ok && r->Ok_0.0@ == text && call_views(r->Ok_0.1@) == calls,
            Err(error) => r is Err && r->Err_0@ == error,
        },
{
    if choices.len() == 0 {
        return Err(GatewayError::EmptyResponse);
    }
    let first = &choices[0];
    assert(choice_views(choices@)[0] == first@);
    let text = match &first.content {
        Some(content) => content.clone(),
        None => String::new(),
    };
    let calls = match &first.tool_calls {
        Some(calls) => clone_calls(calls),
        None => {
            let none: Vec<ToolCall> = Vec::new();
            assert(call_views(none@) =~= Seq::empty());
            none
        },
    };
    Ok((text, calls))
}

/// In every valid session each Tool turn is preceded by an Assistant turn
/// that carries an invocation with the id it names.
pub proof fn lemma_session_turn_linkage(s: SessionView, i: int)
    requires
        valid(s),
        0 <= i < s.turns.len(),
        s.turns[i].role == Role::Tool,
    ensures
        exists|j: int, k: int|
            0 <= j < i && s.turns[j].role == Role::Assistant && 0 <= k
                < s.turns[j].tool_calls.len() && s.turns[i].tool_call_id == Some(
                (#[trigger] s.turns[j].tool_calls[k]).id,
            ),
{
    lemma_turn_linkage(s.turns, i);
}

/// The memory only grows: what a session held before a transition opens what
/// it holds after it, and at most one turn is added.
pub proof fn lemma_transition_appends(s: SessionView, event: EventView)
    ensures
        s.turns.is_prefix_of(transition(s, event).0.turns),
        transition(s, event).0.turns.len() <= s.turns.len() + 1,
{
    let after = transition(s, event).0.turns;
    assert(s.turns =~= after.subrange(0, s.turns.len() as int));
}

/// No transition changes the session's own system instructions or its
/// variant.
pub proof fn lemma_instructions_unchanged(s: SessionView, event: EventView)
    ensures
        transition(s, event).0.system_instructions == s.system_instructions,
        transition(s, event).0.agent_type == s.agent_type,
{
}

/// When the first invocation of a reply is a well-formed `final_answer`, the
/// run is done with exactly its answer, the reply is the only turn added,
/// and no tool is run.
pub proof fn lemma_final_answer_ends_run(
    s: SessionView,
    text: Seq<char>,
    tool_calls: Seq<ToolCallView>,
    answer: Seq<char>,
)
    requires
        s.phase == Phase::Reasoning,
        tool_calls.len() > 0,
        decide_call(tool_calls[0]) == Ok::<ToolRequestView, AgentErrorView>(
            ToolRequestView::FinalAnswer { answer },
        ),
    ensures
        transition(s, EventView::ModelReplied { text, tool_calls }).1 == ActionView::Finish(answer),
        transition(s, EventView::ModelReplied { text, tool_calls }).0.phase == Phase::Done,
        transition(s, EventView::ModelReplied { text, tool_calls }).0.final_answer == Some(answer),
        transition(s, EventView::ModelReplied { text, tool_calls }).0.turns == s.turns.push(
            assistant_turn(text, tool_calls),
        ),
{
}

/// A session that is done or has failed stays as it is, whatever it is
/// told, and never asks for another model call or tool run.
pub proof fn lemma_terminal_stays(s: SessionView, event: EventView)
    requires
        s.phase == Phase::Done || s.phase == Phase::Failed,
    ensures
        transition(s, event) == (s, ActionView::Fail(AgentErrorView::UnexpectedEvent)),
{
}

/// The event of a model reply that holds text only.
pub open spec fn thought(text: Seq<char>) -> EventView {
    EventView::ModelReplied { text, tool_calls: Seq::empty() }
}

/// The session after the model has replied with each of the texts in turn,
/// never asking for a tool.
pub open spec fn after_thoughts(s: SessionView, texts: Seq<Seq<char>>) -> SessionView
    decreases texts.len(),
{
    if texts.len() == 0 {
        s
    } else {
        transition(after_thoughts(s, texts.drop_last()), thought(texts.last())).0
    }
}

/// A reply without tool invocations uses up one step: while the ceiling is
/// not reached the session goes on reasoning.
pub proof fn lemma_thoughts_count(s: SessionView, texts: Seq<Seq<char>>)
    requires
        s.phase == Phase::Reasoning,
        s.step + texts.len() <= MAX_STEPS,
    ensures
        after_thoughts(s, texts).phase == Phase::Reasoning,
        after_thoughts(s, texts).step == s.step + texts.len(),
        texts.len() > 0 ==> transition(
            after_thoughts(s, texts.drop_last()),
            thought(texts.last()),
        ).1 == ActionView::CallModel,
    decreases texts.len(),
{
    if texts.len() > 0 {
        lemma_thoughts_count(s, texts.drop_last());
    }
}

/// A fresh session whose model never asks for a tool goes on for
/// `MAX_STEPS - 1` replies and fails on its budget with reply number
/// `MAX_STEPS`, neither sooner nor later.
pub proof fn lemma_budget_enforced(s: SessionView, texts: Seq<Seq<char>>)
    requires
        s.phase == Phase::Reasoning,
        s.step == 1,
        texts.len() == MAX_STEPS,
    ensures
        forall|n: int|
            0 <= n < MAX_STEPS ==> (#[trigger] after_thoughts(s, texts.take(n))).phase
                == Phase::Reasoning,
        transition(after_thoughts(s, texts.drop_last()), thought(texts.last())).1
            == ActionView::Fail(AgentErrorView::BudgetExceeded),
        after_thoughts(s, texts).phase == Phase::Failed,
{
    assert forall|n: int| 0 <= n < MAX_STEPS implies (#[trigger] after_thoughts(
        s,
        texts.take(n),
    )).phase == Phase::Reasoning by {
        lemma_thoughts_count(s, texts.take(n));
    }
    lemma_thoughts_count(s, texts.drop_last());
}

/// When a transition opens a reflection, the instructions in force are the
/// session's own followed by the directive, and after the next transition,
/// whatever the event, they are again what they were before the reflection
/// began.
pub proof fn lemma_reflection_restores(s: SessionView, opening: EventView, closing: EventView)
    requires
        s.phase != Phase::Reflecting,
        transition(s, opening).0.phase == Phase::Reflecting,
    ensures
        transition(s, opening).1 == ActionView::CallModel,
        active_instructions(transition(s, opening).0) == active_instructions(s) + "\n\n"@
            + REFLECTION_PROMPT@,
        active_instructions(transition(transition(s, opening).0, closing).0)
            == active_instructions(s),
{
}

/// A conversation as the model is sent it: one System turn, which comes
/// first, and at least one turn after it.
pub open spec fn is_rendering(conversation: Seq<MessageView>) -> bool {
    &&& conversation.len() >= 2
    &&& conversation[0].role == Role::System
    &&& forall|i: int| 1 <= i < conversation.len() ==> (#[trigger] conversation[i]).role
        != Role::System
}

/// What a run needs from the outside world: a model to ask and tools to
/// run. Nothing is assumed of what either returns; the loop deals with
/// whatever comes back.
pub trait Agent {
    /// Sends the rendered conversation and the tool definitions to the model
    /// and returns its reply: the text and the tool invocations of the first
    /// choice. The loop always hands over a conversation that starts with
    /// its one System turn, and the whole registry.
    fn call_llm(&mut self, conversation: &Vec<Message>, tools: &Vec<ToolDefinition>) -> Result<
        (String, Vec<ToolCall>),
        GatewayError,
    >
        requires
            is_rendering(turn_views(conversation@)),
            definition_views(tools@) == tool_catalog(),
    ;

    /// Carries out a tool request and returns the tool's output as text, or
    /// the message of a tool that could not run at all. The loop never hands
    /// over a final answer: that one it deals with itself.
    fn execute_tool(&mut self, request: &ToolRequest) -> Result<String, String>
        requires
            !(request@ is FinalAnswer),
    ;
}

/// How far a phase is from the end of its round.
pub open spec fn phase_rank(phase: Phase) -> nat {
    match phase {
        Phase::Reasoning => 3,
        Phase::Acting => 2,
        Phase::Reflecting => 1,
        _ => 0,
    }
}

/// The action is the one a session in this state has asked for.
pub open spec fn asked(s: SessionView, action: ActionView) -> bool {
    match action {
        ActionView::CallModel => s.phase == Phase::Reasoning || s.phase == Phase::Reflecting,
        ActionView::RunTool(request) => s.phase == Phase::Acting && !(request is FinalAnswer)
            && decide_call(s.pending[s.cursor as int]) == Ok::<ToolRequestView, AgentErrorView>(
            request,
        ),
        ActionView::Finish(answer) => s.phase == Phase::Done && s.final_answer == Some(answer),
        ActionView::Fail(error) => s.phase == Phase::Failed && error
            != AgentErrorView::UnexpectedEvent && (error == AgentErrorView::BudgetExceeded
            <==> s.step > MAX_STEPS),
    }
}

/// The event answers what a session in this state is waiting for.
pub open spec fn answers(s: SessionView, event: EventView) -> bool {
    match s.phase {
        Phase::Reasoning => event is ModelReplied || event is ModelFailed,
        Phase::Reflecting => event is ModelReplied || event is ModelFailed,
        Phase::Acting => event is ToolFinished || event is ToolFailed,
        _ => false,
    }
}

/// An event that answers what a valid session is waiting for yields an
/// action that fits the new state, and brings the run closer to its end: to
/// a later step, or within the step to a later phase, or within the phase to
/// fewer invocations left.
pub proof fn lemma_progress(s: SessionView, event: EventView)
    requires
        valid(s),
        answers(s, event),
    ensures
        asked(transition(s, event).0, transition(s, event).1),
        ({
            let next = transition(s, event).0;
            ||| next.step > s.step
            ||| (next.step == s.step && phase_rank(next.phase) < phase_rank(s.phase))
            ||| (next.step == s.step && next.phase == s.phase && next.pending.len() - next.cursor
                < s.pending.len() - s.cursor)
        }),
{
}

/// Runs the loop to its end: asks the agent for model replies and tool
/// outputs as the session demands them. Returns the final answer, or the
/// error that aborted the run; the session is left done or failed
/// accordingly. The session's memory has only grown.
pub fn run<A: Agent>(agent: &mut A, session: &mut AgentSession) -> (r: Result<String, AgentError>)
    requires
        old(session).well_formed(),
        old(session)@.phase == Phase::Reasoning,
    ensures
        final(session).well_formed(),
        old(session)@.turns.is_prefix_of(final(session)@.turns),
        final(session)@.system_instructions == old(session)@.system_instructions,
        match r {
            Ok(answer) => asked(final(session)@, ActionView::Finish(answer@)),
            Err(error) => asked(final(session)@, ActionView::Fail(error@)),
        },
{
    let tools = create_tool_map();
    let mut action = Action::CallModel;
    loop
        invariant
            session.well_formed(),
            asked(session@, action@),
            definition_views(tools@) == tool_catalog(),
            old(session)@.turns.is_prefix_of(session@.turns),
            session@.system_instructions == old(session)@.system_instructions,
        decreases
                MAX_STEPS + 1 - session@.step,
                phase_rank(session@.phase),
                session@.pending.len() - session@.cursor,
    {
        let ghost before = session@;
        match action {
            Action::CallModel => {
                let conversation = session.render_for_model();
                proof {
                    lemma_rendered_keeps_all(active_instructions(before), before.turns);
                    assert(is_rendering(turn_views(conversation@)));
                }
                let event = match agent.call_llm(&conversation, &tools) {
                    Ok((text, tool_calls)) => Event::ModelReplied { text, tool_calls },
                    Err(error) => Event::ModelFailed(error),
                };
                proof {
                    lemma_progress(before, event@);
                    lemma_transition_appends(before, event@);
                }
                action = session.step(event);
            },
            Action::RunTool(request) => {
                let event = match agent.execute_tool(&request) {
                    Ok(output) => Event::ToolFinished(output),
                    Err(message) => Event::ToolFailed(message),
                };
                proof {
                    lemma_progress(before, event@);
                    lemma_transition_appends(before, event@);
                }
                action = session.step(event);
            },
            Action::Finish(answer) => {
                return Ok(answer);
            },
            Action::Fail(error) => {
                return Err(error);
            },
        }
        proof {
            let grown = session@.turns;
            assert(old(session)@.turns =~= grown.subrange(0, old(session)@.turns.len() as int));
        }
    }
}

} // verus!
