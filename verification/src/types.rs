//! The data that the agent loop, its memory and its tools exchange.

use vstd::prelude::*;
use vstd::string::StringExecFns;
use crate::text::lowercase;

verus! {

/// Who speaks in a turn of the conversation.
#[derive(Clone, Copy, Debug, PartialEq, Eq, Structural)]
pub enum Role {
    System,
    User,
    Assistant,
    Tool,
}

/// The function part of a tool invocation: which tool, and its arguments as
/// JSON text that only the tool itself interprets.
#[derive(Debug, PartialEq, Eq)]
pub struct ToolCallFunction {
    pub name: String,
    pub arguments: String,
}

/// One tool invocation requested by the model.
#[derive(Debug, PartialEq, Eq)]
pub struct ToolCall {
    pub id: String,
    pub kind: String,
    pub function: ToolCallFunction,
}

/// A tool invocation as a mathematical value.
pub struct ToolCallView {
    pub id: Seq<char>,
    pub kind: Seq<char>,
    pub name: Seq<char>,
    pub arguments: Seq<char>,
}

impl View for ToolCall {
    type V = ToolCallView;

    open spec fn view(&self) -> ToolCallView {
        ToolCallView {
            id: self.id@,
            kind: self.kind@,
            name: self.function.name@,
            arguments: self.function.arguments@,
        }
    }
}

impl Clone for ToolCallFunction {
    fn clone(&self) -> (r: Self)
        ensures
            r.name@ == self.name@,
            r.arguments@ == self.arguments@,
    {
        ToolCallFunction { name: self.name.clone(), arguments: self.arguments.clone() }
    }
}

impl Clone for ToolCall {
    fn clone(&self) -> (r: Self)
        ensures
            r@ == self@,
    {
        ToolCall {
            id: self.id.clone(),
            kind: self.kind.clone(),
            function: self.function.clone(),
        }
    }
}

/// The views of a sequence of tool invocations, in order.
pub open spec fn call_views(calls: Seq<ToolCall>) -> Seq<ToolCallView> {
    Seq::new(calls.len(), |i: int| calls[i]@)
}

/// Copies a list of tool invocations.
pub fn clone_calls(calls: &Vec<ToolCall>) -> (r: Vec<ToolCall>)
    ensures
        call_views(r@) == call_views(calls@),
{
    let mut out: Vec<ToolCall> = Vec::new();
    let mut i: usize = 0;
    while i < calls.len()
        invariant
            i <= calls.len(),
            out.len() == i,
            forall|k: int| 0 <= k < i ==> out[k]@ == calls[k]@,
        decreases calls.len() - i,
    {
        out.push(calls[i].clone());
        i += 1;
    }
    assert(call_views(out@) =~= call_views(calls@));
    out
}

/// One turn of the conversation.
#[derive(Debug, PartialEq, Eq)]
pub struct Message {
    pub role: Role,
    pub content: String,
    pub tool_call_id: Option<String>,
    pub name: Option<String>,
    pub tool_calls: Vec<ToolCall>,
}

/// A turn as a mathematical value.
pub struct MessageView {
    pub role: Role,
    pub content: Seq<char>,
    pub tool_call_id: Option<Seq<char>>,
    pub name: Option<Seq<char>>,
    pub tool_calls: Seq<ToolCallView>,
}

/// The view of an optional string.
pub open spec fn option_view(o: Option<String>) -> Option<Seq<char>> {
    match o {
        Some(s) => Some(s@),
        None => None,
    }
}

/// Copies an optional string.
pub fn clone_option(o: &Option<String>) -> (r: Option<String>)
    ensures
        option_view(r) == option_view(*o),
{
    match o {
        Some(s) => Some(s.clone()),
        None => None,
    }
}

/// A System turn with the given text.
pub open spec fn system_turn(content: Seq<char>) -> MessageView {
    MessageView {
        role: Role::System,
        content,
        tool_call_id: None,
        name: None,
        tool_calls: Seq::empty(),
    }
}

/// A User turn with the given text.
pub open spec fn user_turn(content: Seq<char>) -> MessageView {
    MessageView {
        role: Role::User,
        content,
        tool_call_id: None,
        name: None,
        tool_calls: Seq::empty(),
    }
}

/// An Assistant turn with the given text and tool invocations.
pub open spec fn assistant_turn(content: Seq<char>, tool_calls: Seq<ToolCallView>) -> MessageView {
    MessageView { role: Role::Assistant, content, tool_call_id: None, name: None, tool_calls }
}

/// A Tool turn: the output of tool `name`, answering the invocation `call_id`.
pub open spec fn tool_turn(call_id: Seq<char>, name: Seq<char>, content: Seq<char>) -> MessageView {
    MessageView {
        role: Role::Tool,
        content,
        tool_call_id: Some(call_id),
        name: Some(name),
        tool_calls: Seq::empty(),
    }
}

impl View for Message {
    type V = MessageView;

    open spec fn view(&self) -> MessageView {
        MessageView {
            role: self.role,
            content: self.content@,
            tool_call_id: option_view(self.tool_call_id),
            name: option_view(self.name),
            tool_calls: call_views(self.tool_calls@),
        }
    }
}

impl Clone for Message {
    fn clone(&self) -> (r: Self)
        ensures
            r@ == self@,
    {
        Message {
            role: self.role,
            content: self.content.clone(),
            tool_call_id: clone_option(&self.tool_call_id),
            name: clone_option(&self.name),
            tool_calls: clone_calls(&self.tool_calls),
        }
    }
}

impl Message {
    /// A System turn.
    pub fn system(content: &str) -> (m: Self)
        ensures
            m@ == system_turn(content@),
    {
        let m = Message {
            role: Role::System,
            content: String::from_str(content),
            tool_call_id: None,
            name: None,
            tool_calls: Vec::new(),
        };
        assert(call_views(m.tool_calls@) =~= Seq::empty());
        m
    }

    /// A User turn.
    pub fn user(content: &str) -> (m: Self)
        ensures
            m@ == user_turn(content@),
    {
        let m = Message {
            role: Role::User,
            content: String::from_str(content),
            tool_call_id: None,
            name: None,
            tool_calls: Vec::new(),
        };
        assert(call_views(m.tool_calls@) =~= Seq::empty());
        m
    }

    /// An Assistant turn that carries text only.
    pub fn assistant(content: &str) -> (m: Self)
        ensures
            m@ == assistant_turn(content@, Seq::empty()),
    {
        let m = Message {
            role: Role::Assistant,
            content: String::from_str(content),
            tool_call_id: None,
            name: None,
            tool_calls: Vec::new(),
        };
        assert(call_views(m.tool_calls@) =~= Seq::empty());
        m
    }

    /// A Tool turn: the output `content` of tool `name`, answering the
    /// invocation `tool_call_id`.
    pub fn tool(tool_call_id: &str, name: &str, content: &str) -> (m: Self)
        ensures
            m@ == tool_turn(tool_call_id@, name@, content@),
    {
        let m = Message {
            role: Role::Tool,
            content: String::from_str(content),
            tool_call_id: Some(String::from_str(tool_call_id)),
            name: Some(String::from_str(name)),
            tool_calls: Vec::new(),
        };
        assert(call_views(m.tool_calls@) =~= Seq::empty());
        m
    }
}

/// What the file-reading tool reports: the path asked for, and either the
/// file's text or the reason it could not be had.
#[derive(Debug, PartialEq, Eq)]
pub struct FileResult {
    pub file: Option<String>,
    pub content: Option<String>,
    pub error: Option<String>,
}

/// A file result as a mathematical value.
pub struct FileResultView {
    pub file: Option<Seq<char>>,
    pub content: Option<Seq<char>>,
    pub error: Option<Seq<char>>,
}

impl View for FileResult {
    type V = FileResultView;

    open spec fn view(&self) -> FileResultView {
        FileResultView {
            file: option_view(self.file),
            content: option_view(self.content),
            error: option_view(self.error),
        }
    }
}

/// One entry of a file listing.
#[derive(Debug, PartialEq, Eq)]
pub struct FileInfo {
    pub path: String,
    pub is_directory: bool,
    pub size: Option<u64>,
}

/// A listing entry as a mathematical value.
pub struct FileInfoView {
    pub path: Seq<char>,
    pub is_directory: bool,
    pub size: Option<u64>,
}

impl View for FileInfo {
    type V = FileInfoView;

    open spec fn view(&self) -> FileInfoView {
        FileInfoView { path: self.path@, is_directory: self.is_directory, size: self.size }
    }
}

/// One line of a file that matched a search; lines are counted from 1.
#[derive(Debug, PartialEq, Eq)]
pub struct CodeMatch {
    pub file: String,
    pub line: usize,
    pub content: String,
}

/// A search match as a mathematical value.
pub struct CodeMatchView {
    pub file: Seq<char>,
    pub line: nat,
    pub content: Seq<char>,
}

impl View for CodeMatch {
    type V = CodeMatchView;

    open spec fn view(&self) -> CodeMatchView {
        CodeMatchView { file: self.file@, line: self.line as nat, content: self.content@ }
    }
}

/// What the arithmetic tool reports: the expression, and either its value,
/// written as decimal text, or the reason it has none.
#[derive(Debug, PartialEq, Eq)]
pub struct CalculationResult {
    pub expression: String,
    pub result: Option<String>,
    pub error: Option<String>,
}

/// A calculation result as a mathematical value.
pub struct CalculationResultView {
    pub expression: Seq<char>,
    pub result: Option<Seq<char>>,
    pub error: Option<Seq<char>>,
}

impl View for CalculationResult {
    type V = CalculationResultView;

    open spec fn view(&self) -> CalculationResultView {
        CalculationResultView {
            expression: self.expression@,
            result: option_view(self.result),
            error: option_view(self.error),
        }
    }
}

/// The two variants of the agent loop.
#[derive(Clone, Copy, Debug, PartialEq, Eq, Structural)]
pub enum AgentType {
    /// Reason, act, observe.
    ReAct,
    /// Reason, act, observe, then reflect before the next round.
    Reflexion,
}

/// The variant that a lowercase name denotes, if any.
pub open spec fn agent_type_named(lowercase_name: Seq<char>) -> Option<AgentType> {
    if lowercase_name == "react"@ {
        Some(AgentType::ReAct)
    } else if lowercase_name == "reflexion"@ {
        Some(AgentType::Reflexion)
    } else {
        None
    }
}

/// The name of a variant.
pub open spec fn agent_type_name(agent_type: AgentType) -> Seq<char> {
    match agent_type {
        AgentType::ReAct => "react"@,
        AgentType::Reflexion => "reflexion"@,
    }
}

impl AgentType {
    /// The variant with exactly this lowercase name.
    pub fn from_lowercase(name: &str) -> (r: Option<AgentType>)
        ensures
            r == agent_type_named(name@),
    {
        if name.eq("react") {
            Some(AgentType::ReAct)
        } else if name.eq("reflexion") {
            Some(AgentType::Reflexion)
        } else {
            None
        }
    }

    /// Reads a variant name, ignoring case. An unknown name is reported in
    /// the error message as it was given.
    pub fn from_str(s: &str) -> (r: Result<AgentType, String>)
        ensures
            match agent_type_named(lowercase(s@)) {
                Some(agent_type) => r == Ok::<AgentType, String>(agent_type),
                None => r is Err && r->Err_0@ == "Unknown agent type: "@ + s@,
            },
    {
        let lowered = s.to_lowercase();
        match AgentType::from_lowercase(lowered.as_str()) {
            Some(agent_type) => Ok(agent_type),
            None => Err(String::from_str("Unknown agent type: ").concat(s)),
        }
    }

    /// The variant's name: `react` or `reflexion`.
    pub fn to_string(&self) -> (r: String)
        ensures
            r@ == agent_type_name(*self),
    {
        match self {
            AgentType::ReAct => String::from_str("react"),
            AgentType::Reflexion => String::from_str("reflexion"),
        }
    }
}

} // verus!
