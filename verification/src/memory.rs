//! Conversation memory: the append-only log of turns that the agent loop keeps
//! and renders for the model.

use vstd::prelude::*;
use vstd::string::StringExecFns;
use crate::types::{
    assistant_turn, call_views, system_turn, tool_turn, user_turn, Message, MessageView, Role,
    ToolCall, ToolCallView,
};

verus! {

/// Why the memory refused an operation.
#[derive(Clone, Copy, Debug, PartialEq, Eq, Structural)]
pub enum MemoryError {
    /// The memory already holds turns: it can be seeded only once.
    AlreadySeeded,
    /// No tool invocation with that id is waiting for its result.
    UnlinkedToolResult,
}

/// The text of the seed turn.
pub open spec fn seed_text(prompt: Seq<char>, directory: Seq<char>) -> Seq<char> {
    "Please analyze the codebase in directory '"@ + directory
        + "' according to this prompt:\n\n"@ + prompt
}

/// The turns after an attempt to seed: an empty memory receives the seed
/// turn, any other memory stays as it is.
pub open spec fn after_seed(
    turns: Seq<MessageView>,
    prompt: Seq<char>,
    directory: Seq<char>,
) -> Seq<MessageView> {
    if turns.len() == 0 {
        seq![user_turn(seed_text(prompt, directory))]
    } else {
        turns
    }
}

/// One of the invocations has this id.
pub open spec fn has_id(calls: Seq<ToolCallView>, id: Seq<char>) -> bool {
    exists|k: int| 0 <= k < calls.len() && (#[trigger] calls[k]).id == id
}

/// The turn carries a tool invocation with this id.
pub open spec fn carries_call(turn: MessageView, id: Seq<char>) -> bool {
    has_id(turn.tool_calls, id)
}

/// Turn `j` is an Assistant turn that carries the invocation `id`, and only
/// Tool turns stand between it and position `i`.
pub open spec fn issued_at(turns: Seq<MessageView>, j: int, i: int, id: Seq<char>) -> bool {
    &&& 0 <= j < i <= turns.len()
    &&& turns[j].role == Role::Assistant
    &&& carries_call(turns[j], id)
    &&& forall|m: int| j < m < i ==> (#[trigger] turns[m]).role == Role::Tool
}

/// A result for invocation `id` may be appended: the closest turn that is not
/// a Tool turn is an Assistant turn that carries it.
pub open spec fn awaits_result(turns: Seq<MessageView>, id: Seq<char>) -> bool {
    exists|j: int| issued_at(turns, j, turns.len() as int, id)
}

/// Turn `i` names an invocation of the Assistant turn that immediately
/// precedes its run of Tool turns.
pub open spec fn answers_call(turns: Seq<MessageView>, i: int) -> bool {
    &&& turns[i].tool_call_id is Some
    &&& exists|j: int| issued_at(turns, j, i, turns[i].tool_call_id->0)
}

/// Every Tool turn answers an invocation of the Assistant turn that
/// immediately precedes its run of Tool turns.
pub open spec fn linked(turns: Seq<MessageView>) -> bool {
    forall|i: int|
        0 <= i < turns.len() && (#[trigger] turns[i]).role == Role::Tool ==> answers_call(
            turns,
            i,
        )
}

/// What each kind of turn may hold: no System turn is stored, exactly the Tool
/// turns name the invocation they answer, and only Assistant turns carry
/// invocations.
pub open spec fn shaped(turn: MessageView) -> bool {
    &&& turn.role != Role::System
    &&& (turn.tool_call_id is Some <==> turn.role == Role::Tool)
    &&& (turn.role != Role::Assistant ==> turn.tool_calls.len() == 0)
}

/// The turns without the System turns, in order.
pub open spec fn without_system(turns: Seq<MessageView>) -> Seq<MessageView>
    decreases turns.len(),
{
    if turns.len() == 0 {
        Seq::empty()
    } else if turns.last().role == Role::System {
        without_system(turns.drop_last())
    } else {
        without_system(turns.drop_last()).push(turns.last())
    }
}

/// What the model is sent: one System turn with the live instructions, then
/// the stored turns that are not System turns.
pub open spec fn rendered(instructions: Seq<char>, turns: Seq<MessageView>) -> Seq<MessageView> {
    seq![system_turn(instructions)] + without_system(turns)
}

/// The views of a sequence of turns, in order.
pub open spec fn turn_views(turns: Seq<Message>) -> Seq<MessageView> {
    Seq::new(turns.len(), |i: int| turns[i]@)
}

/// The conversation so far. Turns are only ever appended.
#[derive(Debug, PartialEq, Eq)]
pub struct Memory {
    turns: Vec<Message>,
}

impl View for Memory {
    type V = Seq<MessageView>;

    closed spec fn view(&self) -> Seq<MessageView> {
        turn_views(self.turns@)
    }
}

impl Memory {
    /// The memory keeps its turns linked and shaped.
    pub open spec fn well_formed(&self) -> bool {
        &&& linked(self@)
        &&& forall|i: int| 0 <= i < self@.len() ==> shaped(#[trigger] self@[i])
    }

    /// An empty memory.
    pub fn new() -> (m: Self)
        ensures
            m@ == Seq::<MessageView>::empty(),
            m.well_formed(),
    {
        let m = Memory { turns: Vec::new() };
        assert(m@ =~= Seq::empty());
        m
    }

    /// Number of turns.
    pub fn len(&self) -> (n: usize)
        ensures
            n == self@.len(),
    {
        self.turns.len()
    }

    /// The turn at position `index`, if there is one.
    pub fn get(&self, index: usize) -> (r: Option<&Message>)
        ensures
            index < self@.len() ==> r is Some && r->0@ == self@[index as int],
            index >= self@.len() ==> r is None,
    {
        if index < self.turns.len() {
            Some(&self.turns[index])
        } else {
            None
        }
    }

    /// Appends the one User turn that opens the conversation. A memory that
    /// already holds turns is left as it is and the call is refused.
    pub fn seed(&mut self, prompt: &str, directory: &str) -> (r: Result<(), MemoryError>)
        requires
            old(self).well_formed(),
        ensures
            final(self).well_formed(),
            final(self)@ == after_seed(old(self)@, prompt@, directory@),
            r == if old(self)@.len() == 0 {
                Ok::<(), MemoryError>(())
            } else {
                Err::<(), MemoryError>(MemoryError::AlreadySeeded)
            },
    {
        if self.turns.len() != 0 {
            return Err(MemoryError::AlreadySeeded);
        }
        let text = String::from_str("Please analyze the codebase in directory '").concat(
            directory,
        ).concat("' according to this prompt:\n\n").concat(prompt);
        let turn = Message::user(text.as_str());
        self.turns.push(turn);
        assert(self@ =~= seq![user_turn(seed_text(prompt@, directory@))]);
        Ok(())
    }

    /// Appends an Assistant turn with the model's text and the tool
    /// invocations it asked for.
    pub fn append_assistant(&mut self, text: &str, tool_calls: Vec<ToolCall>)
        requires
            old(self).well_formed(),
        ensures
            final(self).well_formed(),
            final(self)@ == old(self)@.push(assistant_turn(text@, call_views(tool_calls@))),
    {
        let turn = Message {
            role: Role::Assistant,
            content: String::from_str(text),
            tool_call_id: None,
            name: None,
            tool_calls,
        };
        self.turns.push(turn);
        proof {
            let added = assistant_turn(text@, call_views(tool_calls@));
            assert(self@ =~= old(self)@.push(added));
            lemma_push_keeps_linked(old(self)@, added);
        }
    }

    /// Tells whether a result for invocation `call_id` may be appended now.
    pub fn awaits(&self, call_id: &str) -> (r: bool)
        ensures
            r == awaits_result(self@, call_id@),
    {
        let mut i: usize = self.turns.len();
        while i > 0
            invariant
                i <= self.turns.len(),
                forall|m: int| i <= m < self.turns.len() ==> (#[trigger] self@[m]).role == Role::Tool,
            decreases i,
        {
            i -= 1;
            let turn = &self.turns[i];
            assert(self@[i as int] == turn@);
            match turn.role {
                Role::Tool => {},
                Role::Assistant => {
                    proof {
                        lemma_last_speaker_issues(self@, i as int, call_id@);
                    }
                    return has_call(&turn.tool_calls, call_id);
                },
                _ => {
                    proof {
                        lemma_last_speaker_issues(self@, i as int, call_id@);
                    }
                    return false;
                },
            }
        }
        proof {
            assert forall|j: int| !issued_at(self@, j, self@.len() as int, call_id@) by {
                if issued_at(self@, j, self@.len() as int, call_id@) {
                    assert(self@[j].role == Role::Tool);
                }
            }
        }
        false
    }

    /// Appends a Tool turn with the output of tool `tool_name` for the
    /// invocation `call_id`. The call is refused, and the memory left as it
    /// is, unless that invocation is waiting for its result.
    pub fn append_tool_result(&mut self, call_id: &str, tool_name: &str, result_text: &str) -> (r:
        Result<(), MemoryError>)
        requires
            old(self).well_formed(),
        ensures
            final(self).well_formed(),
            awaits_result(old(self)@, call_id@) ==> r is Ok && final(self)@ == old(self)@.push(
                tool_turn(call_id@, tool_name@, result_text@),
            ),
            !awaits_result(old(self)@, call_id@) ==> r == Err::<(), MemoryError>(
                MemoryError::UnlinkedToolResult,
            ) && final(self)@ == old(self)@,
    {
        if !self.awaits(call_id) {
            return Err(MemoryError::UnlinkedToolResult);
        }
        let turn = Message::tool(call_id, tool_name, result_text);
        self.turns.push(turn);
        proof {
            let added = tool_turn(call_id@, tool_name@, result_text@);
            assert(self@ =~= old(self)@.push(added));
            lemma_push_tool_keeps_linked(old(self)@, call_id@, tool_name@, result_text@);
        }
        Ok(())
    }

    /// The sequence to send to the model: one System turn made from
    /// `system_instructions`, then every stored turn that is not a System
    /// turn, in order.
    pub fn render_for_model(&self, system_instructions: &str) -> (r: Vec<Message>)
        ensures
            turn_views(r@) == rendered(system_instructions@, self@),
    {
        let mut out: Vec<Message> = Vec::new();
        out.push(Message::system(system_instructions));
        let mut i: usize = 0;
        assert(self@.take(0) =~= Seq::empty());
        assert(turn_views(out@) =~= rendered(system_instructions@, self@.take(0)));
        while i < self.turns.len()
            invariant
                i <= self.turns.len(),
                turn_views(out@) == rendered(system_instructions@, self@.take(i as int)),
            decreases self.turns.len() - i,
        {
            let turn = &self.turns[i];
            proof {
                assert(self@.take(i + 1).drop_last() =~= self@.take(i as int));
                assert(self@.take(i + 1).last() == turn@);
            }
            match turn.role {
                Role::System => {},
                _ => {
                    let ghost before = out@;
                    out.push(turn.clone());
                    assert(turn_views(out@) =~= turn_views(before).push(turn@));
                    assert(turn_views(out@) =~= rendered(
                        system_instructions@,
                        self@.take(i + 1),
                    ));
                },
            }
            i += 1;
        }
        assert(self@.take(i as int) =~= self@);
        out
    }
}

/// Tells whether one of the invocations has the given id.
pub fn has_call(calls: &Vec<ToolCall>, id: &str) -> (r: bool)
    ensures
        r == has_id(call_views(calls@), id@),
{
    let mut k: usize = 0;
    while k < calls.len()
        invariant
            k <= calls.len(),
            forall|m: int| 0 <= m < k ==> (#[trigger] call_views(calls@)[m]).id != id@,
        decreases calls.len() - k,
    {
        if calls[k].id.as_str().eq(id) {
            assert(call_views(calls@)[k as int].id == id@);
            return true;
        }
        k += 1;
    }
    false
}

/// Only the last turn that is not a Tool turn can have issued an invocation
/// that is still waiting for its result.
pub proof fn lemma_last_speaker_issues(turns: Seq<MessageView>, i: int, id: Seq<char>)
    requires
        0 <= i < turns.len(),
        turns[i].role != Role::Tool,
        forall|m: int| i < m < turns.len() ==> (#[trigger] turns[m]).role == Role::Tool,
    ensures
        awaits_result(turns, id) <==> turns[i].role == Role::Assistant && carries_call(
            turns[i],
            id,
        ),
{
    let n = turns.len() as int;
    if turns[i].role == Role::Assistant && carries_call(turns[i], id) {
        assert(issued_at(turns, i, n, id));
    }
    if awaits_result(turns, id) {
        let j = choose|j: int| issued_at(turns, j, n, id);
        if j < i {
            assert(turns[i].role == Role::Tool);
        } else if j > i {
            assert(turns[j].role == Role::Tool);
        }
    }
}

/// Appending a turn that is not a Tool turn keeps the turns linked.
pub proof fn lemma_push_keeps_linked(turns: Seq<MessageView>, added: MessageView)
    requires
        linked(turns),
        added.role != Role::Tool,
    ensures
        linked(turns.push(added)),
{
    let after = turns.push(added);
    assert forall|i: int| 0 <= i < after.len() && (#[trigger] after[i]).role
        == Role::Tool implies answers_call(after, i) by {
        assert(turns[i].role == Role::Tool);
        lemma_push_keeps_answer(turns, added, i);
    }
}

/// A Tool turn that answers an invocation still does so after a turn is
/// appended.
pub proof fn lemma_push_keeps_answer(turns: Seq<MessageView>, added: MessageView, i: int)
    requires
        0 <= i < turns.len(),
        answers_call(turns, i),
    ensures
        answers_call(turns.push(added), i),
{
    let after = turns.push(added);
    let id = turns[i].tool_call_id->0;
    let j = choose|j: int| issued_at(turns, j, i, id);
    assert(after[j] == turns[j]);
    assert(after[i] == turns[i]);
    assert forall|m: int| j < m < i implies (#[trigger] after[m]).role == Role::Tool by {
        assert(turns[m].role == Role::Tool);
    }
    assert(issued_at(after, j, i, id));
}

/// Appending the result of an invocation that is waiting for it keeps the
/// turns linked.
pub proof fn lemma_push_tool_keeps_linked(
    turns: Seq<MessageView>,
    call_id: Seq<char>,
    name: Seq<char>,
    content: Seq<char>,
)
    requires
        linked(turns),
        awaits_result(turns, call_id),
    ensures
        linked(turns.push(tool_turn(call_id, name, content))),
{
    let added = tool_turn(call_id, name, content);
    let after = turns.push(added);
    assert forall|i: int| 0 <= i < after.len() && (#[trigger] after[i]).role
        == Role::Tool implies answers_call(after, i) by {
        if i < turns.len() {
            assert(after[i] == turns[i]);
            assert(answers_call(turns, i));
            lemma_push_keeps_answer(turns, added, i);
        } else {
            assert(after[i] == added);
            let j = choose|j: int| issued_at(turns, j, turns.len() as int, call_id);
            assert(after[j] == turns[j]);
            assert forall|m: int| j < m < i implies (#[trigger] after[m]).role == Role::Tool by {
                assert(turns[m].role == Role::Tool);
            }
            assert(after[i].tool_call_id == Some(call_id));
            assert(issued_at(after, j, i, after[i].tool_call_id->0));
        }
    }
}

/// Every Tool turn of linked turns is preceded by an Assistant turn that
/// carries an invocation with the id the Tool turn names.
pub proof fn lemma_turn_linkage(turns: Seq<MessageView>, i: int)
    requires
        linked(turns),
        0 <= i < turns.len(),
        turns[i].role == Role::Tool,
    ensures
        exists|j: int, k: int|
            0 <= j < i && turns[j].role == Role::Assistant && 0 <= k < turns[j].tool_calls.len()
                && turns[i].tool_call_id == Some((#[trigger] turns[j].tool_calls[k]).id),
{
    assert(answers_call(turns, i));
    let id = turns[i].tool_call_id->0;
    let j = choose|j: int| issued_at(turns, j, i, id);
    let k = choose|k: int|
        0 <= k < turns[j].tool_calls.len() && (#[trigger] turns[j].tool_calls[k]).id == id;
    assert(turns[i].tool_call_id == Some(turns[j].tool_calls[k].id));
}

/// Seeding a second time, with whatever prompt and directory, changes
/// nothing, so the seed turn is never duplicated.
pub proof fn lemma_seed_idempotent(
    turns: Seq<MessageView>,
    prompt: Seq<char>,
    directory: Seq<char>,
    other_prompt: Seq<char>,
    other_directory: Seq<char>,
)
    ensures
        after_seed(after_seed(turns, prompt, directory), other_prompt, other_directory)
            == after_seed(turns, prompt, directory),
{
}

/// Turns that are all shaped hold no System turn, so rendering keeps every
/// one of them, in order, behind the one System turn it puts in front.
pub proof fn lemma_rendered_keeps_all(instructions: Seq<char>, turns: Seq<MessageView>)
    requires
        forall|i: int| 0 <= i < turns.len() ==> shaped(#[trigger] turns[i]),
    ensures
        without_system(turns) == turns,
        rendered(instructions, turns) == seq![system_turn(instructions)] + turns,
    decreases turns.len(),
{
    if turns.len() > 0 {
        let shorter = turns.drop_last();
        assert forall|i: int| 0 <= i < shorter.len() implies shaped(#[trigger] shorter[i]) by {
            assert(shorter[i] == turns[i]);
        }
        lemma_rendered_keeps_all(instructions, shorter);
        assert(shaped(turns[turns.len() - 1]));
        assert(without_system(turns) =~= turns);
    } else {
        assert(without_system(turns) =~= turns);
    }
}

} // verus!
