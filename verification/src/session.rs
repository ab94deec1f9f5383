//! The agent loop's state: the conversation history and the control-handoff
//! state machine.
//!
//! The history is append-only: entries are only ever pushed, in turn order,
//! and a tool entry always immediately follows the assistant entry whose
//! calls it answers. Control starts with the human; a completion reply
//! without tool calls, a dispatch that yields, and every error hand it back
//! to the human.

use vstd::prelude::*;
use vstd::string::StringExecFns;

use crate::errors::{describe_spec, AgentError, AgentErrorSpec};
use crate::json_model::lemma_push_deep_view;
use crate::message::{
    clone_calls, ChatMessage, MessageList, MessageSpec, ToolCall, ToolCallResult,
    ToolCallResultSpec, ToolCallSpec,
};

verus! {

/// Who acts next.
#[derive(Clone, Copy, Debug, PartialEq, Eq, Structural)]
pub enum ControlState {
    HumanTurn,
    AgentTurn,
}

/// One conversation with its scheduling state.
pub struct Session {
    pub history: MessageList,
    pub state: ControlState,
}

/// A tool entry always immediately follows an assistant entry that carries
/// tool calls.
pub open spec fn history_wf(h: Seq<MessageSpec>) -> bool {
    forall|i: int|
        0 <= i < h.len() && (#[trigger] h[i]) is Tool ==> i > 0 && h[i - 1] matches
            MessageSpec::Assistant(_, Some(_))
}

/// A session is well formed when its history starts with the system
/// instructions and is well formed.
pub open spec fn session_wf(s: Session) -> bool {
    &&& s.history@.len() > 0
    &&& s.history@[0] is System
    &&& history_wf(s.history@)
}

/// The tool calls an entry carries, if any.
pub open spec fn reply_calls(m: MessageSpec) -> Option<Seq<ToolCallSpec>> {
    match m {
        MessageSpec::Assistant(_, Some(cs)) => Some(cs),
        _ => None,
    }
}

/// The single annotation appended when a dispatch fails: the history is not
/// extended by any call's result, only by this note.
pub open spec fn error_note_spec(e: AgentErrorSpec) -> ToolCallResultSpec {
    ToolCallResultSpec { name: "error"@, result: describe_spec(e) }
}

impl Session {
    /// A fresh session: the system instructions alone, the human to act.
    pub fn new(system_prompt: String) -> (r: Session)
        ensures
            r.history@ == seq![MessageSpec::System(system_prompt@)],
            r.state is HumanTurn,
            session_wf(r),
    {
        let mut entries: Vec<ChatMessage> = Vec::new();
        entries.push(ChatMessage::System(system_prompt));
        let r = Session { history: MessageList(entries), state: ControlState::HumanTurn };
        proof {
            assert(r.history@ =~= seq![MessageSpec::System(system_prompt@)]);
        }
        r
    }

    /// One line read from the operator: appended as a user entry, and the
    /// agent acts next.
    pub fn user_turn(&mut self, line: String)
        requires
            old(self).state is HumanTurn,
            session_wf(*old(self)),
        ensures
            final(self).history@ == old(self).history@.push(MessageSpec::User(line@)),
            final(self).state is AgentTurn,
            session_wf(*final(self)),
    {
        let entry = ChatMessage::User(line);
        let ghost entry_g = entry;
        let ghost old_entries = self.history.0;
        self.history.0.push(entry);
        self.state = ControlState::AgentTurn;
        proof {
            lemma_push_deep_view(old_entries, entry_g, self.history.0);
        }
    }

    /// One completion outcome, taken while the agent acts.
    ///
    /// A successful reply is appended; when it carries tool calls they are
    /// handed back for dispatch and the agent keeps acting, otherwise the
    /// human acts next. An error appends nothing and hands control back to
    /// the human. A reply is never a tool entry: the interpretation
    /// rejects the tool role as a protocol violation.
    pub fn agent_reply(&mut self, response: Result<ChatMessage, AgentError>) -> (r: Option<
        Vec<ToolCall>,
    >)
        requires
            old(self).state is AgentTurn,
            session_wf(*old(self)),
            response matches Ok(m) ==> !(m@ is Tool),
        ensures
            response matches Ok(m) ==> final(self).history@ == old(self).history@.push(m@),
            response matches Err(e) ==> final(self).history@ == old(self).history@
                && final(self).state is HumanTurn && r is None,
            response matches Ok(m) ==> match reply_calls(m@) {
                Some(cs) => r matches Some(rc) && rc.deep_view() == cs
                    && final(self).state is AgentTurn,
                None => r is None && final(self).state is HumanTurn,
            },
            session_wf(*final(self)),
    {
        match response {
            Ok(m) => {
                let r = match &m {
                    ChatMessage::Assistant(_, Some(calls)) => Some(clone_calls(calls)),
                    _ => None,
                };
                match r {
                    Some(_) => {
                        self.state = ControlState::AgentTurn;
                    },
                    None => {
                        self.state = ControlState::HumanTurn;
                    },
                }
                let ghost entry_g = m;
                let ghost old_entries = self.history.0;
                self.history.0.push(m);
                proof {
                    lemma_push_deep_view(old_entries, entry_g, self.history.0);
                }
                r
            },
            Err(_) => {
                self.state = ControlState::HumanTurn;
                None
            },
        }
    }

    /// One dispatch outcome, taken right after an assistant entry with tool
    /// calls was appended.
    ///
    /// The results are appended as one tool entry; the batch's yield decides
    /// who acts next. A failed dispatch appends only the error annotation,
    /// and control reverts to the human, as if a `say` had yielded.
    pub fn tool_turn(&mut self, outcome: Result<(Vec<ToolCallResult>, bool), AgentError>)
        requires
            old(self).state is AgentTurn,
            session_wf(*old(self)),
            old(self).history@.last() matches MessageSpec::Assistant(_, Some(_)),
        ensures
            outcome matches Ok(p) ==> final(self).history@ == old(self).history@.push(
                MessageSpec::Tool(p.0.deep_view()),
            ) && final(self).state == (if p.1 {
                ControlState::HumanTurn
            } else {
                ControlState::AgentTurn
            }),
            outcome matches Err(e) ==> final(self).history@ == old(self).history@.push(
                MessageSpec::Tool(seq![error_note_spec(e@)]),
            ) && final(self).state is HumanTurn,
            session_wf(*final(self)),
    {
        match outcome {
            Ok((results, yields_control)) => {
                let entry = ChatMessage::Tool(results);
                let ghost entry_g = entry;
                let ghost old_entries = self.history.0;
                self.history.0.push(entry);
                self.state = if yields_control {
                    ControlState::HumanTurn
                } else {
                    ControlState::AgentTurn
                };
                proof {
                    lemma_push_deep_view(old_entries, entry_g, self.history.0);
                    assert(final(self).history@.last() == entry_g@);
                }
            },
            Err(e) => {
                let mut notes: Vec<ToolCallResult> = Vec::new();
                notes.push(ToolCallResult { name: "error".to_owned(), result: e.describe() });
                let entry = ChatMessage::Tool(notes);
                let ghost entry_g = entry;
                let ghost old_entries = self.history.0;
                self.history.0.push(entry);
                self.state = ControlState::HumanTurn;
                proof {
                    lemma_push_deep_view(old_entries, entry_g, self.history.0);
                    assert(entry_g@ matches MessageSpec::Tool(ns) && ns =~= seq![
                        error_note_spec(e@),
                    ]);
                }
            },
        }
    }

    /// A per-turn working copy of the history, for a completion request,
    /// without mutating the persisted history.
    pub fn snapshot(&self) -> (r: MessageList)
        ensures
            r@ == self.history@,
    {
        self.history.clone()
    }
}

} // verus!
