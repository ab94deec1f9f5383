//! The conversation entry types and their wire representation.
//!
//! Every entry carries a role label on the wire; `serialize` produces the
//! `{role, content}` object, with a `tool_calls` array attached to an
//! assistant entry that carries tool calls.

use vstd::prelude::*;
use vstd::string::StringExecFns;

use crate::json_model::{
    clone_json, json_view_fields, json_view_vec, lemma_obj_fields_view, JsonSpec, JsonVal,
};

verus! {

/// A request, emitted by the model, to invoke a named tool with arguments.
pub struct ToolCall {
    pub name: String,
    pub arguments: JsonVal,
}

/// The textual outcome of running one tool call.
pub struct ToolCallResult {
    pub name: String,
    pub result: String,
}

/// One entry of the conversation.
pub enum ChatMessage {
    System(String),
    User(String),
    Assistant(String, Option<Vec<ToolCall>>),
    Tool(Vec<ToolCallResult>),
}

/// An append-only ordered sequence of entries.
pub struct MessageList(pub Vec<ChatMessage>);

/// The mathematical model of a `ToolCall`.
pub struct ToolCallSpec {
    pub name: Seq<char>,
    pub arguments: JsonSpec,
}

/// The mathematical model of a `ToolCallResult`.
pub struct ToolCallResultSpec {
    pub name: Seq<char>,
    pub result: Seq<char>,
}

/// The mathematical model of a `ChatMessage`.
pub enum MessageSpec {
    System(Seq<char>),
    User(Seq<char>),
    Assistant(Seq<char>, Option<Seq<ToolCallSpec>>),
    Tool(Seq<ToolCallResultSpec>),
}

impl DeepView for ToolCall {
    type V = ToolCallSpec;

    open spec fn deep_view(&self) -> ToolCallSpec {
        ToolCallSpec { name: self.name@, arguments: self.arguments@ }
    }
}

impl View for ToolCall {
    type V = ToolCallSpec;

    open spec fn view(&self) -> ToolCallSpec {
        self.deep_view()
    }
}

impl DeepView for ToolCallResult {
    type V = ToolCallResultSpec;

    open spec fn deep_view(&self) -> ToolCallResultSpec {
        ToolCallResultSpec { name: self.name@, result: self.result@ }
    }
}

impl View for ToolCallResult {
    type V = ToolCallResultSpec;

    open spec fn view(&self) -> ToolCallResultSpec {
        self.deep_view()
    }
}

impl DeepView for ChatMessage {
    type V = MessageSpec;

    open spec fn deep_view(&self) -> MessageSpec {
        match self {
            ChatMessage::System(s) => MessageSpec::System(s@),
            ChatMessage::User(s) => MessageSpec::User(s@),
            ChatMessage::Assistant(s, calls) => MessageSpec::Assistant(s@, calls.deep_view()),
            ChatMessage::Tool(results) => MessageSpec::Tool(results.deep_view()),
        }
    }
}

impl View for ChatMessage {
    type V = MessageSpec;

    open spec fn view(&self) -> MessageSpec {
        self.deep_view()
    }
}

impl View for MessageList {
    type V = Seq<MessageSpec>;

    open spec fn view(&self) -> Seq<MessageSpec> {
        self.0.deep_view()
    }
}

/// The role label of an entry.
pub open spec fn spec_label(m: MessageSpec) -> Seq<char> {
    match m {
        MessageSpec::System(_) => "system"@,
        MessageSpec::User(_) => "user"@,
        MessageSpec::Assistant(_, _) => "assistant"@,
        MessageSpec::Tool(_) => "tool"@,
    }
}

/// The display text of a tool entry: `"<name>: <result>\n"` for each result,
/// in list order.
pub open spec fn results_text(rs: Seq<ToolCallResultSpec>) -> Seq<char>
    decreases rs.len(),
{
    if rs.len() == 0 {
        Seq::empty()
    } else {
        results_text(rs.drop_last()) + rs.last().name + ": "@ + rs.last().result + "\n"@
    }
}

/// The display text of an entry.
pub open spec fn spec_content(m: MessageSpec) -> Seq<char> {
    match m {
        MessageSpec::System(s) => s,
        MessageSpec::User(s) => s,
        MessageSpec::Assistant(s, _) => s,
        MessageSpec::Tool(rs) => results_text(rs),
    }
}

/// The wire form of one tool call: `{function: {name, arguments}}`, the
/// arguments passed through unmodified.
pub open spec fn call_json(c: ToolCallSpec) -> JsonSpec {
    JsonSpec::Obj(
        seq![
            (
                "function"@,
                JsonSpec::Obj(
                    seq![("name"@, JsonSpec::Str(c.name)), ("arguments"@, c.arguments)],
                ),
            ),
        ],
    )
}

/// The wire form of an entry: `{role, content}`, and for an assistant entry
/// carrying tool calls also a `tool_calls` array, in call order.
pub open spec fn serialize_spec(m: MessageSpec) -> JsonSpec {
    let base = seq![
        ("role"@, JsonSpec::Str(spec_label(m))),
        ("content"@, JsonSpec::Str(spec_content(m))),
    ];
    match m {
        MessageSpec::Assistant(_, Some(calls)) => JsonSpec::Obj(
            base.push(("tool_calls"@, JsonSpec::Arr(calls.map_values(|c| call_json(c))))),
        ),
        _ => JsonSpec::Obj(base),
    }
}

/// The wire form of a whole conversation, entry by entry, in order.
pub open spec fn messages_json(ms: Seq<MessageSpec>) -> Seq<JsonSpec> {
    ms.map_values(|m| serialize_spec(m))
}

impl ChatMessage {
    /// The role label used on the wire.
    pub fn label(&self) -> (r: &str)
        ensures
            r@ == spec_label(self@),
    {
        match self {
            ChatMessage::System(_) => "system",
            ChatMessage::User(_) => "user",
            ChatMessage::Assistant(_, _) => "assistant",
            ChatMessage::Tool(_) => "tool",
        }
    }

    /// The display text: the carried text, or for a tool entry the
    /// concatenation of its results.
    pub fn content(&self) -> (r: String)
        ensures
            r@ == spec_content(self@),
    {
        match self {
            ChatMessage::System(content) => content.clone(),
            ChatMessage::User(content) => content.clone(),
            ChatMessage::Assistant(content, _) => content.clone(),
            ChatMessage::Tool(tool_results) => {
                let ghost rsv = tool_results.deep_view();
                let mut result = String::new();
                proof {
                    assert(rsv.take(0) =~= Seq::<ToolCallResultSpec>::empty());
                }
                let mut i: usize = 0;
                while i < tool_results.len()
                    invariant
                        *self == ChatMessage::Tool(*tool_results),
                        rsv == tool_results.deep_view(),
                        rsv.len() == tool_results.len(),
                        i <= tool_results.len(),
                        result@ == results_text(rsv.take(i as int)),
                    decreases tool_results.len() - i,
                {
                    proof {
                        assert(rsv[i as int] == tool_results@[i as int].deep_view());
                    }
                    result.append(tool_results[i].name.as_str());
                    result.append(": ");
                    result.append(tool_results[i].result.as_str());
                    result.append("\n");
                    proof {
                        assert(rsv.take(i + 1).drop_last() =~= rsv.take(i as int));
                        assert(rsv.take(i + 1).last() == rsv[i as int]);
                        assert(result@ =~= results_text(rsv.take(i + 1)));
                    }
                    i += 1;
                }
                proof {
                    assert(rsv.take(tool_results.len() as int) =~= rsv);
                }
                result
            },
        }
    }

    /// The wire form of this entry: the executable form of `serialize_spec`.
    pub fn serialize(&self) -> (r: JsonVal)
        ensures
            r@ == serialize_spec(self@),
    {
        let mut fields: Vec<(String, JsonVal)> = Vec::new();
        let role: String = self.label().to_owned();
        let content = self.content();
        fields.push(("role".to_owned(), JsonVal::Str(role)));
        fields.push(("content".to_owned(), JsonVal::Str(content)));
        if let ChatMessage::Assistant(_, Some(calls)) = self {
            let ghost csv = calls.deep_view();
            let mut arr: Vec<JsonVal> = Vec::new();
            let mut i: usize = 0;
            while i < calls.len()
                invariant
                    *self matches ChatMessage::Assistant(_, Some(cc)) && cc == *calls,
                    csv == calls.deep_view(),
                    csv.len() == calls.len(),
                    i <= calls.len(),
                    arr.len() == i,
                    forall|j: int| 0 <= j < i ==> arr[j]@ == call_json(csv[j]),
                decreases calls.len() - i,
            {
                proof {
                    assert(csv[i as int] == calls@[i as int].deep_view());
                }
                let call = serialize_call(&calls[i]);
                arr.push(call);
                i += 1;
            }
            fields.push(("tool_calls".to_owned(), JsonVal::Arr(arr)));
            let r = JsonVal::Obj(fields);
            proof {
                lemma_obj_fields_view(fields);
                assert(json_view_vec(arr) =~= csv.map_values(|c| call_json(c)));
                assert(r@->Obj_0 =~= serialize_spec(self@)->Obj_0);
            }
            r
        } else {
            let r = JsonVal::Obj(fields);
            proof {
                lemma_obj_fields_view(fields);
                assert(r@->Obj_0 =~= serialize_spec(self@)->Obj_0);
            }
            r
        }
    }
}

impl Clone for ToolCall {
    /// A clone models the same call.
    fn clone(&self) -> (r: Self)
        ensures
            r@ == self@,
    {
        ToolCall { name: self.name.clone(), arguments: self.arguments.clone() }
    }
}

impl Clone for ToolCallResult {
    /// A clone models the same result.
    fn clone(&self) -> (r: Self)
        ensures
            r@ == self@,
    {
        ToolCallResult { name: self.name.clone(), result: self.result.clone() }
    }
}

/// A copy of a tool-call list, in order.
pub fn clone_calls(v: &Vec<ToolCall>) -> (r: Vec<ToolCall>)
    ensures
        r.deep_view() == v.deep_view(),
{
    let mut out: Vec<ToolCall> = Vec::new();
    let mut i: usize = 0;
    while i < v.len()
        invariant
            i <= v.len(),
            out.len() == i,
            forall|j: int| 0 <= j < i ==> out@[j].deep_view() == v@[j].deep_view(),
        decreases v.len() - i,
    {
        let c = v[i].clone();
        out.push(c);
        i += 1;
    }
    proof {
        assert forall|j: int| 0 <= j < v@.len() implies out.deep_view()[j] == v.deep_view()[j] by {
            assert(out.deep_view()[j] == out@[j].deep_view());
            assert(v.deep_view()[j] == v@[j].deep_view());
        }
        assert(out.deep_view() =~= v.deep_view());
    }
    out
}

/// A copy of a tool-result list, in order.
pub fn clone_results(v: &Vec<ToolCallResult>) -> (r: Vec<ToolCallResult>)
    ensures
        r.deep_view() == v.deep_view(),
{
    let mut out: Vec<ToolCallResult> = Vec::new();
    let mut i: usize = 0;
    while i < v.len()
        invariant
            i <= v.len(),
            out.len() == i,
            forall|j: int| 0 <= j < i ==> out@[j].deep_view() == v@[j].deep_view(),
        decreases v.len() - i,
    {
        let c = v[i].clone();
        out.push(c);
        i += 1;
    }
    proof {
        assert forall|j: int| 0 <= j < v@.len() implies out.deep_view()[j] == v.deep_view()[j] by {
            assert(out.deep_view()[j] == out@[j].deep_view());
            assert(v.deep_view()[j] == v@[j].deep_view());
        }
        assert(out.deep_view() =~= v.deep_view());
    }
    out
}

impl Clone for ChatMessage {
    /// A clone models the same entry.
    fn clone(&self) -> (r: Self)
        ensures
            r@ == self@,
    {
        match self {
            ChatMessage::System(s) => ChatMessage::System(s.clone()),
            ChatMessage::User(s) => ChatMessage::User(s.clone()),
            ChatMessage::Assistant(s, calls) => {
                let cc = match calls {
                    Some(v) => Some(clone_calls(v)),
                    None => None,
                };
                ChatMessage::Assistant(s.clone(), cc)
            },
            ChatMessage::Tool(rs) => ChatMessage::Tool(clone_results(rs)),
        }
    }
}

impl Clone for MessageList {
    /// A clone models the same conversation.
    fn clone(&self) -> (r: Self)
        ensures
            r@ == self@,
    {
        let mut out: Vec<ChatMessage> = Vec::new();
        let mut i: usize = 0;
        while i < self.0.len()
            invariant
                i <= self.0.len(),
                out.len() == i,
                forall|j: int| 0 <= j < i ==> out@[j].deep_view() == self.0@[j].deep_view(),
            decreases self.0.len() - i,
        {
            let m = self.0[i].clone();
            out.push(m);
            i += 1;
        }
        proof {
            assert forall|j: int| 0 <= j < self.0@.len() implies out.deep_view()[j]
                == self.0.deep_view()[j] by {
                assert(out.deep_view()[j] == out@[j].deep_view());
                assert(self.0.deep_view()[j] == self.0@[j].deep_view());
            }
            assert(out.deep_view() =~= self.0.deep_view());
        }
        MessageList(out)
    }
}

impl MessageList {
    /// The wire form of the whole conversation: the executable form of
    /// `messages_json`.
    pub fn to_json(&self) -> (r: JsonVal)
        ensures
            r@ == JsonSpec::Arr(messages_json(self@)),
    {
        let mut arr: Vec<JsonVal> = Vec::new();
        let mut i: usize = 0;
        while i < self.0.len()
            invariant
                i <= self.0.len(),
                arr.len() == i,
                self@.len() == self.0.len(),
                forall|j: int| 0 <= j < i ==> arr[j]@ == serialize_spec(self@[j]),
            decreases self.0.len() - i,
        {
            proof {
                assert(self@[i as int] == self.0@[i as int].deep_view());
            }
            let entry = self.0[i].serialize();
            arr.push(entry);
            i += 1;
        }
        let r = JsonVal::Arr(arr);
        proof {
            assert forall|j: int| 0 <= j < arr@.len() implies json_view_vec(arr)[j]
                == messages_json(self@)[j] by {
                assert(json_view_vec(arr)[j] == arr@[j]@);
            }
            assert(json_view_vec(arr) =~= messages_json(self@));
        }
        r
    }
}

/// The wire form of one tool call: the executable form of `call_json`.
pub fn serialize_call(c: &ToolCall) -> (r: JsonVal)
    ensures
        r@ == call_json(c@),
{
    let mut inner: Vec<(String, JsonVal)> = Vec::new();
    inner.push(("name".to_owned(), JsonVal::Str(c.name.clone())));
    inner.push(("arguments".to_owned(), clone_json(&c.arguments)));
    let function = JsonVal::Obj(inner);
    let mut outer: Vec<(String, JsonVal)> = Vec::new();
    outer.push(("function".to_owned(), function));
    let r = JsonVal::Obj(outer);
    proof {
        assert(json_view_fields(inner)[0] == ("name"@, JsonSpec::Str(c.name@)));
        assert(json_view_fields(inner)[1] == ("arguments"@, c.arguments@));
        assert(json_view_fields(inner) =~= call_json(c@)->Obj_0[0].1->Obj_0);
        assert(json_view_fields(outer)[0] == ("function"@, JsonSpec::Obj(json_view_fields(inner))));
        assert(json_view_fields(outer) =~= call_json(c@)->Obj_0);
    }
    r
}

} // verus!
