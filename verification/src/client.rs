//! The completion client: builds the request for the chat-completion
//! endpoint and interprets its reply as a conversation entry.
//!
//! The transport itself is an external collaborator: anything able to POST a
//! body to a URL and hand back the response text.

use vstd::prelude::*;
use vstd::string::StringExecFns;

use crate::errors::{AgentError, AgentErrorSpec};
use crate::json_model::{
    as_text, clone_json, get_field, jget, json_view_vec, jstr, lemma_obj_fields_view, str_eq,
    JsonSpec, JsonVal,
};
use crate::message::{
    messages_json, ChatMessage, MessageList, MessageSpec, ToolCall, ToolCallSpec,
};
use crate::wire::{dump_json, json_parsed, json_text, parse_json};

verus! {

/// The external collaborator that carries a request to the completion
/// endpoint: one synchronous POST of `data` to `url`, answered with the
/// response text, or with a description of the failure.
pub trait Transport {
    fn request(&mut self, url: &str, data: &str) -> (r: Result<String, String>);
}

/// One tool call read off a `tool_calls` element: its `function.name` and
/// its `function.arguments`, the arguments passed through unmodified (absent
/// arguments are carried as null). `None` when the element has no name.
pub open spec fn call_spec(e: JsonSpec) -> Option<ToolCallSpec> {
    let f = match jget(e, "function"@) {
        Some(f) => f,
        None => JsonSpec::Null,
    };
    match jstr(jget(f, "name"@)) {
        None => None,
        Some(name) => Some(
            ToolCallSpec {
                name,
                arguments: match jget(f, "arguments"@) {
                    Some(a) => a,
                    None => JsonSpec::Null,
                },
            },
        ),
    }
}

/// The tool calls read off a `tool_calls` array, in array order; `None` as
/// soon as any element is malformed.
pub open spec fn calls_spec(arr: Seq<JsonSpec>) -> Option<Seq<ToolCallSpec>>
    decreases arr.len(),
{
    if arr.len() == 0 {
        Some(Seq::empty())
    } else {
        match (calls_spec(arr.drop_last()), call_spec(arr.last())) {
            (Some(pre), Some(c)) => Some(pre.push(c)),
            _ => None,
        }
    }
}

/// What the reply of the completion endpoint means:
/// - missing `role` or `content`, or a malformed `tool_calls` element, is a
///   malformed response;
/// - role `"system"`, `"user"` or `"assistant"` maps back to the matching
///   entry, an assistant's `tool_calls` array collected in order;
/// - any other role (in particular `"tool"`) is a protocol violation.
pub open spec fn interpret_spec(v: JsonSpec) -> Result<MessageSpec, AgentErrorSpec> {
    let msg = match jget(v, "message"@) {
        Some(m) => m,
        None => JsonSpec::Null,
    };
    match jstr(jget(msg, "role"@)) {
        None => Err(AgentErrorSpec::MalformedResponseError("role not found"@)),
        Some(role) => match jstr(jget(msg, "content"@)) {
            None => Err(AgentErrorSpec::MalformedResponseError("content not found"@)),
            Some(content) => if role == "system"@ {
                Ok(MessageSpec::System(content))
            } else if role == "user"@ {
                Ok(MessageSpec::User(content))
            } else if role == "assistant"@ {
                match jget(msg, "tool_calls"@) {
                    Some(JsonSpec::Arr(arr)) => match calls_spec(arr) {
                        Some(cs) => Ok(MessageSpec::Assistant(content, Some(cs))),
                        None => Err(
                            AgentErrorSpec::MalformedResponseError("tool name not found"@),
                        ),
                    },
                    _ => Ok(MessageSpec::Assistant(content, None)),
                }
            } else {
                Err(AgentErrorSpec::ProtocolError(role))
            },
        },
    }
}

/// The model of an interpretation outcome.
pub open spec fn outcome_view(r: Result<ChatMessage, AgentError>) -> Result<
    MessageSpec,
    AgentErrorSpec,
> {
    match r {
        Ok(m) => Ok(m@),
        Err(e) => Err(e@),
    }
}

/// A malformed `tool_calls` element poisons the whole collection.
proof fn lemma_calls_spec_none(arr: Seq<JsonSpec>, i: int)
    requires
        0 <= i < arr.len(),
        call_spec(arr[i]) is None,
    ensures
        calls_spec(arr) is None,
    decreases arr.len(),
{
    if i < arr.len() - 1 {
        assert(arr.drop_last()[i] == arr[i]);
        lemma_calls_spec_none(arr.drop_last(), i);
    }
}

/// Reads one `tool_calls` element: the executable form of `call_spec`.
pub fn parse_call(e: &JsonVal) -> (r: Option<ToolCall>)
    ensures
        match r {
            Some(c) => call_spec(e@) == Some(c@),
            None => call_spec(e@) is None,
        },
{
    let null_val = JsonVal::Null;
    let f = match get_field(e, "function") {
        Some(f) => f,
        None => &null_val,
    };
    let name = match get_field(f, "name") {
        Some(n) => as_text(n),
        None => None,
    };
    let name = match name {
        Some(n) => n,
        None => { return None },
    };
    let arguments = match get_field(f, "arguments") {
        Some(a) => clone_json(a),
        None => JsonVal::Null,
    };
    Some(ToolCall { name: name.clone(), arguments })
}

/// Reads a whole `tool_calls` array, in order: the executable form of
/// `calls_spec`.
pub fn collect_calls(arr: &Vec<JsonVal>) -> (r: Option<Vec<ToolCall>>)
    ensures
        match r {
            Some(calls) => calls_spec(json_view_vec(*arr)) == Some(calls.deep_view()),
            None => calls_spec(json_view_vec(*arr)) is None,
        },
{
    let ghost av = json_view_vec(*arr);
    proof {
        crate::json_model::lemma_arr_view(*arr);
        assert(av.take(0) =~= Seq::<JsonSpec>::empty());
    }
    let mut calls: Vec<ToolCall> = Vec::new();
    let mut i: usize = 0;
    while i < arr.len()
        invariant
            av == json_view_vec(*arr),
            av.len() == arr.len(),
            forall|j: int| 0 <= j < arr@.len() ==> av[j] == arr@[j]@,
            i <= arr.len(),
            calls.len() == i,
            calls_spec(av.take(i as int)) == Some(calls.deep_view()),
        decreases arr.len() - i,
    {
        let c = match parse_call(&arr[i]) {
            Some(c) => c,
            None => {
                proof {
                    lemma_calls_spec_none(av, i as int);
                }
                return None;
            },
        };
        calls.push(c);
        proof {
            assert(av.take(i + 1).drop_last() =~= av.take(i as int));
            assert(av.take(i + 1).last() == av[i as int]);
            assert(calls.deep_view() =~= calls.deep_view().drop_last().push(c@));
            assert(calls_spec(av.take(i + 1)) == Some(calls.deep_view()));
        }
        i += 1;
    }
    proof {
        assert(av.take(arr.len() as int) =~= av);
    }
    Some(calls)
}

/// Interprets the parsed reply of the completion endpoint: the executable
/// form of `interpret_spec`. A reply is never read as a tool entry: the
/// tool role is a protocol violation.
pub fn interpret_response(v: &JsonVal) -> (r: Result<ChatMessage, AgentError>)
    ensures
        outcome_view(r) == interpret_spec(v@),
        r matches Ok(m) ==> !(m@ is Tool),
{
    let null_val = JsonVal::Null;
    let msg = match get_field(v, "message") {
        Some(m) => m,
        None => &null_val,
    };
    let role = match get_field(msg, "role") {
        Some(f) => as_text(f),
        None => None,
    };
    let role = match role {
        Some(s) => s,
        None => {
            return Err(AgentError::MalformedResponseError("role not found".to_owned()));
        },
    };
    let content = match get_field(msg, "content") {
        Some(f) => as_text(f),
        None => None,
    };
    let content = match content {
        Some(s) => s,
        None => {
            return Err(AgentError::MalformedResponseError("content not found".to_owned()));
        },
    };
    if str_eq(role.as_str(), "system") {
        Ok(ChatMessage::System(content.clone()))
    } else if str_eq(role.as_str(), "user") {
        Ok(ChatMessage::User(content.clone()))
    } else if str_eq(role.as_str(), "assistant") {
        match get_field(msg, "tool_calls") {
            Some(tc) => match tc {
                JsonVal::Arr(arr) => match collect_calls(arr) {
                    Some(calls) => Ok(ChatMessage::Assistant(content.clone(), Some(calls))),
                    None => Err(
                        AgentError::MalformedResponseError("tool name not found".to_owned()),
                    ),
                },
                _ => Ok(ChatMessage::Assistant(content.clone(), None)),
            },
            None => Ok(ChatMessage::Assistant(content.clone(), None)),
        }
    } else {
        Err(AgentError::ProtocolError(role.clone()))
    }
}

/// The request sent to the completion endpoint: the conversation serialized
/// entry by entry, `stream` pinned to false, and the tool declarations
/// always present, possibly as an empty array.
pub open spec fn request_json(model: Seq<char>, ms: Seq<MessageSpec>, tools: JsonSpec) -> JsonSpec {
    JsonSpec::Obj(
        seq![
            ("model"@, JsonSpec::Str(model)),
            ("messages"@, JsonSpec::Arr(messages_json(ms))),
            ("stream"@, JsonSpec::Bool(false)),
            ("tools"@, tools),
        ],
    )
}

/// The handle on a configured completion endpoint: its URL and the model
/// identifier sent with every request.
pub struct Ollama {
    pub url: String,
    pub model: String,
}

impl Ollama {
    /// A client for the endpoint at `url`, completing with `model`.
    pub fn new(url: &str, model: &str) -> (r: Self)
        ensures
            r.url@ == url@,
            r.model@ == model@,
    {
        Ollama { url: url.to_owned(), model: model.to_owned() }
    }

    /// The body of one completion request over the given conversation and
    /// tool declarations.
    pub fn request_body(&self, messages: &MessageList, tools: &JsonVal) -> (r: String)
        ensures
            r@ == json_text(request_json(self.model@, messages@, tools@)),
    {
        let mut fields: Vec<(String, JsonVal)> = Vec::new();
        fields.push(("model".to_owned(), JsonVal::Str(self.model.clone())));
        fields.push(("messages".to_owned(), messages.to_json()));
        fields.push(("stream".to_owned(), JsonVal::Bool(false)));
        fields.push(("tools".to_owned(), clone_json(tools)));
        let req = JsonVal::Obj(fields);
        proof {
            lemma_obj_fields_view(fields);
            assert(req@->Obj_0 =~= request_json(self.model@, messages@, tools@)->Obj_0);
        }
        dump_json(&req)
    }

    /// One completion turn: sends the conversation and the tool
    /// declarations, and interprets the reply. Every failure is reported as
    /// an error of the taxonomy; a successful reply is never a tool entry.
    pub fn complete<T: Transport>(
        &self,
        transport: &mut T,
        messages: &MessageList,
        tools: &JsonVal,
    ) -> (r: Result<ChatMessage, AgentError>)
        ensures
            r matches Ok(m) ==> exists|d: JsonSpec|
                #[trigger] interpret_spec(d) == Ok::<MessageSpec, AgentErrorSpec>(m@),
            r matches Ok(m) ==> !(m@ is Tool),
            r matches Err(e) ==> e@ is TransportError || e@ is MalformedResponseError || e@
                is ProtocolError,
    {
        let body = self.request_body(messages, tools);
        let resp = match transport.request(self.url.as_str(), body.as_str()) {
            Ok(t) => t,
            Err(e) => {
                return Err(AgentError::TransportError(e));
            },
        };
        let parsed = match parse_json(resp.as_str()) {
            Some(p) => p,
            None => {
                return Err(
                    AgentError::MalformedResponseError("failed to parse response".to_owned()),
                );
            },
        };
        interpret_response(&parsed)
    }
}

} // verus!
