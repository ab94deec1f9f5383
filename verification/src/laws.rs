//! The stated laws of the message model: what serialization guarantees, and
//! how a serialized entry reads back.

use vstd::prelude::*;

use crate::client::{call_spec, calls_spec, interpret_spec};
use crate::errors::AgentErrorSpec;
use crate::json_model::{jget, jstr, obj_get, JsonSpec};
use crate::message::{call_json, serialize_spec, spec_content, spec_label, MessageSpec, ToolCallSpec};

verus! {

/// The wire form of every entry carries its role and its content: reading
/// the `role` and `content` fields back recovers the entry's role label and
/// its content, for each of the four cases.
pub proof fn lemma_serialize_fields(m: MessageSpec)
    ensures
        jstr(jget(serialize_spec(m), "role"@)) == Some(spec_label(m)),
        jstr(jget(serialize_spec(m), "content"@)) == Some(spec_content(m)),
{
    reveal_with_fuel(obj_get, 4);
    reveal_strlit("role");
    reveal_strlit("content");
    reveal_strlit("tool_calls");
    let fields = serialize_spec(m)->Obj_0;
    assert(fields[0] == ("role"@, JsonSpec::Str(spec_label(m))));
    assert(fields[1] == ("content"@, JsonSpec::Str(spec_content(m))));
    assert("role"@.len() == 4 && "content"@.len() == 7);
    assert(fields.drop_first()[0] == fields[1]);
}

/// One serialized tool call reads back as the very call.
proof fn lemma_call_round_trip(c: ToolCallSpec)
    ensures
        call_spec(call_json(c)) == Some(c),
{
    reveal_with_fuel(obj_get, 4);
    reveal_strlit("function");
    reveal_strlit("name");
    reveal_strlit("arguments");
    assert("name"@.len() == 4 && "arguments"@.len() == 9);
    let f = call_json(c)->Obj_0[0].1;
    assert(jget(call_json(c), "function"@) == Some(f));
    assert(f->Obj_0.drop_first()[0] == f->Obj_0[1]);
    assert(jstr(jget(f, "name"@)) == Some(c.name));
    assert(jget(f, "arguments"@) == Some(c.arguments));
}

/// A serialized tool-call list reads back as the very list, in order.
proof fn lemma_calls_round_trip(cs: Seq<ToolCallSpec>)
    ensures
        calls_spec(cs.map_values(|c: ToolCallSpec| call_json(c))) == Some(cs),
    decreases cs.len(),
{
    let mapped = cs.map_values(|c: ToolCallSpec| call_json(c));
    if cs.len() == 0 {
        assert(mapped.len() == 0);
        assert(calls_spec(mapped) == Some(Seq::<ToolCallSpec>::empty()));
        assert(cs =~= Seq::<ToolCallSpec>::empty());
    } else {
        lemma_calls_round_trip(cs.drop_last());
        assert(mapped.drop_last() =~= cs.drop_last().map_values(
            |c: ToolCallSpec| call_json(c),
        ));
        assert(mapped.last() == call_json(cs.last()));
        lemma_call_round_trip(cs.last());
        assert(cs.drop_last().push(cs.last()) =~= cs);
    }
}

/// Serialization round-trips: a serialized system, user or assistant entry,
/// read back as a completion reply, reconstructs the very entry, tool calls
/// included. A tool entry does not come back this way by design: its role
/// is recognized, and rejected as a protocol violation (its results travel
/// only as display text).
pub proof fn lemma_serialize_round_trip(m: MessageSpec)
    ensures
        !(m is Tool) ==> interpret_spec(
            JsonSpec::Obj(seq![("message"@, serialize_spec(m))]),
        ) == Ok::<MessageSpec, AgentErrorSpec>(m),
        m is Tool ==> interpret_spec(JsonSpec::Obj(seq![("message"@, serialize_spec(m))]))
            == Err::<MessageSpec, AgentErrorSpec>(AgentErrorSpec::ProtocolError("tool"@)),
{
    reveal_with_fuel(obj_get, 4);
    reveal_strlit("message");
    reveal_strlit("role");
    reveal_strlit("content");
    reveal_strlit("tool_calls");
    reveal_strlit("system");
    reveal_strlit("user");
    reveal_strlit("assistant");
    reveal_strlit("tool");
    let env = JsonSpec::Obj(seq![("message"@, serialize_spec(m))]);
    assert(jget(env, "message"@) == Some(serialize_spec(m)));
    let fields = serialize_spec(m)->Obj_0;
    assert(fields[0] == ("role"@, JsonSpec::Str(spec_label(m))));
    assert(fields[1] == ("content"@, JsonSpec::Str(spec_content(m))));
    assert("role"@.len() == 4 && "content"@.len() == 7 && "tool_calls"@.len() == 10);
    assert(fields.drop_first()[0] == fields[1]);
    assert(jstr(jget(serialize_spec(m), "role"@)) == Some(spec_label(m)));
    assert(jstr(jget(serialize_spec(m), "content"@)) == Some(spec_content(m)));
    assert("system"@.len() == 6 && "user"@.len() == 4 && "assistant"@.len() == 9 && "tool"@.len()
        == 4);
    assert("user"@[0] == 'u' && "tool"@[0] == 't');
    match m {
        MessageSpec::System(_) => {
        },
        MessageSpec::User(_) => {
        },
        MessageSpec::Assistant(text, calls) => {
            match calls {
                Some(cs) => {
                    assert(fields.drop_first().drop_first()[0] == fields[2]);
                    assert(jget(serialize_spec(m), "tool_calls"@) == Some(
                        JsonSpec::Arr(cs.map_values(|c: ToolCallSpec| call_json(c))),
                    ));
                    lemma_calls_round_trip(cs);
                },
                None => {
                    assert(fields.len() == 2);
                    assert(jget(serialize_spec(m), "tool_calls"@) is None);
                },
            }
        },
        MessageSpec::Tool(_) => {
        },
    }
}

/// An assistant entry carrying tool calls serializes with a `tool_calls`
/// array whose length equals the call list's and whose elements stand in
/// the same order, each the wire form of the call at its place.
pub proof fn lemma_assistant_tool_calls(text: Seq<char>, cs: Seq<ToolCallSpec>)
    ensures
        jget(serialize_spec(MessageSpec::Assistant(text, Some(cs))), "tool_calls"@) matches Some(
            tc,
        ) && tc matches JsonSpec::Arr(arr) && arr.len() == cs.len() && (forall|i: int|
            0 <= i < cs.len() ==> arr[i] == call_json(cs[i])),
{
    reveal_with_fuel(obj_get, 4);
    reveal_strlit("role");
    reveal_strlit("content");
    reveal_strlit("tool_calls");
    let m = MessageSpec::Assistant(text, Some(cs));
    let fields = serialize_spec(m)->Obj_0;
    assert("role"@.len() == 4 && "content"@.len() == 7 && "tool_calls"@.len() == 10);
    assert(fields.drop_first()[0] == fields[1]);
    assert(fields.drop_first().drop_first()[0] == fields[2]);
    assert(jget(serialize_spec(m), "tool_calls"@) == Some(
        JsonSpec::Arr(cs.map_values(|c: ToolCallSpec| call_json(c))),
    ));
}

} // verus!
