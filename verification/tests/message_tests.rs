use llamix::json_model::{as_text, get_field, JsonVal};
use llamix::message::{ChatMessage, MessageList, ToolCall, ToolCallResult};

fn text_field(v: &JsonVal, key: &str) -> String {
    as_text(get_field(v, key).expect("field missing")).expect("not a string").clone()
}

#[test]
fn label_of_each_case() {
    assert_eq!(ChatMessage::System("a".to_string()).label(), "system");
    assert_eq!(ChatMessage::User("b".to_string()).label(), "user");
    assert_eq!(ChatMessage::Assistant("c".to_string(), None).label(), "assistant");
    assert_eq!(ChatMessage::Tool(vec![]).label(), "tool");
}

#[test]
fn content_of_plain_cases() {
    assert_eq!(ChatMessage::System("sys".to_string()).content(), "sys");
    assert_eq!(ChatMessage::User("hi".to_string()).content(), "hi");
    assert_eq!(ChatMessage::Assistant("ok".to_string(), None).content(), "ok");
}

#[test]
fn content_of_tool_case_concatenates() {
    let m = ChatMessage::Tool(vec![
        ToolCallResult { name: "sh".to_string(), result: "out".to_string() },
        ToolCallResult { name: "say".to_string(), result: "hi".to_string() },
    ]);
    assert_eq!(m.content(), "sh: out\nsay: hi\n");
}

#[test]
fn serialize_round_trips_role_and_content() {
    let cases = vec![
        ChatMessage::System("sys".to_string()),
        ChatMessage::User("hello".to_string()),
        ChatMessage::Assistant("reply".to_string(), None),
        ChatMessage::Tool(vec![ToolCallResult {
            name: "sh".to_string(),
            result: "done".to_string(),
        }]),
    ];
    for m in cases {
        let ser = m.serialize();
        assert_eq!(text_field(&ser, "role"), m.label());
        assert_eq!(text_field(&ser, "content"), m.content());
    }
}

#[test]
fn serialize_assistant_attaches_tool_calls_in_order() {
    let m = ChatMessage::Assistant(
        "".to_string(),
        Some(vec![
            ToolCall { name: "sh".to_string(), arguments: JsonVal::Null },
            ToolCall { name: "say".to_string(), arguments: JsonVal::Null },
        ]),
    );
    let ser = m.serialize();
    let tc = get_field(&ser, "tool_calls").expect("tool_calls missing");
    match tc {
        JsonVal::Arr(elems) => {
            assert_eq!(elems.len(), 2);
            let f0 = get_field(&elems[0], "function").expect("function missing");
            let f1 = get_field(&elems[1], "function").expect("function missing");
            assert_eq!(text_field(f0, "name"), "sh");
            assert_eq!(text_field(f1, "name"), "say");
        }
        _ => panic!("tool_calls is not an array"),
    }
}

#[test]
fn serialize_without_calls_has_no_tool_calls_field() {
    let ser = ChatMessage::Assistant("x".to_string(), None).serialize();
    assert!(get_field(&ser, "tool_calls").is_none());
}

#[test]
fn message_list_serializes_each_entry() {
    let list = MessageList(vec![
        ChatMessage::System("a".to_string()),
        ChatMessage::User("b".to_string()),
    ]);
    match list.to_json() {
        JsonVal::Arr(elems) => {
            assert_eq!(elems.len(), 2);
            assert_eq!(text_field(&elems[0], "role"), "system");
            assert_eq!(text_field(&elems[1], "role"), "user");
        }
        _ => panic!("not an array"),
    }
}
