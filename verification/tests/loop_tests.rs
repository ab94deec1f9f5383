use llamix::client::{interpret_response, Ollama, Transport};
use llamix::errors::AgentError;
use llamix::json_model::{as_text, get_field, JsonVal};
use llamix::message::ChatMessage;
use llamix::session::{ControlState, Session};
use llamix::tools::{ShellOutput, ShellRunner, ToolRegistry};
use llamix::wire::parse_json;

struct CannedTransport {
    reply: Result<String, String>,
    seen_bodies: Vec<String>,
}

impl Transport for CannedTransport {
    fn request(&mut self, _url: &str, data: &str) -> Result<String, String> {
        self.seen_bodies.push(data.to_string());
        self.reply.clone()
    }
}

struct FakeRunner {
    log: Vec<String>,
    stdout: String,
    stderr: String,
}

impl ShellRunner for FakeRunner {
    fn run_sh(&mut self, command: &str) -> Result<ShellOutput, String> {
        self.log.push(command.to_string());
        Ok(ShellOutput { stdout: self.stdout.clone(), stderr: self.stderr.clone(), status: 0 })
    }
}

#[test]
fn error_descriptions_name_their_kind() {
    assert_eq!(
        AgentError::TransportError("no route".to_string()).describe(),
        "transport error: no route"
    );
    assert_eq!(
        AgentError::MalformedResponseError("role not found".to_string()).describe(),
        "malformed response: role not found"
    );
    assert_eq!(
        AgentError::ProtocolError("tool".to_string()).describe(),
        "protocol error: the service claimed role tool"
    );
    assert_eq!(
        AgentError::UnknownToolError("telnet".to_string()).describe(),
        "unknown tool: telnet"
    );
    assert_eq!(
        AgentError::ToolExecutionError("could not start".to_string()).describe(),
        "tool execution failed: could not start"
    );
}

#[test]
fn tool_role_is_a_protocol_error_and_reverts_control() {
    let reply = parse_json("{\"message\":{\"role\":\"tool\",\"content\":\"x\"}}").unwrap();
    let outcome = interpret_response(&reply);
    match &outcome {
        Err(AgentError::ProtocolError(role)) => assert_eq!(role, "tool"),
        _ => panic!("expected a protocol error"),
    }
    let mut session = Session::new("you are an assistant".to_string());
    session.user_turn("hi".to_string());
    session.agent_reply(outcome);
    assert_eq!(session.state, ControlState::HumanTurn);
    assert_eq!(session.history.0.len(), 2);
}

#[test]
fn missing_role_is_malformed() {
    let reply = parse_json("{\"message\":{\"content\":\"x\"}}").unwrap();
    match interpret_response(&reply) {
        Err(AgentError::MalformedResponseError(d)) => assert_eq!(d, "role not found"),
        _ => panic!("expected a malformed-response error"),
    }
}

#[test]
fn missing_content_is_malformed() {
    let reply = parse_json("{\"message\":{\"role\":\"assistant\"}}").unwrap();
    match interpret_response(&reply) {
        Err(AgentError::MalformedResponseError(d)) => assert_eq!(d, "content not found"),
        _ => panic!("expected a malformed-response error"),
    }
}

#[test]
fn transport_failure_is_a_transport_error() {
    let ollama = Ollama::new("http://10.0.2.2:11434/api/chat", "llama3.1");
    let mut transport =
        CannedTransport { reply: Err("no route".to_string()), seen_bodies: vec![] };
    let history = llamix::message::MessageList(vec![ChatMessage::System("s".to_string())]);
    let tools = ToolRegistry::builtin().tools_json();
    match ollama.complete(&mut transport, &history, &tools) {
        Err(AgentError::TransportError(d)) => assert_eq!(d, "no route"),
        _ => panic!("expected a transport error"),
    }
}

#[test]
fn unparseable_reply_is_malformed() {
    let ollama = Ollama::new("http://10.0.2.2:11434/api/chat", "llama3.1");
    let mut transport =
        CannedTransport { reply: Ok("not json at all {".to_string()), seen_bodies: vec![] };
    let history = llamix::message::MessageList(vec![ChatMessage::System("s".to_string())]);
    let tools = ToolRegistry::builtin().tools_json();
    match ollama.complete(&mut transport, &history, &tools) {
        Err(AgentError::MalformedResponseError(_)) => {}
        _ => panic!("expected a malformed-response error"),
    }
}

#[test]
fn request_body_carries_model_messages_stream_tools() {
    let ollama = Ollama::new("http://10.0.2.2:11434/api/chat", "llama3.1");
    let history = llamix::message::MessageList(vec![ChatMessage::System("sys".to_string())]);
    let tools = ToolRegistry::builtin().tools_json();
    let body = ollama.request_body(&history, &tools);
    let parsed = parse_json(&body).expect("request body is not valid JSON");
    assert_eq!(as_text(get_field(&parsed, "model").unwrap()).unwrap(), "llama3.1");
    match get_field(&parsed, "stream").unwrap() {
        JsonVal::Bool(b) => assert!(!b),
        _ => panic!("stream is not a bool"),
    }
    match get_field(&parsed, "messages").unwrap() {
        JsonVal::Arr(ms) => {
            assert_eq!(ms.len(), 1);
            assert_eq!(as_text(get_field(&ms[0], "role").unwrap()).unwrap(), "system");
        }
        _ => panic!("messages is not an array"),
    }
    match get_field(&parsed, "tools").unwrap() {
        JsonVal::Arr(ts) => assert_eq!(ts.len(), 2),
        _ => panic!("tools is not an array"),
    }
}

#[test]
fn end_to_end_sh_turn_keeps_agent_in_control() {
    let ollama = Ollama::new("http://10.0.2.2:11434/api/chat", "llama3.1");
    let registry = ToolRegistry::builtin();
    let mut session = Session::new("you are an assistant".to_string());
    session.user_turn("list files".to_string());
    assert_eq!(session.state, ControlState::AgentTurn);

    let reply = "{\"message\":{\"role\":\"assistant\",\"content\":\"\",\"tool_calls\":[{\"function\":{\"name\":\"sh\",\"arguments\":{\"command\":\"ls\"}}}]}}";
    let mut transport = CannedTransport { reply: Ok(reply.to_string()), seen_bodies: vec![] };
    let snapshot = session.snapshot();
    let tools = registry.tools_json();
    let response = ollama.complete(&mut transport, &snapshot, &tools);

    let calls = match &response {
        Ok(ChatMessage::Assistant(text, Some(calls))) => {
            assert_eq!(text, "");
            assert_eq!(calls.len(), 1);
            assert_eq!(calls[0].name, "sh");
            true
        }
        _ => false,
    };
    assert!(calls, "expected an assistant reply with tool calls");

    let pending = session.agent_reply(response).expect("expected calls to dispatch");
    assert_eq!(session.state, ControlState::AgentTurn);

    let mut runner =
        FakeRunner { log: vec![], stdout: "<stdout>".to_string(), stderr: "<stderr>".to_string() };
    let outcome = registry.dispatch(&mut runner, &pending);
    match &outcome {
        Ok((results, yields)) => {
            assert_eq!(results.len(), 1);
            assert_eq!(results[0].name, "sh");
            assert_eq!(results[0].result, "<stdout>\n<stderr>");
            assert!(!yields);
        }
        Err(_) => panic!("dispatch failed"),
    }
    assert_eq!(runner.log, vec!["ls".to_string()]);
    session.tool_turn(outcome);

    assert_eq!(session.history.0.len(), 4);
    assert!(matches!(session.history.0[0], ChatMessage::System(_)));
    assert!(matches!(session.history.0[1], ChatMessage::User(_)));
    assert!(matches!(session.history.0[2], ChatMessage::Assistant(_, Some(_))));
    assert!(matches!(session.history.0[3], ChatMessage::Tool(_)));
    assert_eq!(session.state, ControlState::AgentTurn);
}

#[test]
fn say_turn_hands_control_back() {
    let registry = ToolRegistry::builtin();
    let mut session = Session::new("you are an assistant".to_string());
    session.user_turn("greet me".to_string());

    let reply = parse_json(
        "{\"message\":{\"role\":\"assistant\",\"content\":\"\",\"tool_calls\":[{\"function\":{\"name\":\"say\",\"arguments\":{\"message\":\"Done.\"}}}]}}",
    )
    .unwrap();
    let response = interpret_response(&reply);
    let pending = session.agent_reply(response).expect("expected calls to dispatch");

    let mut runner = FakeRunner { log: vec![], stdout: "".to_string(), stderr: "".to_string() };
    let outcome = registry.dispatch(&mut runner, &pending);
    match &outcome {
        Ok((results, yields)) => {
            assert_eq!(results[0].name, "say");
            assert_eq!(results[0].result, "Done.");
            assert!(*yields);
        }
        Err(_) => panic!("dispatch failed"),
    }
    session.tool_turn(outcome);
    assert_eq!(session.state, ControlState::HumanTurn);
}

#[test]
fn unknown_tool_turn_appends_only_the_annotation() {
    let registry = ToolRegistry::builtin();
    let mut session = Session::new("you are an assistant".to_string());
    session.user_turn("do something odd".to_string());

    let reply = parse_json(
        "{\"message\":{\"role\":\"assistant\",\"content\":\"\",\"tool_calls\":[{\"function\":{\"name\":\"telnet\",\"arguments\":{}}}]}}",
    )
    .unwrap();
    let response = interpret_response(&reply);
    let pending = session.agent_reply(response).expect("expected calls to dispatch");

    let mut runner = FakeRunner { log: vec![], stdout: "".to_string(), stderr: "".to_string() };
    let outcome = registry.dispatch(&mut runner, &pending);
    assert!(matches!(&outcome, Err(AgentError::UnknownToolError(_))));
    assert!(runner.log.is_empty());

    session.tool_turn(outcome);
    assert_eq!(session.history.0.len(), 4);
    match &session.history.0[3] {
        ChatMessage::Tool(notes) => {
            assert_eq!(notes.len(), 1);
            assert_eq!(notes[0].name, "error");
            assert_eq!(notes[0].result, "unknown tool: telnet");
        }
        _ => panic!("expected a tool entry"),
    }
    assert_eq!(session.state, ControlState::HumanTurn);
}

#[test]
fn plain_reply_hands_control_back() {
    let mut session = Session::new("you are an assistant".to_string());
    session.user_turn("hi".to_string());
    let reply = parse_json("{\"message\":{\"role\":\"assistant\",\"content\":\"hello\"}}").unwrap();
    let response = interpret_response(&reply);
    let pending = session.agent_reply(response);
    assert!(pending.is_none());
    assert_eq!(session.state, ControlState::HumanTurn);
    assert_eq!(session.history.0.len(), 3);
}
