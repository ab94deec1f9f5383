use llamix::errors::AgentError;
use llamix::json_model::{as_text, get_field, JsonVal};
use llamix::message::ToolCall;
use llamix::tools::{ShellOutput, ShellRunner, ToolRegistry};

struct FakeRunner {
    log: Vec<String>,
    stdout: String,
    stderr: String,
    fail: bool,
}

impl FakeRunner {
    fn new(stdout: &str, stderr: &str) -> Self {
        FakeRunner { log: vec![], stdout: stdout.to_string(), stderr: stderr.to_string(), fail: false }
    }
}

impl ShellRunner for FakeRunner {
    fn run_sh(&mut self, command: &str) -> Result<ShellOutput, String> {
        self.log.push(command.to_string());
        if self.fail {
            Err("could not start".to_string())
        } else {
            Ok(ShellOutput {
                stdout: self.stdout.clone(),
                stderr: self.stderr.clone(),
                status: 0,
            })
        }
    }
}

fn args_with(key: &str, value: &str) -> JsonVal {
    JsonVal::Obj(vec![(key.to_string(), JsonVal::Str(value.to_string()))])
}

#[test]
fn registry_advertises_sh_then_say() {
    let reg = ToolRegistry::builtin();
    match reg.tools_json() {
        JsonVal::Arr(elems) => {
            assert_eq!(elems.len(), 2);
            let f0 = get_field(&elems[0], "function").expect("function missing");
            let f1 = get_field(&elems[1], "function").expect("function missing");
            assert_eq!(as_text(get_field(f0, "name").unwrap()).unwrap(), "sh");
            assert_eq!(as_text(get_field(f1, "name").unwrap()).unwrap(), "say");
            assert_eq!(
                as_text(get_field(f0, "description").unwrap()).unwrap(),
                "Run a command using sh and get the output"
            );
            assert_eq!(
                as_text(get_field(f1, "description").unwrap()).unwrap(),
                "Say something to the user"
            );
        }
        _ => panic!("tools are not an array"),
    }
}

#[test]
fn sh_runs_before_say_and_batch_yields() {
    let reg = ToolRegistry::builtin();
    let mut runner = FakeRunner::new("strange % output", "with ' noise");
    let calls = vec![
        ToolCall { name: "sh".to_string(), arguments: args_with("command", "ls") },
        ToolCall { name: "say".to_string(), arguments: args_with("message", "hello") },
    ];
    let (results, yields) = reg.dispatch(&mut runner, &calls).expect("dispatch failed");
    assert_eq!(runner.log, vec!["ls".to_string()]);
    assert_eq!(results.len(), 2);
    assert_eq!(results[0].name, "sh");
    assert_eq!(results[0].result, "strange % output\nwith ' noise");
    assert_eq!(results[1].name, "say");
    assert_eq!(results[1].result, "hello");
    assert!(yields);
}

#[test]
fn sh_alone_does_not_yield() {
    let reg = ToolRegistry::builtin();
    let mut runner = FakeRunner::new("out", "err");
    let calls = vec![ToolCall { name: "sh".to_string(), arguments: args_with("command", "pwd") }];
    let (results, yields) = reg.dispatch(&mut runner, &calls).expect("dispatch failed");
    assert_eq!(results.len(), 1);
    assert_eq!(results[0].result, "out\nerr");
    assert!(!yields);
}

#[test]
fn say_alone_yields_and_echoes() {
    let reg = ToolRegistry::builtin();
    let mut runner = FakeRunner::new("", "");
    let calls = vec![ToolCall { name: "say".to_string(), arguments: args_with("message", "Done.") }];
    let (results, yields) = reg.dispatch(&mut runner, &calls).expect("dispatch failed");
    assert_eq!(results.len(), 1);
    assert_eq!(results[0].name, "say");
    assert_eq!(results[0].result, "Done.");
    assert!(yields);
    assert!(runner.log.is_empty());
}

#[test]
fn unknown_tool_invokes_no_handler() {
    let reg = ToolRegistry::builtin();
    let mut runner = FakeRunner::new("out", "err");
    let calls = vec![
        ToolCall { name: "sh".to_string(), arguments: args_with("command", "ls") },
        ToolCall { name: "format_disk".to_string(), arguments: JsonVal::Null },
    ];
    match reg.dispatch(&mut runner, &calls) {
        Err(AgentError::UnknownToolError(name)) => assert_eq!(name, "format_disk"),
        _ => panic!("expected an unknown-tool error"),
    }
    assert!(runner.log.is_empty());
}

#[test]
fn failing_shell_is_a_tool_execution_error() {
    let reg = ToolRegistry::builtin();
    let mut runner = FakeRunner::new("", "");
    runner.fail = true;
    let calls = vec![ToolCall { name: "sh".to_string(), arguments: args_with("command", "ls") }];
    match reg.dispatch(&mut runner, &calls) {
        Err(AgentError::ToolExecutionError(d)) => assert_eq!(d, "could not start"),
        _ => panic!("expected a tool-execution error"),
    }
}

#[test]
fn missing_command_is_a_tool_execution_error() {
    let reg = ToolRegistry::builtin();
    let mut runner = FakeRunner::new("", "");
    let calls = vec![ToolCall { name: "sh".to_string(), arguments: JsonVal::Null }];
    match reg.dispatch(&mut runner, &calls) {
        Err(AgentError::ToolExecutionError(_)) => {}
        _ => panic!("expected a tool-execution error"),
    }
    assert!(runner.log.is_empty());
}
