//! The error taxonomy of the engine.
//!
//! Every kind is recoverable at the agent-loop boundary: it is shown to the
//! operator and control falls back to the human turn; none ends the process.

use vstd::prelude::*;
use vstd::string::StringExecFns;

verus! {

/// What went wrong during one turn.
#[derive(Debug)]
pub enum AgentError {
    /// The completion request could not be sent or got no response.
    TransportError(String),
    /// The response lacked a required field or failed the schema.
    MalformedResponseError(String),
    /// The response claimed a role the service must never claim; the
    /// carried text is that role label.
    ProtocolError(String),
    /// The model requested a tool name that is not in the registry; the
    /// carried text is that name.
    UnknownToolError(String),
    /// A handler failed: bad arguments, or the tool itself could not run.
    ToolExecutionError(String),
}

/// The mathematical model of an `AgentError`.
pub enum AgentErrorSpec {
    TransportError(Seq<char>),
    MalformedResponseError(Seq<char>),
    ProtocolError(Seq<char>),
    UnknownToolError(Seq<char>),
    ToolExecutionError(Seq<char>),
}

impl View for AgentError {
    type V = AgentErrorSpec;

    open spec fn view(&self) -> AgentErrorSpec {
        match self {
            AgentError::TransportError(d) => AgentErrorSpec::TransportError(d@),
            AgentError::MalformedResponseError(d) => AgentErrorSpec::MalformedResponseError(d@),
            AgentError::ProtocolError(d) => AgentErrorSpec::ProtocolError(d@),
            AgentError::UnknownToolError(d) => AgentErrorSpec::UnknownToolError(d@),
            AgentError::ToolExecutionError(d) => AgentErrorSpec::ToolExecutionError(d@),
        }
    }
}

/// The operator-facing description of an error.
pub open spec fn describe_spec(e: AgentErrorSpec) -> Seq<char> {
    match e {
        AgentErrorSpec::TransportError(d) => "transport error: "@ + d,
        AgentErrorSpec::MalformedResponseError(d) => "malformed response: "@ + d,
        AgentErrorSpec::ProtocolError(d) => "protocol error: the service claimed role "@ + d,
        AgentErrorSpec::UnknownToolError(d) => "unknown tool: "@ + d,
        AgentErrorSpec::ToolExecutionError(d) => "tool execution failed: "@ + d,
    }
}

impl AgentError {
    /// The operator-facing text of this error.
    pub fn describe(&self) -> (r: String)
        ensures
            r@ == describe_spec(self@),
    {
        match self {
            AgentError::TransportError(d) => prefixed("transport error: ", d),
            AgentError::MalformedResponseError(d) => prefixed("malformed response: ", d),
            AgentError::ProtocolError(d) => prefixed(
                "protocol error: the service claimed role ",
                d,
            ),
            AgentError::UnknownToolError(d) => prefixed("unknown tool: ", d),
            AgentError::ToolExecutionError(d) => prefixed("tool execution failed: ", d),
        }
    }
}

/// `prefix` followed by `detail`.
fn prefixed(prefix: &str, detail: &String) -> (r: String)
    ensures
        r@ == prefix@ + detail@,
{
    let mut s = prefix.to_owned();
    s.append(detail.as_str());
    s
}

} // verus!
