//! The tool registry and dispatcher.
//!
//! The registry holds the fixed set of tool declarations, each with its
//! handler; the dispatcher executes a batch of tool calls strictly in the
//! order the model emitted them. Shell execution itself is an external
//! collaborator.

use vstd::prelude::*;
use vstd::string::StringExecFns;

use crate::errors::{AgentError, AgentErrorSpec};
use crate::json_model::{
    arr1, clone_json, get_field, as_text, jget, json_view_vec, jstr, obj1, obj2, obj3, sval,
    JsonSpec, JsonVal,
};
use crate::message::{ToolCall, ToolCallResult, ToolCallSpec, ToolCallResultSpec};

verus! {

/// What a shell command produced: the captured streams and the exit status.
pub struct ShellOutput {
    pub stdout: String,
    pub stderr: String,
    pub status: i32,
}

/// The external collaborator that runs one shell command and captures its
/// output, or describes why it could not run.
pub trait ShellRunner {
    fn run_sh(&mut self, command: &str) -> (r: Result<ShellOutput, String>);
}

/// Which built-in handler answers a tool.
#[derive(Clone, Copy)]
pub enum HandlerKind {
    /// Runs a shell command; does not yield control.
    Sh,
    /// Echoes a message to the operator; yields control.
    Say,
}

/// A tool as advertised to the completion service.
pub struct ToolDescriptor {
    pub name: String,
    pub description: String,
    pub parameters: JsonVal,
}

/// A declared tool together with its handler.
pub struct ToolEntry {
    pub descriptor: ToolDescriptor,
    pub handler: HandlerKind,
}

/// The fixed set of declared tools.
pub struct ToolRegistry {
    pub entries: Vec<ToolEntry>,
}

/// The mathematical model of a `ToolDescriptor`.
pub struct ToolDescriptorSpec {
    pub name: Seq<char>,
    pub description: Seq<char>,
    pub parameters: JsonSpec,
}

/// The mathematical model of a `ToolEntry`.
pub struct ToolEntrySpec {
    pub descriptor: ToolDescriptorSpec,
    pub handler: HandlerKind,
}

impl DeepView for ToolDescriptor {
    type V = ToolDescriptorSpec;

    open spec fn deep_view(&self) -> ToolDescriptorSpec {
        ToolDescriptorSpec {
            name: self.name@,
            description: self.description@,
            parameters: self.parameters@,
        }
    }
}

impl DeepView for ToolEntry {
    type V = ToolEntrySpec;

    open spec fn deep_view(&self) -> ToolEntrySpec {
        ToolEntrySpec { descriptor: self.descriptor.deep_view(), handler: self.handler }
    }
}

impl View for ToolRegistry {
    type V = Seq<ToolEntrySpec>;

    open spec fn view(&self) -> Seq<ToolEntrySpec> {
        self.entries.deep_view()
    }
}

/// The handler of the first entry declared under `name`, if any.
pub open spec fn lookup_spec(entries: Seq<ToolEntrySpec>, name: Seq<char>) -> Option<HandlerKind>
    decreases entries.len(),
{
    if entries.len() == 0 {
        None
    } else if entries.first().descriptor.name == name {
        Some(entries.first().handler)
    } else {
        lookup_spec(entries.drop_first(), name)
    }
}

/// A required string argument of a tool call.
pub open spec fn str_arg(args: JsonSpec, key: Seq<char>) -> Option<Seq<char>> {
    jstr(jget(args, key))
}

/// The name of the first call whose tool is not declared, if any.
pub open spec fn first_unknown(entries: Seq<ToolEntrySpec>, cs: Seq<ToolCallSpec>) -> Option<
    Seq<char>,
>
    decreases cs.len(),
{
    if cs.len() == 0 {
        None
    } else if lookup_spec(entries, cs.first().name) is None {
        Some(cs.first().name)
    } else {
        first_unknown(entries, cs.drop_first())
    }
}

/// The text handed back for a shell call: stdout, a newline, stderr.
pub open spec fn is_sh_text(t: Seq<char>) -> bool {
    exists|o: Seq<char>, e: Seq<char>| t == o + "\n"@ + e
}

/// When every call is declared, every name resolves.
proof fn lemma_first_unknown_all(entries: Seq<ToolEntrySpec>, cs: Seq<ToolCallSpec>)
    requires
        first_unknown(entries, cs) is None,
    ensures
        forall|j: int| 0 <= j < cs.len() ==> lookup_spec(entries, #[trigger] cs[j].name) is Some,
    decreases cs.len(),
{
    if cs.len() > 0 {
        lemma_first_unknown_all(entries, cs.drop_first());
        assert forall|j: int| 0 <= j < cs.len() implies lookup_spec(
            entries,
            #[trigger] cs[j].name,
        ) is Some by {
            if j > 0 {
                assert(cs.drop_first()[j - 1] == cs[j]);
            }
        }
    }
}

/// The concatenation handed back for a shell call.
pub fn sh_result_text(out: &ShellOutput) -> (r: String)
    ensures
        r@ == out.stdout@ + "\n"@ + out.stderr@,
{
    let mut s = out.stdout.clone();
    s.append("\n");
    s.append(out.stderr.as_str());
    s
}

/// A required string argument of a call, as an owned value.
pub fn arg_string(args: &JsonVal, key: &str) -> (r: Option<String>)
    ensures
        match r {
            Some(s) => str_arg(args@, key@) == Some(s@),
            None => str_arg(args@, key@) is None,
        },
{
    match get_field(args, key) {
        Some(f) => match as_text(f) {
            Some(s) => Some(s.clone()),
            None => None,
        },
        None => None,
    }
}

/// The wire form of one declared tool:
/// `{type: "function", function: {name, description, parameters}}`.
pub open spec fn descriptor_json(d: ToolDescriptorSpec) -> JsonSpec {
    JsonSpec::Obj(
        seq![
            ("type"@, JsonSpec::Str("function"@)),
            (
                "function"@,
                JsonSpec::Obj(
                    seq![
                        ("name"@, JsonSpec::Str(d.name)),
                        ("description"@, JsonSpec::Str(d.description)),
                        ("parameters"@, d.parameters),
                    ],
                ),
            ),
        ],
    )
}

/// The wire form of the whole registry, entry by entry, in order.
pub open spec fn descriptors_json(entries: Seq<ToolEntrySpec>) -> Seq<JsonSpec> {
    entries.map_values(|e: ToolEntrySpec| descriptor_json(e.descriptor))
}

/// The parameter schema of the `sh` tool: an object with a required
/// `command` string.
pub open spec fn sh_schema() -> JsonSpec {
    JsonSpec::Obj(
        seq![
            ("type"@, JsonSpec::Str("object"@)),
            (
                "properties"@,
                JsonSpec::Obj(
                    seq![
                        (
                            "command"@,
                            JsonSpec::Obj(
                                seq![
                                    ("type"@, JsonSpec::Str("string"@)),
                                    ("description"@, JsonSpec::Str("The command to run"@)),
                                ],
                            ),
                        ),
                    ],
                ),
            ),
            ("required"@, JsonSpec::Arr(seq![JsonSpec::Str("command"@)])),
        ],
    )
}

/// The parameter schema of the `say` tool: an object with a required
/// `message` string.
pub open spec fn say_schema() -> JsonSpec {
    JsonSpec::Obj(
        seq![
            ("type"@, JsonSpec::Str("object"@)),
            (
                "properties"@,
                JsonSpec::Obj(
                    seq![
                        (
                            "message"@,
                            JsonSpec::Obj(
                                seq![
                                    ("type"@, JsonSpec::Str("string"@)),
                                    ("description"@, JsonSpec::Str("The message to say"@)),
                                ],
                            ),
                        ),
                    ],
                ),
            ),
            ("required"@, JsonSpec::Arr(seq![JsonSpec::Str("message"@)])),
        ],
    )
}

/// The wire form of one declared tool: the executable form of
/// `descriptor_json`.
pub fn descriptor_to_json(d: &ToolDescriptor) -> (r: JsonVal)
    ensures
        r@ == descriptor_json(d.deep_view()),
{
    obj2(
        "type",
        sval("function"),
        "function",
        obj3(
            "name",
            JsonVal::Str(d.name.clone()),
            "description",
            JsonVal::Str(d.description.clone()),
            "parameters",
            clone_json(&d.parameters),
        ),
    )
}

impl ToolRegistry {
    /// The two built-in tools: `sh`, then `say`.
    pub fn builtin() -> (r: Self)
        ensures
            r@.len() == 2,
            r@[0].descriptor.name == "sh"@,
            r@[0].descriptor.description == "Run a command using sh and get the output"@,
            r@[0].descriptor.parameters == sh_schema(),
            r@[0].handler == HandlerKind::Sh,
            r@[1].descriptor.name == "say"@,
            r@[1].descriptor.description == "Say something to the user"@,
            r@[1].descriptor.parameters == say_schema(),
            r@[1].handler == HandlerKind::Say,
    {
        let sh_params = obj3(
            "type",
            sval("object"),
            "properties",
            obj1(
                "command",
                obj2("type", sval("string"), "description", sval("The command to run")),
            ),
            "required",
            arr1(sval("command")),
        );
        let say_params = obj3(
            "type",
            sval("object"),
            "properties",
            obj1(
                "message",
                obj2("type", sval("string"), "description", sval("The message to say")),
            ),
            "required",
            arr1(sval("message")),
        );
        let mut entries: Vec<ToolEntry> = Vec::new();
        entries.push(
            ToolEntry {
                descriptor: ToolDescriptor {
                    name: "sh".to_owned(),
                    description: "Run a command using sh and get the output".to_owned(),
                    parameters: sh_params,
                },
                handler: HandlerKind::Sh,
            },
        );
        entries.push(
            ToolEntry {
                descriptor: ToolDescriptor {
                    name: "say".to_owned(),
                    description: "Say something to the user".to_owned(),
                    parameters: say_params,
                },
                handler: HandlerKind::Say,
            },
        );
        ToolRegistry { entries }
    }

    /// Looks a tool name up: the executable form of `lookup_spec`.
    pub fn lookup(&self, name: &str) -> (r: Option<HandlerKind>)
        ensures
            r == lookup_spec(self@, name@),
    {
        let ghost entries = self@;
        proof {
            assert(entries.skip(0) =~= entries);
        }
        let mut i: usize = 0;
        while i < self.entries.len()
            invariant
                entries == self@,
                entries.len() == self.entries.len(),
                forall|j: int|
                    0 <= j < entries.len() ==> entries[j] == self.entries@[j].deep_view(),
                i <= self.entries.len(),
                lookup_spec(entries, name@) == lookup_spec(entries.skip(i as int), name@),
            decreases self.entries.len() - i,
        {
            proof {
                assert(entries.skip(i as int).first() == entries[i as int]);
            }
            if crate::json_model::str_eq(self.entries[i].descriptor.name.as_str(), name) {
                return Some(self.entries[i].handler);
            }
            proof {
                assert(entries.skip(i as int).drop_first() =~= entries.skip(i as int + 1));
            }
            i += 1;
        }
        proof {
            assert(entries.skip(self.entries.len() as int) =~= Seq::<ToolEntrySpec>::empty());
        }
        None
    }

    /// The wire form of the registry: the executable form of
    /// `descriptors_json`, always present as an array, possibly empty.
    pub fn tools_json(&self) -> (r: JsonVal)
        ensures
            r@ == JsonSpec::Arr(descriptors_json(self@)),
    {
        let mut arr: Vec<JsonVal> = Vec::new();
        let mut i: usize = 0;
        while i < self.entries.len()
            invariant
                i <= self.entries.len(),
                arr.len() == i,
                self@.len() == self.entries.len(),
                forall|j: int| 0 <= j < i ==> arr[j]@ == descriptor_json(self@[j].descriptor),
            decreases self.entries.len() - i,
        {
            proof {
                assert(self@[i as int] == self.entries@[i as int].deep_view());
            }
            let entry = descriptor_to_json(&self.entries[i].descriptor);
            arr.push(entry);
            i += 1;
        }
        let r = JsonVal::Arr(arr);
        proof {
            assert forall|j: int| 0 <= j < arr@.len() implies json_view_vec(arr)[j]
                == descriptors_json(self@)[j] by {
                assert(json_view_vec(arr)[j] == arr@[j]@);
            }
            assert(json_view_vec(arr) =~= descriptors_json(self@));
        }
        r
    }

    /// Executes a batch of tool calls strictly in emitted order.
    ///
    /// Every name is looked up before anything runs: an undeclared name is
    /// an `UnknownToolError` and no handler is invoked. Each `sh` call runs
    /// through the collaborator and hands back stdout, a newline, stderr;
    /// each `say` call hands its message back verbatim. The batch yields
    /// control exactly when some call was answered by `say`; a batch of
    /// `say` calls with well-formed arguments always succeeds.
    pub fn dispatch<R: ShellRunner>(&self, runner: &mut R, calls: &Vec<ToolCall>) -> (r: Result<
        (Vec<ToolCallResult>, bool),
        AgentError,
    >)
        ensures
            r matches Err(e) ==> (e@ matches AgentErrorSpec::UnknownToolError(n)
                ==> first_unknown(self@, calls.deep_view()) == Some(n)),
            first_unknown(self@, calls.deep_view()) matches Some(n) ==> r matches Err(e) && e@
                == AgentErrorSpec::UnknownToolError(n),
            r matches Err(e) ==> e@ is UnknownToolError || e@ is ToolExecutionError,
            r matches Ok(p) ==> ({
                let cv = calls.deep_view();
                let res = p.0.deep_view();
                &&& res.len() == cv.len()
                &&& forall|j: int| 0 <= j < cv.len() ==> #[trigger] res[j].name == cv[j].name
                &&& forall|j: int|
                    0 <= j < cv.len() && lookup_spec(self@, #[trigger] cv[j].name) == Some(
                        HandlerKind::Say,
                    ) ==> (str_arg(cv[j].arguments, "message"@) matches Some(msg) && res[j].result
                        == msg)
                &&& forall|j: int|
                    0 <= j < cv.len() && lookup_spec(self@, #[trigger] cv[j].name) == Some(
                        HandlerKind::Sh,
                    ) ==> str_arg(cv[j].arguments, "command"@) is Some && is_sh_text(res[j].result)
                &&& p.1 == exists|j: int|
                    0 <= j < cv.len() && lookup_spec(self@, #[trigger] cv[j].name) == Some(
                        HandlerKind::Say,
                    )
            }),
            (forall|j: int|
                0 <= j < calls.deep_view().len() ==> lookup_spec(
                    self@,
                    (#[trigger] calls.deep_view()[j]).name,
                ) == Some(HandlerKind::Say) && str_arg(calls.deep_view()[j].arguments, "message"@)
                    is Some) ==> r is Ok,
    {
        let ghost cv = calls.deep_view();
        let ghost rv = self@;
        proof {
            assert(cv.skip(0) =~= cv);
        }
        let mut i: usize = 0;
        while i < calls.len()
            invariant
                cv == calls.deep_view(),
                rv == self@,
                cv.len() == calls.len(),
                forall|j: int| 0 <= j < cv.len() ==> cv[j] == calls@[j].deep_view(),
                i <= calls.len(),
                first_unknown(rv, cv) == first_unknown(rv, cv.skip(i as int)),
            decreases calls.len() - i,
        {
            proof {
                assert(cv.skip(i as int).first() == cv[i as int]);
            }
            if self.lookup(calls[i].name.as_str()).is_none() {
                return Err(AgentError::UnknownToolError(calls[i].name.clone()));
            }
            proof {
                assert(cv.skip(i as int).drop_first() =~= cv.skip(i as int + 1));
            }
            i += 1;
        }
        proof {
            assert(cv.skip(calls.len() as int) =~= Seq::<ToolCallSpec>::empty());
            lemma_first_unknown_all(rv, cv);
        }
        let mut results: Vec<ToolCallResult> = Vec::new();
        let mut yields_control = false;
        let mut i: usize = 0;
        while i < calls.len()
            invariant
                cv == calls.deep_view(),
                rv == self@,
                cv.len() == calls.len(),
                forall|j: int| 0 <= j < cv.len() ==> cv[j] == calls@[j].deep_view(),
                forall|j: int|
                    0 <= j < cv.len() ==> lookup_spec(rv, #[trigger] cv[j].name) is Some,
                first_unknown(rv, cv) is None,
                i <= calls.len(),
                results.len() == i,
                forall|j: int|
                    0 <= j < i ==> #[trigger] results.deep_view()[j].name == cv[j].name,
                forall|j: int|
                    0 <= j < i && lookup_spec(rv, #[trigger] cv[j].name) == Some(HandlerKind::Say)
                        ==> (str_arg(cv[j].arguments, "message"@) matches Some(msg)
                        && results.deep_view()[j].result == msg),
                forall|j: int|
                    0 <= j < i && lookup_spec(rv, #[trigger] cv[j].name) == Some(HandlerKind::Sh)
                        ==> str_arg(cv[j].arguments, "command"@) is Some && is_sh_text(
                        results.deep_view()[j].result,
                    ),
                yields_control == exists|j: int|
                    0 <= j < i && lookup_spec(rv, #[trigger] cv[j].name) == Some(HandlerKind::Say),
            decreases calls.len() - i,
        {
            let kind = match self.lookup(calls[i].name.as_str()) {
                Some(k) => k,
                None => {
                    proof {
                        assert(lookup_spec(rv, cv[i as int].name) is Some);
                    }
                    return Err(AgentError::ToolExecutionError("tool vanished".to_owned()));
                },
            };
            match kind {
                HandlerKind::Sh => {
                    let command = match arg_string(&calls[i].arguments, "command") {
                        Some(c) => c,
                        None => {
                            return Err(
                                AgentError::ToolExecutionError("command not found".to_owned()),
                            );
                        },
                    };
                    let out = match runner.run_sh(command.as_str()) {
                        Ok(o) => o,
                        Err(e) => {
                            return Err(AgentError::ToolExecutionError(e));
                        },
                    };
                    let text = sh_result_text(&out);
                    proof {
                        assert(text@ == out.stdout@ + "\n"@ + out.stderr@);
                        assert(is_sh_text(text@));
                    }
                    let entry = ToolCallResult { name: calls[i].name.clone(), result: text };
                    let ghost entry_g = entry;
                    let ghost old_results = results;
                    results.push(entry);
                    proof {
                        crate::json_model::lemma_push_deep_view(old_results, entry_g, results);
                    }
                },
                HandlerKind::Say => {
                    let message = match arg_string(&calls[i].arguments, "message") {
                        Some(m) => m,
                        None => {
                            return Err(
                                AgentError::ToolExecutionError("message not found".to_owned()),
                            );
                        },
                    };
                    let entry = ToolCallResult { name: calls[i].name.clone(), result: message };
                    let ghost entry_g = entry;
                    let ghost old_results = results;
                    results.push(entry);
                    proof {
                        crate::json_model::lemma_push_deep_view(old_results, entry_g, results);
                    }
                    yields_control = true;
                },
            }
            i += 1;
        }
        Ok((results, yields_control))
    }
}

} // verus!
