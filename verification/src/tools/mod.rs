//! Tool calls requested by the language model: what a call asks for, and the
//! answer that goes back to the model once the tool has run.

pub mod bash;
pub mod read;

use vstd::prelude::*;
use crate::text::text_equals;

verus! {

/// The function that a tool call names, with its arguments as JSON text.
#[derive(Debug)]
pub struct Function {
    pub name: String,
    pub arguments: String,
}

/// A tool call as the language model sends it.
#[derive(Debug)]
pub struct ToolCall {
    pub id: String,
    /// The kind of call; the model sends `"function"`.
    pub call_type: String,
    pub function: Function,
}

/// The mathematical form of a [`ToolCall`].
pub struct ToolCallSpec {
    pub id: Seq<char>,
    pub call_type: Seq<char>,
    pub name: Seq<char>,
    pub arguments: Seq<char>,
}

impl View for ToolCall {
    type V = ToolCallSpec;

    open spec fn view(&self) -> ToolCallSpec {
        ToolCallSpec {
            id: self.id@,
            call_type: self.call_type@,
            name: self.function.name@,
            arguments: self.function.arguments@,
        }
    }
}

/// The answer to one tool call.
#[derive(Debug)]
pub struct ToolCallResponse {
    pub id: String,
    pub content: String,
}

/// A tool call that could not be handled.
#[derive(Debug, Clone, Copy, PartialEq, Eq, Structural)]
pub struct ToolError;

/// What a tool call asks to have done.
#[derive(Debug)]
pub enum ToolRequest {
    /// Read the file at `file_path`.
    Read { file_path: String },
    /// Write `content` to the file at `file_path`.
    Write { file_path: String, content: String },
    /// Run `command` in a shell.
    Bash { command: String },
}

/// The mathematical form of a [`ToolRequest`].
pub enum ToolRequestSpec {
    Read { file_path: Seq<char> },
    Write { file_path: Seq<char>, content: Seq<char> },
    Bash { command: Seq<char> },
}

impl View for ToolRequest {
    type V = ToolRequestSpec;

    open spec fn view(&self) -> ToolRequestSpec {
        match self {
            ToolRequest::Read { file_path } => ToolRequestSpec::Read { file_path: file_path@ },
            ToolRequest::Write { file_path, content } => ToolRequestSpec::Write {
                file_path: file_path@,
                content: content@,
            },
            ToolRequest::Bash { command } => ToolRequestSpec::Bash { command: command@ },
        }
    }
}

impl Clone for Function {
    fn clone(&self) -> (copy: Self)
        ensures
            copy == *self,
    {
        Function { name: self.name.clone(), arguments: self.arguments.clone() }
    }
}

impl Clone for ToolCall {
    fn clone(&self) -> (copy: Self)
        ensures
            copy == *self,
    {
        ToolCall {
            id: self.id.clone(),
            call_type: self.call_type.clone(),
            function: self.function.clone(),
        }
    }
}

impl ToolError {
    /// The text that describes the error.
    pub fn message(&self) -> (text: String)
        ensures
            text@ == "The tool call could not be handled."@,
    {
        String::from_str("The tool call could not be handled.")
    }
}

/// The string member `key` of the JSON text `text`, as serde_json reads it:
/// `None` when the text is not JSON, `Some(None)` when the parsed value has no
/// member `key` that is a JSON string, and `Some(Some(s))` when it has one.
pub uninterp spec fn json_string_member(text: Seq<char>, key: Seq<char>) -> Option<Option<Seq<char>>>;

/// The view of an optional string.
pub open spec fn opt_text(s: Option<String>) -> Option<Seq<char>> {
    match s {
        Some(t) => Some(t@),
        None => None,
    }
}

/// Parses `text` with `serde_json::from_str` into a `serde_json::Value`, then
/// reads `value[key].as_str()`. The contract claims that the outcome is the
/// named result [`json_string_member`] of the text and the key, which depends on
/// them alone; nothing more of JSON parsing is stated.
#[verifier::external_body]
fn read_json_string_member(text: &str, key: &str) -> (member: Option<Option<String>>)
    ensures
        match member {
            Some(found) => json_string_member(text@, key@) == Some(opt_text(found)),
            None => json_string_member(text@, key@) is None,
        },
{
    match serde_json::from_str::<serde_json::Value>(text) {
        Ok(value) => Some(value[key].as_str().map(String::from)),
        Err(_) => None,
    }
}

/// The text of an optional member, the empty text where it is absent.
pub open spec fn text_or_empty(member: Option<Seq<char>>) -> Seq<char> {
    match member {
        Some(t) => t,
        None => Seq::empty(),
    }
}

/// The string member `key` of the arguments `args`, the empty text where the
/// arguments hold no such string member; `None` when `args` is not JSON.
pub open spec fn argument_text(args: Seq<char>, key: Seq<char>) -> Option<Seq<char>> {
    match json_string_member(args, key) {
        Some(member) => Some(text_or_empty(member)),
        None => None,
    }
}

/// What a call of the tool `name` with the JSON arguments `args` asks for:
/// `None` when the name is none of `Read`, `Write` and `Bash`, or when the
/// arguments are not JSON.
pub open spec fn requested_tool(name: Seq<char>, args: Seq<char>) -> Option<ToolRequestSpec> {
    if name == "Read"@ {
        match argument_text(args, "file_path"@) {
            Some(file_path) => Some(ToolRequestSpec::Read { file_path }),
            None => None,
        }
    } else if name == "Write"@ {
        match (argument_text(args, "file_path"@), argument_text(args, "content"@)) {
            (Some(file_path), Some(content)) => Some(ToolRequestSpec::Write { file_path, content }),
            _ => None,
        }
    } else if name == "Bash"@ {
        match argument_text(args, "command"@) {
            Some(command) => Some(ToolRequestSpec::Bash { command }),
            None => None,
        }
    } else {
        None
    }
}

/// The string argument `key` of `args`, or the empty string where there is
/// none; `None` when `args` is not JSON.
fn argument(args: &str, key: &str) -> (value: Option<String>)
    ensures
        opt_text(value) == argument_text(args@, key@),
{
    match read_json_string_member(args, key) {
        Some(Some(text)) => Some(text),
        Some(None) => Some(String::new()),
        None => None,
    }
}

/// A call of any tool but `Read`, `Write` and `Bash` is refused, whatever its
/// arguments.
pub proof fn law_unknown_tool_is_refused(name: Seq<char>, args: Seq<char>)
    requires
        name != "Read"@,
        name != "Write"@,
        name != "Bash"@,
    ensures
        requested_tool(name, args) is None,
{
}

/// A read reads exactly the path that the arguments hold as their string
/// member `file_path`, unchanged.
pub proof fn law_read_keeps_the_path(args: Seq<char>, path: Seq<char>)
    requires
        json_string_member(args, "file_path"@) == Some(Some(path)),
    ensures
        requested_tool("Read"@, args) == Some(ToolRequestSpec::Read { file_path: path }),
{
}

/// A write writes exactly the text that the arguments hold as their string
/// member `content` (a final newline included) to exactly the path they hold
/// as `file_path`.
pub proof fn law_write_keeps_path_and_content(args: Seq<char>, path: Seq<char>, content: Seq<char>)
    requires
        json_string_member(args, "file_path"@) == Some(Some(path)),
        json_string_member(args, "content"@) == Some(Some(content)),
    ensures
        requested_tool("Write"@, args) == Some(ToolRequestSpec::Write { file_path: path, content }),
{
    reveal_strlit("Read");
    reveal_strlit("Write");
    assert("Write"@[0] != "Read"@[0]);
}

/// A command runs exactly the text that the arguments hold as their string
/// member `command`, unchanged.
pub proof fn law_bash_keeps_the_command(args: Seq<char>, command: Seq<char>)
    requires
        json_string_member(args, "command"@) == Some(Some(command)),
    ensures
        requested_tool("Bash"@, args) == Some(ToolRequestSpec::Bash { command }),
{
    reveal_strlit("Read");
    reveal_strlit("Write");
    reveal_strlit("Bash");
    assert("Bash"@[0] != "Read"@[0]);
    assert("Bash"@[0] != "Write"@[0]);
}

/// Where the JSON arguments hold no string member `key` that a tool needs, the
/// tool gets the empty text for it: a read of the empty path, a write of
/// empty content, an empty command.
pub proof fn law_missing_argument_is_empty(args: Seq<char>, path: Seq<char>)
    ensures
        json_string_member(args, "file_path"@) == Some(None::<Seq<char>>) ==> requested_tool("Read"@, args)
            == Some(ToolRequestSpec::Read { file_path: Seq::empty() }),
        json_string_member(args, "file_path"@) == Some(Some(path)) && json_string_member(args, "content"@)
            == Some(None::<Seq<char>>) ==> requested_tool("Write"@, args) == Some(
            ToolRequestSpec::Write { file_path: path, content: Seq::empty() },
        ),
        json_string_member(args, "command"@) == Some(None::<Seq<char>>) ==> requested_tool("Bash"@, args)
            == Some(ToolRequestSpec::Bash { command: Seq::empty() }),
{
    reveal_strlit("Read");
    reveal_strlit("Write");
    reveal_strlit("Bash");
    assert("Write"@[0] != "Read"@[0]);
    assert("Bash"@[0] != "Read"@[0]);
    assert("Bash"@[0] != "Write"@[0]);
}

/// Arguments that are not JSON make every tool call an error.
pub proof fn law_arguments_must_be_json(name: Seq<char>, args: Seq<char>)
    requires
        json_string_member(args, "file_path"@) is None,
        json_string_member(args, "command"@) is None,
    ensures
        requested_tool(name, args) is None,
{
}

/// Reads what `tool_call` asks to have done: the tool it names and the
/// arguments that tool takes. A call of a tool other than `Read`, `Write` and
/// `Bash`, or one whose arguments are not JSON, is an error.
pub fn plan_tool_call(tool_call: &ToolCall) -> (request: Result<ToolRequest, ToolError>)
    ensures
        match request {
            Ok(r) => requested_tool(tool_call.function.name@, tool_call.function.arguments@)
                == Some(r@),
            Err(_) => requested_tool(tool_call.function.name@, tool_call.function.arguments@)
                is None,
        },
{
    let name = &tool_call.function.name;
    let args = tool_call.function.arguments.as_str();
    if text_equals(name, "Read") {
        match argument(args, "file_path") {
            Some(file_path) => Ok(ToolRequest::Read { file_path }),
            None => Err(ToolError),
        }
    } else if text_equals(name, "Write") {
        let file_path = argument(args, "file_path");
        let content = argument(args, "content");
        match (file_path, content) {
            (Some(file_path), Some(content)) => Ok(ToolRequest::Write { file_path, content }),
            _ => Err(ToolError),
        }
    } else if text_equals(name, "Bash") {
        match argument(args, "command") {
            Some(command) => Ok(ToolRequest::Bash { command }),
            None => Err(ToolError),
        }
    } else {
        Err(ToolError)
    }
}

/// The content of the answer to `request` once the tool has produced `output`:
/// a write is answered with the content it wrote, a read and a command with
/// their output.
pub open spec fn answer_content(request: ToolRequestSpec, output: Seq<char>) -> Seq<char> {
    match request {
        ToolRequestSpec::Write { content, .. } => content,
        _ => output,
    }
}

/// A read and a command are answered with exactly what the tool produced (the
/// file's text, the command's output); only a write is answered with the
/// content that it wrote.
pub proof fn law_answer_is_the_tool_output(
    file_path: Seq<char>,
    command: Seq<char>,
    content: Seq<char>,
    output: Seq<char>,
)
    ensures
        answer_content(ToolRequestSpec::Read { file_path }, output) == output,
        answer_content(ToolRequestSpec::Bash { command }, output) == output,
        answer_content(ToolRequestSpec::Write { file_path, content }, output) == content,
{
}

/// The answer to `tool_call`, which asked for `request`, once the tool has run:
/// `outcome` is the tool's output (ignored for a write), or `Err` where the
/// tool failed, which makes the whole call an error.
pub fn complete_tool_call(
    tool_call: &ToolCall,
    request: &ToolRequest,
    outcome: Result<String, ()>,
) -> (response: Result<ToolCallResponse, ToolError>)
    ensures
        match outcome {
            Ok(output) => response matches Ok(answer) && answer.id@ == tool_call.id@
                && answer.content@ == answer_content(request@, output@),
            Err(_) => response is Err,
        },
        outcome is Ok && !(request is Write) ==> (response matches Ok(answer)
            && answer.content@ == outcome->Ok_0@),
        outcome is Ok && request is Write ==> (response matches Ok(answer)
            && answer.content@ == request->content@),
{
    match outcome {
        Ok(output) => {
            let content = match request {
                ToolRequest::Write { content, .. } => content.clone(),
                _ => output,
            };
            Ok(ToolCallResponse { id: tool_call.id.clone(), content })
        },
        Err(_) => Err(ToolError),
    }
}

} // verus!
