//! The `Bash` tool: which commands may run, and the text that a finished
//! command answers with.

use vstd::prelude::*;
use crate::text::{chars_of, contains_text, decimal_text, integer_text};

verus! {

/// The text with which a command that holds `rm` is refused.
pub open spec fn refusal_text() -> Seq<char> {
    "Command contains 'rm' and is not allowed to run."@
}

/// Refuses any command that holds the text `rm` anywhere, before it runs; lets
/// every other command run.
pub fn screen_command(command: &str) -> (verdict: Result<(), String>)
    ensures
        verdict is Ok <==> !contains_text(command@, "rm"@),
        verdict matches Err(reason) ==> reason@ == refusal_text(),
{
    let chars = chars_of(command);
    let n = chars.len();
    proof {
        reveal_strlit("rm");
    }
    let mut i: usize = 0;
    while n > 0 && i < n - 1
        invariant
            chars@ == command@,
            n == chars.len(),
            "rm"@ == seq!['r', 'm'],
            forall|j: int|
                0 <= j < i && j + 2 <= n ==> #[trigger] command@.subrange(j, j + 2) != "rm"@,
        decreases n - i,
    {
        if chars[i] == 'r' && chars[i + 1] == 'm' {
            assert(command@.subrange(i as int, i + 2) =~= "rm"@);
            return Err(String::from_str("Command contains 'rm' and is not allowed to run."));
        }
        assert(command@.subrange(i as int, i + 2)[0] == chars@[i as int]);
        assert(command@.subrange(i as int, i + 2)[1] == chars@[i + 1]);
        i = i + 1;
    }
    Ok(())
}

/// The text that a command that failed answers with: its exit code (`-1` where
/// it has none), then its standard error and its standard output, each on a
/// line of its own where it is not empty.
pub open spec fn failure_text(exit_code: Option<i32>, stdout: Seq<char>, stderr: Seq<char>) -> Seq<char> {
    let code = match exit_code {
        Some(c) => c as int,
        None => -1,
    };
    let head = "Command failed with exit code "@ + decimal_text(code);
    let with_err = if stderr.len() == 0 { head } else { head + "\n"@ + stderr };
    if stdout.len() == 0 { with_err } else { with_err + "\n"@ + stdout }
}

/// The text of a failed command starts with its exit code (`-1` where it has
/// none), and ends with its whole standard output where that is not empty, or
/// else with its whole standard error where that is not empty.
pub proof fn law_failure_text_keeps_the_outputs(exit_code: Option<i32>, stdout: Seq<char>, stderr: Seq<char>)
    ensures
        failure_text(exit_code, stdout, stderr).take(("Command failed with exit code "@ + decimal_text(
            match exit_code { Some(c) => c as int, None => -1 },
        )).len() as int) == "Command failed with exit code "@ + decimal_text(
            match exit_code { Some(c) => c as int, None => -1 },
        ),
        stdout.len() > 0 ==> failure_text(exit_code, stdout, stderr).skip(
            failure_text(exit_code, stdout, stderr).len() - stdout.len(),
        ) == stdout,
        stdout.len() == 0 && stderr.len() > 0 ==> failure_text(exit_code, stdout, stderr).skip(
            failure_text(exit_code, stdout, stderr).len() - stderr.len(),
        ) == stderr,
        stdout.len() == 0 && stderr.len() == 0 ==> failure_text(exit_code, stdout, stderr)
            == "Command failed with exit code "@ + decimal_text(
            match exit_code { Some(c) => c as int, None => -1 },
        ),
{
    let code = match exit_code { Some(c) => c as int, None => -1 };
    let head = "Command failed with exit code "@ + decimal_text(code);
    let with_err = if stderr.len() == 0 { head } else { head + "\n"@ + stderr };
    let all = failure_text(exit_code, stdout, stderr);
    assert(with_err.take(head.len() as int) =~= head);
    assert(all.take(head.len() as int) =~= head);
    if stdout.len() > 0 {
        assert(all.skip(all.len() - stdout.len()) =~= stdout);
    } else if stderr.len() > 0 {
        assert(all.skip(all.len() - stderr.len()) =~= stderr);
    }
}

/// The result of a command that ran: its standard output where it succeeded,
/// else the failure text built from its exit code and both outputs.
pub fn command_outcome(success: bool, exit_code: Option<i32>, stdout: String, stderr: String) -> (outcome: Result<String, String>)
    ensures
        success ==> (outcome matches Ok(out) && out@ == stdout@),
        !success ==> (outcome matches Err(text) && text@ == failure_text(exit_code, stdout@, stderr@)),
{
    if success {
        return Ok(stdout);
    }
    let code: i32 = match exit_code {
        Some(c) => c,
        None => -1,
    };
    let mut text = String::from_str("Command failed with exit code ");
    let code_text = integer_text(code);
    text.append(code_text.as_str());
    if !stderr.as_str().is_empty() {
        text.append("\n");
        text.append(stderr.as_str());
    }
    if !stdout.as_str().is_empty() {
        text.append("\n");
        text.append(stdout.as_str());
    }
    Err(text)
}

} // verus!
