//! The `Read` tool.

use vstd::prelude::*;
use crate::text::contains_text;

verus! {

/// The text that the `Read` tool answers with when no file exists at `file_path`.
pub open spec fn missing_file_text(file_path: Seq<char>) -> Seq<char> {
    "The requested file at "@ + file_path + " does not exist."@
}

/// The answer to a read where no file exists names the path that was asked
/// for, whole.
pub proof fn law_missing_file_names_the_path(file_path: Seq<char>)
    ensures
        contains_text(missing_file_text(file_path), file_path),
{
    let k = "The requested file at "@.len() as int;
    assert(missing_file_text(file_path).subrange(k, k + file_path.len()) =~= file_path);
}

/// The answer to a read of `file_path` where no file exists.
pub fn missing_file_message(file_path: &str) -> (message: String)
    ensures
        message@ == missing_file_text(file_path@),
{
    let message = String::from_str("The requested file at ");
    let message = message.concat(file_path);
    message.concat(" does not exist.")
}

} // verus!
