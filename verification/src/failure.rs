//! The message with which the shell gives up when the host cannot start.

use vstd::prelude::*;
use vstd::string::*;

verus! {

/// The fixed head of the fatal message.
pub open spec fn fatal_prefix() -> Seq<char> {
    "error while running tauri application: "@
}

/// The fatal message for a failure that the host describes as `description`.
pub open spec fn fatal_text(description: Seq<char>) -> Seq<char> {
    fatal_prefix() + description
}

/// Builds the message of the fatal termination from the host's description
/// of why it could not start.
pub fn fatal_message(description: &str) -> (message: String)
    ensures
        message@ == fatal_text(description@),
{
    let mut message = String::from_str("error while running tauri application: ");
    message.append(description);
    message
}

/// The fatal message is never empty and ends with the host's description.
pub proof fn lemma_fatal_text_carries_description(description: Seq<char>)
    ensures
        fatal_text(description).len() == 39 + description.len(),
        fatal_text(description).len() > 0,
        fatal_text(description).subrange(39, 39 + description.len() as int) == description,
{
    reveal_strlit("error while running tauri application: ");
    assert(fatal_text(description).subrange(39, 39 + description.len() as int) =~= description);
}

} // verus!
