//! The `greet` command offered to the web frontend.

use vstd::prelude::*;
use vstd::string::*;

verus! {

/// The text that precedes the name in a greeting.
pub open spec fn greeting_prefix() -> Seq<char> {
    "Hello, "@
}

/// The text that follows the name in a greeting.
pub open spec fn greeting_suffix() -> Seq<char> {
    "! You've been greeted from Rust!"@
}

/// The greeting for `name`: the name stands between the two fixed parts
/// exactly as it was given.
pub open spec fn greeting(name: Seq<char>) -> Seq<char> {
    greeting_prefix() + name + greeting_suffix()
}

/// Greets `name`. The name is neither trimmed, escaped nor bounded in length.
pub fn greet(name: &str) -> (text: String)
    ensures
        text@ == greeting(name@),
{
    let mut text = String::from_str("Hello, ");
    text.append(name);
    text.append("! You've been greeted from Rust!");
    text
}

/// The two fixed parts of a greeting have 7 and 32 characters.
pub proof fn lemma_greeting_parts()
    ensures
        greeting_prefix().len() == 7,
        greeting_suffix().len() == 32,
{
    reveal_strlit("Hello, ");
    reveal_strlit("! You've been greeted from Rust!");
}

/// A greeting is longer than the name by the length of the two fixed parts,
/// and holds the name unchanged right behind the first of them.
pub proof fn lemma_greeting_holds_name(name: Seq<char>)
    ensures
        greeting(name).len() == name.len() + 39,
        greeting(name).subrange(7, 7 + name.len() as int) == name,
        greeting(name).subrange(0, 7) == greeting_prefix(),
        greeting(name).subrange(7 + name.len() as int, 39 + name.len() as int) == greeting_suffix(),
{
    lemma_greeting_parts();
    assert(greeting(name).subrange(7, 7 + name.len() as int) =~= name);
    assert(greeting(name).subrange(0, 7) =~= greeting_prefix());
    assert(greeting(name).subrange(7 + name.len() as int, 39 + name.len() as int) =~= greeting_suffix());
}

/// Two names with the same greeting are the same name.
pub proof fn lemma_greeting_injective(a: Seq<char>, b: Seq<char>)
    requires
        greeting(a) == greeting(b),
    ensures
        a == b,
{
    lemma_greeting_holds_name(a);
    lemma_greeting_holds_name(b);
}

} // verus!
