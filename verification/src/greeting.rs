//! The greeting command: a pure, deterministic formatter that embeds a name
//! in a fixed sentence template.

use vstd::prelude::*;

verus! {

/// The fixed sentence template: a fixed prefix, the name, a fixed suffix.
pub open spec fn greeting(name: Seq<char>) -> Seq<char> {
    "Hello, "@ + name + "! You've been greeted from Rust!"@
}

/// Formats the greeting sentence for `name`. No validation, no error
/// condition, no side effect: every input string is accepted.
pub fn greet(name: &str) -> (res: String)
    ensures
        res@ == greeting(name@),
{
    let mut sentence = "Hello, ".to_owned();
    sentence.append(name);
    sentence.append("! You've been greeted from Rust!");
    sentence
}

/// Law: every greeting follows the template and contains the given name as a
/// substring. The name stands exactly at the characters after the prefix;
/// before it stands the prefix, after it the suffix, and nothing else.
pub proof fn lemma_greeting_embeds_name(name: Seq<char>)
    ensures
        greeting(name).len() == name.len() + 39,
        greeting(name).subrange(7, 7 + name.len() as int) == name,
        greeting(name).subrange(0, 7) == "Hello, "@,
        greeting(name).subrange(7 + name.len() as int, name.len() as int + 39) == (
        "! You've been greeted from Rust!"@),
{
    reveal_strlit("Hello, ");
    reveal_strlit("! You've been greeted from Rust!");
    assert(greeting(name).subrange(7, 7 + name.len() as int) =~= name);
    assert(greeting(name).subrange(0, 7) =~= "Hello, "@);
    assert(greeting(name).subrange(7 + name.len() as int, name.len() as int + 39) =~= (
    "! You've been greeted from Rust!"@));
}

} // verus!
