//! The greeting operation: a fixed template with the caller's name
//! substituted verbatim.

use vstd::prelude::*;

verus! {

use vstd::string::StringExecFns;

/// The fixed text that precedes the name in every greeting.
pub open spec fn greeting_prefix() -> Seq<char> {
    "Hello, "@
}

/// The fixed text that follows the name in every greeting.
pub open spec fn greeting_suffix() -> Seq<char> {
    "! You've been greeted from Rust!"@
}

/// The full greeting for a given name: prefix, then the name verbatim,
/// then suffix.
pub open spec fn greeting_of(name: Seq<char>) -> Seq<char> {
    greeting_prefix() + name + greeting_suffix()
}

/// Returns the greeting for `name`: the fixed template with `name`
/// substituted verbatim. Total over all inputs; the result is a function
/// of the input alone, so repeated calls on one input agree.
pub fn greet(name: &str) -> (r: String)
    ensures
        r@ == greeting_of(name@),
{
    let mut out: String = "Hello, ".to_owned();
    out.append(name);
    out.append("! You've been greeted from Rust!");
    out
}

/// Every greeting holds the name as a contiguous substring: it stands
/// directly after the prefix.
pub proof fn lemma_greeting_contains_name(name: Seq<char>)
    ensures
        greeting_of(name).subrange(
            greeting_prefix().len() as int,
            greeting_prefix().len() + name.len() as int,
        ) == name,
{
    assert(greeting_of(name).subrange(
        greeting_prefix().len() as int,
        greeting_prefix().len() + name.len() as int,
    ) =~= name);
}

} // verus!
