//! A small greeting library.
//!
//! Its one command handler, [`greet`], takes a caller-supplied name and
//! returns the text `"Hello, {name}!"`. The handler is total and pure: it
//! accepts any name, the empty string included, touches no state, and its
//! result is pinned, character for character, by [`greeting`].

use vstd::prelude::*;
use vstd::string::StringExecFns;

verus! {

/// The characters of the greeting for `name`: `"Hello, "`, then the name
/// itself, then `"!"`.
pub open spec fn greeting(name: Seq<char>) -> Seq<char> {
    "Hello, "@ + name + "!"@
}

/// Command handler: returns the greeting for `name`, `"Hello, {name}!"`.
///
/// Accepts any name, the empty string included; always succeeds and has no
/// side effect.
pub fn greet(name: &str) -> (r: String)
    ensures
        r@ == greeting(name@),
{
    let mut r: String = "Hello, ".to_owned();
    r.append(name);
    r.append("!");
    r
}

/// The handler is pure: the greeting is a function of the name alone, so any
/// two results returned for the same name have the same characters.
pub proof fn lemma_greet_deterministic(name: Seq<char>, r1: Seq<char>, r2: Seq<char>)
    requires
        r1 == greeting(name),
        r2 == greeting(name),
    ensures
        r1 == r2,
{
}

} // verus!
