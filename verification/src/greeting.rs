//! The two handlers. Both are total and pure: the text they return depends on
//! nothing but their argument.

use vstd::prelude::*;

verus! {

/// The text served at the root path.
pub open spec fn index_text() -> Seq<char> {
    "Hello, world!"@
}

/// The text served for a captured name: the name between `Hello, ` and `!`,
/// character for character.
pub open spec fn hello_text(name: Seq<char>) -> Seq<char> {
    "Hello, "@ + name + "!"@
}

/// Returns the fixed greeting.
pub fn index() -> (body: &'static str)
    ensures
        body@ == index_text(),
{
    "Hello, world!"
}

/// Returns the greeting for `name`. Nothing in `name` is checked, escaped or
/// trimmed.
pub fn hello(name: &str) -> (body: String)
    ensures
        body@ == hello_text(name@),
{
    let mut body = String::from_str("Hello, ");
    body.append(name);
    body.append("!");
    body
}

} // verus!
