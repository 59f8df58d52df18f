use vstd::prelude::*;
use vstd::string::*;

verus! {

/// The text that comes before the name in a greeting.
pub open spec fn greeting_prefix() -> Seq<char> {
    "Hello, "@
}

/// The text that comes after the name in a greeting.
pub open spec fn greeting_suffix() -> Seq<char> {
    "! You've been greeted from Rust!"@
}

/// The greeting for `name`, as a sequence of characters.
pub open spec fn greeting_of(name: Seq<char>) -> Seq<char> {
    greeting_prefix() + name + greeting_suffix()
}

/// Builds the greeting for `name`. Every name is accepted, the empty one and
/// one with control characters included, and nothing else is read or changed.
pub fn greet(name: &str) -> (r: String)
    ensures
        r@ == greeting_of(name@),
{
    proof {
        reveal_strlit("Hello, ");
        reveal_strlit("! You've been greeted from Rust!");
    }
    let mut r = String::from_str("Hello, ");
    r.append(name);
    r.append("! You've been greeted from Rust!");
    r
}

/// A greeting depends on the name alone: calls with equal names give equal
/// greetings, however often they are made.
pub proof fn lemma_greet_repeatable(a: Seq<char>, b: Seq<char>)
    requires
        a == b,
    ensures
        greeting_of(a) == greeting_of(b),
{
}

} // verus!
