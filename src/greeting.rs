use vstd::prelude::*;

verus! {

/// The text that `greet` returns for `name`.
pub open spec fn greeting_for(name: Seq<char>) -> Seq<char> {
    "Hello, "@ + name + "! You've been greeted from Rust!"@
}

/// Greets `name`.
pub fn greet(name: &str) -> (r: String)
    ensures
        r@ == greeting_for(name@),
{
    let mut text = String::from_str("Hello, ");
    text.append(name);
    text.append("! You've been greeted from Rust!");
    text
}

} // verus!
