use vstd::prelude::*;
use vstd::string::StringExecFns;

verus! {

/// The greeting text for `name`.
pub open spec fn greeting(name: Seq<char>) -> Seq<char> {
    "Hello, "@ + name + "! You've been greeted from Rust!"@
}

/// Greets `name`.
pub fn greet(name: &str) -> (r: String)
    ensures
        r@ == greeting(name@),
{
    let r = String::from_str("Hello, ").concat(name).concat("! You've been greeted from Rust!");
    r
}

} // verus!
