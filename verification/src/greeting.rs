use vstd::prelude::*;
use vstd::string::StringExecFns;

verus! {

/// The greeting for `name`: a fixed opening, the name as given, a fixed close.
pub open spec fn greeting(name: Seq<char>) -> Seq<char> {
    "Hello, "@ + name + "! You've been greeted from Rust!"@
}

/// Greets `name`. Nothing in the name is trimmed, escaped or checked.
pub fn greet(name: &str) -> (text: String)
    ensures
        text@ == greeting(name@),
{
    let mut text = String::from_str("Hello, ");
    text.append(name);
    text.append("! You've been greeted from Rust!");
    text
}

} // verus!
