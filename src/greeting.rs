use vstd::prelude::*;
use vstd::string::StringExecFns;

verus! {

/// The fixed closing phrase of the greeting.
pub open spec fn closing_phrase() -> Seq<char> {
    "! RustのWasmエンジンからの返答です。"@
}

/// The greeting for `name`: `"Hello, " + name + closing_phrase()`.
pub open spec fn greeting_of(name: Seq<char>) -> Seq<char> {
    "Hello, "@ + name + closing_phrase()
}

/// Greets `name`; the result depends on `name` alone.
pub fn greet(name: &str) -> (r: String)
    ensures
        r@ == greeting_of(name@),
{
    let mut r = String::from_str("Hello, ");
    r.append(name);
    r.append("! RustのWasmエンジンからの返答です。");
    r
}

} // verus!
