//! The greeting endpoint.

use vstd::prelude::*;
use vstd::string::StringExecFns;

verus! {

/// `Hello NAME!`, where the name defaults to `World`.
pub open spec fn greeting_spec(name: Option<Seq<char>>) -> Seq<char> {
    "Hello "@ + match name {
        Some(n) => n,
        None => "World"@,
    } + "!"@
}

pub fn greeting(name: Option<&str>) -> (text: String)
    ensures
        text@ == greeting_spec(
            match name {
                Some(n) => Some(n@),
                None => None,
            },
        ),
{
    let name = match name {
        Some(n) => n,
        None => "World",
    };
    "Hello ".to_owned().concat(name).concat("!")
}

} // verus!
