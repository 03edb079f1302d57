use vstd::prelude::*;

verus! {

/// "yes" for true, "no" for false.
pub fn as_answer(value: bool) -> (r: &'static str)
    ensures
        r@ == (if value { "yes"@ } else { "no"@ }),
{
    if value {
        "yes"
    } else {
        "no"
    }
}

/// "enabled" for true, "disabled" for false.
pub fn as_status(value: bool) -> (r: &'static str)
    ensures
        r@ == (if value { "enabled"@ } else { "disabled"@ }),
{
    if value {
        "enabled"
    } else {
        "disabled"
    }
}

} // verus!
