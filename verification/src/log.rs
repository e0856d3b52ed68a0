//! Helpers for rendering state in log lines.

use vstd::prelude::*;

verus! {

/// The word used in log lines for a boolean power state.
pub fn pwrst_log(x: bool) -> (r: &'static str)
    ensures
        x ==> r@ == "on"@,
        !x ==> r@ == "off"@,
{
    if x {
        "on"
    } else {
        "off"
    }
}

} // verus!
