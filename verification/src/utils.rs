use vstd::prelude::*;

verus! {

/// True when the two bit masks share at least one set bit.
#[allow(non_snake_case)]
pub fn binaryBoolAnd(left: u8, right: u8) -> (r: bool)
    ensures
        r == ((left & right) != 0),
{
    if left & right == 0 {
        false
    } else {
        true
    }
}

} // verus!
