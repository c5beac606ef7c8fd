//! Settings of the thermal analysis.

use vstd::prelude::*;

verus! {

/// The value a flag takes when a saved state does not hold it.
pub fn default_true() -> (r: bool)
    ensures
        r,
{
    true
}

} // verus!
