//! User settings.

use vstd::prelude::*;

verus! {

/// Display settings.
#[derive(Clone, Copy, Debug, PartialEq, Eq, Structural)]
pub struct Settings {
    pub trailing_zeros: bool,
}

impl Settings {
    pub fn default() -> (r: Self)
        ensures
            !r.trailing_zeros,
    {
        Self { trailing_zeros: false }
    }
}

} // verus!
