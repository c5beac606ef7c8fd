//! A named material of the library.

use vstd::prelude::*;

verus! {

/// A named material whose physical properties are of type `P`.
pub struct Material<P> {
    pub name: String,
    pub properties: P,
}

} // verus!
