//! A component: a part with an inner and an outer diameter and a material.

use vstd::prelude::*;

verus! {

/// Which part of a component is being edited.
#[derive(Clone, Copy, Debug, PartialEq, Eq, Structural)]
pub enum Focus {
    Inner,
    Outer,
    Material,
}

/// A named component. The diameters are of the feature type `F`, which
/// carries the sizes; the material is an index into the library's materials.
pub struct Component<F> {
    pub name: String,
    pub inner_diameter: F,
    pub outer_diameter: F,
    pub material_id: usize,
    pub focus: Focus,
}

} // verus!
