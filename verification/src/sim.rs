//! The data of a radial quadrilateral mesh.

use vstd::prelude::*;

verus! {

/// A mesh node, by its radial and tangential indices.
pub struct RPoint {
    r: usize,
    t: usize,
}

/// A quadrilateral element, by the indices of its four nodes.
pub struct QuadElement {
    p1: usize,
    p2: usize,
    p3: usize,
    p4: usize,
}

/// A mesh of nodes and quadrilateral elements.
pub struct RQuadMesh {
    points: Vec<RPoint>,
    elements: Vec<QuadElement>,
}

} // verus!
