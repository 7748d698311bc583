//! Building blocks for generating plotting scripts: parametric surface
//! meshes (plane, hemisphere, superquadric, sphere) and the textual
//! buffer utilities that serialize arrays into script statements.

pub mod scalar;
pub mod scatter;
pub mod surface_geometry;
pub mod util;

use vstd::prelude::*;

verus! {

/// The error type used across the library: a static message describing
/// which input was invalid.
pub type StrError = &'static str;

} // verus!
