//! The ways in which a scene can be unusable.

use vstd::prelude::*;

verus! {

/// Why a scene was refused, or why a ray could not be shaded.
#[derive(Clone, Copy, PartialEq, Eq, Structural, Debug)]
pub enum SceneError {
    /// A sphere without a positive radius, or a vector too short to be
    /// given a direction.
    DegenerateGeometry,
    /// A viewport or window without a positive size, or a light of negative
    /// intensity.
    InvalidConfiguration,
}

} // verus!
