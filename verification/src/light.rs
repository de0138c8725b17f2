//! Light sources.

use crate::scalar::Scalar;
use crate::vector::Vector;
use vstd::prelude::*;

verus! {

/// The three kinds of light.
#[allow(non_camel_case_types)]
#[derive(Clone, Copy, PartialEq, Eq, Structural, Debug)]
pub enum LightType {
    /// Light from everywhere: it reaches every surface alike.
    AMBIENT,
    /// Light from infinitely far away; `position` is the direction it
    /// comes from.
    DIRECTIONAL,
    /// Light from the point `position`.
    POINT,
}

/// A light of some kind and intensity.
#[derive(Clone, Copy, PartialEq, Eq, Structural, Debug)]
pub struct Light {
    pub light_type: LightType,
    pub intensity: Scalar,
    pub position: Vector,
}

impl Light {
    /// The light of the given kind and intensity. An ambient light makes no
    /// use of `position`.
    pub fn new(light_type: LightType, intensity: Scalar, position: Vector) -> (l: Light)
        ensures
            l == (Light { light_type, intensity, position }),
    {
        Light { light_type, intensity, position }
    }

    /// The kind of light.
    pub fn get_type(&self) -> (t: &LightType)
        ensures
            *t == self.light_type,
    {
        &self.light_type
    }

    /// The intensity.
    pub fn get_intensity(&self) -> (i: Scalar)
        ensures
            i == self.intensity,
    {
        self.intensity
    }

    /// Where a point light stands, or where a directional light comes from.
    pub fn get_position(&self) -> (p: Vector)
        ensures
            p == self.position,
    {
        self.position
    }
}

} // verus!
