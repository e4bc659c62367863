//! Light sources.

use vstd::prelude::*;

verus! {

/// The kind of a light source.
#[derive(Clone, Copy, Debug, PartialEq, Eq, Structural)]
pub enum LightSourceType {
    /// An undefined light source.
    UndefinedLight,
    /// A light source infinitely far away, with a direction.
    DirectionalLight,
    /// A light source with a position, shining in all directions.
    PointLight,
    /// A light source with a position, shining in a cone.
    SpotLight,
}

impl LightSourceType {
    /// The native code of this value.
    pub open spec fn spec_code(&self) -> u32 {
        match *self {
            LightSourceType::UndefinedLight => 0x0,
            LightSourceType::DirectionalLight => 0x1,
            LightSourceType::PointLight => 0x2,
            LightSourceType::SpotLight => 0x3,
        }
    }

    /// The native code of this value.
    pub fn code(&self) -> (r: u32)
        ensures
            r == self.spec_code(),
    {
        match self {
            LightSourceType::UndefinedLight => 0x0,
            LightSourceType::DirectionalLight => 0x1,
            LightSourceType::PointLight => 0x2,
            LightSourceType::SpotLight => 0x3,
        }
    }
}

} // verus!
