//! Kinds of textures, shading and blending that materials use.

use vstd::prelude::*;
use crate::types::AiString;

verus! {

/// How a texture is combined with the one before it in its stack.
#[allow(non_camel_case_types)]
#[derive(Clone, Copy, Debug, PartialEq, Eq, Structural)]
pub enum TextureOp {
    /// T = T1 * T2.
    TextureOp_Multiply,
    /// T = T1 + T2.
    TextureOp_Add,
    /// T = T1 - T2.
    TextureOp_Subtract,
    /// T = T1 / T2.
    TextureOp_Divide,
    /// T = (T1 + T2) - (T1 * T2).
    TextureOp_SmoothAdd,
    /// T = T1 + (T2 - 0.5).
    TextureOp_SignedAdd,
}

impl TextureOp {
    /// The native code of this value.
    pub open spec fn spec_code(&self) -> u32 {
        match *self {
            TextureOp::TextureOp_Multiply => 0x0,
            TextureOp::TextureOp_Add => 0x1,
            TextureOp::TextureOp_Subtract => 0x2,
            TextureOp::TextureOp_Divide => 0x3,
            TextureOp::TextureOp_SmoothAdd => 0x4,
            TextureOp::TextureOp_SignedAdd => 0x5,
        }
    }

    /// The native code of this value.
    pub fn code(&self) -> (r: u32)
        ensures
            r == self.spec_code(),
    {
        match self {
            TextureOp::TextureOp_Multiply => 0x0,
            TextureOp::TextureOp_Add => 0x1,
            TextureOp::TextureOp_Subtract => 0x2,
            TextureOp::TextureOp_Divide => 0x3,
            TextureOp::TextureOp_SmoothAdd => 0x4,
            TextureOp::TextureOp_SignedAdd => 0x5,
        }
    }
}

/// How texture coordinates outside [0, 1] are handled.
#[allow(non_camel_case_types)]
#[derive(Clone, Copy, Debug, PartialEq, Eq, Structural)]
pub enum TextureMapMode {
    /// A coordinate u is taken as u % 1.
    TextureMapMode_Wrap,
    /// A coordinate is clamped to the nearest valid value.
    TextureMapMode_Clamp,
    /// The texture is not applied outside [0, 1].
    TextureMapMode_Decal,
    /// The texture is mirrored at every integer boundary.
    TextureMapMode_Mirror,
}

impl TextureMapMode {
    /// The native code of this value.
    pub open spec fn spec_code(&self) -> u32 {
        match *self {
            TextureMapMode::TextureMapMode_Wrap => 0x0,
            TextureMapMode::TextureMapMode_Clamp => 0x1,
            TextureMapMode::TextureMapMode_Decal => 0x3,
            TextureMapMode::TextureMapMode_Mirror => 0x2,
        }
    }

    /// The native code of this value.
    pub fn code(&self) -> (r: u32)
        ensures
            r == self.spec_code(),
    {
        match self {
            TextureMapMode::TextureMapMode_Wrap => 0x0,
            TextureMapMode::TextureMapMode_Clamp => 0x1,
            TextureMapMode::TextureMapMode_Decal => 0x3,
            TextureMapMode::TextureMapMode_Mirror => 0x2,
        }
    }
}

/// How the texture coordinates of a texture are generated.
#[allow(non_camel_case_types)]
#[derive(Clone, Copy, Debug, PartialEq, Eq, Structural)]
pub enum TextureMapping {
    /// The coordinates are taken from a UV channel.
    TextureMapping_UV,
    /// Spherical mapping.
    TextureMapping_SPHERE,
    /// Cylindrical mapping.
    TextureMapping_CYLINDER,
    /// Cubic mapping.
    TextureMapping_BOX,
    /// Planar mapping.
    TextureMapping_PLANE,
    /// Undefined mapping.
    TextureMapping_OTHER,
}

impl TextureMapping {
    /// The native code of this value.
    pub open spec fn spec_code(&self) -> u32 {
        match *self {
            TextureMapping::TextureMapping_UV => 0x0,
            TextureMapping::TextureMapping_SPHERE => 0x1,
            TextureMapping::TextureMapping_CYLINDER => 0x2,
            TextureMapping::TextureMapping_BOX => 0x3,
            TextureMapping::TextureMapping_PLANE => 0x4,
            TextureMapping::TextureMapping_OTHER => 0x5,
        }
    }

    /// The native code of this value.
    pub fn code(&self) -> (r: u32)
        ensures
            r == self.spec_code(),
    {
        match self {
            TextureMapping::TextureMapping_UV => 0x0,
            TextureMapping::TextureMapping_SPHERE => 0x1,
            TextureMapping::TextureMapping_CYLINDER => 0x2,
            TextureMapping::TextureMapping_BOX => 0x3,
            TextureMapping::TextureMapping_PLANE => 0x4,
            TextureMapping::TextureMapping_OTHER => 0x5,
        }
    }
}

/// The purpose of a texture.
#[allow(non_camel_case_types)]
#[derive(Clone, Copy, Debug, PartialEq, Eq, Structural)]
pub enum TextureType {
    /// No texture: the semantic of material properties not related to textures.
    TextureType_NONE,
    /// Combined with the result of the diffuse lighting equation.
    TextureType_DIFFUSE,
    /// Combined with the result of the specular lighting equation.
    TextureType_SPECULAR,
    /// Combined with the result of the ambient lighting equation.
    TextureType_AMBIENT,
    /// Added to the result of the lighting calculation.
    TextureType_EMISSIVE,
    /// A height map.
    TextureType_HEIGHT,
    /// A tangent-space normal map.
    TextureType_NORMALS,
    /// The glossiness of the material.
    TextureType_SHININESS,
    /// Per-pixel opacity.
    TextureType_OPACITY,
    /// A displacement texture.
    TextureType_DISPLACEMENT,
    /// A light map, or ambient occlusion map.
    TextureType_LIGHTMAP,
    /// The color of a perfect mirror reflection.
    TextureType_REFLECTION,
    /// A texture of none of the other purposes.
    TextureType_UNKNOWN,
}

impl TextureType {
    /// The native code of this value.
    pub open spec fn spec_code(&self) -> u32 {
        match *self {
            TextureType::TextureType_NONE => 0x0,
            TextureType::TextureType_DIFFUSE => 0x1,
            TextureType::TextureType_SPECULAR => 0x2,
            TextureType::TextureType_AMBIENT => 0x3,
            TextureType::TextureType_EMISSIVE => 0x4,
            TextureType::TextureType_HEIGHT => 0x5,
            TextureType::TextureType_NORMALS => 0x6,
            TextureType::TextureType_SHININESS => 0x7,
            TextureType::TextureType_OPACITY => 0x8,
            TextureType::TextureType_DISPLACEMENT => 0x9,
            TextureType::TextureType_LIGHTMAP => 0xa,
            TextureType::TextureType_REFLECTION => 0xb,
            TextureType::TextureType_UNKNOWN => 0xc,
        }
    }

    /// The native code of this value.
    pub fn code(&self) -> (r: u32)
        ensures
            r == self.spec_code(),
    {
        match self {
            TextureType::TextureType_NONE => 0x0,
            TextureType::TextureType_DIFFUSE => 0x1,
            TextureType::TextureType_SPECULAR => 0x2,
            TextureType::TextureType_AMBIENT => 0x3,
            TextureType::TextureType_EMISSIVE => 0x4,
            TextureType::TextureType_HEIGHT => 0x5,
            TextureType::TextureType_NORMALS => 0x6,
            TextureType::TextureType_SHININESS => 0x7,
            TextureType::TextureType_OPACITY => 0x8,
            TextureType::TextureType_DISPLACEMENT => 0x9,
            TextureType::TextureType_LIGHTMAP => 0xa,
            TextureType::TextureType_REFLECTION => 0xb,
            TextureType::TextureType_UNKNOWN => 0xc,
        }
    }
}

/// The shading model of a material.
#[allow(non_camel_case_types)]
#[derive(Clone, Copy, Debug, PartialEq, Eq, Structural)]
pub enum ShadingMode {
    /// Flat shading, per face.
    ShadingMode_Flat,
    /// Simple Gouraud shading.
    ShadingMode_Gouraud,
    /// Phong shading.
    ShadingMode_Phong,
    /// Phong-Blinn shading.
    ShadingMode_Blinn,
    /// Toon shading, per pixel.
    ShadingMode_Toon,
    /// Oren-Nayar shading, per pixel.
    ShadingMode_OrenNayar,
    /// Minnaert shading, per pixel.
    ShadingMode_Minnaert,
    /// Cook-Torrance shading, for metallic surfaces.
    ShadingMode_CookTorrance,
    /// No shading: a constant light influence of 1.
    ShadingMode_NoShading,
    /// Fresnel shading.
    ShadingMode_Fresnel,
}

impl ShadingMode {
    /// The native code of this value.
    pub open spec fn spec_code(&self) -> u32 {
        match *self {
            ShadingMode::ShadingMode_Flat => 0x1,
            ShadingMode::ShadingMode_Gouraud => 0x2,
            ShadingMode::ShadingMode_Phong => 0x3,
            ShadingMode::ShadingMode_Blinn => 0x4,
            ShadingMode::ShadingMode_Toon => 0x5,
            ShadingMode::ShadingMode_OrenNayar => 0x6,
            ShadingMode::ShadingMode_Minnaert => 0x7,
            ShadingMode::ShadingMode_CookTorrance => 0x8,
            ShadingMode::ShadingMode_NoShading => 0x9,
            ShadingMode::ShadingMode_Fresnel => 0xa,
        }
    }

    /// The native code of this value.
    pub fn code(&self) -> (r: u32)
        ensures
            r == self.spec_code(),
    {
        match self {
            ShadingMode::ShadingMode_Flat => 0x1,
            ShadingMode::ShadingMode_Gouraud => 0x2,
            ShadingMode::ShadingMode_Phong => 0x3,
            ShadingMode::ShadingMode_Blinn => 0x4,
            ShadingMode::ShadingMode_Toon => 0x5,
            ShadingMode::ShadingMode_OrenNayar => 0x6,
            ShadingMode::ShadingMode_Minnaert => 0x7,
            ShadingMode::ShadingMode_CookTorrance => 0x8,
            ShadingMode::ShadingMode_NoShading => 0x9,
            ShadingMode::ShadingMode_Fresnel => 0xa,
        }
    }
}

/// Flags of a texture.
#[allow(non_camel_case_types)]
#[derive(Clone, Copy, Debug, PartialEq, Eq, Structural)]
pub enum TextureFlags {
    /// The color values of the texture are inverted.
    TextureFlags_Invert,
    /// The alpha channel of the texture is used.
    TextureFlags_UseAlpha,
    /// The alpha channel of the texture is ignored.
    TextureFlags_IgnoreAlpha,
}

impl TextureFlags {
    /// The native code of this value.
    pub open spec fn spec_code(&self) -> u32 {
        match *self {
            TextureFlags::TextureFlags_Invert => 0x1,
            TextureFlags::TextureFlags_UseAlpha => 0x2,
            TextureFlags::TextureFlags_IgnoreAlpha => 0x4,
        }
    }

    /// The native code of this value.
    pub fn code(&self) -> (r: u32)
        ensures
            r == self.spec_code(),
    {
        match self {
            TextureFlags::TextureFlags_Invert => 0x1,
            TextureFlags::TextureFlags_UseAlpha => 0x2,
            TextureFlags::TextureFlags_IgnoreAlpha => 0x4,
        }
    }
}

/// How the final color of a material is blended with the background.
#[allow(non_camel_case_types)]
#[derive(Clone, Copy, Debug, PartialEq, Eq, Structural)]
pub enum BlendMode {
    /// SourceColor * SourceAlpha + DestColor * (1 - SourceAlpha).
    BlendMode_Default,
    /// SourceColor + DestColor.
    BlendMode_Additive,
}

impl BlendMode {
    /// The native code of this value.
    pub open spec fn spec_code(&self) -> u32 {
        match *self {
            BlendMode::BlendMode_Default => 0x0,
            BlendMode::BlendMode_Additive => 0x1,
        }
    }

    /// The native code of this value.
    pub fn code(&self) -> (r: u32)
        ensures
            r == self.spec_code(),
    {
        match self {
            BlendMode::BlendMode_Default => 0x0,
            BlendMode::BlendMode_Additive => 0x1,
        }
    }
}

/// The type of the contents of a material property.
#[allow(non_camel_case_types)]
#[derive(Clone, Copy, Debug, PartialEq, Eq, Structural)]
pub enum PropertyTypeInfo {
    /// An array of single-precision floats.
    PTI_Float,
    /// A string.
    PTI_String,
    /// An array of 32-bit integers.
    PTI_Integer,
    /// A binary buffer.
    PTI_Buffer,
}

impl PropertyTypeInfo {
    /// The native code of this value.
    pub open spec fn spec_code(&self) -> u32 {
        match *self {
            PropertyTypeInfo::PTI_Float => 0x1,
            PropertyTypeInfo::PTI_String => 0x3,
            PropertyTypeInfo::PTI_Integer => 0x4,
            PropertyTypeInfo::PTI_Buffer => 0x5,
        }
    }

    /// The native code of this value.
    pub fn code(&self) -> (r: u32)
        ensures
            r == self.spec_code(),
    {
        match self {
            PropertyTypeInfo::PTI_Float => 0x1,
            PropertyTypeInfo::PTI_String => 0x3,
            PropertyTypeInfo::PTI_Integer => 0x4,
            PropertyTypeInfo::PTI_Buffer => 0x5,
        }
    }
}

/// A property of a material: a key, the texture it concerns, and raw data.
pub struct MaterialProperty {
    /// The key of the property.
    pub key: AiString,
    /// The texture purpose the property concerns, or 0 for none.
    pub semantic: u32,
    /// The index of the texture the property concerns, or 0.
    pub index: u32,
    /// The size of the data, in bytes.
    pub data_length: u32,
    /// The type of the data.
    pub type_info: PropertyTypeInfo,
    /// The address of the data.
    pub data: usize,
}

/// A material: a list of properties.
#[derive(Clone, Copy, Debug, PartialEq, Eq, Structural)]
pub struct Material {
    /// The address of the array of property pointers.
    pub properties: usize,
    /// The number of properties.
    pub num_properties: u32,
    /// The number of property slots allocated.
    pub num_allocated: u32,
}

} // verus!
