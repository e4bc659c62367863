//! Typed import properties, and the native calls that set them.

use vstd::prelude::*;
use crate::config::{Config, config_name, prop2str};
use crate::flags::{FlagBit, fold_flags, mask_of};
use crate::mesh::PrimitiveType;
use crate::types::AiString;

verus! {

/// A property that refines the behaviour of the importer.
///
/// A floating-point setting is carried as the bit pattern of an IEEE-754
/// single-precision number; the native store receives those bits unchanged.
#[allow(non_camel_case_types)]
pub enum Property {
    /// Measures the time that each part of the loading process takes.
    GLOB_MEASURE_TIME(bool),
    /// The largest number of bones per mesh for the split-by-bone-count step.
    PP_SBBC_MAX_BONES(i32),
    /// The largest angle between two vertex tangents that are smoothed together.
    PP_CT_MAX_SMOOTHING_ANGLE(u32),
    /// The source UV channel of the tangent space computation.
    PP_CT_TEXTURE_CHANNEL_INDEX(i32),
    /// The largest angle between two face normals that are smoothed together.
    PP_GSN_MAX_SMOOTHING_ANGLE(u32),
    /// The palette file used to decode the textures embedded in MDL files.
    IMPORT_MDL_COLORMAP(AiString),
    /// The materials that the redundant-material removal keeps.
    PP_RRM_EXCLUDE_LIST(AiString),
    /// Keeps the scene hierarchy when vertices are pre-transformed.
    PP_PTV_KEEP_HIERARCHY(bool),
    /// Normalizes all vertex components into [-1, 1] when vertices are pre-transformed.
    PP_PTV_NORMALIZE(u32),
    /// Removes degenerate primitives at once.
    PP_FD_REMOVE(bool),
    /// The nodes that the graph optimisation keeps.
    PP_OG_EXCLUDE_LIST(AiString),
    /// The largest number of triangles in a mesh.
    PP_SLM_TRIANGLE_LIMIT(i32),
    /// The largest number of vertices in a mesh.
    PP_SLM_VERTEX_LIMIT(i32),
    /// The largest number of bones that affect a single vertex.
    PP_LBW_MAX_WEIGHTS(i32),
    /// The deboning threshold.
    PP_DB_THRESHOLD(u32),
    /// Requires every bone to qualify before any is removed by deboning.
    PP_DB_ALL_OR_NONE(bool),
    /// The size of the post-transform vertex cache to optimise for.
    PP_ICL_PTCACHE_SIZE(i32),
    /// The components that the component removal step takes out.
    PP_RVC_FLAGS(Vec<Component>),
    /// The primitive types that the sort-by-type step removes.
    PP_SBP_REMOVE(Vec<PrimitiveType>),
    /// The accuracy with which invalid animation keys are found.
    PP_FID_ANIM_ACCURACY(u32),
    /// The UV transformations that the UV transform step evaluates.
    PP_TUV_EVALUATE(Vec<TransformUV>),
    /// Favours speed over import quality.
    FAVOUR_SPEED(bool),
    /// The vertex animation keyframe to import, for every loader.
    IMPORT_GLOBAL_KEYFRAME(i32),
    /// The vertex animation keyframe to import from MD3 files.
    IMPORT_MD3_KEYFRAME(i32),
    /// The vertex animation keyframe to import from MD2 files.
    IMPORT_MD2_KEYFRAME(i32),
    /// The vertex animation keyframe to import from MDL files.
    IMPORT_MDL_KEYFRAME(i32),
    /// The vertex animation keyframe to import from MDC files.
    IMPORT_MDC_KEYFRAME(i32),
    /// The vertex animation keyframe to import from SMD files.
    IMPORT_SMD_KEYFRAME(i32),
    /// The vertex animation keyframe to import from Unreal files.
    IMPORT_UNREAL_KEYFRAME(i32),
    /// Collects the AC surfaces with backface culling in separate meshes.
    IMPORT_AC_SEPARATE_BFCULL(bool),
    /// Evaluates AC subdivision surfaces.
    IMPORT_AC_EVAL_SUBDIVISION(bool),
    /// Separates Unreal faces with different surface flags.
    IMPORT_UNREAL_HANDLE_FLAGS(bool),
    /// Computes UV coordinates for Terragen terrains.
    IMPORT_TER_MAKE_UVS(bool),
    /// Always reconstructs the normal vectors of ASE files.
    IMPORT_ASE_RECONSTRUCT_NORMALS(bool),
    /// Detects and joins multi-part MD3 models.
    IMPORT_MD3_HANDLE_MULTIPART(bool),
    /// The MD3 skin files to load.
    IMPORT_MD3_SKIN_NAME(AiString),
    /// The Quake 3 shader file used for MD3 models.
    IMPORT_MD3_SHADER_SRC(AiString),
    /// The one LWO layer to load.
    IMPORT_LWO_ONE_LAYER_ONLY(i32),
    /// Keeps the MD5 loader from loading the MD5ANIM file of a model.
    IMPORT_MD5_NO_ANIM_AUTOLOAD(bool),
    /// The start of the time range that the LWS loader evaluates.
    IMPORT_LWS_ANIM_START(i32),
    /// The end of the time range that the LWS loader evaluates.
    IMPORT_LWS_ANIM_END(i32),
    /// The output frame rate of the IRR loader.
    IMPORT_IRR_ANIM_FPS(i32),
    /// The material file that the Ogre loader reads.
    IMPORT_OGRE_MATERIAL_FILE(AiString),
    /// Lets the Ogre loader tell texture usage from file names.
    IMPORT_OGRE_TEXTURETYPE_FROM_FILENAME(bool),
    /// Skips IfcSpace elements in IFC files.
    IMPORT_IFC_SKIP_SPACE_REPRESENTATIONS(bool),
    /// Skips curve shape representations in IFC files.
    IMPORT_IFC_SKIP_CURVE_REPRESENTATIONS(bool),
    /// Lets the IFC loader triangulate walls and floors itself.
    IMPORT_IFC_CUSTOM_TRIANGULATION(bool),
}

/// The type that the documentation of a property gives its value.
#[derive(Clone, Copy, Debug, PartialEq, Eq, Structural)]
pub enum ValueKind {
    /// A boolean.
    Bool,
    /// A signed integer.
    Int,
    /// A floating-point number.
    Float,
    /// A string.
    Str,
    /// A list of flags, combined by bitwise OR.
    FlagList,
}

/// The key of a property.
pub open spec fn property_config(p: Property) -> Config {
    match p {
        Property::GLOB_MEASURE_TIME(_) => Config::GLOB_MEASURE_TIME,
        Property::PP_SBBC_MAX_BONES(_) => Config::PP_SBBC_MAX_BONES,
        Property::PP_CT_MAX_SMOOTHING_ANGLE(_) => Config::PP_CT_MAX_SMOOTHING_ANGLE,
        Property::PP_CT_TEXTURE_CHANNEL_INDEX(_) => Config::PP_CT_TEXTURE_CHANNEL_INDEX,
        Property::PP_GSN_MAX_SMOOTHING_ANGLE(_) => Config::PP_GSN_MAX_SMOOTHING_ANGLE,
        Property::IMPORT_MDL_COLORMAP(_) => Config::IMPORT_MDL_COLORMAP,
        Property::PP_RRM_EXCLUDE_LIST(_) => Config::PP_RRM_EXCLUDE_LIST,
        Property::PP_PTV_KEEP_HIERARCHY(_) => Config::PP_PTV_KEEP_HIERARCHY,
        Property::PP_PTV_NORMALIZE(_) => Config::PP_PTV_NORMALIZE,
        Property::PP_FD_REMOVE(_) => Config::PP_FD_REMOVE,
        Property::PP_OG_EXCLUDE_LIST(_) => Config::PP_OG_EXCLUDE_LIST,
        Property::PP_SLM_TRIANGLE_LIMIT(_) => Config::PP_SLM_TRIANGLE_LIMIT,
        Property::PP_SLM_VERTEX_LIMIT(_) => Config::PP_SLM_VERTEX_LIMIT,
        Property::PP_LBW_MAX_WEIGHTS(_) => Config::PP_LBW_MAX_WEIGHTS,
        Property::PP_DB_THRESHOLD(_) => Config::PP_DB_THRESHOLD,
        Property::PP_DB_ALL_OR_NONE(_) => Config::PP_DB_ALL_OR_NONE,
        Property::PP_ICL_PTCACHE_SIZE(_) => Config::PP_ICL_PTCACHE_SIZE,
        Property::PP_RVC_FLAGS(_) => Config::PP_RVC_FLAGS,
        Property::PP_SBP_REMOVE(_) => Config::PP_SBP_REMOVE,
        Property::PP_FID_ANIM_ACCURACY(_) => Config::PP_FID_ANIM_ACCURACY,
        Property::PP_TUV_EVALUATE(_) => Config::PP_TUV_EVALUATE,
        Property::FAVOUR_SPEED(_) => Config::FAVOUR_SPEED,
        Property::IMPORT_GLOBAL_KEYFRAME(_) => Config::IMPORT_GLOBAL_KEYFRAME,
        Property::IMPORT_MD3_KEYFRAME(_) => Config::IMPORT_MD3_KEYFRAME,
        Property::IMPORT_MD2_KEYFRAME(_) => Config::IMPORT_MD2_KEYFRAME,
        Property::IMPORT_MDL_KEYFRAME(_) => Config::IMPORT_MDL_KEYFRAME,
        Property::IMPORT_MDC_KEYFRAME(_) => Config::IMPORT_MDC_KEYFRAME,
        Property::IMPORT_SMD_KEYFRAME(_) => Config::IMPORT_SMD_KEYFRAME,
        Property::IMPORT_UNREAL_KEYFRAME(_) => Config::IMPORT_UNREAL_KEYFRAME,
        Property::IMPORT_AC_SEPARATE_BFCULL(_) => Config::IMPORT_AC_SEPARATE_BFCULL,
        Property::IMPORT_AC_EVAL_SUBDIVISION(_) => Config::IMPORT_AC_EVAL_SUBDIVISION,
        Property::IMPORT_UNREAL_HANDLE_FLAGS(_) => Config::IMPORT_UNREAL_HANDLE_FLAGS,
        Property::IMPORT_TER_MAKE_UVS(_) => Config::IMPORT_TER_MAKE_UVS,
        Property::IMPORT_ASE_RECONSTRUCT_NORMALS(_) => Config::IMPORT_ASE_RECONSTRUCT_NORMALS,
        Property::IMPORT_MD3_HANDLE_MULTIPART(_) => Config::IMPORT_MD3_HANDLE_MULTIPART,
        Property::IMPORT_MD3_SKIN_NAME(_) => Config::IMPORT_MD3_SKIN_NAME,
        Property::IMPORT_MD3_SHADER_SRC(_) => Config::IMPORT_MD3_SHADER_SRC,
        Property::IMPORT_LWO_ONE_LAYER_ONLY(_) => Config::IMPORT_LWO_ONE_LAYER_ONLY,
        Property::IMPORT_MD5_NO_ANIM_AUTOLOAD(_) => Config::IMPORT_MD5_NO_ANIM_AUTOLOAD,
        Property::IMPORT_LWS_ANIM_START(_) => Config::IMPORT_LWS_ANIM_START,
        Property::IMPORT_LWS_ANIM_END(_) => Config::IMPORT_LWS_ANIM_END,
        Property::IMPORT_IRR_ANIM_FPS(_) => Config::IMPORT_IRR_ANIM_FPS,
        Property::IMPORT_OGRE_MATERIAL_FILE(_) => Config::IMPORT_OGRE_MATERIAL_FILE,
        Property::IMPORT_OGRE_TEXTURETYPE_FROM_FILENAME(_) => Config::IMPORT_OGRE_TEXTURETYPE_FROM_FILENAME,
        Property::IMPORT_IFC_SKIP_SPACE_REPRESENTATIONS(_) => Config::IMPORT_IFC_SKIP_SPACE_REPRESENTATIONS,
        Property::IMPORT_IFC_SKIP_CURVE_REPRESENTATIONS(_) => Config::IMPORT_IFC_SKIP_CURVE_REPRESENTATIONS,
        Property::IMPORT_IFC_CUSTOM_TRIANGULATION(_) => Config::IMPORT_IFC_CUSTOM_TRIANGULATION,
    }
}

/// The documented type of the value of a property.
pub open spec fn documented_kind(p: Property) -> ValueKind {
    match p {
        Property::GLOB_MEASURE_TIME(_)
        | Property::PP_PTV_KEEP_HIERARCHY(_)
        | Property::PP_FD_REMOVE(_)
        | Property::PP_DB_ALL_OR_NONE(_)
        | Property::FAVOUR_SPEED(_)
        | Property::IMPORT_AC_SEPARATE_BFCULL(_)
        | Property::IMPORT_AC_EVAL_SUBDIVISION(_)
        | Property::IMPORT_UNREAL_HANDLE_FLAGS(_)
        | Property::IMPORT_TER_MAKE_UVS(_)
        | Property::IMPORT_ASE_RECONSTRUCT_NORMALS(_)
        | Property::IMPORT_MD3_HANDLE_MULTIPART(_)
        | Property::IMPORT_MD5_NO_ANIM_AUTOLOAD(_)
        | Property::IMPORT_OGRE_TEXTURETYPE_FROM_FILENAME(_)
        | Property::IMPORT_IFC_SKIP_SPACE_REPRESENTATIONS(_)
        | Property::IMPORT_IFC_SKIP_CURVE_REPRESENTATIONS(_)
        | Property::IMPORT_IFC_CUSTOM_TRIANGULATION(_) => ValueKind::Bool,
        Property::PP_SBBC_MAX_BONES(_)
        | Property::PP_CT_TEXTURE_CHANNEL_INDEX(_)
        | Property::PP_SLM_TRIANGLE_LIMIT(_)
        | Property::PP_SLM_VERTEX_LIMIT(_)
        | Property::PP_LBW_MAX_WEIGHTS(_)
        | Property::PP_ICL_PTCACHE_SIZE(_)
        | Property::IMPORT_GLOBAL_KEYFRAME(_)
        | Property::IMPORT_MD3_KEYFRAME(_)
        | Property::IMPORT_MD2_KEYFRAME(_)
        | Property::IMPORT_MDL_KEYFRAME(_)
        | Property::IMPORT_MDC_KEYFRAME(_)
        | Property::IMPORT_SMD_KEYFRAME(_)
        | Property::IMPORT_UNREAL_KEYFRAME(_)
        | Property::IMPORT_LWO_ONE_LAYER_ONLY(_)
        | Property::IMPORT_LWS_ANIM_START(_)
        | Property::IMPORT_LWS_ANIM_END(_)
        | Property::IMPORT_IRR_ANIM_FPS(_) => ValueKind::Int,
        Property::PP_CT_MAX_SMOOTHING_ANGLE(_)
        | Property::PP_GSN_MAX_SMOOTHING_ANGLE(_)
        | Property::PP_PTV_NORMALIZE(_)
        | Property::PP_DB_THRESHOLD(_)
        | Property::PP_FID_ANIM_ACCURACY(_) => ValueKind::Float,
        Property::IMPORT_MDL_COLORMAP(_)
        | Property::PP_RRM_EXCLUDE_LIST(_)
        | Property::PP_OG_EXCLUDE_LIST(_)
        | Property::IMPORT_MD3_SKIN_NAME(_)
        | Property::IMPORT_MD3_SHADER_SRC(_)
        | Property::IMPORT_OGRE_MATERIAL_FILE(_) => ValueKind::Str,
        Property::PP_RVC_FLAGS(_)
        | Property::PP_SBP_REMOVE(_)
        | Property::PP_TUV_EVALUATE(_) => ValueKind::FlagList,
    }
}

/// A value as the native property store takes it.
pub enum PropertyType {
    /// The bit pattern of a single-precision floating-point number.
    PFloat(u32),
    /// A signed integer.
    PInt(i32),
    /// A boolean.
    PBool(bool),
    /// A string.
    PStr(AiString),
}

/// The value that a property hands to the native store.
///
/// A list of flags is folded into one integer by bitwise OR.
pub open spec fn decomposed_value(p: Property) -> PropertyType {
    match p {
        Property::GLOB_MEASURE_TIME(a)
        | Property::PP_PTV_KEEP_HIERARCHY(a)
        | Property::PP_FD_REMOVE(a)
        | Property::PP_DB_ALL_OR_NONE(a)
        | Property::FAVOUR_SPEED(a)
        | Property::IMPORT_AC_SEPARATE_BFCULL(a)
        | Property::IMPORT_AC_EVAL_SUBDIVISION(a)
        | Property::IMPORT_UNREAL_HANDLE_FLAGS(a)
        | Property::IMPORT_TER_MAKE_UVS(a)
        | Property::IMPORT_ASE_RECONSTRUCT_NORMALS(a)
        | Property::IMPORT_MD3_HANDLE_MULTIPART(a)
        | Property::IMPORT_MD5_NO_ANIM_AUTOLOAD(a)
        | Property::IMPORT_OGRE_TEXTURETYPE_FROM_FILENAME(a)
        | Property::IMPORT_IFC_SKIP_SPACE_REPRESENTATIONS(a)
        | Property::IMPORT_IFC_SKIP_CURVE_REPRESENTATIONS(a)
        | Property::IMPORT_IFC_CUSTOM_TRIANGULATION(a) => PropertyType::PBool(a),
        Property::PP_SBBC_MAX_BONES(a)
        | Property::PP_CT_TEXTURE_CHANNEL_INDEX(a)
        | Property::PP_SLM_TRIANGLE_LIMIT(a)
        | Property::PP_SLM_VERTEX_LIMIT(a)
        | Property::PP_LBW_MAX_WEIGHTS(a)
        | Property::PP_ICL_PTCACHE_SIZE(a)
        | Property::IMPORT_GLOBAL_KEYFRAME(a)
        | Property::IMPORT_MD3_KEYFRAME(a)
        | Property::IMPORT_MD2_KEYFRAME(a)
        | Property::IMPORT_MDL_KEYFRAME(a)
        | Property::IMPORT_MDC_KEYFRAME(a)
        | Property::IMPORT_SMD_KEYFRAME(a)
        | Property::IMPORT_UNREAL_KEYFRAME(a)
        | Property::IMPORT_LWO_ONE_LAYER_ONLY(a)
        | Property::IMPORT_LWS_ANIM_START(a)
        | Property::IMPORT_LWS_ANIM_END(a)
        | Property::IMPORT_IRR_ANIM_FPS(a) => PropertyType::PInt(a),
        Property::PP_CT_MAX_SMOOTHING_ANGLE(a)
        | Property::PP_GSN_MAX_SMOOTHING_ANGLE(a)
        | Property::PP_PTV_NORMALIZE(a)
        | Property::PP_DB_THRESHOLD(a)
        | Property::PP_FID_ANIM_ACCURACY(a) => PropertyType::PFloat(a),
        Property::IMPORT_MDL_COLORMAP(a)
        | Property::PP_RRM_EXCLUDE_LIST(a)
        | Property::PP_OG_EXCLUDE_LIST(a)
        | Property::IMPORT_MD3_SKIN_NAME(a)
        | Property::IMPORT_MD3_SHADER_SRC(a)
        | Property::IMPORT_OGRE_MATERIAL_FILE(a) => PropertyType::PStr(a),
        Property::PP_RVC_FLAGS(list) => PropertyType::PInt(mask_of(list@) as i32),
        Property::PP_SBP_REMOVE(list) => PropertyType::PInt(mask_of(list@) as i32),
        Property::PP_TUV_EVALUATE(list) => PropertyType::PInt(mask_of(list@) as i32),
    }
}

impl Property {
    /// The key of this property.
    pub fn config(&self) -> (r: Config)
        ensures
            r == property_config(*self),
    {
        match self {
            Property::GLOB_MEASURE_TIME(_) => Config::GLOB_MEASURE_TIME,
            Property::PP_SBBC_MAX_BONES(_) => Config::PP_SBBC_MAX_BONES,
            Property::PP_CT_MAX_SMOOTHING_ANGLE(_) => Config::PP_CT_MAX_SMOOTHING_ANGLE,
            Property::PP_CT_TEXTURE_CHANNEL_INDEX(_) => Config::PP_CT_TEXTURE_CHANNEL_INDEX,
            Property::PP_GSN_MAX_SMOOTHING_ANGLE(_) => Config::PP_GSN_MAX_SMOOTHING_ANGLE,
            Property::IMPORT_MDL_COLORMAP(_) => Config::IMPORT_MDL_COLORMAP,
            Property::PP_RRM_EXCLUDE_LIST(_) => Config::PP_RRM_EXCLUDE_LIST,
            Property::PP_PTV_KEEP_HIERARCHY(_) => Config::PP_PTV_KEEP_HIERARCHY,
            Property::PP_PTV_NORMALIZE(_) => Config::PP_PTV_NORMALIZE,
            Property::PP_FD_REMOVE(_) => Config::PP_FD_REMOVE,
            Property::PP_OG_EXCLUDE_LIST(_) => Config::PP_OG_EXCLUDE_LIST,
            Property::PP_SLM_TRIANGLE_LIMIT(_) => Config::PP_SLM_TRIANGLE_LIMIT,
            Property::PP_SLM_VERTEX_LIMIT(_) => Config::PP_SLM_VERTEX_LIMIT,
            Property::PP_LBW_MAX_WEIGHTS(_) => Config::PP_LBW_MAX_WEIGHTS,
            Property::PP_DB_THRESHOLD(_) => Config::PP_DB_THRESHOLD,
            Property::PP_DB_ALL_OR_NONE(_) => Config::PP_DB_ALL_OR_NONE,
            Property::PP_ICL_PTCACHE_SIZE(_) => Config::PP_ICL_PTCACHE_SIZE,
            Property::PP_RVC_FLAGS(_) => Config::PP_RVC_FLAGS,
            Property::PP_SBP_REMOVE(_) => Config::PP_SBP_REMOVE,
            Property::PP_FID_ANIM_ACCURACY(_) => Config::PP_FID_ANIM_ACCURACY,
            Property::PP_TUV_EVALUATE(_) => Config::PP_TUV_EVALUATE,
            Property::FAVOUR_SPEED(_) => Config::FAVOUR_SPEED,
            Property::IMPORT_GLOBAL_KEYFRAME(_) => Config::IMPORT_GLOBAL_KEYFRAME,
            Property::IMPORT_MD3_KEYFRAME(_) => Config::IMPORT_MD3_KEYFRAME,
            Property::IMPORT_MD2_KEYFRAME(_) => Config::IMPORT_MD2_KEYFRAME,
            Property::IMPORT_MDL_KEYFRAME(_) => Config::IMPORT_MDL_KEYFRAME,
            Property::IMPORT_MDC_KEYFRAME(_) => Config::IMPORT_MDC_KEYFRAME,
            Property::IMPORT_SMD_KEYFRAME(_) => Config::IMPORT_SMD_KEYFRAME,
            Property::IMPORT_UNREAL_KEYFRAME(_) => Config::IMPORT_UNREAL_KEYFRAME,
            Property::IMPORT_AC_SEPARATE_BFCULL(_) => Config::IMPORT_AC_SEPARATE_BFCULL,
            Property::IMPORT_AC_EVAL_SUBDIVISION(_) => Config::IMPORT_AC_EVAL_SUBDIVISION,
            Property::IMPORT_UNREAL_HANDLE_FLAGS(_) => Config::IMPORT_UNREAL_HANDLE_FLAGS,
            Property::IMPORT_TER_MAKE_UVS(_) => Config::IMPORT_TER_MAKE_UVS,
            Property::IMPORT_ASE_RECONSTRUCT_NORMALS(_) => Config::IMPORT_ASE_RECONSTRUCT_NORMALS,
            Property::IMPORT_MD3_HANDLE_MULTIPART(_) => Config::IMPORT_MD3_HANDLE_MULTIPART,
            Property::IMPORT_MD3_SKIN_NAME(_) => Config::IMPORT_MD3_SKIN_NAME,
            Property::IMPORT_MD3_SHADER_SRC(_) => Config::IMPORT_MD3_SHADER_SRC,
            Property::IMPORT_LWO_ONE_LAYER_ONLY(_) => Config::IMPORT_LWO_ONE_LAYER_ONLY,
            Property::IMPORT_MD5_NO_ANIM_AUTOLOAD(_) => Config::IMPORT_MD5_NO_ANIM_AUTOLOAD,
            Property::IMPORT_LWS_ANIM_START(_) => Config::IMPORT_LWS_ANIM_START,
            Property::IMPORT_LWS_ANIM_END(_) => Config::IMPORT_LWS_ANIM_END,
            Property::IMPORT_IRR_ANIM_FPS(_) => Config::IMPORT_IRR_ANIM_FPS,
            Property::IMPORT_OGRE_MATERIAL_FILE(_) => Config::IMPORT_OGRE_MATERIAL_FILE,
            Property::IMPORT_OGRE_TEXTURETYPE_FROM_FILENAME(_) => Config::IMPORT_OGRE_TEXTURETYPE_FROM_FILENAME,
            Property::IMPORT_IFC_SKIP_SPACE_REPRESENTATIONS(_) => Config::IMPORT_IFC_SKIP_SPACE_REPRESENTATIONS,
            Property::IMPORT_IFC_SKIP_CURVE_REPRESENTATIONS(_) => Config::IMPORT_IFC_SKIP_CURVE_REPRESENTATIONS,
            Property::IMPORT_IFC_CUSTOM_TRIANGULATION(_) => Config::IMPORT_IFC_CUSTOM_TRIANGULATION,
        }
    }
}

/// Splits a property into the name the native store keeps it under and the
/// value the store receives.
pub fn decompose_property(property: Property) -> (r: (&'static str, PropertyType))
    ensures
        r.0@ == config_name(property_config(property)),
        r.1 == decomposed_value(property),
{
    let name = prop2str(property.config());
    let value = match property {
        Property::GLOB_MEASURE_TIME(a)
        | Property::PP_PTV_KEEP_HIERARCHY(a)
        | Property::PP_FD_REMOVE(a)
        | Property::PP_DB_ALL_OR_NONE(a)
        | Property::FAVOUR_SPEED(a)
        | Property::IMPORT_AC_SEPARATE_BFCULL(a)
        | Property::IMPORT_AC_EVAL_SUBDIVISION(a)
        | Property::IMPORT_UNREAL_HANDLE_FLAGS(a)
        | Property::IMPORT_TER_MAKE_UVS(a)
        | Property::IMPORT_ASE_RECONSTRUCT_NORMALS(a)
        | Property::IMPORT_MD3_HANDLE_MULTIPART(a)
        | Property::IMPORT_MD5_NO_ANIM_AUTOLOAD(a)
        | Property::IMPORT_OGRE_TEXTURETYPE_FROM_FILENAME(a)
        | Property::IMPORT_IFC_SKIP_SPACE_REPRESENTATIONS(a)
        | Property::IMPORT_IFC_SKIP_CURVE_REPRESENTATIONS(a)
        | Property::IMPORT_IFC_CUSTOM_TRIANGULATION(a) => PropertyType::PBool(a),
        Property::PP_SBBC_MAX_BONES(a)
        | Property::PP_CT_TEXTURE_CHANNEL_INDEX(a)
        | Property::PP_SLM_TRIANGLE_LIMIT(a)
        | Property::PP_SLM_VERTEX_LIMIT(a)
        | Property::PP_LBW_MAX_WEIGHTS(a)
        | Property::PP_ICL_PTCACHE_SIZE(a)
        | Property::IMPORT_GLOBAL_KEYFRAME(a)
        | Property::IMPORT_MD3_KEYFRAME(a)
        | Property::IMPORT_MD2_KEYFRAME(a)
        | Property::IMPORT_MDL_KEYFRAME(a)
        | Property::IMPORT_MDC_KEYFRAME(a)
        | Property::IMPORT_SMD_KEYFRAME(a)
        | Property::IMPORT_UNREAL_KEYFRAME(a)
        | Property::IMPORT_LWO_ONE_LAYER_ONLY(a)
        | Property::IMPORT_LWS_ANIM_START(a)
        | Property::IMPORT_LWS_ANIM_END(a)
        | Property::IMPORT_IRR_ANIM_FPS(a) => PropertyType::PInt(a),
        Property::PP_CT_MAX_SMOOTHING_ANGLE(a)
        | Property::PP_GSN_MAX_SMOOTHING_ANGLE(a)
        | Property::PP_PTV_NORMALIZE(a)
        | Property::PP_DB_THRESHOLD(a)
        | Property::PP_FID_ANIM_ACCURACY(a) => PropertyType::PFloat(a),
        Property::IMPORT_MDL_COLORMAP(a)
        | Property::PP_RRM_EXCLUDE_LIST(a)
        | Property::PP_OG_EXCLUDE_LIST(a)
        | Property::IMPORT_MD3_SKIN_NAME(a)
        | Property::IMPORT_MD3_SHADER_SRC(a)
        | Property::IMPORT_OGRE_MATERIAL_FILE(a) => PropertyType::PStr(a),
        Property::PP_RVC_FLAGS(list) => PropertyType::PInt(fold_flags(list.as_slice()) as i32),
        Property::PP_SBP_REMOVE(list) => PropertyType::PInt(fold_flags(list.as_slice()) as i32),
        Property::PP_TUV_EVALUATE(list) => PropertyType::PInt(fold_flags(list.as_slice()) as i32),
    };
    (name, value)
}

/// The UV transformations that the UV transform step can evaluate.
#[derive(Clone, Copy, Debug, PartialEq, Eq, Structural)]
pub enum TransformUV {
    /// Scales UV coordinates.
    Scaling,
    /// Rotates UV coordinates.
    Rotation,
    /// Translates UV coordinates.
    Translation,
    /// Scales, rotates and translates.
    All,
}

impl FlagBit for TransformUV {
    open spec fn bits_spec(&self) -> u32 {
        match *self {
            TransformUV::Scaling => 0x1,
            TransformUV::Rotation => 0x2,
            TransformUV::Translation => 0x4,
            TransformUV::All => 0x7,
        }
    }

    fn bits(&self) -> (r: u32) {
        match self {
            TransformUV::Scaling => 0x1,
            TransformUV::Rotation => 0x2,
            TransformUV::Translation => 0x4,
            TransformUV::All => 0x7,
        }
    }
}

/// A part of a scene that the component removal step can take out.
#[derive(Clone, Copy, Debug, PartialEq, Eq, Structural)]
pub enum Component {
    /// Normal vectors.
    Normals,
    /// Tangents and bitangents, which always go together.
    TangentsAndBitangents,
    /// All vertex color sets.
    Colors,
    /// All texture coordinate sets.
    Texcoords,
    /// All bone weights of all meshes.
    Boneweights,
    /// All node animations.
    Animations,
    /// All embedded textures.
    Textures,
    /// All light sources.
    Lights,
    /// All cameras.
    Cameras,
    /// All meshes.
    Meshes,
    /// All materials; one default material is generated.
    Materials,
}

impl FlagBit for Component {
    open spec fn bits_spec(&self) -> u32 {
        match *self {
            Component::Normals => 0x2,
            Component::TangentsAndBitangents => 0x4,
            Component::Colors => 0x8,
            Component::Texcoords => 0x10,
            Component::Boneweights => 0x20,
            Component::Animations => 0x40,
            Component::Textures => 0x80,
            Component::Lights => 0x100,
            Component::Cameras => 0x200,
            Component::Meshes => 0x400,
            Component::Materials => 0x800,
        }
    }

    fn bits(&self) -> (r: u32) {
        match self {
            Component::Normals => 0x2,
            Component::TangentsAndBitangents => 0x4,
            Component::Colors => 0x8,
            Component::Texcoords => 0x10,
            Component::Boneweights => 0x20,
            Component::Animations => 0x40,
            Component::Textures => 0x80,
            Component::Lights => 0x100,
            Component::Cameras => 0x200,
            Component::Meshes => 0x400,
            Component::Materials => 0x800,
        }
    }
}


/// A value as one of the three native set-property calls takes it.
pub enum NativeValue {
    /// For the integer setter.
    Integer(i32),
    /// For the floating-point setter: the bit pattern of the number.
    Float(u32),
    /// For the string setter.
    String(AiString),
}

/// One of the three native set-property calls.
#[derive(Clone, Copy, Debug, PartialEq, Eq, Structural)]
pub enum NativeSetter {
    /// The integer setter.
    Integer,
    /// The floating-point setter.
    Float,
    /// The string setter.
    String,
}

/// The native set-property call that sets one property.
pub struct PropertyCall {
    /// The name the native store keeps the property under.
    pub name: &'static str,
    /// The value, in the form its setter takes.
    pub value: NativeValue,
}

/// The form in which a native setter receives a value: a boolean as the
/// integer 1 or 0.
pub open spec fn native_value_of(v: PropertyType) -> NativeValue {
    match v {
        PropertyType::PFloat(bits) => NativeValue::Float(bits),
        PropertyType::PInt(i) => NativeValue::Integer(i),
        PropertyType::PBool(b) => NativeValue::Integer(if b { 1i32 } else { 0i32 }),
        PropertyType::PStr(s) => NativeValue::String(s),
    }
}

/// The setter that receives a native value.
pub open spec fn setter_of(v: NativeValue) -> NativeSetter {
    match v {
        NativeValue::Integer(_) => NativeSetter::Integer,
        NativeValue::Float(_) => NativeSetter::Float,
        NativeValue::String(_) => NativeSetter::String,
    }
}

/// The setter that a value of a documented type belongs to.
pub open spec fn documented_setter(kind: ValueKind) -> NativeSetter {
    match kind {
        ValueKind::Bool | ValueKind::Int | ValueKind::FlagList => NativeSetter::Integer,
        ValueKind::Float => NativeSetter::Float,
        ValueKind::Str => NativeSetter::String,
    }
}

impl NativeValue {
    /// The setter that receives this value.
    pub fn setter(&self) -> (r: NativeSetter)
        ensures
            r == setter_of(*self),
    {
        match self {
            NativeValue::Integer(_) => NativeSetter::Integer,
            NativeValue::Float(_) => NativeSetter::Float,
            NativeValue::String(_) => NativeSetter::String,
        }
    }
}

/// The form in which a native setter receives a value.
pub fn to_native_value(value: PropertyType) -> (r: NativeValue)
    ensures
        r == native_value_of(value),
{
    match value {
        PropertyType::PFloat(bits) => NativeValue::Float(bits),
        PropertyType::PInt(i) => NativeValue::Integer(i),
        PropertyType::PBool(b) => NativeValue::Integer(if b { 1 } else { 0 }),
        PropertyType::PStr(s) => NativeValue::String(s),
    }
}

/// The native call that sets a property.
pub fn property_call(property: Property) -> (r: PropertyCall)
    ensures
        r.name@ == config_name(property_config(property)),
        r.value == native_value_of(decomposed_value(property)),
{
    let (name, value) = decompose_property(property);
    PropertyCall { name, value: to_native_value(value) }
}

/// Every property reaches the native setter of its documented type: an
/// integer, boolean or flag-list property the integer setter, a
/// floating-point property the floating-point setter, and a string property
/// the string setter.
pub proof fn lemma_setter_matches_documented_type(p: Property)
    ensures
        setter_of(native_value_of(decomposed_value(p))) == documented_setter(documented_kind(p)),
{
}

} // verus!
