//! The keys of the native import properties.

use vstd::prelude::*;
use crate::flags::FlagBit;

verus! {

/// The key of a native import property.
#[allow(non_camel_case_types)]
#[derive(Clone, Copy, Debug, PartialEq, Eq, Structural)]
pub enum Config {
    /// Measures the time that each part of the loading process takes.
    GLOB_MEASURE_TIME,
    /// The largest number of bones per mesh for the split-by-bone-count step.
    PP_SBBC_MAX_BONES,
    /// The largest angle between two vertex tangents that are smoothed together.
    PP_CT_MAX_SMOOTHING_ANGLE,
    /// The source UV channel of the tangent space computation.
    PP_CT_TEXTURE_CHANNEL_INDEX,
    /// The largest angle between two face normals that are smoothed together.
    PP_GSN_MAX_SMOOTHING_ANGLE,
    /// The palette file used to decode the textures embedded in MDL files.
    IMPORT_MDL_COLORMAP,
    /// The materials that the redundant-material removal keeps.
    PP_RRM_EXCLUDE_LIST,
    /// Keeps the scene hierarchy when vertices are pre-transformed.
    PP_PTV_KEEP_HIERARCHY,
    /// Normalizes all vertex components into [-1, 1] when vertices are pre-transformed.
    PP_PTV_NORMALIZE,
    /// Removes degenerate primitives at once.
    PP_FD_REMOVE,
    /// The nodes that the graph optimisation keeps.
    PP_OG_EXCLUDE_LIST,
    /// The largest number of triangles in a mesh.
    PP_SLM_TRIANGLE_LIMIT,
    /// The largest number of vertices in a mesh.
    PP_SLM_VERTEX_LIMIT,
    /// The largest number of bones that affect a single vertex.
    PP_LBW_MAX_WEIGHTS,
    /// The deboning threshold.
    PP_DB_THRESHOLD,
    /// Requires every bone to qualify before any is removed by deboning.
    PP_DB_ALL_OR_NONE,
    /// The size of the post-transform vertex cache to optimise for.
    PP_ICL_PTCACHE_SIZE,
    /// The components that the component removal step takes out.
    PP_RVC_FLAGS,
    /// The primitive types that the sort-by-type step removes.
    PP_SBP_REMOVE,
    /// The accuracy with which invalid animation keys are found.
    PP_FID_ANIM_ACCURACY,
    /// The UV transformations that the UV transform step evaluates.
    PP_TUV_EVALUATE,
    /// Favours speed over import quality.
    FAVOUR_SPEED,
    /// The vertex animation keyframe to import, for every loader.
    IMPORT_GLOBAL_KEYFRAME,
    /// The vertex animation keyframe to import from MD3 files.
    IMPORT_MD3_KEYFRAME,
    /// The vertex animation keyframe to import from MD2 files.
    IMPORT_MD2_KEYFRAME,
    /// The vertex animation keyframe to import from MDL files.
    IMPORT_MDL_KEYFRAME,
    /// The vertex animation keyframe to import from MDC files.
    IMPORT_MDC_KEYFRAME,
    /// The vertex animation keyframe to import from SMD files.
    IMPORT_SMD_KEYFRAME,
    /// The vertex animation keyframe to import from Unreal files.
    IMPORT_UNREAL_KEYFRAME,
    /// Collects the AC surfaces with backface culling in separate meshes.
    IMPORT_AC_SEPARATE_BFCULL,
    /// Evaluates AC subdivision surfaces.
    IMPORT_AC_EVAL_SUBDIVISION,
    /// Separates Unreal faces with different surface flags.
    IMPORT_UNREAL_HANDLE_FLAGS,
    /// Computes UV coordinates for Terragen terrains.
    IMPORT_TER_MAKE_UVS,
    /// Always reconstructs the normal vectors of ASE files.
    IMPORT_ASE_RECONSTRUCT_NORMALS,
    /// Detects and joins multi-part MD3 models.
    IMPORT_MD3_HANDLE_MULTIPART,
    /// The MD3 skin files to load.
    IMPORT_MD3_SKIN_NAME,
    /// The Quake 3 shader file used for MD3 models.
    IMPORT_MD3_SHADER_SRC,
    /// The one LWO layer to load.
    IMPORT_LWO_ONE_LAYER_ONLY,
    /// Keeps the MD5 loader from loading the MD5ANIM file of a model.
    IMPORT_MD5_NO_ANIM_AUTOLOAD,
    /// The start of the time range that the LWS loader evaluates.
    IMPORT_LWS_ANIM_START,
    /// The end of the time range that the LWS loader evaluates.
    IMPORT_LWS_ANIM_END,
    /// The output frame rate of the IRR loader.
    IMPORT_IRR_ANIM_FPS,
    /// The material file that the Ogre loader reads.
    IMPORT_OGRE_MATERIAL_FILE,
    /// Lets the Ogre loader tell texture usage from file names.
    IMPORT_OGRE_TEXTURETYPE_FROM_FILENAME,
    /// Skips IfcSpace elements in IFC files.
    IMPORT_IFC_SKIP_SPACE_REPRESENTATIONS,
    /// Skips curve shape representations in IFC files.
    IMPORT_IFC_SKIP_CURVE_REPRESENTATIONS,
    /// Lets the IFC loader triangulate walls and floors itself.
    IMPORT_IFC_CUSTOM_TRIANGULATION,
}

/// The name under which the native property store keeps a property.
pub open spec fn config_name(config: Config) -> Seq<char> {
    match config {
        Config::GLOB_MEASURE_TIME => "GLOB_MEASURE_TIME"@,
        Config::PP_SBBC_MAX_BONES => "PP_SBBC_MAX_BONES"@,
        Config::PP_CT_MAX_SMOOTHING_ANGLE => "PP_CT_MAX_SMOOTHING_ANGLE"@,
        Config::PP_CT_TEXTURE_CHANNEL_INDEX => "PP_CT_TEXTURE_CHANNEL_INDEX"@,
        Config::PP_GSN_MAX_SMOOTHING_ANGLE => "PP_GSN_MAX_SMOOTHING_ANGLE"@,
        Config::IMPORT_MDL_COLORMAP => "IMPORT_MDL_COLORMAP"@,
        Config::PP_RRM_EXCLUDE_LIST => "PP_RRM_EXCLUDE_LIST"@,
        Config::PP_PTV_KEEP_HIERARCHY => "PP_PTV_KEEP_HIERARCHY"@,
        Config::PP_PTV_NORMALIZE => "PP_PTV_NORMALIZE"@,
        Config::PP_FD_REMOVE => "PP_FD_REMOVE"@,
        Config::PP_OG_EXCLUDE_LIST => "PP_OG_EXCLUDE_LIST"@,
        Config::PP_SLM_TRIANGLE_LIMIT => "PP_SLM_TRIANGLE_LIMIT"@,
        Config::PP_SLM_VERTEX_LIMIT => "PP_SLM_VERTEX_LIMIT"@,
        Config::PP_LBW_MAX_WEIGHTS => "PP_LBW_MAX_WEIGHTS"@,
        Config::PP_DB_THRESHOLD => "PP_DB_THRESHOLD"@,
        Config::PP_DB_ALL_OR_NONE => "PP_DB_ALL_OR_NONE"@,
        Config::PP_ICL_PTCACHE_SIZE => "PP_ICL_PTCACHE_SIZE"@,
        Config::PP_RVC_FLAGS => "PP_RVC_FLAGS"@,
        Config::PP_SBP_REMOVE => "PP_SBP_REMOVE"@,
        Config::PP_FID_ANIM_ACCURACY => "PP_FID_ANIM_ACCURACY"@,
        Config::PP_TUV_EVALUATE => "PP_TUV_EVALUATE"@,
        Config::FAVOUR_SPEED => "FAVOUR_SPEED"@,
        Config::IMPORT_GLOBAL_KEYFRAME => "IMPORT_GLOBAL_KEYFRAME"@,
        Config::IMPORT_MD3_KEYFRAME => "IMPORT_MD3_KEYFRAME"@,
        Config::IMPORT_MD2_KEYFRAME => "IMPORT_MD2_KEYFRAME"@,
        Config::IMPORT_MDL_KEYFRAME => "IMPORT_MDL_KEYFRAME"@,
        Config::IMPORT_MDC_KEYFRAME => "IMPORT_MDC_KEYFRAME"@,
        Config::IMPORT_SMD_KEYFRAME => "IMPORT_SMD_KEYFRAME"@,
        Config::IMPORT_UNREAL_KEYFRAME => "IMPORT_UNREAL_KEYFRAME"@,
        Config::IMPORT_AC_SEPARATE_BFCULL => "IMPORT_AC_SEPARATE_BFCULL"@,
        Config::IMPORT_AC_EVAL_SUBDIVISION => "IMPORT_AC_EVAL_SUBDIVISION"@,
        Config::IMPORT_UNREAL_HANDLE_FLAGS => "UNREAL_HANDLE_FLAGS"@,
        Config::IMPORT_TER_MAKE_UVS => "IMPORT_TER_MAKE_UVS"@,
        Config::IMPORT_ASE_RECONSTRUCT_NORMALS => "IMPORT_ASE_RECONSTRUCT_NORMALS"@,
        Config::IMPORT_MD3_HANDLE_MULTIPART => "IMPORT_MD3_HANDLE_MULTIPART"@,
        Config::IMPORT_MD3_SKIN_NAME => "IMPORT_MD3_SKIN_NAME"@,
        Config::IMPORT_MD3_SHADER_SRC => "IMPORT_MD3_SHADER_SRC"@,
        Config::IMPORT_LWO_ONE_LAYER_ONLY => "IMPORT_LWO_ONE_LAYER_ONLY"@,
        Config::IMPORT_MD5_NO_ANIM_AUTOLOAD => "IMPORT_MD5_NO_ANIM_AUTOLOAD"@,
        Config::IMPORT_LWS_ANIM_START => "IMPORT_LWS_ANIM_START"@,
        Config::IMPORT_LWS_ANIM_END => "IMPORT_LWS_ANIM_END"@,
        Config::IMPORT_IRR_ANIM_FPS => "IMPORT_IRR_ANIM_FPS"@,
        Config::IMPORT_OGRE_MATERIAL_FILE => "IMPORT_OGRE_MATERIAL_FILE"@,
        Config::IMPORT_OGRE_TEXTURETYPE_FROM_FILENAME => "IMPORT_OGRE_TEXTURETYPE_FROM_FILENAME"@,
        Config::IMPORT_IFC_SKIP_SPACE_REPRESENTATIONS => "IMPORT_IFC_SKIP_SPACE_REPRESENTATIONS"@,
        Config::IMPORT_IFC_SKIP_CURVE_REPRESENTATIONS => "IMPORT_IFC_SKIP_CURVE_REPRESENTATIONS"@,
        Config::IMPORT_IFC_CUSTOM_TRIANGULATION => "IMPORT_IFC_CUSTOM_TRIANGULATION"@,
    }
}

/// The name under which the native property store keeps a property.
pub fn prop2str(config: Config) -> (r: &'static str)
    ensures
        r@ == config_name(config),
{
    match config {
        Config::GLOB_MEASURE_TIME => "GLOB_MEASURE_TIME",
        Config::PP_SBBC_MAX_BONES => "PP_SBBC_MAX_BONES",
        Config::PP_CT_MAX_SMOOTHING_ANGLE => "PP_CT_MAX_SMOOTHING_ANGLE",
        Config::PP_CT_TEXTURE_CHANNEL_INDEX => "PP_CT_TEXTURE_CHANNEL_INDEX",
        Config::PP_GSN_MAX_SMOOTHING_ANGLE => "PP_GSN_MAX_SMOOTHING_ANGLE",
        Config::IMPORT_MDL_COLORMAP => "IMPORT_MDL_COLORMAP",
        Config::PP_RRM_EXCLUDE_LIST => "PP_RRM_EXCLUDE_LIST",
        Config::PP_PTV_KEEP_HIERARCHY => "PP_PTV_KEEP_HIERARCHY",
        Config::PP_PTV_NORMALIZE => "PP_PTV_NORMALIZE",
        Config::PP_FD_REMOVE => "PP_FD_REMOVE",
        Config::PP_OG_EXCLUDE_LIST => "PP_OG_EXCLUDE_LIST",
        Config::PP_SLM_TRIANGLE_LIMIT => "PP_SLM_TRIANGLE_LIMIT",
        Config::PP_SLM_VERTEX_LIMIT => "PP_SLM_VERTEX_LIMIT",
        Config::PP_LBW_MAX_WEIGHTS => "PP_LBW_MAX_WEIGHTS",
        Config::PP_DB_THRESHOLD => "PP_DB_THRESHOLD",
        Config::PP_DB_ALL_OR_NONE => "PP_DB_ALL_OR_NONE",
        Config::PP_ICL_PTCACHE_SIZE => "PP_ICL_PTCACHE_SIZE",
        Config::PP_RVC_FLAGS => "PP_RVC_FLAGS",
        Config::PP_SBP_REMOVE => "PP_SBP_REMOVE",
        Config::PP_FID_ANIM_ACCURACY => "PP_FID_ANIM_ACCURACY",
        Config::PP_TUV_EVALUATE => "PP_TUV_EVALUATE",
        Config::FAVOUR_SPEED => "FAVOUR_SPEED",
        Config::IMPORT_GLOBAL_KEYFRAME => "IMPORT_GLOBAL_KEYFRAME",
        Config::IMPORT_MD3_KEYFRAME => "IMPORT_MD3_KEYFRAME",
        Config::IMPORT_MD2_KEYFRAME => "IMPORT_MD2_KEYFRAME",
        Config::IMPORT_MDL_KEYFRAME => "IMPORT_MDL_KEYFRAME",
        Config::IMPORT_MDC_KEYFRAME => "IMPORT_MDC_KEYFRAME",
        Config::IMPORT_SMD_KEYFRAME => "IMPORT_SMD_KEYFRAME",
        Config::IMPORT_UNREAL_KEYFRAME => "IMPORT_UNREAL_KEYFRAME",
        Config::IMPORT_AC_SEPARATE_BFCULL => "IMPORT_AC_SEPARATE_BFCULL",
        Config::IMPORT_AC_EVAL_SUBDIVISION => "IMPORT_AC_EVAL_SUBDIVISION",
        Config::IMPORT_UNREAL_HANDLE_FLAGS => "UNREAL_HANDLE_FLAGS",
        Config::IMPORT_TER_MAKE_UVS => "IMPORT_TER_MAKE_UVS",
        Config::IMPORT_ASE_RECONSTRUCT_NORMALS => "IMPORT_ASE_RECONSTRUCT_NORMALS",
        Config::IMPORT_MD3_HANDLE_MULTIPART => "IMPORT_MD3_HANDLE_MULTIPART",
        Config::IMPORT_MD3_SKIN_NAME => "IMPORT_MD3_SKIN_NAME",
        Config::IMPORT_MD3_SHADER_SRC => "IMPORT_MD3_SHADER_SRC",
        Config::IMPORT_LWO_ONE_LAYER_ONLY => "IMPORT_LWO_ONE_LAYER_ONLY",
        Config::IMPORT_MD5_NO_ANIM_AUTOLOAD => "IMPORT_MD5_NO_ANIM_AUTOLOAD",
        Config::IMPORT_LWS_ANIM_START => "IMPORT_LWS_ANIM_START",
        Config::IMPORT_LWS_ANIM_END => "IMPORT_LWS_ANIM_END",
        Config::IMPORT_IRR_ANIM_FPS => "IMPORT_IRR_ANIM_FPS",
        Config::IMPORT_OGRE_MATERIAL_FILE => "IMPORT_OGRE_MATERIAL_FILE",
        Config::IMPORT_OGRE_TEXTURETYPE_FROM_FILENAME => "IMPORT_OGRE_TEXTURETYPE_FROM_FILENAME",
        Config::IMPORT_IFC_SKIP_SPACE_REPRESENTATIONS => "IMPORT_IFC_SKIP_SPACE_REPRESENTATIONS",
        Config::IMPORT_IFC_SKIP_CURVE_REPRESENTATIONS => "IMPORT_IFC_SKIP_CURVE_REPRESENTATIONS",
        Config::IMPORT_IFC_CUSTOM_TRIANGULATION => "IMPORT_IFC_CUSTOM_TRIANGULATION",
    }
}

/// A part of a scene that the component removal step can take out.
#[allow(non_camel_case_types)]
#[derive(Clone, Copy, Debug, PartialEq, Eq, Structural)]
pub enum Component {
    /// Normal vectors.
    Component_NORMALS,
    /// Tangents and bitangents, which always go together.
    Component_TANGENTS_AND_BITANGENTS,
    /// All vertex color sets.
    Component_COLORS,
    /// All texture coordinate sets.
    Component_TEXCOORDS,
    /// All bone weights of all meshes.
    Component_BONEWEIGHTS,
    /// All node animations.
    Component_ANIMATIONS,
    /// All embedded textures.
    Component_TEXTURES,
    /// All light sources.
    Component_LIGHTS,
    /// All cameras.
    Component_CAMERAS,
    /// All meshes.
    Component_MESHES,
    /// All materials; one default material is generated.
    Component_MATERIALS,
}

impl FlagBit for Component {
    open spec fn bits_spec(&self) -> u32 {
        match *self {
            Component::Component_NORMALS => 0x2,
            Component::Component_TANGENTS_AND_BITANGENTS => 0x4,
            Component::Component_COLORS => 0x8,
            Component::Component_TEXCOORDS => 0x10,
            Component::Component_BONEWEIGHTS => 0x20,
            Component::Component_ANIMATIONS => 0x40,
            Component::Component_TEXTURES => 0x80,
            Component::Component_LIGHTS => 0x100,
            Component::Component_CAMERAS => 0x200,
            Component::Component_MESHES => 0x400,
            Component::Component_MATERIALS => 0x800,
        }
    }

    fn bits(&self) -> (r: u32) {
        match self {
            Component::Component_NORMALS => 0x2,
            Component::Component_TANGENTS_AND_BITANGENTS => 0x4,
            Component::Component_COLORS => 0x8,
            Component::Component_TEXCOORDS => 0x10,
            Component::Component_BONEWEIGHTS => 0x20,
            Component::Component_ANIMATIONS => 0x40,
            Component::Component_TEXTURES => 0x80,
            Component::Component_LIGHTS => 0x100,
            Component::Component_CAMERAS => 0x200,
            Component::Component_MESHES => 0x400,
            Component::Component_MATERIALS => 0x800,
        }
    }
}

} // verus!
