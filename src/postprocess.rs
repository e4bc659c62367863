//! Post-processing steps that the native library can run on a scene.

use vstd::prelude::*;
use crate::flags::FlagBit;

verus! {

/// A post-processing step, applied during or after an import.
#[derive(Clone, Copy, Debug, PartialEq, Eq, Structural)]
pub enum Process {
    /// Computes the tangents and bitangents of the imported meshes.
    CalcTangentSpace,
    /// Identifies and joins identical vertex data sets within all meshes.
    JoinIdenticalVertices,
    /// Converts all the imported data to a left-handed coordinate space.
    MakeLeftHanded,
    /// Triangulates all faces of all meshes.
    Triangulate,
    /// Removes some parts of the data structure (see `Component`).
    RemoveComponent,
    /// Generates normals for all faces of all meshes.
    GenNormals,
    /// Generates smooth normals for all vertices in the mesh.
    GenSmoothNormals,
    /// Splits large meshes into smaller sub-meshes.
    SplitLargeMeshes,
    /// Removes the node graph and pre-transforms all vertices.
    PreTransformVertices,
    /// Limits the number of bones simultaneously affecting a single vertex.
    LimitBoneWeights,
    /// Validates the imported scene data structure.
    ValidateDataStructure,
    /// Reorders triangles for better vertex cache locality.
    ImproveCacheLocality,
    /// Searches for redundant or unreferenced materials and removes them.
    RemoveRedundantMaterials,
    /// Tries to determine which meshes have normal vectors facing inwards.
    FixInfacingNormals,
    /// Splits meshes with more than one primitive type in homogeneous sub-meshes.
    SortByPType,
    /// Searches all meshes for degenerate primitives.
    FindDegenerates,
    /// Searches all meshes for invalid data, such as zeroed normal vectors.
    FindInvalidData,
    /// Converts non-UV mappings to proper texture coordinate channels.
    GenUVCoords,
    /// Applies per-texture UV transformations and bakes them into coordinates.
    TransformUVCoords,
    /// Searches for duplicate meshes and replaces them with references.
    FindInstances,
    /// Reduces the number of meshes.
    OptimizeMeshes,
    /// Optimizes the scene hierarchy.
    OptimizeGraph,
    /// Flips all UV coordinates along the y-axis.
    FlipUVs,
    /// Adjusts the output face winding order to be clockwise.
    FlipWindingOrder,
    /// Splits meshes with many bones into sub-meshes.
    SplitByBoneCount,
    /// Removes bones losslessly or according to a threshold.
    Debone,
}

/// The native flag of a post-processing step.
pub open spec fn process_flag(p: Process) -> u32 {
    match p {
        Process::CalcTangentSpace => 0x1,
        Process::JoinIdenticalVertices => 0x2,
        Process::MakeLeftHanded => 0x4,
        Process::Triangulate => 0x8,
        Process::RemoveComponent => 0x10,
        Process::GenNormals => 0x20,
        Process::GenSmoothNormals => 0x40,
        Process::SplitLargeMeshes => 0x80,
        Process::PreTransformVertices => 0x100,
        Process::LimitBoneWeights => 0x200,
        Process::ValidateDataStructure => 0x400,
        Process::ImproveCacheLocality => 0x800,
        Process::RemoveRedundantMaterials => 0x1000,
        Process::FixInfacingNormals => 0x2000,
        Process::SortByPType => 0x8000,
        Process::FindDegenerates => 0x10000,
        Process::FindInvalidData => 0x20000,
        Process::GenUVCoords => 0x40000,
        Process::TransformUVCoords => 0x80000,
        Process::FindInstances => 0x100000,
        Process::OptimizeMeshes => 0x200000,
        Process::OptimizeGraph => 0x400000,
        Process::FlipUVs => 0x800000,
        Process::FlipWindingOrder => 0x1000000,
        Process::SplitByBoneCount => 0x2000000,
        Process::Debone => 0x4000000,
    }
}

impl FlagBit for Process {
    open spec fn bits_spec(&self) -> u32 {
        process_flag(*self)
    }

    fn bits(&self) -> (r: u32) {
        match self {
            Process::CalcTangentSpace => 0x1,
            Process::JoinIdenticalVertices => 0x2,
            Process::MakeLeftHanded => 0x4,
            Process::Triangulate => 0x8,
            Process::RemoveComponent => 0x10,
            Process::GenNormals => 0x20,
            Process::GenSmoothNormals => 0x40,
            Process::SplitLargeMeshes => 0x80,
            Process::PreTransformVertices => 0x100,
            Process::LimitBoneWeights => 0x200,
            Process::ValidateDataStructure => 0x400,
            Process::ImproveCacheLocality => 0x800,
            Process::RemoveRedundantMaterials => 0x1000,
            Process::FixInfacingNormals => 0x2000,
            Process::SortByPType => 0x8000,
            Process::FindDegenerates => 0x10000,
            Process::FindInvalidData => 0x20000,
            Process::GenUVCoords => 0x40000,
            Process::TransformUVCoords => 0x80000,
            Process::FindInstances => 0x100000,
            Process::OptimizeMeshes => 0x200000,
            Process::OptimizeGraph => 0x400000,
            Process::FlipUVs => 0x800000,
            Process::FlipWindingOrder => 0x1000000,
            Process::SplitByBoneCount => 0x2000000,
            Process::Debone => 0x4000000,
        }
    }
}

} // verus!
