//! Imported geometry: primitive types, faces, bones and meshes.

use vstd::prelude::*;
use crate::flags::FlagBit;
use crate::types::AiString;
use crate::util::{RawSlice, channel_slices, optional_slice, optional_to_slice, present_channels, ptr_ptr_to_slice, ptr_to_slice, raw_slice};

verus! {

/// The largest number of indices of a face.
pub const MAX_FACE_INDICES: u32 = 0x7fff;

/// The largest number of weights of a bone.
pub const MAX_BONE_WEIGHTS: u32 = 0x7fffffff;

/// The largest number of vertices of a mesh.
pub const MAX_VERTICES: u32 = 0x7fffffff;

/// The largest number of faces of a mesh.
pub const MAX_FACES: u32 = 0x7fffffff;

/// The number of vertex color sets a mesh can have.
pub const MAX_NUMBER_OF_COLOR_SETS: usize = 8;

/// The number of texture coordinate sets a mesh can have.
pub const MAX_NUMBER_OF_TEXTURECOORDS: usize = 8;

/// A kind of geometric primitive.
#[derive(Clone, Copy, Debug, PartialEq, Eq, Structural)]
pub enum PrimitiveType {
    /// A point.
    Point,
    /// A line.
    Line,
    /// A triangle.
    Triangle,
    /// A polygon with more than three edges.
    Polygon,
}

impl FlagBit for PrimitiveType {
    open spec fn bits_spec(&self) -> u32 {
        match *self {
            PrimitiveType::Point => 0x1,
            PrimitiveType::Line => 0x2,
            PrimitiveType::Triangle => 0x4,
            PrimitiveType::Polygon => 0x8,
        }
    }

    fn bits(&self) -> (r: u32) {
        match self {
            PrimitiveType::Point => 0x1,
            PrimitiveType::Line => 0x2,
            PrimitiveType::Triangle => 0x4,
            PrimitiveType::Polygon => 0x8,
        }
    }
}

impl PrimitiveType {
    /// The primitive type of a face with `n` vertices; a face has at least one.
    pub fn get_primitive_type(n: u32) -> (r: PrimitiveType)
        requires
            n != 0,
        ensures
            r == (if n == 1 {
                PrimitiveType::Point
            } else if n == 2 {
                PrimitiveType::Line
            } else if n == 3 {
                PrimitiveType::Triangle
            } else {
                PrimitiveType::Polygon
            }),
    {
        match n {
            1 => PrimitiveType::Point,
            2 => PrimitiveType::Line,
            3 => PrimitiveType::Triangle,
            _ => PrimitiveType::Polygon,
        }
    }
}

/// A face of a mesh: the indices of the vertices it joins.
#[derive(Clone, Copy, Debug, PartialEq, Eq, Structural)]
pub struct Face {
    /// The number of indices of the face.
    pub num_indices: u32,
    /// The address of the array of indices.
    pub indices: usize,
}

impl Face {
    /// The indices of the vertices of this face.
    pub fn get_indices(&self) -> (r: RawSlice)
        ensures
            r == raw_slice(self.indices, self.num_indices),
    {
        ptr_to_slice(self.indices, self.num_indices)
    }
}

/// A bone of a mesh, found in the node hierarchy by its name.
pub struct Bone {
    /// The name of the bone.
    pub name: AiString,
    /// The number of vertices that the bone affects.
    pub num_weights: u32,
    /// The address of the array of vertex weights.
    pub weights: usize,
}

impl Bone {
    /// The weights with which the bone affects vertices.
    pub fn get_weights(&self) -> (r: RawSlice)
        ensures
            r == raw_slice(self.weights, self.num_weights),
    {
        ptr_to_slice(self.weights, self.num_weights)
    }
}

/// Per-vertex replacement data of a mesh for one frame of a vertex animation.
pub struct AnimMesh {
    /// The address of the vertex positions.
    pub vertices: usize,
    /// The address of the vertex normals, or 0.
    pub normals: usize,
    /// The address of the vertex tangents, or 0.
    pub tangents: usize,
    /// The address of the vertex bitangents, or 0.
    pub bitangents: usize,
    /// The addresses of the vertex color sets; 0 past the last one.
    pub colors: [usize; 8],
    /// The addresses of the texture coordinate sets; 0 past the last one.
    pub texture_coords: [usize; 8],
    /// The number of vertices.
    pub num_vertices: u32,
}

impl AnimMesh {
    /// The replacement vertex positions.
    pub fn get_vertices(&self) -> (r: RawSlice)
        ensures
            r == raw_slice(self.vertices, self.num_vertices),
    {
        ptr_to_slice(self.vertices, self.num_vertices)
    }

    /// The replacement vertex normals; empty if absent.
    pub fn get_normals(&self) -> (r: RawSlice)
        ensures
            r == optional_slice(self.normals, self.num_vertices),
    {
        optional_to_slice(self.normals, self.num_vertices)
    }

    /// The replacement vertex tangents; empty if absent.
    pub fn get_tangents(&self) -> (r: RawSlice)
        ensures
            r == optional_slice(self.tangents, self.num_vertices),
    {
        optional_to_slice(self.tangents, self.num_vertices)
    }

    /// The replacement vertex bitangents; empty if absent.
    pub fn get_bitangents(&self) -> (r: RawSlice)
        ensures
            r == optional_slice(self.bitangents, self.num_vertices),
    {
        optional_to_slice(self.bitangents, self.num_vertices)
    }

    /// The replacement vertex color sets, up to the first absent one.
    pub fn get_colors(&self) -> (r: Vec<RawSlice>)
        ensures
            r@.len() == present_channels(self.colors@),
            forall|i: int| 0 <= i < r@.len() ==> r@[i] == raw_slice(self.colors@[i], self.num_vertices),
    {
        channel_slices(self.colors.as_slice(), self.num_vertices)
    }

    /// The replacement texture coordinate sets, up to the first absent one.
    pub fn get_texture_coords(&self) -> (r: Vec<RawSlice>)
        ensures
            r@.len() == present_channels(self.texture_coords@),
            forall|i: int| 0 <= i < r@.len() ==> r@[i] == raw_slice(self.texture_coords@[i], self.num_vertices),
    {
        channel_slices(self.texture_coords.as_slice(), self.num_vertices)
    }
}

/// A mesh: geometry with a single material.
pub struct Mesh {
    /// The primitive types in the mesh: a combination of the bits of
    /// `PrimitiveType`.
    pub primitive_types: u32,
    /// The number of vertices, which is the size of every per-vertex array.
    pub num_vertices: u32,
    /// The number of faces.
    pub num_faces: u32,
    /// The address of the vertex positions.
    pub vertices: usize,
    /// The address of the vertex normals, or 0.
    pub normals: usize,
    /// The address of the vertex tangents, or 0.
    pub tangents: usize,
    /// The address of the vertex bitangents, or 0.
    pub bitangents: usize,
    /// The addresses of the vertex color sets; 0 past the last one.
    pub colors: [usize; 8],
    /// The addresses of the texture coordinate sets; 0 past the last one.
    pub texture_coords: [usize; 8],
    /// The number of components of each texture coordinate set.
    pub num_uv_components: [u32; 8],
    /// The address of the array of faces.
    pub faces: usize,
    /// The number of bones.
    pub num_bones: u32,
    /// The address of the array of bone pointers.
    pub bones: usize,
    /// The index of the mesh's material in the scene.
    pub material_index: u32,
    /// The name of the mesh.
    pub name: AiString,
    /// The number of attached animation meshes.
    pub num_anim_meshes: u32,
    /// The address of the array of animation mesh pointers.
    pub anim_meshes: usize,
}

/// The primitive types whose bits are set in `types`, in the order point,
/// line, triangle, polygon.
pub open spec fn primitive_list_of(types: u32) -> Seq<PrimitiveType> {
    (if types & 0x1 != 0 { seq![PrimitiveType::Point] } else { seq![] })
        + (if types & 0x2 != 0 { seq![PrimitiveType::Line] } else { seq![] })
        + (if types & 0x4 != 0 { seq![PrimitiveType::Triangle] } else { seq![] })
        + (if types & 0x8 != 0 { seq![PrimitiveType::Polygon] } else { seq![] })
}

impl Mesh {
    /// The primitive types the mesh holds, in the order point, line,
    /// triangle, polygon.
    pub fn primitive_list(&self) -> (r: Vec<PrimitiveType>)
        ensures
            r@ == primitive_list_of(self.primitive_types),
    {
        let mut list: Vec<PrimitiveType> = Vec::new();
        if self.has_primitive(PrimitiveType::Point) {
            list.push(PrimitiveType::Point);
        }
        if self.has_primitive(PrimitiveType::Line) {
            list.push(PrimitiveType::Line);
        }
        if self.has_primitive(PrimitiveType::Triangle) {
            list.push(PrimitiveType::Triangle);
        }
        if self.has_primitive(PrimitiveType::Polygon) {
            list.push(PrimitiveType::Polygon);
        }
        proof {
            assert(list@ =~= primitive_list_of(self.primitive_types));
        }
        list
    }

    /// Whether the mesh holds primitives of the given type.
    pub fn has_primitive(&self, prim: PrimitiveType) -> (r: bool)
        ensures
            r == (self.primitive_types & prim.bits_spec() != 0),
    {
        self.primitive_types & prim.bits() != 0
    }

    /// The vertex positions; always present.
    pub fn get_vertices(&self) -> (r: RawSlice)
        ensures
            r == raw_slice(self.vertices, self.num_vertices),
    {
        ptr_to_slice(self.vertices, self.num_vertices)
    }

    /// The vertex normals; empty if absent.
    pub fn get_normals(&self) -> (r: RawSlice)
        ensures
            r == optional_slice(self.normals, self.num_vertices),
    {
        optional_to_slice(self.normals, self.num_vertices)
    }

    /// The vertex tangents; empty if absent.
    pub fn get_tangents(&self) -> (r: RawSlice)
        ensures
            r == optional_slice(self.tangents, self.num_vertices),
    {
        optional_to_slice(self.tangents, self.num_vertices)
    }

    /// The vertex bitangents; empty if absent.
    pub fn get_bitangents(&self) -> (r: RawSlice)
        ensures
            r == optional_slice(self.bitangents, self.num_vertices),
    {
        optional_to_slice(self.bitangents, self.num_vertices)
    }

    /// The vertex color sets, up to the first absent one.
    pub fn get_colors(&self) -> (r: Vec<RawSlice>)
        ensures
            r@.len() == present_channels(self.colors@),
            forall|i: int| 0 <= i < r@.len() ==> r@[i] == raw_slice(self.colors@[i], self.num_vertices),
    {
        channel_slices(self.colors.as_slice(), self.num_vertices)
    }

    /// The texture coordinate sets, up to the first absent one.
    pub fn get_texture_coords(&self) -> (r: Vec<RawSlice>)
        ensures
            r@.len() == present_channels(self.texture_coords@),
            forall|i: int| 0 <= i < r@.len() ==> r@[i] == raw_slice(self.texture_coords@[i], self.num_vertices),
    {
        channel_slices(self.texture_coords.as_slice(), self.num_vertices)
    }

    /// The faces of the mesh; one for each of `num_faces`.
    pub fn get_faces(&self) -> (r: RawSlice)
        ensures
            r == raw_slice(self.faces, self.num_faces),
            r.len == self.num_faces,
    {
        ptr_to_slice(self.faces, self.num_faces)
    }

    /// The bones of the mesh; one for each of `num_bones`.
    pub fn get_bones(&self) -> (r: RawSlice)
        ensures
            r == raw_slice(self.bones, self.num_bones),
            r.len == self.num_bones,
    {
        ptr_ptr_to_slice(self.bones, self.num_bones)
    }
}

} // verus!
