//! Keyframe animations of nodes and meshes.

use vstd::prelude::*;
use crate::types::AiString;
use crate::util::{RawSlice, ptr_ptr_to_slice, ptr_to_slice, raw_slice};

verus! {

/// How an animation channel behaves outside the time range of its keys.
#[allow(non_camel_case_types)]
#[derive(Clone, Copy, Debug, PartialEq, Eq, Structural)]
pub enum AnimBehaviour {
    /// The value of the default node transformation is taken.
    AnimBehaviour_DEFAULT,
    /// The nearest key value is used, without interpolation.
    AnimBehaviour_CONSTANT,
    /// The value of the two nearest keys is extrapolated linearly.
    AnimBehaviour_LINEAR,
    /// The animation is repeated.
    AnimBehaviour_REPEAT,
}

impl AnimBehaviour {
    /// The native code of this value.
    pub open spec fn spec_code(&self) -> u32 {
        match *self {
            AnimBehaviour::AnimBehaviour_DEFAULT => 0x0,
            AnimBehaviour::AnimBehaviour_CONSTANT => 0x1,
            AnimBehaviour::AnimBehaviour_LINEAR => 0x2,
            AnimBehaviour::AnimBehaviour_REPEAT => 0x3,
        }
    }

    /// The native code of this value.
    pub fn code(&self) -> (r: u32)
        ensures
            r == self.spec_code(),
    {
        match self {
            AnimBehaviour::AnimBehaviour_DEFAULT => 0x0,
            AnimBehaviour::AnimBehaviour_CONSTANT => 0x1,
            AnimBehaviour::AnimBehaviour_LINEAR => 0x2,
            AnimBehaviour::AnimBehaviour_REPEAT => 0x3,
        }
    }
}

/// The animation of one node: its position, rotation and scaling keys.
pub struct NodeAnim {
    /// The name of the node that the channel moves.
    pub name: AiString,
    /// The number of position keys.
    pub num_position_keys: u32,
    /// The address of the position keys.
    pub position_keys: usize,
    /// The number of rotation keys.
    pub num_rotation_keys: u32,
    /// The address of the rotation keys.
    pub rotation_keys: usize,
    /// The number of scaling keys.
    pub num_scaling_keys: u32,
    /// The address of the scaling keys.
    pub scaling_keys: usize,
    /// The behaviour before the first key.
    pub pre_state: AnimBehaviour,
    /// The behaviour after the last key.
    pub post_state: AnimBehaviour,
}

impl NodeAnim {
    /// The rotation keys of the channel.
    pub fn get_rotation_keys(&self) -> (r: RawSlice)
        ensures
            r == raw_slice(self.rotation_keys, self.num_rotation_keys),
    {
        ptr_to_slice(self.rotation_keys, self.num_rotation_keys)
    }

    /// The position keys of the channel.
    pub fn get_position_keys(&self) -> (r: RawSlice)
        ensures
            r == raw_slice(self.position_keys, self.num_position_keys),
    {
        ptr_to_slice(self.position_keys, self.num_position_keys)
    }

    /// The scaling keys of the channel.
    pub fn get_scaling_keys(&self) -> (r: RawSlice)
        ensures
            r == raw_slice(self.scaling_keys, self.num_scaling_keys),
    {
        ptr_to_slice(self.scaling_keys, self.num_scaling_keys)
    }
}

/// The vertex animation of one mesh.
pub struct MeshAnim {
    /// The name of the mesh that the channel animates.
    pub name: AiString,
    /// The number of keys.
    pub num_keys: u32,
    /// The address of the keys.
    pub keys: usize,
}

impl MeshAnim {
    /// The keys of the channel.
    pub fn get_keys(&self) -> (r: RawSlice)
        ensures
            r == raw_slice(self.keys, self.num_keys),
    {
        ptr_to_slice(self.keys, self.num_keys)
    }
}

/// An animation: channels of nodes and of meshes.
pub struct Animation {
    /// The name of the animation.
    pub name: AiString,
    /// The number of node channels.
    pub num_channels: u32,
    /// The address of the array of node channel pointers.
    pub channels: usize,
    /// The number of mesh channels.
    pub num_mesh_channels: u32,
    /// The address of the array of mesh channel pointers.
    pub mesh_channels: usize,
}

impl Animation {
    /// The node channels of the animation.
    pub fn get_channels(&self) -> (r: RawSlice)
        ensures
            r == raw_slice(self.channels, self.num_channels),
    {
        ptr_ptr_to_slice(self.channels, self.num_channels)
    }

    /// The mesh channels of the animation.
    pub fn get_mesh_channels(&self) -> (r: RawSlice)
        ensures
            r == raw_slice(self.mesh_channels, self.num_mesh_channels),
    {
        ptr_ptr_to_slice(self.mesh_channels, self.num_mesh_channels)
    }
}

} // verus!
