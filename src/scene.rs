//! The imported scene: who owns it, and what can be read from it, when.

use vstd::prelude::*;
use crate::flags::{FlagBit, fold_flags, mask_of};
use crate::postprocess::Process;
use crate::types::AiString;
use crate::util::{RawSlice, ptr_ptr_to_slice, ptr_to_slice, raw_slice};

verus! {

/// A node of the imported hierarchy: a name, a parent (but for the root),
/// child nodes, and the meshes placed at it.
pub struct Node {
    /// The name of the node; it may be empty.
    pub name: AiString,
    /// The address of the parent node, or 0 for the root.
    pub parent: usize,
    /// The number of child nodes.
    pub num_children: u32,
    /// The address of the array of child node pointers.
    pub children: usize,
    /// The number of meshes of the node.
    pub num_meshes: u32,
    /// The address of the array of mesh indices.
    pub meshes: usize,
}

impl Node {
    /// The address of the parent node; none for the root.
    pub fn get_parent(&self) -> (r: Option<usize>)
        ensures
            r == (if self.parent == 0 { None } else { Some(self.parent) }),
    {
        if self.parent == 0 {
            None
        } else {
            Some(self.parent)
        }
    }

    /// The child nodes.
    pub fn get_children(&self) -> (r: RawSlice)
        ensures
            r == raw_slice(self.children, self.num_children),
    {
        ptr_ptr_to_slice(self.children, self.num_children)
    }

    /// The meshes of the node: indices into the meshes of the scene.
    pub fn get_meshes(&self) -> (r: RawSlice)
        ensures
            r == raw_slice(self.meshes, self.num_meshes),
    {
        ptr_to_slice(self.meshes, self.num_meshes)
    }
}

/// Flags that tell how complete an imported scene is.
#[allow(non_camel_case_types)]
#[derive(Clone, Copy, Debug, PartialEq, Eq, Structural)]
pub enum SceneFlags {
    /// The imported scene data structure is not complete.
    SceneFlags_INCOMPLETE,
    /// The validation step found the scene valid.
    SceneFlags_VALIDATED,
    /// The validation step found the scene valid, with some issues.
    SceneFlags_VALIDATION_WARNING,
    /// The vertices of the meshes are not in the verbose format: a vertex may
    /// be referenced by more than one face.
    SceneFlags_NON_VERBOSE_FORMAT,
    /// The scene holds pure height-map terrain data.
    SceneFlags_TERRAIN,
}

impl FlagBit for SceneFlags {
    open spec fn bits_spec(&self) -> u32 {
        match *self {
            SceneFlags::SceneFlags_INCOMPLETE => 0x1,
            SceneFlags::SceneFlags_VALIDATED => 0x2,
            SceneFlags::SceneFlags_VALIDATION_WARNING => 0x4,
            SceneFlags::SceneFlags_NON_VERBOSE_FORMAT => 0x8,
            SceneFlags::SceneFlags_TERRAIN => 0x10,
        }
    }

    fn bits(&self) -> (r: u32) {
        match self {
            SceneFlags::SceneFlags_INCOMPLETE => 0x1,
            SceneFlags::SceneFlags_VALIDATED => 0x2,
            SceneFlags::SceneFlags_VALIDATION_WARNING => 0x4,
            SceneFlags::SceneFlags_NON_VERBOSE_FORMAT => 0x8,
            SceneFlags::SceneFlags_TERRAIN => 0x10,
        }
    }
}

/// The top-level record of a native scene, as plain values: its flags, and
/// the count and address of each of its arrays.
///
/// The native library keeps each count consistent with its array: a
/// positive count comes with the address of that many elements.
#[derive(Clone, Copy, Debug, PartialEq, Eq, Structural)]
pub struct RawScene {
    /// Any combination of the bits of `SceneFlags`.
    pub flags: u32,
    /// The address of the root node.
    pub root_node: usize,
    /// The number of meshes.
    pub num_meshes: u32,
    /// The address of the array of mesh pointers.
    pub meshes: usize,
    /// The number of materials.
    pub num_materials: u32,
    /// The address of the array of material pointers.
    pub materials: usize,
    /// The number of animations.
    pub num_animations: u32,
    /// The address of the array of animation pointers.
    pub animations: usize,
    /// The number of embedded textures.
    pub num_textures: u32,
    /// The address of the array of texture pointers.
    pub textures: usize,
    /// The number of light sources.
    pub num_lights: u32,
    /// The address of the array of light pointers.
    pub lights: usize,
    /// The number of cameras.
    pub num_cameras: u32,
    /// The address of the array of camera pointers.
    pub cameras: usize,
}

/// Where a scene stands in its life.
#[derive(Clone, Copy, Debug, PartialEq, Eq, Structural)]
pub enum SceneState {
    /// Imported, and readable.
    Imported,
    /// A post-processing call failed: the native scene may be gone.
    Invalid,
    /// Handed back to the native library.
    Released,
}

/// Why a scene refused a request.
#[derive(Clone, Copy, Debug, PartialEq, Eq, Structural)]
pub enum SceneError {
    /// The native post-processing call failed just now.
    PostProcessingFailed,
    /// A post-processing call failed earlier: the scene is no longer valid.
    InvalidScene,
    /// The scene was released.
    Released,
}

/// What a scene is: the address of the native scene it owns, the record
/// read from it, and where it stands.
pub struct SceneModel {
    /// The address of the native scene.
    pub raw_scene: usize,
    /// The top-level record of the native scene.
    pub header: RawScene,
    /// Where the scene stands.
    pub state: SceneState,
}

/// The root structure of an imported scene.
///
/// A scene owns one native scene; it is neither copied nor cloned, and it
/// hands the native scene back for release exactly once.
pub struct Scene {
    raw_scene: usize,
    header: RawScene,
    state: SceneState,
}

impl View for Scene {
    type V = SceneModel;

    closed spec fn view(&self) -> SceneModel {
        SceneModel { raw_scene: self.raw_scene, header: self.header, state: self.state }
    }
}

/// The error with which a scene in `state` refuses to be read, if any.
pub open spec fn access_error(state: SceneState) -> Option<SceneError> {
    match state {
        SceneState::Imported => None,
        SceneState::Invalid => Some(SceneError::InvalidScene),
        SceneState::Released => Some(SceneError::Released),
    }
}

/// What a read of a scene in `state` returns, where a readable scene gives
/// `value`.
pub open spec fn read_result<T>(state: SceneState, value: T) -> Result<T, SceneError> {
    match access_error(state) {
        Some(e) => Err(e),
        None => Ok(value),
    }
}

/// The scene after the native post-processing call returned `result`, and
/// what the scene reports: a null result makes the scene invalid, for good.
pub open spec fn postprocessing_step(m: SceneModel, result: usize, refreshed: RawScene) -> (SceneModel, Result<(), SceneError>) {
    match access_error(m.state) {
        Some(e) => (m, Err(e)),
        None => if result == 0 {
            (SceneModel { state: SceneState::Invalid, ..m }, Err(SceneError::PostProcessingFailed))
        } else {
            (SceneModel { header: refreshed, ..m }, Ok(()))
        },
    }
}

/// The scene after a release request, and the address to hand to the native
/// release call, if any.
pub open spec fn release_step(m: SceneModel) -> (SceneModel, Option<usize>) {
    if m.state == SceneState::Released {
        (m, None)
    } else {
        (SceneModel { state: SceneState::Released, ..m }, Some(m.raw_scene))
    }
}

impl Scene {
    /// The scene that owns the native scene at `raw`, whose top-level record
    /// is `header`.
    pub fn from_raw_scene(raw: usize, header: RawScene) -> (r: Scene)
        requires
            raw != 0,
        ensures
            r@ == (SceneModel { raw_scene: raw, header, state: SceneState::Imported }),
    {
        Scene { raw_scene: raw, header, state: SceneState::Imported }
    }

    fn access(&self) -> (r: Result<(), SceneError>)
        ensures
            r == read_result(self@.state, ()),
    {
        match self.state {
            SceneState::Imported => Ok(()),
            SceneState::Invalid => Err(SceneError::InvalidScene),
            SceneState::Released => Err(SceneError::Released),
        }
    }

    /// Where the scene stands.
    pub fn state(&self) -> (r: SceneState)
        ensures
            r == self@.state,
    {
        self.state
    }

    /// The address of the native scene, for a native call that reads it.
    pub fn raw_scene(&self) -> (r: Result<usize, SceneError>)
        ensures
            r == read_result(self@.state, self@.raw_scene),
    {
        self.access()?;
        Ok(self.raw_scene)
    }

    /// The top-level record of the native scene.
    pub fn header(&self) -> (r: Result<RawScene, SceneError>)
        ensures
            r == read_result(self@.state, self@.header),
    {
        self.access()?;
        Ok(self.header)
    }

    /// Whether the given scene flag is set.
    pub fn check_flag(&self, flag: SceneFlags) -> (r: Result<bool, SceneError>)
        ensures
            r == read_result(self@.state, self@.header.flags & flag.bits_spec() != 0),
    {
        self.access()?;
        Ok(self.header.flags & flag.bits() != 0)
    }

    /// The address of the root node of the hierarchy.
    pub fn get_root_node(&self) -> (r: Result<usize, SceneError>)
        ensures
            r == read_result(self@.state, self@.header.root_node),
    {
        self.access()?;
        Ok(self.header.root_node)
    }

    /// The animations of the scene.
    pub fn get_animations(&self) -> (r: Result<RawSlice, SceneError>)
        ensures
            r == read_result(self@.state, raw_slice(self@.header.animations, self@.header.num_animations)),
    {
        self.access()?;
        Ok(ptr_ptr_to_slice(self.header.animations, self.header.num_animations))
    }

    /// The meshes of the scene.
    pub fn get_meshes(&self) -> (r: Result<RawSlice, SceneError>)
        ensures
            r == read_result(self@.state, raw_slice(self@.header.meshes, self@.header.num_meshes)),
            r matches Ok(v) ==> v.len == self@.header.num_meshes,
    {
        self.access()?;
        Ok(ptr_ptr_to_slice(self.header.meshes, self.header.num_meshes))
    }

    /// The light sources of the scene.
    pub fn get_lights(&self) -> (r: Result<RawSlice, SceneError>)
        ensures
            r == read_result(self@.state, raw_slice(self@.header.lights, self@.header.num_lights)),
    {
        self.access()?;
        Ok(ptr_ptr_to_slice(self.header.lights, self.header.num_lights))
    }

    /// The cameras of the scene; the first one, if any, is the default view.
    pub fn get_cameras(&self) -> (r: Result<RawSlice, SceneError>)
        ensures
            r == read_result(self@.state, raw_slice(self@.header.cameras, self@.header.num_cameras)),
    {
        self.access()?;
        Ok(ptr_ptr_to_slice(self.header.cameras, self.header.num_cameras))
    }

    /// The materials of the scene.
    pub fn get_materials(&self) -> (r: Result<RawSlice, SceneError>)
        ensures
            r == read_result(self@.state, raw_slice(self@.header.materials, self@.header.num_materials)),
    {
        self.access()?;
        Ok(ptr_ptr_to_slice(self.header.materials, self.header.num_materials))
    }

    /// The textures embedded in the scene.
    pub fn get_textures(&self) -> (r: Result<RawSlice, SceneError>)
        ensures
            r == read_result(self@.state, raw_slice(self@.header.textures, self@.header.num_textures)),
    {
        self.access()?;
        Ok(ptr_ptr_to_slice(self.header.textures, self.header.num_textures))
    }

    /// Starts post-processing: the flag word for the native call that
    /// post-processes this scene with the given steps.
    pub fn apply_postprocessing(&self, steps: &[Process]) -> (r: Result<u32, SceneError>)
        ensures
            r == read_result(self@.state, mask_of(steps@)),
    {
        self.access()?;
        Ok(fold_flags(steps))
    }

    /// Ends post-processing, given the address the native call returned and
    /// the record read from the scene after it. A null address leaves the
    /// scene invalid, for good.
    pub fn finish_postprocessing(&mut self, result: usize, refreshed: RawScene) -> (r: Result<(), SceneError>)
        ensures
            (final(self)@, r) == postprocessing_step(old(self)@, result, refreshed),
    {
        self.access()?;
        if result == 0 {
            self.state = SceneState::Invalid;
            Err(SceneError::PostProcessingFailed)
        } else {
            self.header = refreshed;
            Ok(())
        }
    }

    /// Marks the scene released, and gives the address to hand to the native
    /// release call: the first time only.
    pub fn release(&mut self) -> (r: Option<usize>)
        ensures
            (final(self)@, r) == release_step(old(self)@),
    {
        if self.state == SceneState::Released {
            None
        } else {
            self.state = SceneState::Released;
            Some(self.raw_scene)
        }
    }
}

/// Releasing a scene that was not yet released issues exactly one native
/// release call, for the scene's own address; any later release issues none.
pub proof fn lemma_release_exactly_once(m: SceneModel)
    requires
        m.state != SceneState::Released,
    ensures
        release_step(m).1 == Some(m.raw_scene),
        release_step(release_step(m).0).1 is None,
        release_step(release_step(m).0).0 == release_step(m).0,
{
}

/// After a failed post-processing call, every read of the scene fails with
/// the invalid-scene error, whatever it would have given, and so does any
/// later post-processing.
pub proof fn lemma_failed_postprocessing_invalidates(
    m: SceneModel,
    refreshed: RawScene,
    later: usize,
    view: RawSlice,
)
    requires
        m.state == SceneState::Imported,
    ensures
        read_result(postprocessing_step(m, 0, refreshed).0.state, view)
            == Err::<RawSlice, SceneError>(SceneError::InvalidScene),
        postprocessing_step(m, 0, refreshed).1 == Err::<(), SceneError>(SceneError::PostProcessingFailed),
        postprocessing_step(m, 0, refreshed).0.state == SceneState::Invalid,
        access_error(postprocessing_step(m, 0, refreshed).0.state) == Some(SceneError::InvalidScene),
        postprocessing_step(postprocessing_step(m, 0, refreshed).0, later, refreshed).1
            == Err::<(), SceneError>(SceneError::InvalidScene),
{
}

} // verus!
