use assimp::mesh::{Face, Mesh, PrimitiveType};
use assimp::postprocess::Process;
use assimp::scene::{Node, RawScene, Scene, SceneError, SceneFlags, SceneState};
use assimp::types::AiString;
use assimp::util::RawSlice;

fn header(num_meshes: u32) -> RawScene {
    RawScene {
        flags: 0x2 | 0x8,
        root_node: 0x10,
        num_meshes,
        meshes: 0x20,
        num_materials: 1,
        materials: 0x30,
        num_animations: 0,
        animations: 0x40,
        num_textures: 0,
        textures: 0,
        num_lights: 2,
        lights: 0x50,
        num_cameras: 0,
        cameras: 0,
    }
}

#[test]
fn meshes_view_has_mesh_count() {
    let scene = Scene::from_raw_scene(0x1, header(3));
    assert_eq!(scene.get_meshes(), Ok(RawSlice { addr: 0x20, len: 3 }));
    assert_eq!(scene.get_materials(), Ok(RawSlice { addr: 0x30, len: 1 }));
    assert_eq!(scene.get_lights(), Ok(RawSlice { addr: 0x50, len: 2 }));
    assert_eq!(scene.get_root_node(), Ok(0x10));
}

#[test]
fn empty_array_view_is_empty_whatever_the_pointer() {
    let scene = Scene::from_raw_scene(0x1, header(1));
    assert_eq!(scene.get_animations(), Ok(RawSlice { addr: 0, len: 0 }));
    assert_eq!(scene.get_cameras(), Ok(RawSlice { addr: 0, len: 0 }));
    assert_eq!(scene.get_textures(), Ok(RawSlice { addr: 0, len: 0 }));
}

#[test]
fn check_flag_reads_scene_flags() {
    let scene = Scene::from_raw_scene(0x1, header(1));
    assert_eq!(scene.check_flag(SceneFlags::SceneFlags_VALIDATED), Ok(true));
    assert_eq!(scene.check_flag(SceneFlags::SceneFlags_NON_VERBOSE_FORMAT), Ok(true));
    assert_eq!(scene.check_flag(SceneFlags::SceneFlags_INCOMPLETE), Ok(false));
    assert_eq!(scene.check_flag(SceneFlags::SceneFlags_TERRAIN), Ok(false));
}

#[test]
fn release_happens_exactly_once() {
    let mut scene = Scene::from_raw_scene(0x77, header(1));
    assert_eq!(scene.release(), Some(0x77));
    assert_eq!(scene.state(), SceneState::Released);
    assert_eq!(scene.release(), None);
    assert_eq!(scene.release(), None);
}

#[test]
fn released_scene_refuses_reads() {
    let mut scene = Scene::from_raw_scene(0x77, header(1));
    let _ = scene.release();
    assert_eq!(scene.get_meshes(), Err(SceneError::Released));
    assert_eq!(scene.raw_scene(), Err(SceneError::Released));
}

#[test]
fn apply_postprocessing_gives_flags() {
    let scene = Scene::from_raw_scene(0x1, header(1));
    assert_eq!(scene.apply_postprocessing(&[Process::ValidateDataStructure, Process::Triangulate]), Ok(0x408));
}

#[test]
fn successful_postprocessing_refreshes_counts() {
    let mut scene = Scene::from_raw_scene(0x1, header(1));
    assert_eq!(scene.finish_postprocessing(0x1, header(4)), Ok(()));
    assert_eq!(scene.get_meshes(), Ok(RawSlice { addr: 0x20, len: 4 }));
    assert_eq!(scene.state(), SceneState::Imported);
}

#[test]
fn failed_postprocessing_invalidates_scene() {
    let mut scene = Scene::from_raw_scene(0x1, header(1));
    assert_eq!(scene.finish_postprocessing(0, header(1)), Err(SceneError::PostProcessingFailed));
    assert_eq!(scene.state(), SceneState::Invalid);
    assert_eq!(scene.get_meshes(), Err(SceneError::InvalidScene));
    assert_eq!(scene.get_materials(), Err(SceneError::InvalidScene));
    assert_eq!(scene.get_root_node(), Err(SceneError::InvalidScene));
    assert_eq!(scene.check_flag(SceneFlags::SceneFlags_VALIDATED), Err(SceneError::InvalidScene));
    assert_eq!(scene.header(), Err(SceneError::InvalidScene));
    assert_eq!(scene.apply_postprocessing(&[Process::Triangulate]), Err(SceneError::InvalidScene));
    assert_eq!(scene.finish_postprocessing(0x1, header(1)), Err(SceneError::InvalidScene));
    assert_eq!(scene.release(), Some(0x1));
}

#[test]
fn node_parent_and_children() {
    let root = Node { name: AiString::new(), parent: 0, num_children: 2, children: 0x80, num_meshes: 0, meshes: 0x90 };
    assert_eq!(root.get_parent(), None);
    assert_eq!(root.get_children(), RawSlice { addr: 0x80, len: 2 });
    assert_eq!(root.get_meshes(), RawSlice { addr: 0, len: 0 });
    let child = Node { name: AiString::new(), parent: 0x70, num_children: 0, children: 0, num_meshes: 1, meshes: 0x90 };
    assert_eq!(child.get_parent(), Some(0x70));
    assert_eq!(child.get_meshes(), RawSlice { addr: 0x90, len: 1 });
}

fn mesh() -> Mesh {
    let mut colors = [0usize; 8];
    colors[0] = 0x100;
    colors[1] = 0x200;
    colors[3] = 0x400;
    let mut texture_coords = [0usize; 8];
    texture_coords[0] = 0x500;
    Mesh {
        primitive_types: 0x4,
        num_vertices: 3,
        num_faces: 1,
        vertices: 0x600,
        normals: 0,
        tangents: 0x700,
        bitangents: 0x800,
        colors,
        texture_coords,
        num_uv_components: [2, 0, 0, 0, 0, 0, 0, 0],
        faces: 0x900,
        num_bones: 0,
        bones: 0xa00,
        material_index: 0,
        name: AiString::new(),
        num_anim_meshes: 0,
        anim_meshes: 0,
    }
}

#[test]
fn single_triangle_mesh_views() {
    let m = mesh();
    assert_eq!(m.get_faces(), RawSlice { addr: 0x900, len: 1 });
    assert_eq!(m.get_vertices(), RawSlice { addr: 0x600, len: 3 });
    assert_eq!(m.get_bones(), RawSlice { addr: 0, len: 0 });
    assert!(m.has_primitive(PrimitiveType::Triangle));
    assert!(!m.has_primitive(PrimitiveType::Line));
    let face = Face { num_indices: 3, indices: 0xb00 };
    assert_eq!(face.get_indices(), RawSlice { addr: 0xb00, len: 3 });
    assert_eq!(PrimitiveType::get_primitive_type(face.num_indices), PrimitiveType::Triangle);
}

#[test]
fn absent_normals_give_empty_view() {
    let m = mesh();
    assert_eq!(m.get_normals(), RawSlice { addr: 0, len: 0 });
    assert_eq!(m.get_tangents(), RawSlice { addr: 0x700, len: 3 });
    assert_eq!(m.get_bitangents(), RawSlice { addr: 0x800, len: 3 });
}

#[test]
fn colors_stop_at_first_absent_set() {
    let m = mesh();
    let colors = m.get_colors();
    assert_eq!(colors, vec![RawSlice { addr: 0x100, len: 3 }, RawSlice { addr: 0x200, len: 3 }]);
    assert_eq!(m.get_texture_coords(), vec![RawSlice { addr: 0x500, len: 3 }]);
}

#[test]
fn primitive_type_of_vertex_count() {
    assert_eq!(PrimitiveType::get_primitive_type(1), PrimitiveType::Point);
    assert_eq!(PrimitiveType::get_primitive_type(2), PrimitiveType::Line);
    assert_eq!(PrimitiveType::get_primitive_type(4), PrimitiveType::Polygon);
    assert_eq!(PrimitiveType::get_primitive_type(u32::MAX), PrimitiveType::Polygon);
}

#[test]
fn primitive_list_in_order() {
    let mut m = mesh();
    m.primitive_types = 0x8 | 0x2 | 0x1;
    assert_eq!(m.primitive_list(), vec![PrimitiveType::Point, PrimitiveType::Line, PrimitiveType::Polygon]);
    m.primitive_types = 0;
    assert!(m.primitive_list().is_empty());
}
