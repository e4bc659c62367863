use assimp::importer::{import_result, Importer};
use assimp::postprocess::Process;
use assimp::property::{NativeValue, Property};
use assimp::scene::{RawScene, SceneState};

fn header() -> RawScene {
    RawScene {
        flags: 0,
        root_node: 0x10,
        num_meshes: 1,
        meshes: 0x20,
        num_materials: 1,
        materials: 0x30,
        num_animations: 0,
        animations: 0,
        num_textures: 0,
        textures: 0,
        num_lights: 0,
        lights: 0,
        num_cameras: 0,
        cameras: 0,
    }
}

#[test]
fn test_set_property() {
    let imp = Importer::new(0x1000);

    imp.set_import_property(Property::GLOB_MEASURE_TIME(true));
    imp.set_import_property(Property::PP_DB_THRESHOLD(0.5f32.to_bits()));
    imp.set_import_property(Property::PP_SLM_VERTEX_LIMIT(2500));

    let _ = imp.import_from_file("examples/assets/cube.dae");
}

#[test]
fn new_importer_has_no_flags() {
    let imp = Importer::new(0x1000);
    assert_eq!(imp.flags(), 0);
    assert_eq!(imp.store(), 0x1000);
}

#[test]
fn add_processing_steps_ors_flags() {
    let mut imp = Importer::new(1);
    imp.add_processing_steps(&[Process::Triangulate, Process::GenSmoothNormals, Process::JoinIdenticalVertices]);
    assert_eq!(imp.flags(), 0x8 | 0x40 | 0x2);
    imp.add_processing_steps(&[Process::Triangulate]);
    assert_eq!(imp.flags(), 0x4a);
}

#[test]
fn add_then_rm_restores_flags() {
    let mut imp = Importer::new(1);
    imp.add_processing_steps(&[Process::FlipUVs]);
    let before = imp.flags();
    let steps = [Process::Triangulate, Process::Debone, Process::CalcTangentSpace];
    imp.add_processing_steps(&steps);
    assert_ne!(imp.flags(), before);
    imp.rm_processing_steps(&steps);
    assert_eq!(imp.flags(), before);
}

#[test]
fn rm_absent_step_is_noop() {
    let mut imp = Importer::new(1);
    imp.add_processing_steps(&[Process::Triangulate]);
    imp.rm_processing_steps(&[Process::OptimizeGraph]);
    assert_eq!(imp.flags(), 0x8);
}

#[test]
fn rm_of_step_present_before_add_clears_it() {
    let mut imp = Importer::new(1);
    imp.add_processing_steps(&[Process::Triangulate]);
    imp.add_processing_steps(&[Process::Triangulate]);
    imp.rm_processing_steps(&[Process::Triangulate]);
    assert_eq!(imp.flags(), 0);
}

#[test]
fn no_post_processing_clears_flags() {
    let mut imp = Importer::new(1);
    imp.add_processing_steps(&[Process::Debone, Process::ValidateDataStructure]);
    assert_eq!(imp.flags(), 0x4000400);
    imp.no_post_processing();
    assert_eq!(imp.flags(), 0);
}

#[test]
fn reset_keeps_flags_and_swaps_store() {
    let mut imp = Importer::new(0x100);
    imp.add_processing_steps(&[Process::FlipWindingOrder]);
    let old = imp.reset_import_properties(0x200);
    assert_eq!(old, 0x100);
    assert_eq!(imp.store(), 0x200);
    assert_eq!(imp.flags(), 0x1000000);
}

#[test]
fn import_call_uses_flags_and_store() {
    let mut imp = Importer::new(0x300);
    imp.add_processing_steps(&[Process::SortByPType, Process::FindDegenerates]);
    let call = imp.import_from_file("model.obj");
    assert_eq!(call.path, "model.obj");
    assert_eq!(call.flags, 0x18000);
    assert_eq!(call.store, 0x300);
}

#[test]
fn set_import_property_bool_goes_to_integer_setter() {
    let imp = Importer::new(1);
    let call = imp.set_import_property(Property::FAVOUR_SPEED(true));
    assert_eq!(call.name, "FAVOUR_SPEED");
    assert!(matches!(call.value, NativeValue::Integer(1)));
}

#[test]
fn import_result_null_is_none() {
    assert!(import_result(0, Some(header())).is_none());
    assert!(import_result(0, None).is_none());
    assert!(import_result(0x99, None).is_none());
}

#[test]
fn import_result_wraps_scene() {
    let scene = import_result(0x99, Some(header())).unwrap();
    assert_eq!(scene.state(), SceneState::Imported);
    assert_eq!(scene.raw_scene(), Ok(0x99));
    assert_eq!(scene.header().unwrap().num_meshes, 1);
}
