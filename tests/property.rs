use assimp::config::{prop2str, Config};
use assimp::mesh::PrimitiveType;
use assimp::property::{
    decompose_property, property_call, to_native_value, Component, NativeSetter, NativeValue, Property,
    PropertyType, TransformUV,
};
use assimp::types::AiString;

#[test]
fn decompose_bool_property() {
    let (name, value) = decompose_property(Property::GLOB_MEASURE_TIME(true));
    assert_eq!(name, "GLOB_MEASURE_TIME");
    assert!(matches!(value, PropertyType::PBool(true)));
}

#[test]
fn decompose_int_property() {
    let (name, value) = decompose_property(Property::PP_SLM_VERTEX_LIMIT(2500));
    assert_eq!(name, "PP_SLM_VERTEX_LIMIT");
    assert!(matches!(value, PropertyType::PInt(2500)));
}

#[test]
fn decompose_float_property_keeps_bits() {
    let bits = 0.5f32.to_bits();
    let (name, value) = decompose_property(Property::PP_DB_THRESHOLD(bits));
    assert_eq!(name, "PP_DB_THRESHOLD");
    match value {
        PropertyType::PFloat(b) => assert_eq!(f32::from_bits(b), 0.5),
        _ => panic!("expected a float"),
    }
}

#[test]
fn decompose_string_property() {
    let s = AiString::from_bytes(b"keep-me").unwrap();
    let (name, value) = decompose_property(Property::PP_RRM_EXCLUDE_LIST(s));
    assert_eq!(name, "PP_RRM_EXCLUDE_LIST");
    match value {
        PropertyType::PStr(s) => assert_eq!(s.as_bytes(), b"keep-me"),
        _ => panic!("expected a string"),
    }
}

#[test]
fn decompose_component_list_ors_flags() {
    let list = vec![Component::Normals, Component::Colors, Component::Materials];
    let (name, value) = decompose_property(Property::PP_RVC_FLAGS(list));
    assert_eq!(name, "PP_RVC_FLAGS");
    assert!(matches!(value, PropertyType::PInt(0x80a)));
}

#[test]
fn decompose_primitive_list_ors_flags() {
    let list = vec![PrimitiveType::Line, PrimitiveType::Point];
    let (name, value) = decompose_property(Property::PP_SBP_REMOVE(list));
    assert_eq!(name, "PP_SBP_REMOVE");
    assert!(matches!(value, PropertyType::PInt(3)));
}

#[test]
fn decompose_empty_list_is_zero() {
    let (name, value) = decompose_property(Property::PP_TUV_EVALUATE(Vec::new()));
    assert_eq!(name, "PP_TUV_EVALUATE");
    assert!(matches!(value, PropertyType::PInt(0)));
}

#[test]
fn decompose_uv_list_with_all() {
    let (_, value) = decompose_property(Property::PP_TUV_EVALUATE(vec![TransformUV::Scaling, TransformUV::All]));
    assert!(matches!(value, PropertyType::PInt(7)));
}

#[test]
fn unreal_handle_flags_name() {
    let (name, _) = decompose_property(Property::IMPORT_UNREAL_HANDLE_FLAGS(false));
    assert_eq!(name, "UNREAL_HANDLE_FLAGS");
    assert_eq!(prop2str(Config::IMPORT_UNREAL_HANDLE_FLAGS), "UNREAL_HANDLE_FLAGS");
}

#[test]
fn prop2str_names() {
    assert_eq!(prop2str(Config::GLOB_MEASURE_TIME), "GLOB_MEASURE_TIME");
    assert_eq!(prop2str(Config::IMPORT_MD2_KEYFRAME), "IMPORT_MD2_KEYFRAME");
    assert_eq!(prop2str(Config::IMPORT_IFC_CUSTOM_TRIANGULATION), "IMPORT_IFC_CUSTOM_TRIANGULATION");
}

#[test]
fn property_key_matches_name() {
    let p = Property::IMPORT_LWS_ANIM_END(12);
    assert_eq!(p.config(), Config::IMPORT_LWS_ANIM_END);
    assert_eq!(prop2str(p.config()), "IMPORT_LWS_ANIM_END");
}

#[test]
fn bool_false_becomes_integer_zero() {
    match to_native_value(PropertyType::PBool(false)) {
        NativeValue::Integer(v) => assert_eq!(v, 0),
        _ => panic!("expected the integer setter"),
    }
}

#[test]
fn setter_matches_documented_type() {
    let cases: Vec<(Property, NativeSetter)> = vec![
        (Property::PP_FD_REMOVE(true), NativeSetter::Integer),
        (Property::IMPORT_IRR_ANIM_FPS(30), NativeSetter::Integer),
        (Property::PP_CT_MAX_SMOOTHING_ANGLE(45.0f32.to_bits()), NativeSetter::Float),
        (Property::IMPORT_MD3_SKIN_NAME(AiString::new()), NativeSetter::String),
        (Property::PP_RVC_FLAGS(vec![Component::Lights]), NativeSetter::Integer),
    ];
    for (p, setter) in cases {
        assert_eq!(property_call(p).value.setter(), setter);
    }
}

#[test]
fn float_call_carries_bits() {
    let call = property_call(Property::PP_GSN_MAX_SMOOTHING_ANGLE(175.0f32.to_bits()));
    assert_eq!(call.name, "PP_GSN_MAX_SMOOTHING_ANGLE");
    match call.value {
        NativeValue::Float(b) => assert_eq!(f32::from_bits(b), 175.0),
        _ => panic!("expected the float setter"),
    }
}
