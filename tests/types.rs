use assimp::info::{is_flag_set, CompileFlags};
use assimp::log::{predefined_stream, DefaultLogStream, LogStream};
use assimp::texture::{Texture, TextureData};
use assimp::types::{AiBool, AiString, Return, MAXLEN};
use assimp::util::{ptr_to_slice, RawSlice};

#[test]
fn ai_bool_from_bool() {
    assert_eq!(AiBool::new(true), AiBool::AiTrue);
    assert_eq!(AiBool::new(false), AiBool::AiFalse);
    assert_eq!(AiBool::new(true).code(), 1);
}

#[test]
fn return_codes() {
    assert_eq!(Return::Success.code(), 0);
    assert_eq!(Return::Failure.code(), -1);
    assert_eq!(Return::OutOfMemory.code(), -3);
}

#[test]
fn ai_string_new_is_empty() {
    let s = AiString::new();
    assert_eq!(s.len(), 0);
    assert_eq!(s.as_str(), Some(""));
    assert_eq!(s.into_string(), Some(String::new()));
}

#[test]
fn ai_string_text_round_trip() {
    let s = AiString::from_bytes("mesh_01".as_bytes()).unwrap();
    assert_eq!(s.len(), 7);
    assert_eq!(s.as_str(), Some("mesh_01"));
    assert_eq!(s.into_string(), Some("mesh_01".to_string()));
}

#[test]
fn ai_string_invalid_utf8() {
    let s = AiString::from_bytes(&[0x66, 0xff, 0x66]).unwrap();
    assert_eq!(s.as_str(), None);
    assert_eq!(s.into_string(), None);
}

#[test]
fn ai_string_size_limit() {
    let fits = vec![b'a'; MAXLEN - 1];
    assert!(AiString::from_bytes(&fits).is_some());
    let too_long = vec![b'a'; MAXLEN];
    assert!(AiString::from_bytes(&too_long).is_none());
}

#[test]
fn ai_string_equality() {
    let a = AiString::from_bytes(b"abc").unwrap();
    let b = AiString::from_bytes(b"abc").unwrap();
    let c = AiString::from_bytes(b"abd").unwrap();
    let d = AiString::from_bytes(b"ab").unwrap();
    assert!(a == b);
    assert!(a != c);
    assert!(a != d);
    assert!(AiString::new() == AiString::new());
}

#[test]
fn ptr_to_slice_empty_and_full() {
    assert_eq!(ptr_to_slice(0x1234, 0), RawSlice { addr: 0, len: 0 });
    assert_eq!(ptr_to_slice(0, 0), RawSlice { addr: 0, len: 0 });
    assert_eq!(ptr_to_slice(0x1234, 5), RawSlice { addr: 0x1234, len: 5 });
}

#[test]
fn compressed_texture_data() {
    let t = Texture { width: 100, height: 0, format_hint: *b"png\0", pc_data: 0x10 };
    assert_eq!(t.get_texture_data(), TextureData::Encoded { len: 100, data: RawSlice { addr: 0x10, len: 100 } });
}

#[test]
fn decoded_texture_data() {
    let t = Texture { width: 4, height: 3, format_hint: [0; 4], pc_data: 0x10 };
    assert_eq!(
        t.get_texture_data(),
        TextureData::Decoded { width: 4, height: 3, data: RawSlice { addr: 0x10, len: 12 } }
    );
}

#[test]
fn compile_flag_test() {
    assert!(is_flag_set(0x5, CompileFlags::Debug));
    assert!(is_flag_set(0x5, CompileFlags::Shared));
    assert!(!is_flag_set(0x5, CompileFlags::NoBoost));
}

#[test]
fn log_stream_targets() {
    assert_eq!(predefined_stream(&LogStream::LogStreamStdout), (DefaultLogStream::DefaultLogStream_STDOUT, None));
    let file = LogStream::LogStreamFile("log.txt".to_string());
    assert_eq!(predefined_stream(&file), (DefaultLogStream::DefaultLogStream_FILE, Some("log.txt")));
    assert_eq!(DefaultLogStream::DefaultLogStream_FILE.code(), 1);
}
