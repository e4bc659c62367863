//! A binding layer for the Open Asset Import Library.
//!
//! The library holds the decisions of the binding: which post-processing
//! flags an importer accumulates, how a typed import property becomes one
//! call of the native property store, and what an imported scene lets its
//! caller read, and when. Native handles travel through it as plain
//! addresses; the host program performs the native calls.

pub mod animation;
pub mod config;
pub mod fileio;
pub mod flags;
pub mod importer;
pub mod info;
pub mod light;
pub mod log;
pub mod material;
pub mod mesh;
pub mod postprocess;
pub mod property;
pub mod scene;
pub mod texture;
pub mod types;
pub mod util;
