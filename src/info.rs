//! How the native library was built.

use vstd::prelude::*;
use crate::flags::FlagBit;

verus! {

/// A flag of how the native library was compiled.
#[derive(Clone, Copy, Debug, PartialEq, Eq, Structural)]
pub enum CompileFlags {
    /// Compiled as a shared object.
    Shared,
    /// Compiled against STLport.
    STLPort,
    /// Compiled as a debug build.
    Debug,
    /// Compiled without boost.
    NoBoost,
    /// Compiled single-threaded.
    SingleThreaded,
}

impl FlagBit for CompileFlags {
    open spec fn bits_spec(&self) -> u32 {
        match *self {
            CompileFlags::Shared => 0x1,
            CompileFlags::STLPort => 0x2,
            CompileFlags::Debug => 0x4,
            CompileFlags::NoBoost => 0x8,
            CompileFlags::SingleThreaded => 0x10,
        }
    }

    fn bits(&self) -> (r: u32) {
        match self {
            CompileFlags::Shared => 0x1,
            CompileFlags::STLPort => 0x2,
            CompileFlags::Debug => 0x4,
            CompileFlags::NoBoost => 0x8,
            CompileFlags::SingleThreaded => 0x10,
        }
    }
}

/// Whether `flag` is set in the compile flags `compile_flags` that the
/// native library reports.
pub fn is_flag_set(compile_flags: u32, flag: CompileFlags) -> (r: bool)
    ensures
        r == (compile_flags & flag.bits_spec() != 0),
{
    compile_flags & flag.bits() != 0
}

} // verus!
