//! The virtual file system interface.

use vstd::prelude::*;

verus! {

/// The origin of a seek in a file.
#[allow(non_camel_case_types)]
#[derive(Clone, Copy, Debug, PartialEq, Eq, Structural)]
pub enum Origin {
    /// The beginning of the file.
    Origin_SET,
    /// The current position in the file.
    Origin_CUR,
    /// The end of the file; offsets are negative.
    Origin_END,
}

impl Origin {
    /// The native code of this value.
    pub open spec fn spec_code(&self) -> u32 {
        match *self {
            Origin::Origin_SET => 0x0,
            Origin::Origin_CUR => 0x1,
            Origin::Origin_END => 0x2,
        }
    }

    /// The native code of this value.
    pub fn code(&self) -> (r: u32)
        ensures
            r == self.spec_code(),
    {
        match self {
            Origin::Origin_SET => 0x0,
            Origin::Origin_CUR => 0x1,
            Origin::Origin_END => 0x2,
        }
    }
}

} // verus!
