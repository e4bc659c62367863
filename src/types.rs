//! Basic data types shared with the native library.

use vstd::prelude::*;
use vstd::utf8::{encode_utf8, valid_utf8};
use vstd::string::StringSliceAdditionalSpecFns;

verus! {

/// The size of a native string buffer, terminating zero included.
pub const MAXLEN: usize = 1024;

/// The boolean type of the native library.
#[derive(Clone, Copy, Debug, PartialEq, Eq, Structural)]
pub enum AiBool {
    /// Represents false.
    AiFalse,
    /// Represents true.
    AiTrue,
}

impl AiBool {
    /// The native boolean for `val`.
    pub fn new(val: bool) -> (r: AiBool)
        ensures
            r == (if val { AiBool::AiTrue } else { AiBool::AiFalse }),
    {
        match val {
            true => AiBool::AiTrue,
            false => AiBool::AiFalse,
        }
    }

    /// The native code of this boolean.
    pub fn code(&self) -> (r: i32)
        ensures
            r == (if *self == AiBool::AiTrue { 1i32 } else { 0i32 }),
    {
        match self {
            AiBool::AiTrue => 1,
            AiBool::AiFalse => 0,
        }
    }
}

/// The standard return code of some native functions.
#[derive(Clone, Copy, Debug, PartialEq, Eq, Structural)]
pub enum Return {
    /// The function succeeded.
    Success,
    /// The function failed.
    Failure,
    /// Not enough memory was available to perform the requested operation.
    OutOfMemory,
}

impl Return {
    /// The native code of this outcome.
    pub fn code(&self) -> (r: i32)
        ensures
            r == (match *self {
                Return::Success => 0i32,
                Return::Failure => -1i32,
                Return::OutOfMemory => -3i32,
            }),
    {
        match self {
            Return::Success => 0,
            Return::Failure => -1,
            Return::OutOfMemory => -3,
        }
    }
}

/// The memory that each part of an imported scene takes, in bytes.
#[derive(Clone, Copy, Debug, PartialEq, Eq, Structural)]
pub struct MemoryInfo {
    /// Storage allocated for texture data.
    pub textures: u32,
    /// Storage allocated for material data.
    pub materials: u32,
    /// Storage allocated for mesh data.
    pub meshes: u32,
    /// Storage allocated for node data.
    pub nodes: u32,
    /// Storage allocated for animation data.
    pub animations: u32,
    /// Storage allocated for camera data.
    pub cameras: u32,
    /// Storage allocated for light data.
    pub lights: u32,
    /// Total storage allocated for the full import.
    pub total: u32,
}

/// A string of the native library: UTF-8 bytes that fit, with their
/// terminating zero, in a buffer of `MAXLEN` bytes.
pub struct AiString {
    data: Vec<u8>,
}

impl View for AiString {
    type V = Seq<u8>;

    /// The bytes of the string, without the terminating zero.
    closed spec fn view(&self) -> Seq<u8> {
        self.data@
    }
}

/// Relies on `std::str::from_utf8`: it succeeds exactly on valid UTF-8, and
/// the text it returns has the given bytes.
#[verifier::external_body]
fn str_from_utf8(v: &[u8]) -> (r: Option<&str>)
    ensures
        r is Some <==> valid_utf8(v@),
        r matches Some(s) ==> s.spec_bytes() == v@,
{
    std::str::from_utf8(v).ok()
}

impl AiString {
    #[verifier::type_invariant]
    spec fn fits(&self) -> bool {
        self.data@.len() < MAXLEN
    }

    /// A new empty string.
    pub fn new() -> (r: AiString)
        ensures
            r@ == Seq::<u8>::empty(),
    {
        AiString { data: Vec::new() }
    }

    /// The string holding `bytes`, if they fit in a native buffer.
    pub fn from_bytes(bytes: &[u8]) -> (r: Option<AiString>)
        ensures
            r is Some <==> bytes@.len() < MAXLEN,
            r matches Some(s) ==> s@ == bytes@,
    {
        if bytes.len() >= MAXLEN {
            return None;
        }
        let mut data: Vec<u8> = Vec::new();
        let mut i: usize = 0;
        while i < bytes.len()
            invariant
                i <= bytes@.len(),
                data@ == bytes@.subrange(0, i as int),
            decreases bytes@.len() - i,
        {
            data.push(bytes[i]);
            i = i + 1;
        }
        proof {
            assert(data@ =~= bytes@);
        }
        Some(AiString { data })
    }

    /// The number of bytes of the string, without the terminating zero.
    pub fn len(&self) -> (r: usize)
        ensures
            r == self@.len(),
            r < MAXLEN,
    {
        proof {
            use_type_invariant(self);
        }
        self.data.len()
    }

    /// The bytes of the string, without the terminating zero.
    pub fn as_bytes(&self) -> (r: &[u8])
        ensures
            r@ == self@,
    {
        self.data.as_slice()
    }

    /// The string as text, if its bytes are valid UTF-8.
    pub fn as_str(&self) -> (r: Option<&str>)
        ensures
            r is Some <==> valid_utf8(self@),
            r matches Some(s) ==> s.spec_bytes() == self@,
    {
        str_from_utf8(self.data.as_slice())
    }

    /// An owned copy of the string as text, if its bytes are valid UTF-8.
    pub fn into_string(&self) -> (r: Option<String>)
        ensures
            r is Some <==> valid_utf8(self@),
            r matches Some(s) ==> encode_utf8(s@) == self@,
    {
        match self.as_str() {
            Some(s) => Some(s.to_owned()),
            None => None,
        }
    }
}

impl PartialEq for AiString {
    fn eq(&self, other: &AiString) -> (r: bool)
        ensures
            r == (self@ == other@),
    {
        let n = self.data.len();
        if n != other.data.len() {
            return false;
        }
        let mut i: usize = 0;
        while i < n
            invariant
                n == self.data@.len(),
                n == other.data@.len(),
                i <= n,
                forall|k: int| 0 <= k < i ==> self.data@[k] == other.data@[k],
            decreases n - i,
        {
            if self.data[i] != other.data[i] {
                return false;
            }
            i = i + 1;
        }
        proof {
            assert(self.data@ =~= other.data@);
        }
        true
    }
}

impl vstd::std_specs::cmp::PartialEqSpecImpl for AiString {
    open spec fn obeys_eq_spec() -> bool {
        true
    }

    open spec fn eq_spec(&self, other: &AiString) -> bool {
        self@ == other@
    }
}

} // verus!
