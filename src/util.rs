//! Views over arrays that the native library owns.

use vstd::prelude::*;

verus! {

/// A read-only view over `len` elements of a native array, starting at the
/// address `addr`. An empty view has the address 0, whatever the native
/// pointer was.
#[derive(Clone, Copy, Debug, PartialEq, Eq, Structural)]
pub struct RawSlice {
    /// The address of the first element, or 0 for an empty view.
    pub addr: usize,
    /// The number of elements.
    pub len: usize,
}

/// The view over `len` elements starting at `ptr`.
pub open spec fn raw_slice(ptr: usize, len: u32) -> RawSlice {
    RawSlice { addr: if len == 0 { 0 } else { ptr }, len: len as usize }
}

/// The view over `len` elements of a native array starting at `ptr`.
pub fn ptr_to_slice(ptr: usize, len: u32) -> (r: RawSlice)
    ensures
        r == raw_slice(ptr, len),
{
    if len == 0 {
        RawSlice { addr: 0, len: 0 }
    } else {
        RawSlice { addr: ptr, len: len as usize }
    }
}

/// The view over `len` element addresses of a native array of pointers
/// starting at `ptr`.
pub fn ptr_ptr_to_slice(ptr: usize, len: u32) -> (r: RawSlice)
    ensures
        r == raw_slice(ptr, len),
{
    ptr_to_slice(ptr, len)
}

/// The view over a per-vertex array that may be absent: empty where the
/// array's address is 0, else one element for each of `num_vertices`.
pub open spec fn optional_slice(ptr: usize, num_vertices: u32) -> RawSlice {
    if ptr == 0 {
        raw_slice(0, 0)
    } else {
        raw_slice(ptr, num_vertices)
    }
}

/// The view over a per-vertex array that may be absent.
pub fn optional_to_slice(ptr: usize, num_vertices: u32) -> (r: RawSlice)
    ensures
        r == optional_slice(ptr, num_vertices),
{
    let len: u32 = if ptr == 0 { 0 } else { num_vertices };
    ptr_to_slice(ptr, len)
}

/// The number of leading non-zero addresses of a list of channels.
pub open spec fn present_channels(channels: Seq<usize>) -> nat
    decreases channels.len(),
{
    if channels.len() == 0 || channels[0] == 0 {
        0
    } else {
        1 + present_channels(channels.drop_first())
    }
}

/// The views over the channels of a mesh (its color sets, its texture
/// coordinate sets), up to the first absent one; each channel holds one
/// element for each of `num_vertices`.
pub fn channel_slices(channels: &[usize], num_vertices: u32) -> (r: Vec<RawSlice>)
    ensures
        r@.len() == present_channels(channels@),
        forall|i: int| 0 <= i < r@.len() ==> r@[i] == raw_slice(channels@[i], num_vertices),
{
    let mut list: Vec<RawSlice> = Vec::new();
    let mut i: usize = 0;
    proof {
        assert(channels@.subrange(0, channels@.len() as int) =~= channels@);
    }
    while i < channels.len() && channels[i] != 0
        invariant
            i <= channels@.len(),
            list@.len() == i,
            forall|k: int| 0 <= k < i ==> channels@[k] != 0,
            forall|k: int| 0 <= k < i ==> list@[k] == raw_slice(channels@[k], num_vertices),
            present_channels(channels@) == i + present_channels(channels@.subrange(i as int, channels@.len() as int)),
        decreases channels@.len() - i,
    {
        proof {
            let rest = channels@.subrange(i as int, channels@.len() as int);
            assert(rest.drop_first() =~= channels@.subrange(i + 1, channels@.len() as int));
        }
        list.push(ptr_to_slice(channels[i], num_vertices));
        i = i + 1;
    }
    proof {
        let rest = channels@.subrange(i as int, channels@.len() as int);
        assert(rest.len() == 0 || rest[0] == 0);
    }
    list
}

} // verus!
