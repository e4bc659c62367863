//! Enumerations that stand for one bit of a native flag word.

use vstd::prelude::*;

verus! {

/// A value that stands for one bit, or a few bits, of a native flag word.
pub trait FlagBit {
    /// The bits of the value.
    spec fn bits_spec(&self) -> u32;

    /// The bits of the value.
    fn bits(&self) -> (r: u32)
        ensures
            r == self.bits_spec(),
    ;
}

/// The bitwise OR of the bits of every value of a list.
pub open spec fn mask_of<T: FlagBit>(list: Seq<T>) -> u32
    decreases list.len(),
{
    if list.len() == 0 {
        0
    } else {
        mask_of(list.drop_last()) | list.last().bits_spec()
    }
}

/// The flag word of a list: the bitwise OR of the bits of its values.
pub fn fold_flags<T: FlagBit>(list: &[T]) -> (r: u32)
    ensures
        r == mask_of(list@),
{
    let mut acc: u32 = 0;
    let mut i: usize = 0;
    proof {
        assert(list@.subrange(0, 0) =~= Seq::<T>::empty());
    }
    while i < list.len()
        invariant
            i <= list@.len(),
            acc == mask_of(list@.subrange(0, i as int)),
        decreases list@.len() - i,
    {
        proof {
            assert(list@.subrange(0, i + 1).drop_last() =~= list@.subrange(0, i as int));
        }
        acc = acc | list[i].bits();
        i = i + 1;
    }
    proof {
        assert(list@.subrange(0, list@.len() as int) =~= list@);
    }
    acc
}

} // verus!
