//! Copying byte ranges.

use vstd::prelude::*;

verus! {

/// The bytes from `from` up to `to`.
pub fn copy_range(bytes: &Vec<u8>, from: usize, to: usize) -> (r: Vec<u8>)
    requires
        from <= to <= bytes@.len(),
    ensures
        r@ == bytes@.subrange(from as int, to as int),
{
    let mut copied: Vec<u8> = Vec::new();
    let mut index: usize = from;
    while index < to
        invariant
            from <= index <= to <= bytes@.len(),
            copied@ == bytes@.subrange(from as int, index as int),
        decreases to - index,
    {
        copied.push(bytes[index]);
        assert(copied@ =~= bytes@.subrange(from as int, index + 1));
        index = index + 1;
    }
    copied
}

} // verus!
