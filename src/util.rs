//! LEB128 writers that report how many bytes they wrote.
use vstd::prelude::*;
use crate::numvalue::{sleb, uleb, signed, unsigned};

verus! {

/// Appends `val` to `w` as an unsigned LEB128 value and returns the number of
/// bytes written.
pub fn unsigned_leb128(w: &mut Vec<u8>, val: u64) -> (r: usize)
    ensures
        final(w)@ == old(w)@ + uleb(val as nat),
        r == uleb(val as nat).len(),
{
    let before = w.len();
    unsigned(w, val);
    w.len() - before
}

/// Appends `val` to `w` as a signed LEB128 value and returns the number of
/// bytes written.
pub fn signed_leb128(w: &mut Vec<u8>, val: i64) -> (r: usize)
    ensures
        final(w)@ == old(w)@ + sleb(val as int),
        r == sleb(val as int).len(),
{
    let before = w.len();
    signed(w, val);
    w.len() - before
}

} // verus!
