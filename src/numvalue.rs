//! Variable-length integer codec (LEB128) and fixed-width float bit patterns.
use vstd::prelude::*;

verus! {

/// The unsigned LEB128 encoding of `v`: seven bits per byte, low bits first,
/// the high bit set on every byte but the last.
pub open spec fn uleb(v: nat) -> Seq<u8>
    decreases v,
{
    if v < 128 {
        seq![v as u8]
    } else {
        seq![(v % 128 + 128) as u8] + uleb(v / 128)
    }
}

/// The magnitude of `v`, which shrinks at each step of the signed encoding.
pub open spec fn abs_measure(v: int) -> nat {
    if v >= 0 {
        v as nat
    } else {
        (-v) as nat
    }
}

/// The signed LEB128 encoding of `v`: like `uleb`, but the last byte ends as
/// soon as bit 6 of it, read as a sign, gives back the remaining value.
pub open spec fn sleb(v: int) -> Seq<u8>
    decreases abs_measure(v),
{
    if -64 <= v < 64 {
        seq![(v % 128) as u8]
    } else {
        seq![(v % 128 + 128) as u8] + sleb(v / 128)
    }
}

const CONTINUATION_BIT: u8 = 0x80;

fn low_bits_of_byte(byte: u8) -> (r: u8)
    ensures
        r as nat == byte as nat % 128,
{
    let r = byte & !CONTINUATION_BIT;
    assert(byte & !0x80u8 == byte % 128) by (bit_vector);
    r
}

fn low_bits_of_u64(val: u64) -> (r: u8)
    ensures
        r as nat == val as nat % 128,
{
    let byte = val & (u8::MAX as u64);
    assert(val & 0xffu64 == val % 256) by (bit_vector);
    assert((val % 256) % 128 == val % 128) by (nonlinear_arith);
    low_bits_of_byte(byte as u8)
}

/// Appends the unsigned LEB128 encoding of `val` to `w`.
pub fn unsigned(w: &mut Vec<u8>, input: u64)
    ensures
        final(w)@ == old(w)@ + uleb(input as nat),
{
    let ghost start = w@;
    let ghost orig = input;
    let mut val = input;
    loop
        invariant
            start == old(w)@,
            orig == input,
            w@ + uleb(val as nat) == start + uleb(orig as nat),
        decreases val,
    {
        let ghost before = w@;
        let ghost v = val;
        let mut byte = low_bits_of_u64(val);
        assert(v >> 7 == v / 128) by (bit_vector);
        val = val >> 7;
        if val != 0 {
            assert(byte < 128 ==> byte | 0x80u8 == byte + 128) by (bit_vector);
            byte = byte | CONTINUATION_BIT;
        }
        w.push(byte);
        if val == 0 {
            assert(uleb(v as nat) =~= seq![byte]);
            assert(w@ =~= before + uleb(v as nat));
            return;
        }
        assert(uleb(v as nat) == seq![byte] + uleb(val as nat));
        assert(w@ + uleb(val as nat) =~= before + uleb(v as nat));
    }
}

/// Appends the signed LEB128 encoding of `val` to `w`.
pub fn signed(w: &mut Vec<u8>, input: i64)
    ensures
        final(w)@ == old(w)@ + sleb(input as int),
{
    let ghost start = w@;
    let mut val = input;
    loop
        invariant
            start == old(w)@,
            w@ + sleb(val as int) == start + sleb(input as int),
        decreases abs_measure(val as int),
    {
        let ghost before = w@;
        let ghost v = val;
        let low: i64 = match val.checked_rem_euclid(128) {
            Some(r) => r,
            None => 0,
        };
        let rest: i64 = match val.checked_div_euclid(128) {
            Some(q) => q,
            None => 0,
        };
        // The byte is the last one when the value shifted by six bits is all
        // zeros or all ones: bit 6 of the byte then carries the sign.
        let shifted = val >> 6u32;
        assert((v >> 6u32 == 0i64 || v >> 6u32 == -1i64) <==> (-64 <= v && v < 64)) by (bit_vector);
        let done = shifted == 0 || shifted == -1;
        if done {
            w.push(low as u8);
            assert(sleb(v as int) =~= seq![low as u8]);
            assert(w@ =~= before + sleb(v as int));
            return;
        }
        w.push((low + 128) as u8);
        assert(sleb(v as int) == seq![(low + 128) as u8] + sleb(rest as int));
        assert(w@ + sleb(rest as int) =~= before + sleb(v as int));
        val = rest;
    }
}

/// The `n` low bytes of `v`, least significant first.
pub open spec fn le_bytes(v: nat, n: nat) -> Seq<u8>
    decreases n,
{
    if n == 0 {
        Seq::empty()
    } else {
        seq![(v % 256) as u8] + le_bytes(v / 256, (n - 1) as nat)
    }
}

fn write_le(w: &mut Vec<u8>, input: u64, n: usize)
    ensures
        final(w)@ == old(w)@ + le_bytes(input as nat, n as nat),
{
    let ghost start = w@;
    let mut val = input;
    let mut i: usize = 0;
    while i < n
        invariant
            start == old(w)@,
            i <= n,
            w@ + le_bytes(val as nat, (n - i) as nat) == start + le_bytes(input as nat, n as nat),
        decreases n - i,
    {
        let ghost before = w@;
        let ghost v = val;
        w.push((val % 256) as u8);
        val = val / 256;
        i = i + 1;
        assert(le_bytes(v as nat, (n - i + 1) as nat) == seq![(v % 256) as u8] + le_bytes(val as nat, (n - i) as nat));
        assert(w@ + le_bytes(val as nat, (n - i) as nat) =~= before + le_bytes(v as nat, (n - i + 1) as nat));
    }
}

/// Appends the four bytes of the bit pattern of a 4-byte float, little-endian.
pub fn write_f32_bits(w: &mut Vec<u8>, bits: u32)
    ensures
        final(w)@ == old(w)@ + le_bytes(bits as nat, 4),
{
    write_le(w, bits as u64, 4);
}

/// Appends the eight bytes of the bit pattern of an 8-byte float, little-endian.
pub fn write_f64_bits(w: &mut Vec<u8>, bits: u64)
    ensures
        final(w)@ == old(w)@ + le_bytes(bits as nat, 8),
{
    write_le(w, bits, 8);
}

/// Reads an unsigned LEB128 value from the front of `s`: the value and the
/// number of bytes it takes, or `None` when `s` ends before its last byte.
pub open spec fn read_uleb(s: Seq<u8>) -> Option<(nat, nat)>
    decreases s.len(),
{
    if s.len() == 0 {
        None
    } else if s[0] < 128 {
        Some((s[0] as nat, 1nat))
    } else {
        match read_uleb(s.drop_first()) {
            Some((v, n)) => Some(((s[0] - 128) as nat + 128 * v, n + 1)),
            None => None,
        }
    }
}

/// Reads a signed LEB128 value from the front of `s`: the value and the number
/// of bytes it takes. Bit 6 of the last byte is the sign of what is left.
pub open spec fn read_sleb(s: Seq<u8>) -> Option<(int, nat)>
    decreases s.len(),
{
    if s.len() == 0 {
        None
    } else if s[0] < 128 {
        Some((if s[0] < 64 { s[0] as int } else { s[0] - 128 }, 1nat))
    } else {
        match read_sleb(s.drop_first()) {
            Some((v, n)) => Some((s[0] - 128 + 128 * v, n + 1)),
            None => None,
        }
    }
}

/// Reading back the unsigned encoding of any value gives that value, and
/// stops exactly at the end of the encoding, whatever bytes follow it.
pub proof fn lemma_uleb_round_trip(v: nat, rest: Seq<u8>)
    ensures
        read_uleb(uleb(v) + rest) == Some((v, uleb(v).len())),
    decreases v,
{
    let s = uleb(v) + rest;
    if v >= 128 {
        lemma_uleb_round_trip(v / 128, rest);
        assert(s.drop_first() =~= uleb(v / 128) + rest);
    }
}

/// Reading back the signed encoding of any value gives that value, and stops
/// exactly at the end of the encoding, whatever bytes follow it.
pub proof fn lemma_sleb_round_trip(v: int, rest: Seq<u8>)
    ensures
        read_sleb(sleb(v) + rest) == Some((v, sleb(v).len())),
    decreases abs_measure(v),
{
    let s = sleb(v) + rest;
    if !(-64 <= v < 64) {
        lemma_sleb_round_trip(v / 128, rest);
        assert(s.drop_first() =~= sleb(v / 128) + rest);
    }
}

/// Unsigned round trip: decoding the encoding of any unsigned 64-bit value
/// gives it back.
pub proof fn unsigned_round_trip(v: u64)
    ensures
        read_uleb(uleb(v as nat)) == Some((v as nat, uleb(v as nat).len())),
{
    lemma_uleb_round_trip(v as nat, Seq::empty());
    assert(uleb(v as nat) + Seq::<u8>::empty() =~= uleb(v as nat));
}

/// Signed round trip: decoding the encoding of any signed 64-bit value gives
/// it back.
pub proof fn signed_round_trip(v: i64)
    ensures
        read_sleb(sleb(v as int)) == Some((v as int, sleb(v as int).len())),
{
    lemma_sleb_round_trip(v as int, Seq::empty());
    assert(sleb(v as int) + Seq::<u8>::empty() =~= sleb(v as int));
}

} // verus!
