//! Big-endian integers on the wire.
use vstd::arithmetic::div_mod::lemma_div_denominator;
use vstd::arithmetic::div_mod::lemma_fundamental_div_mod;
use vstd::arithmetic::div_mod::lemma_fundamental_div_mod_converse;
use vstd::prelude::*;
use vstd::slice::slice_subrange;
use vstd::slice::slice_to_vec;

verus! {

/// The sixteen-bit value that two octets spell, most significant first.
pub open spec fn be16(hi: u8, lo: u8) -> u16 {
    (hi as int * 256 + lo as int) as u16
}

/// The thirty-two-bit value that four octets spell, most significant first.
pub open spec fn be32(b0: u8, b1: u8, b2: u8, b3: u8) -> u32 {
    (b0 as int * 16777216 + b1 as int * 65536 + b2 as int * 256 + b3 as int) as u32
}

/// The two octets of a sixteen-bit value, most significant first.
pub open spec fn u16_octets(v: u16) -> Seq<u8> {
    seq![(v / 256) as u8, (v % 256) as u8]
}

/// The four octets of a thirty-two-bit value, most significant first.
pub open spec fn u32_octets(v: u32) -> Seq<u8> {
    seq![
        (v / 16777216) as u8,
        ((v / 65536) % 256) as u8,
        ((v / 256) % 256) as u8,
        (v % 256) as u8,
    ]
}

/// Reading back the octets of a sixteen-bit value gives the value.
pub proof fn lemma_be16_of_octets(v: u16)
    ensures
        u16_octets(v).len() == 2,
        be16(u16_octets(v)[0], u16_octets(v)[1]) == v,
{
    lemma_fundamental_div_mod(v as int, 256);
}

/// Writing out the value that two octets spell gives the two octets.
pub proof fn lemma_octets_of_be16(hi: u8, lo: u8)
    ensures
        u16_octets(be16(hi, lo)) == seq![hi, lo],
{
    lemma_fundamental_div_mod_converse(be16(hi, lo) as int, 256, hi as int, lo as int);
}

/// Reading back the octets of a thirty-two-bit value gives the value.
pub proof fn lemma_be32_of_octets(v: u32)
    ensures
        u32_octets(v).len() == 4,
        be32(u32_octets(v)[0], u32_octets(v)[1], u32_octets(v)[2], u32_octets(v)[3]) == v,
{
    let q2: int = v as int / 256;
    let q1: int = q2 / 256;
    lemma_fundamental_div_mod(v as int, 256);
    lemma_fundamental_div_mod(q2, 256);
    lemma_fundamental_div_mod(q1, 256);
    lemma_div_denominator(v as int, 256, 256);
    lemma_div_denominator(v as int, 65536, 256);
}

/// Reads the big-endian sixteen-bit integer at `at`.
pub(crate) fn read_u16(input: &[u8], at: usize) -> (v: u16)
    requires
        at + 2 <= input@.len(),
    ensures
        v == be16(input@[at as int], input@[at + 1]),
{
    let hi: u16 = input[at] as u16;
    let lo: u16 = input[at + 1] as u16;
    hi * 256 + lo
}

/// Reads the big-endian thirty-two-bit integer at `at`.
pub(crate) fn read_u32(input: &[u8], at: usize) -> (v: u32)
    requires
        at + 4 <= input@.len(),
    ensures
        v == be32(input@[at as int], input@[at + 1], input@[at + 2], input@[at + 3]),
{
    let b0: u32 = input[at] as u32;
    let b1: u32 = input[at + 1] as u32;
    let b2: u32 = input[at + 2] as u32;
    let b3: u32 = input[at + 3] as u32;
    b0 * 16777216 + b1 * 65536 + b2 * 256 + b3
}

/// Appends a sixteen-bit integer, most significant octet first.
pub(crate) fn write_u16(out: &mut Vec<u8>, v: u16)
    ensures
        final(out)@ == old(out)@ + u16_octets(v),
{
    out.push((v / 256) as u8);
    out.push((v % 256) as u8);
}

/// Appends a thirty-two-bit integer, most significant octet first.
pub(crate) fn write_u32(out: &mut Vec<u8>, v: u32)
    ensures
        final(out)@ == old(out)@ + u32_octets(v),
{
    out.push((v / 16777216) as u8);
    out.push(((v / 65536) % 256) as u8);
    out.push(((v / 256) % 256) as u8);
    out.push((v % 256) as u8);
}

/// Copies the octets of `input` from `from` up to `to` into a vector.
pub(crate) fn copy_range(input: &[u8], from: usize, to: usize) -> (v: Vec<u8>)
    requires
        from <= to <= input@.len(),
    ensures
        v@ == input@.subrange(from as int, to as int),
{
    slice_to_vec(slice_subrange(input, from, to))
}

/// Appends all of `bytes` to `out`.
pub(crate) fn write_octets(out: &mut Vec<u8>, bytes: &[u8])
    ensures
        final(out)@ == old(out)@ + bytes@,
{
    let mut i: usize = 0;
    while i < bytes.len()
        invariant
            i <= bytes@.len(),
            out@ == old(out)@ + bytes@.subrange(0, i as int),
        decreases bytes@.len() - i,
    {
        out.push(bytes[i]);
        i += 1;
    }
}

} // verus!
