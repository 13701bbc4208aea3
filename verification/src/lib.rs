//! A verified re-implementation of a tick-driven music-sequencer virtual
//! machine: three instruction decoders (sequence, channel, layer tier), a
//! shared bounded-stack script state, and the three-tier interpreter that
//! turns sequence bytecode into note and parameter events.

use vstd::prelude::*;

pub mod aiff;
pub mod bank;
pub mod bytes;
pub mod channel;
pub mod layer;
pub mod sequence;
pub mod state;

verus! {

/// A decoder's recoverable failure: the byte under the cursor selects no
/// instruction of this tier, or the buffer ends inside an operand.
#[derive(Debug, Clone, Copy, PartialEq, Eq, Structural)]
pub enum DecodeError {
    /// The opcode byte maps to no instruction of the decoder's tier.
    UnknownOpcode(u8),
    /// The buffer ends before the instruction's operands do.
    Truncated,
}

/// Value of a variable-length operand: values below `0x80` occupy one byte;
/// otherwise the top bit of the first byte is set and the remaining 15 bits
/// (7 low bits of the first byte, then the second byte) hold the magnitude.
pub open spec fn spec_var_value(b0: u8, b1: u8) -> u16 {
    if b0 & 0x80 == 0 {
        b0 as u16
    } else {
        (((b0 & 0x7f) as int) * 256 + b1 as int) as u16
    }
}

/// Number of bytes a variable-length operand starting with `b0` occupies.
pub open spec fn spec_var_size(b0: u8) -> int {
    if b0 & 0x80 == 0 {
        1
    } else {
        2
    }
}

/// Reads a variable-length operand at offset `i` of `d`: the value and the
/// number of bytes it occupies, or `None` when the buffer ends inside it.
pub open spec fn spec_read_var_at(d: Seq<u8>, i: int) -> Option<(u16, int)> {
    if 0 <= i < d.len() {
        if d[i] & 0x80 == 0 {
            Some((d[i] as u16, 1))
        } else if i + 1 < d.len() {
            Some((spec_var_value(d[i], d[i + 1]), 2))
        } else {
            None
        }
    } else {
        None
    }
}

/// A variable-length operand's value fits in 15 bits.
pub proof fn lemma_var_at_bound(d: Seq<u8>, i: int)
    ensures
        spec_read_var_at(d, i) matches Some(r) ==> r.0 <= 0x7fff,
{
    if 0 <= i < d.len() && d[i] & 0x80 != 0 && i + 1 < d.len() {
        let b0 = d[i];
        assert(b0 & 0x7f <= 0x7f) by (bit_vector);
    }
}

/// Canonical byte form of a variable-length operand.
pub open spec fn spec_encode_var(v: u16) -> Seq<u8>
    recommends
        v <= 0x7fff,
{
    if v < 0x80 {
        seq![v as u8]
    } else {
        seq![((v / 0x100) as u8 | 0x80), (v % 0x100) as u8]
    }
}

/// The two bytes of a two-byte variable-length operand recombine to its value.
pub proof fn lemma_var_bytes(v: u16)
    requires
        0x80 <= v <= 0x7fff,
    ensures
        ((v / 0x100) as u8 | 0x80) & 0x80 != 0,
        spec_var_value((v / 0x100) as u8 | 0x80, (v % 0x100) as u8) == v,
{
    let hi: u8 = (v / 0x100) as u8;
    assert(hi <= 0x7f);
    assert((hi | 0x80) & 0x80 != 0 && (hi | 0x80) & 0x7f == hi) by (bit_vector)
        requires
            hi <= 0x7f,
    ;
    assert(spec_var_value(hi | 0x80, (v % 0x100) as u8) == hi as int * 256 + v % 0x100);
}

/// Joining a low nibble onto a high-nibble opcode base keeps both recoverable.
pub proof fn lemma_nibble_or(base: u8, i: u8)
    requires
        base & 0x0f == 0,
        i <= 0x0f,
    ensures
        (base | i) & 0x0f == i,
        base <= (base | i) <= (base | 0x0f),
        (base | i) & 0xf0 == base,
{
    assert(((base | i) & 0x0f == i) && (base <= (base | i)) && ((base | i) <= (base | 0x0f))
        && ((base | i) & 0xf0 == base)) by (bit_vector)
        requires
            base & 0x0f == 0,
            i <= 0x0f,
    ;
}

/// Appends the canonical byte form of a variable-length operand.
pub fn push_var(out: &mut Vec<u8>, v: u16)
    requires
        v <= 0x7fff,
    ensures
        final(out)@ == old(out)@ + spec_encode_var(v),
{
    if v < 0x80 {
        out.push(v as u8);
    } else {
        out.push((v / 0x100) as u8 | 0x80);
        out.push((v % 0x100) as u8);
    }
    assert(out@ =~= old(out)@ + spec_encode_var(v));
}

/// Appends a 16-bit value in big-endian order.
pub fn push_u16_be(out: &mut Vec<u8>, v: u16)
    ensures
        final(out)@ == old(out)@ + seq![(v / 0x100) as u8, (v % 0x100) as u8],
{
    out.push((v / 0x100) as u8);
    out.push((v % 0x100) as u8);
    assert(out@ =~= old(out)@ + seq![(v / 0x100) as u8, (v % 0x100) as u8]);
}

/// Reads a variable-length operand from the start of `data`.
/// Returns the value and the number of bytes consumed.
pub fn read_var(data: &[u8]) -> (r: (u16, usize))
    requires
        data@.len() >= 1,
        data@[0] & 0x80 != 0 ==> data@.len() >= 2,
    ensures
        data@[0] & 0x80 == 0 ==> r == (data@[0] as u16, 1usize),
        data@[0] & 0x80 != 0 ==> r == (spec_var_value(data@[0], data@[1]), 2usize),
{
    let b0 = data[0];
    if b0 & 0x80 == 0 {
        (b0 as u16, 1)
    } else {
        let hi = (b0 & 0x7f) as u16;
        ((hi * 256) + data[1] as u16, 2)
    }
}

} // verus!
