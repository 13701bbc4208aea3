//! Big-endian integer reads, as the bytecode and chunk formats use them.
//! The reads are performed by the `byteorder` crate; the contracts state the
//! big-endian value arithmetic that `u16::from_be_bytes` and friends compute.

use vstd::prelude::*;

verus! {

/// Big-endian value of two bytes.
pub open spec fn spec_u16_be(b0: u8, b1: u8) -> u16 {
    (b0 as int * 0x100 + b1 as int) as u16
}

/// Big-endian value of four bytes.
pub open spec fn spec_u32_be(b0: u8, b1: u8, b2: u8, b3: u8) -> u32 {
    (b0 as int * 0x1000000 + b1 as int * 0x10000 + b2 as int * 0x100 + b3 as int) as u32
}

/// Big-endian value of eight bytes.
pub open spec fn spec_u64_be(d: Seq<u8>) -> u64
    recommends
        d.len() == 8,
{
    (d[0] as int * 0x100000000000000
        + d[1] as int * 0x1000000000000
        + d[2] as int * 0x10000000000
        + d[3] as int * 0x100000000
        + d[4] as int * 0x1000000
        + d[5] as int * 0x10000
        + d[6] as int * 0x100
        + d[7] as int) as u64
}

/// Two's-complement reading of a 16-bit unsigned value.
pub open spec fn spec_i16_of_u16(v: u16) -> int {
    if v < 0x8000 {
        v as int
    } else {
        v as int - 0x10000
    }
}

/// Two's-complement reading of a 32-bit unsigned value.
pub open spec fn spec_i32_of_u32(v: u32) -> int {
    if v < 0x80000000 {
        v as int
    } else {
        v as int - 0x100000000
    }
}

/// Two's-complement reading of one byte.
pub open spec fn spec_i8_of_u8(b: u8) -> i8 {
    if b < 0x80 {
        b as i8
    } else {
        (b as int - 0x100) as i8
    }
}

/// The byte that holds `v` in two's complement.
pub open spec fn spec_u8_of_i8(v: i8) -> u8 {
    if v >= 0 {
        v as u8
    } else {
        (v + 0x100) as u8
    }
}

/// Reinterprets a byte as a signed value, in two's complement.
pub fn i8_of_u8(b: u8) -> (r: i8)
    ensures
        r == spec_i8_of_u8(b),
{
    if b < 0x80 {
        b as i8
    } else {
        ((b as i16) - 0x100) as i8
    }
}

/// The byte that holds `v` in two's complement.
pub fn u8_of_i8(v: i8) -> (r: u8)
    ensures
        r == spec_u8_of_i8(v),
{
    if v >= 0 {
        v as u8
    } else {
        ((v as i16) + 0x100) as u8
    }
}

/// Relies on `byteorder::BE::read_u16`: the big-endian `u16` held by the
/// first two bytes of `data` (it panics on fewer than two bytes).
#[verifier::external_body]
pub fn read_u16_be(data: &[u8]) -> (r: u16)
    requires
        data@.len() >= 2,
    ensures
        r == spec_u16_be(data@[0], data@[1]),
{
    <byteorder::BE as byteorder::ByteOrder>::read_u16(data)
}

/// Relies on `byteorder::BE::read_i16`: the big-endian `u16` held by the
/// first two bytes of `data`, reinterpreted in two's complement.
#[verifier::external_body]
pub fn read_i16_be(data: &[u8]) -> (r: i16)
    requires
        data@.len() >= 2,
    ensures
        r as int == spec_i16_of_u16(spec_u16_be(data@[0], data@[1])),
{
    <byteorder::BE as byteorder::ByteOrder>::read_i16(data)
}

/// Relies on `byteorder::BE::read_u32`: the big-endian `u32` held by the
/// first four bytes of `data` (it panics on fewer than four bytes).
#[verifier::external_body]
pub fn read_u32_be(data: &[u8]) -> (r: u32)
    requires
        data@.len() >= 4,
    ensures
        r == spec_u32_be(data@[0], data@[1], data@[2], data@[3]),
{
    <byteorder::BE as byteorder::ByteOrder>::read_u32(data)
}

/// Relies on `byteorder::BE::read_u64`: the big-endian `u64` held by the
/// first eight bytes of `data` (it panics on fewer than eight bytes).
#[verifier::external_body]
pub fn read_u64_be(data: &[u8]) -> (r: u64)
    requires
        data@.len() >= 8,
    ensures
        r == spec_u64_be(data@.subrange(0, 8)),
{
    <byteorder::BE as byteorder::ByteOrder>::read_u64(data)
}

} // verus!
