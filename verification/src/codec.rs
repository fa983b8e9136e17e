//! Little-endian fixed-width reads and writes on a byte buffer.
//!
//! The process-data frame is a packed little-endian record.  These functions
//! are the only way the core touches its bytes: each reads or writes one
//! field of 1, 2 or 4 bytes at a byte offset, with no alignment demand.

use vstd::prelude::*;

verus! {

/// The unsigned 16-bit value stored little-endian at `s[at..at + 2]`.
pub open spec fn spec_u16_le(s: Seq<u8>, at: int) -> int {
    s[at] as int + 256 * (s[at + 1] as int)
}

/// The unsigned 32-bit value stored little-endian at `s[at..at + 4]`.
pub open spec fn spec_u32_le(s: Seq<u8>, at: int) -> int {
    s[at] as int + 256 * (s[at + 1] as int) + 65536 * (s[at + 2] as int) + 16777216 * (s[at
        + 3] as int)
}

/// The two's-complement 32-bit value stored little-endian at `s[at..at + 4]`.
pub open spec fn spec_i32_le(s: Seq<u8>, at: int) -> int {
    let u = spec_u32_le(s, at);
    if u >= 0x8000_0000 {
        u - 0x1_0000_0000
    } else {
        u
    }
}

/// `s` with the bytes of `src` laid over `s[at..at + src.len()]`.
pub open spec fn spec_overlay(s: Seq<u8>, at: int, src: Seq<u8>) -> Seq<u8> {
    Seq::new(
        s.len(),
        |i: int|
            if at <= i < at + src.len() {
                src[i - at]
            } else {
                s[i]
            },
    )
}

/// The two bytes that encode `v` little-endian.
pub open spec fn spec_u16_to_le(v: int) -> Seq<u8> {
    seq![(v % 256) as u8, (v / 256 % 256) as u8]
}

/// The four bytes that encode the unsigned value `v` little-endian.
pub open spec fn spec_u32_to_le(v: int) -> Seq<u8> {
    seq![
        (v % 256) as u8,
        (v / 256 % 256) as u8,
        (v / 65536 % 256) as u8,
        (v / 16777216 % 256) as u8,
    ]
}

/// The four bytes that encode the signed value `v` in two's complement,
/// little-endian.
pub open spec fn spec_i32_to_le(v: int) -> Seq<u8> {
    spec_u32_to_le(
        if v < 0 {
            v + 0x1_0000_0000
        } else {
            v
        },
    )
}

/// A 16-bit field that lies clear of an overlay reads as before.
pub proof fn lemma_overlay_keeps_u16(s: Seq<u8>, at: int, src: Seq<u8>, field: int)
    requires
        0 <= field,
        field + 2 <= s.len(),
        field + 2 <= at || at + src.len() <= field,
    ensures
        spec_u16_le(spec_overlay(s, at, src), field) == spec_u16_le(s, field),
{
}

/// A 32-bit field that lies clear of an overlay reads as before.
pub proof fn lemma_overlay_keeps_u32(s: Seq<u8>, at: int, src: Seq<u8>, field: int)
    requires
        0 <= field,
        field + 4 <= s.len(),
        field + 4 <= at || at + src.len() <= field,
    ensures
        spec_u32_le(spec_overlay(s, at, src), field) == spec_u32_le(s, field),
        spec_i32_le(spec_overlay(s, at, src), field) == spec_i32_le(s, field),
{
}

/// Reads the `u16` stored little-endian at byte offset `at`.
pub fn read_u16_le<const N: usize>(bytes: &[u8; N], at: usize) -> (v: u16)
    requires
        at + 2 <= N,
    ensures
        v as int == spec_u16_le(bytes@, at as int),
    no_unwind
{
    let b0: u16 = bytes[at] as u16;
    let b1: u16 = bytes[at + 1] as u16;
    b0 + 256 * b1
}

/// Reads the `u32` stored little-endian at byte offset `at`.
pub fn read_u32_le<const N: usize>(bytes: &[u8; N], at: usize) -> (v: u32)
    requires
        at + 4 <= N,
    ensures
        v as int == spec_u32_le(bytes@, at as int),
    no_unwind
{
    let b0: u32 = bytes[at] as u32;
    let b1: u32 = bytes[at + 1] as u32;
    let b2: u32 = bytes[at + 2] as u32;
    let b3: u32 = bytes[at + 3] as u32;
    b0 + 256 * b1 + 65536 * b2 + 16777216 * b3
}

/// Reads the two's-complement `i32` stored little-endian at byte offset `at`.
pub fn read_i32_le<const N: usize>(bytes: &[u8; N], at: usize) -> (v: i32)
    requires
        at + 4 <= N,
    ensures
        v as int == spec_i32_le(bytes@, at as int),
    no_unwind
{
    let u: u32 = read_u32_le(bytes, at);
    if u >= 0x8000_0000 {
        let low: i32 = (u - 0x8000_0000) as i32;
        low - 0x4000_0000 - 0x4000_0000
    } else {
        u as i32
    }
}

/// Writes `v` little-endian at byte offset `at`; every other byte is kept.
pub fn write_u16_le<const N: usize>(bytes: &mut [u8; N], at: usize, v: u16)
    requires
        at + 2 <= N,
    ensures
        final(bytes)@ == spec_overlay(old(bytes)@, at as int, spec_u16_to_le(v as int)),
        spec_u16_le(final(bytes)@, at as int) == v,
    no_unwind
{
    bytes[at] = (v % 256) as u8;
    bytes[at + 1] = (v / 256) as u8;
    assert(bytes@ =~= spec_overlay(old(bytes)@, at as int, spec_u16_to_le(v as int)));
}

/// Writes `v` little-endian at byte offset `at`; every other byte is kept.
pub fn write_u32_le<const N: usize>(bytes: &mut [u8; N], at: usize, v: u32)
    requires
        at + 4 <= N,
    ensures
        final(bytes)@ == spec_overlay(old(bytes)@, at as int, spec_u32_to_le(v as int)),
        spec_u32_le(final(bytes)@, at as int) == v,
    no_unwind
{
    bytes[at] = (v % 256) as u8;
    bytes[at + 1] = (v / 256 % 256) as u8;
    bytes[at + 2] = (v / 65536 % 256) as u8;
    bytes[at + 3] = (v / 16777216) as u8;
    assert(bytes@ =~= spec_overlay(old(bytes)@, at as int, spec_u32_to_le(v as int)));
}

/// Writes `v` in two's complement, little-endian, at byte offset `at`; every
/// other byte is kept.
pub fn write_i32_le<const N: usize>(bytes: &mut [u8; N], at: usize, v: i32)
    requires
        at + 4 <= N,
    ensures
        final(bytes)@ == spec_overlay(old(bytes)@, at as int, spec_i32_to_le(v as int)),
        spec_i32_le(final(bytes)@, at as int) == v,
    no_unwind
{
    let u: u32 = if v < 0 {
        let low: u32 = (v + 0x4000_0000 + 0x4000_0000) as u32;
        low + 0x8000_0000
    } else {
        v as u32
    };
    write_u32_le(bytes, at, u);
}

} // verus!
