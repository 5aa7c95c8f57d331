//! Numbers as bytes on the bus: most significant byte first.

use vstd::prelude::*;

verus! {

/// The four bytes of `x`, most significant first.
pub open spec fn be_bytes_of_u32(x: u32) -> Seq<u8> {
    seq![
        (x / 0x100_0000) as u8,
        (x / 0x1_0000 % 0x100) as u8,
        (x / 0x100 % 0x100) as u8,
        (x % 0x100) as u8,
    ]
}

/// The two bytes of `x`, most significant first.
pub open spec fn be_bytes_of_u16(x: u16) -> Seq<u8> {
    seq![(x / 0x100) as u8, (x % 0x100) as u8]
}

/// The unsigned number with the same sixteen bits as `x` in two's
/// complement.
pub open spec fn bits_of_i16(x: i16) -> u16 {
    if x < 0 {
        (x + 0x1_0000) as u16
    } else {
        x as u16
    }
}

/// The two bytes of `x` in two's complement, most significant first.
pub open spec fn be_bytes_of_i16(x: i16) -> Seq<u8> {
    be_bytes_of_u16(bits_of_i16(x))
}

/// The number that four bytes stand for, most significant first.
pub open spec fn u32_of_be_bytes(bytes: Seq<u8>) -> int
    recommends
        bytes.len() == 4,
{
    bytes[0] * 0x100_0000 + bytes[1] * 0x1_0000 + bytes[2] * 0x100 + bytes[3]
}

/// Writes `x` as four bytes, most significant first.
pub fn u32_to_be_bytes(x: u32) -> (bytes: [u8; 4])
    ensures
        bytes@ == be_bytes_of_u32(x),
{
    let bytes: [u8; 4] = [
        (x / 0x100_0000) as u8,
        (x / 0x1_0000 % 0x100) as u8,
        (x / 0x100 % 0x100) as u8,
        (x % 0x100) as u8,
    ];
    assert(bytes@ =~= be_bytes_of_u32(x));
    bytes
}

/// Writes `x` as two bytes, most significant first.
pub fn u16_to_be_bytes(x: u16) -> (bytes: [u8; 2])
    ensures
        bytes@ == be_bytes_of_u16(x),
{
    let bytes: [u8; 2] = [(x / 0x100) as u8, (x % 0x100) as u8];
    assert(bytes@ =~= be_bytes_of_u16(x));
    bytes
}

/// Writes `x` in two's complement as two bytes, most significant first.
pub fn i16_to_be_bytes(x: i16) -> (bytes: [u8; 2])
    ensures
        bytes@ == be_bytes_of_i16(x),
{
    let bits: u16 = if x < 0 {
        (x as i32 + 0x1_0000) as u16
    } else {
        x as u16
    };
    u16_to_be_bytes(bits)
}

/// The bytes of a number give the number back: nothing is lost on the bus.
pub proof fn lemma_be_bytes_roundtrip(x: u32)
    ensures
        be_bytes_of_u32(x).len() == 4,
        u32_of_be_bytes(be_bytes_of_u32(x)) == x,
{
}

/// The bit at place `place` of a byte, where place 0 is the least
/// significant.
pub open spec fn bit_of(x: u8, place: u8) -> bool {
    x & (1u8 << place) > 0
}

/// The byte `x` with the bit at place `place` set to `value`.
pub open spec fn with_bit(x: u8, place: u8, value: bool) -> u8 {
    (x & !(1u8 << place)) | ((if value {
        1u8
    } else {
        0u8
    }) << place)
}

/// Setting one bit of a byte changes that bit and no other.
pub proof fn lemma_one_bit_changes(x: u8, place: u8, value: bool)
    requires
        place < 8,
    ensures
        forall|other: u8|
            other < 8 ==> #[trigger] bit_of(with_bit(x, place, value), other) == (if other
                == place {
                value
            } else {
                bit_of(x, other)
            }),
{
    let bit: u8 = if value {
        1u8
    } else {
        0u8
    };
    assert forall|other: u8| other < 8 implies #[trigger] bit_of(
        with_bit(x, place, value),
        other,
    ) == (if other == place {
        value
    } else {
        bit_of(x, other)
    }) by {
        assert((((x & !(1u8 << place)) | (bit << place)) & (1u8 << other) > 0) == (if other
            == place {
            bit == 1u8
        } else {
            x & (1u8 << other) > 0
        })) by (bit_vector)
            requires
                place < 8,
                other < 8,
                bit == 0u8 || bit == 1u8,
        ;
    }
}

/// A byte is its eight bits: two bytes that agree in every bit are the same
/// byte.
pub proof fn lemma_bits_determine_byte(a: u8, b: u8)
    requires
        forall|place: u8| place < 8 ==> bit_of(a, place) == bit_of(b, place),
    ensures
        a == b,
{
    assert(bit_of(a, 0) == bit_of(b, 0));
    assert(bit_of(a, 1) == bit_of(b, 1));
    assert(bit_of(a, 2) == bit_of(b, 2));
    assert(bit_of(a, 3) == bit_of(b, 3));
    assert(bit_of(a, 4) == bit_of(b, 4));
    assert(bit_of(a, 5) == bit_of(b, 5));
    assert(bit_of(a, 6) == bit_of(b, 6));
    assert(bit_of(a, 7) == bit_of(b, 7));
    assert(a == b) by (bit_vector)
        requires
            (a & (1u8 << 0u8) > 0) == (b & (1u8 << 0u8) > 0),
            (a & (1u8 << 1u8) > 0) == (b & (1u8 << 1u8) > 0),
            (a & (1u8 << 2u8) > 0) == (b & (1u8 << 2u8) > 0),
            (a & (1u8 << 3u8) > 0) == (b & (1u8 << 3u8) > 0),
            (a & (1u8 << 4u8) > 0) == (b & (1u8 << 4u8) > 0),
            (a & (1u8 << 5u8) > 0) == (b & (1u8 << 5u8) > 0),
            (a & (1u8 << 6u8) > 0) == (b & (1u8 << 6u8) > 0),
            (a & (1u8 << 7u8) > 0) == (b & (1u8 << 7u8) > 0),
    ;
}

/// No bit of the zero byte is set.
pub proof fn lemma_zero_has_no_bit(place: u8)
    requires
        place < 8,
    ensures
        !bit_of(0u8, place),
{
    assert(!(0u8 & (1u8 << place) > 0)) by (bit_vector)
        requires
            place < 8,
    ;
}

} // verus!
