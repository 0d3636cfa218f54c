//! Byte orders of the integers on the wire.
use vstd::prelude::*;

verus! {

/// The two bytes of `x`, most significant first.
pub open spec fn be16(x: u16) -> Seq<u8> {
    seq![(x / 256) as u8, (x % 256) as u8]
}

/// The four bytes of `x`, most significant first.
pub open spec fn be32(x: u32) -> Seq<u8> {
    seq![
        (x / 0x1000000) as u8,
        (x / 0x10000 % 256) as u8,
        (x / 256 % 256) as u8,
        (x % 256) as u8,
    ]
}

/// The number whose bytes are `hi` and `lo`.
pub open spec fn join16(hi: u8, lo: u8) -> u16 {
    (hi * 256 + lo) as u16
}

/// Puts the most significant byte first.
pub fn u16_to_be_bytes(x: u16) -> (bytes: Vec<u8>)
    ensures
        bytes@ == be16(x),
        bytes@.len() == 2,
        bytes@[0] * 0x100 + bytes@[1] == x,
{
    vec![(x / 256) as u8, (x % 256) as u8]
}

/// Puts the most significant byte first.
pub fn u32_to_be_bytes(x: u32) -> (bytes: Vec<u8>)
    ensures
        bytes@ == be32(x),
        bytes@.len() == 4,
        bytes@[0] * 0x1000000 + bytes@[1] * 0x10000 + bytes@[2] * 0x100 + bytes@[3] == x,
{
    vec![
        (x / 0x1000000) as u8,
        (x / 0x10000 % 256) as u8,
        (x / 256 % 256) as u8,
        (x % 256) as u8,
    ]
}

/// Reads `bytes` with the most significant byte first.
pub fn u16_from_be_bytes(bytes: [u8; 2]) -> (x: u16)
    ensures
        x == join16(bytes[0], bytes[1]),
        x == bytes[0] * 0x100 + bytes[1],
{
    bytes[0] as u16 * 256 + bytes[1] as u16
}

/// Reads `bytes` with the least significant byte first.
pub fn u16_from_le_bytes(bytes: [u8; 2]) -> (x: u16)
    ensures
        x == join16(bytes[1], bytes[0]),
        x == bytes[0] + bytes[1] * 0x100,
{
    bytes[1] as u16 * 256 + bytes[0] as u16
}

/// Reading the two bytes of a number back gives the number.
pub proof fn law_be16_round_trip(x: u16)
    ensures
        be16(x).len() == 2,
        join16(be16(x)[0], be16(x)[1]) == x,
{
}

/// A number is read from the two bytes it is written as, and from no others.
pub proof fn law_join16_round_trip(hi: u8, lo: u8)
    ensures
        be16(join16(hi, lo)) == seq![hi, lo],
{
}

/// The two bytes of a number have its value, the first counted in 256s.
pub proof fn law_be16_value(x: u16)
    ensures
        be16(x).len() == 2,
        be16(x)[0] * 0x100 + be16(x)[1] == x,
{
}

/// The four bytes of a number have its value, each counted in 256s of the next.
pub proof fn law_be32_value(x: u32)
    ensures
        be32(x).len() == 4,
        be32(x)[0] * 0x1000000 + be32(x)[1] * 0x10000 + be32(x)[2] * 0x100 + be32(x)[3] == x,
{
}

/// Two bytes make the number of which the first counts the 256s and the second the ones.
pub proof fn law_join16_value(hi: u8, lo: u8)
    ensures
        join16(hi, lo) == hi * 0x100 + lo,
{
}

/// Two numbers with the same four bytes are the same number.
pub proof fn law_be32_injective(x: u32, y: u32)
    requires
        be32(x) == be32(y),
    ensures
        x == y,
{
    let a = be32(x);
    assert(x == a[0] * 0x1000000 + a[1] * 0x10000 + a[2] * 256 + a[3]);
    assert(y == a[0] * 0x1000000 + a[1] * 0x10000 + a[2] * 256 + a[3]);
}

} // verus!
