//! The parameter record and the byte layouts it is built from.
use vstd::prelude::*;

verus! {

/// Largest length, in bytes, of the data of one parameter.
pub const MAX_DATA_LENGTH: usize = 32767;

/// How a parameter is sent on the wire.
#[derive(Debug, Clone, Copy, PartialEq, Eq, Structural)]
pub enum ParamType {
    /// Send as text
    Text,
    /// Send as bigint
    Integer,
    /// Send as double
    Floating,
    /// Send as timestamp
    Timestamp,
    /// Send as null
    Null,
}

/// Mathematical model of one parameter: its kind, its encoded bytes and its
/// null flag.
pub ghost struct ParamValue {
    pub kind: ParamType,
    pub bytes: Seq<u8>,
    pub is_null: bool,
}

/// Data used to build one input parameter.
pub struct ParamInfo {
    pub sqltype: ParamType,
    pub buffer: Vec<u8>,
    pub null: bool,
}

impl View for ParamInfo {
    type V = ParamValue;

    open spec fn view(&self) -> ParamValue {
        ParamValue { kind: self.sqltype, bytes: self.buffer@, is_null: self.null }
    }
}

/// The models of a list of parameters.
pub open spec fn infos_view(params: Seq<ParamInfo>) -> Seq<ParamValue> {
    params.map_values(|p: ParamInfo| p@)
}

/// The value that a parameter of no value takes.
pub open spec fn null_value() -> ParamValue {
    ParamValue { kind: ParamType::Null, bytes: Seq::empty(), is_null: true }
}

/// The eight bytes of `x`, most significant first.
pub open spec fn be64(x: u64) -> Seq<u8> {
    seq![
        (x >> 56u64) as u8,
        (x >> 48u64) as u8,
        (x >> 40u64) as u8,
        (x >> 32u64) as u8,
        (x >> 24u64) as u8,
        (x >> 16u64) as u8,
        (x >> 8u64) as u8,
        x as u8,
    ]
}

/// The integer that eight bytes stand for, most significant first.
pub open spec fn from_be64(b: Seq<u8>) -> u64
    recommends
        b.len() == 8,
{
    (b[0] as u64) << 56u64 | (b[1] as u64) << 48u64 | (b[2] as u64) << 40u64 | (b[3] as u64)
        << 32u64 | (b[4] as u64) << 24u64 | (b[5] as u64) << 16u64 | (b[6] as u64) << 8u64 | (
    b[7] as u64)
}

/// The four bytes of `x`, most significant first.
pub open spec fn be32(x: u32) -> Seq<u8> {
    seq![(x >> 24u32) as u8, (x >> 16u32) as u8, (x >> 8u32) as u8, x as u8]
}

/// The two bytes of `x`, least significant first.
pub open spec fn le16(x: u16) -> Seq<u8> {
    seq![x as u8, (x >> 8u16) as u8]
}

/// The four bytes of `x`, least significant first.
pub open spec fn le32(x: i32) -> Seq<u8> {
    seq![x as u8, (x >> 8i32) as u8, (x >> 16i32) as u8, (x >> 24i32) as u8]
}

/// The integer that two bytes stand for, least significant first.
pub open spec fn from_le16(b: Seq<u8>) -> u16
    recommends
        b.len() == 2,
{
    (b[0] as u16) | (b[1] as u16) << 8u16
}

/// Decoding the little-endian bytes of a 16-bit integer gives the integer
/// back.
pub proof fn lemma_le16_round_trip(x: u16)
    ensures
        from_le16(le16(x)) == x,
{
    assert((x as u8 as u16) | ((x >> 8u16) as u8 as u16) << 8u16 == x) by (bit_vector);
}

/// Decoding the big-endian bytes of a 64-bit integer gives the integer back.
pub proof fn lemma_be64_round_trip(x: u64)
    ensures
        from_be64(be64(x)) == x,
{
    let b = be64(x);
    assert(((x >> 56u64) as u8 as u64) << 56u64 | ((x >> 48u64) as u8 as u64) << 48u64 | ((x
        >> 40u64) as u8 as u64) << 40u64 | ((x >> 32u64) as u8 as u64) << 32u64 | ((x >> 24u64)
        as u8 as u64) << 24u64 | ((x >> 16u64) as u8 as u64) << 16u64 | ((x >> 8u64) as u8
        as u64) << 8u64 | (x as u8 as u64) == x) by (bit_vector);
}

} // verus!
