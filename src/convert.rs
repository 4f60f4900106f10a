//! Conversion of host values into parameters.
use vstd::prelude::*;
use vstd::string::StrSliceExecFns;
use vstd::utf8::encode_utf8;

use crate::model::{
    be32, be64, from_be64, lemma_be64_round_trip, null_value, ParamInfo, ParamType, ParamValue,
};

verus! {

/// A double precision value, held as its IEEE-754 bit pattern.
#[derive(Debug, Clone, Copy, PartialEq, Eq, Structural)]
pub struct Double {
    pub bits: u64,
}

/// A date and time as the protocol sends it: the day number and the time of
/// day in units of a ten-thousandth of a second.
#[derive(Debug, Clone, Copy, PartialEq, Eq, Structural)]
pub struct Timestamp {
    pub date: i32,
    pub time: u32,
}

/// Implemented for types that can be sent as parameters
pub trait ToParam: Sized {
    /// The parameter that the value becomes.
    spec fn param_spec(self) -> ParamValue;

    fn to_info(self) -> (r: ParamInfo)
        ensures
            r@ == self.param_spec(),
    ;
}

/// The eight bytes of `x`, most significant first.
fn be64_bytes(x: u64) -> (r: Vec<u8>)
    ensures
        r@ == be64(x),
{
    let mut v: Vec<u8> = Vec::new();
    v.push((x >> 56u64) as u8);
    v.push((x >> 48u64) as u8);
    v.push((x >> 40u64) as u8);
    v.push((x >> 32u64) as u8);
    v.push((x >> 24u64) as u8);
    v.push((x >> 16u64) as u8);
    v.push((x >> 8u64) as u8);
    v.push(x as u8);
    assert(v@ =~= be64(x));
    v
}

/// The four bytes of `x`, most significant first.
fn be32_bytes(x: u32) -> (r: Vec<u8>)
    ensures
        r@ == be32(x),
{
    let mut v: Vec<u8> = Vec::new();
    v.push((x >> 24u32) as u8);
    v.push((x >> 16u32) as u8);
    v.push((x >> 8u32) as u8);
    v.push(x as u8);
    assert(v@ =~= be32(x));
    v
}

/// The parameter of a text: its UTF-8 bytes, not null.
pub open spec fn text_value(s: Seq<char>) -> ParamValue {
    ParamValue { kind: ParamType::Text, bytes: encode_utf8(s), is_null: false }
}

/// The parameter of an integer: its two's complement bytes, most significant
/// first, not null.
pub open spec fn integer_value(x: i64) -> ParamValue {
    ParamValue { kind: ParamType::Integer, bytes: be64(x as u64), is_null: false }
}

/// The parameter of a double given by its bit pattern: the bytes of the
/// pattern, most significant first, not null.
pub open spec fn floating_value(bits: u64) -> ParamValue {
    ParamValue { kind: ParamType::Floating, bytes: be64(bits), is_null: false }
}

/// The parameter of a timestamp: the bytes of the day number then those of
/// the time of day, each most significant first, not null.
pub open spec fn timestamp_value(date: i32, time: u32) -> ParamValue {
    ParamValue {
        kind: ParamType::Timestamp,
        bytes: be32(date as u32) + be32(time),
        is_null: false,
    }
}

impl ToParam for String {
    open spec fn param_spec(self) -> ParamValue {
        text_value(self@)
    }

    fn to_info(self) -> (r: ParamInfo) {
        let buffer = self.as_str().as_bytes_vec();
        ParamInfo { sqltype: ParamType::Text, buffer, null: false }
    }
}

impl ToParam for i64 {
    open spec fn param_spec(self) -> ParamValue {
        integer_value(self)
    }

    fn to_info(self) -> (r: ParamInfo) {
        let buffer = be64_bytes(self as u64);
        ParamInfo { sqltype: ParamType::Integer, buffer, null: false }
    }
}

impl ToParam for i32 {
    open spec fn param_spec(self) -> ParamValue {
        integer_value(self as i64)
    }

    fn to_info(self) -> (r: ParamInfo) {
        (self as i64).to_info()
    }
}

impl ToParam for u32 {
    open spec fn param_spec(self) -> ParamValue {
        integer_value(self as i64)
    }

    fn to_info(self) -> (r: ParamInfo) {
        (self as i64).to_info()
    }
}

impl ToParam for i16 {
    open spec fn param_spec(self) -> ParamValue {
        integer_value(self as i64)
    }

    fn to_info(self) -> (r: ParamInfo) {
        (self as i64).to_info()
    }
}

impl ToParam for u16 {
    open spec fn param_spec(self) -> ParamValue {
        integer_value(self as i64)
    }

    fn to_info(self) -> (r: ParamInfo) {
        (self as i64).to_info()
    }
}

impl ToParam for i8 {
    open spec fn param_spec(self) -> ParamValue {
        integer_value(self as i64)
    }

    fn to_info(self) -> (r: ParamInfo) {
        (self as i64).to_info()
    }
}

impl ToParam for u8 {
    open spec fn param_spec(self) -> ParamValue {
        integer_value(self as i64)
    }

    fn to_info(self) -> (r: ParamInfo) {
        (self as i64).to_info()
    }
}

impl ToParam for Double {
    open spec fn param_spec(self) -> ParamValue {
        floating_value(self.bits)
    }

    fn to_info(self) -> (r: ParamInfo) {
        let buffer = be64_bytes(self.bits);
        ParamInfo { sqltype: ParamType::Floating, buffer, null: false }
    }
}

impl ToParam for Timestamp {
    open spec fn param_spec(self) -> ParamValue {
        timestamp_value(self.date, self.time)
    }

    fn to_info(self) -> (r: ParamInfo) {
        let mut buffer = be32_bytes(self.date as u32);
        let mut time = be32_bytes(self.time);
        buffer.append(&mut time);
        ParamInfo { sqltype: ParamType::Timestamp, buffer, null: false }
    }
}

/// Implements for all nullable variants
impl<T: ToParam> ToParam for Option<T> {
    open spec fn param_spec(self) -> ParamValue {
        match self {
            Some(v) => v.param_spec(),
            None => null_value(),
        }
    }

    fn to_info(self) -> (r: ParamInfo) {
        match self {
            Some(v) => v.to_info(),
            None => ParamInfo { sqltype: ParamType::Null, buffer: Vec::new(), null: true },
        }
    }
}

/// A borrowed text converts as the owned one.
impl<'a> ToParam for &'a str {
    open spec fn param_spec(self) -> ParamValue {
        text_value(self@)
    }

    fn to_info(self) -> (r: ParamInfo) {
        self.to_owned().to_info()
    }
}

/// A borrowed text converts as the owned one.
impl<'a> ToParam for &'a String {
    open spec fn param_spec(self) -> ParamValue {
        text_value(self@)
    }

    fn to_info(self) -> (r: ParamInfo) {
        self.clone().to_info()
    }
}

} // verus!

verus! {

/// An integer, converted and then read back as a big-endian signed 64-bit
/// integer, is the integer itself.
pub proof fn lemma_integer_round_trip(x: i64)
    ensures
        x.param_spec().kind == ParamType::Integer,
        x.param_spec().bytes.len() == 8,
        !x.param_spec().is_null,
        from_be64(x.param_spec().bytes) as i64 == x,
{
    lemma_be64_round_trip(x as u64);
    assert((x as u64) as i64 == x) by (bit_vector);
}

/// A double, converted and then read back as big-endian bytes, has the bit
/// pattern it was given.
pub proof fn lemma_floating_round_trip(d: Double)
    ensures
        d.param_spec().kind == ParamType::Floating,
        d.param_spec().bytes.len() == 8,
        !d.param_spec().is_null,
        from_be64(d.param_spec().bytes) == d.bits,
{
    lemma_be64_round_trip(d.bits);
}

/// A borrowed text converts exactly as the owned text does.
pub proof fn lemma_borrowed_text(s: &str, o: String)
    requires
        s@ == o@,
    ensures
        s.param_spec() == o.param_spec(),
        (&o).param_spec() == o.param_spec(),
{
}

/// A value of no value converts to a null of no data; a present value
/// converts as the value itself.
pub proof fn lemma_option<T: ToParam>(v: T)
    ensures
        Some(v).param_spec() == v.param_spec(),
        None::<T>.param_spec() == null_value(),
{
}

} // verus!
