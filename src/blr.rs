//! Encoding of a parameter list into a BLR message description and the
//! packed buffer of its values.
use bytes::Bytes;
use vstd::prelude::*;

use crate::buf::{
    bytes_contents,
    bytes_mut_contents,
    freeze,
    new_buffer,
    put_i32_le,
    put_slice,
    put_u16_le,
    put_u8,
};
use crate::model::{
    from_le16, infos_view, lemma_le16_round_trip, le16, le32, null_value, ParamInfo, ParamType,
    ParamValue, MAX_DATA_LENGTH,
};

verus! {

/// BLR version tag.
pub const BLR_VERSION5: u8 = 5;

/// BLR `begin` marker.
pub const BLR_BEGIN: u8 = 2;

/// BLR `message` opcode.
pub const BLR_MESSAGE: u8 = 4;

/// BLR tag of a fixed-length text field.
pub const BLR_TEXT: u8 = 14;

/// BLR tag of a 16-bit integer field.
pub const BLR_SHORT: u8 = 7;

/// BLR tag of a 64-bit integer field.
pub const BLR_INT64: u8 = 16;

/// BLR tag of a double precision field.
pub const BLR_DOUBLE: u8 = 27;

/// BLR tag of a timestamp field.
pub const BLR_TIMESTAMP: u8 = 35;

/// BLR `end` marker.
pub const BLR_END: u8 = 255;

/// BLR end of command.
pub const BLR_EOC: u8 = 76;

/// Most parameters that one message can describe: each takes two slots of a
/// 16-bit count.
pub const MAX_PARAMS: usize = 32767;

/// Why a parameter list could not be encoded.
#[derive(Debug, Clone, Copy, PartialEq, Eq, Structural)]
pub enum ParamsError {
    /// The data of one parameter is longer than `MAX_DATA_LENGTH` bytes.
    ValueTooLarge,
    /// The statement needs another number of parameters than was given.
    WrongParamCount { passed: i16, needed: i16 },
}

/// Data for the parameters to send in the wire
pub struct ParamsBlr {
    /// Definitions of the data types
    pub blr: Bytes,
    /// Actual values of the data
    pub values: Bytes,
}

/// Whether the data of every parameter fits in one field.
pub open spec fn all_fit(ps: Seq<ParamValue>) -> bool {
    forall|i: int| 0 <= i < ps.len() ==> #[trigger] ps[i].bytes.len() <= MAX_DATA_LENGTH
}

/// Number of zero bytes that bring a field of `n` bytes to a multiple of four.
pub open spec fn pad_len(n: nat) -> nat {
    if n % 4 == 0 {
        0
    } else {
        (4 - n % 4) as nat
    }
}

/// `n` zero bytes.
pub open spec fn zeros(n: nat) -> Seq<u8> {
    Seq::new(n, |i: int| 0u8)
}

/// The null indicator of a parameter: -1 when it is null, else 0.
pub open spec fn null_indicator(p: ParamValue) -> i32 {
    if p.is_null {
        -1i32
    } else {
        0i32
    }
}

/// The bytes that one parameter adds to the value buffer: its data, padded
/// with zeros to a multiple of four, then its null indicator.
pub open spec fn value_field(p: ParamValue) -> Seq<u8> {
    p.bytes + zeros(pad_len(p.bytes.len())) + le32(null_indicator(p))
}

/// The BLR type description of one parameter.
pub open spec fn type_descr(p: ParamValue) -> Seq<u8> {
    match p.kind {
        ParamType::Text => seq![BLR_TEXT] + le16(p.bytes.len() as u16),
        ParamType::Integer => seq![BLR_INT64, 0u8],
        ParamType::Floating => seq![BLR_DOUBLE],
        ParamType::Timestamp => seq![BLR_TIMESTAMP],
        ParamType::Null => seq![BLR_TEXT] + le16(0),
    }
}

/// The BLR that one parameter adds: its type, then its null indicator slot.
pub open spec fn field_descr(p: ParamValue) -> Seq<u8> {
    type_descr(p) + seq![BLR_SHORT, 0u8]
}

/// The value buffer of a list of parameters.
pub open spec fn values_of(ps: Seq<ParamValue>) -> Seq<u8>
    decreases ps.len(),
{
    if ps.len() == 0 {
        Seq::empty()
    } else {
        values_of(ps.drop_last()) + value_field(ps.last())
    }
}

/// The field descriptions of a list of parameters, in order.
pub open spec fn fields_of(ps: Seq<ParamValue>) -> Seq<u8>
    decreases ps.len(),
{
    if ps.len() == 0 {
        Seq::empty()
    } else {
        fields_of(ps.drop_last()) + field_descr(ps.last())
    }
}

/// The four bytes that open every parameter message.
pub open spec fn preamble() -> Seq<u8> {
    seq![BLR_VERSION5, BLR_BEGIN, BLR_MESSAGE, 0u8]
}

/// The two bytes that close every parameter message.
pub open spec fn terminator() -> Seq<u8> {
    seq![BLR_END, BLR_EOC]
}

/// The message description of a list of parameters.
pub open spec fn blr_of(ps: Seq<ParamValue>) -> Seq<u8> {
    preamble() + le16((2 * ps.len()) as u16) + fields_of(ps) + terminator()
}

/// Convert the parameters to a blr (binary representation)
pub fn params_to_blr(params: &[ParamInfo]) -> (r: Result<ParamsBlr, ParamsError>)
    requires
        params@.len() <= MAX_PARAMS,
    ensures
        match r {
            Ok(out) => {
                &&& all_fit(infos_view(params@))
                &&& bytes_contents(out.blr) == blr_of(infos_view(params@))
                &&& bytes_contents(out.values) == values_of(infos_view(params@))
            },
            Err(e) => !all_fit(infos_view(params@)) && e == ParamsError::ValueTooLarge,
        },
{
    let ghost ps = infos_view(params@);
    let mut blr = new_buffer(256);
    let mut values = new_buffer(256);

    let head: [u8; 4] = [
        BLR_VERSION5,
        BLR_BEGIN,
        BLR_MESSAGE,
        0,  // Message index
    ];
    put_slice(&mut blr, head.as_slice());
    // Message length, * 2 as there is 1 msg for the param type and another for the nullind
    put_u16_le(&mut blr, params.len() as u16 * 2);
    assert(bytes_mut_contents(blr) =~= preamble() + le16((2 * ps.len()) as u16));

    let mut i: usize = 0;
    while i < params.len()
        invariant
            ps == infos_view(params@),
            params@.len() <= MAX_PARAMS,
            0 <= i <= params@.len(),
            all_fit(ps.take(i as int)),
            bytes_mut_contents(blr) == preamble() + le16((2 * ps.len()) as u16) + fields_of(
                ps.take(i as int),
            ),
            bytes_mut_contents(values) == values_of(ps.take(i as int)),
            bytes_mut_contents(blr).len() <= 6 + 6 * i,
            bytes_mut_contents(values).len() <= 32774 * i,
        decreases params@.len() - i,
    {
        let p = &params[i];
        let len = p.buffer.len();
        if len > MAX_DATA_LENGTH {
            assert(ps[i as int].bytes.len() > MAX_DATA_LENGTH);
            return Err(ParamsError::ValueTooLarge);
        }
        assert(32774 * i <= 32774 * MAX_PARAMS) by (nonlinear_arith)
            requires
                i <= MAX_PARAMS,
        ;
        put_slice(&mut values, p.buffer.as_slice());
        if len % 4 != 0 {
            let mut pad: Vec<u8> = Vec::new();
            while pad.len() < 4 - len % 4
                invariant
                    pad@ == zeros(pad@.len() as nat),
                    pad@.len() <= 4 - len % 4,
                decreases 4 - len % 4 - pad@.len(),
            {
                pad.push(0);
                assert(pad@ =~= zeros(pad@.len() as nat));
            }
            put_slice(&mut values, pad.as_slice());
        } else {
            let ghost v = bytes_mut_contents(values);
            assert(v =~= v + zeros(0));
        }
        put_i32_le(&mut values, if p.null { -1 } else { 0 });

        match p.sqltype {
            ParamType::Text => {
                put_u8(&mut blr, BLR_TEXT);
                put_u16_le(&mut blr, len as u16);
            },
            ParamType::Integer => {
                let tag: [u8; 2] = [
                    BLR_INT64,
                    0,  // Scale
                ];
                put_slice(&mut blr, tag.as_slice());
            },
            ParamType::Floating => put_u8(&mut blr, BLR_DOUBLE),
            ParamType::Timestamp => put_u8(&mut blr, BLR_TIMESTAMP),
            ParamType::Null => {
                // Represent as empty text
                put_u8(&mut blr, BLR_TEXT);
                put_u16_le(&mut blr, 0);
            },
        }
        // Nullind
        let nullind: [u8; 2] = [BLR_SHORT, 0];
        put_slice(&mut blr, nullind.as_slice());

        proof {
            let t = ps.take(i + 1);
            assert(t.drop_last() =~= ps.take(i as int));
            assert(t.last() == ps[i as int]);
            assert(bytes_mut_contents(values) =~= values_of(t));
            assert(bytes_mut_contents(blr) =~= preamble() + le16((2 * ps.len()) as u16)
                + fields_of(t));
            assert(all_fit(t));
        }
        i = i + 1;
    }
    let end: [u8; 2] = [BLR_END, BLR_EOC];
    put_slice(&mut blr, end.as_slice());
    assert(ps.take(params@.len() as int) =~= ps);
    assert(bytes_mut_contents(blr) =~= blr_of(ps));

    Ok(ParamsBlr { blr: freeze(blr), values: freeze(values) })
}

} // verus!

verus! {

/// The value buffer of two lists, one after the other, is the value buffer
/// of the first followed by that of the second.
pub proof fn lemma_values_concat(ps: Seq<ParamValue>, qs: Seq<ParamValue>)
    ensures
        values_of(ps + qs) == values_of(ps) + values_of(qs),
    decreases qs.len(),
{
    if qs.len() == 0 {
        assert(ps + qs =~= ps);
        assert(values_of(ps) + values_of(qs) =~= values_of(ps));
    } else {
        assert((ps + qs).drop_last() =~= ps + qs.drop_last());
        lemma_values_concat(ps, qs.drop_last());
        assert(values_of(ps + qs) =~= values_of(ps) + values_of(qs));
    }
}

/// The field descriptions of two lists, one after the other, are those of
/// the first followed by those of the second.
pub proof fn lemma_fields_concat(ps: Seq<ParamValue>, qs: Seq<ParamValue>)
    ensures
        fields_of(ps + qs) == fields_of(ps) + fields_of(qs),
    decreases qs.len(),
{
    if qs.len() == 0 {
        assert(ps + qs =~= ps);
        assert(fields_of(ps) + fields_of(qs) =~= fields_of(ps));
    } else {
        assert((ps + qs).drop_last() =~= ps + qs.drop_last());
        lemma_fields_concat(ps, qs.drop_last());
        assert(fields_of(ps + qs) =~= fields_of(ps) + fields_of(qs));
    }
}

/// The value buffer of every list has a length that is a multiple of four.
pub proof fn lemma_values_aligned(ps: Seq<ParamValue>)
    ensures
        values_of(ps).len() % 4 == 0,
    decreases ps.len(),
{
    if ps.len() > 0 {
        lemma_values_aligned(ps.drop_last());
    }
}

/// Wherever a text parameter stands in a list, its field description gives
/// the exact length of its data, and the value buffer holds that data padded
/// with zeros to a multiple of four, then the null indicator 0.
pub proof fn lemma_text_param(ps: Seq<ParamValue>, p: ParamValue, qs: Seq<ParamValue>)
    requires
        p.kind == ParamType::Text,
        !p.is_null,
        p.bytes.len() <= MAX_DATA_LENGTH,
    ensures
        fields_of(ps + seq![p] + qs) == fields_of(ps) + seq![BLR_TEXT] + le16(
            p.bytes.len() as u16,
        ) + seq![BLR_SHORT, 0u8] + fields_of(qs),
        from_le16(le16(p.bytes.len() as u16)) == p.bytes.len(),
        values_of(ps + seq![p] + qs) == values_of(ps) + p.bytes + zeros(pad_len(p.bytes.len()))
            + seq![0u8, 0u8, 0u8, 0u8] + values_of(qs),
        (p.bytes.len() + pad_len(p.bytes.len())) % 4 == 0,
{
    lemma_one_param(ps, p, qs);
    lemma_le16_round_trip(p.bytes.len() as u16);
    assert(le32(0i32) =~= seq![0u8, 0u8, 0u8, 0u8]) by {
        assert(0i32 as u8 == 0u8 && (0i32 >> 8i32) as u8 == 0u8 && (0i32 >> 16i32) as u8 == 0u8
            && (0i32 >> 24i32) as u8 == 0u8) by (bit_vector);
    }
    assert(fields_of(ps + seq![p] + qs) =~= fields_of(ps) + seq![BLR_TEXT] + le16(
        p.bytes.len() as u16,
    ) + seq![BLR_SHORT, 0u8] + fields_of(qs));
    assert(values_of(ps + seq![p] + qs) =~= values_of(ps) + p.bytes + zeros(
        pad_len(p.bytes.len()),
    ) + seq![0u8, 0u8, 0u8, 0u8] + values_of(qs));
}

/// Wherever a null parameter stands in a list, it is described as text of
/// length 0, and adds no data to the value buffer but the null indicator -1.
pub proof fn lemma_null_param(ps: Seq<ParamValue>, qs: Seq<ParamValue>)
    ensures
        fields_of(ps + seq![null_value()] + qs) == fields_of(ps) + seq![
            BLR_TEXT,
            0u8,
            0u8,
            BLR_SHORT,
            0u8,
        ] + fields_of(qs),
        values_of(ps + seq![null_value()] + qs) == values_of(ps) + seq![
            255u8,
            255u8,
            255u8,
            255u8,
        ] + values_of(qs),
{
    let p = null_value();
    lemma_one_param(ps, p, qs);
    assert(le16(0u16) =~= seq![0u8, 0u8]) by {
        assert(0u16 as u8 == 0u8 && (0u16 >> 8u16) as u8 == 0u8) by (bit_vector);
    }
    assert(le32(-1i32) =~= seq![255u8, 255u8, 255u8, 255u8]) by {
        assert(-1i32 as u8 == 255u8 && (-1i32 >> 8i32) as u8 == 255u8 && (-1i32 >> 16i32) as u8
            == 255u8 && (-1i32 >> 24i32) as u8 == 255u8) by (bit_vector);
    }
    assert(zeros(0) =~= Seq::<u8>::empty());
    assert(fields_of(ps + seq![p] + qs) =~= fields_of(ps) + seq![
        BLR_TEXT,
        0u8,
        0u8,
        BLR_SHORT,
        0u8,
    ] + fields_of(qs));
    assert(values_of(ps + seq![p] + qs) =~= values_of(ps) + seq![255u8, 255u8, 255u8, 255u8]
        + values_of(qs));
}

/// The encoding of one parameter in the middle of a list.
proof fn lemma_one_param(ps: Seq<ParamValue>, p: ParamValue, qs: Seq<ParamValue>)
    ensures
        fields_of(ps + seq![p] + qs) == fields_of(ps) + field_descr(p) + fields_of(qs),
        values_of(ps + seq![p] + qs) == values_of(ps) + value_field(p) + values_of(qs),
{
    lemma_fields_concat(ps + seq![p], qs);
    lemma_values_concat(ps + seq![p], qs);
    assert((ps + seq![p]).drop_last() =~= ps);
}

/// The message description of `N` parameters counts `2N` slots and ends
/// with the terminator pair.
pub proof fn lemma_count_and_terminator(ps: Seq<ParamValue>)
    requires
        ps.len() <= MAX_PARAMS,
    ensures
        blr_of(ps).subrange(0, 4) == preamble(),
        from_le16(blr_of(ps).subrange(4, 6)) == 2 * ps.len(),
        blr_of(ps).subrange(blr_of(ps).len() - 2, blr_of(ps).len() as int) == terminator(),
{
    let b = blr_of(ps);
    let c = (2 * ps.len()) as u16;
    lemma_le16_round_trip(c);
    assert(b.subrange(0, 4) =~= preamble());
    assert(b.subrange(4, 6) =~= le16(c));
    assert(b.subrange(b.len() - 2, b.len() as int) =~= terminator());
}

/// The empty list is described by the preamble, a count of 0 and the
/// terminator, and has an empty value buffer.
pub proof fn lemma_empty_list()
    ensures
        blr_of(Seq::empty()) == seq![
            BLR_VERSION5,
            BLR_BEGIN,
            BLR_MESSAGE,
            0u8,
            0u8,
            0u8,
            BLR_END,
            BLR_EOC,
        ],
        values_of(Seq::empty()) == Seq::<u8>::empty(),
{
    assert(le16(0u16) =~= seq![0u8, 0u8]) by {
        assert(0u16 as u8 == 0u8 && (0u16 >> 8u16) as u8 == 0u8) by (bit_vector);
    }
    assert(blr_of(Seq::empty()) =~= seq![
        BLR_VERSION5,
        BLR_BEGIN,
        BLR_MESSAGE,
        0u8,
        0u8,
        0u8,
        BLR_END,
        BLR_EOC,
    ]);
}

} // verus!
