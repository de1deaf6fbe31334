//! Interpreting one argument cell as a discriminated value: the numeric
//! byte-level decoding and the `ArgValue` type extensions consume.

use vstd::prelude::*;

use crate::host::{valid_arg_type, DECIMAL_RESULT, INT_RESULT, REAL_RESULT, STRING_RESULT};

verus! {

/// The unsigned number stored in eight little-endian bytes.
pub open spec fn le_u64(s: Seq<u8>) -> int
    recommends
        s.len() == 8,
{
    s[0] + s[1] * 0x100 + s[2] * 0x1_0000 + s[3] * 0x100_0000 + s[4] * 0x1_0000_0000 + s[5]
        * 0x100_0000_0000 + s[6] * 0x1_0000_0000_0000 + s[7] * 0x100_0000_0000_0000
}

/// The signed 64-bit number stored in eight little-endian two's-complement
/// bytes.
pub open spec fn le_i64(s: Seq<u8>) -> int
    recommends
        s.len() == 8,
{
    if le_u64(s) < 0x8000_0000_0000_0000 {
        le_u64(s)
    } else {
        le_u64(s) - 0x1_0000_0000_0000_0000
    }
}

/// Reads the unsigned number out of an eight-byte little-endian region.
pub fn decode_u64(b: &Vec<u8>) -> (r: u64)
    requires
        b@.len() == 8,
    ensures
        r == le_u64(b@),
{
    (b[0] as u64) + (b[1] as u64) * 0x100 + (b[2] as u64) * 0x1_0000 + (b[3] as u64) * 0x100_0000
        + (b[4] as u64) * 0x1_0000_0000 + (b[5] as u64) * 0x100_0000_0000 + (b[6] as u64)
        * 0x1_0000_0000_0000 + (b[7] as u64) * 0x100_0000_0000_0000
}

/// Reads the signed number out of an eight-byte little-endian
/// two's-complement region.
pub fn decode_i64(b: &Vec<u8>) -> (r: i64)
    requires
        b@.len() == 8,
    ensures
        r == le_i64(b@),
{
    let u: u64 = decode_u64(b);
    if u < 0x8000_0000_0000_0000 {
        u as i64
    } else {
        -((0xFFFF_FFFF_FFFF_FFFFu64 - u) as i64) - 1
    }
}

/// One argument interpreted according to its type tag. A `None` payload
/// stands for a host-side NULL (the cell's data pointer was null). Real
/// values are carried as the 64 bits of their double-precision encoding;
/// turning those bits into a native floating-point value is left to the
/// unverified boundary around this crate.
pub enum ArgValue<'a> {
    /// Text bytes of exactly the cell's declared length.
    Text(Option<&'a [u8]>),
    /// The bit pattern of a double-precision value.
    Real(Option<u64>),
    /// A signed 64-bit integer.
    Integer(Option<i64>),
    /// A decimal rendered as bytes of exactly the cell's declared length.
    Decimal(Option<&'a [u8]>),
}

/// Exactly when `v` is the correct reading of a cell with tag `tag` and data
/// region `data`: the variant matches the tag, the payload is `None` exactly
/// when the data pointer was null, and a present payload is the decoded
/// number or the borrowed bytes.
pub open spec fn arg_value_matches(v: ArgValue, tag: i32, data: Option<Seq<u8>>) -> bool {
    match v {
        ArgValue::Text(p) => {
            &&& tag == STRING_RESULT
            &&& match (p, data) {
                (Some(b), Some(d)) => b@ == d,
                (None, None) => true,
                _ => false,
            }
        },
        ArgValue::Real(p) => {
            &&& tag == REAL_RESULT
            &&& match (p, data) {
                (Some(bits), Some(d)) => bits == le_u64(d),
                (None, None) => true,
                _ => false,
            }
        },
        ArgValue::Integer(p) => {
            &&& tag == INT_RESULT
            &&& match (p, data) {
                (Some(n), Some(d)) => n == le_i64(d),
                (None, None) => true,
                _ => false,
            }
        },
        ArgValue::Decimal(p) => {
            &&& tag == DECIMAL_RESULT
            &&& match (p, data) {
                (Some(b), Some(d)) => b@ == d,
                (None, None) => true,
                _ => false,
            }
        },
    }
}

/// The view of a cell's data region: the pointed-to bytes, or `None` for a
/// null pointer.
pub open spec fn data_view(d: Option<Vec<u8>>) -> Option<Seq<u8>> {
    match d {
        Some(v) => Some(v@),
        None => None,
    }
}

impl<'a> ArgValue<'a> {
    /// The payload is absent, whichever variant carries it.
    pub open spec fn payload_is_none(&self) -> bool {
        match *self {
            ArgValue::Text(p) => p is None,
            ArgValue::Real(p) => p is None,
            ArgValue::Integer(p) => p is None,
            ArgValue::Decimal(p) => p is None,
        }
    }

    /// Interprets one cell's raw pieces as a discriminated value. The host's
    /// interface defines only the four known tags, so a cell with any other
    /// tag is outside this function's contract: continuing with one would
    /// fabricate data.
    pub fn new(arg_type: i32, arg: &'a Option<Vec<u8>>, length: u64) -> (v: ArgValue<'a>)
        requires
            valid_arg_type(arg_type),
            arg matches Some(d) ==> {
                if arg_type == INT_RESULT || arg_type == REAL_RESULT {
                    d@.len() == 8
                } else {
                    d@.len() == length
                }
            },
        ensures
            arg_value_matches(v, arg_type, data_view(*arg)),
    {
        if arg_type == STRING_RESULT {
            ArgValue::Text(
                match arg {
                    Some(d) => Some(d.as_slice()),
                    None => None,
                },
            )
        } else if arg_type == REAL_RESULT {
            ArgValue::Real(
                match arg {
                    Some(d) => Some(decode_u64(d)),
                    None => None,
                },
            )
        } else if arg_type == INT_RESULT {
            ArgValue::Integer(
                match arg {
                    Some(d) => Some(decode_i64(d)),
                    None => None,
                },
            )
        } else {
            ArgValue::Decimal(
                match arg {
                    Some(d) => Some(d.as_slice()),
                    None => None,
                },
            )
        }
    }
}

/// A cell whose data pointer is null reads as a `None` payload, whatever its
/// type tag.
pub proof fn lemma_null_data_yields_none(v: ArgValue, tag: i32)
    requires
        arg_value_matches(v, tag, None),
    ensures
        v.payload_is_none(),
{
}

} // verus!
