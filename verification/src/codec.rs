//! Marshaling a sql value to its wire form — type code, subtype, null
//! indicator and payload bytes — and back.
//!
//! The payload encodings are fixed: integers and float bit patterns as
//! eight little-endian bytes, timestamps as day count then nanoseconds,
//! text as its UTF-8 bytes (inline or as a BLOB of subtype 1, by length),
//! binary as itself, booleans as one byte. A marshaled value unmarshals to
//! exactly the value it came from.

use vstd::bytes::{
    lemma_auto_spec_u32_to_from_le_bytes,
    lemma_auto_spec_u64_to_from_le_bytes,
    spec_u32_from_le_bytes,
    spec_u32_to_le_bytes,
    spec_u64_from_le_bytes,
    spec_u64_to_le_bytes,
    u32_from_le_bytes,
    u32_to_le_bytes,
    u64_from_le_bytes,
    u64_to_le_bytes,
};
use vstd::prelude::*;
use vstd::slice::slice_to_vec;
use vstd::utf8::{decode_utf8, encode_utf8, encode_utf8_decode_utf8, encode_utf8_valid_utf8, valid_utf8};

use crate::error::FbError;
use crate::value::{
    spec_sqlvar_codes,
    SqlType,
    SqlValueModel,
    Timestamp,
    SQL_BLOB,
    SQL_BOOLEAN,
    SQL_DOUBLE,
    SQL_INT64,
    SQL_TEXT,
    SQL_TIMESTAMP,
};

verus! {

/// The wire form of one sql value: the SQLVAR type and subtype codes, the
/// null indicator, and the payload bytes.
#[derive(Debug, Clone)]
pub struct MarshaledValue {
    pub sql_type: u32,
    pub subtype: u32,
    pub null: bool,
    pub data: Vec<u8>,
}

/// The payload bytes a value marshals to.
pub open spec fn spec_marshal_data(v: SqlValueModel) -> Seq<u8> {
    match v {
        SqlValueModel::Text(s) => encode_utf8(s),
        SqlValueModel::Integer(i) => spec_u64_to_le_bytes(i as u64),
        SqlValueModel::Floating(b) => spec_u64_to_le_bytes(b),
        SqlValueModel::Timestamp(t) => spec_u32_to_le_bytes(t.days as u32) + spec_u64_to_le_bytes(
            t.nanos_of_day,
        ),
        SqlValueModel::Binary(b) => b,
        SqlValueModel::Boolean(b) => seq![
            if b {
                1u8
            } else {
                0u8
            },
        ],
        SqlValueModel::Null => Seq::<u8>::empty(),
    }
}

/// The whole wire form a value marshals to: (type code, subtype, null
/// indicator, payload).
pub open spec fn spec_marshal(v: SqlValueModel) -> (u32, u32, bool, Seq<u8>) {
    (spec_sqlvar_codes(v).0, spec_sqlvar_codes(v).1, v is Null, spec_marshal_data(v))
}

/// The value a wire form unmarshals to, if any.
pub open spec fn spec_unmarshal(sql_type: u32, subtype: u32, null: bool, data: Seq<u8>) -> Option<
    SqlValueModel,
> {
    if null {
        Some(SqlValueModel::Null)
    } else if sql_type == SQL_TEXT + 1 || (sql_type == SQL_BLOB + 1 && subtype == 1) {
        if valid_utf8(data) {
            Some(SqlValueModel::Text(decode_utf8(data)))
        } else {
            None
        }
    } else if sql_type == SQL_BLOB + 1 && subtype == 0 {
        Some(SqlValueModel::Binary(data))
    } else if sql_type == SQL_INT64 + 1 {
        if data.len() == 8 {
            Some(SqlValueModel::Integer(spec_u64_from_le_bytes(data) as i64))
        } else {
            None
        }
    } else if sql_type == SQL_DOUBLE + 1 {
        if data.len() == 8 {
            Some(SqlValueModel::Floating(spec_u64_from_le_bytes(data)))
        } else {
            None
        }
    } else if sql_type == SQL_TIMESTAMP + 1 {
        if data.len() == 12 {
            Some(
                SqlValueModel::Timestamp(
                    Timestamp {
                        days: spec_u32_from_le_bytes(data.take(4)) as i32,
                        nanos_of_day: spec_u64_from_le_bytes(data.skip(4)),
                    },
                ),
            )
        } else {
            None
        }
    } else if sql_type == SQL_BOOLEAN + 1 {
        if data == seq![1u8] {
            Some(SqlValueModel::Boolean(true))
        } else if data == seq![0u8] {
            Some(SqlValueModel::Boolean(false))
        } else {
            None
        }
    } else {
        None
    }
}

/// Marshals a value to its wire form.
pub fn marshal(v: &SqlType) -> (m: MarshaledValue)
    ensures
        (m.sql_type, m.subtype, m.null, m.data@) == spec_marshal(v@),
{
    let codes = v.sqlvar_codes();
    let data: Vec<u8> = match v {
        SqlType::Text(s) => slice_to_vec(s.as_str().as_bytes()),
        SqlType::Integer(i) => u64_to_le_bytes(#[verifier::truncate] (*i as u64)),
        SqlType::Floating(b) => u64_to_le_bytes(*b),
        SqlType::Timestamp(t) => {
            let mut d = u32_to_le_bytes(#[verifier::truncate] (t.days as u32));
            let mut n = u64_to_le_bytes(t.nanos_of_day);
            d.append(&mut n);
            d
        },
        SqlType::Binary(b) => slice_to_vec(b.as_slice()),
        SqlType::Boolean(b) => {
            let byte: u8 = if *b {
                1
            } else {
                0
            };
            let mut d: Vec<u8> = Vec::new();
            d.push(byte);
            d
        },
        SqlType::Null => Vec::new(),
    };
    proof {
        if v@ is Boolean {
            assert(data@ =~= spec_marshal_data(v@));
        }
        if v@ is Null {
            assert(data@ =~= spec_marshal_data(v@));
        }
    }
    MarshaledValue { sql_type: codes.0, subtype: codes.1, null: v.is_null(), data }
}

/// Unmarshals a wire form back to a value; a malformed payload is a
/// conversion failure.
pub fn unmarshal(m: &MarshaledValue) -> (r: Result<SqlType, FbError>)
    ensures
        match spec_unmarshal(m.sql_type, m.subtype, m.null, m.data@) {
            Some(mv) => r matches Ok(v) && v@ == mv,
            None => r matches Err(e) && e is ConversionFailure,
        },
{
    if m.null {
        Ok(SqlType::Null)
    } else if m.sql_type == SQL_TEXT + 1 || (m.sql_type == SQL_BLOB + 1 && m.subtype == 1) {
        match string_from_utf8(slice_to_vec(m.data.as_slice())) {
            Some(s) => {
                proof {
                    encode_utf8_valid_utf8(s@);
                    encode_utf8_decode_utf8(s@);
                }
                Ok(SqlType::Text(s))
            },
            None => Err(FbError::conversion("payload is not valid utf-8")),
        }
    } else if m.sql_type == SQL_BLOB + 1 && m.subtype == 0 {
        Ok(SqlType::Binary(slice_to_vec(m.data.as_slice())))
    } else if m.sql_type == SQL_INT64 + 1 {
        if m.data.len() == 8 {
            let x = u64_from_le_bytes(m.data.as_slice());
            Ok(SqlType::Integer(#[verifier::truncate] (x as i64)))
        } else {
            Err(FbError::conversion("bad integer payload"))
        }
    } else if m.sql_type == SQL_DOUBLE + 1 {
        if m.data.len() == 8 {
            Ok(SqlType::Floating(u64_from_le_bytes(m.data.as_slice())))
        } else {
            Err(FbError::conversion("bad float payload"))
        }
    } else if m.sql_type == SQL_TIMESTAMP + 1 {
        if m.data.len() == 12 {
            let day_part = slice_subrange(m.data.as_slice(), 0, 4);
            let nano_part = slice_subrange(m.data.as_slice(), 4, 12);
            let days = u32_from_le_bytes(day_part.as_slice());
            let nanos = u64_from_le_bytes(nano_part.as_slice());
            Ok(
                SqlType::Timestamp(
                    Timestamp {
                        days: #[verifier::truncate] (days as i32),
                        nanos_of_day: nanos,
                    },
                ),
            )
        } else {
            Err(FbError::conversion("bad timestamp payload"))
        }
    } else if m.sql_type == SQL_BOOLEAN + 1 {
        if m.data.len() == 1 {
            let b = m.data[0];
            proof {
                if b == 1 {
                    assert(m.data@ =~= seq![1u8]);
                } else if b == 0 {
                    assert(m.data@ =~= seq![0u8]);
                } else {
                    assert(m.data@ != seq![1u8] && m.data@ != seq![0u8]) by {
                        assert(m.data@[0] == b);
                    }
                }
            }
            if b == 1 {
                Ok(SqlType::Boolean(true))
            } else if b == 0 {
                Ok(SqlType::Boolean(false))
            } else {
                Err(FbError::conversion("bad boolean payload"))
            }
        } else {
            proof {
                assert(m.data@ != seq![1u8] && m.data@ != seq![0u8]);
            }
            Err(FbError::conversion("bad boolean payload"))
        }
    } else {
        Err(FbError::conversion("unknown type code"))
    }
}

/// Copies `slice[from..to]` into a fresh vector.
fn slice_subrange(slice: &[u8], from: usize, to: usize) -> (r: Vec<u8>)
    requires
        from <= to <= slice@.len(),
    ensures
        r@ == slice@.subrange(from as int, to as int),
{
    let mut r: Vec<u8> = Vec::new();
    let mut i: usize = from;
    while i < to
        invariant
            from <= i <= to <= slice@.len(),
            r@ == slice@.subrange(from as int, i as int),
        decreases to - i,
    {
        let b = slice[i];
        r.push(b);
        proof {
            assert(r@ =~= slice@.subrange(from as int, (i + 1) as int));
        }
        i += 1;
    }
    r
}

/// Relies on `String::from_utf8`: `Ok` exactly when the bytes are valid
/// UTF-8, and then the returned string is the one those bytes encode.
#[verifier::external_body]
fn string_from_utf8(bytes: Vec<u8>) -> (r: Option<String>)
    ensures
        r matches Some(s) ==> encode_utf8(s@) == bytes@,
        r is Some <==> valid_utf8(bytes@),
{
    match String::from_utf8(bytes) {
        Ok(s) => Some(s),
        Err(_) => None,
    }
}

/// Law: marshaling any value and unmarshaling the result gives back
/// exactly the value marshaled — whichever path it travelled, inline text
/// or BLOB included.
pub proof fn lemma_marshal_round_trip(v: SqlValueModel)
    ensures
        ({
            let m = spec_marshal(v);
            spec_unmarshal(m.0, m.1, m.2, m.3) == Some(v)
        }),
{
    let m = spec_marshal(v);
    lemma_auto_spec_u64_to_from_le_bytes();
    lemma_auto_spec_u32_to_from_le_bytes();
    match v {
        SqlValueModel::Text(s) => {
            encode_utf8_valid_utf8(s);
            encode_utf8_decode_utf8(s);
        },
        SqlValueModel::Integer(i) => {
            assert(spec_u64_from_le_bytes(spec_u64_to_le_bytes(i as u64)) == i as u64);
            assert((i as u64) as i64 == i) by (bit_vector);
        },
        SqlValueModel::Floating(_) => {},
        SqlValueModel::Timestamp(t) => {
            let d = spec_u32_to_le_bytes(t.days as u32);
            let n = spec_u64_to_le_bytes(t.nanos_of_day);
            assert((d + n).take(4) =~= d);
            assert((d + n).skip(4) =~= n);
            let dd = t.days;
            assert((dd as u32) as i32 == dd) by (bit_vector);
        },
        SqlValueModel::Binary(_) => {},
        SqlValueModel::Boolean(b) => {
            if b {
                assert(spec_marshal_data(v) =~= seq![1u8]);
            } else {
                assert(spec_marshal_data(v) =~= seq![0u8]);
                assert(spec_marshal_data(v) != seq![1u8]) by {
                    assert(spec_marshal_data(v)[0] == 0u8);
                }
            }
        },
        SqlValueModel::Null => {},
    }
}

} // verus!
