//! The tagged SQL value model and its marshaling rules.
//!
//! Floating-point parameters are carried as the IEEE 754 bit pattern of the
//! 64-bit float, and timestamps as plain day/nanosecond counts; the driver
//! layer that talks to the server converts them to its own representations.

use vstd::prelude::*;

verus! {

/// UTF-8 byte length of a text value.
pub open spec fn text_byte_len(s: Seq<char>) -> nat {
    vstd::utf8::encode_utf8(s).len()
}

/// Max UTF-8 byte length that can be sent without creating a BLOB.
pub const MAX_TEXT_LENGTH: usize = 32767;

/// Firebird SQLVAR type codes. The low bit of a code on the wire signals
/// nullability, so marshaled codes are the constants below plus one.
pub const SQL_TEXT: u32 = 452;

pub const SQL_DOUBLE: u32 = 480;

pub const SQL_TIMESTAMP: u32 = 510;

pub const SQL_BLOB: u32 = 520;

pub const SQL_INT64: u32 = 580;

pub const SQL_BOOLEAN: u32 = 32764;

/// A naïve date-time: days relative to the Firebird epoch and nanoseconds
/// within the day. Conversions from calendar libraries live outside this
/// crate.
#[derive(Debug, Clone, Copy, PartialEq, Eq, Structural)]
pub struct Timestamp {
    pub days: i32,
    pub nanos_of_day: u64,
}

/// Sql parameter / column data.
#[derive(Debug, Clone)]
pub enum SqlType {
    Text(String),
    Integer(i64),
    /// IEEE 754 bit pattern of a 64-bit float.
    Floating(u64),
    Timestamp(Timestamp),
    Binary(Vec<u8>),
    /// Only works in fb >= 3.0.
    Boolean(bool),
    Null,
}

/// A fetched cell: the value plus the column's nullability flag.
#[derive(Debug, Clone)]
pub struct Column {
    pub value: SqlType,
    pub nullable: bool,
}

/// The mathematical model of a sql value: the same variants over sequences
/// and plain numbers.
pub enum SqlValueModel {
    Text(Seq<char>),
    Integer(i64),
    Floating(u64),
    Timestamp(Timestamp),
    Binary(Seq<u8>),
    Boolean(bool),
    Null,
}

impl View for SqlType {
    type V = SqlValueModel;

    open spec fn view(&self) -> SqlValueModel {
        match self {
            SqlType::Text(s) => SqlValueModel::Text(s@),
            SqlType::Integer(i) => SqlValueModel::Integer(*i),
            SqlType::Floating(b) => SqlValueModel::Floating(*b),
            SqlType::Timestamp(t) => SqlValueModel::Timestamp(*t),
            SqlType::Binary(b) => SqlValueModel::Binary(b@),
            SqlType::Boolean(b) => SqlValueModel::Boolean(*b),
            SqlType::Null => SqlValueModel::Null,
        }
    }
}

/// The (type code, subtype code) pair a value is announced with, following
/// the Firebird SQLVAR convention: the low bit signals nullability, a long
/// Text travels as a BLOB of subtype 1.
pub open spec fn spec_sqlvar_codes(v: SqlValueModel) -> (u32, u32) {
    match v {
        SqlValueModel::Text(s) => if text_byte_len(s) > MAX_TEXT_LENGTH as int {
            ((SQL_BLOB + 1) as u32, 1u32)
        } else {
            ((SQL_TEXT + 1) as u32, 0u32)
        },
        SqlValueModel::Integer(_) => ((SQL_INT64 + 1) as u32, 0u32),
        SqlValueModel::Floating(_) => ((SQL_DOUBLE + 1) as u32, 0u32),
        SqlValueModel::Timestamp(_) => ((SQL_TIMESTAMP + 1) as u32, 0u32),
        SqlValueModel::Binary(_) => ((SQL_BLOB + 1) as u32, 0u32),
        SqlValueModel::Boolean(_) => ((SQL_BOOLEAN + 1) as u32, 0u32),
        SqlValueModel::Null => ((SQL_TEXT + 1) as u32, 0u32),
    }
}

impl SqlType {
    /// Returns `true` if the value is `NULL`.
    pub fn is_null(&self) -> (r: bool)
        ensures
            r == (self@ is Null),
    {
        matches!(self, SqlType::Null)
    }

    /// The SQLVAR (type code, subtype code) pair used to announce this value
    /// to the server. A Text longer than `MAX_TEXT_LENGTH` UTF-8 bytes is
    /// sent as a BLOB of subtype 1; all shorter Text inline.
    pub fn sqlvar_codes(&self) -> (r: (u32, u32))
        ensures
            r == spec_sqlvar_codes(self@),
    {
        match self {
            SqlType::Text(s) => {
                if text_is_long(s) {
                    (SQL_BLOB + 1, 1)
                } else {
                    (SQL_TEXT + 1, 0)
                }
            },
            SqlType::Integer(_) => (SQL_INT64 + 1, 0),
            SqlType::Floating(_) => (SQL_DOUBLE + 1, 0),
            SqlType::Timestamp(_) => (SQL_TIMESTAMP + 1, 0),
            SqlType::Binary(_) => (SQL_BLOB + 1, 0),
            SqlType::Boolean(_) => (SQL_BOOLEAN + 1, 0),
            SqlType::Null => (SQL_TEXT + 1, 0),
        }
    }
}

/// Law: the text-length boundary is exact. A text of up to
/// `MAX_TEXT_LENGTH` UTF-8 bytes is announced as inline TEXT; one byte
/// more makes it a BLOB of subtype 1.
pub proof fn lemma_text_length_boundary(s: Seq<char>)
    ensures
        text_byte_len(s) <= MAX_TEXT_LENGTH ==> spec_sqlvar_codes(SqlValueModel::Text(s)) == (
            (SQL_TEXT + 1) as u32,
            0u32,
        ),
        text_byte_len(s) > MAX_TEXT_LENGTH ==> spec_sqlvar_codes(SqlValueModel::Text(s)) == (
            (SQL_BLOB + 1) as u32,
            1u32,
        ),
{
}

/// Whether a Text value must travel as a BLOB: its UTF-8 byte length
/// exceeds `MAX_TEXT_LENGTH`.
fn text_is_long(s: &String) -> (r: bool)
    ensures
        r == (text_byte_len(s@) > MAX_TEXT_LENGTH as int),
{
    s.as_str().as_bytes().len() > MAX_TEXT_LENGTH
}

/// Every host signed or unsigned integer up to 32 bits widens to
/// `Integer`; 64-bit signed integers are preserved. Byte vectors go to
/// `Binary`, strings to `Text`, booleans to `Boolean`, and an optional
/// maps its `None` to `Null`. Host floats are carried as bit patterns and
/// converted outside this crate.
impl From<String> for SqlType {
    fn from(val: String) -> (r: SqlType) {
        SqlType::Text(val)
    }
}

impl vstd::std_specs::convert::FromSpecImpl<String> for SqlType {
    open spec fn obeys_from_spec() -> bool {
        true
    }

    open spec fn from_spec(v: String) -> Self {
        SqlType::Text(v)
    }
}

impl From<Vec<u8>> for SqlType {
    fn from(val: Vec<u8>) -> (r: SqlType) {
        SqlType::Binary(val)
    }
}

impl vstd::std_specs::convert::FromSpecImpl<Vec<u8>> for SqlType {
    open spec fn obeys_from_spec() -> bool {
        true
    }

    open spec fn from_spec(v: Vec<u8>) -> Self {
        SqlType::Binary(v)
    }
}

impl From<bool> for SqlType {
    fn from(val: bool) -> (r: SqlType) {
        SqlType::Boolean(val)
    }
}

impl vstd::std_specs::convert::FromSpecImpl<bool> for SqlType {
    open spec fn obeys_from_spec() -> bool {
        true
    }

    open spec fn from_spec(v: bool) -> Self {
        SqlType::Boolean(v)
    }
}

impl From<Timestamp> for SqlType {
    fn from(val: Timestamp) -> (r: SqlType) {
        SqlType::Timestamp(val)
    }
}

impl vstd::std_specs::convert::FromSpecImpl<Timestamp> for SqlType {
    open spec fn obeys_from_spec() -> bool {
        true
    }

    open spec fn from_spec(v: Timestamp) -> Self {
        SqlType::Timestamp(v)
    }
}

impl From<i64> for SqlType {
    fn from(val: i64) -> (r: SqlType) {
        SqlType::Integer(val)
    }
}

impl vstd::std_specs::convert::FromSpecImpl<i64> for SqlType {
    open spec fn obeys_from_spec() -> bool {
        true
    }

    open spec fn from_spec(v: i64) -> Self {
        SqlType::Integer(v)
    }
}

impl From<i32> for SqlType {
    fn from(val: i32) -> (r: SqlType) {
        SqlType::Integer(val as i64)
    }
}

impl vstd::std_specs::convert::FromSpecImpl<i32> for SqlType {
    open spec fn obeys_from_spec() -> bool {
        true
    }

    open spec fn from_spec(v: i32) -> Self {
        SqlType::Integer(v as i64)
    }
}

impl From<i16> for SqlType {
    fn from(val: i16) -> (r: SqlType) {
        SqlType::Integer(val as i64)
    }
}

impl vstd::std_specs::convert::FromSpecImpl<i16> for SqlType {
    open spec fn obeys_from_spec() -> bool {
        true
    }

    open spec fn from_spec(v: i16) -> Self {
        SqlType::Integer(v as i64)
    }
}

impl From<i8> for SqlType {
    fn from(val: i8) -> (r: SqlType) {
        SqlType::Integer(val as i64)
    }
}

impl vstd::std_specs::convert::FromSpecImpl<i8> for SqlType {
    open spec fn obeys_from_spec() -> bool {
        true
    }

    open spec fn from_spec(v: i8) -> Self {
        SqlType::Integer(v as i64)
    }
}

impl From<u32> for SqlType {
    fn from(val: u32) -> (r: SqlType) {
        SqlType::Integer(val as i64)
    }
}

impl vstd::std_specs::convert::FromSpecImpl<u32> for SqlType {
    open spec fn obeys_from_spec() -> bool {
        true
    }

    open spec fn from_spec(v: u32) -> Self {
        SqlType::Integer(v as i64)
    }
}

impl From<u16> for SqlType {
    fn from(val: u16) -> (r: SqlType) {
        SqlType::Integer(val as i64)
    }
}

impl vstd::std_specs::convert::FromSpecImpl<u16> for SqlType {
    open spec fn obeys_from_spec() -> bool {
        true
    }

    open spec fn from_spec(v: u16) -> Self {
        SqlType::Integer(v as i64)
    }
}

impl From<u8> for SqlType {
    fn from(val: u8) -> (r: SqlType) {
        SqlType::Integer(val as i64)
    }
}

impl vstd::std_specs::convert::FromSpecImpl<u8> for SqlType {
    open spec fn obeys_from_spec() -> bool {
        true
    }

    open spec fn from_spec(v: u8) -> Self {
        SqlType::Integer(v as i64)
    }
}

/// All nullable variants: `None` becomes `Null`, `Some` converts its
/// contents through the contained type's own `Into`. The contract holds
/// whenever that inner conversion itself obeys its spec — which every
/// conversion this crate defines does.
impl<T: Into<SqlType>> From<Option<T>> for SqlType {
    fn from(val: Option<T>) -> (r: SqlType) {
        match val {
            Option::None => SqlType::Null,
            Option::Some(v) => v.into(),
        }
    }
}

impl<T: Into<SqlType>> vstd::std_specs::convert::FromSpecImpl<Option<T>> for SqlType {
    open spec fn obeys_from_spec() -> bool {
        <T as vstd::std_specs::convert::IntoSpec<SqlType>>::obeys_into_spec()
    }

    open spec fn from_spec(v: Option<T>) -> Self {
        match v {
            Option::None => SqlType::Null,
            Option::Some(x) => <T as vstd::std_specs::convert::IntoSpec<SqlType>>::into_spec(x),
        }
    }
}

} // verus!
