//! Tests of the tagged value model, its conversions from host types, and
//! the marshal / unmarshal round trip.

use rsfbclient::codec::{marshal, unmarshal, MarshaledValue};
use rsfbclient::error::FbError;
use rsfbclient::value::{
    SqlType, Timestamp, MAX_TEXT_LENGTH, SQL_BLOB, SQL_BOOLEAN, SQL_DOUBLE, SQL_INT64, SQL_TEXT,
    SQL_TIMESTAMP,
};

fn round_trip(v: &SqlType) -> SqlType {
    unmarshal(&marshal(v)).expect("round trip failed")
}

#[test]
fn marshal_codes_follow_the_sqlvar_table() {
    assert_eq!(SqlType::Text("abc".to_string()).sqlvar_codes(), (SQL_TEXT + 1, 0));
    assert_eq!(SqlType::Integer(1).sqlvar_codes(), (SQL_INT64 + 1, 0));
    assert_eq!(SqlType::Floating(0).sqlvar_codes(), (SQL_DOUBLE + 1, 0));
    assert_eq!(
        SqlType::Timestamp(Timestamp { days: 0, nanos_of_day: 0 }).sqlvar_codes(),
        (SQL_TIMESTAMP + 1, 0)
    );
    assert_eq!(SqlType::Binary(vec![1]).sqlvar_codes(), (SQL_BLOB + 1, 0));
    assert_eq!(SqlType::Boolean(true).sqlvar_codes(), (SQL_BOOLEAN + 1, 0));
    assert_eq!(SqlType::Null.sqlvar_codes(), (SQL_TEXT + 1, 0));
}

#[test]
fn text_of_exactly_32767_bytes_is_inline() {
    let s = "a".repeat(MAX_TEXT_LENGTH);
    assert_eq!(s.len(), 32767);
    let v = SqlType::Text(s);
    assert_eq!(v.sqlvar_codes(), (SQL_TEXT + 1, 0));
    match round_trip(&v) {
        SqlType::Text(t) => assert_eq!(t.len(), 32767),
        other => panic!("wrong variant: {:?}", other),
    }
}

#[test]
fn text_of_32768_bytes_is_a_blob() {
    let s = "b".repeat(MAX_TEXT_LENGTH + 1);
    let v = SqlType::Text(s.clone());
    assert_eq!(v.sqlvar_codes(), (SQL_BLOB + 1, 1));
    let m = marshal(&v);
    assert_eq!(m.sql_type, SQL_BLOB + 1);
    assert_eq!(m.subtype, 1);
    match unmarshal(&m).expect("blob text round trip") {
        SqlType::Text(t) => assert_eq!(t, s),
        other => panic!("wrong variant: {:?}", other),
    }
}

#[test]
fn round_trips_are_identity() {
    match round_trip(&SqlType::Text("héllo wörld".to_string())) {
        SqlType::Text(s) => assert_eq!(s, "héllo wörld"),
        other => panic!("wrong variant: {:?}", other),
    }
    match round_trip(&SqlType::Integer(-42)) {
        SqlType::Integer(i) => assert_eq!(i, -42),
        other => panic!("wrong variant: {:?}", other),
    }
    match round_trip(&SqlType::Floating(1.5f64.to_bits())) {
        SqlType::Floating(bits) => assert_eq!(f64::from_bits(bits), 1.5),
        other => panic!("wrong variant: {:?}", other),
    }
    match round_trip(&SqlType::Timestamp(Timestamp { days: -3, nanos_of_day: 86_399_000_000_001 }))
    {
        SqlType::Timestamp(t) => {
            assert_eq!(t.days, -3);
            assert_eq!(t.nanos_of_day, 86_399_000_000_001);
        }
        other => panic!("wrong variant: {:?}", other),
    }
    match round_trip(&SqlType::Binary(vec![0, 1, 255])) {
        SqlType::Binary(b) => assert_eq!(b, vec![0, 1, 255]),
        other => panic!("wrong variant: {:?}", other),
    }
    match round_trip(&SqlType::Boolean(true)) {
        SqlType::Boolean(b) => assert!(b),
        other => panic!("wrong variant: {:?}", other),
    }
    match round_trip(&SqlType::Boolean(false)) {
        SqlType::Boolean(b) => assert!(!b),
        other => panic!("wrong variant: {:?}", other),
    }
    assert!(matches!(round_trip(&SqlType::Null), SqlType::Null));
}

#[test]
fn unmarshal_rejects_malformed_payloads() {
    let bad_utf8 = MarshaledValue {
        sql_type: SQL_TEXT + 1,
        subtype: 0,
        null: false,
        data: vec![0xff, 0xfe],
    };
    assert!(matches!(unmarshal(&bad_utf8), Err(FbError::ConversionFailure(_))));

    let short_int = MarshaledValue {
        sql_type: SQL_INT64 + 1,
        subtype: 0,
        null: false,
        data: vec![1, 2, 3],
    };
    assert!(matches!(unmarshal(&short_int), Err(FbError::ConversionFailure(_))));

    let unknown = MarshaledValue { sql_type: 9999, subtype: 0, null: false, data: vec![] };
    assert!(matches!(unmarshal(&unknown), Err(FbError::ConversionFailure(_))));

    let bad_bool = MarshaledValue {
        sql_type: SQL_BOOLEAN + 1,
        subtype: 0,
        null: false,
        data: vec![7],
    };
    assert!(matches!(unmarshal(&bad_bool), Err(FbError::ConversionFailure(_))));
}

#[test]
fn host_integers_up_to_32_bits_widen_to_integer() {
    assert!(matches!(SqlType::from(5i8), SqlType::Integer(5)));
    assert!(matches!(SqlType::from(-6i16), SqlType::Integer(-6)));
    assert!(matches!(SqlType::from(7i32), SqlType::Integer(7)));
    assert!(matches!(SqlType::from(8u8), SqlType::Integer(8)));
    assert!(matches!(SqlType::from(9u16), SqlType::Integer(9)));
    assert!(matches!(SqlType::from(u32::MAX), SqlType::Integer(4_294_967_295)));
    assert!(matches!(SqlType::from(i64::MIN), SqlType::Integer(i64::MIN)));
}

#[test]
fn host_values_convert_to_their_variants() {
    match SqlType::from("abc".to_string()) {
        SqlType::Text(s) => assert_eq!(s, "abc"),
        other => panic!("wrong variant: {:?}", other),
    }
    match SqlType::from(vec![1u8, 2]) {
        SqlType::Binary(b) => assert_eq!(b, vec![1, 2]),
        other => panic!("wrong variant: {:?}", other),
    }
    assert!(matches!(SqlType::from(true), SqlType::Boolean(true)));
    assert!(matches!(
        SqlType::from(Timestamp { days: 1, nanos_of_day: 2 }),
        SqlType::Timestamp(Timestamp { days: 1, nanos_of_day: 2 })
    ));
}

#[test]
fn optional_maps_none_to_null() {
    assert!(matches!(SqlType::from(None::<i32>), SqlType::Null));
    assert!(matches!(SqlType::from(Some(3i32)), SqlType::Integer(3)));
}

#[test]
fn is_null_only_on_null() {
    assert!(SqlType::Null.is_null());
    assert!(!SqlType::Integer(0).is_null());
    assert!(!SqlType::Text(String::new()).is_null());
}

#[test]
fn null_and_empty_text_are_distinguished_by_the_indicator() {
    let null_m = marshal(&SqlType::Null);
    assert!(null_m.null);
    assert!(null_m.data.is_empty());
    let empty_m = marshal(&SqlType::Text(String::new()));
    assert!(!empty_m.null);
    assert!(empty_m.data.is_empty());
    assert!(matches!(unmarshal(&null_m).unwrap(), SqlType::Null));
    assert!(matches!(unmarshal(&empty_m).unwrap(), SqlType::Text(_)));
}
