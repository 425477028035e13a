//! The values of a statement as the driver takes them: the same list as when
//! each value is added to it by hand.

use chrono::{DateTime, Utc};
use repository::statement::{Fetch, Parameter, Statement, Timestamp};
use serde_json::Value;
use sqlx::postgres::PgArguments;
use sqlx::Arguments;
use uuid::Uuid;

fn id(n: u128) -> Uuid {
    Uuid::from_u128(n)
}

fn instant(seconds: i64, nanoseconds: u32) -> DateTime<Utc> {
    DateTime::from_timestamp(seconds, nanoseconds).unwrap()
}

fn encoded(parameters: Vec<Parameter>) -> PgArguments {
    let statement = Statement { text: String::new(), parameters, fetch: Fetch::Nothing };
    statement.arguments().unwrap()
}

fn assert_same(parameters: Vec<Parameter>, expected: PgArguments) {
    assert_eq!(format!("{:?}", encoded(parameters)), format!("{expected:?}"));
}

#[test]
fn no_values_encode_to_nothing() {
    let arguments = encoded(vec![]);
    assert_eq!(arguments.len(), 0);
    assert_same(vec![], PgArguments::default());
}

#[test]
fn identifiers_encode() {
    let mut expected = PgArguments::default();
    expected.add(id(1)).unwrap();
    expected.add(None::<Uuid>).unwrap();
    assert_same(vec![Parameter::Uuid(Some(id(1))), Parameter::Uuid(None)], expected);
}

#[test]
fn texts_encode() {
    let mut expected = PgArguments::default();
    expected.add("ä text").unwrap();
    expected.add(None::<&str>).unwrap();
    assert_same(
        vec![Parameter::Text(Some("ä text".to_owned())), Parameter::Text(None)],
        expected,
    );
}

#[test]
fn integers_of_each_width_encode() {
    let mut expected = PgArguments::default();
    expected.add(i64::MIN).unwrap();
    expected.add(None::<i64>).unwrap();
    expected.add(7i32).unwrap();
    expected.add(None::<i32>).unwrap();
    expected.add(-2i16).unwrap();
    expected.add(None::<i16>).unwrap();
    assert_same(
        vec![
            Parameter::BigInt(Some(i64::MIN)),
            Parameter::BigInt(None),
            Parameter::Integer(Some(7)),
            Parameter::Integer(None),
            Parameter::SmallInt(Some(-2)),
            Parameter::SmallInt(None),
        ],
        expected,
    );
}

#[test]
fn booleans_encode() {
    let mut expected = PgArguments::default();
    expected.add(true).unwrap();
    expected.add(false).unwrap();
    expected.add(None::<bool>).unwrap();
    assert_same(
        vec![
            Parameter::Boolean(Some(true)),
            Parameter::Boolean(Some(false)),
            Parameter::Boolean(None),
        ],
        expected,
    );
}

#[test]
fn bytes_encode() {
    let mut expected = PgArguments::default();
    expected.add(vec![0u8, 255, 7]).unwrap();
    expected.add(None::<Vec<u8>>).unwrap();
    assert_same(
        vec![Parameter::Bytes(Some(vec![0, 255, 7])), Parameter::Bytes(None)],
        expected,
    );
}

#[test]
fn times_encode_with_their_zone() {
    let time = instant(1_700_000_000, 123_456_000);
    let mut expected = PgArguments::default();
    expected.add(time).unwrap();
    expected.add(None::<DateTime<Utc>>).unwrap();
    assert_same(
        vec![
            Parameter::Timestamp(Some(Timestamp { utc: time.naive_utc() })),
            Parameter::Timestamp(None),
        ],
        expected,
    );
}

#[test]
fn the_earliest_and_latest_times_encode() {
    let arguments = encoded(vec![
        Parameter::Timestamp(Some(Timestamp { utc: DateTime::<Utc>::MIN_UTC.naive_utc() })),
        Parameter::Timestamp(Some(Timestamp { utc: DateTime::<Utc>::MAX_UTC.naive_utc() })),
    ]);
    assert_eq!(arguments.len(), 2);
}

#[test]
fn documents_encode() {
    let document = Value::from(vec![Value::from(1), Value::Null, Value::from("x")]);
    let mut expected = PgArguments::default();
    expected.add(document.clone()).unwrap();
    expected.add(None::<Value>).unwrap();
    assert_same(vec![Parameter::Json(Some(document)), Parameter::Json(None)], expected);
}

#[test]
fn lists_encode() {
    let mut expected = PgArguments::default();
    expected.add(vec![id(1), id(2)]).unwrap();
    expected.add(Vec::<Uuid>::new()).unwrap();
    expected.add(vec!["a".to_owned(), "bc".to_owned()]).unwrap();
    expected.add(Vec::<String>::new()).unwrap();
    assert_same(
        vec![
            Parameter::Uuids(vec![id(1), id(2)]),
            Parameter::Uuids(vec![]),
            Parameter::Texts(vec!["a".to_owned(), "bc".to_owned()]),
            Parameter::Texts(vec![]),
        ],
        expected,
    );
}

#[test]
fn values_keep_their_order() {
    let mut expected = PgArguments::default();
    expected.add("first").unwrap();
    expected.add(2i64).unwrap();
    expected.add(id(3)).unwrap();
    assert_same(
        vec![
            Parameter::Text(Some("first".to_owned())),
            Parameter::BigInt(Some(2)),
            Parameter::Uuid(Some(id(3))),
        ],
        expected,
    );
    let swapped = encoded(vec![
        Parameter::Uuid(Some(id(3))),
        Parameter::BigInt(Some(2)),
        Parameter::Text(Some("first".to_owned())),
    ]);
    let mut given = PgArguments::default();
    given.add("first").unwrap();
    given.add(2i64).unwrap();
    given.add(id(3)).unwrap();
    assert_ne!(format!("{swapped:?}"), format!("{given:?}"));
}

#[test]
fn a_null_keeps_its_type() {
    let text = encoded(vec![Parameter::Text(None)]);
    let number = encoded(vec![Parameter::BigInt(None)]);
    assert_ne!(format!("{text:?}"), format!("{number:?}"));
}
