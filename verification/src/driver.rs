//! The database driver's side of a statement: the outside types that values
//! are made of, and the argument list that sqlx sends with a statement.
//!
//! Nothing here is proved. Each function is one call into an outside crate,
//! and its contract says what that call does. The words in which sqlx refuses a
//! value are handed on and left open.

use serde_json::Value;
use sqlx::postgres::PgArguments;
use sqlx::Arguments;
use uuid::Uuid;
use vstd::prelude::*;

use crate::statement;
use crate::statement::{Bound, Timestamp};

verus! {

/// `uuid::Uuid`. Statements carry identifiers and never look inside one.
#[verifier::external_type_specification]
#[verifier::external_body]
pub struct ExUuid(uuid::Uuid);

/// `chrono::NaiveDateTime`. Statements carry times and never look inside one.
#[verifier::external_type_specification]
#[verifier::external_body]
pub struct ExNaiveDateTime(chrono::NaiveDateTime);

/// `serde_json::Value`. Statements carry documents and never look inside one.
#[verifier::external_type_specification]
#[verifier::external_body]
pub struct ExValue(serde_json::Value);

/// `sqlx::postgres::PgArguments`: the values sent with a statement, encoded.
#[verifier::external_type_specification]
#[verifier::external_body]
pub struct ExPgArguments(sqlx::postgres::PgArguments);

/// The values that an argument list holds, in the order in which they were
/// added. sqlx keeps each as its type and its encoding.
pub uninterp spec fn bound_values(arguments: PgArguments) -> Seq<Bound>;

/// A document's text, as `serde_json::to_writer` writes it for sqlx.
pub uninterp spec fn json_text(value: Value) -> Seq<u8>;

/// A time as sqlx encodes it: cut to whole microseconds.
pub uninterp spec fn whole_microseconds(time: Timestamp) -> Timestamp;

/// `PgArguments::default`: a list that holds nothing.
#[verifier::external_body]
pub(crate) fn no_arguments() -> (arguments: PgArguments)
    ensures
        bound_values(arguments) == Seq::<Bound>::empty(),
{
    PgArguments::default()
}

/// `<Value as Clone>::clone`: the same document.
#[verifier::external_body]
pub(crate) fn copy_json(value: &Value) -> (copy: Value)
    ensures
        copy == *value,
{
    value.clone()
}

/// The document behind an optional reference.
pub open spec fn json_document(value: Option<&Value>) -> Option<Value> {
    match value {
        Some(document) => Some(*document),
        None => None,
    }
}

/// `Arguments::add` on `PgArguments`: adds a `UUID` at the end.
/// An identifier takes sixteen bytes, so it is always added.
#[verifier::external_body]
pub(crate) fn add_uuid(
    arguments: &mut PgArguments,
    value: Option<Uuid>,
) -> (added: Result<(), String>)
    ensures
        added is Ok,
        bound_values(*final(arguments)) == bound_values(*old(arguments)).push(
            Bound::Uuid(value),
        ),
{
    arguments.add(value).map_err(|error| error.to_string())
}

/// `Arguments::add` on `PgArguments`: adds a `TEXT` at the end.
/// It is refused, and the list left as it was, exactly when its UTF-8 bytes
/// exceed the size limit.
#[verifier::external_body]
pub(crate) fn add_text(
    arguments: &mut PgArguments,
    value: Option<&str>,
) -> (added: Result<(), String>)
    ensures
        added is Ok <==> statement::fits(Bound::Text(statement::str_chars(value))),
        bound_values(*final(arguments)) == (if added is Ok {
            bound_values(*old(arguments)).push(Bound::Text(statement::str_chars(value)))
        } else {
            bound_values(*old(arguments))
        }),
{
    arguments.add(value).map_err(|error| error.to_string())
}

/// `Arguments::add` on `PgArguments`: adds an `INT8` at the end.
/// It takes eight bytes, so it is always added.
#[verifier::external_body]
pub(crate) fn add_bigint(
    arguments: &mut PgArguments,
    value: Option<i64>,
) -> (added: Result<(), String>)
    ensures
        added is Ok,
        bound_values(*final(arguments)) == bound_values(*old(arguments)).push(
            Bound::BigInt(value),
        ),
{
    arguments.add(value).map_err(|error| error.to_string())
}

/// `Arguments::add` on `PgArguments`: adds an `INT4` at the end.
/// It takes four bytes, so it is always added.
#[verifier::external_body]
pub(crate) fn add_integer(
    arguments: &mut PgArguments,
    value: Option<i32>,
) -> (added: Result<(), String>)
    ensures
        added is Ok,
        bound_values(*final(arguments)) == bound_values(*old(arguments)).push(
            Bound::Integer(value),
        ),
{
    arguments.add(value).map_err(|error| error.to_string())
}

/// `Arguments::add` on `PgArguments`: adds an `INT2` at the end.
/// It takes two bytes, so it is always added.
#[verifier::external_body]
pub(crate) fn add_smallint(
    arguments: &mut PgArguments,
    value: Option<i16>,
) -> (added: Result<(), String>)
    ensures
        added is Ok,
        bound_values(*final(arguments)) == bound_values(*old(arguments)).push(
            Bound::SmallInt(value),
        ),
{
    arguments.add(value).map_err(|error| error.to_string())
}

/// `Arguments::add` on `PgArguments`: adds a `BOOL` at the end.
/// It takes one byte, so it is always added.
#[verifier::external_body]
pub(crate) fn add_boolean(
    arguments: &mut PgArguments,
    value: Option<bool>,
) -> (added: Result<(), String>)
    ensures
        added is Ok,
        bound_values(*final(arguments)) == bound_values(*old(arguments)).push(
            Bound::Boolean(value),
        ),
{
    arguments.add(value).map_err(|error| error.to_string())
}

/// `Arguments::add` on `PgArguments`: adds a `BYTEA` at the end.
/// It is refused, and the list left as it was, exactly when it exceeds the
/// size limit.
#[verifier::external_body]
pub(crate) fn add_bytes(
    arguments: &mut PgArguments,
    value: Option<&[u8]>,
) -> (added: Result<(), String>)
    ensures
        added is Ok <==> statement::fits(Bound::Bytes(statement::slice_bytes(value))),
        bound_values(*final(arguments)) == (if added is Ok {
            bound_values(*old(arguments)).push(Bound::Bytes(statement::slice_bytes(value)))
        } else {
            bound_values(*old(arguments))
        }),
{
    arguments.add(value).map_err(|error| error.to_string())
}

/// `Arguments::add` on `PgArguments`: adds a `TIMESTAMPTZ` at the end, in whole
/// microseconds. Every time that chrono can hold is less than `i64::MAX`
/// microseconds away from the database's epoch, so it is always added.
#[verifier::external_body]
pub(crate) fn add_timestamp(
    arguments: &mut PgArguments,
    value: Option<Timestamp>,
) -> (added: Result<(), String>)
    ensures
        added is Ok,
        bound_values(*final(arguments)) == bound_values(*old(arguments)).push(
            Bound::Timestamp(
                match value {
                    Some(time) => Some(whole_microseconds(time)),
                    None => None,
                },
            ),
        ),
{
    let instant = value.map(|time| time.utc.and_utc());
    arguments.add(instant).map_err(|error| error.to_string())
}

/// `Arguments::add` on `PgArguments`: adds a `JSONB` at the end.
/// It is refused, and the list left as it was, exactly when the document's text
/// and the one byte of version before it exceed the size limit.
#[verifier::external_body]
pub(crate) fn add_json(
    arguments: &mut PgArguments,
    value: Option<&Value>,
) -> (added: Result<(), String>)
    ensures
        added is Ok <==> match value {
            Some(document) => 1 + json_text(*document).len() <= i32::MAX,
            None => true,
        },
        bound_values(*final(arguments)) == (if added is Ok {
            bound_values(*old(arguments)).push(Bound::Json(json_document(value)))
        } else {
            bound_values(*old(arguments))
        }),
{
    arguments.add(value).map_err(|error| error.to_string())
}

/// `Arguments::add` on `PgArguments`: adds a `UUID[]` at the end.
/// It is refused, and the list left as it was, exactly when its elements and
/// its header, twenty bytes each, exceed the size limit.
#[verifier::external_body]
pub(crate) fn add_uuids(
    arguments: &mut PgArguments,
    value: &[Uuid],
) -> (added: Result<(), String>)
    ensures
        added is Ok <==> statement::fits(Bound::Uuids(value@)),
        bound_values(*final(arguments)) == (if added is Ok {
            bound_values(*old(arguments)).push(Bound::Uuids(value@))
        } else {
            bound_values(*old(arguments))
        }),
{
    arguments.add(value).map_err(|error| error.to_string())
}

/// `Arguments::add` on `PgArguments`: adds a `TEXT[]` at the end.
/// It is refused, and the list left as it was, exactly when its elements and
/// its twenty bytes of header exceed the size limit.
#[verifier::external_body]
pub(crate) fn add_texts(
    arguments: &mut PgArguments,
    value: &[String],
) -> (added: Result<(), String>)
    ensures
        added is Ok <==> statement::fits(Bound::Texts(statement::strings_chars(value@))),
        bound_values(*final(arguments)) == (if added is Ok {
            bound_values(*old(arguments)).push(Bound::Texts(statement::strings_chars(value@)))
        } else {
            bound_values(*old(arguments))
        }),
{
    arguments.add(value).map_err(|error| error.to_string())
}

} // verus!
