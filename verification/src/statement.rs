//! Statements: the text sent to the database, the values bound to its
//! placeholders, and what is asked back.

use chrono::NaiveDateTime;
use serde_json::Value;
use sqlx::postgres::PgArguments;
use uuid::Uuid;
use vstd::prelude::*;

use crate::driver::{
    add_bigint, add_boolean, add_bytes, add_integer, add_json, add_smallint, add_text, add_texts,
    add_timestamp, add_uuid, add_uuids, copy_json, no_arguments,
};
use crate::driver;

verus! {

/// An instant, held as the date and time of day it has in UTC.
#[derive(Clone, Copy, Debug, PartialEq, Eq)]
pub struct Timestamp {
    pub utc: NaiveDateTime,
}

/// A value bound to a placeholder, as contracts speak of it. Each variant is
/// one database type; `None` is that type's null.
pub enum Bound {
    Uuid(Option<Uuid>),
    Text(Option<Seq<char>>),
    BigInt(Option<i64>),
    Integer(Option<i32>),
    SmallInt(Option<i16>),
    Boolean(Option<bool>),
    Bytes(Option<Seq<u8>>),
    Timestamp(Option<Timestamp>),
    Json(Option<Value>),
    Uuids(Seq<Uuid>),
    Texts(Seq<Seq<char>>),
}

/// A value bound to a placeholder.
#[derive(Debug, PartialEq)]
pub enum Parameter {
    Uuid(Option<Uuid>),
    Text(Option<String>),
    BigInt(Option<i64>),
    Integer(Option<i32>),
    SmallInt(Option<i16>),
    Boolean(Option<bool>),
    Bytes(Option<Vec<u8>>),
    Timestamp(Option<Timestamp>),
    Json(Option<Value>),
    Uuids(Vec<Uuid>),
    Texts(Vec<String>),
}

impl View for Parameter {
    type V = Bound;

    open spec fn view(&self) -> Bound {
        match self {
            Parameter::Uuid(value) => Bound::Uuid(*value),
            Parameter::Text(value) => Bound::Text(string_chars(*value)),
            Parameter::BigInt(value) => Bound::BigInt(*value),
            Parameter::Integer(value) => Bound::Integer(*value),
            Parameter::SmallInt(value) => Bound::SmallInt(*value),
            Parameter::Boolean(value) => Bound::Boolean(*value),
            Parameter::Bytes(value) => Bound::Bytes(vec_bytes(*value)),
            Parameter::Timestamp(value) => Bound::Timestamp(*value),
            Parameter::Json(value) => Bound::Json(*value),
            Parameter::Uuids(values) => Bound::Uuids(values@),
            Parameter::Texts(values) => Bound::Texts(strings_chars(values@)),
        }
    }
}

/// The characters of an optional string.
pub open spec fn string_chars(value: Option<String>) -> Option<Seq<char>> {
    match value {
        Some(text) => Some(text@),
        None => None,
    }
}

/// The characters of an optional borrowed string.
pub open spec fn str_chars(value: Option<&str>) -> Option<Seq<char>> {
    match value {
        Some(text) => Some(text@),
        None => None,
    }
}

/// The bytes of an optional vector.
pub open spec fn vec_bytes(value: Option<Vec<u8>>) -> Option<Seq<u8>> {
    match value {
        Some(bytes) => Some(bytes@),
        None => None,
    }
}

/// The bytes of an optional slice.
pub open spec fn slice_bytes(value: Option<&[u8]>) -> Option<Seq<u8>> {
    match value {
        Some(bytes) => Some(bytes@),
        None => None,
    }
}

/// The characters of each string in a sequence.
pub open spec fn strings_chars(values: Seq<String>) -> Seq<Seq<char>> {
    values.map_values(|value: String| value@)
}

/// The characters of each borrowed string in a sequence.
pub open spec fn strs_chars(values: Seq<&str>) -> Seq<Seq<char>> {
    values.map_values(|value: &str| value@)
}

/// A value that can be bound to a placeholder.
pub trait Bind: Sized {
    /// What the value is bound as.
    spec fn bound(self) -> Bound;

    /// Converts the value for binding.
    fn into_parameter(self) -> (parameter: Parameter)
        ensures
            parameter@ == self.bound(),
    ;
}

impl Bind for Uuid {
    open spec fn bound(self) -> Bound {
        Bound::Uuid(Some(self))
    }

    fn into_parameter(self) -> (parameter: Parameter) {
        Parameter::Uuid(Some(self))
    }
}

impl Bind for Option<Uuid> {
    open spec fn bound(self) -> Bound {
        Bound::Uuid(self)
    }

    fn into_parameter(self) -> (parameter: Parameter) {
        Parameter::Uuid(self)
    }
}

impl<'a> Bind for &'a str {
    open spec fn bound(self) -> Bound {
        Bound::Text(Some(self@))
    }

    fn into_parameter(self) -> (parameter: Parameter) {
        Parameter::Text(Some(self.to_owned()))
    }
}

impl<'a> Bind for Option<&'a str> {
    open spec fn bound(self) -> Bound {
        Bound::Text(str_chars(self))
    }

    fn into_parameter(self) -> (parameter: Parameter) {
        match self {
            Some(text) => Parameter::Text(Some(text.to_owned())),
            None => Parameter::Text(None),
        }
    }
}

impl Bind for String {
    open spec fn bound(self) -> Bound {
        Bound::Text(Some(self@))
    }

    fn into_parameter(self) -> (parameter: Parameter) {
        Parameter::Text(Some(self))
    }
}

impl Bind for Option<String> {
    open spec fn bound(self) -> Bound {
        Bound::Text(string_chars(self))
    }

    fn into_parameter(self) -> (parameter: Parameter) {
        Parameter::Text(self)
    }
}

impl Bind for i64 {
    open spec fn bound(self) -> Bound {
        Bound::BigInt(Some(self))
    }

    fn into_parameter(self) -> (parameter: Parameter) {
        Parameter::BigInt(Some(self))
    }
}

impl Bind for Option<i64> {
    open spec fn bound(self) -> Bound {
        Bound::BigInt(self)
    }

    fn into_parameter(self) -> (parameter: Parameter) {
        Parameter::BigInt(self)
    }
}

impl Bind for i32 {
    open spec fn bound(self) -> Bound {
        Bound::Integer(Some(self))
    }

    fn into_parameter(self) -> (parameter: Parameter) {
        Parameter::Integer(Some(self))
    }
}

impl Bind for Option<i32> {
    open spec fn bound(self) -> Bound {
        Bound::Integer(self)
    }

    fn into_parameter(self) -> (parameter: Parameter) {
        Parameter::Integer(self)
    }
}

impl Bind for i16 {
    open spec fn bound(self) -> Bound {
        Bound::SmallInt(Some(self))
    }

    fn into_parameter(self) -> (parameter: Parameter) {
        Parameter::SmallInt(Some(self))
    }
}

impl Bind for bool {
    open spec fn bound(self) -> Bound {
        Bound::Boolean(Some(self))
    }

    fn into_parameter(self) -> (parameter: Parameter) {
        Parameter::Boolean(Some(self))
    }
}

impl Bind for Option<bool> {
    open spec fn bound(self) -> Bound {
        Bound::Boolean(self)
    }

    fn into_parameter(self) -> (parameter: Parameter) {
        Parameter::Boolean(self)
    }
}

impl<'a> Bind for &'a [u8] {
    open spec fn bound(self) -> Bound {
        Bound::Bytes(Some(self@))
    }

    fn into_parameter(self) -> (parameter: Parameter) {
        let mut bytes: Vec<u8> = Vec::new();
        bytes.extend_from_slice(self);
        assert(bytes@ =~= self@);
        Parameter::Bytes(Some(bytes))
    }
}

impl Bind for Vec<u8> {
    open spec fn bound(self) -> Bound {
        Bound::Bytes(Some(self@))
    }

    fn into_parameter(self) -> (parameter: Parameter) {
        Parameter::Bytes(Some(self))
    }
}

impl Bind for Option<Vec<u8>> {
    open spec fn bound(self) -> Bound {
        Bound::Bytes(vec_bytes(self))
    }

    fn into_parameter(self) -> (parameter: Parameter) {
        Parameter::Bytes(self)
    }
}

impl Bind for Timestamp {
    open spec fn bound(self) -> Bound {
        Bound::Timestamp(Some(self))
    }

    fn into_parameter(self) -> (parameter: Parameter) {
        Parameter::Timestamp(Some(self))
    }
}

impl Bind for Option<Timestamp> {
    open spec fn bound(self) -> Bound {
        Bound::Timestamp(self)
    }

    fn into_parameter(self) -> (parameter: Parameter) {
        Parameter::Timestamp(self)
    }
}

impl Bind for Value {
    open spec fn bound(self) -> Bound {
        Bound::Json(Some(self))
    }

    fn into_parameter(self) -> (parameter: Parameter) {
        Parameter::Json(Some(self))
    }
}

impl<'a> Bind for &'a Value {
    open spec fn bound(self) -> Bound {
        Bound::Json(Some(*self))
    }

    fn into_parameter(self) -> (parameter: Parameter) {
        Parameter::Json(Some(copy_json(self)))
    }
}

impl Bind for Option<Value> {
    open spec fn bound(self) -> Bound {
        Bound::Json(self)
    }

    fn into_parameter(self) -> (parameter: Parameter) {
        Parameter::Json(self)
    }
}

impl<'a> Bind for &'a [Uuid] {
    open spec fn bound(self) -> Bound {
        Bound::Uuids(self@)
    }

    fn into_parameter(self) -> (parameter: Parameter) {
        let mut ids: Vec<Uuid> = Vec::new();
        for i in 0..self.len()
            invariant
                ids@ =~= self@.take(i as int),
        {
            ids.push(self[i]);
        }
        assert(ids@ =~= self@);
        Parameter::Uuids(ids)
    }
}

impl Bind for Vec<Uuid> {
    open spec fn bound(self) -> Bound {
        Bound::Uuids(self@)
    }

    fn into_parameter(self) -> (parameter: Parameter) {
        Parameter::Uuids(self)
    }
}

impl<'a> Bind for &'a [String] {
    open spec fn bound(self) -> Bound {
        Bound::Texts(strings_chars(self@))
    }

    fn into_parameter(self) -> (parameter: Parameter) {
        let mut texts: Vec<String> = Vec::new();
        for i in 0..self.len()
            invariant
                texts@.len() == i,
                forall|j: int| 0 <= j < i ==> texts@[j]@ == self@[j]@,
        {
            texts.push(self[i].clone());
        }
        assert(strings_chars(texts@) =~= strings_chars(self@));
        Parameter::Texts(texts)
    }
}

impl Bind for Vec<String> {
    open spec fn bound(self) -> Bound {
        Bound::Texts(strings_chars(self@))
    }

    fn into_parameter(self) -> (parameter: Parameter) {
        Parameter::Texts(self)
    }
}

impl<'a> Bind for &'a [&'a str] {
    open spec fn bound(self) -> Bound {
        Bound::Texts(strs_chars(self@))
    }

    fn into_parameter(self) -> (parameter: Parameter) {
        let mut texts: Vec<String> = Vec::new();
        for i in 0..self.len()
            invariant
                texts@.len() == i,
                forall|j: int| 0 <= j < i ==> texts@[j]@ == self@[j]@,
        {
            texts.push(self[i].to_owned());
        }
        assert(strings_chars(texts@) =~= strs_chars(self@));
        Parameter::Texts(texts)
    }
}

/// What a statement asks back once it ran.
#[derive(Clone, Copy, Debug, PartialEq, Eq, Structural)]
pub enum Fetch {
    /// The number of rows it affected.
    Affected,
    /// Whether it affected any row: see [`changed`].
    Changed,
    /// Nothing.
    Nothing,
    /// Its one row; it is an error to have none.
    One,
    /// Its first row, if it has one.
    Optional,
    /// Whether it has a row: see [`present`].
    Present,
    /// All of its rows.
    All,
}

/// The answer of a [`Fetch::Changed`] statement, from the number of rows it
/// affected.
pub fn changed(rows_affected: u64) -> (any: bool)
    ensures
        any <==> rows_affected > 0,
{
    rows_affected > 0
}

/// The answer of a [`Fetch::Present`] statement, from its first row.
pub fn present<R>(row: &Option<R>) -> (found: bool)
    ensures
        found <==> *row is Some,
{
    row.is_some()
}

/// A statement to run: its text, the values of its placeholders in order
/// (`$1` is the first), and what it asks back.
#[derive(Debug, PartialEq)]
pub struct Statement {
    pub text: String,
    pub parameters: Vec<Parameter>,
    pub fetch: Fetch,
}

/// A statement as contracts speak of it.
#[verifier::ext_equal]
pub struct StatementView {
    pub text: Seq<char>,
    pub parameters: Seq<Bound>,
    pub fetch: Fetch,
}

impl View for Statement {
    type V = StatementView;

    open spec fn view(&self) -> StatementView {
        StatementView {
            text: self.text@,
            parameters: self.parameters@.map_values(|parameter: Parameter| parameter@),
            fetch: self.fetch,
        }
    }
}

impl StatementView {
    /// The statement that reports how many rows it affected.
    pub open spec fn affected(text: Seq<char>, parameters: Seq<Bound>) -> StatementView {
        StatementView { text, parameters, fetch: Fetch::Affected }
    }

    /// The statement that reports whether it affected a row.
    pub open spec fn changed(text: Seq<char>, parameters: Seq<Bound>) -> StatementView {
        StatementView { text, parameters, fetch: Fetch::Changed }
    }

    /// The statement that reports nothing.
    pub open spec fn nothing(text: Seq<char>, parameters: Seq<Bound>) -> StatementView {
        StatementView { text, parameters, fetch: Fetch::Nothing }
    }

    /// The statement with exactly one row to return.
    pub open spec fn one(text: Seq<char>, parameters: Seq<Bound>) -> StatementView {
        StatementView { text, parameters, fetch: Fetch::One }
    }

    /// The statement that returns its first row, if any.
    pub open spec fn optional(text: Seq<char>, parameters: Seq<Bound>) -> StatementView {
        StatementView { text, parameters, fetch: Fetch::Optional }
    }

    /// The statement that reports whether it has a row.
    pub open spec fn present(text: Seq<char>, parameters: Seq<Bound>) -> StatementView {
        StatementView { text, parameters, fetch: Fetch::Present }
    }

    /// The statement that returns every row.
    pub open spec fn all(text: Seq<char>, parameters: Seq<Bound>) -> StatementView {
        StatementView { text, parameters, fetch: Fetch::All }
    }
}

/// The binding of a statement's values failed at the placeholder `$position`,
/// for the reason that the driver gives in its own words.
#[derive(Debug, PartialEq)]
pub struct BindError {
    pub position: usize,
    pub reason: String,
}

/// The number of bytes that Postgres counts for a text array's elements: four
/// for the length of each, and its UTF-8 bytes.
pub open spec fn texts_size(texts: Seq<Seq<char>>) -> nat
    decreases texts.len(),
{
    if texts.len() == 0 {
        0
    } else {
        texts_size(texts.drop_last()) + 4 + vstd::utf8::encode_utf8(texts.last()).len()
    }
}

/// Whether a value's encoding stays within the largest size that a bound
/// value can have, `i32::MAX` bytes.
pub open spec fn fits(value: Bound) -> bool {
    match value {
        Bound::Text(Some(text)) => vstd::utf8::encode_utf8(text).len() <= i32::MAX,
        Bound::Bytes(Some(bytes)) => bytes.len() <= i32::MAX,
        Bound::Json(Some(document)) => 1 + driver::json_text(document).len() <= i32::MAX,
        Bound::Uuids(ids) => 20 + 20 * ids.len() <= i32::MAX,
        Bound::Texts(texts) => 20 + texts_size(texts) <= i32::MAX,
        _ => true,
    }
}

/// A value as the driver sends it: a time in whole microseconds, and any other
/// value as it is.
pub open spec fn sent(value: Bound) -> Bound {
    match value {
        Bound::Timestamp(Some(time)) => Bound::Timestamp(Some(driver::whole_microseconds(time))),
        _ => value,
    }
}

impl Statement {
    /// A statement without values.
    fn new(text: &str, fetch: Fetch) -> (statement: Statement)
        ensures
            statement@ == (StatementView { text: text@, parameters: seq![], fetch }),
    {
        let statement = Statement { text: text.to_owned(), parameters: Vec::new(), fetch };
        assert(statement@.parameters =~= seq![]);
        statement
    }

    /// A statement that reports how many rows it affected.
    pub fn affected(text: &str) -> (statement: Statement)
        ensures
            statement@ == StatementView::affected(text@, seq![]),
    {
        Statement::new(text, Fetch::Affected)
    }

    /// A statement that reports whether it affected a row.
    pub fn changed(text: &str) -> (statement: Statement)
        ensures
            statement@ == StatementView::changed(text@, seq![]),
    {
        Statement::new(text, Fetch::Changed)
    }

    /// A statement that reports nothing.
    pub fn nothing(text: &str) -> (statement: Statement)
        ensures
            statement@ == StatementView::nothing(text@, seq![]),
    {
        Statement::new(text, Fetch::Nothing)
    }

    /// A statement with exactly one row to return.
    pub fn one(text: &str) -> (statement: Statement)
        ensures
            statement@ == StatementView::one(text@, seq![]),
    {
        Statement::new(text, Fetch::One)
    }

    /// A statement that returns its first row, if any.
    pub fn optional(text: &str) -> (statement: Statement)
        ensures
            statement@ == StatementView::optional(text@, seq![]),
    {
        Statement::new(text, Fetch::Optional)
    }

    /// A statement that reports whether it has a row.
    pub fn present(text: &str) -> (statement: Statement)
        ensures
            statement@ == StatementView::present(text@, seq![]),
    {
        Statement::new(text, Fetch::Present)
    }

    /// A statement that returns every row.
    pub fn all(text: &str) -> (statement: Statement)
        ensures
            statement@ == StatementView::all(text@, seq![]),
    {
        Statement::new(text, Fetch::All)
    }

    /// Binds `value` to the next placeholder.
    pub fn bind<T: Bind>(self, value: T) -> (statement: Statement)
        ensures
            statement@ == (StatementView {
                parameters: self@.parameters.push(value.bound()),
                ..self@
            }),
    {
        let mut parameters = self.parameters;
        parameters.push(value.into_parameter());
        let statement = Statement { text: self.text, parameters, fetch: self.fetch };
        assert(statement@.parameters =~= self@.parameters.push(value.bound()));
        statement
    }

    /// The statement's values as the driver takes them: every parameter, in
    /// order. Fails at the first value that exceeds the size limit, and only
    /// there.
    pub fn arguments(&self) -> (result: Result<PgArguments, BindError>)
        ensures
            match result {
                Ok(arguments) => {
                    &&& driver::bound_values(arguments) == self@.parameters.map_values(
                        |value: Bound| sent(value),
                    )
                    &&& forall|i: int|
                        0 <= i < self@.parameters.len() ==> fits(#[trigger] self@.parameters[i])
                },
                Err(error) => {
                    &&& 1 <= error.position <= self@.parameters.len()
                    &&& !fits(self@.parameters[error.position - 1])
                    &&& forall|i: int|
                        0 <= i < error.position - 1 ==> fits(#[trigger] self@.parameters[i])
                },
            },
    {
        let mut arguments = no_arguments();
        let ghost expected = self@.parameters.map_values(|value: Bound| sent(value));
        for i in 0..self.parameters.len()
            invariant
                expected == self@.parameters.map_values(|value: Bound| sent(value)),
                driver::bound_values(arguments) =~= expected.take(i as int),
                forall|j: int| 0 <= j < i ==> fits(#[trigger] self@.parameters[j]),
        {
            let added = match &self.parameters[i] {
                Parameter::Uuid(value) => add_uuid(&mut arguments, *value),
                Parameter::Text(Some(text)) => add_text(&mut arguments, Some(text.as_str())),
                Parameter::Text(None) => add_text(&mut arguments, None),
                Parameter::BigInt(value) => add_bigint(&mut arguments, *value),
                Parameter::Integer(value) => add_integer(&mut arguments, *value),
                Parameter::SmallInt(value) => add_smallint(&mut arguments, *value),
                Parameter::Boolean(value) => add_boolean(&mut arguments, *value),
                Parameter::Bytes(Some(bytes)) => add_bytes(&mut arguments, Some(bytes.as_slice())),
                Parameter::Bytes(None) => add_bytes(&mut arguments, None),
                Parameter::Timestamp(value) => add_timestamp(&mut arguments, *value),
                Parameter::Json(Some(value)) => add_json(&mut arguments, Some(value)),
                Parameter::Json(None) => add_json(&mut arguments, None),
                Parameter::Uuids(values) => add_uuids(&mut arguments, values.as_slice()),
                Parameter::Texts(values) => add_texts(&mut arguments, values.as_slice()),
            };
            if let Err(reason) = added {
                return Err(BindError { position: i + 1, reason });
            }
            assert(expected.take(i + 1) =~= expected.take(i as int).push(expected[i as int]));
        }
        assert(expected.take(expected.len() as int) =~= expected);
        Ok(arguments)
    }
}

} // verus!
