//! Conditions on rows: their texts, and which rows they are written to select.
//!
//! A condition's text and its meaning come from one value. The meaning follows
//! the three-valued logic of SQL, in which a comparison with a null is neither
//! true nor false, and a row is selected where every condition is true. That
//! the database takes the texts in this sense is not proved here.

use vstd::prelude::*;

use crate::insert;
use crate::insert::{Given, RowView};
use crate::statement::Bound;
use crate::tenant;
use crate::tenant::{Layout, Start};

verus! {

/// How a column is compared with a value.
#[derive(Clone, Copy, Debug, PartialEq, Eq, Structural)]
pub enum Test {
    Equal,
    Less,
    AtLeast,
    /// The same as [`Test::AtLeast`], set off by spaces.
    From,
    /// Not greater, set off by spaces.
    UpTo,
    Greater,
    AtMost,
    /// The same as [`Test::Less`], set off by spaces.
    Below,
}

impl Test {
    /// The operator's text.
    pub open spec fn text(self) -> Seq<char> {
        match self {
            Test::Equal => "="@,
            Test::Less => "<"@,
            Test::AtLeast => ">="@,
            Test::From => " >= "@,
            Test::UpTo => " <= "@,
            Test::Greater => ">"@,
            Test::AtMost => "<="@,
            Test::Below => " < "@,
        }
    }

    /// The operator's text.
    fn as_str(self) -> (text: &'static str)
        ensures
            text@ == self.text(),
    {
        match self {
            Test::Equal => "=",
            Test::Less => "<",
            Test::AtLeast => ">=",
            Test::From => " >= ",
            Test::UpTo => " <= ",
            Test::Greater => ">",
            Test::AtMost => "<=",
            Test::Below => " < ",
        }
    }
}

/// The database type of a value that may be null.
#[derive(Clone, Copy, Debug, PartialEq, Eq, Structural)]
pub enum Kind {
    Uuid,
    Text,
    Timestamp,
    Boolean,
}

impl Kind {
    /// The type's name.
    pub open spec fn text(self) -> Seq<char> {
        match self {
            Kind::Uuid => "uuid"@,
            Kind::Text => "text"@,
            Kind::Timestamp => "timestamptz"@,
            Kind::Boolean => "bool"@,
        }
    }

    /// The type's name.
    fn as_str(self) -> (text: &'static str)
        ensures
            text@ == self.text(),
    {
        match self {
            Kind::Uuid => "uuid",
            Kind::Text => "text",
            Kind::Timestamp => "timestamptz",
            Kind::Boolean => "bool",
        }
    }
}

/// A condition on the columns of a row. Numbers are those of placeholders. A
/// column is written as it is, and so is to be a column's name.
pub enum Condition {
    /// The column compares so with the placeholder's value.
    Compared(Seq<char>, Test, nat),
    /// The same, where the placeholder's value is not null.
    ComparedIfGiven(Seq<char>, Test, Kind, nat),
    /// The pair of columns compares so with the pair of the placeholders' values,
    /// where the first of these is not null.
    PairIfGiven(Seq<char>, Seq<char>, Test, Kind, nat, nat),
    /// The column holds one of the placeholder's values.
    Among(Seq<char>, nat),
    /// The column holds a word.
    Word(Seq<char>, Seq<char>),
    /// The column is true.
    True(Seq<char>),
    /// The column, which holds a truth value, is true.
    Holding(Seq<char>),
    /// The column is a number above zero.
    Positive(Seq<char>),
    /// The columns add up to a number above zero.
    SumPositive(Seq<char>, Seq<char>),
    /// What the text asks, where the placeholder's value is not null.
    AskedIfGiven(Seq<char>, Kind, nat),
    /// The column is false.
    False(Seq<char>),
    /// The column is null.
    Null(Seq<char>),
    /// The column is not null.
    NotNull(Seq<char>),
    /// The column holds another word.
    NotWord(Seq<char>, Seq<char>),
    /// The column holds one of two words.
    EitherWord(Seq<char>, Seq<char>, Seq<char>),
    /// What the text asks.
    Asked(Seq<char>),
    /// The first column holds the first word and the second a time that has
    /// come, or it holds the other word and the last column such a time.
    DueOrExpired(Seq<char>, Seq<char>, Seq<char>, Seq<char>, Seq<char>),
    /// The first column holds the first word, or it holds the other word and the
    /// last column a time that has passed.
    WaitingOrExpired(Seq<char>, Seq<char>, Seq<char>, Seq<char>),
    /// The column is a time to come.
    ToCome(Seq<char>),
    /// The column holds the first placeholder's value, or one of the second's.
    EqualOrAmong(Seq<char>, nat, nat),
    /// Where the placeholder's value is not null, it says whether the first
    /// column is null and the second a time to come.
    PendingAsGiven(Seq<char>, Seq<char>, nat),
}

/// A row by the names of its columns. A column that is not there is null.
pub type Record = Map<Seq<char>, Bound>;

/// What the database judges by: its order of values, its time, the time that a
/// number of seconds later is, and what it answers to a text that asks of a row
/// and the bound values, or gives for one that computes from them.
pub struct Database {
    pub less: spec_fn(Bound, Bound) -> bool,
    pub now: Bound,
    pub later: spec_fn(Bound) -> Bound,
    pub answers: spec_fn(Seq<char>, Record, Seq<Bound>) -> bool,
    pub computes: spec_fn(Seq<char>, Record, Seq<Bound>) -> Bound,
}

/// Whether a word can stand between quotes as it is.
pub open spec fn is_plain(word: Seq<char>) -> bool {
    forall|i: int| 0 <= i < word.len() ==> #[trigger] word[i] != '\''
}

/// The words that statements hold columns against or set them to.
pub open spec fn is_known_word(word: Seq<char>) -> bool {
    ||| word == "active"@
    ||| word == "backfill_suppressed"@
    ||| word == "cancelled"@
    ||| word == "completed"@
    ||| word == "deliveries_terminal"@
    ||| word == "delivery cancelled by authenticated project user"@
    ||| word == "destination disabled before delivery"@
    ||| word == "destination_disabled"@
    ||| word == "domain"@
    ||| word == "failed"@
    ||| word == "in_flight"@
    ||| word == "inactive"@
    ||| word == "invitation.resent"@
    ||| word == "no_destinations"@
    ||| word == "owner"@
    ||| word == "pending"@
    ||| word == "running"@
    ||| word == "runtime_group.first_seen"@
    ||| word == "user"@
    ||| word == "user_cancelled"@
    ||| word == "verify_email"@
}

/// Each word that statements hold columns against or set them to can stand
/// between quotes.
pub broadcast proof fn known_words_are_plain(word: Seq<char>)
    requires
        is_known_word(word),
    ensures
        #[trigger] is_plain(word),
{
    reveal_strlit("active");
    reveal_strlit("backfill_suppressed");
    reveal_strlit("cancelled");
    reveal_strlit("completed");
    reveal_strlit("deliveries_terminal");
    reveal_strlit("delivery cancelled by authenticated project user");
    reveal_strlit("destination disabled before delivery");
    reveal_strlit("destination_disabled");
    reveal_strlit("domain");
    reveal_strlit("failed");
    reveal_strlit("in_flight");
    reveal_strlit("inactive");
    reveal_strlit("invitation.resent");
    reveal_strlit("no_destinations");
    reveal_strlit("owner");
    reveal_strlit("pending");
    reveal_strlit("running");
    reveal_strlit("runtime_group.first_seen");
    reveal_strlit("user");
    reveal_strlit("user_cancelled");
    reveal_strlit("verify_email");
}

/// Whether a value is its type's null.
pub open spec fn is_null(value: Bound) -> bool {
    match value {
        Bound::Uuid(inner) => inner is None,
        Bound::Text(inner) => inner is None,
        Bound::BigInt(inner) => inner is None,
        Bound::Integer(inner) => inner is None,
        Bound::SmallInt(inner) => inner is None,
        Bound::Boolean(inner) => inner is None,
        Bound::Bytes(inner) => inner is None,
        Bound::Timestamp(inner) => inner is None,
        Bound::Json(inner) => inner is None,
        Bound::Uuids(_) => false,
        Bound::Texts(_) => false,
    }
}

/// Whether a number is above zero.
pub open spec fn is_positive(value: Bound) -> bool {
    match value {
        Bound::BigInt(Some(number)) => number > 0,
        _ => false,
    }
}

/// Whether a text or an id is one of a list of them.
pub open spec fn among(value: Bound, list: Bound) -> bool {
    match (value, list) {
        (Bound::Text(Some(text)), Bound::Texts(texts)) => texts.contains(text),
        (Bound::Uuid(Some(id)), Bound::Uuids(ids)) => ids.contains(id),
        _ => false,
    }
}

/// The lesser of two values, or the one that is not null.
pub open spec fn least(stored: Bound, given: Bound, less: spec_fn(Bound, Bound) -> bool) -> Bound {
    if is_null(stored) {
        given
    } else if !is_null(given) && less(given, stored) {
        given
    } else {
        stored
    }
}

/// The greater of two values, or the one that is not null.
pub open spec fn greatest(
    stored: Bound,
    given: Bound,
    less: spec_fn(Bound, Bound) -> bool,
) -> Bound {
    if is_null(stored) {
        given
    } else if !is_null(given) && less(stored, given) {
        given
    } else {
        stored
    }
}

/// The sum of two numbers, or null where either is null.
pub open spec fn sum(left: Bound, right: Bound) -> Bound {
    match (left, right) {
        (Bound::BigInt(Some(one)), Bound::BigInt(Some(other))) => Bound::BigInt(
            Some((one + other) as i64),
        ),
        _ => Bound::BigInt(None),
    }
}

/// Whether a column of a record holds a value.
pub open spec fn has(record: Record, column: Seq<char>, value: Bound) -> bool {
    record.contains_key(column) && record[column] == value
}

/// Whether a column of a record is null.
pub open spec fn lacks(record: Record, column: Seq<char>) -> bool {
    !record.contains_key(column) || is_null(record[column])
}

impl Condition {
    /// The condition's text.
    pub open spec fn text(self) -> Seq<char> {
        match self {
            Condition::Compared(column, test, number) => column + test.text()
                + insert::placeholder(number),
            Condition::ComparedIfGiven(column, test, kind, number) => "("@ + insert::placeholder(
                number,
            ) + "::"@ + kind.text() + " IS NULL OR "@ + column + test.text()
                + insert::placeholder(number) + ")"@,
            Condition::PairIfGiven(first, second, test, kind, number, other) => "("@
                + insert::placeholder(number) + "::"@ + kind.text() + " IS NULL OR ("@ + first
                + ","@ + second + ")"@ + test.text() + "("@ + insert::placeholder(number) + ","@
                + insert::placeholder(other) + "))"@,
            Condition::Among(column, number) => column + "=ANY("@ + insert::placeholder(number)
                + ")"@,
            Condition::Holding(column) => column,
            Condition::Word(column, word) => column + "='"@ + word + "'"@,
            Condition::True(column) => column + "=true"@,
            Condition::Positive(column) => column + ">0"@,
            Condition::SumPositive(column, other) => column + "+"@ + other + ">0"@,
            Condition::AskedIfGiven(asked, kind, number) => "("@ + insert::placeholder(number)
                + "::"@ + kind.text() + " IS NULL OR "@ + asked + ")"@,
            Condition::False(column) => "NOT "@ + column,
            Condition::Null(column) => column + " IS NULL"@,
            Condition::NotNull(column) => column + " IS NOT NULL"@,
            Condition::NotWord(column, word) => column + "<>'"@ + word + "'"@,
            Condition::EitherWord(column, word, other) => column + " IN ('"@ + word + "','"@
                + other + "')"@,
            Condition::Asked(asked) => asked,
            Condition::DueOrExpired(column, word, due, other, lease) => "("@ + column + "='"@
                + word + "' AND "@ + due + "<=now()) OR ("@ + column + "='"@ + other + "' AND "@
                + lease + "<=now())"@,
            Condition::WaitingOrExpired(column, word, other, lease) => column + "='"@ + word
                + "' OR ("@ + column + "='"@ + other + "' AND "@ + lease + "<now())"@,
            Condition::ToCome(column) => column + ">now()"@,
            Condition::EqualOrAmong(column, number, others) => "("@ + column + "="@
                + insert::placeholder(number) + " OR "@ + column + "=ANY("@ + insert::placeholder(
                others,
            ) + "))"@,
            Condition::PendingAsGiven(cleared, time, number) => "("@ + insert::placeholder(number)
                + "::boolean IS NULL OR "@ + insert::placeholder(number) + "=("@ + cleared
                + " IS NULL AND "@ + time + ">now()))"@,
        }
    }

    /// Whether the condition is true of a record, with `parameters` bound to
    /// the placeholders.
    pub open spec fn holds(
        self,
        record: Record,
        parameters: Seq<Bound>,
        database: Database,
    ) -> bool {
        match self {
            Condition::Compared(column, test, number) => {
                &&& !lacks(record, column)
                &&& !is_null(parameters[number - 1])
                &&& compares(record[column], test, parameters[number - 1], database)
            },
            Condition::ComparedIfGiven(column, test, _, number) => {
                ||| is_null(parameters[number - 1])
                ||| {
                    &&& !lacks(record, column)
                    &&& compares(record[column], test, parameters[number - 1], database)
                }
            },
            Condition::PairIfGiven(first, second, test, _, number, other) => {
                ||| is_null(parameters[number - 1])
                ||| pair_compares(
                    record,
                    first,
                    second,
                    test,
                    parameters[number - 1],
                    parameters[other - 1],
                    database,
                )
            },
            Condition::Among(column, number) => {
                &&& !lacks(record, column)
                &&& among(record[column], parameters[number - 1])
            },
            Condition::Holding(column) => has(record, column, Bound::Boolean(Some(true))),
            Condition::Word(column, word) => {
                record.contains_key(column) && record[column] == Bound::Text(Some(word))
            },
            Condition::True(column) => {
                record.contains_key(column) && record[column] == Bound::Boolean(Some(true))
            },
            Condition::Positive(column) => {
                &&& !lacks(record, column)
                &&& is_positive(record[column])
            },
            Condition::SumPositive(column, other) => {
                &&& !lacks(record, column)
                &&& !lacks(record, other)
                &&& is_positive(sum(record[column], record[other]))
            },
            Condition::AskedIfGiven(asked, _, number) => {
                ||| is_null(parameters[number - 1])
                ||| (database.answers)(asked, record, parameters)
            },
            Condition::False(column) => {
                record.contains_key(column) && record[column] == Bound::Boolean(Some(false))
            },
            Condition::Null(column) => lacks(record, column),
            Condition::NotNull(column) => !lacks(record, column),
            Condition::NotWord(column, word) => {
                &&& !lacks(record, column)
                &&& record[column] != Bound::Text(Some(word))
            },
            Condition::EitherWord(column, word, other) => {
                ||| has(record, column, Bound::Text(Some(word)))
                ||| has(record, column, Bound::Text(Some(other)))
            },
            Condition::Asked(asked) => (database.answers)(asked, record, parameters),
            Condition::DueOrExpired(column, word, due, other, lease) => {
                ||| {
                    &&& has(record, column, Bound::Text(Some(word)))
                    &&& !lacks(record, due)
                    &&& !(database.less)(database.now, record[due])
                }
                ||| {
                    &&& has(record, column, Bound::Text(Some(other)))
                    &&& !lacks(record, lease)
                    &&& !(database.less)(database.now, record[lease])
                }
            },
            Condition::WaitingOrExpired(column, word, other, lease) => {
                ||| has(record, column, Bound::Text(Some(word)))
                ||| {
                    &&& has(record, column, Bound::Text(Some(other)))
                    &&& !lacks(record, lease)
                    &&& (database.less)(record[lease], database.now)
                }
            },
            Condition::ToCome(column) => {
                &&& !lacks(record, column)
                &&& (database.less)(database.now, record[column])
            },
            Condition::EqualOrAmong(column, number, others) => {
                &&& !lacks(record, column)
                &&& {
                    ||| record[column] == parameters[number - 1]
                    ||| among(record[column], parameters[others - 1])
                }
            },
            Condition::PendingAsGiven(cleared, time, number) => {
                match parameters[number - 1] {
                    // A set column settles the question where the time is null.
                    Bound::Boolean(Some(wanted)) => if !lacks(record, cleared) {
                        !wanted
                    } else {
                        &&& !lacks(record, time)
                        &&& wanted == (database.less)(database.now, record[time])
                    },
                    value => is_null(value),
                }
            },
        }
    }
}

/// The text of a condition that a column has a value, laid out so.
pub open spec fn equality_text(condition: Condition, layout: Layout) -> Seq<char> {
    match condition {
        Condition::Compared(column, Test::Equal, number) => column + layout.equals()
            + insert::placeholder(number),
        Condition::Word(column, word) => column + layout.equals() + "'"@ + word + "'"@,
        _ => condition.text(),
    }
}

/// The texts of such conditions, with `AND` between them.
pub open spec fn equalities_text(conditions: Seq<Condition>, layout: Layout) -> Seq<char>
    decreases conditions.len(),
{
    if conditions.len() == 0 {
        Seq::empty()
    } else if conditions.len() == 1 {
        equality_text(conditions[0], layout)
    } else {
        equalities_text(conditions.drop_last(), layout) + layout.and() + equality_text(
            conditions.last(),
            layout,
        )
    }
}

/// Whether two values that are not null compare so.
pub open spec fn compares(left: Bound, test: Test, right: Bound, database: Database) -> bool {
    match test {
        Test::Equal => left == right,
        Test::Less => (database.less)(left, right),
        Test::AtLeast => !(database.less)(left, right),
        Test::From => !(database.less)(left, right),
        Test::UpTo => !(database.less)(right, left),
        Test::Greater => (database.less)(right, left),
        Test::AtMost => !(database.less)(right, left),
        Test::Below => (database.less)(left, right),
    }
}

/// Whether a pair of columns is known to compare so with a pair of values: by the
/// first of each, and by the second where the first are equal.
pub open spec fn pair_compares(
    record: Record,
    first: Seq<char>,
    second: Seq<char>,
    test: Test,
    one: Bound,
    other: Bound,
    database: Database,
) -> bool {
    &&& !lacks(record, first)
    &&& !is_null(one)
    &&& {
        ||| record[first] != one && compares(record[first], test, one, database)
        ||| {
            &&& record[first] == one
            &&& !lacks(record, second)
            &&& !is_null(other)
            &&& compares(record[second], test, other, database)
        }
    }
}

/// The conditions' texts, with `AND` between them.
pub open spec fn all_text(conditions: Seq<Condition>) -> Seq<char>
    decreases conditions.len(),
{
    if conditions.len() == 0 {
        Seq::empty()
    } else if conditions.len() == 1 {
        conditions[0].text()
    } else {
        all_text(conditions.drop_last()) + " AND "@ + conditions.last().text()
    }
}

/// Whether a record is one that the conditions select.
pub open spec fn selects(
    conditions: Seq<Condition>,
    record: Record,
    parameters: Seq<Bound>,
    database: Database,
) -> bool {
    forall|i: int|
        0 <= i < conditions.len() ==> (#[trigger] conditions[i]).holds(
            record,
            parameters,
            database,
        )
}

/// The records that the conditions select.
pub open spec fn selected(
    conditions: Seq<Condition>,
    records: Seq<Record>,
    parameters: Seq<Bound>,
    database: Database,
) -> Seq<Record> {
    records.filter(|record: Record| selects(conditions, record, parameters, database))
}

/// The first of the records, as many as the limit lets through.
pub open spec fn limited(records: Seq<Record>, limit: nat) -> Seq<Record> {
    if records.len() <= limit {
        records
    } else {
        records.take(limit as int)
    }
}

/// Whether a record is what a row writes: its columns hold the values beside
/// them, and a column that the row does not name is null. This is of a table
/// that gives no such column a value of its own.
pub open spec fn is_written(row: RowView, record: Record) -> bool {
    &&& forall|i: int|
        0 <= i < row.cells.len() ==> ((#[trigger] row.cells[i]).given matches Given::Value(_, value)
            ==> record.contains_key(row.cells[i].column)
            && record[row.cells[i].column] == value)
    &&& forall|column: Seq<char>| #[trigger]
        record.contains_key(column) ==> exists|i: int|
            0 <= i < row.cells.len() && (#[trigger] row.cells[i]).column == column
}

/// The conditions on a project's path from `$1` on.
pub open spec fn project_path(alias: Seq<char>) -> Seq<Condition> {
    seq![
        Condition::Compared(alias + "organization_id"@, Test::Equal, 1),
        Condition::Compared(alias + "project_id"@, Test::Equal, 2),
    ]
}

/// The conditions on an application's path from `$1` on.
pub open spec fn application_path(alias: Seq<char>) -> Seq<Condition> {
    project_path(alias).push(
        Condition::Compared(alias + "application_id"@, Test::Equal, 3),
    )
}

/// The texts of two lists of conditions, one after the other.
pub proof fn lemma_texts_join(first: Seq<Condition>, second: Seq<Condition>)
    requires
        first.len() > 0,
        second.len() > 0,
    ensures
        all_text(first + second) == all_text(first) + " AND "@ + all_text(second),
    decreases second.len(),
{
    let both = first + second;
    assert(both.drop_last() =~= first + second.drop_last());
    assert(both.last() == second.last());
    if second.len() == 1 {
        assert(second.drop_last() =~= Seq::<Condition>::empty());
        assert(first + second.drop_last() =~= first);
    } else {
        lemma_texts_join(first, second.drop_last());
        assert(all_text(both) =~= all_text(first) + " AND "@ + all_text(second));
    }
}

/// The filters by a path are the texts of the conditions on it.
pub proof fn paths_are_filters(alias: Seq<char>)
    ensures
        all_text(project_path(alias)) == tenant::project_filter(
            alias,
            Layout::Tight,
            Start::First,
        ),
        all_text(application_path(alias)) == tenant::application_filter(
            alias,
            Layout::Tight,
            Start::First,
        ),
{
    reveal_strlit("$");
    reveal_strlit("1");
    reveal_strlit("2");
    reveal_strlit("3");
    reveal_strlit("$1");
    reveal_strlit("$2");
    reveal_strlit("$3");
    assert(insert::placeholder(1) =~= "$1"@);
    assert(insert::placeholder(2) =~= "$2"@);
    assert(insert::placeholder(3) =~= "$3"@);
    let project = project_path(alias);
    let organization = seq![project[0]];
    assert(project.drop_last() =~= organization);
    assert(all_text(organization) == project[0].text());
    assert(all_text(project) =~= tenant::project_filter(alias, Layout::Tight, Start::First));
    let application = application_path(alias);
    assert(application.drop_last() =~= project);
    assert(all_text(application) =~= tenant::application_filter(
        alias,
        Layout::Tight,
        Start::First,
    ));
}

/// Conditions, with `AND` between them.
pub struct Conditions {
    text: String,
    started: bool,
    list: Ghost<Seq<Condition>>,
}

impl View for Conditions {
    type V = Seq<Condition>;

    closed spec fn view(&self) -> Seq<Condition> {
        self.list@
    }
}

impl Conditions {
    /// The text is that of the conditions.
    #[verifier::type_invariant]
    spec fn well_formed(self) -> bool {
        &&& self.text@ == all_text(self.list@)
        &&& self.started <==> self.list@.len() > 0
    }

    /// No condition.
    pub fn new() -> (result: Conditions)
        ensures
            result@ == Seq::<Condition>::empty(),
    {
        let text = String::new();
        assert(text@ =~= Seq::<char>::empty());
        Conditions { text, started: false, list: Ghost(Seq::empty()) }
    }

    /// Adds a condition by its text.
    fn with(self, text: String, Ghost(condition): Ghost<Condition>) -> (result: Conditions)
        requires
            text@ == condition.text(),
        ensures
            result@ == self@.push(condition),
    {
        proof {
            use_type_invariant(&self);
            assert(self@.push(condition).drop_last() =~= self@);
        }
        let ghost list = self@.push(condition);
        let joined = if self.started {
            self.text.concat(" AND ").concat(text.as_str())
        } else {
            text
        };
        Conditions { text: joined, started: true, list: Ghost(list) }
    }

    /// Adds that the column compares so with the placeholder's value.
    pub fn compared(self, column: &str, test: Test, number: usize) -> (result: Conditions)
        ensures
            result@ == self@.push(Condition::Compared(column@, test, number as nat)),
    {
        let placeholder = insert::placeholder_string(number);
        let text = column.to_owned().concat(test.as_str()).concat(placeholder.as_str());
        self.with(text, Ghost(Condition::Compared(column@, test, number as nat)))
    }

    /// Adds that the column compares so with the placeholder's value, where
    /// that is not null.
    pub fn compared_if_given(
        self,
        column: &str,
        test: Test,
        kind: Kind,
        number: usize,
    ) -> (result: Conditions)
        ensures
            result@ == self@.push(
                Condition::ComparedIfGiven(column@, test, kind, number as nat),
            ),
    {
        let placeholder = insert::placeholder_string(number);
        let text = "(".to_owned()
            .concat(placeholder.as_str())
            .concat("::")
            .concat(kind.as_str())
            .concat(" IS NULL OR ")
            .concat(column)
            .concat(test.as_str())
            .concat(placeholder.as_str())
            .concat(")");
        self.with(text, Ghost(Condition::ComparedIfGiven(column@, test, kind, number as nat)))
    }

    /// Adds that the pair of columns compares so with the pair of the placeholders'
    /// values, where the first of these is not null.
    pub fn pair_if_given(
        self,
        first: &str,
        second: &str,
        test: Test,
        kind: Kind,
        number: usize,
        other: usize,
    ) -> (result: Conditions)
        ensures
            result@ == self@.push(
                Condition::PairIfGiven(first@, second@, test, kind, number as nat, other as nat),
            ),
    {
        let placeholder = insert::placeholder_string(number);
        let text = "(".to_owned()
            .concat(placeholder.as_str())
            .concat("::")
            .concat(kind.as_str())
            .concat(" IS NULL OR (")
            .concat(first)
            .concat(",")
            .concat(second)
            .concat(")")
            .concat(test.as_str())
            .concat("(")
            .concat(placeholder.as_str())
            .concat(",")
            .concat(insert::placeholder_string(other).as_str())
            .concat("))");
        self.with(
            text,
            Ghost(
                Condition::PairIfGiven(first@, second@, test, kind, number as nat, other as nat),
            ),
        )
    }

    /// Adds that the column holds one of the placeholder's values.
    pub fn among(self, column: &str, number: usize) -> (result: Conditions)
        ensures
            result@ == self@.push(Condition::Among(column@, number as nat)),
    {
        let text = column.to_owned()
            .concat("=ANY(")
            .concat(insert::placeholder_string(number).as_str())
            .concat(")");
        self.with(text, Ghost(Condition::Among(column@, number as nat)))
    }

    /// Adds that the column, which holds a truth value, is true.
    pub fn holding(self, column: &str) -> (result: Conditions)
        ensures
            result@ == self@.push(Condition::Holding(column@)),
    {
        self.with(column.to_owned(), Ghost(Condition::Holding(column@)))
    }

    /// Adds that the column holds a word.
    pub fn word(self, column: &str, word: &str) -> (result: Conditions)
        requires
            is_plain(word@),
        ensures
            result@ == self@.push(Condition::Word(column@, word@)),
    {
        let text = column.to_owned().concat("='").concat(word).concat("'");
        self.with(text, Ghost(Condition::Word(column@, word@)))
    }

    /// Adds that the column is true.
    pub fn is_true(self, column: &str) -> (result: Conditions)
        ensures
            result@ == self@.push(Condition::True(column@)),
    {
        let text = column.to_owned().concat("=true");
        self.with(text, Ghost(Condition::True(column@)))
    }

    /// Adds that the column is a number above zero.
    pub fn positive(self, column: &str) -> (result: Conditions)
        ensures
            result@ == self@.push(Condition::Positive(column@)),
    {
        let text = column.to_owned().concat(">0");
        self.with(text, Ghost(Condition::Positive(column@)))
    }

    /// Adds that the columns add up to a number above zero.
    pub fn sum_positive(self, column: &str, other: &str) -> (result: Conditions)
        ensures
            result@ == self@.push(Condition::SumPositive(column@, other@)),
    {
        let text = column.to_owned().concat("+").concat(other).concat(">0");
        self.with(text, Ghost(Condition::SumPositive(column@, other@)))
    }

    /// Adds what the text asks, where the placeholder's value is not null.
    pub fn asked_if_given(self, asked: &str, kind: Kind, number: usize) -> (result: Conditions)
        ensures
            result@ == self@.push(Condition::AskedIfGiven(asked@, kind, number as nat)),
    {
        let text = "(".to_owned()
            .concat(insert::placeholder_string(number).as_str())
            .concat("::")
            .concat(kind.as_str())
            .concat(" IS NULL OR ")
            .concat(asked)
            .concat(")");
        self.with(text, Ghost(Condition::AskedIfGiven(asked@, kind, number as nat)))
    }

    /// Adds that the column is false.
    pub fn is_false(self, column: &str) -> (result: Conditions)
        ensures
            result@ == self@.push(Condition::False(column@)),
    {
        let text = "NOT ".to_owned().concat(column);
        self.with(text, Ghost(Condition::False(column@)))
    }

    /// Adds that the column is null.
    pub fn is_null(self, column: &str) -> (result: Conditions)
        ensures
            result@ == self@.push(Condition::Null(column@)),
    {
        let text = column.to_owned().concat(" IS NULL");
        self.with(text, Ghost(Condition::Null(column@)))
    }

    /// Adds that the column is not null.
    pub fn not_null(self, column: &str) -> (result: Conditions)
        ensures
            result@ == self@.push(Condition::NotNull(column@)),
    {
        let text = column.to_owned().concat(" IS NOT NULL");
        self.with(text, Ghost(Condition::NotNull(column@)))
    }

    /// Adds that the column holds another word.
    pub fn not_word(self, column: &str, word: &str) -> (result: Conditions)
        requires
            is_plain(word@),
        ensures
            result@ == self@.push(Condition::NotWord(column@, word@)),
    {
        let text = column.to_owned().concat("<>'").concat(word).concat("'");
        self.with(text, Ghost(Condition::NotWord(column@, word@)))
    }

    /// Adds that the column holds one of two words.
    pub fn either_word(self, column: &str, word: &str, other: &str) -> (result: Conditions)
        requires
            is_plain(word@),
            is_plain(other@),
        ensures
            result@ == self@.push(Condition::EitherWord(column@, word@, other@)),
    {
        let text = column.to_owned()
            .concat(" IN ('")
            .concat(word)
            .concat("','")
            .concat(other)
            .concat("')");
        self.with(text, Ghost(Condition::EitherWord(column@, word@, other@)))
    }

    /// Adds what the text asks.
    pub fn asked(self, asked: &str) -> (result: Conditions)
        ensures
            result@ == self@.push(Condition::Asked(asked@)),
    {
        self.with(asked.to_owned(), Ghost(Condition::Asked(asked@)))
    }

    /// Adds that the column holds the first word and `due` a time that has come,
    /// or that it holds the other word and `lease` such a time.
    pub fn due_or_expired(
        self,
        column: &str,
        word: &str,
        due: &str,
        other: &str,
        lease: &str,
    ) -> (result: Conditions)
        requires
            is_plain(word@),
            is_plain(other@),
        ensures
            result@ == self@.push(
                Condition::DueOrExpired(column@, word@, due@, other@, lease@),
            ),
    {
        let text = "(".to_owned()
            .concat(column)
            .concat("='")
            .concat(word)
            .concat("' AND ")
            .concat(due)
            .concat("<=now()) OR (")
            .concat(column)
            .concat("='")
            .concat(other)
            .concat("' AND ")
            .concat(lease)
            .concat("<=now())");
        self.with(text, Ghost(Condition::DueOrExpired(column@, word@, due@, other@, lease@)))
    }

    /// Adds that the column holds the first word, or that it holds the other word
    /// and `lease` a time that has passed.
    pub fn waiting_or_expired(
        self,
        column: &str,
        word: &str,
        other: &str,
        lease: &str,
    ) -> (result: Conditions)
        requires
            is_plain(word@),
            is_plain(other@),
        ensures
            result@ == self@.push(Condition::WaitingOrExpired(column@, word@, other@, lease@)),
    {
        let text = column.to_owned()
            .concat("='")
            .concat(word)
            .concat("' OR (")
            .concat(column)
            .concat("='")
            .concat(other)
            .concat("' AND ")
            .concat(lease)
            .concat("<now())");
        self.with(text, Ghost(Condition::WaitingOrExpired(column@, word@, other@, lease@)))
    }

    /// Adds that the column is a time to come.
    pub fn to_come(self, column: &str) -> (result: Conditions)
        ensures
            result@ == self@.push(Condition::ToCome(column@)),
    {
        let text = column.to_owned().concat(">now()");
        self.with(text, Ghost(Condition::ToCome(column@)))
    }

    /// Adds that the column holds the first placeholder's value, or one of the
    /// second's.
    pub fn equal_or_among(self, column: &str, number: usize, others: usize) -> (result: Conditions)
        ensures
            result@ == self@.push(
                Condition::EqualOrAmong(column@, number as nat, others as nat),
            ),
    {
        let text = "(".to_owned()
            .concat(column)
            .concat("=")
            .concat(insert::placeholder_string(number).as_str())
            .concat(" OR ")
            .concat(column)
            .concat("=ANY(")
            .concat(insert::placeholder_string(others).as_str())
            .concat("))");
        self.with(text, Ghost(Condition::EqualOrAmong(column@, number as nat, others as nat)))
    }

    /// Adds that the placeholder's value, where it is not null, says whether
    /// `cleared` is null and `time` is to come.
    pub fn pending_as_given(self, cleared: &str, time: &str, number: usize) -> (result: Conditions)
        ensures
            result@ == self@.push(Condition::PendingAsGiven(cleared@, time@, number as nat)),
    {
        let placeholder = insert::placeholder_string(number);
        let text = "(".to_owned()
            .concat(placeholder.as_str())
            .concat("::boolean IS NULL OR ")
            .concat(placeholder.as_str())
            .concat("=(")
            .concat(cleared)
            .concat(" IS NULL AND ")
            .concat(time)
            .concat(">now()))");
        self.with(text, Ghost(Condition::PendingAsGiven(cleared@, time@, number as nat)))
    }

    /// The conditions' text.
    pub fn into_text(self) -> (text: String)
        ensures
            text@ == all_text(self@),
    {
        proof {
            use_type_invariant(&self);
        }
        self.text
    }
}

/// What each condition says, written out.
pub proof fn conditions_are_written_so(
    column: Seq<char>,
    other: Seq<char>,
    word: Seq<char>,
    due: Seq<char>,
    lease: Seq<char>,
    kind: Kind,
    number: nat,
    others: nat,
)
    ensures
        ({
            let given = insert::placeholder(number);
            let list = insert::placeholder(others);
            let if_given = "("@ + given + "::"@ + kind.text() + " IS NULL OR "@;
            &&& Condition::Compared(column, Test::Equal, number).text() == column + "="@ + given
            &&& Condition::Compared(column, Test::Less, number).text() == column + "<"@ + given
            &&& Condition::Compared(column, Test::AtLeast, number).text() == column + ">="@
                + given
            &&& Condition::ComparedIfGiven(column, Test::Equal, kind, number).text() == if_given
                + column + "="@ + given + ")"@
            &&& Condition::ComparedIfGiven(column, Test::Less, kind, number).text() == if_given
                + column + "<"@ + given + ")"@
            &&& Condition::ComparedIfGiven(column, Test::AtLeast, kind, number).text() == if_given
                + column + ">="@ + given + ")"@
            &&& Condition::ComparedIfGiven(column, Test::From, kind, number).text() == if_given
                + column + " >= "@ + given + ")"@
            &&& Condition::ComparedIfGiven(column, Test::UpTo, kind, number).text() == if_given
                + column + " <= "@ + given + ")"@
            &&& Condition::ComparedIfGiven(column, Test::Greater, kind, number).text() == if_given
                + column + ">"@ + given + ")"@
            &&& Condition::ComparedIfGiven(column, Test::Below, kind, number).text() == if_given
                + column + " < "@ + given + ")"@
            &&& Condition::Compared(column, Test::AtMost, number).text() == column + "<="@ + given
            &&& Condition::Compared(column, Test::Greater, number).text() == column + ">"@ + given
            &&& Condition::Compared(column, Test::From, number).text() == column + " >= "@ + given
            &&& Condition::Among(column, number).text() == column + "=ANY("@ + given + ")"@
            &&& Condition::Holding(column).text() == column
            &&& Condition::AskedIfGiven(column, kind, number).text() == if_given + column + ")"@
            &&& Condition::Word(column, word).text() == column + "='"@ + word + "'"@
            &&& Condition::True(column).text() == column + "=true"@
            &&& Condition::False(column).text() == "NOT "@ + column
            &&& Condition::Null(column).text() == column + " IS NULL"@
            &&& Condition::NotNull(column).text() == column + " IS NOT NULL"@
            &&& Condition::NotWord(column, word).text() == column + "<>'"@ + word + "'"@
            &&& Condition::EitherWord(column, word, other).text() == column + " IN ('"@ + word
                + "','"@ + other + "')"@
            &&& Condition::Asked(column).text() == column
            &&& Condition::DueOrExpired(column, word, due, other, lease).text() == "("@ + column
                + "='"@ + word + "' AND "@ + due + "<=now()) OR ("@ + column + "='"@ + other
                + "' AND "@ + lease + "<=now())"@
            &&& Condition::WaitingOrExpired(column, word, other, lease).text() == column + "='"@
                + word + "' OR ("@ + column + "='"@ + other + "' AND "@ + lease + "<now())"@
            &&& Condition::ToCome(column).text() == column + ">now()"@
            &&& Condition::Positive(column).text() == column + ">0"@
            &&& Condition::SumPositive(column, other).text() == column + "+"@ + other + ">0"@
            &&& Condition::EqualOrAmong(column, number, others).text() == "("@ + column + "="@
                + given + " OR "@ + column + "=ANY("@ + list + "))"@
            &&& Condition::PendingAsGiven(column, other, number).text() == "("@ + given
                + "::boolean IS NULL OR "@ + given + "=("@ + column + " IS NULL AND "@ + other
                + ">now()))"@
        }),
        Kind::Uuid.text() == "uuid"@,
        Kind::Text.text() == "text"@,
        Kind::Timestamp.text() == "timestamptz"@,
        Kind::Boolean.text() == "bool"@,
{
}

/// A row is selected where every condition holds, and by nothing else: one more
/// condition selects no more rows, and none selects every row.
pub proof fn every_condition_narrows(
    conditions: Seq<Condition>,
    condition: Condition,
    record: Record,
    parameters: Seq<Bound>,
    database: Database,
)
    ensures
        selects(Seq::empty(), record, parameters, database),
        selects(conditions.push(condition), record, parameters, database) <==> {
            &&& selects(conditions, record, parameters, database)
            &&& condition.holds(record, parameters, database)
        },
{
    let more = conditions.push(condition);
    if selects(more, record, parameters, database) {
        assert(more[conditions.len() as int].holds(record, parameters, database));
        assert forall|i: int| 0 <= i < conditions.len() implies (#[trigger] conditions[i]).holds(
            record,
            parameters,
            database,
        ) by {
            assert(more[i] == conditions[i]);
        }
    }
}

/// One condition is written as it is, and a further one behind `AND`.
pub proof fn conditions_are_listed_so(conditions: Seq<Condition>, condition: Condition)
    ensures
        all_text(seq![condition]) == condition.text(),
        conditions.len() > 0 ==> all_text(conditions.push(condition)) == all_text(conditions)
            + " AND "@ + condition.text(),
{
    assert(conditions.push(condition).drop_last() =~= conditions);
    assert(conditions.push(condition).last() == condition);
}

/// A pair of columns is held against a pair of values so.
pub proof fn pairs_are_written_so(
    first: Seq<char>,
    second: Seq<char>,
    test: Test,
    kind: Kind,
    number: nat,
    other: nat,
)
    ensures
        Condition::PairIfGiven(first, second, test, kind, number, other).text() == "("@
            + insert::placeholder(number) + "::"@ + kind.text() + " IS NULL OR ("@ + first + ","@
            + second + ")"@ + test.text() + "("@ + insert::placeholder(number) + ","@
            + insert::placeholder(other) + "))"@,
        Test::Less.text() == "<"@,
        Test::Greater.text() == ">"@,
        Test::Below.text() == " < "@,
{
}

} // verus!
