//! Changes of rows: their texts, and what the rows that they change then hold.
//!
//! A change's text and its meaning come from one value. The meaning is that of
//! SQL: every change of a statement reads the row as it was before the
//! statement. That the database takes the texts in this sense is not proved
//! here.

use vstd::prelude::*;

use crate::condition;
use crate::condition::{Database, Record};
use crate::insert;
use crate::statement::Bound;

verus! {

/// How changes are laid out.
#[derive(Clone, Copy, Debug, PartialEq, Eq, Structural)]
pub enum Form {
    /// `a=$1,b=COALESCE(b,$2)`
    Tight,
    /// `a = $1` and `b = COALESCE(b, $2)`, on lines of their own.
    Lines,
}

impl Form {
    /// What stands between a column and what it is set to.
    pub open spec fn equals(self) -> Seq<char> {
        match self {
            Form::Tight => "="@,
            Form::Lines => " = "@,
        }
    }

    /// What stands between two arguments.
    pub open spec fn comma(self) -> Seq<char> {
        match self {
            Form::Tight => ","@,
            Form::Lines => ", "@,
        }
    }

    /// What stands between two changes.
    pub open spec fn next(self) -> Seq<char> {
        match self {
            Form::Tight => ","@,
            Form::Lines => ",\n                "@,
        }
    }

    /// What stands between the parts of a case.
    pub open spec fn part(self) -> Seq<char> {
        match self {
            Form::Tight => " "@,
            Form::Lines => "\n                    "@,
        }
    }

    /// What adds one.
    pub open spec fn increment(self) -> Seq<char> {
        match self {
            Form::Tight => "+1"@,
            Form::Lines => " + 1"@,
        }
    }

    /// What tests that one value is less than another.
    pub open spec fn less(self) -> Seq<char> {
        match self {
            Form::Tight => "<"@,
            Form::Lines => " < "@,
        }
    }

    /// What stands between a column and what it is set to.
    fn equals_str(self) -> (text: &'static str)
        ensures
            text@ == self.equals(),
    {
        match self {
            Form::Tight => "=",
            Form::Lines => " = ",
        }
    }

    /// What stands between two arguments.
    fn comma_str(self) -> (text: &'static str)
        ensures
            text@ == self.comma(),
    {
        match self {
            Form::Tight => ",",
            Form::Lines => ", ",
        }
    }

    /// What stands between two changes.
    fn next_str(self) -> (text: &'static str)
        ensures
            text@ == self.next(),
    {
        match self {
            Form::Tight => ",",
            Form::Lines => ",\n                ",
        }
    }

    /// What stands between the parts of a case.
    fn part_str(self) -> (text: &'static str)
        ensures
            text@ == self.part(),
    {
        match self {
            Form::Tight => " ",
            Form::Lines => "\n                    ",
        }
    }

    /// What adds one.
    fn increment_str(self) -> (text: &'static str)
        ensures
            text@ == self.increment(),
    {
        match self {
            Form::Tight => "+1",
            Form::Lines => " + 1",
        }
    }

    /// What tests that one value is less than another.
    fn less_str(self) -> (text: &'static str)
        ensures
            text@ == self.less(),
    {
        match self {
            Form::Tight => "<",
            Form::Lines => " < ",
        }
    }
}

/// How the name of a function is written.
#[derive(Clone, Copy, Debug, PartialEq, Eq, Structural)]
pub enum Spelling {
    Upper,
    Lower,
}

impl Spelling {
    /// The start of a call that gives the first value that is not null.
    pub open spec fn coalesce(self) -> Seq<char> {
        match self {
            Spelling::Upper => "COALESCE("@,
            Spelling::Lower => "coalesce("@,
        }
    }

    /// The start of a call that gives the first value that is not null.
    fn coalesce_str(self) -> (text: &'static str)
        ensures
            text@ == self.coalesce(),
    {
        match self {
            Spelling::Upper => "COALESCE(",
            Spelling::Lower => "coalesce(",
        }
    }
}

/// What a column is set to where another one changes.
pub enum Otherwise {
    Now,
    Given(nat),
    Word(Seq<char>),
}

impl Otherwise {
    /// The text of what the column is set to.
    pub open spec fn text(self) -> Seq<char> {
        match self {
            Otherwise::Now => "now()"@,
            Otherwise::Given(number) => insert::placeholder(number),
            Otherwise::Word(word) => "'"@ + word + "'"@,
        }
    }

    /// What the column is set to.
    pub open spec fn value(self, parameters: Seq<Bound>, database: Database) -> Bound {
        match self {
            Otherwise::Now => database.now,
            Otherwise::Given(number) => parameters[number - 1],
            Otherwise::Word(word) => Bound::Text(Some(word)),
        }
    }
}

/// A change of a column, which is named first. Numbers are those of
/// placeholders. A column is written as it is, and so is to be a column's name.
pub enum Change {
    /// The column takes the placeholder's value.
    Given(Seq<char>, nat),
    /// The column takes the current time.
    Now(Seq<char>),
    /// The column becomes null.
    Null(Seq<char>),
    /// The column takes a word.
    Word(Seq<char>, Seq<char>),
    /// The column becomes zero.
    Zero(Seq<char>),
    /// The column becomes true.
    True(Seq<char>),
    /// The column takes the current time where it is null.
    NowOnce(Seq<char>, Spelling),
    /// The column takes the placeholder's value where it is null.
    GivenOnce(Seq<char>, nat),
    /// The column becomes one greater.
    Incremented(Seq<char>),
    /// The column takes the placeholder's value where that is greater.
    Raised(Seq<char>, nat),
    /// The column takes the time that is the placeholder's seconds from now.
    After(Seq<char>, nat),
    /// The column takes the time that is so many seconds from now.
    AfterSeconds(Seq<char>, nat),
    /// The column takes what the text computes.
    Computed(Seq<char>, Seq<char>),
    /// The column takes the placeholder's value where the count in the second
    /// column is zero, and the lesser of both otherwise.
    RestartedFirst(Seq<char>, Seq<char>, nat),
    /// The same, with the greater of both.
    RestartedLast(Seq<char>, Seq<char>, nat),
    /// The column takes the second placeholder's value where the pair of both
    /// placeholders is less than that of the time in the second column and the
    /// column.
    EarliestPair(Seq<char>, Seq<char>, nat, nat),
    /// The column stays where the second one has the placeholder's value
    /// already, and is set otherwise.
    KeptIfSame(Seq<char>, Seq<char>, nat, Otherwise),
}

impl Change {
    /// The column that is changed.
    pub open spec fn column(self) -> Seq<char> {
        match self {
            Change::Given(column, _) => column,
            Change::Now(column) => column,
            Change::Null(column) => column,
            Change::Word(column, _) => column,
            Change::Zero(column) => column,
            Change::True(column) => column,
            Change::NowOnce(column, _) => column,
            Change::GivenOnce(column, _) => column,
            Change::Incremented(column) => column,
            Change::Raised(column, _) => column,
            Change::After(column, _) => column,
            Change::AfterSeconds(column, _) => column,
            Change::Computed(column, _) => column,
            Change::RestartedFirst(column, _, _) => column,
            Change::RestartedLast(column, _, _) => column,
            Change::EarliestPair(column, _, _, _) => column,
            Change::KeptIfSame(column, _, _, _) => column,
        }
    }

    /// The text of what the column is set to.
    pub open spec fn value_text(self, form: Form) -> Seq<char> {
        match self {
            Change::Given(_, number) => insert::placeholder(number),
            Change::Now(_) => "now()"@,
            Change::Null(_) => "NULL"@,
            Change::Word(_, word) => "'"@ + word + "'"@,
            Change::Zero(_) => "0"@,
            Change::True(_) => "true"@,
            Change::NowOnce(column, spelling) => spelling.coalesce() + column + form.comma()
                + "now())"@,
            Change::GivenOnce(column, number) => "COALESCE("@ + column + form.comma()
                + insert::placeholder(number) + ")"@,
            Change::Incremented(column) => column + form.increment(),
            Change::Raised(column, number) => "GREATEST("@ + column + form.comma()
                + insert::placeholder(number) + ")"@,
            Change::After(_, number) => "now()+make_interval(secs=>"@ + insert::placeholder(number)
                + ")"@,
            Change::AfterSeconds(_, seconds) => "now()+interval '"@ + insert::decimal(seconds)
                + " seconds'"@,
            Change::Computed(_, computed) => computed,
            Change::RestartedFirst(column, count, number) => restarted_text(
                column,
                count,
                number,
                "LEAST("@,
                form,
            ),
            Change::RestartedLast(column, count, number) => restarted_text(
                column,
                count,
                number,
                "GREATEST("@,
                form,
            ),
            Change::EarliestPair(column, time, first, second) => "CASE"@ + form.part() + "WHEN ("@
                + insert::placeholder(first) + ","@ + insert::placeholder(second) + ")"@
                + form.less() + "("@ + time + form.comma() + column + ") THEN "@
                + insert::placeholder(second) + form.part() + "ELSE "@ + column + " END"@,
            Change::KeptIfSame(column, other, number, otherwise) => "CASE WHEN "@ + other
                + form.equals() + insert::placeholder(number) + " THEN "@ + column + " ELSE "@
                + otherwise.text() + " END"@,
        }
    }

    /// The change's text.
    pub open spec fn text(self, form: Form) -> Seq<char> {
        self.column() + form.equals() + self.value_text(form)
    }

    /// What the column holds after the change, where that is not null.
    pub open spec fn value(
        self,
        record: Record,
        parameters: Seq<Bound>,
        database: Database,
    ) -> Option<Bound> {
        match self {
            Change::Given(_, number) => Some(parameters[number - 1]),
            Change::Now(_) => Some(database.now),
            Change::Null(_) => None,
            Change::Word(_, word) => Some(Bound::Text(Some(word))),
            Change::Zero(_) => Some(Bound::Integer(Some(0))),
            Change::True(_) => Some(Bound::Boolean(Some(true))),
            Change::NowOnce(column, _) => if condition::lacks(record, column) {
                Some(database.now)
            } else {
                Some(record[column])
            },
            Change::GivenOnce(column, number) => if condition::lacks(record, column) {
                Some(parameters[number - 1])
            } else {
                Some(record[column])
            },
            Change::Incremented(column) => if condition::lacks(record, column) {
                None
            } else {
                Some(one_more(record[column]))
            },
            Change::Raised(column, number) => if condition::lacks(record, column) {
                Some(parameters[number - 1])
            } else {
                Some(condition::greatest(record[column], parameters[number - 1], database.less))
            },
            Change::After(_, number) => Some((database.later)(parameters[number - 1])),
            Change::AfterSeconds(_, seconds) => Some(
                (database.later)(Bound::BigInt(Some(seconds as i64))),
            ),
            Change::Computed(_, computed) => Some(
                (database.computes)(computed, record, parameters),
            ),
            Change::RestartedFirst(column, count, number) => if is_zero(record, count)
                || condition::lacks(record, column) {
                Some(parameters[number - 1])
            } else {
                Some(condition::least(record[column], parameters[number - 1], database.less))
            },
            Change::RestartedLast(column, count, number) => if is_zero(record, count)
                || condition::lacks(record, column) {
                Some(parameters[number - 1])
            } else {
                Some(condition::greatest(record[column], parameters[number - 1], database.less))
            },
            Change::EarliestPair(column, time, first, second) => if comes_before(
                record,
                column,
                time,
                parameters[first - 1],
                parameters[second - 1],
                database,
            ) {
                Some(parameters[second - 1])
            } else {
                stored(record, column)
            },
            Change::KeptIfSame(column, other, number, otherwise) => if condition::has(
                record,
                other,
                parameters[number - 1],
            ) && !condition::lacks(record, other) {
                stored(record, column)
            } else {
                Some(otherwise.value(parameters, database))
            },
        }
    }
}

/// A number one greater.
pub open spec fn one_more(value: Bound) -> Bound {
    match value {
        Bound::BigInt(Some(number)) => Bound::BigInt(Some((number + 1) as i64)),
        Bound::Integer(Some(number)) => Bound::Integer(Some((number + 1) as i32)),
        _ => value,
    }
}

/// The text that restarts a column where a count is zero.
pub open spec fn restarted_text(
    column: Seq<char>,
    count: Seq<char>,
    number: nat,
    function: Seq<char>,
    form: Form,
) -> Seq<char> {
    "CASE"@ + form.part() + "WHEN "@ + count + form.equals() + "0 THEN "@ + insert::placeholder(
        number,
    ) + " ELSE "@ + function + column + form.comma() + insert::placeholder(number) + ") END"@
}

/// Whether a count is zero.
pub open spec fn is_zero(record: Record, count: Seq<char>) -> bool {
    condition::has(record, count, Bound::BigInt(Some(0)))
}

/// What a column holds, where it is there.
pub open spec fn stored(record: Record, column: Seq<char>) -> Option<Bound> {
    if record.contains_key(column) {
        Some(record[column])
    } else {
        None
    }
}

/// Whether a pair of a time and an id is known to be less than a record's.
pub open spec fn comes_before(
    record: Record,
    column: Seq<char>,
    time: Seq<char>,
    given_time: Bound,
    given: Bound,
    database: Database,
) -> bool {
    &&& !condition::lacks(record, time)
    &&& !condition::is_null(given_time)
    &&& {
        ||| (database.less)(given_time, record[time])
        ||| {
            &&& given_time == record[time]
            &&& !condition::lacks(record, column)
            &&& !condition::is_null(given)
            &&& (database.less)(given, record[column])
        }
    }
}

/// The changes' texts, one after the other.
pub open spec fn all_text(changes: Seq<Change>, form: Form) -> Seq<char>
    decreases changes.len(),
{
    if changes.len() == 0 {
        Seq::empty()
    } else if changes.len() == 1 {
        changes[0].text(form)
    } else {
        all_text(changes.drop_last(), form) + form.next() + changes.last().text(form)
    }
}

/// A record after the changes, with `parameters` bound to the placeholders.
pub open spec fn changed(
    changes: Seq<Change>,
    record: Record,
    parameters: Seq<Bound>,
    database: Database,
) -> Record
    decreases changes.len(),
{
    if changes.len() == 0 {
        record
    } else {
        let before = changed(changes.drop_last(), record, parameters, database);
        match changes.last().value(record, parameters, database) {
            Some(value) => before.insert(changes.last().column(), value),
            None => before.remove(changes.last().column()),
        }
    }
}

/// The first `count` changes set what the first of them set, and one more column
/// from the record as it was.
pub broadcast proof fn first_changes(
    changes: Seq<Change>,
    count: int,
    record: Record,
    parameters: Seq<Bound>,
    database: Database,
)
    requires
        0 < count <= changes.len(),
    ensures
        #[trigger] changed(changes.take(count), record, parameters, database) == {
            let before = changed(changes.take(count - 1), record, parameters, database);
            match changes[count - 1].value(record, parameters, database) {
                Some(value) => before.insert(changes[count - 1].column(), value),
                None => before.remove(changes[count - 1].column()),
            }
        },
{
    assert(changes.take(count).drop_last() =~= changes.take(count - 1));
}

/// A column that is changed once holds what its change says.
pub proof fn changed_column(
    changes: Seq<Change>,
    record: Record,
    parameters: Seq<Bound>,
    database: Database,
    index: int,
)
    requires
        0 <= index < changes.len(),
        forall|i: int|
            index < i < changes.len() ==> (#[trigger] changes[i]).column()
                != changes[index].column(),
    ensures
        stored(changed(changes, record, parameters, database), changes[index].column())
            == changes[index].value(record, parameters, database),
    decreases changes.len(),
{
    if index < changes.len() - 1 {
        let before = changes.drop_last();
        assert forall|i: int| index < i < before.len() implies (#[trigger] before[i]).column()
            != before[index].column() by {
            assert(before[i] == changes[i]);
        }
        changed_column(before, record, parameters, database, index);
        assert(changes.last() == changes[changes.len() - 1]);
    }
}

/// A column that no change names stays as it was.
pub proof fn unchanged_column(
    changes: Seq<Change>,
    record: Record,
    parameters: Seq<Bound>,
    database: Database,
    column: Seq<char>,
)
    requires
        forall|i: int|
            0 <= i < changes.len() ==> (#[trigger] changes[i]).column() != column,
    ensures
        stored(changed(changes, record, parameters, database), column) == stored(record, column),
    decreases changes.len(),
{
    if changes.len() > 0 {
        let before = changes.drop_last();
        assert forall|i: int| 0 <= i < before.len() implies (#[trigger] before[i]).column()
            != column by {
            assert(before[i] == changes[i]);
        }
        unchanged_column(before, record, parameters, database, column);
        assert(changes.last() == changes[changes.len() - 1]);
    }
}

/// Changes, one after the other.
pub struct Changes {
    form: Form,
    text: String,
    started: bool,
    list: Ghost<Seq<Change>>,
}

impl View for Changes {
    type V = Seq<Change>;

    closed spec fn view(&self) -> Seq<Change> {
        self.list@
    }
}

impl Changes {
    /// The text is that of the changes.
    #[verifier::type_invariant]
    spec fn well_formed(self) -> bool {
        &&& self.text@ == all_text(self.list@, self.form)
        &&& self.started <==> self.list@.len() > 0
    }

    /// How the changes are laid out.
    pub closed spec fn laid_out(self) -> Form {
        self.form
    }

    /// No change.
    pub fn new(form: Form) -> (result: Changes)
        ensures
            result@ == Seq::<Change>::empty(),
            result.laid_out() == form,
    {
        let text = String::new();
        assert(text@ =~= Seq::<char>::empty());
        Changes { form, text, started: false, list: Ghost(Seq::empty()) }
    }

    /// Adds a change by the text of what its column is set to.
    fn with(self, column: &str, value: String, Ghost(change): Ghost<Change>) -> (result: Changes)
        requires
            column@ == change.column(),
            value@ == change.value_text(self.laid_out()),
        ensures
            result@ == self@.push(change),
            result.laid_out() == self.laid_out(),
    {
        proof {
            use_type_invariant(&self);
            assert(self@.push(change).drop_last() =~= self@);
        }
        let ghost list = self@.push(change);
        let form = self.form;
        let text = column.to_owned().concat(form.equals_str()).concat(value.as_str());
        let joined = if self.started {
            self.text.concat(form.next_str()).concat(text.as_str())
        } else {
            text
        };
        Changes { form, text: joined, started: true, list: Ghost(list) }
    }

    /// Sets the column to the placeholder's value.
    pub fn given(self, column: &str, number: usize) -> (result: Changes)
        ensures
            result@ == self@.push(Change::Given(column@, number as nat)),
            result.laid_out() == self.laid_out(),
    {
        let value = insert::placeholder_string(number);
        self.with(column, value, Ghost(Change::Given(column@, number as nat)))
    }

    /// Sets the column to the current time.
    pub fn now(self, column: &str) -> (result: Changes)
        ensures
            result@ == self@.push(Change::Now(column@)),
            result.laid_out() == self.laid_out(),
    {
        let value = "now()".to_owned();
        self.with(column, value, Ghost(Change::Now(column@)))
    }

    /// Sets the column to null.
    pub fn null(self, column: &str) -> (result: Changes)
        ensures
            result@ == self@.push(Change::Null(column@)),
            result.laid_out() == self.laid_out(),
    {
        let value = "NULL".to_owned();
        self.with(column, value, Ghost(Change::Null(column@)))
    }

    /// Sets the column to a word.
    pub fn word(self, column: &str, word: &str) -> (result: Changes)
        requires
            condition::is_plain(word@),
        ensures
            result@ == self@.push(Change::Word(column@, word@)),
            result.laid_out() == self.laid_out(),
    {
        let value = "'".to_owned().concat(word).concat("'");
        self.with(column, value, Ghost(Change::Word(column@, word@)))
    }

    /// Sets the column to zero.
    pub fn zero(self, column: &str) -> (result: Changes)
        ensures
            result@ == self@.push(Change::Zero(column@)),
            result.laid_out() == self.laid_out(),
    {
        let value = "0".to_owned();
        self.with(column, value, Ghost(Change::Zero(column@)))
    }

    /// Sets the column to true.
    pub fn is_true(self, column: &str) -> (result: Changes)
        ensures
            result@ == self@.push(Change::True(column@)),
            result.laid_out() == self.laid_out(),
    {
        let value = "true".to_owned();
        self.with(column, value, Ghost(Change::True(column@)))
    }

    /// Sets the column to the current time where it is null.
    pub fn now_once(self, column: &str, spelling: Spelling) -> (result: Changes)
        ensures
            result@ == self@.push(Change::NowOnce(column@, spelling)),
            result.laid_out() == self.laid_out(),
    {
        let value = spelling.coalesce_str().to_owned()
            .concat(column)
            .concat(self.form.comma_str())
            .concat("now())");
        self.with(column, value, Ghost(Change::NowOnce(column@, spelling)))
    }

    /// Sets the column to the placeholder's value where it is null.
    pub fn given_once(self, column: &str, number: usize) -> (result: Changes)
        ensures
            result@ == self@.push(Change::GivenOnce(column@, number as nat)),
            result.laid_out() == self.laid_out(),
    {
        let value = "COALESCE(".to_owned()
            .concat(column)
            .concat(self.form.comma_str())
            .concat(insert::placeholder_string(number).as_str())
            .concat(")");
        self.with(column, value, Ghost(Change::GivenOnce(column@, number as nat)))
    }

    /// Makes the column one greater.
    pub fn incremented(self, column: &str) -> (result: Changes)
        ensures
            result@ == self@.push(Change::Incremented(column@)),
            result.laid_out() == self.laid_out(),
    {
        let value = column.to_owned().concat(self.form.increment_str());
        self.with(column, value, Ghost(Change::Incremented(column@)))
    }

    /// Sets the column to the placeholder's value where that is greater.
    pub fn raised(self, column: &str, number: usize) -> (result: Changes)
        ensures
            result@ == self@.push(Change::Raised(column@, number as nat)),
            result.laid_out() == self.laid_out(),
    {
        let value = "GREATEST(".to_owned()
            .concat(column)
            .concat(self.form.comma_str())
            .concat(insert::placeholder_string(number).as_str())
            .concat(")");
        self.with(column, value, Ghost(Change::Raised(column@, number as nat)))
    }

    /// Sets the column to the time that is the placeholder's seconds from now.
    pub fn after(self, column: &str, number: usize) -> (result: Changes)
        ensures
            result@ == self@.push(Change::After(column@, number as nat)),
            result.laid_out() == self.laid_out(),
    {
        let value = "now()+make_interval(secs=>".to_owned()
            .concat(insert::placeholder_string(number).as_str())
            .concat(")");
        self.with(column, value, Ghost(Change::After(column@, number as nat)))
    }

    /// Sets the column to the time that is so many seconds from now.
    pub fn after_seconds(self, column: &str, seconds: usize) -> (result: Changes)
        ensures
            result@ == self@.push(Change::AfterSeconds(column@, seconds as nat)),
            result.laid_out() == self.laid_out(),
    {
        let value = "now()+interval '".to_owned()
            .concat(insert::decimal_string(seconds).as_str())
            .concat(" seconds'");
        self.with(column, value, Ghost(Change::AfterSeconds(column@, seconds as nat)))
    }

    /// Sets the column to what the text computes.
    pub fn computed(self, column: &str, computed: &str) -> (result: Changes)
        ensures
            result@ == self@.push(Change::Computed(column@, computed@)),
            result.laid_out() == self.laid_out(),
    {
        self.with(column, computed.to_owned(), Ghost(Change::Computed(column@, computed@)))
    }

    /// Sets the column to the placeholder's value where the count is zero, and
    /// to the lesser of both otherwise.
    pub fn restarted_first(self, column: &str, count: &str, number: usize) -> (result: Changes)
        ensures
            result@ == self@.push(Change::RestartedFirst(column@, count@, number as nat)),
            result.laid_out() == self.laid_out(),
    {
        let value = restarted(column, count, number, "LEAST(", self.form);
        self.with(column, value, Ghost(Change::RestartedFirst(column@, count@, number as nat)))
    }

    /// Sets the column to the placeholder's value where the count is zero, and
    /// to the greater of both otherwise.
    pub fn restarted_last(self, column: &str, count: &str, number: usize) -> (result: Changes)
        ensures
            result@ == self@.push(Change::RestartedLast(column@, count@, number as nat)),
            result.laid_out() == self.laid_out(),
    {
        let value = restarted(column, count, number, "GREATEST(", self.form);
        self.with(column, value, Ghost(Change::RestartedLast(column@, count@, number as nat)))
    }

    /// Sets the column to the second placeholder's value where the pair of both
    /// is less than that of the time and the column.
    pub fn earliest_pair(
        self,
        column: &str,
        time: &str,
        first: usize,
        second: usize,
    ) -> (result: Changes)
        ensures
            result@ == self@.push(
                Change::EarliestPair(column@, time@, first as nat, second as nat),
            ),
            result.laid_out() == self.laid_out(),
    {
        let given = insert::placeholder_string(second);
        let value = "CASE".to_owned()
            .concat(self.form.part_str())
            .concat("WHEN (")
            .concat(insert::placeholder_string(first).as_str())
            .concat(",")
            .concat(given.as_str())
            .concat(")")
            .concat(self.form.less_str())
            .concat("(")
            .concat(time)
            .concat(self.form.comma_str())
            .concat(column)
            .concat(") THEN ")
            .concat(given.as_str())
            .concat(self.form.part_str())
            .concat("ELSE ")
            .concat(column)
            .concat(" END");
        let ghost change = Change::EarliestPair(column@, time@, first as nat, second as nat);
        self.with(column, value, Ghost(change))
    }

    /// Sets the column to the current time, unless the other one has the
    /// placeholder's value already.
    pub fn now_if_other(self, column: &str, other: &str, number: usize) -> (result: Changes)
        ensures
            result@ == self@.push(
                Change::KeptIfSame(column@, other@, number as nat, Otherwise::Now),
            ),
            result.laid_out() == self.laid_out(),
    {
        let otherwise = "now()".to_owned();
        let value = kept_if_same(column, other, number, otherwise, self.form);
        let ghost change = Change::KeptIfSame(
            column@,
            other@,
            number as nat,
            Otherwise::Now,
        );
        self.with(column, value, Ghost(change))
    }

    /// Sets the column to the second placeholder's value, unless the other one has
    /// the first's already.
    pub fn given_if_other(
        self,
        column: &str,
        other: &str,
        number: usize,
        given: usize,
    ) -> (result: Changes)
        ensures
            result@ == self@.push(
                Change::KeptIfSame(column@, other@, number as nat, Otherwise::Given(given as nat)),
            ),
            result.laid_out() == self.laid_out(),
    {
        let otherwise = insert::placeholder_string(given);
        let value = kept_if_same(column, other, number, otherwise, self.form);
        let ghost change = Change::KeptIfSame(
            column@,
            other@,
            number as nat,
            Otherwise::Given(given as nat),
        );
        self.with(column, value, Ghost(change))
    }

    /// Sets the column to a word, unless the other one has the placeholder's value
    /// already.
    pub fn word_if_other(
        self,
        column: &str,
        other: &str,
        number: usize,
        word: &str,
    ) -> (result: Changes)
        requires
            condition::is_plain(word@),
        ensures
            result@ == self@.push(
                Change::KeptIfSame(column@, other@, number as nat, Otherwise::Word(word@)),
            ),
            result.laid_out() == self.laid_out(),
    {
        let otherwise = "'".to_owned().concat(word).concat("'");
        let value = kept_if_same(column, other, number, otherwise, self.form);
        let ghost change = Change::KeptIfSame(
            column@,
            other@,
            number as nat,
            Otherwise::Word(word@),
        );
        self.with(column, value, Ghost(change))
    }

    /// The changes' text.
    pub fn into_text(self) -> (text: String)
        ensures
            text@ == all_text(self@, self.laid_out()),
    {
        proof {
            use_type_invariant(&self);
        }
        self.text
    }
}

/// Restarts a column where a count is zero.
fn restarted(column: &str, count: &str, number: usize, function: &str, form: Form) -> (text: String)
    ensures
        text@ == restarted_text(column@, count@, number as nat, function@, form),
{
    let placeholder = insert::placeholder_string(number);
    "CASE".to_owned()
        .concat(form.part_str())
        .concat("WHEN ")
        .concat(count)
        .concat(form.equals_str())
        .concat("0 THEN ")
        .concat(placeholder.as_str())
        .concat(" ELSE ")
        .concat(function)
        .concat(column)
        .concat(form.comma_str())
        .concat(placeholder.as_str())
        .concat(") END")
}

/// Keeps a column where another one has a value already.
fn kept_if_same(
    column: &str,
    other: &str,
    number: usize,
    otherwise: String,
    form: Form,
) -> (text: String)
    ensures
        text@ == "CASE WHEN "@ + other@ + form.equals() + insert::placeholder(number as nat)
            + " THEN "@ + column@ + " ELSE "@ + otherwise@ + " END"@,
{
    "CASE WHEN ".to_owned()
        .concat(other)
        .concat(form.equals_str())
        .concat(insert::placeholder_string(number).as_str())
        .concat(" THEN ")
        .concat(column)
        .concat(" ELSE ")
        .concat(otherwise.as_str())
        .concat(" END")
}

/// What each change says, written out, on one line.
pub proof fn changes_are_written_so(
    column: Seq<char>,
    other: Seq<char>,
    word: Seq<char>,
    number: nat,
    second: nat,
)
    ensures
        ({
            let given = insert::placeholder(number);
            let form = Form::Tight;
            let kept = column + "=CASE WHEN "@ + other + "="@ + given + " THEN "@ + column
                + " ELSE "@;
            let start = column + "="@;
            let same = |otherwise: Otherwise|
                Change::KeptIfSame(column, other, number, otherwise).text(form);
            &&& Change::Given(column, number).text(form) == start + given
            &&& Change::Now(column).text(form) == start + "now()"@
            &&& Change::Null(column).text(form) == start + "NULL"@
            &&& Change::Word(column, word).text(form) == start + ("'"@ + word + "'"@)
            &&& Change::Zero(column).text(form) == start + "0"@
            &&& Change::True(column).text(form) == start + "true"@
            &&& Change::NowOnce(column, Spelling::Upper).text(form) == start + ("COALESCE("@
                + column + ","@ + "now())"@)
            &&& Change::NowOnce(column, Spelling::Lower).text(form) == start + ("coalesce("@
                + column + ","@ + "now())"@)
            &&& Change::GivenOnce(column, number).text(form) == start + ("COALESCE("@ + column
                + ","@ + given + ")"@)
            &&& Change::Incremented(column).text(form) == start + (column + "+1"@)
            &&& Change::Raised(column, number).text(form) == start + ("GREATEST("@ + column + ","@
                + given + ")"@)
            &&& Change::After(column, number).text(form) == start
                + ("now()+make_interval(secs=>"@ + given + ")"@)
            &&& Change::AfterSeconds(column, number).text(form) == start + ("now()+interval '"@
                + insert::decimal(number) + " seconds'"@)
            &&& Change::Computed(column, other).text(form) == start + other
            &&& Change::RestartedFirst(column, other, number).text(form) == start + ("CASE"@
                + " "@ + "WHEN "@ + other + "="@ + "0 THEN "@ + given + " ELSE "@ + "LEAST("@
                + column + ","@ + given + ") END"@)
            &&& Change::RestartedLast(column, other, number).text(form) == start + ("CASE"@ + " "@
                + "WHEN "@ + other + "="@ + "0 THEN "@ + given + " ELSE "@ + "GREATEST("@ + column
                + ","@ + given + ") END"@)
            &&& same(Otherwise::Now) == kept + "now()"@ + " END"@
            &&& same(Otherwise::Given(second)) == kept + insert::placeholder(second) + " END"@
            &&& same(Otherwise::Word(word)) == kept + ("'"@ + word + "'"@) + " END"@
        }),
{
    let given = insert::placeholder(number);
    let kept = column + "=CASE WHEN "@ + other + "="@ + given + " THEN "@ + column + " ELSE "@;
    assert("="@ + "CASE WHEN "@ =~= "=CASE WHEN "@) by {
        reveal_strlit("=");
        reveal_strlit("CASE WHEN ");
        reveal_strlit("=CASE WHEN ");
    }
    let tail = other + "="@ + given + " THEN "@ + column + " ELSE "@;
    assert(kept =~= column + ("="@ + "CASE WHEN "@) + tail);
    lemma_kept_text(column, other, number, Otherwise::Now);
    lemma_kept_text(column, other, number, Otherwise::Given(second));
    lemma_kept_text(column, other, number, Otherwise::Word(word));
}

/// The text that keeps a column, read piece by piece.
proof fn lemma_kept_text(
    column: Seq<char>,
    other: Seq<char>,
    number: nat,
    otherwise: Otherwise,
)
    ensures
        Change::KeptIfSame(column, other, number, otherwise).text(Form::Tight) == column + ("="@
            + "CASE WHEN "@) + (other + "="@ + insert::placeholder(number) + " THEN "@ + column
            + " ELSE "@) + otherwise.text() + " END"@,
{
    assert(Change::KeptIfSame(column, other, number, otherwise).text(Form::Tight) =~= column + (
    "="@ + "CASE WHEN "@) + (other + "="@ + insert::placeholder(number) + " THEN "@ + column
        + " ELSE "@) + otherwise.text() + " END"@);
}

/// Changes on lines of their own are written so.
pub proof fn changes_on_lines_are_written_so(
    column: Seq<char>,
    other: Seq<char>,
    number: nat,
    second: nat,
)
    ensures
        ({
            let given = insert::placeholder(number);
            let then = insert::placeholder(second);
            let form = Form::Lines;
            let start = column + " = "@;
            let part = "\n                    "@;
            &&& Change::Given(column, number).text(form) == start + given
            &&& Change::Now(column).text(form) == start + "now()"@
            &&& Change::GivenOnce(column, number).text(form) == start + ("COALESCE("@ + column
                + ", "@ + given + ")"@)
            &&& Change::Incremented(column).text(form) == start + (column + " + 1"@)
            &&& Change::RestartedFirst(column, other, number).text(form) == start + ("CASE"@ + part
                + "WHEN "@ + other + " = "@ + "0 THEN "@ + given + " ELSE "@ + "LEAST("@ + column
                + ", "@ + given + ") END"@)
            &&& Change::RestartedLast(column, other, number).text(form) == start + ("CASE"@ + part
                + "WHEN "@ + other + " = "@ + "0 THEN "@ + given + " ELSE "@ + "GREATEST("@
                + column + ", "@ + given + ") END"@)
            &&& Change::EarliestPair(column, other, number, second).text(form) == start + ("CASE"@
                + part + "WHEN ("@ + given + ","@ + then + ")"@ + " < "@ + "("@ + other + ", "@
                + column + ") THEN "@ + then + part + "ELSE "@ + column + " END"@)
        }),
{
}

/// One change is written as it is, and a further one behind the others: behind a
/// comma, and on a line of its own where they are on lines.
pub proof fn changes_are_listed_so(changes: Seq<Change>, change: Change, form: Form)
    ensures
        all_text(seq![change], form) == change.text(form),
        changes.len() > 0 ==> all_text(changes.push(change), Form::Tight) == all_text(
            changes,
            Form::Tight,
        ) + ","@ + change.text(Form::Tight),
        changes.len() > 0 ==> all_text(changes.push(change), Form::Lines) == all_text(
            changes,
            Form::Lines,
        ) + ",\n                "@ + change.text(Form::Lines),
{
    assert(changes.push(change).drop_last() =~= changes);
    assert(changes.push(change).last() == change);
}

} // verus!
