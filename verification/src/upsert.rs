//! Rows to write where one of the same key may be there already: each column
//! beside its value, and what becomes of it on a conflict.
//!
//! The text of the conflict clause comes from the row's own columns, and so does
//! what the clause is written to mean: which row it meets, and what that row
//! then holds. That the database takes the text in this sense, and that no other
//! constraint of the table refuses the row, is not proved here.

use vstd::prelude::*;

use crate::condition;
use crate::insert;
use crate::insert::{Cell, Given, Row, RowView, Style};
use crate::statement;
use crate::statement::{Bind, Bound, Fetch, Statement, StatementView};
use crate::text;

verus! {

/// What becomes of a column where a row of the same key is stored already.
pub enum Role {
    /// The column is part of the key.
    Key,
    /// The stored value stays.
    Kept,
    /// The new value takes the stored one's place.
    Replaced,
    /// The new number is added to the stored one.
    Added,
    /// One is added to the stored number.
    Counted,
    /// The column is true where the stored value or the new one is.
    Either,
    /// The lesser of the stored value and the new one stays.
    Earliest,
    /// The greater of the stored value and the new one stays.
    Latest,
    /// The new value takes the place of a null, and of a stored one where the
    /// time in the column with this index is no earlier than the stored time.
    Newest(int),
}

/// Whether either of two truths holds. A null is neither.
pub open spec fn either_of(left: Bound, right: Bound) -> Bound {
    match (left, right) {
        (Bound::Boolean(Some(one)), Bound::Boolean(Some(other))) => Bound::Boolean(
            Some(one || other),
        ),
        (Bound::Boolean(Some(true)), _) => Bound::Boolean(Some(true)),
        (_, Bound::Boolean(Some(true))) => Bound::Boolean(Some(true)),
        _ => Bound::Boolean(None),
    }
}

/// Whether a time is known to be no earlier than another.
pub open spec fn is_no_earlier(
    given: Bound,
    stored: Bound,
    less: spec_fn(Bound, Bound) -> bool,
) -> bool {
    !condition::is_null(given) && !condition::is_null(stored) && !less(given, stored)
}

/// What the column at `i` holds after a conflict, where values that are not null
/// are ordered by `less`.
pub open spec fn merged(
    role: Role,
    stored: Seq<Bound>,
    given: Seq<Bound>,
    i: int,
    less: spec_fn(Bound, Bound) -> bool,
) -> Bound {
    match role {
        Role::Key => stored[i],
        Role::Kept => stored[i],
        Role::Replaced => given[i],
        Role::Added => condition::sum(stored[i], given[i]),
        Role::Counted => condition::sum(stored[i], Bound::BigInt(Some(1))),
        Role::Either => either_of(stored[i], given[i]),
        Role::Earliest => condition::least(stored[i], given[i], less),
        Role::Latest => condition::greatest(stored[i], given[i], less),
        Role::Newest(time) => if condition::is_null(stored[i]) || is_no_earlier(
            given[time],
            stored[time],
            less,
        ) {
            given[i]
        } else {
            stored[i]
        },
    }
}

/// The rows of a table by their keys. A row holds its values in the order of
/// the columns that are written.
pub type Table = Map<Seq<Bound>, Seq<Bound>>;

/// How the key of a conflict clause is laid out.
#[derive(Clone, Copy, Debug, PartialEq, Eq, Structural)]
pub enum Target {
    /// `ON CONFLICT(a,b)`
    Tight,
    /// `ON CONFLICT (a,b)`
    Open,
    /// `ON CONFLICT (a, b)`, and `c=EXCLUDED.c, d=EXCLUDED.d`
    Spaced,
    /// `ON CONFLICT (a, b)`, and `c = EXCLUDED.c`
    Wide,
    /// `ON CONFLICT (a, b)`, on a line of its own.
    Lines,
    /// `ON CONFLICT (a, b)`, with the key, what is done and each column that is
    /// set on lines of their own.
    Block,
}

/// What precedes a column of a key that is laid out over lines.
#[derive(Clone, Copy, Debug, PartialEq, Eq, Structural)]
pub enum Gap {
    Nothing,
    Space,
    Line,
}

impl Gap {
    /// The gap's text.
    pub open spec fn text(self) -> Seq<char> {
        match self {
            Gap::Nothing => ""@,
            Gap::Space => " "@,
            Gap::Line => "\n                         "@,
        }
    }

    /// The gap's text.
    fn as_str(self) -> (text: &'static str)
        ensures
            text@ == self.text(),
    {
        match self {
            Gap::Nothing => "",
            Gap::Space => " ",
            Gap::Line => "\n                         ",
        }
    }
}

impl Target {
    /// What precedes the key.
    pub open spec fn opening(self) -> Seq<char> {
        match self {
            Target::Tight => " ON CONFLICT("@,
            Target::Open | Target::Spaced | Target::Wide => " ON CONFLICT ("@,
            Target::Lines | Target::Block => "\n            ON CONFLICT ("@,
        }
    }

    /// What stands between two columns of the key.
    pub open spec fn comma(self) -> Seq<char> {
        match self {
            Target::Tight | Target::Open | Target::Block => ","@,
            Target::Spaced | Target::Wide | Target::Lines => ", "@,
        }
    }

    /// What stands between a column and what it is set to.
    pub open spec fn equals(self) -> Seq<char> {
        match self {
            Target::Wide => " = "@,
            _ => "="@,
        }
    }

    /// What stands between two columns that are set.
    pub open spec fn next(self) -> Seq<char> {
        match self {
            Target::Spaced => ", "@,
            _ => ","@,
        }
    }

    /// What leads from the key to what is set.
    pub open spec fn update(self) -> Seq<char> {
        match self {
            Target::Block => ")\n            DO UPDATE SET"@,
            _ => ") DO UPDATE SET "@,
        }
    }

    /// What leads from the key to leaving the stored row.
    pub open spec fn nothing(self) -> Seq<char> {
        match self {
            Target::Block => ")\n            DO NOTHING"@,
            _ => ") DO NOTHING"@,
        }
    }

    /// What stands between a column and what it is set to.
    fn equals_str(self) -> (text: &'static str)
        ensures
            text@ == self.equals(),
    {
        match self {
            Target::Wide => " = ",
            _ => "=",
        }
    }

    /// What stands between two columns that are set.
    fn next_str(self) -> (text: &'static str)
        ensures
            text@ == self.next(),
    {
        match self {
            Target::Spaced => ", ",
            _ => ",",
        }
    }

    /// What leads from the key to what is set.
    fn update_str(self) -> (text: &'static str)
        ensures
            text@ == self.update(),
    {
        match self {
            Target::Block => ")\n            DO UPDATE SET",
            _ => ") DO UPDATE SET ",
        }
    }

    /// What leads from the key to leaving the stored row.
    fn nothing_str(self) -> (text: &'static str)
        ensures
            text@ == self.nothing(),
    {
        match self {
            Target::Block => ")\n            DO NOTHING",
            _ => ") DO NOTHING",
        }
    }

    /// What precedes the key.
    fn opening_str(self) -> (text: &'static str)
        ensures
            text@ == self.opening(),
    {
        match self {
            Target::Tight => " ON CONFLICT(",
            Target::Open | Target::Spaced | Target::Wide => " ON CONFLICT (",
            Target::Lines | Target::Block => "\n            ON CONFLICT (",
        }
    }

    /// What stands between two columns of the key.
    fn comma_str(self) -> (text: &'static str)
        ensures
            text@ == self.comma(),
    {
        match self {
            Target::Tight | Target::Open | Target::Block => ",",
            Target::Spaced | Target::Wide | Target::Lines => ", ",
        }
    }
}

/// The texts one after the other, with `comma` between them.
pub open spec fn listed(texts: Seq<Seq<char>>, comma: Seq<char>) -> Seq<char>
    decreases texts.len(),
{
    if texts.len() == 0 {
        Seq::empty()
    } else if texts.len() == 1 {
        texts[0]
    } else {
        listed(texts.drop_last(), comma) + comma + texts.last()
    }
}

/// A conflict clause, as contracts speak of it: the columns of its key, and what
/// it sets, in the order of three lists, where the stored row passes the guards.
#[verifier::ext_equal]
pub struct ClauseView {
    pub target: Target,
    pub table: Seq<char>,
    pub key: Seq<Seq<char>>,
    pub early: Seq<Seq<char>>,
    pub assignments: Seq<Seq<char>>,
    pub late: Seq<Seq<char>>,
    pub guards: Seq<Seq<char>>,
}

impl ClauseView {
    /// The clause up to the end of its key.
    pub open spec fn key_text(self) -> Seq<char> {
        self.target.opening() + listed(self.key, self.target.comma())
    }

    /// The clause that sets what it says.
    pub open spec fn update_text(self) -> Seq<char> {
        self.key_text() + self.target.update() + listed(
            self.early + self.assignments + self.late,
            self.target.next(),
        ) + self.guards_text()
    }

    /// The guards, where there are any.
    pub open spec fn guards_text(self) -> Seq<char> {
        if self.guards.len() == 0 {
            Seq::empty()
        } else {
            " WHERE "@ + listed(self.guards, " AND "@)
        }
    }

    /// The clause that leaves the stored row as it is.
    pub open spec fn nothing_text(self) -> Seq<char> {
        self.key_text() + self.target.nothing()
    }
}

/// Sets a column to the new value.
pub open spec fn replacement(target: Target, column: Seq<char>) -> Seq<char> {
    column + target.equals() + "EXCLUDED."@ + column
}

/// Requires that a column has the new value already.
pub open spec fn guard(table: Seq<char>, column: Seq<char>) -> Seq<char> {
    table + "."@ + column + "=EXCLUDED."@ + column
}

/// Sets a column to the new value, on a line of its own.
pub open spec fn replacement_on_line(column: Seq<char>) -> Seq<char> {
    "\n                "@ + column + " = EXCLUDED."@ + column
}

/// Sets a column to the greater of it and the new value, on lines of their own.
pub open spec fn raising_on_lines(table: Seq<char>, column: Seq<char>) -> Seq<char> {
    "\n                "@ + column + " = GREATEST("@ + table + "."@ + column
        + ",\n                                        EXCLUDED."@ + column + ")"@
}

/// Adds the new value to a column.
pub open spec fn addition(table: Seq<char>, column: Seq<char>) -> Seq<char> {
    column + "="@ + table + "."@ + column + "+EXCLUDED."@ + column
}

/// Adds one to a column.
pub open spec fn increment(table: Seq<char>, column: Seq<char>) -> Seq<char> {
    column + "="@ + table + "."@ + column + "+1"@
}

/// Sets a column to whether it or the new value is true.
pub open spec fn disjunction(table: Seq<char>, column: Seq<char>) -> Seq<char> {
    column + "="@ + table + "."@ + column + " OR EXCLUDED."@ + column
}

/// Sets a column to the lesser of it and the new value.
pub open spec fn lowering(table: Seq<char>, column: Seq<char>) -> Seq<char> {
    column + "=LEAST("@ + table + "."@ + column + ",EXCLUDED."@ + column + ")"@
}

/// Sets a column to the greater of it and the new value.
pub open spec fn raising(table: Seq<char>, column: Seq<char>) -> Seq<char> {
    column + "=GREATEST("@ + table + "."@ + column + ",EXCLUDED."@ + column + ")"@
}

/// Sets a column to the new value where it is null, or where the new row's time
/// is no earlier.
pub open spec fn renewal(table: Seq<char>, column: Seq<char>, time: Seq<char>) -> Seq<char> {
    column + "=CASE WHEN "@ + table + "."@ + column + " IS NULL OR EXCLUDED."@ + time + ">="@
        + table + "."@ + time + " THEN EXCLUDED."@ + column + " ELSE "@ + table + "."@ + column
        + " END"@
}

/// A row to write or to merge, as contracts speak of it.
#[verifier::ext_equal]
pub struct UpsertView {
    pub row: RowView,
    pub clause: ClauseView,
    /// What each column is given.
    pub values: Seq<Bound>,
    /// What becomes of each column.
    pub roles: Seq<Role>,
    /// The values of the key.
    pub key: Seq<Bound>,
    /// The columns in which a stored row has to be the same.
    pub guards: Seq<int>,
}

/// A clause without columns.
pub open spec fn clause(target: Target, table: Seq<char>) -> ClauseView {
    ClauseView {
        target,
        table,
        key: Seq::empty(),
        early: Seq::empty(),
        assignments: Seq::empty(),
        late: Seq::empty(),
        guards: Seq::empty(),
    }
}

/// A row of `table` without columns.
pub open spec fn upsert(style: Style, target: Target, table: Seq<char>) -> UpsertView {
    UpsertView {
        row: insert::row(style, table),
        clause: clause(target, table),
        values: Seq::empty(),
        roles: Seq::empty(),
        key: Seq::empty(),
        guards: Seq::empty(),
    }
}

/// What a column that is written so holds.
pub open spec fn value_given(given: Given, parameters: Seq<Bound>) -> Bound {
    match given {
        Given::Value(_, value) => value,
        Given::Again(number) => parameters[number - 1],
        _ => Bound::BigInt(Some(1)),
    }
}

/// A row that is to be merged, with no column in the key and none that is set.
pub open spec fn of(row: RowView, target: Target) -> UpsertView {
    UpsertView {
        row,
        clause: clause(target, row.table),
        values: row.cells.map_values(|cell: Cell| value_given(cell.given, row.parameters)),
        roles: row.cells.map_values(|cell: Cell| Role::Kept),
        key: Seq::empty(),
        guards: Seq::empty(),
    }
}

impl UpsertView {
    /// The row with the column at `index` in the key.
    pub open spec fn keyed(self, index: int, gap: Gap) -> UpsertView {
        let column = gap.text() + self.row.cells[index].column;
        UpsertView {
            clause: ClauseView { key: self.clause.key.push(column), ..self.clause },
            roles: self.roles.update(index, Role::Key),
            key: self.key.push(self.values[index]),
            ..self
        }
    }

    /// The row with the column at `index` in place of a stored value.
    pub open spec fn replacing(self, index: int) -> UpsertView {
        let assignment = replacement_on_line(self.row.cells[index].column);
        UpsertView {
            clause: ClauseView {
                assignments: self.clause.assignments.push(assignment),
                ..self.clause
            },
            roles: self.roles.update(index, Role::Replaced),
            ..self
        }
    }

    /// The row with the column at `index`, or a stored value that is greater.
    pub open spec fn at_least(self, index: int) -> UpsertView {
        let assignment = raising_on_lines(self.clause.table, self.row.cells[index].column);
        UpsertView {
            clause: ClauseView {
                assignments: self.clause.assignments.push(assignment),
                ..self.clause
            },
            roles: self.roles.update(index, Role::Latest),
            ..self
        }
    }

    /// The row with `value` in `column`, which is part of the key.
    pub open spec fn key(self, column: Seq<char>, value: Bound) -> UpsertView {
        UpsertView {
            row: self.row.set(column, value),
            clause: ClauseView { key: self.clause.key.push(column), ..self.clause },
            values: self.values.push(value),
            roles: self.roles.push(Role::Key),
            key: self.key.push(value),
            ..self
        }
    }

    /// The row with `value` in `column`, where a stored value stays.
    pub open spec fn kept(self, column: Seq<char>, value: Bound) -> UpsertView {
        UpsertView {
            row: self.row.set(column, value),
            values: self.values.push(value),
            roles: self.roles.push(Role::Kept),
            ..self
        }
    }

    /// The row with the value of the placeholder `number` in `column`, where a
    /// stored value stays.
    pub open spec fn kept_again(self, column: Seq<char>, number: nat) -> UpsertView {
        UpsertView {
            row: self.row.again(column, number),
            values: self.values.push(self.row.parameters[number - 1]),
            roles: self.roles.push(Role::Kept),
            ..self
        }
    }

    /// The row with one in `column`, where a stored value stays.
    pub open spec fn kept_one(self, column: Seq<char>) -> UpsertView {
        UpsertView {
            row: self.row.computed(column, "1"@),
            values: self.values.push(Bound::BigInt(Some(1))),
            roles: self.roles.push(Role::Kept),
            ..self
        }
    }

    /// The row with `value` in `column`, in place of a stored value.
    pub open spec fn replaced(self, column: Seq<char>, value: Bound) -> UpsertView {
        let assignment = replacement(self.clause.target, column);
        UpsertView {
            row: self.row.set(column, value),
            clause: ClauseView {
                assignments: self.clause.assignments.push(assignment),
                ..self.clause
            },
            values: self.values.push(value),
            roles: self.roles.push(Role::Replaced),
            ..self
        }
    }

    /// The row with `value` in `column`, in place of a stored value, which is set
    /// last.
    pub open spec fn replaced_late(self, column: Seq<char>, value: Bound) -> UpsertView {
        let assignment = replacement(self.clause.target, column);
        UpsertView {
            row: self.row.set(column, value),
            clause: ClauseView {
                late: self.clause.late.push(assignment),
                ..self.clause
            },
            values: self.values.push(value),
            roles: self.roles.push(Role::Replaced),
            ..self
        }
    }

    /// The row with `value` in `column`, added to a stored value.
    pub open spec fn added(self, column: Seq<char>, value: Bound) -> UpsertView {
        let assignment = addition(self.clause.table, column);
        UpsertView {
            row: self.row.set(column, value),
            clause: ClauseView {
                assignments: self.clause.assignments.push(assignment),
                ..self.clause
            },
            values: self.values.push(value),
            roles: self.roles.push(Role::Added),
            ..self
        }
    }

    /// The row with one in `column`, or one more than a stored value.
    pub open spec fn counted(self, column: Seq<char>) -> UpsertView {
        let assignment = increment(self.clause.table, column);
        UpsertView {
            row: self.row.computed(column, "1"@),
            clause: ClauseView {
                assignments: self.clause.assignments.push(assignment),
                ..self.clause
            },
            values: self.values.push(Bound::BigInt(Some(1))),
            roles: self.roles.push(Role::Counted),
            ..self
        }
    }

    /// The row with `value` in `column`, or true where the stored value is.
    pub open spec fn either(self, column: Seq<char>, value: Bound) -> UpsertView {
        let assignment = disjunction(self.clause.table, column);
        UpsertView {
            row: self.row.set(column, value),
            clause: ClauseView {
                assignments: self.clause.assignments.push(assignment),
                ..self.clause
            },
            values: self.values.push(value),
            roles: self.roles.push(Role::Either),
            ..self
        }
    }

    /// The row with `value` in `column`, or a stored value that is less.
    pub open spec fn earliest(self, column: Seq<char>, value: Bound) -> UpsertView {
        let assignment = lowering(self.clause.table, column);
        UpsertView {
            row: self.row.set(column, value),
            clause: ClauseView {
                assignments: self.clause.assignments.push(assignment),
                ..self.clause
            },
            values: self.values.push(value),
            roles: self.roles.push(Role::Earliest),
            ..self
        }
    }

    /// The row with the value of the placeholder `number` in `column`, or a
    /// stored value that is greater.
    pub open spec fn latest_again(self, column: Seq<char>, number: nat) -> UpsertView {
        let assignment = raising(self.clause.table, column);
        UpsertView {
            row: self.row.again(column, number),
            clause: ClauseView {
                assignments: self.clause.assignments.push(assignment),
                ..self.clause
            },
            values: self.values.push(self.row.parameters[number - 1]),
            roles: self.roles.push(Role::Latest),
            ..self
        }
    }

    /// The row with `value` in `column`, which is set first: in place of a null,
    /// and of a stored value where the new time in the column at `time` is no
    /// earlier.
    pub open spec fn newest_early(
        self,
        column: Seq<char>,
        value: Bound,
        time: int,
    ) -> UpsertView {
        let assignment = renewal(self.clause.table, column, self.row.cells[time].column);
        UpsertView {
            row: self.row.set(column, value),
            clause: ClauseView { early: self.clause.early.push(assignment), ..self.clause },
            values: self.values.push(value),
            roles: self.roles.push(Role::Newest(time)),
            ..self
        }
    }

    /// The row, which is merged only where the stored one has the same in the
    /// column at `index`.
    pub open spec fn where_same(self, index: int) -> UpsertView {
        let guard = guard(self.clause.table, self.row.cells[index].column);
        UpsertView {
            clause: ClauseView { guards: self.clause.guards.push(guard), ..self.clause },
            guards: self.guards.push(index),
            ..self
        }
    }

    /// Whether a stored row passes the guards.
    pub open spec fn passes(self, stored: Seq<Bound>) -> bool {
        forall|i: int|
            0 <= i < self.guards.len() ==> {
                &&& !condition::is_null(stored[#[trigger] self.guards[i]])
                &&& stored[self.guards[i]] == self.values[self.guards[i]]
            }
    }

    /// The statement that writes the row, or merges it into the stored one and
    /// then does what `tail` says.
    pub open spec fn finish(self, tail: Seq<char>, fetch: Fetch) -> StatementView {
        self.row.finish(self.clause.update_text() + tail, fetch)
    }

    /// The statement that writes the row, unless one of its key is stored, and
    /// then does what `tail` says.
    pub open spec fn finish_once(self, tail: Seq<char>, fetch: Fetch) -> StatementView {
        self.row.finish(self.clause.nothing_text() + tail, fetch)
    }

    /// What the row holds once it is merged into a stored one.
    pub open spec fn over(
        self,
        stored: Seq<Bound>,
        less: spec_fn(Bound, Bound) -> bool,
    ) -> Seq<Bound> {
        Seq::new(
            self.roles.len(),
            |i: int| merged(self.roles[i], stored, self.values, i, less),
        )
    }

    /// The table once the row is written or merged: one row has its key, and
    /// the others are as they were.
    pub open spec fn applied(self, table: Table, less: spec_fn(Bound, Bound) -> bool) -> Table {
        if table.contains_key(self.key) && !self.passes(table[self.key]) {
            table
        } else if table.contains_key(self.key) {
            table.insert(self.key, self.over(table[self.key], less))
        } else {
            table.insert(self.key, self.values)
        }
    }

    /// The table once the row is written, unless one of its key is stored.
    pub open spec fn applied_once(self, table: Table) -> Table {
        if table.contains_key(self.key) {
            table
        } else {
            table.insert(self.key, self.values)
        }
    }
}

/// Whether a column that is written so is given `value`.
pub open spec fn is_given(given: Given, value: Bound, parameters: Seq<Bound>) -> bool {
    match given {
        Given::Value(number, bound) => {
            &&& insert::is_bound(parameters, number, bound)
            &&& value == bound
        },
        Given::Again(number) => insert::is_bound(parameters, number, value),
        Given::Expression(expression) => {
            &&& expression == "1"@
            &&& value == Bound::BigInt(Some(1))
        },
        _ => false,
    }
}

/// Whether the rows that are spoken of hold what is written: the value of each
/// column is the one that the insert gives it, and each column has one role.
pub open spec fn holds_what_is_written(upsert: UpsertView) -> bool {
    &&& upsert.values.len() == upsert.row.cells.len()
    &&& upsert.roles.len() == upsert.row.cells.len()
    &&& forall|i: int|
        0 <= i < upsert.row.cells.len() ==> is_given(
            (#[trigger] upsert.row.cells[i]).given,
            upsert.values[i],
            upsert.row.parameters,
        )
}

/// A row without columns holds what is written.
pub proof fn empty_row_holds_what_is_written(style: Style, target: Target, table: Seq<char>)
    ensures
        holds_what_is_written(upsert(style, target, table)),
{
}

/// A row that is to be merged holds what is written, where its columns are given
/// values or the number one, and so it does with a column in the key or set.
pub proof fn merged_row_holds_what_is_written(
    row: RowView,
    target: Target,
    upsert: UpsertView,
    index: int,
    gap: Gap,
)
    requires
        forall|i: int|
            0 <= i < row.cells.len() ==> is_given(
                (#[trigger] row.cells[i]).given,
                value_given(row.cells[i].given, row.parameters),
                row.parameters,
            ),
        holds_what_is_written(upsert),
        0 <= index < upsert.row.cells.len(),
    ensures
        holds_what_is_written(of(row, target)),
        holds_what_is_written(upsert.keyed(index, gap)),
        holds_what_is_written(upsert.replacing(index)),
        holds_what_is_written(upsert.at_least(index)),
        holds_what_is_written(upsert.where_same(index)),
{
}

/// Every column that is added leaves a row that holds what is written.
pub proof fn columns_hold_what_is_written(
    upsert: UpsertView,
    column: Seq<char>,
    value: Bound,
    number: nat,
    time: int,
)
    requires
        holds_what_is_written(upsert),
        1 <= number <= upsert.row.parameters.len(),
    ensures
        holds_what_is_written(upsert.key(column, value)),
        holds_what_is_written(upsert.kept(column, value)),
        holds_what_is_written(upsert.kept_again(column, number)),
        holds_what_is_written(upsert.kept_one(column)),
        holds_what_is_written(upsert.replaced(column, value)),
        holds_what_is_written(upsert.replaced_late(column, value)),
        holds_what_is_written(upsert.added(column, value)),
        holds_what_is_written(upsert.counted(column)),
        holds_what_is_written(upsert.either(column, value)),
        holds_what_is_written(upsert.earliest(column, value)),
        holds_what_is_written(upsert.latest_again(column, number)),
        holds_what_is_written(upsert.newest_early(column, value, time)),
{
    lemma_column_holds(upsert, upsert.key(column, value));
    lemma_column_holds(upsert, upsert.kept(column, value));
    lemma_column_holds(upsert, upsert.kept_again(column, number));
    lemma_column_holds(upsert, upsert.kept_one(column));
    lemma_column_holds(upsert, upsert.replaced(column, value));
    lemma_column_holds(upsert, upsert.replaced_late(column, value));
    lemma_column_holds(upsert, upsert.added(column, value));
    lemma_column_holds(upsert, upsert.counted(column));
    lemma_column_holds(upsert, upsert.either(column, value));
    lemma_column_holds(upsert, upsert.earliest(column, value));
    lemma_column_holds(upsert, upsert.latest_again(column, number));
    lemma_column_holds(upsert, upsert.newest_early(column, value, time));
}

/// A column that is given its value leaves a row that holds what is written.
proof fn lemma_column_holds(before: UpsertView, after: UpsertView)
    requires
        holds_what_is_written(before),
        after.values.len() == before.values.len() + 1,
        after.row.cells == before.row.cells.push(after.row.cells.last()),
        after.values == before.values.push(after.values.last()),
        after.roles.len() == before.roles.len() + 1,
        before.row.parameters.len() <= after.row.parameters.len(),
        forall|j: int|
            0 <= j < before.row.parameters.len() ==> #[trigger] after.row.parameters[j]
                == before.row.parameters[j],
        is_given(after.row.cells.last().given, after.values.last(), after.row.parameters),
    ensures
        holds_what_is_written(after),
{
    assert forall|i: int| 0 <= i < after.row.cells.len() implies is_given(
        (#[trigger] after.row.cells[i]).given,
        after.values[i],
        after.row.parameters,
    ) by {
        if i < before.row.cells.len() {
            assert(after.row.cells[i] == before.row.cells[i]);
        }
    }
}

/// A row that is written or merged leaves every row with another key as it was.
pub proof fn other_rows_are_left(
    upsert: UpsertView,
    table: Table,
    less: spec_fn(Bound, Bound) -> bool,
)
    ensures
        upsert.applied(table, less).contains_key(upsert.key),
        upsert.applied(table, less).remove(upsert.key) == table.remove(upsert.key),
        upsert.applied_once(table).contains_key(upsert.key),
        upsert.applied_once(table).remove(upsert.key) == table.remove(upsert.key),
{
    assert(upsert.applied(table, less).remove(upsert.key) =~= table.remove(upsert.key));
    assert(upsert.applied_once(table).remove(upsert.key) =~= table.remove(upsert.key));
}

/// A row that only replaces values can be merged again and changes nothing.
pub proof fn replacing_again_changes_nothing(
    upsert: UpsertView,
    table: Table,
    less: spec_fn(Bound, Bound) -> bool,
)
    requires
        upsert.values.len() == upsert.roles.len(),
        upsert.guards.len() == 0,
        forall|i: int|
            0 <= i < upsert.roles.len() ==> #[trigger] upsert.roles[i] == Role::Key
                || upsert.roles[i] == Role::Kept || upsert.roles[i] == Role::Replaced,
    ensures
        upsert.applied(upsert.applied(table, less), less) == upsert.applied(table, less),
{
    let once = upsert.applied(table, less);
    let twice = upsert.applied(once, less);
    assert(twice[upsert.key] =~= once[upsert.key]);
    assert(twice =~= once);
}

/// What is written once is written by the first: a second row of the same key
/// changes nothing, whatever it holds.
pub proof fn the_first_row_stays(first: UpsertView, second: UpsertView, table: Table)
    requires
        first.key == second.key,
    ensures
        second.applied_once(first.applied_once(table)) == first.applied_once(table),
{
}

/// The texts one after the other, with `comma` between them.
fn listing(texts: &Vec<String>, comma: &str) -> (text: String)
    ensures
        text@ == listed(statement::strings_chars(texts@), comma@),
{
    let ghost all = statement::strings_chars(texts@);
    let mut text = String::new();
    assert(text@ =~= Seq::<char>::empty());
    let mut i: usize = 0;
    while i < texts.len()
        invariant
            i <= texts.len(),
            all == statement::strings_chars(texts@),
            text@ == listed(all.take(i as int), comma@),
        decreases texts.len() - i,
    {
        proof {
            assert(all.take(i + 1).drop_last() =~= all.take(i as int));
            assert(all.take(i + 1).last() == texts@[i as int]@);
        }
        text = if i == 0 {
            texts[i].as_str().to_owned()
        } else {
            text.concat(comma).concat(texts[i].as_str())
        };
        i = i + 1;
    }
    assert(all.take(i as int) =~= all);
    text
}

/// Adds a text to a list of them.
fn pushed(texts: Vec<String>, text: String) -> (result: Vec<String>)
    ensures
        statement::strings_chars(result@) == statement::strings_chars(texts@).push(text@),
{
    let ghost before = texts@;
    let mut result = texts;
    result.push(text);
    assert(statement::strings_chars(result@) =~= statement::strings_chars(before).push(text@));
    result
}

/// A conflict clause.
struct Clause {
    target: Target,
    table: String,
    key: Vec<String>,
    early: Vec<String>,
    assignments: Vec<String>,
    late: Vec<String>,
    guards: Vec<String>,
}

impl View for Clause {
    type V = ClauseView;

    closed spec fn view(&self) -> ClauseView {
        ClauseView {
            target: self.target,
            table: self.table@,
            key: statement::strings_chars(self.key@),
            early: statement::strings_chars(self.early@),
            assignments: statement::strings_chars(self.assignments@),
            late: statement::strings_chars(self.late@),
            guards: statement::strings_chars(self.guards@),
        }
    }
}

impl Clause {
    /// A clause without columns.
    fn new(target: Target, table: &str) -> (result: Clause)
        ensures
            result@ == clause(target, table@),
    {
        let result = Clause {
            target,
            table: table.to_owned(),
            key: Vec::new(),
            early: Vec::new(),
            assignments: Vec::new(),
            late: Vec::new(),
            guards: Vec::new(),
        };
        assert(result@ =~= clause(target, table@));
        result
    }

    /// Adds a column to the key.
    fn with_key(self, column: &str) -> (result: Clause)
        ensures
            result@ == (ClauseView { key: self@.key.push(column@), ..self@ }),
    {
        Clause { key: pushed(self.key, column.to_owned()), ..self }
    }

    /// Adds what is set.
    fn with(self, assignment: String) -> (result: Clause)
        ensures
            result@ == (ClauseView {
                assignments: self@.assignments.push(assignment@),
                ..self@
            }),
    {
        Clause { assignments: pushed(self.assignments, assignment), ..self }
    }

    /// Adds what is set before the rest.
    fn with_early(self, assignment: String) -> (result: Clause)
        ensures
            result@ == (ClauseView { early: self@.early.push(assignment@), ..self@ }),
    {
        Clause { early: pushed(self.early, assignment), ..self }
    }

    /// Adds what is set after the rest.
    fn with_late(self, assignment: String) -> (result: Clause)
        ensures
            result@ == (ClauseView { late: self@.late.push(assignment@), ..self@ }),
    {
        Clause { late: pushed(self.late, assignment), ..self }
    }

    /// Adds a guard.
    fn with_guard(self, guard: String) -> (result: Clause)
        ensures
            result@ == (ClauseView { guards: self@.guards.push(guard@), ..self@ }),
    {
        Clause { guards: pushed(self.guards, guard), ..self }
    }

    /// The clause up to the end of its key.
    fn key_text(&self) -> (text: String)
        ensures
            text@ == self@.key_text(),
    {
        text::join(
            self.target.opening_str(),
            listing(&self.key, self.target.comma_str()).as_str(),
        )
    }

    /// The clause that sets what it says.
    fn into_update(self) -> (text: String)
        ensures
            text@ == self@.update_text(),
    {
        let key = self.key_text();
        let ghost view = self@;
        let mut all = self.early;
        let mut assignments = self.assignments;
        let mut late = self.late;
        all.append(&mut assignments);
        all.append(&mut late);
        assert(statement::strings_chars(all@) =~= view.early + view.assignments + view.late);
        let update = key.concat(self.target.update_str()).concat(
            listing(&all, self.target.next_str()).as_str(),
        );
        if self.guards.len() == 0 {
            assert(view.guards_text() =~= Seq::<char>::empty());
            assert(update@ =~= view.update_text());
            update
        } else {
            let text = update.concat(" WHERE ").concat(listing(&self.guards, " AND ").as_str());
            assert(text@ =~= view.update_text());
            text
        }
    }
}

/// A row to write or to merge.
pub struct Upsert {
    row: Row,
    clause: Clause,
    view: Ghost<UpsertView>,
}

impl View for Upsert {
    type V = UpsertView;

    closed spec fn view(&self) -> UpsertView {
        self.view@
    }
}

/// `table.column`
fn qualified(table: &str, column: &str) -> (text: String)
    ensures
        text@ == table@ + "."@ + column@,
{
    text::join(table, ".").concat(column)
}

impl Upsert {
    /// The row and the clause are those of the view.
    #[verifier::type_invariant]
    spec fn well_formed(self) -> bool {
        &&& self.row@ == self.view@.row
        &&& self.clause@ == self.view@.clause
    }

    /// A row of `table` without columns.
    pub fn new(style: Style, target: Target, table: &str) -> (result: Upsert)
        ensures
            result@ == upsert(style, target, table@),
    {
        Upsert {
            row: Row::new(style, table),
            clause: Clause::new(target, table),
            view: Ghost(upsert(style, target, table@)),
        }
    }

    /// A row that is to be merged, with no column in the key and none that is
    /// set.
    pub fn of(row: Row, target: Target, table: &str) -> (result: Upsert)
        requires
            table@ == row@.table,
        ensures
            result@ == of(row@, target),
    {
        let ghost view = of(row@, target);
        Upsert { row, clause: Clause::new(target, table), view: Ghost(view) }
    }

    /// Puts the column at `index` in the key.
    pub fn keyed(self, index: usize, gap: Gap, column: &str) -> (result: Upsert)
        requires
            index < self@.row.cells.len(),
            column@ == self@.row.cells[index as int].column,
        ensures
            result@ == self@.keyed(index as int, gap),
    {
        proof {
            use_type_invariant(&self);
        }
        let ghost view = self@.keyed(index as int, gap);
        let written = text::join(gap.as_str(), column);
        Upsert {
            row: self.row,
            clause: self.clause.with_key(written.as_str()),
            view: Ghost(view),
        }
    }

    /// Puts the column at `index` in place of a stored value.
    pub fn replacing(self, index: usize, column: &str) -> (result: Upsert)
        requires
            index < self@.row.cells.len(),
            column@ == self@.row.cells[index as int].column,
        ensures
            result@ == self@.replacing(index as int),
    {
        proof {
            use_type_invariant(&self);
        }
        let ghost view = self@.replacing(index as int);
        let assignment = "\n                ".to_owned()
            .concat(column)
            .concat(" = EXCLUDED.")
            .concat(column);
        Upsert { row: self.row, clause: self.clause.with(assignment), view: Ghost(view) }
    }

    /// Puts the column at `index` in place of a stored value that is less.
    pub fn at_least(self, index: usize, column: &str) -> (result: Upsert)
        requires
            index < self@.row.cells.len(),
            column@ == self@.row.cells[index as int].column,
        ensures
            result@ == self@.at_least(index as int),
    {
        proof {
            use_type_invariant(&self);
        }
        let ghost view = self@.at_least(index as int);
        let assignment = "\n                ".to_owned()
            .concat(column)
            .concat(" = GREATEST(")
            .concat(qualified(self.clause.table.as_str(), column).as_str())
            .concat(",\n                                        EXCLUDED.")
            .concat(column)
            .concat(")");
        assert(assignment@ =~= raising_on_lines(view.clause.table, column@));
        Upsert { row: self.row, clause: self.clause.with(assignment), view: Ghost(view) }
    }

    /// Writes `value` to `column`, which is part of the key.
    pub fn key<T: Bind>(self, column: &str, value: T) -> (result: Upsert)
        ensures
            result@ == self@.key(column@, value.bound()),
    {
        proof {
            use_type_invariant(&self);
        }
        let ghost view = self@.key(column@, value.bound());
        Upsert {
            row: self.row.set(column, value),
            clause: self.clause.with_key(column),
            view: Ghost(view),
        }
    }

    /// Writes `value` to `column`, where a stored value stays.
    pub fn kept<T: Bind>(self, column: &str, value: T) -> (result: Upsert)
        ensures
            result@ == self@.kept(column@, value.bound()),
    {
        proof {
            use_type_invariant(&self);
        }
        let ghost view = self@.kept(column@, value.bound());
        Upsert {
            row: self.row.set(column, value),
            clause: self.clause,
            view: Ghost(view),
        }
    }

    /// Writes the value of the placeholder `number` to `column`, where a stored
    /// value stays.
    pub fn kept_again(self, column: &str, number: usize) -> (result: Upsert)
        requires
            1 <= number <= self@.row.parameters.len(),
        ensures
            result@ == self@.kept_again(column@, number as nat),
    {
        proof {
            use_type_invariant(&self);
        }
        let ghost view = self@.kept_again(column@, number as nat);
        Upsert {
            row: self.row.again(column, number),
            clause: self.clause,
            view: Ghost(view),
        }
    }

    /// Writes one to `column`, where a stored value stays.
    pub fn kept_one(self, column: &str) -> (result: Upsert)
        ensures
            result@ == self@.kept_one(column@),
    {
        proof {
            use_type_invariant(&self);
        }
        let ghost view = self@.kept_one(column@);
        Upsert {
            row: self.row.computed(column, "1"),
            clause: self.clause,
            view: Ghost(view),
        }
    }

    /// Writes `value` to `column`, in place of a stored value.
    pub fn replaced<T: Bind>(self, column: &str, value: T) -> (result: Upsert)
        ensures
            result@ == self@.replaced(column@, value.bound()),
    {
        proof {
            use_type_invariant(&self);
        }
        let ghost view = self@.replaced(column@, value.bound());
        let assignment = column.to_owned()
            .concat(self.clause.target.equals_str())
            .concat("EXCLUDED.")
            .concat(column);
        assert(assignment@ =~= replacement(view.clause.target, column@));
        Upsert {
            row: self.row.set(column, value),
            clause: self.clause.with(assignment),
            view: Ghost(view),
        }
    }

    /// Writes `value` to `column`, in place of a stored value, which is set last.
    pub fn replaced_late<T: Bind>(self, column: &str, value: T) -> (result: Upsert)
        ensures
            result@ == self@.replaced_late(column@, value.bound()),
    {
        proof {
            use_type_invariant(&self);
        }
        let ghost view = self@.replaced_late(column@, value.bound());
        let assignment = column.to_owned()
            .concat(self.clause.target.equals_str())
            .concat("EXCLUDED.")
            .concat(column);
        assert(assignment@ =~= replacement(view.clause.target, column@));
        Upsert {
            row: self.row.set(column, value),
            clause: self.clause.with_late(assignment),
            view: Ghost(view),
        }
    }

    /// Writes `value` to `column`, added to a stored value.
    pub fn added<T: Bind>(self, column: &str, value: T) -> (result: Upsert)
        ensures
            result@ == self@.added(column@, value.bound()),
    {
        proof {
            use_type_invariant(&self);
        }
        let ghost view = self@.added(column@, value.bound());
        let assignment = column.to_owned()
            .concat("=")
            .concat(qualified(self.clause.table.as_str(), column).as_str())
            .concat("+EXCLUDED.")
            .concat(column);
        assert(assignment@ =~= addition(view.clause.table, column@));
        Upsert {
            row: self.row.set(column, value),
            clause: self.clause.with(assignment),
            view: Ghost(view),
        }
    }

    /// Writes one to `column`, or one more than a stored value.
    pub fn counted(self, column: &str) -> (result: Upsert)
        ensures
            result@ == self@.counted(column@),
    {
        proof {
            use_type_invariant(&self);
        }
        let ghost view = self@.counted(column@);
        let assignment = column.to_owned()
            .concat("=")
            .concat(qualified(self.clause.table.as_str(), column).as_str())
            .concat("+1");
        assert(assignment@ =~= increment(view.clause.table, column@));
        Upsert {
            row: self.row.computed(column, "1"),
            clause: self.clause.with(assignment),
            view: Ghost(view),
        }
    }

    /// Writes `value` to `column`, or true where the stored value is.
    pub fn either<T: Bind>(self, column: &str, value: T) -> (result: Upsert)
        ensures
            result@ == self@.either(column@, value.bound()),
    {
        proof {
            use_type_invariant(&self);
        }
        let ghost view = self@.either(column@, value.bound());
        let assignment = column.to_owned()
            .concat("=")
            .concat(qualified(self.clause.table.as_str(), column).as_str())
            .concat(" OR EXCLUDED.")
            .concat(column);
        assert(assignment@ =~= disjunction(view.clause.table, column@));
        Upsert {
            row: self.row.set(column, value),
            clause: self.clause.with(assignment),
            view: Ghost(view),
        }
    }

    /// Writes `value` to `column`, or a stored value that is less.
    pub fn earliest<T: Bind>(self, column: &str, value: T) -> (result: Upsert)
        ensures
            result@ == self@.earliest(column@, value.bound()),
    {
        proof {
            use_type_invariant(&self);
        }
        let ghost view = self@.earliest(column@, value.bound());
        let assignment = column.to_owned()
            .concat("=LEAST(")
            .concat(qualified(self.clause.table.as_str(), column).as_str())
            .concat(",EXCLUDED.")
            .concat(column)
            .concat(")");
        assert(assignment@ =~= lowering(view.clause.table, column@));
        Upsert {
            row: self.row.set(column, value),
            clause: self.clause.with(assignment),
            view: Ghost(view),
        }
    }

    /// Writes the value of the placeholder `number` to `column`, or a stored
    /// value that is greater.
    pub fn latest_again(self, column: &str, number: usize) -> (result: Upsert)
        requires
            1 <= number <= self@.row.parameters.len(),
        ensures
            result@ == self@.latest_again(column@, number as nat),
    {
        proof {
            use_type_invariant(&self);
        }
        let ghost view = self@.latest_again(column@, number as nat);
        let assignment = column.to_owned()
            .concat("=GREATEST(")
            .concat(qualified(self.clause.table.as_str(), column).as_str())
            .concat(",EXCLUDED.")
            .concat(column)
            .concat(")");
        assert(assignment@ =~= raising(view.clause.table, column@));
        Upsert {
            row: self.row.again(column, number),
            clause: self.clause.with(assignment),
            view: Ghost(view),
        }
    }

    /// Writes `value` to `column`, which is set first: in place of a null, and
    /// of a stored value where the new time is no earlier. The time is in the
    /// column with the index `index`, which is `time`.
    pub fn newest_early<T: Bind>(
        self,
        column: &str,
        value: T,
        index: usize,
        time: &str,
    ) -> (result: Upsert)
        requires
            index < self@.row.cells.len(),
            time@ == self@.row.cells[index as int].column,
        ensures
            result@ == self@.newest_early(column@, value.bound(), index as int),
    {
        proof {
            use_type_invariant(&self);
        }
        let ghost view = self@.newest_early(column@, value.bound(), index as int);
        let stored = qualified(self.clause.table.as_str(), column);
        let assignment = column.to_owned()
            .concat("=CASE WHEN ")
            .concat(stored.as_str())
            .concat(" IS NULL OR EXCLUDED.")
            .concat(time)
            .concat(">=")
            .concat(qualified(self.clause.table.as_str(), time).as_str())
            .concat(" THEN EXCLUDED.")
            .concat(column)
            .concat(" ELSE ")
            .concat(stored.as_str())
            .concat(" END");
        assert(assignment@ =~= renewal(view.clause.table, column@, time@));
        Upsert {
            row: self.row.set(column, value),
            clause: self.clause.with_early(assignment),
            view: Ghost(view),
        }
    }

    /// Merges the row only where the stored one has the same in the column at
    /// `index`.
    pub fn where_same(self, index: usize, column: &str) -> (result: Upsert)
        requires
            index < self@.row.cells.len(),
            column@ == self@.row.cells[index as int].column,
        ensures
            result@ == self@.where_same(index as int),
    {
        proof {
            use_type_invariant(&self);
        }
        let ghost view = self@.where_same(index as int);
        let written = qualified(self.clause.table.as_str(), column)
            .concat("=EXCLUDED.")
            .concat(column);
        assert(written@ =~= guard(view.clause.table, column@));
        Upsert { row: self.row, clause: self.clause.with_guard(written), view: Ghost(view) }
    }

    /// Writes the row, or merges it into the stored one and then does what
    /// `tail` says.
    pub fn finish(self, tail: &str, fetch: Fetch) -> (statement: Statement)
        ensures
            statement@ == self@.finish(tail@, fetch),
    {
        proof {
            use_type_invariant(&self);
        }
        let clause = self.clause.into_update().concat(tail);
        self.row.finish(clause.as_str(), fetch)
    }

    /// Writes the row, unless one of its key is stored, and then does what
    /// `tail` says.
    pub fn finish_once(self, tail: &str, fetch: Fetch) -> (statement: Statement)
        ensures
            statement@ == self@.finish_once(tail@, fetch),
    {
        proof {
            use_type_invariant(&self);
        }
        let clause = self.clause.key_text().concat(self.clause.target.nothing_str()).concat(tail);
        self.row.finish(clause.as_str(), fetch)
    }
}

} // verus!
