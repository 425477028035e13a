//! Rows to write: a table's columns, each beside what it is given.
//!
//! The text of the insert, its placeholders and its values all come from the
//! row, so that a column is always written from the placeholder that its own
//! value is bound to.

use vstd::prelude::*;

use crate::statement::{Bind, Bound, Fetch, Parameter, Statement, StatementView};
use crate::text;

verus! {

/// How an insert is laid out.
#[derive(Clone, Copy, Debug, PartialEq, Eq, Structural)]
pub enum Style {
    /// `INSERT INTO t(a,b) VALUES($1,$2)`
    Tight,
    /// `INSERT INTO t (a,b) VALUES ($1,$2)`
    Open,
    /// `INSERT INTO t (a, b) VALUES ($1,$2)`
    Mixed,
    /// `INSERT INTO t (a, b) VALUES ($1, $2)`
    Spaced,
    /// `INSERT INTO t(a, b)` and `VALUES ($1, $2)`, on a line each.
    Lines,
    /// `INSERT INTO t (`, the columns on lines of their own, and
    /// `VALUES ($1,$2)`.
    Block,
}

impl Style {
    /// What precedes the table.
    pub open spec fn start(self) -> Seq<char> {
        match self {
            Style::Lines | Style::Block => "\n            INSERT INTO "@,
            _ => "INSERT INTO "@,
        }
    }

    /// What stands between the table and its columns.
    pub open spec fn opening(self) -> Seq<char> {
        match self {
            Style::Tight | Style::Lines => "("@,
            Style::Open | Style::Mixed | Style::Spaced => " ("@,
            Style::Block => " (\n                "@,
        }
    }

    /// What stands between two columns.
    pub open spec fn column_comma(self) -> Seq<char> {
        match self {
            Style::Tight | Style::Open => ","@,
            _ => ", "@,
        }
    }

    /// What stands between the columns and their values.
    pub open spec fn middle(self) -> Seq<char> {
        match self {
            Style::Tight => ") VALUES("@,
            Style::Lines | Style::Block => ")\n            VALUES ("@,
            _ => ") VALUES ("@,
        }
    }

    /// What stands between two values.
    pub open spec fn value_comma(self) -> Seq<char> {
        match self {
            Style::Spaced | Style::Lines => ", "@,
            _ => ","@,
        }
    }

    /// What precedes the table.
    fn start_str(self) -> (text: &'static str)
        ensures
            text@ == self.start(),
    {
        match self {
            Style::Lines | Style::Block => "\n            INSERT INTO ",
            _ => "INSERT INTO ",
        }
    }

    /// What stands between the table and its columns.
    fn opening_str(self) -> (text: &'static str)
        ensures
            text@ == self.opening(),
    {
        match self {
            Style::Tight | Style::Lines => "(",
            Style::Open | Style::Mixed | Style::Spaced => " (",
            Style::Block => " (\n                ",
        }
    }

    /// What stands between two columns.
    fn column_comma_str(self) -> (text: &'static str)
        ensures
            text@ == self.column_comma(),
    {
        match self {
            Style::Tight | Style::Open => ",",
            _ => ", ",
        }
    }

    /// What stands between the columns and their values.
    fn middle_str(self) -> (text: &'static str)
        ensures
            text@ == self.middle(),
    {
        match self {
            Style::Tight => ") VALUES(",
            Style::Lines | Style::Block => ")\n            VALUES (",
            _ => ") VALUES (",
        }
    }

    /// What stands between two values.
    fn value_comma_str(self) -> (text: &'static str)
        ensures
            text@ == self.value_comma(),
    {
        match self {
            Style::Spaced | Style::Lines => ", ",
            _ => ",",
        }
    }
}

/// What a column is given.
pub enum Given {
    /// A value, and the number of the placeholder that it is bound to.
    Value(nat, Bound),
    /// The value of a placeholder that has one already.
    Again(nat),
    /// What the database computes.
    Expression(Seq<char>),
    /// What the database computes from a value: what precedes the placeholder
    /// in the expression, the number of the placeholder, the value that is
    /// bound to it, and the rest of the expression.
    Computed(Seq<char>, nat, Bound, Seq<char>),
    /// What the database computes from the value of a placeholder that has one
    /// already: what precedes the placeholder, its number, and the rest.
    ComputedAgain(Seq<char>, nat, Seq<char>),
    /// What the database computes from a value and the value of a placeholder
    /// that has one already: what precedes the first placeholder, its number,
    /// the value that is bound to it, what stands between the two, the second's
    /// number, and the rest.
    ComputedBoth(Seq<char>, nat, Bound, Seq<char>, nat, Seq<char>),
}

/// A column of a row, and what it is given.
pub struct Cell {
    pub column: Seq<char>,
    pub given: Given,
    /// Whether the column starts a line of its own.
    pub breaks: bool,
}

/// The decimal digit for a number below ten.
pub open spec fn digit(number: nat) -> Seq<char> {
    if number == 0 {
        "0"@
    } else if number == 1 {
        "1"@
    } else if number == 2 {
        "2"@
    } else if number == 3 {
        "3"@
    } else if number == 4 {
        "4"@
    } else if number == 5 {
        "5"@
    } else if number == 6 {
        "6"@
    } else if number == 7 {
        "7"@
    } else if number == 8 {
        "8"@
    } else {
        "9"@
    }
}

/// A number in decimal.
pub open spec fn decimal(number: nat) -> Seq<char>
    decreases number,
{
    if number < 10 {
        digit(number)
    } else {
        decimal(number / 10) + digit(number % 10)
    }
}

/// The placeholder with a number.
pub open spec fn placeholder(number: nat) -> Seq<char> {
    "$"@ + decimal(number)
}

/// The columns of the cells, one after the other.
pub open spec fn columns_text(cells: Seq<Cell>, style: Style) -> Seq<char>
    decreases cells.len(),
{
    if cells.len() == 0 {
        Seq::empty()
    } else if cells.len() == 1 {
        cells[0].column
    } else {
        columns_text(cells.drop_last(), style) + separator(cells.last().breaks, style)
            + cells.last().column
    }
}

/// What precedes a column that is not the first.
pub open spec fn separator(breaks: bool, style: Style) -> Seq<char> {
    if breaks {
        ",\n                "@
    } else {
        style.column_comma()
    }
}

/// The text of what a column is given.
pub open spec fn given_text(given: Given) -> Seq<char> {
    match given {
        Given::Value(number, _) => placeholder(number),
        Given::Again(number) => placeholder(number),
        Given::Expression(expression) => expression,
        Given::Computed(start, number, _, rest) => start + placeholder(number) + rest,
        Given::ComputedAgain(start, number, rest) => start + placeholder(number) + rest,
        Given::ComputedBoth(start, number, _, between, other, rest) => start + placeholder(number)
            + between + placeholder(other) + rest,
    }
}

/// What the cells are given, one after the other.
pub open spec fn given_texts(cells: Seq<Cell>, style: Style) -> Seq<char>
    decreases cells.len(),
{
    if cells.len() == 0 {
        Seq::empty()
    } else if cells.len() == 1 {
        given_text(cells[0].given)
    } else {
        given_texts(cells.drop_last(), style) + style.value_comma() + given_text(
            cells.last().given,
        )
    }
}

/// Whether a value is bound to the placeholder with a number.
pub open spec fn is_bound(parameters: Seq<Bound>, number: nat, value: Bound) -> bool {
    &&& 1 <= number <= parameters.len()
    &&& parameters[number - 1] == value
}

/// Whether what a column is given goes by what is bound: a value beside a
/// column is the one bound to the placeholder that is written for it, and a
/// placeholder that is written again has a value.
pub open spec fn goes_by(given: Given, parameters: Seq<Bound>) -> bool {
    match given {
        Given::Value(number, value) => is_bound(parameters, number, value),
        Given::Again(number) => 1 <= number <= parameters.len(),
        Given::Expression(_) => true,
        Given::Computed(_, number, value, _) => is_bound(parameters, number, value),
        Given::ComputedAgain(_, number, _) => 1 <= number <= parameters.len(),
        Given::ComputedBoth(_, number, value, _, other, _) => {
            &&& is_bound(parameters, number, value)
            &&& 1 <= other <= parameters.len()
        },
    }
}

/// Whether a column takes the value of the placeholder with a number.
pub open spec fn takes(given: Given, number: nat) -> bool {
    match given {
        Given::Value(taken, _) => taken == number,
        Given::Computed(_, taken, _, _) => taken == number,
        Given::ComputedBoth(_, taken, _, _, _, _) => taken == number,
        _ => false,
    }
}

/// A row to write, as contracts speak of it: the cells, and the values that
/// are bound for them.
pub struct RowView {
    pub style: Style,
    pub table: Seq<char>,
    pub cells: Seq<Cell>,
    pub parameters: Seq<Bound>,
}

/// A row of `table` without columns.
pub open spec fn row(style: Style, table: Seq<char>) -> RowView {
    RowView { style, table, cells: Seq::empty(), parameters: Seq::empty() }
}

impl RowView {
    /// The number of the next placeholder.
    pub open spec fn next(self) -> nat {
        self.parameters.len() + 1
    }

    /// The row with `value` in `column`.
    pub open spec fn set(self, column: Seq<char>, value: Bound) -> RowView {
        let given = Given::Value(self.next(), value);
        RowView {
            cells: self.cells.push(Cell { column, given, breaks: false }),
            parameters: self.parameters.push(value),
            ..self
        }
    }

    /// The row with `value` in `column`, which starts a line.
    pub open spec fn set_on_line(self, column: Seq<char>, value: Bound) -> RowView {
        let given = Given::Value(self.next(), value);
        RowView {
            cells: self.cells.push(Cell { column, given, breaks: true }),
            parameters: self.parameters.push(value),
            ..self
        }
    }

    /// The row with the value of the placeholder `number` in `column` too.
    pub open spec fn again(self, column: Seq<char>, number: nat) -> RowView {
        let given = Given::Again(number);
        RowView { cells: self.cells.push(Cell { column, given, breaks: false }), ..self }
    }

    /// The row with the value of an expression in `column`.
    pub open spec fn computed(self, column: Seq<char>, expression: Seq<char>) -> RowView {
        let given = Given::Expression(expression);
        RowView { cells: self.cells.push(Cell { column, given, breaks: false }), ..self }
    }

    /// The row with the value of an expression over `value` in `column`: the
    /// value's placeholder, with `start` before it and `rest` behind it.
    pub open spec fn computed_from(
        self,
        column: Seq<char>,
        start: Seq<char>,
        value: Bound,
        rest: Seq<char>,
    ) -> RowView {
        let given = Given::Computed(start, self.next(), value, rest);
        RowView {
            cells: self.cells.push(Cell { column, given, breaks: false }),
            parameters: self.parameters.push(value),
            ..self
        }
    }

    /// The row with the value of an expression in `column` over the value of
    /// the placeholder `number`, with `start` before it and `rest` behind it.
    pub open spec fn computed_again(
        self,
        column: Seq<char>,
        start: Seq<char>,
        number: nat,
        rest: Seq<char>,
    ) -> RowView {
        let given = Given::ComputedAgain(start, number, rest);
        RowView { cells: self.cells.push(Cell { column, given, breaks: false }), ..self }
    }

    /// The row with the value of an expression in `column` over `value` and the
    /// value of the placeholder `number`: `start`, the value's placeholder,
    /// `between`, the other placeholder, and `rest`.
    pub open spec fn computed_from_both(
        self,
        column: Seq<char>,
        start: Seq<char>,
        value: Bound,
        between: Seq<char>,
        number: nat,
        rest: Seq<char>,
    ) -> RowView {
        let given = Given::ComputedBoth(start, self.next(), value, between, number, rest);
        RowView {
            cells: self.cells.push(Cell { column, given, breaks: false }),
            parameters: self.parameters.push(value),
            ..self
        }
    }

    /// Whether every column goes by what is bound, and every bound value goes
    /// to a column.
    pub open spec fn agrees(self) -> bool {
        &&& forall|i: int|
            0 <= i < self.cells.len() ==> goes_by(#[trigger] self.cells[i].given, self.parameters)
        &&& forall|number: nat|
            1 <= number <= self.parameters.len() ==> #[trigger] self.is_taken(number)
    }

    /// Whether some column takes the value of the placeholder `number`.
    pub open spec fn is_taken(self, number: nat) -> bool {
        exists|i: int|
            0 <= i < self.cells.len() && takes(#[trigger] self.cells[i].given, number)
    }

    /// The text that writes the row.
    pub open spec fn text(self) -> Seq<char> {
        self.style.start() + self.table + self.style.opening() + columns_text(
            self.cells,
            self.style,
        ) + self.style.middle() + given_texts(self.cells, self.style) + ")"@
    }

    /// The statement that writes the row and then does what `tail` says.
    pub open spec fn finish(self, tail: Seq<char>, fetch: Fetch) -> StatementView {
        StatementView { text: self.text() + tail, parameters: self.parameters, fetch }
    }

    /// The statement that writes the row and returns `columns` of it.
    pub open spec fn returning(self, columns: Seq<char>, fetch: Fetch) -> StatementView {
        StatementView {
            text: text::returning_text(self.text(), columns),
            parameters: self.parameters,
            fetch,
        }
    }
}

/// A row without columns agrees with what it binds, which is nothing.
pub proof fn empty_row_agrees(style: Style, table: Seq<char>)
    ensures
        row(style, table).agrees(),
{
}

/// Every column that a row gains leaves it agreeing with what it binds: each
/// value is written to the column that it was given beside, and no value is
/// bound in vain. A placeholder that is written again has to have a value.
pub proof fn rows_keep_agreeing(
    before: RowView,
    column: Seq<char>,
    value: Bound,
    expression: Seq<char>,
    between: Seq<char>,
    rest: Seq<char>,
    number: nat,
)
    requires
        before.agrees(),
    ensures
        before.set(column, value).agrees(),
        before.set_on_line(column, value).agrees(),
        1 <= number <= before.parameters.len() ==> before.again(column, number).agrees(),
        before.computed(column, expression).agrees(),
        before.computed_from(column, expression, value, rest).agrees(),
        1 <= number <= before.parameters.len() ==> {
            &&& before.computed_again(column, expression, number, rest).agrees()
            &&& before.computed_from_both(
                column,
                expression,
                value,
                between,
                number,
                rest,
            ).agrees()
        },
{
    lemma_cell_agrees(before, before.set(column, value), Some(value));
    lemma_cell_agrees(before, before.set_on_line(column, value), Some(value));
    if 1 <= number <= before.parameters.len() {
        lemma_cell_agrees(before, before.again(column, number), None);
        lemma_cell_agrees(
            before,
            before.computed_again(column, expression, number, rest),
            None,
        );
        lemma_cell_agrees(
            before,
            before.computed_from_both(column, expression, value, between, number, rest),
            Some(value),
        );
    }
    lemma_cell_agrees(before, before.computed(column, expression), None);
    lemma_cell_agrees(before, before.computed_from(column, expression, value, rest), Some(value));
}

/// A row agrees with what it binds where it did before its last cell, and
/// that cell goes by what is bound and takes what was bound with it.
proof fn lemma_cell_agrees(before: RowView, after: RowView, value: Option<Bound>)
    requires
        before.agrees(),
        after.cells.len() == before.cells.len() + 1,
        after.cells.drop_last() =~= before.cells,
        match value {
            Some(bound) => {
                &&& after.parameters == before.parameters.push(bound)
                &&& takes(after.cells.last().given, before.next())
            },
            None => after.parameters == before.parameters,
        },
        goes_by(after.cells.last().given, after.parameters),
    ensures
        after.agrees(),
{
    assert forall|i: int| 0 <= i < after.cells.len() implies goes_by(
        #[trigger] after.cells[i].given,
        after.parameters,
    ) by {
        if i < before.cells.len() {
            assert(after.cells[i] == after.cells.drop_last()[i]);
            assert(goes_by(before.cells[i].given, before.parameters));
        }
    }
    assert forall|number: nat| 1 <= number <= after.parameters.len() implies #[trigger]
        after.is_taken(number) by {
        if number <= before.parameters.len() {
            assert(before.is_taken(number));
            let i = choose|i: int|
                0 <= i < before.cells.len() && takes(#[trigger] before.cells[i].given, number);
            assert(after.cells[i] == after.cells.drop_last()[i]);
            assert(takes(after.cells[i].given, number));
        } else {
            assert(takes(after.cells[after.cells.len() - 1].given, number));
        }
    }
}

/// A row to write.
pub struct Row {
    style: Style,
    table: String,
    columns: String,
    given: String,
    started: bool,
    parameters: Vec<Parameter>,
    cells: Ghost<Seq<Cell>>,
}

/// What a column is given.
enum Source<'a> {
    Value(Parameter),
    Again(usize),
    Expression(&'a str),
    Computed(&'a str, Parameter, &'a str),
    ComputedAgain(&'a str, usize, &'a str),
    ComputedBoth(&'a str, Parameter, &'a str, usize, &'a str),
}

impl<'a> Source<'a> {
    /// What the column is given, where `next` is the number of the next
    /// placeholder.
    spec fn given(self, next: nat) -> Given {
        match self {
            Source::Value(parameter) => Given::Value(next, parameter@),
            Source::Again(number) => Given::Again(number as nat),
            Source::Expression(expression) => Given::Expression(expression@),
            Source::Computed(start, parameter, rest) => Given::Computed(
                start@,
                next,
                parameter@,
                rest@,
            ),
            Source::ComputedAgain(start, number, rest) => Given::ComputedAgain(
                start@,
                number as nat,
                rest@,
            ),
            Source::ComputedBoth(start, parameter, between, number, rest) => Given::ComputedBoth(
                start@,
                next,
                parameter@,
                between@,
                number as nat,
                rest@,
            ),
        }
    }

    /// The number of the placeholder that is written again, if any.
    spec fn again(self) -> Option<usize> {
        match self {
            Source::Again(number) => Some(number),
            Source::ComputedAgain(_, number, _) => Some(number),
            Source::ComputedBoth(_, _, _, number, _) => Some(number),
            _ => None,
        }
    }

    /// The value that is bound, if any.
    spec fn value(self) -> Option<Bound> {
        match self {
            Source::Value(parameter) => Some(parameter@),
            Source::Computed(_, parameter, _) => Some(parameter@),
            Source::ComputedBoth(_, parameter, _, _, _) => Some(parameter@),
            _ => None,
        }
    }
}

/// The decimal digit for a number below ten.
fn digit_str(number: usize) -> (text: &'static str)
    requires
        number < 10,
    ensures
        text@ == digit(number as nat),
{
    match number {
        0 => "0",
        1 => "1",
        2 => "2",
        3 => "3",
        4 => "4",
        5 => "5",
        6 => "6",
        7 => "7",
        8 => "8",
        _ => "9",
    }
}

/// A number in decimal.
pub(crate) fn decimal_string(number: usize) -> (text: String)
    ensures
        text@ == decimal(number as nat),
    decreases number,
{
    if number < 10 {
        digit_str(number).to_owned()
    } else {
        decimal_string(number / 10).concat(digit_str(number % 10))
    }
}

/// The placeholder with a number.
pub(crate) fn placeholder_string(number: usize) -> (text: String)
    ensures
        text@ == placeholder(number as nat),
{
    text::join("$", decimal_string(number).as_str())
}

impl View for Row {
    type V = RowView;

    closed spec fn view(&self) -> RowView {
        RowView {
            style: self.style,
            table: self.table@,
            cells: self.cells@,
            parameters: self.parameters@.map_values(|parameter: Parameter| parameter@),
        }
    }
}

impl Row {
    /// The texts are those of the cells, and the cells agree with what is
    /// bound.
    #[verifier::type_invariant]
    spec fn well_formed(self) -> bool {
        &&& self.started <==> self.cells@.len() > 0
        &&& self.columns@ == columns_text(self.cells@, self.style)
        &&& self.given@ == given_texts(self.cells@, self.style)
        &&& self@.agrees()
    }

    /// A row of `table` without columns.
    pub fn new(style: Style, table: &str) -> (result: Row)
        ensures
            result@ == row(style, table@),
    {
        let columns = String::new();
        let given = String::new();
        let parameters: Vec<Parameter> = Vec::new();
        proof {
            assert(columns@ =~= Seq::<char>::empty());
            assert(given@ =~= Seq::<char>::empty());
            assert(parameters@.map_values(|parameter: Parameter| parameter@)
                =~= Seq::<Bound>::empty());
        }
        Row {
            style,
            table: table.to_owned(),
            columns,
            given,
            started: false,
            parameters,
            cells: Ghost(Seq::empty()),
        }
    }

    /// Adds a column and what it is given.
    fn with(self, column: &str, source: Source<'_>, breaks: bool) -> (result: Row)
        requires
            source.again() matches Some(number) ==> 1 <= number <= self@.parameters.len(),
        ensures
            result@ == (RowView {
                cells: self@.cells.push(
                    Cell { column: column@, given: source.given(self@.next()), breaks },
                ),
                parameters: match source.value() {
                    Some(value) => self@.parameters.push(value),
                    None => self@.parameters,
                },
                ..self@
            }),
    {
        proof {
            use_type_invariant(&self);
        }
        let ghost before = self@;
        let ghost given_here = source.given(before.next());
        let ghost value = source.value();
        let ghost cells = before.cells.push(Cell { column: column@, given: given_here, breaks });
        let style = self.style;
        let mut parameters = self.parameters;
        let given_text = match source {
            Source::Value(parameter) => {
                parameters.push(parameter);
                placeholder_string(parameters.len())
            },
            Source::Again(number) => placeholder_string(number),
            Source::Expression(expression) => expression.to_owned(),
            Source::Computed(start, parameter, rest) => {
                parameters.push(parameter);
                start.to_owned().concat(placeholder_string(parameters.len()).as_str()).concat(rest)
            },
            Source::ComputedAgain(start, number, rest) => {
                start.to_owned().concat(placeholder_string(number).as_str()).concat(rest)
            },
            Source::ComputedBoth(start, parameter, between, number, rest) => {
                parameters.push(parameter);
                start.to_owned()
                    .concat(placeholder_string(parameters.len()).as_str())
                    .concat(between)
                    .concat(placeholder_string(number).as_str())
                    .concat(rest)
            },
        };
        let (columns, given) = if self.started {
            let comma = if breaks {
                ",\n                "
            } else {
                style.column_comma_str()
            };
            (
                self.columns.concat(comma).concat(column),
                self.given.concat(style.value_comma_str()).concat(given_text.as_str()),
            )
        } else {
            (column.to_owned(), given_text)
        };
        proof {
            let bound = parameters@.map_values(|parameter: Parameter| parameter@);
            let after = RowView { cells, parameters: bound, ..before };
            assert(cells.drop_last() =~= before.cells);
            assert(bound =~= match value {
                Some(added) => before.parameters.push(added),
                None => before.parameters,
            });
            lemma_cell_agrees(before, after, value);
        }
        Row {
            style,
            table: self.table,
            columns,
            given,
            started: true,
            parameters,
            cells: Ghost(cells),
        }
    }

    /// Writes `value` to `column`.
    pub fn set<T: Bind>(self, column: &str, value: T) -> (result: Row)
        ensures
            result@ == self@.set(column@, value.bound()),
    {
        self.with(column, Source::Value(value.into_parameter()), false)
    }

    /// Writes `value` to `column`, which starts a line.
    pub fn set_on_line<T: Bind>(self, column: &str, value: T) -> (result: Row)
        ensures
            result@ == self@.set_on_line(column@, value.bound()),
    {
        self.with(column, Source::Value(value.into_parameter()), true)
    }

    /// Writes the value of the placeholder `number` to `column` too.
    pub fn again(self, column: &str, number: usize) -> (result: Row)
        requires
            1 <= number <= self@.parameters.len(),
        ensures
            result@ == self@.again(column@, number as nat),
    {
        self.with(column, Source::Again(number), false)
    }

    /// Writes what the database computes for `expression` to `column`.
    pub fn computed(self, column: &str, expression: &str) -> (result: Row)
        ensures
            result@ == self@.computed(column@, expression@),
    {
        self.with(column, Source::Expression(expression), false)
    }

    /// Writes what the database computes for an expression over `value` to
    /// `column`: the value's placeholder, with `start` before it and `rest`
    /// behind it.
    pub fn computed_from<T: Bind>(
        self,
        column: &str,
        start: &str,
        value: T,
        rest: &str,
    ) -> (result: Row)
        ensures
            result@ == self@.computed_from(column@, start@, value.bound(), rest@),
    {
        self.with(column, Source::Computed(start, value.into_parameter(), rest), false)
    }

    /// Writes what the database computes for an expression over the value of
    /// the placeholder `number` to `column`, with `start` before the placeholder
    /// and `rest` behind it.
    pub fn computed_again(
        self,
        column: &str,
        start: &str,
        number: usize,
        rest: &str,
    ) -> (result: Row)
        requires
            1 <= number <= self@.parameters.len(),
        ensures
            result@ == self@.computed_again(column@, start@, number as nat, rest@),
    {
        self.with(column, Source::ComputedAgain(start, number, rest), false)
    }

    /// Writes what the database computes for an expression over `value` and the
    /// value of the placeholder `number` to `column`: `start`, the value's
    /// placeholder, `between`, the other placeholder, and `rest`.
    pub fn computed_from_both<T: Bind>(
        self,
        column: &str,
        start: &str,
        value: T,
        between: &str,
        number: usize,
        rest: &str,
    ) -> (result: Row)
        requires
            1 <= number <= self@.parameters.len(),
        ensures
            result@ == self@.computed_from_both(
                column@,
                start@,
                value.bound(),
                between@,
                number as nat,
                rest@,
            ),
    {
        self.with(
            column,
            Source::ComputedBoth(start, value.into_parameter(), between, number, rest),
            false,
        )
    }

    /// The text that writes the row.
    fn text(&self) -> (text: String)
        ensures
            text@ == self@.text(),
    {
        proof {
            use_type_invariant(self);
        }
        let style = self.style;
        style.start_str().to_owned()
            .concat(self.table.as_str())
            .concat(style.opening_str())
            .concat(self.columns.as_str())
            .concat(style.middle_str())
            .concat(self.given.as_str())
            .concat(")")
    }

    /// Writes the row and then does what `tail` says.
    pub fn finish(self, tail: &str, fetch: Fetch) -> (statement: Statement)
        ensures
            self@.agrees(),
            statement@ == self@.finish(tail@, fetch),
    {
        proof {
            use_type_invariant(&self);
        }
        let text = self.text().concat(tail);
        Statement { text, parameters: self.parameters, fetch }
    }

    /// Writes the row and returns `columns` of it.
    pub fn returning(self, columns: &str, fetch: Fetch) -> (statement: Statement)
        ensures
            self@.agrees(),
            statement@ == self@.returning(columns@, fetch),
            text::gives(statement@.text, columns@),
    {
        proof {
            use_type_invariant(&self);
        }
        let text = text::returning(self.text().as_str(), columns);
        Statement { text, parameters: self.parameters, fetch }
    }
}

/// Statements that write the same row write it alike: whatever each says of an
/// existing row or asks back, both start with the row's text and bind its
/// values.
pub proof fn statements_write_a_row_alike(
    row: RowView,
    tail: Seq<char>,
    fetch: Fetch,
    other_tail: Seq<char>,
    other_fetch: Fetch,
)
    ensures
        row.text().is_prefix_of(row.finish(tail, fetch).text),
        row.text().is_prefix_of(row.finish(other_tail, other_fetch).text),
        row.finish(tail, fetch).parameters == row.finish(other_tail, other_fetch).parameters,
{
}

/// Placeholders are told apart by their numbers.
pub proof fn placeholders_differ(one: nat, other: nat)
    requires
        placeholder(one) == placeholder(other),
    ensures
        one == other,
{
    reveal_strlit("$");
    assert(placeholder(one).skip(1) =~= decimal(one));
    assert(placeholder(other).skip(1) =~= decimal(other));
    lemma_decimals_differ(one, other);
}

/// Numbers are told apart by their decimals.
proof fn lemma_decimals_differ(one: nat, other: nat)
    requires
        decimal(one) == decimal(other),
    ensures
        one == other,
    decreases one,
{
    lemma_digit(one % 10);
    lemma_digit(other % 10);
    lemma_decimal_splits(one);
    lemma_decimal_splits(other);
    let text = decimal(one);
    if one >= 10 && other >= 10 {
        assert(text.drop_last() =~= decimal(one / 10));
        assert(text.drop_last() =~= decimal(other / 10));
        lemma_decimals_differ(one / 10, other / 10);
    }
}

/// A digit's text is one character, which counts from `'0'`.
proof fn lemma_digit(number: nat)
    requires
        number < 10,
    ensures
        digit(number).len() == 1,
        digit(number)[0] as int == '0' as int + number,
{
    reveal_strlit("0");
    reveal_strlit("1");
    reveal_strlit("2");
    reveal_strlit("3");
    reveal_strlit("4");
    reveal_strlit("5");
    reveal_strlit("6");
    reveal_strlit("7");
    reveal_strlit("8");
    reveal_strlit("9");
}

/// A decimal ends in its last digit, and has more than one digit from ten on.
proof fn lemma_decimal_splits(number: nat)
    ensures
        decimal(number).len() >= 1,
        number < 10 <==> decimal(number).len() == 1,
        decimal(number).last() == digit(number % 10)[0],
    decreases number,
{
    lemma_digit(number % 10);
    if number >= 10 {
        lemma_decimal_splits(number / 10);
    }
}

/// Placeholders are written by their numbers.
pub proof fn placeholders_are_written_so()
    ensures
        placeholder(1) == "$1"@,
        placeholder(2) == "$2"@,
        placeholder(3) == "$3"@,
        placeholder(4) == "$4"@,
        placeholder(5) == "$5"@,
        placeholder(6) == "$6"@,
        placeholder(7) == "$7"@,
        placeholder(8) == "$8"@,
        placeholder(9) == "$9"@,
        placeholder(10) == "$10"@,
        placeholder(11) == "$11"@,
        placeholder(12) == "$12"@,
        placeholder(13) == "$13"@,
        placeholder(14) == "$14"@,
        placeholder(15) == "$15"@,
{
    reveal_strlit("0");
    reveal_strlit("1");
    reveal_strlit("2");
    reveal_strlit("3");
    reveal_strlit("4");
    reveal_strlit("5");
    reveal_strlit("6");
    reveal_strlit("7");
    reveal_strlit("8");
    reveal_strlit("9");
    reveal_strlit("$");
    reveal_strlit("$1");
    reveal_strlit("$2");
    reveal_strlit("$3");
    reveal_strlit("$4");
    reveal_strlit("$5");
    reveal_strlit("$6");
    reveal_strlit("$7");
    reveal_strlit("$8");
    reveal_strlit("$9");
    reveal_strlit("$10");
    reveal_strlit("$11");
    reveal_strlit("$12");
    reveal_strlit("$13");
    reveal_strlit("$14");
    reveal_strlit("$15");
    reveal_with_fuel(decimal, 3);
    assert(placeholder(1) =~= "$1"@);
    assert(placeholder(2) =~= "$2"@);
    assert(placeholder(3) =~= "$3"@);
    assert(placeholder(4) =~= "$4"@);
    assert(placeholder(5) =~= "$5"@);
    assert(placeholder(6) =~= "$6"@);
    assert(placeholder(7) =~= "$7"@);
    assert(placeholder(8) =~= "$8"@);
    assert(placeholder(9) =~= "$9"@);
    assert(placeholder(10) =~= "$10"@);
    assert(placeholder(11) =~= "$11"@);
    assert(placeholder(12) =~= "$12"@);
    assert(placeholder(13) =~= "$13"@);
    assert(placeholder(14) =~= "$14"@);
    assert(placeholder(15) =~= "$15"@);
}

} // verus!
