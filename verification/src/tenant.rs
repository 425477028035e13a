//! Tenant filters.
//!
//! A tenant path is an organization, a project in it, and an application in
//! that. A statement on a tenant's rows binds the path's identifiers to
//! placeholders in a row and filters by them, and the text of the filter is
//! written here, once: a text with a filter is made of what precedes it, the
//! filter, and what follows it, which may hold further filters made the same
//! way.
//!
//! A listing that may be given an organization or none does not filter by a
//! path, and writes its own condition.

use uuid::Uuid;
use vstd::prelude::*;

#[allow(unused_imports)]
use crate::statement::{Bind, StatementView};
use crate::text;

verus! {

/// What a filter follows.
#[derive(Clone, Copy, Debug, PartialEq, Eq, Structural)]
pub enum Before {
    /// The filter is the first condition.
    Where,
    /// The filter is the first condition of a join.
    On,
    /// The filter is a further condition.
    And,
}

impl Before {
    /// The keyword's text.
    pub open spec fn text(self) -> Seq<char> {
        match self {
            Before::Where => "WHERE "@,
            Before::On => "ON "@,
            Before::And => "AND "@,
        }
    }

    /// The keyword's text.
    pub fn as_str(self) -> (text: &'static str)
        ensures
            text@ == self.text(),
    {
        match self {
            Before::Where => "WHERE ",
            Before::On => "ON ",
            Before::And => "AND ",
        }
    }
}

/// What follows a filter.
#[derive(Clone, Copy, Debug, PartialEq, Eq, Structural)]
pub enum After {
    /// A further condition, set off as the filter's own conditions are.
    And,
    GroupBy,
    OrderBy,
    Parenthesis,
    Returning,
    /// Nothing: the filter ends the text.
    End,
}

impl After {
    /// The text that follows a filter in `layout`.
    pub open spec fn text(self, layout: Layout) -> Seq<char> {
        match self {
            After::And => layout.and(),
            After::GroupBy => " GROUP BY "@,
            After::OrderBy => " ORDER BY "@,
            After::Parenthesis => ")"@,
            After::Returning => " RETURNING "@,
            After::End => ""@,
        }
    }

    /// The text that follows a filter in `layout`.
    pub fn as_str(self, layout: Layout) -> (text: &'static str)
        ensures
            text@ == self.text(layout),
    {
        match self {
            After::And => layout.and_str(),
            After::GroupBy => " GROUP BY ",
            After::OrderBy => " ORDER BY ",
            After::Parenthesis => ")",
            After::Returning => " RETURNING ",
            After::End => "",
        }
    }
}

/// How a filter is laid out.
#[derive(Clone, Copy, Debug, PartialEq, Eq, Structural)]
pub enum Layout {
    /// `a=$1 AND b=$2`
    Tight,
    /// `a = $1 AND b = $2`
    Spaced,
    /// `a = $1`, and each further condition on a line of its own.
    Lines,
    /// As [`Layout::Lines`], one level deeper.
    DeepLines,
}

impl Layout {
    /// What stands between a column and its placeholder.
    pub open spec fn equals(self) -> Seq<char> {
        match self {
            Layout::Tight => "="@,
            _ => " = "@,
        }
    }

    /// What stands between two conditions.
    pub open spec fn and(self) -> Seq<char> {
        match self {
            Layout::Tight | Layout::Spaced => " AND "@,
            Layout::Lines => "\n              AND "@,
            Layout::DeepLines => "\n                  AND "@,
        }
    }

    /// What stands between a column and its placeholder.
    pub fn equals_str(self) -> (text: &'static str)
        ensures
            text@ == self.equals(),
    {
        match self {
            Layout::Tight => "=",
            _ => " = ",
        }
    }

    /// What stands between two conditions.
    pub fn and_str(self) -> (text: &'static str)
        ensures
            text@ == self.and(),
    {
        match self {
            Layout::Tight | Layout::Spaced => " AND ",
            Layout::Lines => "\n              AND ",
            Layout::DeepLines => "\n                  AND ",
        }
    }
}

/// Where a statement's values hold the tenant path.
#[derive(Clone, Copy, Debug, PartialEq, Eq, Structural)]
pub enum Start {
    /// From `$1` on.
    First,
    /// From `$2` on, behind one other value.
    Second,
}

impl Start {
    /// The number of values that precede the path.
    pub open spec fn index(self) -> int {
        match self {
            Start::First => 0,
            Start::Second => 1,
        }
    }

    /// The organization's placeholder.
    pub open spec fn organization(self) -> Seq<char> {
        match self {
            Start::First => "$1"@,
            Start::Second => "$2"@,
        }
    }

    /// The project's placeholder.
    pub open spec fn project(self) -> Seq<char> {
        match self {
            Start::First => "$2"@,
            Start::Second => "$3"@,
        }
    }

    /// The application's placeholder.
    pub open spec fn application(self) -> Seq<char> {
        match self {
            Start::First => "$3"@,
            Start::Second => "$4"@,
        }
    }

    /// The organization's placeholder.
    fn organization_str(self) -> (text: &'static str)
        ensures
            text@ == self.organization(),
    {
        match self {
            Start::First => "$1",
            Start::Second => "$2",
        }
    }

    /// The project's placeholder.
    fn project_str(self) -> (text: &'static str)
        ensures
            text@ == self.project(),
    {
        match self {
            Start::First => "$2",
            Start::Second => "$3",
        }
    }

    /// The application's placeholder.
    fn application_str(self) -> (text: &'static str)
        ensures
            text@ == self.application(),
    {
        match self {
            Start::First => "$3",
            Start::Second => "$4",
        }
    }
}

/// Whether a text names a table before a column: a word in lower case and its
/// dot, or nothing where the column needs no table.
pub open spec fn is_alias(alias: Seq<char>) -> bool {
    ||| alias.len() == 0
    ||| {
        &&& alias.len() >= 2
        &&& alias.last() == '.'
        &&& forall|i: int| 0 <= i < alias.len() - 1 ==> 'a' <= #[trigger] alias[i] <= 'z'
    }
}

/// The aliases that statements give their tables.
pub open spec fn is_known_alias(alias: Seq<char>) -> bool {
    ||| alias == ""@
    ||| alias == "a."@
    ||| alias == "aa."@
    ||| alias == "app."@
    ||| alias == "c."@
    ||| alias == "d."@
    ||| alias == "e."@
    ||| alias == "f."@
    ||| alias == "g."@
    ||| alias == "gl."@
    ||| alias == "i."@
    ||| alias == "l."@
    ||| alias == "m."@
    ||| alias == "o."@
    ||| alias == "p."@
    ||| alias == "r."@
    ||| alias == "s."@
}

/// Each alias that statements give their tables names a table.
pub broadcast proof fn known_aliases_name_tables(alias: Seq<char>)
    requires
        is_known_alias(alias),
    ensures
        #[trigger] is_alias(alias),
{
    reveal_strlit("");
    reveal_strlit("a.");
    reveal_strlit("aa.");
    reveal_strlit("app.");
    reveal_strlit("c.");
    reveal_strlit("d.");
    reveal_strlit("e.");
    reveal_strlit("f.");
    reveal_strlit("g.");
    reveal_strlit("gl.");
    reveal_strlit("i.");
    reveal_strlit("l.");
    reveal_strlit("m.");
    reveal_strlit("o.");
    reveal_strlit("p.");
    reveal_strlit("r.");
    reveal_strlit("s.");
}

/// Narrows to an organization. The alias is one that [`is_alias`] describes.
pub open spec fn organization_filter(alias: Seq<char>, layout: Layout, start: Start) -> Seq<char> {
    alias + "organization_id"@ + layout.equals() + start.organization()
}

/// Narrows to an organization and a project.
pub open spec fn project_filter(alias: Seq<char>, layout: Layout, start: Start) -> Seq<char> {
    organization_filter(alias, layout, start) + layout.and() + alias + "project_id"@
        + layout.equals() + start.project()
}

/// Narrows to an organization, a project and an application.
pub open spec fn application_filter(alias: Seq<char>, layout: Layout, start: Start) -> Seq<char> {
    project_filter(alias, layout, start) + layout.and() + alias + "application_id"@
        + layout.equals() + start.application()
}

/// Whether `sql` holds `condition`, from the character `at` on, between what
/// `before` and `after` say.
pub open spec fn holds_condition_at(
    sql: Seq<char>,
    condition: Seq<char>,
    layout: Layout,
    before: Before,
    after: After,
    at: int,
) -> bool {
    &&& text::holds_at(sql, before.text() + condition + after.text(layout), at)
    &&& after == After::End ==> at + before.text().len() + condition.len() == sql.len()
}

/// Whether `sql` holds `condition` as a condition of its own: `WHERE`, `ON` or
/// `AND` stands right before it, and right behind it `AND`, `GROUP BY`, `ORDER BY`, a
/// closing parenthesis, `RETURNING`, or nothing more.
pub open spec fn holds_condition(sql: Seq<char>, condition: Seq<char>, layout: Layout) -> bool {
    exists|before: Before, after: After, at: int| #[trigger]
        holds_condition_at(sql, condition, layout, before, after, at)
}

/// Whether a text holds the filter by an organization of the path at `start`,
/// for some table, as a condition of its own.
pub open spec fn conditions_on_organization(sql: Seq<char>, start: Start) -> bool {
    exists|alias: Seq<char>, layout: Layout|
        is_alias(alias) && holds_condition(
            sql,
            #[trigger] organization_filter(alias, layout, start),
            layout,
        )
}

/// Whether a text holds the filter by a project of the path at `start` as a
/// condition of its own.
pub open spec fn conditions_on_project(sql: Seq<char>, start: Start) -> bool {
    exists|alias: Seq<char>, layout: Layout|
        is_alias(alias) && holds_condition(
            sql,
            #[trigger] project_filter(alias, layout, start),
            layout,
        )
}

/// Whether a text holds the filter by an application of the path at `start` as a
/// condition of its own.
pub open spec fn conditions_on_application(sql: Seq<char>, start: Start) -> bool {
    exists|alias: Seq<char>, layout: Layout|
        is_alias(alias) && holds_condition(
            sql,
            #[trigger] application_filter(alias, layout, start),
            layout,
        )
}

/// Whether a statement filters by an organization: its text holds the filter by
/// the path at `start` as a condition of its own, and there the organization is
/// bound.
///
/// This is about that one condition. Which of the text's reads it narrows, and
/// what other conditions stand around it, the text itself says, and a method
/// that states this gives its text whole.
pub open spec fn filters_by_organization_from(
    statement: StatementView,
    start: Start,
    organization_id: Uuid,
) -> bool {
    &&& conditions_on_organization(statement.text, start)
    &&& statement.parameters.len() >= start.index() + 1
    &&& statement.parameters[start.index()] == organization_id.bound()
}

/// Whether a statement filters by an organization and a project, as
/// [`filters_by_organization_from`] says of an organization.
pub open spec fn filters_by_project_from(
    statement: StatementView,
    start: Start,
    organization_id: Uuid,
    project_id: Uuid,
) -> bool {
    &&& conditions_on_project(statement.text, start)
    &&& statement.parameters.len() >= start.index() + 2
    &&& statement.parameters[start.index()] == organization_id.bound()
    &&& statement.parameters[start.index() + 1] == project_id.bound()
}

/// Whether a statement filters by an organization, a project and an
/// application, as [`filters_by_organization_from`] says of an organization.
pub open spec fn filters_by_application_from(
    statement: StatementView,
    start: Start,
    organization_id: Uuid,
    project_id: Uuid,
    application_id: Uuid,
) -> bool {
    &&& conditions_on_application(statement.text, start)
    &&& statement.parameters.len() >= start.index() + 3
    &&& statement.parameters[start.index()] == organization_id.bound()
    &&& statement.parameters[start.index() + 1] == project_id.bound()
    &&& statement.parameters[start.index() + 2] == application_id.bound()
}

/// Whether a statement filters by the organization bound to `$1`.
pub open spec fn filters_by_organization(statement: StatementView, organization_id: Uuid) -> bool {
    filters_by_organization_from(statement, Start::First, organization_id)
}

/// Whether a statement filters by the organization and the project bound to
/// `$1` and `$2`.
pub open spec fn filters_by_project(
    statement: StatementView,
    organization_id: Uuid,
    project_id: Uuid,
) -> bool {
    filters_by_project_from(statement, Start::First, organization_id, project_id)
}

/// Whether a statement filters by the organization, the project and the
/// application bound to `$1`, `$2` and `$3`.
pub open spec fn filters_by_application(
    statement: StatementView,
    organization_id: Uuid,
    project_id: Uuid,
    application_id: Uuid,
) -> bool {
    filters_by_application_from(
        statement,
        Start::First,
        organization_id,
        project_id,
        application_id,
    )
}

/// The text that narrows `alias` to an organization, by the path at `start`.
pub open spec fn organization_text_from(
    start: Start,
    head: Seq<char>,
    before: Before,
    alias: Seq<char>,
    layout: Layout,
    after: After,
    tail: Seq<char>,
) -> Seq<char> {
    head + before.text() + organization_filter(alias, layout, start) + after.text(layout) + tail
}

/// The text that narrows `alias` to an organization, by the path at `$1`.
pub open spec fn organization_text(
    head: Seq<char>,
    before: Before,
    alias: Seq<char>,
    layout: Layout,
    after: After,
    tail: Seq<char>,
) -> Seq<char> {
    organization_text_from(Start::First, head, before, alias, layout, after, tail)
}

/// The text that narrows `alias` to a project, by the path at `start`.
pub open spec fn project_text_from(
    start: Start,
    head: Seq<char>,
    before: Before,
    alias: Seq<char>,
    layout: Layout,
    after: After,
    tail: Seq<char>,
) -> Seq<char> {
    head + before.text() + project_filter(alias, layout, start) + after.text(layout) + tail
}

/// The text that narrows `alias` to a project, by the path at `$1`.
pub open spec fn project_text(
    head: Seq<char>,
    before: Before,
    alias: Seq<char>,
    layout: Layout,
    after: After,
    tail: Seq<char>,
) -> Seq<char> {
    project_text_from(Start::First, head, before, alias, layout, after, tail)
}

/// The text that narrows `alias` to an application, by the path at `start`.
pub open spec fn application_text_from(
    start: Start,
    head: Seq<char>,
    before: Before,
    alias: Seq<char>,
    layout: Layout,
    after: After,
    tail: Seq<char>,
) -> Seq<char> {
    head + before.text() + application_filter(alias, layout, start) + after.text(layout) + tail
}

/// The text that narrows `alias` to an application, by the path at `$1`.
pub open spec fn application_text(
    head: Seq<char>,
    before: Before,
    alias: Seq<char>,
    layout: Layout,
    after: After,
    tail: Seq<char>,
) -> Seq<char> {
    application_text_from(Start::First, head, before, alias, layout, after, tail)
}

/// A condition between what `before` and `after` say is held as one.
proof fn lemma_condition_held(
    head: Seq<char>,
    before: Before,
    condition: Seq<char>,
    layout: Layout,
    after: After,
    tail: Seq<char>,
)
    requires
        after == After::End ==> tail.len() == 0,
    ensures
        holds_condition(
            head + before.text() + condition + after.text(layout) + tail,
            condition,
            layout,
        ),
{
    reveal_strlit("");
    let sql = head + before.text() + condition + after.text(layout) + tail;
    let part = before.text() + condition + after.text(layout);
    let at = head.len() as int;
    assert(sql.subrange(at, at + part.len()) =~= part);
    assert(holds_condition_at(sql, condition, layout, before, after, at));
}

/// A condition that a text holds, it holds behind another text too.
proof fn lemma_condition_behind(
    head: Seq<char>,
    sql: Seq<char>,
    condition: Seq<char>,
    layout: Layout,
)
    requires
        holds_condition(sql, condition, layout),
    ensures
        holds_condition(head + sql, condition, layout),
{
    let (before, after, at): (Before, After, int) = choose|before: Before, after: After, at: int|
        #[trigger]
        holds_condition_at(sql, condition, layout, before, after, at);
    let part = before.text() + condition + after.text(layout);
    let from = head.len() + at;
    assert((head + sql).subrange(from, from + part.len()) =~= sql.subrange(at, at + part.len()));
    assert(holds_condition_at(head + sql, condition, layout, before, after, from));
}

/// A condition that a text holds, it holds where it goes on to return columns
/// too.
proof fn lemma_condition_before_returning(
    sql: Seq<char>,
    columns: Seq<char>,
    condition: Seq<char>,
    layout: Layout,
)
    requires
        holds_condition(sql, condition, layout),
    ensures
        holds_condition(text::returning_text(sql, columns), condition, layout),
{
    let (before, after, at): (Before, After, int) = choose|before: Before, after: After, at: int|
        #[trigger]
        holds_condition_at(sql, condition, layout, before, after, at);
    let longer = text::returning_text(sql, columns);
    let next = if after == After::End {
        After::Returning
    } else {
        after
    };
    let part = before.text() + condition + after.text(layout);
    let whole = before.text() + condition + next.text(layout);
    assert(sql.subrange(at, at + part.len()) =~= part);
    if after == After::End {
        reveal_strlit("");
        assert(part =~= before.text() + condition);
    }
    assert forall|i: int| 0 <= i < whole.len() implies longer[at + i] == #[trigger] whole[i] by {
        if i < part.len() {
            assert(sql[at + i] == sql.subrange(at, at + part.len())[i]);
        }
    }
    assert(longer.subrange(at, at + whole.len()) =~= whole);
    assert(holds_condition_at(longer, condition, layout, before, next, at));
}

/// The path that a text has conditions on, it has behind another text too.
pub proof fn lemma_conditions_behind(head: Seq<char>, sql: Seq<char>, start: Start)
    ensures
        conditions_on_organization(sql, start) ==> conditions_on_organization(
            head + sql,
            start,
        ),
        conditions_on_project(sql, start) ==> conditions_on_project(
            head + sql,
            start,
        ),
        conditions_on_application(sql, start) ==> conditions_on_application(
            head + sql,
            start,
        ),
{
    if conditions_on_organization(sql, start) {
        let (alias, layout): (Seq<char>, Layout) = choose|alias: Seq<char>, layout: Layout|
            is_alias(alias) && holds_condition(
                sql,
                #[trigger] organization_filter(alias, layout, start),
                layout,
            );
        let filter = organization_filter(alias, layout, start);
        lemma_condition_behind(head, sql, filter, layout);
    }
    if conditions_on_project(sql, start) {
        let (alias, layout): (Seq<char>, Layout) = choose|alias: Seq<char>, layout: Layout|
            is_alias(alias) && holds_condition(
                sql,
                #[trigger] project_filter(alias, layout, start),
                layout,
            );
        let filter = project_filter(alias, layout, start);
        lemma_condition_behind(head, sql, filter, layout);
    }
    if conditions_on_application(sql, start) {
        let (alias, layout): (Seq<char>, Layout) = choose|alias: Seq<char>, layout: Layout|
            is_alias(alias) && holds_condition(
                sql,
                #[trigger] application_filter(alias, layout, start),
                layout,
            );
        let filter = application_filter(alias, layout, start);
        lemma_condition_behind(head, sql, filter, layout);
    }
}

/// The path that a text has conditions on, it has where it goes on to return
/// columns too.
pub proof fn lemma_conditions_before_returning(sql: Seq<char>, columns: Seq<char>, start: Start)
    ensures
        conditions_on_organization(sql, start) ==> conditions_on_organization(
            text::returning_text(sql, columns),
            start,
        ),
        conditions_on_project(sql, start) ==> conditions_on_project(
            text::returning_text(sql, columns),
            start,
        ),
        conditions_on_application(sql, start) ==> conditions_on_application(
            text::returning_text(sql, columns),
            start,
        ),
{
    if conditions_on_organization(sql, start) {
        let (alias, layout): (Seq<char>, Layout) = choose|alias: Seq<char>, layout: Layout|
            is_alias(alias) && holds_condition(
                sql,
                #[trigger] organization_filter(alias, layout, start),
                layout,
            );
        let filter = organization_filter(alias, layout, start);
        lemma_condition_before_returning(sql, columns, filter, layout);
    }
    if conditions_on_project(sql, start) {
        let (alias, layout): (Seq<char>, Layout) = choose|alias: Seq<char>, layout: Layout|
            is_alias(alias) && holds_condition(
                sql,
                #[trigger] project_filter(alias, layout, start),
                layout,
            );
        let filter = project_filter(alias, layout, start);
        lemma_condition_before_returning(sql, columns, filter, layout);
    }
    if conditions_on_application(sql, start) {
        let (alias, layout): (Seq<char>, Layout) = choose|alias: Seq<char>, layout: Layout|
            is_alias(alias) && holds_condition(
                sql,
                #[trigger] application_filter(alias, layout, start),
                layout,
            );
        let filter = application_filter(alias, layout, start);
        lemma_condition_before_returning(sql, columns, filter, layout);
    }
}

/// A text that holds a condition, and in it a first part that `AND` follows,
/// holds that part as a condition too.
proof fn lemma_first_held(sql: Seq<char>, first: Seq<char>, rest: Seq<char>, layout: Layout)
    requires
        holds_condition(sql, first + layout.and() + rest, layout),
    ensures
        holds_condition(sql, first, layout),
{
    let condition = first + layout.and() + rest;
    let (before, after, at): (Before, After, int) = choose|before: Before, after: After, at: int|
        #[trigger]
        holds_condition_at(sql, condition, layout, before, after, at);
    let whole = before.text() + condition + after.text(layout);
    let part = before.text() + first + After::And.text(layout);
    assert(sql.subrange(at, at + part.len()) =~= whole.subrange(0, part.len() as int));
    assert(whole.subrange(0, part.len() as int) =~= part);
    assert(holds_condition_at(sql, first, layout, before, After::And, at));
}

/// The filter by an organization.
fn organization_condition(alias: &str, layout: Layout, start: Start) -> (text: String)
    ensures
        text@ == organization_filter(alias@, layout, start),
{
    alias.to_owned().concat("organization_id").concat(layout.equals_str()).concat(
        start.organization_str(),
    )
}

/// The filter by an organization and a project.
fn project_condition(alias: &str, layout: Layout, start: Start) -> (text: String)
    ensures
        text@ == project_filter(alias@, layout, start),
{
    organization_condition(alias, layout, start).concat(layout.and_str()).concat(alias).concat(
        "project_id",
    ).concat(layout.equals_str()).concat(start.project_str())
}

/// The filter by an organization, a project and an application.
fn application_condition(alias: &str, layout: Layout, start: Start) -> (text: String)
    ensures
        text@ == application_filter(alias@, layout, start),
{
    project_condition(alias, layout, start).concat(layout.and_str()).concat(alias).concat(
        "application_id",
    ).concat(layout.equals_str()).concat(start.application_str())
}

/// Narrows `alias` to an organization, by the path at `start`.
pub fn organization_from(
    start: Start,
    head: &str,
    before: Before,
    alias: &str,
    layout: Layout,
    after: After,
    tail: &str,
) -> (text: String)
    requires
        is_alias(alias@),
        after == After::End ==> tail@.len() == 0,
    ensures
        text@ == organization_text_from(start, head@, before, alias@, layout, after, tail@),
        conditions_on_organization(text@, start),
{
    proof {
        lemma_condition_held(
            head@,
            before,
            organization_filter(alias@, layout, start),
            layout,
            after,
            tail@,
        );
    }
    let filter = organization_condition(alias, layout, start);
    let text = head.to_owned()
        .concat(before.as_str())
        .concat(filter.as_str())
        .concat(after.as_str(layout))
        .concat(tail);
    assert(text@ =~= organization_text_from(start, head@, before, alias@, layout, after, tail@));
    text
}

/// Narrows `alias` to the organization at `$1`.
pub fn organization(
    head: &str,
    before: Before,
    alias: &str,
    layout: Layout,
    after: After,
    tail: &str,
) -> (text: String)
    requires
        is_alias(alias@),
        after == After::End ==> tail@.len() == 0,
    ensures
        text@ == organization_text(head@, before, alias@, layout, after, tail@),
        conditions_on_organization(text@, Start::First),
{
    organization_from(Start::First, head, before, alias, layout, after, tail)
}

/// Narrows `alias` to a project, by the path at `start`.
pub fn project_from(
    start: Start,
    head: &str,
    before: Before,
    alias: &str,
    layout: Layout,
    after: After,
    tail: &str,
) -> (text: String)
    requires
        is_alias(alias@),
        after == After::End ==> tail@.len() == 0,
    ensures
        text@ == project_text_from(start, head@, before, alias@, layout, after, tail@),
        conditions_on_project(text@, start),
{
    proof {
        lemma_condition_held(
            head@,
            before,
            project_filter(alias@, layout, start),
            layout,
            after,
            tail@,
        );
    }
    let filter = project_condition(alias, layout, start);
    let text = head.to_owned()
        .concat(before.as_str())
        .concat(filter.as_str())
        .concat(after.as_str(layout))
        .concat(tail);
    assert(text@ =~= project_text_from(start, head@, before, alias@, layout, after, tail@));
    text
}

/// Narrows `alias` to the organization at `$1` and the project at `$2`.
pub fn project(
    head: &str,
    before: Before,
    alias: &str,
    layout: Layout,
    after: After,
    tail: &str,
) -> (text: String)
    requires
        is_alias(alias@),
        after == After::End ==> tail@.len() == 0,
    ensures
        text@ == project_text(head@, before, alias@, layout, after, tail@),
        conditions_on_project(text@, Start::First),
{
    project_from(Start::First, head, before, alias, layout, after, tail)
}

/// Narrows `alias` to an application, by the path at `start`.
pub fn application_from(
    start: Start,
    head: &str,
    before: Before,
    alias: &str,
    layout: Layout,
    after: After,
    tail: &str,
) -> (text: String)
    requires
        is_alias(alias@),
        after == After::End ==> tail@.len() == 0,
    ensures
        text@ == application_text_from(start, head@, before, alias@, layout, after, tail@),
        conditions_on_application(text@, start),
{
    proof {
        lemma_condition_held(
            head@,
            before,
            application_filter(alias@, layout, start),
            layout,
            after,
            tail@,
        );
    }
    let filter = application_condition(alias, layout, start);
    let text = head.to_owned()
        .concat(before.as_str())
        .concat(filter.as_str())
        .concat(after.as_str(layout))
        .concat(tail);
    assert(text@ =~= application_text_from(start, head@, before, alias@, layout, after, tail@));
    text
}

/// Narrows `alias` to the organization at `$1`, the project at `$2` and the
/// application at `$3`.
pub fn application(
    head: &str,
    before: Before,
    alias: &str,
    layout: Layout,
    after: After,
    tail: &str,
) -> (text: String)
    requires
        is_alias(alias@),
        after == After::End ==> tail@.len() == 0,
    ensures
        text@ == application_text(head@, before, alias@, layout, after, tail@),
        conditions_on_application(text@, Start::First),
{
    application_from(Start::First, head, before, alias, layout, after, tail)
}

/// A statement that filters by an application filters by its project.
pub proof fn application_filter_includes_project(
    statement: StatementView,
    start: Start,
    organization_id: Uuid,
    project_id: Uuid,
    application_id: Uuid,
)
    requires
        filters_by_application_from(statement, start, organization_id, project_id, application_id),
    ensures
        filters_by_project_from(statement, start, organization_id, project_id),
{
    let sql = statement.text;
    let (alias, layout): (Seq<char>, Layout) = choose|alias: Seq<char>, layout: Layout|
        is_alias(alias) && holds_condition(
            sql,
            #[trigger] application_filter(alias, layout, start),
            layout,
        );
    let first = project_filter(alias, layout, start);
    let rest = alias + "application_id"@ + layout.equals() + start.application();
    assert(application_filter(alias, layout, start) =~= first + layout.and() + rest);
    lemma_first_held(sql, first, rest, layout);
}

/// A statement that filters by a project filters by its organization.
pub proof fn project_filter_includes_organization(
    statement: StatementView,
    start: Start,
    organization_id: Uuid,
    project_id: Uuid,
)
    requires
        filters_by_project_from(statement, start, organization_id, project_id),
    ensures
        filters_by_organization_from(statement, start, organization_id),
{
    let sql = statement.text;
    let (alias, layout): (Seq<char>, Layout) = choose|alias: Seq<char>, layout: Layout|
        is_alias(alias) && holds_condition(
            sql,
            #[trigger] project_filter(alias, layout, start),
            layout,
        );
    let first = organization_filter(alias, layout, start);
    let rest = alias + "project_id"@ + layout.equals() + start.project();
    assert(project_filter(alias, layout, start) =~= first + layout.and() + rest);
    lemma_first_held(sql, first, rest, layout);
}

/// A statement filters by one application only: no two different tenant paths
/// that start at the same placeholder share a statement.
pub proof fn one_application_per_statement(
    statement: StatementView,
    start: Start,
    organization_id: Uuid,
    project_id: Uuid,
    application_id: Uuid,
    other_organization_id: Uuid,
    other_project_id: Uuid,
    other_application_id: Uuid,
)
    requires
        filters_by_application_from(statement, start, organization_id, project_id, application_id),
        filters_by_application_from(
            statement,
            start,
            other_organization_id,
            other_project_id,
            other_application_id,
        ),
    ensures
        organization_id == other_organization_id,
        project_id == other_project_id,
        application_id == other_application_id,
{
}

/// What a filter by a tenant path asks for, written out: the organization, the
/// project and the application of one table are the values that the path is bound
/// to, and nothing else is asked.
pub proof fn filters_are_written_so(alias: Seq<char>)
    ensures
        organization_filter(alias, Layout::Tight, Start::First) == alias + "organization_id=$1"@,
        organization_filter(alias, Layout::Tight, Start::Second) == alias + "organization_id=$2"@,
        organization_filter(alias, Layout::Spaced, Start::First) == alias
            + "organization_id = $1"@,
        organization_filter(alias, Layout::Lines, Start::Second) == alias
            + "organization_id = $2"@,
        project_filter(alias, Layout::Tight, Start::First) == alias + "organization_id=$1 AND "@
            + alias + "project_id=$2"@,
        project_filter(alias, Layout::Tight, Start::Second) == alias + "organization_id=$2 AND "@
            + alias + "project_id=$3"@,
        application_filter(alias, Layout::Tight, Start::First) == alias
            + "organization_id=$1 AND "@ + alias + "project_id=$2 AND "@ + alias
            + "application_id=$3"@,
        application_filter(alias, Layout::Tight, Start::Second) == alias
            + "organization_id=$2 AND "@ + alias + "project_id=$3 AND "@ + alias
            + "application_id=$4"@,
{
    reveal_strlit("organization_id");
    reveal_strlit("project_id");
    reveal_strlit("application_id");
    reveal_strlit("=");
    reveal_strlit(" = ");
    reveal_strlit(" AND ");
    reveal_strlit("$1");
    reveal_strlit("$2");
    reveal_strlit("$3");
    reveal_strlit("$4");
    reveal_strlit("organization_id=$1");
    reveal_strlit("organization_id=$2");
    reveal_strlit("organization_id = $1");
    reveal_strlit("organization_id = $2");
    reveal_strlit("organization_id=$1 AND ");
    reveal_strlit("organization_id=$2 AND ");
    reveal_strlit("project_id=$2");
    reveal_strlit("project_id=$3");
    reveal_strlit("project_id=$2 AND ");
    reveal_strlit("project_id=$3 AND ");
    reveal_strlit("application_id=$3");
    reveal_strlit("application_id=$4");
    assert("organization_id"@ + "="@ + "$1"@ =~= "organization_id=$1"@);
    assert("organization_id"@ + "="@ + "$2"@ =~= "organization_id=$2"@);
    assert("organization_id"@ + " = "@ + "$1"@ =~= "organization_id = $1"@);
    assert("organization_id"@ + " = "@ + "$2"@ =~= "organization_id = $2"@);
    assert("organization_id=$1"@ + " AND "@ =~= "organization_id=$1 AND "@);
    assert("organization_id=$2"@ + " AND "@ =~= "organization_id=$2 AND "@);
    assert("project_id"@ + "="@ + "$2"@ =~= "project_id=$2"@);
    assert("project_id"@ + "="@ + "$3"@ =~= "project_id=$3"@);
    assert("project_id=$2"@ + " AND "@ =~= "project_id=$2 AND "@);
    assert("project_id=$3"@ + " AND "@ =~= "project_id=$3 AND "@);
    assert("application_id"@ + "="@ + "$3"@ =~= "application_id=$3"@);
    assert("application_id"@ + "="@ + "$4"@ =~= "application_id=$4"@);
    lemma_filter_pieces(alias, Layout::Tight, Start::First);
    lemma_filter_pieces(alias, Layout::Tight, Start::Second);
    lemma_filter_pieces(alias, Layout::Spaced, Start::First);
    lemma_filter_pieces(alias, Layout::Lines, Start::Second);
}

/// The pieces of a filter, each read as one text.
proof fn lemma_filter_pieces(alias: Seq<char>, layout: Layout, start: Start)
    ensures
        ({
            let organization = "organization_id"@ + layout.equals() + start.organization();
            let project = "project_id"@ + layout.equals() + start.project();
            let application = "application_id"@ + layout.equals() + start.application();
            &&& organization_filter(alias, layout, start) == alias + organization
            &&& project_filter(alias, layout, start) == alias + (organization + layout.and())
                + alias + project
            &&& application_filter(alias, layout, start) == alias + (organization + layout.and())
                + alias + (project + layout.and()) + alias + application
        }),
{
    let organization = "organization_id"@ + layout.equals() + start.organization();
    let project = "project_id"@ + layout.equals() + start.project();
    let application = "application_id"@ + layout.equals() + start.application();
    assert(organization_filter(alias, layout, start) =~= alias + organization);
    assert(project_filter(alias, layout, start) =~= alias + (organization + layout.and()) + alias
        + project);
    assert(application_filter(alias, layout, start) =~= alias + (organization + layout.and())
        + alias + (project + layout.and()) + alias + application);
}

/// A filter stands behind a text and its keyword, and before what follows it.
pub proof fn filters_are_placed_so(
    start: Start,
    head: Seq<char>,
    before: Before,
    alias: Seq<char>,
    layout: Layout,
    after: After,
    tail: Seq<char>,
)
    ensures
        organization_text_from(start, head, before, alias, layout, after, tail) == head
            + before.text() + organization_filter(alias, layout, start) + after.text(layout) + tail,
        project_text_from(start, head, before, alias, layout, after, tail) == head + before.text()
            + project_filter(alias, layout, start) + after.text(layout) + tail,
        application_text_from(start, head, before, alias, layout, after, tail) == head
            + before.text() + application_filter(alias, layout, start) + after.text(layout) + tail,
        Before::Where.text() == "WHERE "@,
        Before::On.text() == "ON "@,
        Before::And.text() == "AND "@,
        After::And.text(Layout::Tight) == " AND "@,
        After::And.text(Layout::Spaced) == " AND "@,
        After::And.text(Layout::Lines) == "\n              AND "@,
        After::And.text(Layout::DeepLines) == "\n                  AND "@,
        After::GroupBy.text(layout) == " GROUP BY "@,
        After::OrderBy.text(layout) == " ORDER BY "@,
        After::Parenthesis.text(layout) == ")"@,
        After::Returning.text(layout) == " RETURNING "@,
        After::End.text(layout) == ""@,
{
}

/// A path that is not said to start elsewhere starts at the first value.
pub proof fn paths_start_at_the_first_value(
    head: Seq<char>,
    before: Before,
    alias: Seq<char>,
    layout: Layout,
    after: After,
    tail: Seq<char>,
)
    ensures
        organization_text(head, before, alias, layout, after, tail) == head + before.text()
            + organization_filter(alias, layout, Start::First) + after.text(layout) + tail,
        project_text(head, before, alias, layout, after, tail) == head + before.text()
            + project_filter(alias, layout, Start::First) + after.text(layout) + tail,
        application_text(head, before, alias, layout, after, tail) == head + before.text()
            + application_filter(alias, layout, Start::First) + after.text(layout) + tail,
{
}

/// A filter is on the whole path, each column beside its placeholder, in every
/// layout.
pub proof fn filters_are_on_the_whole_path(alias: Seq<char>, layout: Layout, start: Start)
    ensures
        organization_filter(alias, layout, start) == alias + "organization_id"@ + layout.equals()
            + start.organization(),
        project_filter(alias, layout, start) == organization_filter(alias, layout, start)
            + layout.and() + alias + "project_id"@ + layout.equals() + start.project(),
        application_filter(alias, layout, start) == project_filter(alias, layout, start)
            + layout.and() + alias + "application_id"@ + layout.equals() + start.application(),
        Layout::Tight.equals() == "="@,
        layout != Layout::Tight ==> layout.equals() == " = "@,
        Layout::Tight.and() == " AND "@,
        Layout::Spaced.and() == " AND "@,
        Layout::Lines.and() == "\n              AND "@,
        Layout::DeepLines.and() == "\n                  AND "@,
        Start::First.organization() == "$1"@,
        Start::First.project() == "$2"@,
        Start::First.application() == "$3"@,
        Start::Second.organization() == "$2"@,
        Start::Second.project() == "$3"@,
        Start::Second.application() == "$4"@,
{
}

} // verus!
