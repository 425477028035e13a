//! Texts: how the text of a statement is put together, and what it holds.

use vstd::prelude::*;

use crate::tenant;
use crate::tenant::Start;

verus! {

/// Whether `text` holds `part`.
pub open spec fn holds(text: Seq<char>, part: Seq<char>) -> bool {
    exists|at: int| #[trigger] holds_at(text, part, at)
}

/// Whether `text` holds `part` from the character `at` on.
pub open spec fn holds_at(text: Seq<char>, part: Seq<char>, at: int) -> bool {
    &&& 0 <= at
    &&& at + part.len() <= text.len()
    &&& text.subrange(at, at + part.len()) == part
}

/// What a text holds, it holds behind another text too.
pub proof fn lemma_held_behind(before: Seq<char>, text: Seq<char>, held: Seq<char>)
    requires
        holds(text, held),
    ensures
        holds(before + text, held),
{
    let at = choose|at: int| #[trigger] holds_at(text, held, at);
    let from = before.len() + at;
    assert((before + text).subrange(from, from + held.len()) =~= text.subrange(
        at,
        at + held.len(),
    ));
    assert(holds_at(before + text, held, from));
}

/// A filter between its keywords can be read as one text.
pub proof fn lemma_filter_as_one(
    head: Seq<char>,
    before: Seq<char>,
    filter: Seq<char>,
    after: Seq<char>,
    first: Seq<char>,
    second: Seq<char>,
    third: Seq<char>,
)
    ensures
        head + before + filter + after + (first + second + third) == head + (before + filter
            + after) + first + second + third,
{
    assert(head + before + filter + after + (first + second + third) =~= head + (before + filter
        + after) + first + second + third);
}

/// A selection behind another text can be read piece by piece.
pub proof fn lemma_selection_in_pieces(
    head: Seq<char>,
    lead: Seq<char>,
    select: Seq<char>,
    columns: Seq<char>,
    from: Seq<char>,
    rest: Seq<char>,
)
    ensures
        head + (lead + (select + columns + from + rest)) == head + lead + select + columns + from
            + rest,
{
    assert(head + (lead + (select + columns + from + rest)) =~= head + lead + select + columns
        + from + rest);
}

/// The text that selects `columns` from what `rest` names.
pub open spec fn select_text(columns: Seq<char>, rest: Seq<char>) -> Seq<char> {
    "SELECT "@ + columns + " FROM "@ + rest
}

/// The text that does what `body` says and returns `columns`.
pub open spec fn returning_text(body: Seq<char>, columns: Seq<char>) -> Seq<char> {
    body + " RETURNING "@ + columns
}

/// Whether a text gives back `columns`: it holds a selection of exactly these,
/// or ends by returning exactly these from the rows that it writes.
pub open spec fn gives(text: Seq<char>, columns: Seq<char>) -> bool {
    ||| holds(text, "SELECT "@ + columns + " FROM "@)
    ||| (" RETURNING "@ + columns).is_suffix_of(text)
}

/// What a text gives back, it gives back behind another text too.
pub proof fn lemma_given_behind(before: Seq<char>, text: Seq<char>, columns: Seq<char>)
    requires
        gives(text, columns),
    ensures
        gives(before + text, columns),
{
    let selected = "SELECT "@ + columns + " FROM "@;
    let returned = " RETURNING "@ + columns;
    if holds(text, selected) {
        lemma_held_behind(before, text, selected);
    } else {
        assert(returned.is_suffix_of(before + text));
    }
}

/// Two texts, one after the other.
pub fn join(first: &str, second: &str) -> (text: String)
    ensures
        text@ == first@ + second@,
{
    first.to_owned().concat(second)
}

/// Selects `columns` from what `rest` names.
pub fn select(columns: &str, rest: &str) -> (text: String)
    ensures
        text@ == select_text(columns@, rest@),
        gives(text@, columns@),
        tenant::conditions_on_organization(rest@, Start::First)
            ==> tenant::conditions_on_organization(text@, Start::First),
        tenant::conditions_on_project(rest@, Start::First)
            ==> tenant::conditions_on_project(text@, Start::First),
        tenant::conditions_on_application(rest@, Start::First)
            ==> tenant::conditions_on_application(text@, Start::First),
{
    let text = "SELECT ".to_owned().concat(columns).concat(" FROM ").concat(rest);
    proof {
        let head = "SELECT "@ + columns@ + " FROM "@;
        assert(text@.subrange(0, head.len() as int) =~= head);
        assert(holds_at(text@, head, 0));
        tenant::lemma_conditions_behind(head, rest@, Start::First);
    }
    text
}

/// Does what `body` says and returns `columns`.
pub fn returning(body: &str, columns: &str) -> (text: String)
    ensures
        text@ == returning_text(body@, columns@),
        gives(text@, columns@),
        tenant::conditions_on_organization(body@, Start::First)
            ==> tenant::conditions_on_organization(text@, Start::First),
        tenant::conditions_on_project(body@, Start::First)
            ==> tenant::conditions_on_project(text@, Start::First),
        tenant::conditions_on_application(body@, Start::First)
            ==> tenant::conditions_on_application(text@, Start::First),
{
    let text = body.to_owned().concat(" RETURNING ").concat(columns);
    proof {
        assert((" RETURNING "@ + columns@).is_suffix_of(text@));
        tenant::lemma_conditions_before_returning(body@, columns@, Start::First);
    }
    text
}

/// Columns are selected and returned so.
pub proof fn columns_are_given_so(columns: Seq<char>, body: Seq<char>)
    ensures
        select_text(columns, body) == "SELECT "@ + columns + " FROM "@ + body,
        returning_text(body, columns) == body + " RETURNING "@ + columns,
{
}

} // verus!
