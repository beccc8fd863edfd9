//! What holds of the statements when they run on a table, stated over the
//! model of the table as a sequence of book values.
use vstd::prelude::*;

use crate::model::{BookView, CreateBookRequest, QueryBookRequest};
use crate::sql::{filter_columns, select_sql};
use crate::statement::{
    BookColumn, ConditionView, ParamView, fetch_filters, fetched, find_filters, has_id, holds,
    holds_all, inserted, list_filters, selected,
};

verus! {

/// A row is selected exactly when it is in the table and passes every filter.
pub proof fn lemma_selected_contains(table: Seq<BookView>, cs: Seq<ConditionView>, b: BookView)
    ensures
        selected(table, cs).contains(b) <==> (table.contains(b) && holds_all(cs, b)),
    decreases table.len(),
{
    if table.len() > 0 {
        lemma_selected_contains(table.drop_last(), cs, b);
        assert(table =~= table.drop_last().push(table.last()));
        if table.contains(b) && b != table.last() {
            let i = choose|i: int| 0 <= i < table.len() && table[i] == b;
            assert(table.drop_last()[i] == b);
        }
        if table.drop_last().contains(b) {
            let i = choose|i: int| 0 <= i < table.drop_last().len() && table.drop_last()[i] == b;
            assert(table[i] == b);
        }
        let rest = selected(table.drop_last(), cs);
        if holds_all(cs, table.last()) {
            assert(rest.push(table.last())[rest.len() as int] == table.last());
            if rest.push(table.last()).contains(b) && b != table.last() {
                let i = choose|i: int| 0 <= i < rest.len() + 1 && rest.push(table.last())[i] == b;
                assert(rest[i] == b);
            }
            if rest.contains(b) {
                let i = choose|i: int| 0 <= i < rest.len() && rest[i] == b;
                assert(rest.push(table.last())[i] == b);
            }
        }
    }
}

/// Without filters a select returns the whole table, in order.
pub proof fn lemma_selected_all(table: Seq<BookView>)
    ensures
        selected(table, list_filters()) == table,
    decreases table.len(),
{
    if table.len() > 0 {
        lemma_selected_all(table.drop_last());
        assert(holds_all(list_filters(), table.last()));
        assert(table =~= table.drop_last().push(table.last()));
    }
}

/// A select returns nothing when no row of the table passes the filters.
proof fn lemma_selected_none(table: Seq<BookView>, cs: Seq<ConditionView>)
    requires
        forall|i: int| 0 <= i < table.len() ==> !holds_all(cs, #[trigger] table[i]),
    ensures
        selected(table, cs).len() == 0,
{
    let rows = selected(table, cs);
    if rows.len() > 0 {
        lemma_selected_contains(table, cs, rows[0]);
        assert(rows.contains(rows[0]));
    }
}

/// The book with a given id passes the fetch filter of that id, and only it.
proof fn lemma_fetch_filter(id: int, b: BookView)
    ensures
        holds_all(fetch_filters(id), b) <==> b.id == id,
{
    let cs = fetch_filters(id);
    if b.id == id {
        assert forall|i: int| 0 <= i < cs.len() implies #[trigger] holds(cs[i], b) by {}
    }
    if holds_all(cs, b) {
        assert(holds(cs[0], b));
    }
}

/// A book inserted under an id that the table did not hold is what a fetch
/// of that id then returns: the same id, name and author.
pub proof fn create_then_fetch(table: Seq<BookView>, id: int, req: CreateBookRequest)
    requires
        !has_id(table, id),
    ensures
        fetched(inserted(table, id, req), id) == Some(
            BookView { id, name: req.name@, author: req.author@ },
        ),
{
    let new_book = BookView { id, name: req.name@, author: req.author@ };
    let t = inserted(table, id, req);
    assert forall|i: int| 0 <= i < table.len() implies !holds_all(fetch_filters(id), #[trigger] table[i]) by {
        lemma_fetch_filter(id, table[i]);
    }
    lemma_selected_none(table, fetch_filters(id));
    lemma_fetch_filter(id, new_book);
    assert(t.drop_last() =~= table);
    assert(t.last() == new_book);
}

/// Fetching an id that no book of the table has returns nothing.
pub proof fn fetch_absent(table: Seq<BookView>, id: int)
    requires
        !has_id(table, id),
    ensures
        fetched(table, id) is None,
{
    assert forall|i: int| 0 <= i < table.len() implies !holds_all(fetch_filters(id), #[trigger] table[i]) by {
        lemma_fetch_filter(id, table[i]);
    }
    lemma_selected_none(table, fetch_filters(id));
}

/// Listing an empty table returns nothing; listing any table returns one
/// entry per book, and one more after each insert.
pub proof fn list_counts(table: Seq<BookView>, id: int, req: CreateBookRequest)
    ensures
        selected(Seq::<BookView>::empty(), list_filters()).len() == 0,
        selected(table, list_filters()).len() == table.len(),
        selected(inserted(table, id, req), list_filters()).len() == table.len() + 1,
{
    lemma_selected_all(table);
    lemma_selected_all(inserted(table, id, req));
}

/// A search without filters returns what the list of all books returns.
pub proof fn find_unfiltered_is_list(table: Seq<BookView>, q: QueryBookRequest)
    requires
        q.name is None,
        q.author is None,
    ensures
        selected(table, find_filters(q)) == selected(table, list_filters()),
{
    assert(find_filters(q) =~= list_filters());
}

/// A search by author alone returns exactly the books of the table whose
/// author equals the given one, whatever their name.
pub proof fn find_by_author(table: Seq<BookView>, q: QueryBookRequest, b: BookView)
    requires
        q.name is None,
        q.author is Some,
    ensures
        selected(table, find_filters(q)).contains(b) <==> (table.contains(b) && b.author
            == q.author->Some_0@),
{
    let cs = find_filters(q);
    lemma_selected_contains(table, cs, b);
    if b.author == q.author->Some_0@ {
        assert forall|i: int| 0 <= i < cs.len() implies #[trigger] holds(cs[i], b) by {}
    }
    if holds_all(cs, b) {
        assert(holds(cs[0], b));
    }
}

/// A search by name and author returns exactly the books of the table that
/// match both: a book that matches only one is left out.
pub proof fn find_by_name_and_author(table: Seq<BookView>, q: QueryBookRequest, b: BookView)
    requires
        q.name is Some,
        q.author is Some,
    ensures
        selected(table, find_filters(q)).contains(b) <==> (table.contains(b) && b.name
            == q.name->Some_0@ && b.author == q.author->Some_0@),
{
    let cs = find_filters(q);
    lemma_selected_contains(table, cs, b);
    if b.name == q.name->Some_0@ && b.author == q.author->Some_0@ {
        assert forall|i: int| 0 <= i < cs.len() implies #[trigger] holds(cs[i], b) by {}
    }
    if holds_all(cs, b) {
        assert(holds(cs[0], b));
        assert(holds(cs[1], b));
    }
}

/// The text of a search depends only on which fields the request holds,
/// never on their values, which are bound as parameters.
pub proof fn find_text_depends_on_presence(table_name: Seq<char>, q1: QueryBookRequest, q2: QueryBookRequest)
    requires
        q1.name is Some <==> q2.name is Some,
        q1.author is Some <==> q2.author is Some,
    ensures
        select_sql(table_name, filter_columns(find_filters(q1))) == select_sql(
            table_name,
            filter_columns(find_filters(q2)),
        ),
{
    assert(filter_columns(find_filters(q1)) =~= filter_columns(find_filters(q2)));
}

} // verus!
