//! The statements this library runs against the `book` table, described by
//! their equality filters, and what running them on a table yields.
use vstd::prelude::*;

use crate::model::{BookView, CreateBookRequest, QueryBookRequest};

verus! {

/// The name of the table that holds the books.
pub const BOOK_TABLE: &'static str = "book";

/// A column of the `book` table.
#[derive(Debug, Clone, Copy, PartialEq, Eq, Structural)]
pub enum BookColumn {
    Id,
    Name,
    Author,
}

/// The column's name in SQL.
pub open spec fn column_name(c: BookColumn) -> Seq<char> {
    match c {
        BookColumn::Id => "id"@,
        BookColumn::Name => "name"@,
        BookColumn::Author => "author"@,
    }
}

impl BookColumn {
    /// The column's name in SQL.
    pub fn ident(&self) -> (r: &'static str)
        ensures
            r@ == column_name(*self),
    {
        match self {
            BookColumn::Id => "id",
            BookColumn::Name => "name",
            BookColumn::Author => "author",
        }
    }
}

/// A value bound to a placeholder of a statement.
#[derive(Debug, Clone, PartialEq, Eq)]
pub enum Param {
    Int(i32),
    Text(String),
}

/// The mathematical value of a bound parameter.
pub enum ParamView {
    Int(int),
    Text(Seq<char>),
}

impl View for Param {
    type V = ParamView;

    open spec fn view(&self) -> ParamView {
        match self {
            Param::Int(i) => ParamView::Int(*i as int),
            Param::Text(s) => ParamView::Text(s@),
        }
    }
}

/// An equality filter `column = value`, the value bound as a parameter.
#[derive(Debug, Clone, PartialEq, Eq)]
pub struct Condition {
    pub column: BookColumn,
    pub value: Param,
}

/// The mathematical value of a filter.
pub struct ConditionView {
    pub column: BookColumn,
    pub value: ParamView,
}

impl View for Condition {
    type V = ConditionView;

    open spec fn view(&self) -> ConditionView {
        ConditionView { column: self.column, value: self.value@ }
    }
}

/// The views of a sequence of filters.
pub open spec fn views(cs: Seq<Condition>) -> Seq<ConditionView> {
    cs.map_values(|c: Condition| c@)
}

/// The value that a book holds in a column.
pub open spec fn column_value(b: BookView, c: BookColumn) -> ParamView {
    match c {
        BookColumn::Id => ParamView::Int(b.id),
        BookColumn::Name => ParamView::Text(b.name),
        BookColumn::Author => ParamView::Text(b.author),
    }
}

/// Whether a book passes one filter: the value in its column equals the
/// bound value exactly.
pub open spec fn holds(c: ConditionView, b: BookView) -> bool {
    column_value(b, c.column) == c.value
}

/// Whether a book passes every filter (the filters are joined with AND).
pub open spec fn holds_all(cs: Seq<ConditionView>, b: BookView) -> bool {
    forall|i: int| 0 <= i < cs.len() ==> #[trigger] holds(cs[i], b)
}

/// The rows that a select with the filters `cs` returns from `table`: the
/// rows that PostgreSQL gives for the text `select_sql(name, filter_columns(cs))`
/// with `filter_values(cs)` bound, which is what the statements of the
/// service render. No order is asked of the database; the model lists the
/// rows in table order.
pub open spec fn selected(table: Seq<BookView>, cs: Seq<ConditionView>) -> Seq<BookView>
    decreases table.len(),
{
    if table.len() == 0 {
        Seq::empty()
    } else {
        let rest = selected(table.drop_last(), cs);
        if holds_all(cs, table.last()) {
            rest.push(table.last())
        } else {
            rest
        }
    }
}

/// Whether some book of the table has the id.
pub open spec fn has_id(table: Seq<BookView>, id: int) -> bool {
    exists|i: int| 0 <= i < table.len() && #[trigger] table[i].id == id
}

/// The filters of the fetch by id.
pub open spec fn fetch_filters(id: int) -> Seq<ConditionView> {
    seq![ConditionView { column: BookColumn::Id, value: ParamView::Int(id) }]
}

/// The filters of the list of all books: none.
pub open spec fn list_filters() -> Seq<ConditionView> {
    Seq::empty()
}

/// The filters of a search: the author's, if given, then the name's, if given.
pub open spec fn find_filters(q: QueryBookRequest) -> Seq<ConditionView> {
    let by_author = match q.author {
        Some(a) => seq![ConditionView { column: BookColumn::Author, value: ParamView::Text(a@) }],
        None => Seq::empty(),
    };
    let by_name = match q.name {
        Some(n) => seq![ConditionView { column: BookColumn::Name, value: ParamView::Text(n@) }],
        None => Seq::empty(),
    };
    by_author + by_name
}

/// What fetching the id from `table` yields: the first row with that id, if any.
pub open spec fn fetched(table: Seq<BookView>, id: int) -> Option<BookView> {
    let rows = selected(table, fetch_filters(id));
    if rows.len() == 0 {
        None
    } else {
        Some(rows[0])
    }
}

/// The table after inserting a book that the database gave the id `id`.
pub open spec fn inserted(table: Seq<BookView>, id: int, req: CreateBookRequest) -> Seq<BookView> {
    table.push(BookView { id, name: req.name@, author: req.author@ })
}

/// The filters of the fetch of the book with the id.
pub fn fetch_conditions(id: i32) -> (r: Vec<Condition>)
    ensures
        views(r@) == fetch_filters(id as int),
{
    let r = vec![Condition { column: BookColumn::Id, value: Param::Int(id) }];
    assert(views(r@) =~= fetch_filters(id as int));
    r
}

/// The filters of a search, built by appending one filter for each field
/// that the request holds.
pub fn find_conditions(q: &QueryBookRequest) -> (r: Vec<Condition>)
    ensures
        views(r@) == find_filters(*q),
{
    let mut r: Vec<Condition> = Vec::new();
    if let Some(a) = &q.author {
        r.push(Condition { column: BookColumn::Author, value: Param::Text(a.clone()) });
    }
    if let Some(n) = &q.name {
        r.push(Condition { column: BookColumn::Name, value: Param::Text(n.clone()) });
    }
    assert(views(r@) =~= find_filters(*q));
    r
}

} // verus!
