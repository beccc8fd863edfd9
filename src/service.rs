//! The query layer's own work for each operation: the statement to run, and
//! what to make of the database's answer. Running the statement is left to
//! the caller, who hands the driver's result back.
use vstd::prelude::*;

use crate::error::RepoError;
use crate::model::{BookRow, CreateBookRequest, QueryBookRequest};
use crate::sql::{
    Rendered, decimal, lemma_column_names_plain, bound_values, filter_columns, filter_values, plain_ident, render_insert, render_select,
    select_sql,
};
use crate::statement::{
    BOOK_TABLE, BookColumn, Param, ParamView, fetch_conditions, fetch_filters, find_conditions,
    find_filters, list_filters,
};

verus! {

#[verifier::external_type_specification]
#[verifier::external_body]
pub struct ExSqlxError(sqlx::Error);

/// The table's name is a plain identifier.
proof fn lemma_book_table_plain()
    ensures
        plain_ident(BOOK_TABLE@),
{
    reveal_strlit("book");
}

/// The HTTP status of a created book.
pub const STATUS_CREATED: u16 = 201;

/// The HTTP status of a found book or of a list of books.
pub const STATUS_OK: u16 = 200;

/// The HTTP status of a fetch that found nothing.
pub const STATUS_NO_CONTENT: u16 = 204;

/// The statement that fetches the book with the id: `SELECT *` with the
/// filter `id = $1`.
pub fn fetch_book_statement(id: i32) -> (r: Rendered)
    ensures
        r.0@ == select_sql(BOOK_TABLE@, filter_columns(fetch_filters(id as int))),
        r.0@ == "SELECT * FROM \"book\" WHERE \"id\" = $1"@,
        bound_values(r.1) == filter_values(fetch_filters(id as int)),
{
    let conditions = fetch_conditions(id);
    proof {
        lemma_book_table_plain();
    }
    let r = render_select(BOOK_TABLE, &conditions);
    proof {
        reveal_strlit("book");
        reveal_strlit("id");
        reveal_strlit("SELECT * FROM ");
        reveal_strlit(" WHERE ");
        reveal_strlit(" = $");
        reveal_strlit("SELECT * FROM \"book\" WHERE \"id\" = $1");
        let cols = filter_columns(fetch_filters(id as int));
        assert(cols =~= seq!["id"@]);
        assert(decimal(1) =~= seq!['1']);
        assert(r.0@ =~= "SELECT * FROM \"book\" WHERE \"id\" = $1"@);
    }
    r
}

/// The outcome of a fetch by id: the row, or its absence, as the driver
/// returned it; a driver failure becomes a fetch failure.
pub fn fetch_book_result(res: Result<Option<BookRow>, sqlx::Error>, id: i32) -> (r: Result<Option<BookRow>, RepoError>)
    ensures
        res is Ok ==> r is Ok && r->Ok_0 == res->Ok_0,
        res is Err ==> r == Err::<Option<BookRow>, RepoError>(RepoError::FetchBookError),
{
    match res {
        Ok(book) => Ok(book),
        Err(e) => Err(map_sql_fetch_error(e, id)),
    }
}

/// The HTTP status of a fetch: 200 with the book, 204 without one.
pub fn fetch_book_status(book: &Option<BookRow>) -> (r: u16)
    ensures
        book is Some ==> r == STATUS_OK,
        book is None ==> r == STATUS_NO_CONTENT,
{
    match book {
        Some(_) => STATUS_OK,
        None => STATUS_NO_CONTENT,
    }
}

/// The insert of a new book, returning its generated id: name and author
/// are bound as parameters, in that order. Placing the two values into the
/// two columns always succeeds.
pub fn create_book_statement(req: &CreateBookRequest) -> (r: Result<Rendered, RepoError>)
    ensures
        r is Ok,
        r is Ok ==> r->Ok_0.0@ == "INSERT INTO \"book\" (\"name\", \"author\") VALUES ($1, $2) RETURNING \"id\""@,
        r is Ok ==> bound_values(r->Ok_0.1) == seq![ParamView::Text(req.name@), ParamView::Text(req.author@)],
{
    let name = Param::Text(req.name.clone());
    let author = Param::Text(req.author.clone());
    proof {
        lemma_book_table_plain();
        lemma_column_names_plain(BookColumn::Name);
        lemma_column_names_plain(BookColumn::Author);
        lemma_column_names_plain(BookColumn::Id);
    }
    let rendered = render_insert(
        BOOK_TABLE,
        BookColumn::Name.ident(),
        BookColumn::Author.ident(),
        BookColumn::Id.ident(),
        &name,
        &author,
    );
    proof {
        reveal_strlit("book");
        reveal_strlit("name");
        reveal_strlit("author");
        reveal_strlit("id");
        reveal_strlit("INSERT INTO ");
        reveal_strlit(" (");
        reveal_strlit(", ");
        reveal_strlit(") VALUES ($1, $2) RETURNING ");
        reveal_strlit("INSERT INTO \"book\" (\"name\", \"author\") VALUES ($1, $2) RETURNING \"id\"");
        if rendered is Ok {
            assert(rendered->Ok_0.0@ =~= "INSERT INTO \"book\" (\"name\", \"author\") VALUES ($1, $2) RETURNING \"id\""@);
        }
    }
    match rendered {
        Ok(rendered) => Ok(rendered),
        Err(e) => Err(map_create_values_error(e, req)),
    }
}

/// The outcome of running the insert and reading the id it returned: a
/// failure of either becomes a create failure.
pub fn created_id_result(res: Result<i32, sqlx::Error>, req: &CreateBookRequest) -> (r: Result<i32, RepoError>)
    ensures
        res is Ok ==> r == Ok::<i32, RepoError>(res->Ok_0),
        res is Err ==> r == Err::<i32, RepoError>(RepoError::CreateBookError),
{
    match res {
        Ok(id) => Ok(id),
        Err(e) => Err(map_create_error(e, req)),
    }
}

/// The outcome of the fetch that follows an insert: the book found; a
/// failure of the fetch as it came; no book at all is a create failure,
/// since a row just inserted must be found.
pub fn created_book_result(fetched: Result<Option<BookRow>, RepoError>) -> (r: Result<BookRow, RepoError>)
    ensures
        fetched matches Ok(Some(b)) ==> r == Ok::<BookRow, RepoError>(b),
        fetched matches Ok(None) ==> r == Err::<BookRow, RepoError>(RepoError::CreateBookError),
        fetched matches Err(e) ==> r == Err::<BookRow, RepoError>(e),
{
    match fetched {
        Ok(Some(book)) => Ok(book),
        Ok(None) => Err(RepoError::CreateBookError),
        Err(e) => Err(e),
    }
}

/// The statement that lists every book: `SELECT *` with no filter.
pub fn list_books_statement() -> (r: Rendered)
    ensures
        r.0@ == select_sql(BOOK_TABLE@, filter_columns(list_filters())),
        r.0@ == "SELECT * FROM \"book\""@,
        bound_values(r.1) == filter_values(list_filters()),
{
    let conditions: Vec<crate::statement::Condition> = Vec::new();
    proof {
        assert(crate::statement::views(conditions@) =~= list_filters());
        lemma_book_table_plain();
    }
    let r = render_select(BOOK_TABLE, &conditions);
    proof {
        reveal_strlit("book");
        reveal_strlit("SELECT * FROM ");
        reveal_strlit("SELECT * FROM \"book\"");
        assert(filter_columns(list_filters()).len() == 0);
        assert(r.0@ =~= "SELECT * FROM \"book\""@);
    }
    r
}

/// The outcome of a list: the rows as the driver returned them; a driver
/// failure becomes a list failure.
pub fn list_books_result(res: Result<Vec<BookRow>, sqlx::Error>) -> (r: Result<Vec<BookRow>, RepoError>)
    ensures
        res is Ok ==> r is Ok && r->Ok_0 == res->Ok_0,
        res is Err ==> r == Err::<Vec<BookRow>, RepoError>(RepoError::ListBookError),
{
    match res {
        Ok(books) => Ok(books),
        Err(e) => Err(map_sql_list_error(e)),
    }
}

/// The statement of a search: `SELECT *` with one equality filter for each
/// field the request holds (author first, then name), joined with AND and
/// bound as parameters.
pub fn find_books_statement(q: &QueryBookRequest) -> (r: Rendered)
    ensures
        r.0@ == select_sql(BOOK_TABLE@, filter_columns(find_filters(*q))),
        bound_values(r.1) == filter_values(find_filters(*q)),
{
    let conditions = find_conditions(q);
    proof {
        lemma_book_table_plain();
    }
    render_select(BOOK_TABLE, &conditions)
}

/// The outcome of a search: the rows as the driver returned them; a driver
/// failure becomes a search failure.
pub fn find_books_result(res: Result<Vec<BookRow>, sqlx::Error>, q: &QueryBookRequest) -> (r: Result<Vec<BookRow>, RepoError>)
    ensures
        res is Ok ==> r is Ok && r->Ok_0 == res->Ok_0,
        res is Err ==> r == Err::<Vec<BookRow>, RepoError>(RepoError::QueryBookError),
{
    match res {
        Ok(books) => Ok(books),
        Err(e) => Err(map_find_error(e, q)),
    }
}

fn map_sql_fetch_error(err: sqlx::Error, id: i32) -> (r: RepoError)
    ensures
        r == RepoError::FetchBookError,
{
    RepoError::FetchBookError
}

fn map_sql_list_error(err: sqlx::Error) -> (r: RepoError)
    ensures
        r == RepoError::ListBookError,
{
    RepoError::ListBookError
}

fn map_create_values_error(err: sea_query::error::Error, req: &CreateBookRequest) -> (r: RepoError)
    ensures
        r == RepoError::CreateBookValuesError,
{
    RepoError::CreateBookValuesError
}

fn map_create_error(err: sqlx::Error, req: &CreateBookRequest) -> (r: RepoError)
    ensures
        r == RepoError::CreateBookError,
{
    RepoError::CreateBookError
}

fn map_find_error(err: sqlx::Error, q: &QueryBookRequest) -> (r: RepoError)
    ensures
        r == RepoError::QueryBookError,
{
    RepoError::QueryBookError
}

} // verus!
