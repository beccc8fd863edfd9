//! Rendering of the statements as PostgreSQL text with bound parameters,
//! through sea_query's statement builders.
use vstd::prelude::*;

use sea_query::{Alias, Asterisk, Expr, PostgresQueryBuilder, Query, QueryStatementWriter};

use crate::statement::{BookColumn, Condition, ConditionView, Param, ParamView, column_name, views};

verus! {

#[verifier::external_type_specification]
#[verifier::external_body]
pub struct ExSelectStatement(sea_query::SelectStatement);

#[verifier::external_type_specification]
#[verifier::external_body]
pub struct ExInsertStatement(sea_query::InsertStatement);

#[verifier::external_type_specification]
#[verifier::external_body]
pub struct ExValues(sea_query::Values);

#[verifier::external_type_specification]
#[verifier::external_body]
pub struct ExQueryError(sea_query::error::Error);

/// The table that a select statement reads from.
pub uninterp spec fn select_table(s: sea_query::SelectStatement) -> Seq<char>;

/// The equality filters of a select statement joined with AND, in order:
/// each as column name and bound value.
pub uninterp spec fn select_filters(s: sea_query::SelectStatement) -> Seq<(Seq<char>, ParamView)>;

/// The table that an insert statement writes into.
pub uninterp spec fn insert_table(s: sea_query::InsertStatement) -> Seq<char>;

/// The column whose value an insert statement returns.
pub uninterp spec fn insert_returning(s: sea_query::InsertStatement) -> Seq<char>;

/// The columns that an insert statement fills, in order.
pub uninterp spec fn insert_columns(s: sea_query::InsertStatement) -> Seq<Seq<char>>;

/// The rows of values that an insert statement holds, in order.
pub uninterp spec fn insert_rows(s: sea_query::InsertStatement) -> Seq<Seq<ParamView>>;

/// The parameters that a built statement binds, in placeholder order.
pub uninterp spec fn bound_values(v: sea_query::Values) -> Seq<ParamView>;

/// Whether an identifier holds no double quote, so that quoting it is only
/// wrapping it in double quotes (PostgreSQL doubles a quote inside).
pub open spec fn plain_ident(ident: Seq<char>) -> bool {
    forall|i: int| 0 <= i < ident.len() ==> ident[i] != '"'
}

/// An identifier as PostgreSQL quotes it: `"ident"`.
pub open spec fn quoted(ident: Seq<char>) -> Seq<char> {
    seq!['"'] + ident + seq!['"']
}

/// The decimal digit of a number below ten.
pub open spec fn digit(d: nat) -> char {
    seq!['0', '1', '2', '3', '4', '5', '6', '7', '8', '9'][d as int]
}

/// A natural number written in decimal, without leading zeros.
pub open spec fn decimal(n: nat) -> Seq<char>
    decreases n,
{
    if n < 10 {
        seq![digit(n)]
    } else {
        decimal(n / 10).push(digit(n % 10))
    }
}

/// The filter `"column" = $n`.
pub open spec fn equals_placeholder(column: Seq<char>, n: nat) -> Seq<char> {
    quoted(column) + " = $"@ + decimal(n)
}

/// The filters on the columns, the i-th compared with placeholder `$i`
/// (from 1), joined with ` AND `.
pub open spec fn filters_sql(columns: Seq<Seq<char>>) -> Seq<char>
    decreases columns.len(),
{
    if columns.len() == 0 {
        Seq::empty()
    } else if columns.len() == 1 {
        equals_placeholder(columns[0], 1)
    } else {
        filters_sql(columns.drop_last()) + " AND "@ + equals_placeholder(
            columns.last(),
            columns.len(),
        )
    }
}

/// The text of `SELECT *` from the table, with an equality filter on each
/// of the columns, joined with AND.
pub open spec fn select_sql(table: Seq<char>, columns: Seq<Seq<char>>) -> Seq<char> {
    "SELECT * FROM "@ + quoted(table) + if columns.len() == 0 {
        Seq::<char>::empty()
    } else {
        " WHERE "@ + filters_sql(columns)
    }
}

/// The text of an insert of one row of two values into the two columns,
/// returning a column.
pub open spec fn insert_sql(table: Seq<char>, first: Seq<char>, second: Seq<char>, returning: Seq<char>) -> Seq<char> {
    "INSERT INTO "@ + quoted(table) + " ("@ + quoted(first) + ", "@ + quoted(second)
        + ") VALUES ($1, $2) RETURNING "@ + quoted(returning)
}

/// A statement rendered for PostgreSQL: its text, with placeholders `$1`,
/// `$2`, ..., and the values bound to them.
pub type Rendered = (String, sea_query::Values);

/// Relies on `Query::select` with `SelectStatement::column(Asterisk)` and
/// `SelectStatement::from`: a `SELECT *` from the table, with no filter yet.
#[verifier::external_body]
fn select_all_from(table: &str) -> (r: sea_query::SelectStatement)
    ensures
        select_table(r) == table@,
        select_filters(r) == Seq::<(Seq<char>, ParamView)>::empty(),
{
    Query::select().column(Asterisk).from(Alias::new(table)).to_owned()
}

/// Relies on `SelectStatement::and_where` with `Expr::col(..).eq(..)`: the
/// filter `column = value` is appended and joined to the others with AND.
#[verifier::external_body]
fn and_where_eq(s: &mut sea_query::SelectStatement, column: &str, value: &Param)
    ensures
        select_table(*final(s)) == select_table(*old(s)),
        select_filters(*final(s)) == select_filters(*old(s)).push((column@, value@)),
{
    let v: sea_query::Value = match value {
        Param::Int(i) => (*i).into(),
        Param::Text(t) => t.as_str().into(),
    };
    s.and_where(Expr::col(Alias::new(column)).eq(v));
}

/// Relies on `QueryStatementWriter::build` with `PostgresQueryBuilder`: the
/// statements here select `*` from one table with equality filters joined by
/// AND, so the text is `SELECT * FROM "table" WHERE "c1" = $1 AND ...`, each
/// identifier quoted, and the only values bound are those of the filters, in
/// their order.
#[verifier::external_body]
fn build_select(s: &sea_query::SelectStatement) -> (r: Rendered)
    requires
        plain_ident(select_table(*s)),
        forall|i: int| 0 <= i < select_filters(*s).len() ==> plain_ident(#[trigger] select_filters(*s)[i].0),
    ensures
        r.0@ == select_sql(select_table(*s), select_filters(*s).map_values(|f: (Seq<char>, ParamView)| f.0)),
        bound_values(r.1) == select_filters(*s).map_values(|f: (Seq<char>, ParamView)| f.1),
{
    s.build(PostgresQueryBuilder)
}

/// Relies on `Query::insert` with `InsertStatement::into_table`, `::columns`
/// and `::returning_col`: an insert into the two columns that returns the
/// third, with no row of values yet.
#[verifier::external_body]
fn insert_into(table: &str, first: &str, second: &str, returning: &str) -> (r: sea_query::InsertStatement)
    ensures
        insert_table(r) == table@,
        insert_returning(r) == returning@,
        insert_columns(r) == seq![first@, second@],
        insert_rows(r) == Seq::<Seq<ParamView>>::empty(),
{
    Query::insert()
        .into_table(Alias::new(table))
        .columns([Alias::new(first), Alias::new(second)])
        .returning_col(Alias::new(returning))
        .to_owned()
}

/// Relies on `InsertStatement::values`: it fails when the number of values
/// (here two) differs from the number of columns, and then leaves the
/// statement as it was; else it appends the values as a row.
#[verifier::external_body]
fn insert_values(s: &mut sea_query::InsertStatement, first: &Param, second: &Param) -> (r: Result<(), sea_query::error::Error>)
    ensures
        r is Err <==> insert_columns(*old(s)).len() != 2,
        insert_table(*final(s)) == insert_table(*old(s)),
        insert_returning(*final(s)) == insert_returning(*old(s)),
        insert_columns(*final(s)) == insert_columns(*old(s)),
        r is Ok ==> insert_rows(*final(s)) == insert_rows(*old(s)).push(seq![first@, second@]),
        r is Err ==> insert_rows(*final(s)) == insert_rows(*old(s)),
{
    let v1: sea_query::SimpleExpr = match first {
        Param::Int(i) => (*i).into(),
        Param::Text(t) => t.as_str().into(),
    };
    let v2: sea_query::SimpleExpr = match second {
        Param::Int(i) => (*i).into(),
        Param::Text(t) => t.as_str().into(),
    };
    s.values([v1, v2]).map(|_| ())
}

/// Relies on `QueryStatementWriter::build` with `PostgresQueryBuilder`: an
/// insert of one row into two columns with a returned column is written
/// `INSERT INTO "table" ("c1", "c2") VALUES ($1, $2) RETURNING "r"`, each
/// identifier quoted; the values of the row are bound in column order, and
/// the returned column binds nothing.
#[verifier::external_body]
fn build_insert(s: &sea_query::InsertStatement) -> (r: Rendered)
    requires
        plain_ident(insert_table(*s)),
        plain_ident(insert_returning(*s)),
        forall|i: int| 0 <= i < insert_columns(*s).len() ==> plain_ident(#[trigger] insert_columns(*s)[i]),
    ensures
        insert_rows(*s).len() == 1 ==> bound_values(r.1) == insert_rows(*s)[0],
        insert_rows(*s).len() == 1 && insert_columns(*s).len() == 2 ==> r.0@ == insert_sql(
            insert_table(*s),
            insert_columns(*s)[0],
            insert_columns(*s)[1],
            insert_returning(*s),
        ),
{
    s.build(PostgresQueryBuilder)
}

/// The column names of a sequence of filters.
pub open spec fn filter_columns(cs: Seq<ConditionView>) -> Seq<Seq<char>> {
    cs.map_values(|c: ConditionView| column_name(c.column))
}

/// Every column name is a plain identifier.
pub proof fn lemma_column_names_plain(c: BookColumn)
    ensures
        plain_ident(column_name(c)),
{
    reveal_strlit("id");
    reveal_strlit("name");
    reveal_strlit("author");
}

/// The value views of a sequence of filters.
pub open spec fn filter_values(cs: Seq<ConditionView>) -> Seq<ParamView> {
    cs.map_values(|c: ConditionView| c.value)
}

/// Renders a `SELECT *` from the table with the filters joined by AND, each
/// value bound as a parameter in filter order.
pub fn render_select(table: &str, conditions: &Vec<Condition>) -> (r: Rendered)
    requires
        plain_ident(table@),
    ensures
        r.0@ == select_sql(table@, filter_columns(views(conditions@))),
        bound_values(r.1) == filter_values(views(conditions@)),
{
    let mut s = select_all_from(table);
    let mut i: usize = 0;
    while i < conditions.len()
        invariant
            i <= conditions@.len(),
            select_table(s) == table@,
            select_filters(s) == conditions@.subrange(0, i as int).map_values(
                |c: Condition| (column_name(c.column), c.value@),
            ),
        decreases conditions@.len() - i,
    {
        let c = &conditions[i];
        let column: BookColumn = c.column;
        and_where_eq(&mut s, column.ident(), &c.value);
        proof {
            assert(conditions@.subrange(0, i + 1) =~= conditions@.subrange(0, i as int).push(*c));
        }
        i = i + 1;
    }
    proof {
        assert(conditions@.subrange(0, i as int) =~= conditions@);
        assert forall|k: int| 0 <= k < select_filters(s).len() implies plain_ident(#[trigger] select_filters(s)[k].0) by {
            lemma_column_names_plain(conditions@[k].column);
        }
    }
    let r = build_select(&s);
    proof {
        assert(select_filters(s).map_values(|f: (Seq<char>, ParamView)| f.0) =~= filter_columns(views(conditions@)));
        assert(select_filters(s).map_values(|f: (Seq<char>, ParamView)| f.1) =~= filter_values(views(conditions@)));
    }
    r
}

/// Renders an insert of one row of two values into the two columns,
/// returning the third column.
pub fn render_insert(table: &str, first: &str, second: &str, returning: &str, v1: &Param, v2: &Param) -> (r: Result<Rendered, sea_query::error::Error>)
    requires
        plain_ident(table@),
        plain_ident(first@),
        plain_ident(second@),
        plain_ident(returning@),
    ensures
        r is Ok,
        r is Ok ==> r->Ok_0.0@ == insert_sql(table@, first@, second@, returning@),
        r is Ok ==> bound_values(r->Ok_0.1) == seq![v1@, v2@],
{
    let mut s = insert_into(table, first, second, returning);
    match insert_values(&mut s, v1, v2) {
        Ok(()) => Ok(build_insert(&s)),
        Err(e) => Err(e),
    }
}

} // verus!
