use rust_axum_postgres::error::RepoError;
use rust_axum_postgres::model::{BookRow, CreateBookRequest, QueryBookRequest};
use rust_axum_postgres::run_mode::{LogLevel, RunMode, SERVICE_NAME};
use rust_axum_postgres::service::{
    create_book_statement, created_book_result, created_id_result, fetch_book_result,
    fetch_book_status, fetch_book_statement, find_books_result, find_books_statement,
    list_books_result, list_books_statement, STATUS_CREATED, STATUS_NO_CONTENT, STATUS_OK,
};
use rust_axum_postgres::statement::{find_conditions, BookColumn, Condition, Param};
use sea_query::Value;

fn text(s: &str) -> Value {
    Value::String(Some(Box::new(s.to_string())))
}

fn book(id: i32, name: &str, author: &str) -> BookRow {
    BookRow { id, name: name.to_string(), author: author.to_string() }
}

fn create(name: &str, author: &str) -> CreateBookRequest {
    CreateBookRequest { name: name.to_string(), author: author.to_string() }
}

fn query(name: Option<&str>, author: Option<&str>) -> QueryBookRequest {
    QueryBookRequest { name: name.map(|s| s.to_string()), author: author.map(|s| s.to_string()) }
}

#[test]
fn fetch_statement_binds_the_id() {
    let (sql, values) = fetch_book_statement(7);
    assert_eq!(sql, r#"SELECT * FROM "book" WHERE "id" = $1"#);
    assert_eq!(values.0, vec![Value::Int(Some(7))]);
}

#[test]
fn list_statement_has_no_filter() {
    let (sql, values) = list_books_statement();
    assert_eq!(sql, r#"SELECT * FROM "book""#);
    assert!(values.0.is_empty());
}

#[test]
fn find_without_filters_is_the_list() {
    let (sql, values) = find_books_statement(&query(None, None));
    let (list_sql, list_values) = list_books_statement();
    assert_eq!(sql, list_sql);
    assert_eq!(values.0, list_values.0);
}

#[test]
fn find_by_author_alone() {
    let (sql, values) = find_books_statement(&query(None, Some("Herbert")));
    assert_eq!(sql, r#"SELECT * FROM "book" WHERE "author" = $1"#);
    assert_eq!(values.0, vec![text("Herbert")]);
}

#[test]
fn find_by_name_alone() {
    let (sql, values) = find_books_statement(&query(Some("Dune"), None));
    assert_eq!(sql, r#"SELECT * FROM "book" WHERE "name" = $1"#);
    assert_eq!(values.0, vec![text("Dune")]);
}

#[test]
fn find_by_name_and_author_joins_with_and() {
    let (sql, values) = find_books_statement(&query(Some("Dune"), Some("Herbert")));
    assert_eq!(sql, r#"SELECT * FROM "book" WHERE "author" = $1 AND "name" = $2"#);
    assert_eq!(values.0, vec![text("Herbert"), text("Dune")]);
}

#[test]
fn find_values_are_bound_not_interpolated() {
    let hostile = "x' OR '1'='1";
    let (sql, values) = find_books_statement(&query(None, Some(hostile)));
    assert!(!sql.contains(hostile));
    assert_eq!(values.0, vec![text(hostile)]);
}

#[test]
fn find_conditions_follow_the_request() {
    assert!(find_conditions(&query(None, None)).is_empty());
    assert_eq!(
        find_conditions(&query(Some("Dune"), Some("Herbert"))),
        vec![
            Condition { column: BookColumn::Author, value: Param::Text("Herbert".to_string()) },
            Condition { column: BookColumn::Name, value: Param::Text("Dune".to_string()) },
        ]
    );
}

#[test]
fn create_statement_binds_name_then_author() {
    let (sql, values) = create_book_statement(&create("Dune", "Herbert")).unwrap();
    assert_eq!(sql, r#"INSERT INTO "book" ("name", "author") VALUES ($1, $2) RETURNING "id""#);
    assert_eq!(values.0, vec![text("Dune"), text("Herbert")]);
}

#[test]
fn create_statement_takes_empty_values() {
    let (_, values) = create_book_statement(&create("", "")).unwrap();
    assert_eq!(values.0, vec![text(""), text("")]);
}

#[test]
fn fetch_result_passes_rows_and_absence() {
    assert_eq!(fetch_book_result(Ok(Some(book(1, "Dune", "Herbert"))), 1), Ok(Some(book(1, "Dune", "Herbert"))));
    assert_eq!(fetch_book_result(Ok(None), 999), Ok(None));
}

#[test]
fn fetch_result_failure() {
    assert_eq!(fetch_book_result(Err(sqlx::Error::PoolTimedOut), 1), Err(RepoError::FetchBookError));
}

#[test]
fn created_id_result_cases() {
    let req = create("Dune", "Herbert");
    assert_eq!(created_id_result(Ok(1), &req), Ok(1));
    assert_eq!(created_id_result(Err(sqlx::Error::RowNotFound), &req), Err(RepoError::CreateBookError));
}

#[test]
fn created_book_result_cases() {
    assert_eq!(created_book_result(Ok(Some(book(1, "Dune", "Herbert")))), Ok(book(1, "Dune", "Herbert")));
    assert_eq!(created_book_result(Ok(None)), Err(RepoError::CreateBookError));
    assert_eq!(created_book_result(Err(RepoError::FetchBookError)), Err(RepoError::FetchBookError));
}

#[test]
fn list_result_cases() {
    assert_eq!(list_books_result(Ok(vec![])), Ok(vec![]));
    let rows = vec![book(1, "Dune", "Herbert"), book(2, "Emma", "Austen")];
    assert_eq!(list_books_result(Ok(rows.clone())), Ok(rows));
    assert_eq!(list_books_result(Err(sqlx::Error::PoolClosed)), Err(RepoError::ListBookError));
}

#[test]
fn find_result_cases() {
    let q = query(None, Some("Herbert"));
    assert_eq!(find_books_result(Ok(vec![book(1, "Dune", "Herbert")]), &q), Ok(vec![book(1, "Dune", "Herbert")]));
    assert_eq!(find_books_result(Err(sqlx::Error::PoolTimedOut), &q), Err(RepoError::QueryBookError));
}

#[test]
fn failures_stay_with_their_operation() {
    let failed = fetch_book_result(Err(sqlx::Error::PoolTimedOut), 1);
    let other = list_books_result(Ok(vec![book(2, "Emma", "Austen")]));
    assert_eq!(failed, Err(RepoError::FetchBookError));
    assert_eq!(other, Ok(vec![book(2, "Emma", "Austen")]));
}

#[test]
fn every_failure_is_an_internal_error() {
    for e in [
        RepoError::FetchBookError,
        RepoError::ListBookError,
        RepoError::CreateBookError,
        RepoError::CreateBookValuesError,
        RepoError::QueryBookError,
    ] {
        assert_eq!(e.status_code(), 500);
    }
}

#[test]
fn dune_scenario() {
    let req = create("Dune", "Herbert");
    let (insert_sql, insert_values) = create_book_statement(&req).unwrap();
    assert!(insert_sql.starts_with("INSERT INTO \"book\""));
    assert_eq!(insert_values.0, vec![text("Dune"), text("Herbert")]);
    let id = created_id_result(Ok(1), &req).unwrap();
    assert_eq!(id, 1);
    let (_, fetch_values) = fetch_book_statement(id);
    assert_eq!(fetch_values.0, vec![Value::Int(Some(1))]);
    let stored = book(1, "Dune", "Herbert");
    let created = created_book_result(fetch_book_result(Ok(Some(stored.clone())), id)).unwrap();
    assert_eq!(created, stored);
    assert_eq!(STATUS_CREATED, 201);

    let again = fetch_book_result(Ok(Some(stored.clone())), 1).unwrap();
    assert_eq!(fetch_book_status(&again), STATUS_OK);
    assert_eq!(STATUS_OK, 200);
    assert_eq!(again, Some(stored.clone()));

    let missing = fetch_book_result(Ok(None), 999).unwrap();
    assert_eq!(fetch_book_status(&missing), STATUS_NO_CONTENT);
    assert_eq!(STATUS_NO_CONTENT, 204);

    let q = query(None, Some("Herbert"));
    let (_, find_values) = find_books_statement(&q);
    assert_eq!(find_values.0, vec![text("Herbert")]);
    assert_eq!(find_books_result(Ok(vec![stored.clone()]), &q), Ok(vec![stored]));
}

#[test]
fn run_mode_names() {
    assert_eq!(RunMode::from_name("Dev"), Some(RunMode::Dev));
    assert_eq!(RunMode::from_name("Prod"), Some(RunMode::Prod));
    assert_eq!(RunMode::from_name("Test"), Some(RunMode::Test));
    assert_eq!(RunMode::from_name("dev"), None);
    assert_eq!(RunMode::from_name(""), None);
    assert_eq!(RunMode::Prod.name(), "Prod");
    assert_eq!(SERVICE_NAME, "rust-axum-postgres");
}

#[test]
fn run_mode_logging() {
    assert_eq!(RunMode::Dev.default_log_level(), LogLevel::Info);
    assert_eq!(RunMode::Test.default_log_level(), LogLevel::Info);
    assert_eq!(RunMode::Prod.default_log_level(), LogLevel::Warn);
    assert!(RunMode::Prod.uses_logstash());
    assert!(!RunMode::Dev.uses_logstash());
}

#[test]
fn column_names() {
    assert_eq!(BookColumn::Id.ident(), "id");
    assert_eq!(BookColumn::Name.ident(), "name");
    assert_eq!(BookColumn::Author.ident(), "author");
}

#[test]
fn find_text_depends_only_on_present_fields() {
    let (a, _) = find_books_statement(&query(Some("Dune"), Some("Herbert")));
    let (b, values) = find_books_statement(&query(Some("Emma"), Some("Austen")));
    assert_eq!(a, b);
    assert_eq!(values.0, vec![text("Austen"), text("Emma")]);
    let (c, _) = find_books_statement(&query(Some("Dune"), None));
    assert_ne!(a, c);
}

#[test]
fn create_text_is_the_same_for_every_request() {
    let (a, _) = create_book_statement(&create("Dune", "Herbert")).unwrap();
    let hostile = "x'); DROP TABLE book; --";
    let (b, values) = create_book_statement(&create(hostile, "Herbert")).unwrap();
    assert_eq!(a, b);
    assert!(!b.contains("DROP"));
    assert_eq!(values.0, vec![text(hostile), text("Herbert")]);
}
