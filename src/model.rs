use vstd::prelude::*;

verus! {

/// A persisted book, in the column order of the `book` table: id, name, author.
#[derive(Debug, Clone, PartialEq, Eq)]
pub struct BookRow {
    pub id: i32,
    pub name: String,
    pub author: String,
}

/// The mathematical value of a book row.
pub struct BookView {
    pub id: int,
    pub name: Seq<char>,
    pub author: Seq<char>,
}

impl View for BookRow {
    type V = BookView;

    open spec fn view(&self) -> BookView {
        BookView { id: self.id as int, name: self.name@, author: self.author@ }
    }
}

/// The values of a book to be created; the database assigns its id.
#[derive(Debug, Clone, PartialEq, Eq)]
pub struct CreateBookRequest {
    pub name: String,
    pub author: String,
}

/// A search for books: each field that is present must equal the book's.
#[derive(Debug, Clone, PartialEq, Eq)]
pub struct QueryBookRequest {
    pub name: Option<String>,
    pub author: Option<String>,
}

} // verus!
