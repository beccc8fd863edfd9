use vstd::prelude::*;

verus! {

/// The ways a persistence operation fails, one kind per operation.
#[derive(Debug, Clone, Copy, PartialEq, Eq, Structural)]
pub enum RepoError {
    /// Fetching a book by id failed at the data layer.
    FetchBookError,
    /// Listing all books failed.
    ListBookError,
    /// The insert, reading the generated id, or the fetch that follows failed,
    /// or the book just inserted could not be found again.
    CreateBookError,
    /// The values of a new book could not be placed into the insert statement.
    CreateBookValuesError,
    /// The filtered search failed at the data layer.
    QueryBookError,
}

impl RepoError {
    /// The HTTP status that a failure is answered with: every kind is an
    /// internal server error.
    pub fn status_code(&self) -> (r: u16)
        ensures
            r == 500,
    {
        500
    }
}

} // verus!
