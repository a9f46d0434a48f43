use crate::pagination::PaginationError;
use vstd::math::min;
use vstd::prelude::*;

verus! {

/// How a repository call can fail, by the category the caller branches on:
/// a missing row, a unique-constraint conflict, rejected pagination
/// parameters, or any other storage failure with its message.
#[derive(Debug, Clone, PartialEq)]
pub enum RepoError {
    NotFound,
    Duplicate,
    InvalidPagination,
    Storage(String),
}

impl RepoError {
    pub fn message(&self) -> (r: String)
        ensures
            self is NotFound ==> r@ == "entity not found"@,
            self is Duplicate ==> r@ == "duplicate unique value"@,
            self is InvalidPagination ==> r@
                == "Invalid page or page_size: page must be at least 0 and page_size must be at least 1"@,
            self matches RepoError::Storage(m) ==> r@ == m@,
    {
        match self {
            RepoError::NotFound => String::from_str("entity not found"),
            RepoError::Duplicate => String::from_str("duplicate unique value"),
            RepoError::InvalidPagination => PaginationError::InvalidPageOrPageSize.message(),
            RepoError::Storage(m) => m.clone(),
        }
    }
}

/// The window a `(limit, offset)` pair selects from an ordered listing,
/// clipped to the listing's length.
pub open spec fn slice_window<T>(s: Seq<T>, offset: int, limit: int) -> Seq<T>
    recommends
        offset >= 0,
        limit >= 1,
{
    s.subrange(min(offset, s.len() as int), min(offset + limit, s.len() as int))
}

/// What a paginated listing returns: the requested page of the ordered
/// collection, clipped to its end.
pub open spec fn page_slice<T>(s: Seq<T>, page: int, page_size: int) -> Seq<T>
    recommends
        page >= 0,
        page_size >= 1,
{
    slice_window(s, page * page_size, page_size)
}

} // verus!
