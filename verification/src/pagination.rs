use vstd::prelude::*;

verus! {

/// The page index actually used: an absent page means the first one.
pub open spec fn effective_page(page: Option<i64>) -> int {
    match page {
        Some(p) => p as int,
        None => 0,
    }
}

/// The page size actually used: an absent size means ten entries.
pub open spec fn effective_page_size(page_size: Option<i64>) -> int {
    match page_size {
        Some(s) => s as int,
        None => 10,
    }
}

/// The one rule every paginated listing shares: the page may not be negative
/// and the page size must be at least one.
pub open spec fn pagination_accepted(page: Option<i64>, page_size: Option<i64>) -> bool {
    effective_page(page) >= 0 && effective_page_size(page_size) >= 1
}

#[derive(Debug, Clone, Copy, PartialEq, Eq, Structural)]
pub enum PaginationError {
    InvalidPageOrPageSize,
}

impl PaginationError {
    pub fn message(&self) -> (r: String)
        ensures
            r@ == "Invalid page or page_size: page must be at least 0 and page_size must be at least 1"@,
    {
        String::from_str(
            "Invalid page or page_size: page must be at least 0 and page_size must be at least 1",
        )
    }
}

/// Turns optional pagination parameters into a `(limit, offset)` pair, or
/// rejects them. Accepted exactly when the effective page is at least 0 and
/// the effective page size at least 1; then the limit is the page size and
/// the offset their product.
pub fn get_pagination_params(page: Option<i64>, page_size: Option<i64>) -> (res: Result<
    (i64, i64),
    PaginationError,
>)
    requires
        pagination_accepted(page, page_size) ==> effective_page(page) * effective_page_size(
            page_size,
        ) <= i64::MAX as int,
    ensures
        res == (if pagination_accepted(page, page_size) {
            Ok::<(i64, i64), PaginationError>(
                (
                    effective_page_size(page_size) as i64,
                    (effective_page(page) * effective_page_size(page_size)) as i64,
                ),
            )
        } else {
            Err::<(i64, i64), PaginationError>(PaginationError::InvalidPageOrPageSize)
        }),
{
    let page: i64 = match page {
        Some(p) => p,
        None => 0,
    };
    let page_size: i64 = match page_size {
        Some(s) => s,
        None => 10,
    };
    if page < 0 || page_size < 1 {
        return Err(PaginationError::InvalidPageOrPageSize);
    }
    Ok((page_size, page * page_size))
}

} // verus!
