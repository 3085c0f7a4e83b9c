//! Paging of listings in the administration interface.

use vstd::prelude::*;

verus! {

/// Which page of a listing to return, and how many records a page holds.
#[derive(Debug)]
pub struct PaginationParams {
    pub page: i64,
    pub records_per_page: i64,
}

/// The page when none is asked for: the first.
pub fn default_page() -> (res: i64)
    ensures
        res == 0,
{
    0
}

/// The page size when none is asked for.
pub fn default_records_per_page() -> (res: i64)
    ensures
        res == 25,
{
    25
}

impl Default for PaginationParams {
    fn default() -> (res: Self)
        ensures
            res.page == 0,
            res.records_per_page == 25,
    {
        PaginationParams { page: default_page(), records_per_page: default_records_per_page() }
    }
}

impl PaginationParams {
    /// How many records come before the page: `page * records_per_page`,
    /// which must fit in an `i64`.
    pub fn offset(&self) -> (res: i64)
        requires
            i64::MIN <= self.page * self.records_per_page <= i64::MAX,
        ensures
            res == self.page * self.records_per_page,
    {
        self.page * self.records_per_page
    }
}

} // verus!
