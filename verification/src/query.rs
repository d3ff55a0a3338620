//! Paging through a listing.

use vstd::prelude::*;

verus! {

/// The page shown where a request names none.
pub const DEFAULT_PAGE: i64 = 1;

/// The number of items on a page where a request names none.
pub const DEFAULT_LIMIT: i64 = 10;

/// A page of a listing: its number, its length, and the number of items
/// that stand before it.
#[derive(Clone, Copy, Debug, PartialEq, Eq, Structural)]
pub struct Page {
    pub page: i64,
    pub limit: i64,
    pub offset: i64,
}

/// The page number that a request means.
pub open spec fn page_or_default(page: Option<i64>) -> int {
    match page {
        Some(p) => p as int,
        None => DEFAULT_PAGE as int,
    }
}

/// The page length that a request means.
pub open spec fn limit_or_default(limit: Option<i64>) -> int {
    match limit {
        Some(l) => l as int,
        None => DEFAULT_LIMIT as int,
    }
}

/// The number of items that stand before the page that a request means.
pub open spec fn offset_of(page: Option<i64>, limit: Option<i64>) -> int {
    (page_or_default(page) - 1) * limit_or_default(limit)
}

/// The page that a request means, where its offset can be written down.
pub open spec fn page_of(page: Option<i64>, limit: Option<i64>) -> Option<Page> {
    if i64::MIN <= offset_of(page, limit) <= i64::MAX {
        Some(
            Page {
                page: page_or_default(page) as i64,
                limit: limit_or_default(limit) as i64,
                offset: offset_of(page, limit) as i64,
            },
        )
    } else {
        None
    }
}

/// Works out the page that a request means: page 1 and 10 items where it
/// names none, and as offset the items on the pages before.
pub fn paginate(page: Option<i64>, limit: Option<i64>) -> (r: Option<Page>)
    ensures
        r == page_of(page, limit),
{
    let p: i64 = match page {
        Some(p) => p,
        None => DEFAULT_PAGE,
    };
    let l: i64 = match limit {
        Some(l) => l,
        None => DEFAULT_LIMIT,
    };
    if l == 0 {
        return Some(Page { page: p, limit: l, offset: 0 });
    }
    match p.checked_sub(1) {
        Some(before) => match before.checked_mul(l) {
            Some(offset) => Some(Page { page: p, limit: l, offset }),
            None => None,
        },
        None => {
            assert((p - 1) * l < i64::MIN || (p - 1) * l > i64::MAX) by (nonlinear_arith)
                requires
                    p - 1 < i64::MIN,
                    l != 0,
                    i64::MIN <= l <= i64::MAX,
            ;
            None
        },
    }
}

} // verus!
