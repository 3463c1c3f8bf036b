//! Paging parameters of the listing endpoints and their normalisation.

use vstd::prelude::*;

verus! {

/// Offset used when the requested offset is negative.
pub const DEFAULT_OFFSET: i64 = 0;

/// Page size used when the requested limit is below one.
pub const DEFAULT_LIMIT: i64 = 20;

/// Largest page size that is ever served.
pub const MAX_LIMIT: i64 = 100;

/// Paging parameters as a client supplies them; any value is accepted.
#[derive(Clone, Copy, Debug)]
pub struct Pagination {
    pub limit: i64,
    pub offset: i64,
}

impl Default for Pagination {
    fn default() -> (pagination: Self)
        ensures
            pagination.limit == DEFAULT_LIMIT,
            pagination.offset == DEFAULT_OFFSET,
    {
        Self { limit: DEFAULT_LIMIT, offset: DEFAULT_OFFSET }
    }
}

/// The offset that is served for a requested offset.
pub open spec fn normal_offset(offset: i64) -> i64 {
    if offset < 0 {
        DEFAULT_OFFSET
    } else {
        offset
    }
}

/// The page size that is served for a requested limit.
pub open spec fn normal_limit(limit: i64) -> i64 {
    if limit < 1 {
        DEFAULT_LIMIT
    } else if limit > MAX_LIMIT {
        MAX_LIMIT
    } else {
        limit
    }
}

/// Normalises out-of-range paging parameters instead of rejecting them.
pub struct FallbacksService {}

impl FallbacksService {
    pub fn new() -> (service: Self) {
        Self {  }
    }

    /// Returns `(offset, limit)`: a negative offset becomes
    /// [`DEFAULT_OFFSET`], a limit below one becomes [`DEFAULT_LIMIT`], a
    /// limit above [`MAX_LIMIT`] becomes [`MAX_LIMIT`], and every other value
    /// is kept.
    pub fn fallback_pagination(&self, pagination: &Pagination) -> (page: (i64, i64))
        ensures
            page.0 == normal_offset(pagination.offset),
            page.1 == normal_limit(pagination.limit),
            0 <= page.0,
            1 <= page.1 <= MAX_LIMIT,
    {
        let mut page_offset: i64 = pagination.offset;
        let mut per_page: i64 = pagination.limit;
        if pagination.offset < 0 {
            page_offset = DEFAULT_OFFSET;
        }
        if pagination.limit < 1 {
            per_page = DEFAULT_LIMIT;
        }
        if pagination.limit > MAX_LIMIT {
            per_page = MAX_LIMIT;
        }
        (page_offset, per_page)
    }
}

} // verus!
