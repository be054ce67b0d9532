//! Pages of listed records: how many are asked for and from where.
use vstd::prelude::*;

verus! {

/// The most records a capped page holds.
pub const MAX_PAGE_LIMIT: i64 = 100;

/// The limit of a capped page: the one asked for (`default_limit` otherwise),
/// at most 100.
pub open spec fn capped_limit_spec(limit: Option<i64>, default_limit: i64) -> i64 {
    let l = match limit {
        Some(l) => l,
        None => default_limit,
    };
    if l < 100 {
        l
    } else {
        100
    }
}

/// The limit and offset of a page whose size is capped at 100: the limit asked
/// for or `default_limit`, the offset asked for or 0.
fn capped_page(limit: Option<i64>, offset: Option<i64>, default_limit: i64) -> (r: (i64, i64))
    ensures
        r.0 == capped_limit_spec(limit, default_limit),
        r.0 <= MAX_PAGE_LIMIT,
        r.1 == match offset {
            Some(o) => o,
            None => 0,
        },
{
    let l = match limit {
        Some(l) => l,
        None => default_limit,
    };
    let capped = if l < MAX_PAGE_LIMIT {
        l
    } else {
        MAX_PAGE_LIMIT
    };
    let o = match offset {
        Some(o) => o,
        None => 0,
    };
    (capped, o)
}

/// The query of a page of records: how many, from where.
pub struct PaginationQuery {
    pub limit: Option<i64>,
    pub offset: Option<i64>,
}

impl PaginationQuery {
    /// The limit (at most 100; `default_limit` unless asked) and offset (0 unless
    /// asked) of the page.
    pub fn page(&self, default_limit: i64) -> (r: (i64, i64))
        ensures
            r.0 == capped_limit_spec(self.limit, default_limit),
            r.1 == match self.offset {
                Some(o) => o,
                None => 0,
            },
    {
        capped_page(self.limit, self.offset, default_limit)
    }
}

/// The query of a page of a workflow's executions.
pub struct ListExecutionsQuery {
    pub limit: Option<i64>,
    pub offset: Option<i64>,
}

impl ListExecutionsQuery {
    /// The limit (at most 100; 20 unless asked) and offset (0 unless asked).
    pub fn page(&self) -> (r: (i64, i64))
        ensures
            r.0 == capped_limit_spec(self.limit, 20),
            r.1 == match self.offset {
                Some(o) => o,
                None => 0,
            },
    {
        capped_page(self.limit, self.offset, 20)
    }
}

/// The query of a page of notifications.
pub struct NotificationQueryParams {
    pub limit: Option<i64>,
    pub offset: Option<i64>,
    pub unread_only: Option<bool>,
}

impl NotificationQueryParams {
    /// The limit (at most 100; 50 unless asked), the offset (0 unless asked) and
    /// whether only unread notifications are listed (not unless asked).
    pub fn page(&self) -> (r: (i64, i64, bool))
        ensures
            r.0 == capped_limit_spec(self.limit, 50),
            r.1 == match self.offset {
                Some(o) => o,
                None => 0,
            },
            r.2 == match self.unread_only {
                Some(u) => u,
                None => false,
            },
    {
        let (l, o) = capped_page(self.limit, self.offset, 50);
        let u = match self.unread_only {
            Some(u) => u,
            None => false,
        };
        (l, o, u)
    }
}

} // verus!
