//! Pagination of list responses.

use vstd::prelude::*;

verus! {

/// Common pagination parameters.
pub struct PaginationParams {
    pub page: Option<u32>,
    pub per_page: Option<u32>,
    pub search: Option<String>,
}

impl PaginationParams {
    /// The page size: the requested size capped at 100, defaulting to 50.
    pub open spec fn spec_limit(self) -> u32 {
        match self.per_page {
            Some(p) => if p > 100 {
                100
            } else {
                p
            },
            None => 50,
        }
    }

    /// The requested page number, at least 1.
    pub open spec fn spec_page(self) -> u32 {
        match self.page {
            Some(p) => if p < 1 {
                1
            } else {
                p
            },
            None => 1,
        }
    }

    /// The page size: the requested size capped at 100, defaulting to 50.
    pub fn limit(&self) -> (r: u32)
        ensures
            r == self.spec_limit(),
    {
        match self.per_page {
            Some(p) => if p > 100 {
                100
            } else {
                p
            },
            None => 50,
        }
    }

    /// How many rows precede the requested page.
    pub fn offset(&self) -> (r: u32)
        requires
            (self.spec_page() - 1) * self.spec_limit() <= u32::MAX,
        ensures
            r == (self.spec_page() - 1) * self.spec_limit(),
    {
        let page = match self.page {
            Some(p) => if p < 1 {
                1
            } else {
                p
            },
            None => 1,
        };
        (page - 1) * self.limit()
    }
}

/// One page of results with its paging bookkeeping.
pub struct PaginatedResponse<T> {
    pub data: Vec<T>,
    pub total: i64,
    pub page: u32,
    pub per_page: u32,
    pub total_pages: u32,
}

/// How many pages a total row count spans at a page size: the integer
/// ceiling, zero for an empty or negative total, saturated at the `u32`
/// bound, and the bound itself for a nonsensical page size of zero.
pub open spec fn spec_total_pages(total: i64, per_page: u32) -> u32 {
    if per_page == 0 {
        if total > 0 {
            u32::MAX
        } else {
            0
        }
    } else if total <= 0 {
        0
    } else {
        let c = total / (per_page as i64) + (if total % (per_page as i64) != 0 {
            1int
        } else {
            0int
        });
        if c > u32::MAX {
            u32::MAX
        } else {
            c as u32
        }
    }
}

impl<T> PaginatedResponse<T> {
    /// Wraps one page of data with its paging bookkeeping.
    pub fn new(data: Vec<T>, total: i64, params: &PaginationParams) -> (r: PaginatedResponse<T>)
        ensures
            r.data == data,
            r.total == total,
            r.page == params.spec_page(),
            r.per_page == params.spec_limit(),
            r.total_pages == spec_total_pages(total, params.spec_limit()),
    {
        let per_page = params.limit();
        let page = match params.page {
            Some(p) => if p < 1 {
                1
            } else {
                p
            },
            None => 1,
        };
        let total_pages: u32 = if per_page == 0 {
            if total > 0 {
                u32::MAX
            } else {
                0
            }
        } else if total <= 0 {
            0
        } else {
            let pp = per_page as i64;
            let q = total / pp;
            let rem = total % pp;
            if q >= u32::MAX as i64 {
                u32::MAX
            } else if rem != 0 {
                (q + 1) as u32
            } else {
                q as u32
            }
        };
        PaginatedResponse { data, total, page, per_page, total_pages }
    }
}

} // verus!
