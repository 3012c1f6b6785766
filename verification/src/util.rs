//! Pagination of list endpoints: a validated page/count query and the page
//! envelope that list responses are wrapped in.

use vstd::prelude::*;
use crate::error::{bad_request, AppError};

verus! {

/// A pagination query: 1-based page number and page size.
#[derive(Debug, Clone, Copy, PartialEq, Eq, Structural)]
pub struct Pagination {
    pub page: i32,
    pub count: i32,
}

impl Pagination {
    /// A usable query: a positive page, and a count between 1 and 200.
    pub open spec fn spec_valid(self) -> bool {
        self.page > 0 && self.count > 0 && self.count <= 200
    }

    pub fn validate(&self) -> (r: Result<(), AppError>)
        ensures
            r is Ok <==> self.spec_valid(),
            r matches Err(e) ==> e is RequestError,
    {
        if self.page <= 0 || self.count <= 0 || self.count > 200 {
            Err(bad_request("pagination invalid"))
        } else {
            Ok(())
        }
    }

    /// Builds the query from the raw parameters, with page 1 and count 50
    /// where a parameter is absent, and rejects an invalid combination.
    pub fn from_params(page: Option<i32>, count: Option<i32>) -> (r: Result<Self, AppError>)
        ensures
            ({
                let pag = Pagination {
                    page: match page {
                        Some(p) => p,
                        None => 1,
                    },
                    count: match count {
                        Some(c) => c,
                        None => 50,
                    },
                };
                &&& r matches Ok(v) ==> v == pag && pag.spec_valid()
                &&& r is Err <==> !pag.spec_valid()
                &&& r matches Err(e) ==> e is RequestError
            }),
    {
        let pag = Pagination {
            page: match page {
                Some(p) => p,
                None => 1,
            },
            count: match count {
                Some(c) => c,
                None => 50,
            },
        };
        match pag.validate() {
            Ok(()) => Ok(pag),
            Err(e) => Err(e),
        }
    }
}

/// The slice of `items` a pagination query selects: element `(page - 1) *
/// count` onward, at most `count` of them.
pub open spec fn spec_page_items<T>(items: Seq<T>, pag: Pagination) -> Seq<T> {
    let start = (pag.page - 1) * pag.count;
    if start >= items.len() {
        Seq::empty()
    } else if start + pag.count >= items.len() {
        items.subrange(start, items.len() as int)
    } else {
        items.subrange(start, start + pag.count)
    }
}

/// The total a list endpoint reports beside a page: the overall number of
/// matching records, except that an empty page carries no such number and
/// reports zero.
pub open spec fn spec_page_total<T>(items: Seq<T>, pag: Pagination) -> int {
    if spec_page_items(items, pag).len() == 0 {
        0
    } else {
        items.len() as int
    }
}

/// Cuts the slice a pagination query selects out of a full result list.
pub fn page_slice<T>(items: Vec<T>, pag: &Pagination) -> (r: Vec<T>)
    requires
        pag.spec_valid(),
    ensures
        r@ == spec_page_items(items@, *pag),
{
    let ghost all = items@;
    let len = items.len();
    proof {
        assert((pag.page as u64 - 1) * (pag.count as u64) == (pag.page - 1) * pag.count && (
        pag.page - 1) * pag.count <= 0x7FFF_FFFFi64 * 200) by (nonlinear_arith)
            requires
                0 < pag.page <= 0x7FFF_FFFFi64,
                0 < pag.count <= 200,
        ;
    }
    let start64: u64 = (pag.page as u64 - 1) * (pag.count as u64);
    if start64 >= len as u64 {
        proof {
            assert(spec_page_items(all, *pag) =~= Seq::<T>::empty());
        }
        Vec::new()
    } else {
        let start = start64 as usize;
        let mut items = items;
        let mut tail = items.split_off(start);
        if (pag.count as u64) < len as u64 - start64 {
            tail.truncate(pag.count as usize);
            proof {
                assert(tail@ =~= spec_page_items(all, *pag));
            }
        } else {
            proof {
                assert(tail@ =~= spec_page_items(all, *pag));
            }
        }
        tail
    }
}

/// A page of a list response.
#[derive(Debug)]
pub struct Page<T> {
    pub page: i32,
    pub count: i32,
    pub total: i64,
    pub items: Vec<T>,
}

impl<T> Page<T> {
    pub fn new(items: Vec<T>, pag: Pagination, total: i64) -> (r: Self)
        requires
            items@.len() <= i32::MAX,
        ensures
            r.page == pag.page,
            r.count == items@.len(),
            r.total == total,
            r.items == items,
    {
        Self { page: pag.page, count: items.len() as i32, total, items }
    }
}

} // verus!
