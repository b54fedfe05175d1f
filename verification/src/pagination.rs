use vstd::prelude::*;
use crate::errors::CoreError;

verus! {

/// Integer ceiling division for page counts: `(total + size - 1) / size`.
/// Zero entities give zero pages.
pub open spec fn spec_total_pages(total: int, size: int) -> int
    recommends
        size > 0,
{
    (total + size - 1) / size
}

/// The zero-based offset of a page: `index * size`.
pub open spec fn spec_offset(index: int, size: int) -> int {
    index * size
}

/// Maps a zero-based page index and a page size to the number of leading
/// entities to skip.  A zero page size is an illegal input and is rejected
/// rather than risking a division elsewhere.
pub fn offset(page_index: u32, page_size: u32) -> (r: Result<u64, CoreError>)
    ensures
        page_size == 0 <==> r == Err::<u64, CoreError>(CoreError::InvalidArgument),
        page_size > 0 ==> (r matches Ok(o) && o == spec_offset(page_index as int, page_size as int)),
{
    if page_size == 0 {
        Err(CoreError::InvalidArgument)
    } else {
        proof {
            vstd::arithmetic::mul::lemma_mul_upper_bound(
                page_index as int,
                u32::MAX as int,
                page_size as int,
                u32::MAX as int,
            );
        }
        Ok((page_index as u64) * (page_size as u64))
    }
}

/// Maps a total entity count and a page size to the number of pages,
/// rounding up.  A zero page size is an illegal input.
pub fn total_pages(total_entities: u32, page_size: u32) -> (r: Result<u32, CoreError>)
    ensures
        page_size == 0 <==> r == Err::<u32, CoreError>(CoreError::InvalidArgument),
        page_size > 0 ==> (r matches Ok(p) && p == spec_total_pages(
            total_entities as int,
            page_size as int,
        )),
{
    if page_size == 0 {
        Err(CoreError::InvalidArgument)
    } else if total_entities == 0 {
        proof {
            lemma_total_pages_zero(page_size as int);
        }
        Ok(0)
    } else {
        let p = (total_entities - 1) / page_size + 1;
        proof {
            lemma_total_pages_positive(total_entities as int, page_size as int);
        }
        Ok(p)
    }
}

/// With no entities there are no pages: the ceiling of `0 / size` is zero.
pub proof fn lemma_total_pages_zero(size: int)
    requires
        size > 0,
    ensures
        spec_total_pages(0, size) == 0,
{
    assert((size - 1) / size == 0) by (nonlinear_arith)
        requires
            size > 0,
    ;
}

/// For a positive total, rounding up equals one more than the floor
/// division of `total - 1`.
pub proof fn lemma_total_pages_positive(total: int, size: int)
    requires
        total > 0,
        size > 0,
    ensures
        spec_total_pages(total, size) == (total - 1) / size + 1,
{
    vstd::arithmetic::div_mod::lemma_div_plus_one(total - 1, size);
}

/// One page of a listing, together with the bookkeeping a caller needs to
/// page onward: the total number of matching entities and the derived
/// total page count.
#[derive(Clone, Debug)]
pub struct PaginatedResponse<T> {
    pub entities: Vec<T>,
    pub total_entities: u32,
    pub page_index: u32,
    pub page_size: u32,
    pub total_pages: u32,
}

impl<T> PaginatedResponse<T> {
    /// The page bookkeeping is consistent: the page size is positive and
    /// the page count is the ceiling of `total_entities / page_size`.
    pub open spec fn wf(self) -> bool {
        &&& self.page_size > 0
        &&& self.total_pages == spec_total_pages(self.total_entities as int, self.page_size as int)
    }

    /// Assembles one page from the entities of the current page and the
    /// total count, deriving the page count.  A zero page size is rejected.
    pub fn assemble(
        entities: Vec<T>,
        total_entities: u32,
        page_index: u32,
        page_size: u32,
    ) -> (r: Result<PaginatedResponse<T>, CoreError>)
        ensures
            page_size == 0 <==> r is Err,
            r matches Err(e) ==> e == CoreError::InvalidArgument,
            r matches Ok(p) ==> {
                &&& p.wf()
                &&& p.entities == entities
                &&& p.total_entities == total_entities
                &&& p.page_index == page_index
                &&& p.page_size == page_size
            },
    {
        match total_pages(total_entities, page_size) {
            Err(e) => Err(e),
            Ok(tp) => Ok(
                PaginatedResponse {
                    entities,
                    total_entities,
                    page_index,
                    page_size,
                    total_pages: tp,
                },
            ),
        }
    }

    /// Wraps an unpaged result set as its own single page.  An empty set
    /// yields zero pages over a nominal page size of one, so that the
    /// bookkeeping invariant holds in every case.
    pub fn single_page(entities: Vec<T>) -> (r: Result<PaginatedResponse<T>, CoreError>)
        ensures
            entities@.len() > u32::MAX ==> r == Err::<PaginatedResponse<T>, CoreError>(
                CoreError::InvalidArgument,
            ),
            entities@.len() <= u32::MAX ==> (r matches Ok(p) && {
                &&& p.wf()
                &&& p.entities == entities
                &&& p.total_entities == entities@.len()
                &&& p.page_index == 0
                &&& p.total_pages == if entities@.len() == 0 { 0int } else { 1int }
            }),
    {
        if entities.len() > u32::MAX as usize {
            return Err(CoreError::InvalidArgument);
        }
        let n = entities.len() as u32;
        let size = if n == 0 { 1 } else { n };
        proof {
            if n == 0 {
                lemma_total_pages_zero(1);
            } else {
                lemma_total_pages_positive(n as int, n as int);
                assert((n - 1) as int / n as int == 0) by (nonlinear_arith)
                    requires
                        n > 0,
                ;
            }
        }
        Ok(
            PaginatedResponse {
                entities,
                total_entities: n,
                page_index: 0,
                page_size: size,
                total_pages: if n == 0 { 0 } else { 1 },
            },
        )
    }
}

} // verus!
