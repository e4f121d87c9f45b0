//! Bounds of paginated queries: every page holds at most `MAX_QUERY_LIMIT`
//! entries, an offset past the end gives an empty page, and page bounds are
//! computed without overflow.
use vstd::prelude::*;

use crate::errors::QuickLendXError;

verus! {

/// Maximum number of records returned by a paginated query.
pub const MAX_QUERY_LIMIT: u32 = 100;

/// The page size actually used for a requested `limit`.
pub open spec fn spec_cap_query_limit(limit: u32) -> u32 {
    if limit < MAX_QUERY_LIMIT {
        limit
    } else {
        MAX_QUERY_LIMIT
    }
}

/// A query is refused when the end of its page, `offset` plus the capped
/// limit, does not fit in a `u32`.
pub open spec fn spec_validate_query_params(offset: u32, limit: u32) -> Result<(), QuickLendXError> {
    if offset + spec_cap_query_limit(limit) > u32::MAX {
        Err(QuickLendXError::OperationNotAllowed)
    } else {
        Ok(())
    }
}

/// `(start, end)` of the page `offset .. offset + min(limit, MAX_QUERY_LIMIT)`
/// of a list of `len` entries, both cut at `len`.
pub open spec fn spec_page_bounds(offset: u32, limit: u32, len: int) -> (int, int) {
    let start = if offset < len { offset as int } else { len };
    let stop = offset + spec_cap_query_limit(limit);
    let end = if stop < len { stop } else { len };
    (start, end)
}

/// The page of `s` that a query with `offset` and `limit` returns: empty
/// when the query is refused, else the entries between the page bounds.
pub open spec fn spec_paginate<T>(s: Seq<T>, offset: u32, limit: u32) -> Seq<T> {
    if spec_validate_query_params(offset, limit) is Err {
        Seq::empty()
    } else {
        let (start, end) = spec_page_bounds(offset, limit, s.len() as int);
        s.subrange(start, end)
    }
}

/// Cap a requested page size at `MAX_QUERY_LIMIT`; a limit of zero stays zero.
pub fn cap_query_limit(limit: u32) -> (r: u32)
    ensures
        r == spec_cap_query_limit(limit),
        r <= MAX_QUERY_LIMIT,
        r <= limit,
{
    if limit < MAX_QUERY_LIMIT {
        limit
    } else {
        MAX_QUERY_LIMIT
    }
}

/// Check that the end of the requested page can be computed in a `u32`.
pub fn validate_query_params(offset: u32, limit: u32) -> (r: Result<(), QuickLendXError>)
    ensures
        r == spec_validate_query_params(offset, limit),
{
    let capped = cap_query_limit(limit);
    if offset > u32::MAX - capped {
        Err(QuickLendXError::OperationNotAllowed)
    } else {
        Ok(())
    }
}

/// Overflow-safe bounds of a page of a list of `len` entries: the start is
/// the offset cut at `len`, the end is `offset + min(limit, MAX_QUERY_LIMIT)`
/// (saturating) cut at `len`.
pub fn calculate_safe_bounds(offset: u32, limit: u32, len: u32) -> (r: (u32, u32))
    ensures
        r.0 == (if offset < len { offset } else { len }),
        r.1 == (if offset + spec_cap_query_limit(limit) < len {
            offset + spec_cap_query_limit(limit)
        } else {
            len as int
        }),
        r.0 <= len,
        r.1 <= len,
{
    let capped = cap_query_limit(limit);
    let start = if offset < len {
        offset
    } else {
        len
    };
    let stop = offset.saturating_add(capped);
    let end = if stop < len {
        stop
    } else {
        len
    };
    (start, end)
}

/// The page of `v` selected by `offset` and `limit`, in list order.
pub fn paginate<T: Copy>(v: &Vec<T>, offset: u32, limit: u32) -> (r: Vec<T>)
    ensures
        r@ == spec_paginate(v@, offset, limit),
{
    if validate_query_params(offset, limit).is_err() {
        return Vec::new();
    }
    let len32: u32 = if v.len() > u32::MAX as usize {
        u32::MAX
    } else {
        v.len() as u32
    };
    let (start, end) = calculate_safe_bounds(offset, limit, len32);
    assert(spec_paginate(v@, offset, limit) =~= v@.subrange(start as int, end as int));
    let mut out: Vec<T> = Vec::new();
    let mut i: u32 = start;
    while i < end
        invariant
            start <= i <= end,
            end <= len32 <= v.len(),
            out@ == v@.subrange(start as int, i as int),
        decreases end - i,
    {
        out.push(v[i as usize]);
        i = i + 1;
        assert(out@ =~= v@.subrange(start as int, i as int));
    }
    out
}

/// A page never holds more than `MAX_QUERY_LIMIT` entries, nor more than
/// the limit asked for.
pub proof fn lemma_page_size_bounded<T>(s: Seq<T>, offset: u32, limit: u32)
    ensures
        spec_paginate(s, offset, limit).len() <= MAX_QUERY_LIMIT,
        spec_paginate(s, offset, limit).len() <= limit,
{
}

/// A limit of zero, or an offset at or past the end of the list, gives an
/// empty page.
pub proof fn lemma_page_empty_past_end<T>(s: Seq<T>, offset: u32, limit: u32)
    requires
        limit == 0 || offset >= s.len(),
    ensures
        spec_paginate(s, offset, limit) == Seq::<T>::empty(),
{
    assert(spec_paginate(s, offset, limit) =~= Seq::<T>::empty());
}

/// Every entry of a page is the entry of the list at position offset plus
/// its position in the page.
pub proof fn lemma_page_entries<T>(s: Seq<T>, offset: u32, limit: u32, i: int)
    requires
        0 <= i < spec_paginate(s, offset, limit).len(),
    ensures
        offset + i < s.len(),
        spec_paginate(s, offset, limit)[i] == s[offset + i],
{
}

/// Two consecutive pages of size `limit` are together the page of size
/// `2 * limit` at the same offset, as long as that fits under the cap.
pub proof fn lemma_consecutive_pages<T>(s: Seq<T>, offset: u32, limit: u32)
    requires
        2 * limit <= MAX_QUERY_LIMIT,
        offset + 2 * limit <= u32::MAX,
    ensures
        spec_paginate(s, offset, limit) + spec_paginate(s, (offset + limit) as u32, limit)
            == spec_paginate(s, offset, (2 * limit) as u32),
{
    assert(spec_paginate(s, offset, limit) + spec_paginate(s, (offset + limit) as u32, limit)
        =~= spec_paginate(s, offset, (2 * limit) as u32));
}

} // verus!
