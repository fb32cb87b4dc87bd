//! Product listing and deletion rules.

use vstd::prelude::*;
use crate::domain::product::Product;

verus! {

/// The page size used for a requested size: at least 1, at most 200.
pub open spec fn page_limit(size: i64) -> int {
    if size < 1 { 1 } else if size > 200 { 200 } else { size as int }
}

/// The offset of a requested page (pages count from 1; lower ones count as 1).
pub open spec fn page_offset(page: i64, size: i64) -> int {
    ((if page < 1 { 1 } else { page as int }) - 1) * page_limit(size)
}

/// The limit and offset of a page of products.
pub fn page_window(page: i64, size: i64) -> (r: (i64, i64))
    requires
        page_offset(page, size) <= i64::MAX,
    ensures
        r.0 == page_limit(size),
        r.1 == page_offset(page, size),
{
    let limit: i64 = if size < 1 { 1 } else if size > 200 { 200 } else { size };
    let first: i64 = if page < 1 { 1 } else { page };
    assert((first - 1) * limit == page_offset(page, size));
    let offset: i64 = (first - 1) * limit;
    (limit, offset)
}

/// A product may be deleted only while no device belongs to it.
pub fn product_deletable(device_count: i64) -> (b: bool)
    ensures
        b == (device_count <= 0),
{
    !(device_count > 0)
}

/// The id of a product that exists and has one.
pub fn product_id_of(product: Option<Product>) -> (r: Option<i64>)
    ensures
        r == (match product { Some(p) => p.id, None => None }),
{
    match product {
        Some(p) => p.id,
        None => None,
    }
}

} // verus!
