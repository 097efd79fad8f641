//! The request path: mapping a request's sort-order parameter to the
//! cached view that answers it.  The HTTP surface around it performs no
//! I/O of its own beyond reading the cache.

use vstd::prelude::*;
use crate::models::SortKey;
use crate::state::CachedTemplates;
use crate::templates::RenderedView;

verus! {

use vstd::string::StringExecFns;

/// The sort order a request's `order_by` parameter selects: `-value` the
/// descending view, `value` the ascending view, anything else — or no
/// parameter — the default view.
pub open spec fn sort_key_of_param(order_by: Option<String>) -> SortKey {
    match order_by {
        Some(s) => if s@ == "-value"@ {
            SortKey::ValueDescending
        } else if s@ == "value"@ {
            SortKey::ValueAscending
        } else {
            SortKey::DefaultOrder
        },
        None => SortKey::DefaultOrder,
    }
}

/// Parses the `order_by` query parameter into a sort order.
pub fn parse_order_by(order_by: &Option<String>) -> (key: SortKey)
    ensures
        key == sort_key_of_param(*order_by),
{
    match order_by {
        Some(s) => {
            let desc = String::from_str("-value");
            let asc = String::from_str("value");
            if s.eq(&desc) {
                SortKey::ValueDescending
            } else if s.eq(&asc) {
                SortKey::ValueAscending
            } else {
                SortKey::DefaultOrder
            }
        },
        None => SortKey::DefaultOrder,
    }
}

/// Answers an index request: the cached view for the requested sort order,
/// the default view when no order is requested.  Before the first
/// successful refresh cycle this is the placeholder view, not an error.
pub fn index<'a>(cache: &'a CachedTemplates, order_by: &Option<String>) -> (v: &'a RenderedView)
    ensures
        *v == cache.spec_get(sort_key_of_param(*order_by)),
{
    let key = parse_order_by(order_by);
    cache.get(key)
}

} // verus!
