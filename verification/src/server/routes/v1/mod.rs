//! Version 1 of the routes.

pub mod account;
pub mod contact;

use vstd::prelude::*;
use crate::requests::filter::FilterExpr;

verus! {

/// The routes under `/v1`.
#[derive(Debug, Clone, Copy, PartialEq, Eq)]
pub struct Router;

/// The filter that adds `new_filter` to `existing_filter`: both must hold in
/// AND mode, either in OR mode; the existing filter comes first.
pub open spec fn combined_filter<T>(
    existing_filter: Option<FilterExpr<T>>,
    new_filter: FilterExpr<T>,
    and_mode: bool,
) -> FilterExpr<T> {
    match existing_filter {
        Some(x) => if and_mode {
            FilterExpr::And(Box::new(x), Box::new(new_filter))
        } else {
            FilterExpr::Or(Box::new(x), Box::new(new_filter))
        },
        None => new_filter,
    }
}

/// Adds `new_filter` to `existing_filter`, as [`combined_filter`] says.
pub fn set_filter<T>(existing_filter: Option<FilterExpr<T>>, new_filter: FilterExpr<T>, and_mode: bool) -> (f: FilterExpr<T>)
    ensures
        f == combined_filter(existing_filter, new_filter, and_mode),
{
    match existing_filter {
        Some(x) => if and_mode {
            x.join_and(new_filter)
        } else {
            x.join_or(new_filter)
        },
        None => new_filter,
    }
}


/// The filter that adds an optional condition to an optional filter: the
/// filter unchanged where there is no condition, else the two joined as
/// [`combined_filter`] says.
pub open spec fn with_condition<T>(
    existing_filter: Option<FilterExpr<T>>,
    condition: Option<FilterExpr<T>>,
    and_mode: bool,
) -> Option<FilterExpr<T>> {
    match condition {
        Some(c) => Some(combined_filter(existing_filter, c, and_mode)),
        None => existing_filter,
    }
}

/// Adds an optional condition to an optional filter, as [`with_condition`]
/// says.
pub fn add_condition<T>(
    existing_filter: Option<FilterExpr<T>>,
    condition: Option<FilterExpr<T>>,
    and_mode: bool,
) -> (f: Option<FilterExpr<T>>)
    ensures
        f == with_condition(existing_filter, condition, and_mode),
{
    match condition {
        Some(c) => Some(set_filter(existing_filter, c, and_mode)),
        None => existing_filter,
    }
}

} // verus!
