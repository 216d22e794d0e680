//! Filters of list requests, held as a tree of conditions; rendering one as
//! an OData `$filter` text is left to the filter crate of the caller.

use vstd::prelude::*;

verus! {

/// How a condition compares a field with its value.
pub enum FilterOp {
    Equals,
}

/// The value that a condition compares a field with.
pub enum FilterValue {
    /// An identifier: `guid'value'`.
    Guid(String),
    /// A text: `'value'`.
    Text(String),
}

/// A filter over fields named by `T`.
pub enum FilterExpr<T> {
    /// `field op value`
    Condition { field: T, value: FilterValue, op: FilterOp },
    /// Both filters hold.
    And(Box<FilterExpr<T>>, Box<FilterExpr<T>>),
    /// Either filter holds.
    Or(Box<FilterExpr<T>>, Box<FilterExpr<T>>),
}

impl<T> FilterExpr<T> {
    /// A condition on one field.
    pub fn new(field: T, value: FilterValue, op: FilterOp) -> (f: FilterExpr<T>)
        ensures
            f == (FilterExpr::Condition { field, value, op }),
    {
        FilterExpr::Condition { field, value, op }
    }

    /// This filter and `other`.
    pub fn join_and(self, other: FilterExpr<T>) -> (f: FilterExpr<T>)
        ensures
            f == FilterExpr::And(Box::new(self), Box::new(other)),
    {
        FilterExpr::And(Box::new(self), Box::new(other))
    }

    /// This filter or `other`.
    pub fn join_or(self, other: FilterExpr<T>) -> (f: FilterExpr<T>)
        ensures
            f == FilterExpr::Or(Box::new(self), Box::new(other)),
    {
        FilterExpr::Or(Box::new(self), Box::new(other))
    }
}

} // verus!
