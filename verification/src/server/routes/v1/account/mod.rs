//! Account routes.

pub mod list;

use vstd::prelude::*;

verus! {

/// The routes under `/account`.
#[derive(Debug, Clone, Copy, PartialEq, Eq)]
pub struct Router;

} // verus!
