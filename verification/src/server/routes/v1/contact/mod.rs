//! Contact routes.

pub mod list;

use vstd::prelude::*;

verus! {

/// The routes under `/contact`.
#[derive(Debug, Clone, Copy, PartialEq, Eq)]
pub struct Router;

} // verus!
