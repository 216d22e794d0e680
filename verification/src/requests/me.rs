//! The current user's accounting division.

use vstd::prelude::*;
use crate::requests::error::{ExactError, ExactResult};

verus! {

/// The path that asks for the current user's divisions.
pub const CURRENT_ME_PATH: &'static str =
    "/api/v1/current/Me?$select=AccountingDivision,CurrentDivision";

/// One record of the `current/Me` answer.
pub struct CurrentDivisionRow {
    pub current_division: i32,
}

/// The current division of the first record; `NotFound` when there is none.
pub fn current_division(rows: &Vec<CurrentDivisionRow>) -> (r: ExactResult<i32>)
    ensures
        rows@.len() == 0 ==> r matches Err(ExactError::NotFound),
        rows@.len() > 0 ==> r == Ok::<i32, ExactError>(rows@[0].current_division),
{
    if rows.len() == 0 {
        Err(ExactError::NotFound)
    } else {
        Ok(rows[0].current_division)
    }
}

} // verus!
