//! A small table to try expressions on.

use crate::engine::{column_names, engine_int32_frame, int32_column};
use polars::prelude::DataFrame;
use vstd::prelude::*;

verus! {

/// The table with the column `numbers`, holding 1, 2, 3, and the column
/// `modified_numbers`, holding 10, 20, 30.
pub fn sample_dataframe_with_modified() -> (frame: DataFrame)
    ensures
        column_names(frame) == seq!["numbers"@, "modified_numbers"@],
        int32_column(frame, "numbers"@) == seq![1i32, 2i32, 3i32],
        int32_column(frame, "modified_numbers"@) == seq![10i32, 20i32, 30i32],
{
    let numbers: Vec<i32> = vec![1, 2, 3];
    let modified: Vec<i32> = vec![10, 20, 30];
    proof {
        reveal_strlit("numbers");
        reveal_strlit("modified_numbers");
        assert("numbers"@.len() != "modified_numbers"@.len());
    }
    engine_int32_frame("numbers", numbers, "modified_numbers", modified)
}

} // verus!
