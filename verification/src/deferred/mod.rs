//! Deferred host operations.
use vstd::prelude::*;
use crate::vkraw::{RESULT_NOT_READY, RESULT_SUCCESS};

verus! {

/// What the result of a deferred operation (`vkGetDeferredOperationResultKHR`,
/// as a raw `VkResult`) says of its completion: success is complete, not
/// ready is not yet, anything else is an error.
pub open spec fn completion_spec(code: i32) -> Result<bool, i32> {
    if code == RESULT_SUCCESS {
        Ok(true)
    } else if code == RESULT_NOT_READY {
        Ok(false)
    } else {
        Err(code)
    }
}

/// `check_competion`: whether the deferred operation whose result is `code`
/// has completed.
pub fn completion_from_result(code: i32) -> (r: Result<bool, i32>)
    ensures
        r == completion_spec(code),
{
    if code == RESULT_SUCCESS {
        Ok(true)
    } else if code == RESULT_NOT_READY {
        Ok(false)
    } else {
        Err(code)
    }
}

/// `join` waits for an operation only when there is one (a non-null handle).
pub fn needs_join(operation: u64) -> (r: bool)
    ensures
        r == (operation != 0),
{
    operation != 0
}

} // verus!
