//! Status codes of the stream's buffer queue.

use vstd::prelude::*;

verus! {

/// A buffer could not be handed to the stream.
#[derive(Clone, Copy, Debug, PartialEq, Eq, Structural)]
pub struct QueueError {
    pub errno: i32,
}

impl QueueError {
    /// The operating system's number for this error.
    pub fn raw_os_error(&self) -> (code: Option<i32>)
        ensures
            code == Some(self.errno),
    {
        Some(self.errno)
    }
}

/// The error number that a negative status stands for. The most negative status has no positive
/// counterpart and maps to the largest one.
pub open spec fn status_errno(result: i32) -> int {
    if result == i32::MIN {
        i32::MAX as int
    } else {
        -result
    }
}

/// Turns the status of a queue call into a result: negative statuses are error numbers.
pub fn check_queue_result(result: i32) -> (checked: Result<(), QueueError>)
    ensures
        checked is Ok <==> result >= 0,
        checked matches Err(error) ==> error.errno == status_errno(result),
{
    if result < 0 {
        let errno: i32 = if result == i32::MIN {
            i32::MAX
        } else {
            -result
        };
        return Err(QueueError { errno });
    }
    Ok(())
}

/// A status that is not negative is no error. A negative one is the error number that it is the
/// opposite of, or the largest one where there is no opposite.
pub proof fn negative_statuses_are_error_numbers(result: i32, checked: Result<(), QueueError>)
    requires
        call_ensures(check_queue_result, (result,), checked),
    ensures
        checked is Ok <==> result >= 0,
        checked matches Err(error) ==> {
            &&& error.errno > 0
            &&& result != i32::MIN ==> error.errno + result == 0
            &&& result == i32::MIN ==> error.errno == i32::MAX
        },
{
}

/// An error tells its number.
pub proof fn errors_tell_their_number(error: &QueueError, code: Option<i32>)
    requires
        call_ensures(QueueError::raw_os_error, (error,), code),
    ensures
        code matches Some(code) && code == error.errno,
{
}

} // verus!
