//! Native status codes and their translation into `Result`.

use vstd::prelude::*;

verus! {

/// A status code as the native library reports it.
pub type StatusCode = i32;

/// The one code that reports success.
pub const SUCCESS: StatusCode = 0;

/// The native library could not allocate host memory.
pub const ERROR_OUT_OF_HOST_MEMORY: StatusCode = -1;

/// The native library could not allocate device memory.
pub const ERROR_OUT_OF_DEVICE_MEMORY: StatusCode = -2;

/// What a native report means: the produced value on the success code,
/// the code itself otherwise.
pub open spec fn translated<T>(code: StatusCode, value: T) -> Result<T, StatusCode> {
    if code == SUCCESS {
        Ok(value)
    } else {
        Err(code)
    }
}

/// Pairs the value a native operation produced with the code it reported.
pub fn with_status<T>(code: StatusCode, value: T) -> (r: Result<T, StatusCode>)
    ensures
        r == translated(code, value),
{
    if code == SUCCESS {
        Ok(value)
    } else {
        Err(code)
    }
}

/// Translates the code of a native operation that produces nothing.
pub fn check_status(code: StatusCode) -> (r: Result<(), StatusCode>)
    ensures
        r == translated(code, ()),
{
    with_status(code, ())
}

} // verus!
