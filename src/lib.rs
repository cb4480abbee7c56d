//! Ownership-tracked handles over a native GPU device.
//!
//! The native library does the work; this crate decides what its reports
//! mean. Every fallible native operation answers with a status code, and
//! this crate turns that code, together with whatever the operation wrote
//! to its output parameter, into a `Result`: the success code yields the
//! produced object, any other code is returned to the caller unchanged.

pub mod status;
pub mod device;
pub mod flags;
pub mod info;
