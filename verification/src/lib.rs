//! A portable, type-safe layer over two operating-system interfaces: the
//! ioctl command-encoding protocol used to construct device-control request
//! codes, and the socket creation/configuration syscalls with their
//! platform-specific constant tables.
//!
//! The raw syscalls themselves are collaborators performed by an unverified
//! shell around this crate; everything here is pure logic: bit-exact command
//! encoding, constant tables, and the decision logic that chooses between
//! atomic flag application and the sequential polyfill.

pub mod consts_darwin;
pub mod consts_linux;
pub mod ioctl;
pub mod socket;

use vstd::prelude::*;

verus! {

/// The error carried by every fallible socket operation: the OS-reported
/// error code, captured immediately after the failing call.
#[derive(Clone, Copy, PartialEq, Eq, Structural, Debug)]
pub struct SysError {
    pub errno: i32,
}

/// Result type of every fallible socket operation.
pub type SysResult<T> = Result<T, SysError>;

} // verus!
