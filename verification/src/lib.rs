//! Permission-gated file workers for a request/response session runtime.
//!
//! A worker takes one request through a fixed order of steps: the fields are
//! extracted, the session is asked for permission, the file is opened, and
//! only then is it read or written. The library decides each step; the
//! caller does the file operations and reports back how they went.

use vstd::prelude::*;

pub mod file;
pub mod json;
pub mod laws;
pub mod outcome;
pub mod phase;
pub mod reader;
pub mod rejection;
pub mod request;
pub mod writer;

verus! {

/// The kind of access a session is asked to allow on a path.
#[derive(Clone, Copy, Debug, PartialEq, Eq, Structural)]
pub enum FileAccessPermission {
    CanRead,
    CanWrite,
    CanDelete,
}

/// A session that can say whether it allows an access to a path.
///
/// Nothing is promised of the answer: a worker acts on whatever the session
/// returns.
pub trait HasFileAccessPermission {
    fn has_permission(&self, path: &str, permission: FileAccessPermission) -> bool;
}

} // verus!
