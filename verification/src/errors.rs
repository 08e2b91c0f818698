//! Error taxonomy of the scanning pipeline.

use vstd::prelude::*;

verus! {

/// The ways a single read of kernel state can fail.
///
/// `NotFound` and `PermissionDenied` are per-entity failures: the entity
/// vanished between discovery and the read, or the caller lacks rights to
/// query it. Both are always absorbed locally by substituting a default
/// field value. `EnumerationFailure` means the top-level discovery source
/// itself is inaccessible; it is fatal, since no meaningful partial report
/// is possible.
#[derive(Clone, Copy, Debug, PartialEq, Eq, Structural)]
pub enum ScanError {
    NotFound,
    PermissionDenied,
    EnumerationFailure,
}

} // verus!
