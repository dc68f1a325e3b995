//! The error taxonomy of the scaffold-and-build orchestrator.

use vstd::prelude::*;

verus! {

/// Every failure a scaffold or build operation can report.
///
/// The first four variants are decided by the verified planning logic;
/// `CollaboratorFailure` and `IoFailure` are raised by the unverified
/// driver when an external process or a filesystem operation fails.
#[derive(Debug, PartialEq, Eq)]
pub enum Error {
    /// The proposed unit name does not match the template's name pattern.
    /// Nothing was written to disk.
    InvalidName,
    /// The unit's target directory already exists. Nothing was written.
    AlreadyExists,
    /// The requested package set was empty.
    EmptyRequest,
    /// No requested package survived the allow-list filter.
    NothingBuildable,
    /// An external process (formatter, linter, package manager) could not
    /// be spawned or exited with failure; carries the attempted command.
    CollaboratorFailure(String),
    /// A filesystem read, write, or create failed; carries the path.
    IoFailure(String),
}

} // verus!
