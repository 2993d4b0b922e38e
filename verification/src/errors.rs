//! The error taxonomy of an export operation.
//!
//! Every failure of an export is one of these variants; each is terminal for
//! the operation and carries enough to render the human-readable message that
//! the caller displays.

use vstd::prelude::*;

verus! {

/// Which of the two caller-supplied paths a confinement failure concerns.
#[derive(Clone, Copy, Debug)]
pub enum PathRole {
    Source,
    Destination,
}

/// A terminal failure of one export operation.
#[derive(Debug)]
pub enum ExportError {
    /// The path (or, for the destination, its parent) could not be resolved
    /// to a canonical path; `detail` is the resolver's description.
    InvalidPath { role: PathRole, detail: String },
    /// The canonical path lies outside the trusted root.
    OutsideTrustedRoot { role: PathRole },
    /// The canonical source path does not refer to a directory.
    NotADirectory,
    /// The walk of the source tree failed; `detail` describes the failure.
    EnumerationError { detail: String },
    /// The archive could not be created, written or finalized; `detail`
    /// describes the failure.
    ArchiveError { detail: String },
}

/// The message that `ExportError::message` renders for an error.
pub open spec fn spec_message(e: ExportError) -> Seq<char> {
    match e {
        ExportError::InvalidPath { role: PathRole::Source, detail } => {
            "Invalid source directory: "@ + detail@
        },
        ExportError::InvalidPath { role: PathRole::Destination, detail } => {
            "Invalid output path: "@ + detail@
        },
        ExportError::OutsideTrustedRoot { role: PathRole::Source } => {
            "Source directory must be within user home directory"@
        },
        ExportError::OutsideTrustedRoot { role: PathRole::Destination } => {
            "Output path must be within user home directory"@
        },
        ExportError::NotADirectory => "Source directory does not exist"@,
        ExportError::EnumerationError { detail } => detail@,
        ExportError::ArchiveError { detail } => detail@,
    }
}

impl ExportError {
    /// The human-readable message shown to the caller.
    pub fn message(&self) -> (r: String)
        ensures
            r@ == spec_message(*self),
    {
        match self {
            ExportError::InvalidPath { role: PathRole::Source, detail } => {
                String::from_str("Invalid source directory: ").concat(detail.as_str())
            },
            ExportError::InvalidPath { role: PathRole::Destination, detail } => {
                String::from_str("Invalid output path: ").concat(detail.as_str())
            },
            ExportError::OutsideTrustedRoot { role: PathRole::Source } => {
                String::from_str("Source directory must be within user home directory")
            },
            ExportError::OutsideTrustedRoot { role: PathRole::Destination } => {
                String::from_str("Output path must be within user home directory")
            },
            ExportError::NotADirectory => String::from_str("Source directory does not exist"),
            ExportError::EnumerationError { detail } => detail.clone(),
            ExportError::ArchiveError { detail } => detail.clone(),
        }
    }
}

} // verus!
