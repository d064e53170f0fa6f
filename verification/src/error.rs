//! The failures a build can end in.

use vstd::prelude::*;

verus! {

/// What went wrong.
#[derive(Debug, Clone, Copy, PartialEq, Eq, Structural)]
pub enum ErrorKind {
    /// There is no manifest file in the working directory.
    ManifestNotFound,
    /// The manifest could not be read as a package description.
    ManifestParseError,
    /// The license is not a valid license expression.
    InvalidLicenseExpression,
    /// A `%{name}` placeholder names something other than a known variable.
    UnrecognizedPlaceholder,
    /// A checksum lacks the `:` between algorithm and digest.
    InvalidChecksumFormat,
    /// A checksum names an algorithm the library cannot compute.
    UnsupportedHashAlgorithm,
    /// The bytes of a source do not have the declared digest.
    ChecksumMismatch,
    /// A source URL could not be parsed, or names no file.
    MalformedUrl,
    /// The download of a source failed.
    NetworkError,
    /// The file name of an archive does not end in a known extension.
    UnsupportedArchiveFormat,
    /// An archive could not be unpacked.
    ExtractionFailure,
    /// A step names a runner the library does not know.
    UnknownRunner,
    /// A step ran and reported failure, or could not be run.
    StepExecutionFailure,
}

/// A failure, with the entity it concerns.
#[derive(Debug, Clone, PartialEq, Eq)]
pub struct BuildError {
    /// What went wrong.
    pub kind: ErrorKind,
    /// The entity at fault: a step name, a source URL, a checksum, a
    /// placeholder name, a license, a runner identifier or a file name.
    pub subject: String,
    /// What an outside collaborator reported, empty where the library itself
    /// found the fault.
    pub detail: String,
}

/// The mathematical content of a [`BuildError`].
pub struct ErrorView {
    pub kind: ErrorKind,
    pub subject: Seq<char>,
    pub detail: Seq<char>,
}

impl View for BuildError {
    type V = ErrorView;

    open spec fn view(&self) -> ErrorView {
        ErrorView { kind: self.kind, subject: self.subject@, detail: self.detail@ }
    }
}

/// The failure of kind `kind` about `subject` that the library itself found.
pub open spec fn fault(kind: ErrorKind, subject: Seq<char>) -> ErrorView {
    ErrorView { kind, subject, detail: Seq::empty() }
}

impl BuildError {
    /// A failure that the library itself found.
    pub fn new(kind: ErrorKind, subject: String) -> (e: BuildError)
        ensures
            e@ == fault(kind, subject@),
    {
        BuildError { kind, subject, detail: String::new() }
    }

    /// A failure that an outside collaborator reported as `detail`.
    pub fn reported(kind: ErrorKind, subject: String, detail: String) -> (e: BuildError)
        ensures
            e@ == (ErrorView { kind, subject: subject@, detail: detail@ }),
    {
        BuildError { kind, subject, detail }
    }
}

} // verus!
