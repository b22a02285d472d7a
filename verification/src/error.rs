//! The failures that the pipeline reports.

use vstd::prelude::*;

verus! {

/// What went wrong.
#[derive(Clone, Copy, Debug, PartialEq, Eq, Structural)]
pub enum ErrorKind {
    /// A file or a named container is missing.
    NotFound,
    /// The package file is neither of the two formats.
    FormatUnknown,
    /// A container's distribution family could not be told.
    ClassificationFailure,
    /// Selection ended without a usable container.
    NoMatchFound,
    /// The copy inside the container differs in size from the local file.
    IntegrityMismatch,
    /// Every way of running the installation failed.
    InstallFailure,
    /// One item could not be published; never fatal.
    ExportFailure,
    /// Settings could not be read or written; never fatal.
    ConfigIo,
}

/// A failure together with the text shown to the user.
#[derive(Clone, Debug, PartialEq, Eq)]
pub struct BridgeError {
    pub kind: ErrorKind,
    pub message: String,
}

/// What a [`BridgeError`] holds.
pub struct BridgeErrorView {
    pub kind: ErrorKind,
    pub message: Seq<char>,
}

impl View for BridgeError {
    type V = BridgeErrorView;

    open spec fn view(&self) -> BridgeErrorView {
        BridgeErrorView { kind: self.kind, message: self.message@ }
    }
}

impl BridgeError {
    /// The text shown to the user.
    pub fn to_text(&self) -> (s: String)
        ensures
            s@ == self.message@,
    {
        self.message.clone()
    }

    /// Whether this failure ends the whole operation: failures to publish an
    /// item and failures to store settings do not.
    pub fn is_fatal(&self) -> (b: bool)
        ensures
            b == fatal(self.kind),
    {
        match self.kind {
            ErrorKind::ExportFailure => false,
            ErrorKind::ConfigIo => false,
            _ => true,
        }
    }
}

/// Whether a failure of this kind ends the whole operation.
pub open spec fn fatal(kind: ErrorKind) -> bool {
    kind != ErrorKind::ExportFailure && kind != ErrorKind::ConfigIo
}

} // verus!
