//! The errors of the clipboard backends.

use vstd::prelude::*;

verus! {

/// Why a read or a write did not go through.
#[derive(Debug, Clone, PartialEq, Eq)]
pub enum IoError {
    /// The input ended before all requested bytes were there.
    UnexpectedEof,
    /// Any other failure, in the words of the system that reported it.
    Other(String),
}

/// What can go wrong while a clipboard backend is in use.
#[derive(Debug)]
pub enum ClipboardError {
    Io(IoError),
    Backend(String),
}

/// What can go wrong while a clipboard backend is opened.
#[derive(Debug)]
pub enum ClipboardCreationError {
    NoAvailableBackend,
    Backend(String),
}

} // verus!
