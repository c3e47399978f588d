//! What can go wrong, and the message that reports it.

use vstd::prelude::*;
use crate::surface::SurfaceKind;

verus! {

/// The step at which an operation failed.
#[derive(Clone, Copy, Debug, PartialEq, Eq, Structural)]
pub enum ErrorKind {
    /// The query for the current windows or monitors failed.
    Enumeration,
    /// No surface of the current enumeration has the id that was asked for.
    NotFound,
    /// The surface exists but cannot be captured as it is now.
    UnsupportedState,
    /// The pixels of the surface could not be had.
    Capture,
    /// A directory or a file could not be created, written or deleted.
    Storage,
}

/// A failure: its kind, and a message that names the failing step.
#[derive(Clone, Debug, PartialEq, Eq)]
pub struct ScreenshotError {
    pub kind: ErrorKind,
    pub message: String,
}

/// A failure as contracts speak of it.
pub ghost struct ErrorView {
    pub kind: ErrorKind,
    pub message: Seq<char>,
}

impl View for ScreenshotError {
    type V = ErrorView;

    open spec fn view(&self) -> ErrorView {
        ErrorView { kind: self.kind, message: self.message@ }
    }
}

/// The failure of kind `kind` that carries the message of the step that
/// failed, unchanged.
pub open spec fn reported(kind: ErrorKind, message: Seq<char>) -> ErrorView {
    ErrorView { kind, message }
}

/// The failure for an id that no surface of the kind has.
pub open spec fn not_found(kind: SurfaceKind) -> ErrorView {
    ErrorView {
        kind: ErrorKind::NotFound,
        message: match kind {
            SurfaceKind::Window => "Window not found"@,
            SurfaceKind::Monitor => "Monitor not found"@,
        },
    }
}

/// The failure for a window that is minimized when it is to be captured.
pub open spec fn minimized() -> ErrorView {
    ErrorView {
        kind: ErrorKind::UnsupportedState,
        message: "Minimized windows can't take screenshots"@,
    }
}

impl ScreenshotError {
    /// A failure of kind `kind` with the message that the failing step gave.
    pub fn new(kind: ErrorKind, message: String) -> (e: ScreenshotError)
        ensures
            e@ == reported(kind, message@),
    {
        ScreenshotError { kind, message }
    }

    /// No surface of kind `kind` has the id.
    pub fn not_found(kind: SurfaceKind) -> (e: ScreenshotError)
        ensures
            e@ == not_found(kind),
    {
        let message: String = match kind {
            SurfaceKind::Window => String::from_str("Window not found"),
            SurfaceKind::Monitor => String::from_str("Monitor not found"),
        };
        ScreenshotError { kind: ErrorKind::NotFound, message }
    }

    /// The window is minimized.
    pub fn minimized() -> (e: ScreenshotError)
        ensures
            e@ == minimized(),
    {
        ScreenshotError {
            kind: ErrorKind::UnsupportedState,
            message: String::from_str("Minimized windows can't take screenshots"),
        }
    }

    /// The kind of the failure.
    pub fn kind(&self) -> (k: ErrorKind)
        ensures
            k == self@.kind,
    {
        self.kind
    }

    /// The message, as a caller shows it.
    pub fn to_string(&self) -> (s: String)
        ensures
            s@ == self@.message,
    {
        self.message.clone()
    }
}

} // verus!
