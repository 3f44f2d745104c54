//! Error reporting.

use vstd::prelude::*;
use vstd::string::*;

verus! {

/// The kinds of failure of the library's operations.
#[derive(Clone, Copy, Debug, PartialEq, Eq, Structural)]
pub enum ErrorKind {
    /// The template was not found in the window before the deadline.
    ImageNotFound,
    /// The window server refused a window list or delivered an incomplete frame.
    Platform,
    /// The template image could not be decoded as grayscale.
    TemplateLoad,
    /// The template is larger than the captured frame in some dimension.
    InvalidTemplateSize,
    /// No window is bound, or no input controller is attached.
    PreconditionViolation,
    /// A window-name pattern is not a valid regular expression.
    InvalidPattern,
    /// A mapped point lies outside the range of input-injection coordinates.
    CoordinateOutOfRange,
}

/// The heading that introduces an error of kind `k` in its description.
pub open spec fn heading(k: ErrorKind) -> Seq<char> {
    match k {
        ErrorKind::ImageNotFound => "Image not found: "@,
        ErrorKind::Platform => "Platform: "@,
        ErrorKind::TemplateLoad => "Template load: "@,
        ErrorKind::InvalidTemplateSize => "Invalid template size: "@,
        ErrorKind::PreconditionViolation => "Precondition violation: "@,
        ErrorKind::InvalidPattern => "Invalid pattern: "@,
        ErrorKind::CoordinateOutOfRange => "Coordinate out of range: "@,
    }
}

/// An error of the library.
#[derive(Clone, Debug)]
pub struct Error {
    /// A known kind of error.
    pub kind: ErrorKind,
    /// Details relative to the error.
    pub message: String,
}

impl Error {
    /// Creates an error of the given kind.
    pub fn new(kind: ErrorKind, message: String) -> (e: Error)
        ensures
            e.kind == kind,
            e.message@ == message@,
    {
        Error { kind, message }
    }

    /// The error as a line of text: a heading for its kind, then its details.
    pub fn describe(&self) -> (s: String)
        ensures
            s@ == heading(self.kind) + self.message@,
    {
        let head = match self.kind {
            ErrorKind::ImageNotFound => "Image not found: ",
            ErrorKind::Platform => "Platform: ",
            ErrorKind::TemplateLoad => "Template load: ",
            ErrorKind::InvalidTemplateSize => "Invalid template size: ",
            ErrorKind::PreconditionViolation => "Precondition violation: ",
            ErrorKind::InvalidPattern => "Invalid pattern: ",
            ErrorKind::CoordinateOutOfRange => "Coordinate out of range: ",
        };
        String::from_str(head).concat(self.message.as_str())
    }
}

} // verus!
