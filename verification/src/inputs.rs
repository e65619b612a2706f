//! Task context as plain text.
//!
//! An [`Input`] carries the initial `context` value handed to the
//! execution environment.  Reading one out of a file or a PDF is the
//! context loader collaborator's work, outside this library; here the
//! content itself is held and the loader's failures are described.

use vstd::prelude::*;

verus! {

/// Failure to load task context.
#[derive(Debug)]
pub enum InputError {
    /// The named file does not exist.
    FileNotFound(String),
    /// The file could not be read as text.
    ReadError(String),
    /// The PDF could not be loaded or yielded no text.
    PdfError(String),
    /// The file's format is not supported.
    UnsupportedFormat(String),
}

impl InputError {
    /// A human-readable description of the failure.
    pub fn message(&self) -> (r: String)
        ensures
            self matches InputError::FileNotFound(p) ==> r@ == "File not found: "@ + p@,
            self matches InputError::ReadError(m) ==> r@ == "Error reading file: "@ + m@,
            self matches InputError::PdfError(m) ==> r@ == "Error processing PDF: "@ + m@,
            self matches InputError::UnsupportedFormat(m) ==> r@ == "Unsupported format: "@ + m@,
    {
        match self {
            InputError::FileNotFound(p) => {
                let mut r = String::from_str("File not found: ");
                r.append(p.as_str());
                r
            },
            InputError::ReadError(m) => {
                let mut r = String::from_str("Error reading file: ");
                r.append(m.as_str());
                r
            },
            InputError::PdfError(m) => {
                let mut r = String::from_str("Error processing PDF: ");
                r.append(m.as_str());
                r
            },
            InputError::UnsupportedFormat(m) => {
                let mut r = String::from_str("Unsupported format: ");
                r.append(m.as_str());
                r
            },
        }
    }
}

/// Task context, as the plain text the environment's `context` binding
/// will hold.
#[derive(Debug)]
pub struct Input {
    content: String,
}

impl View for Input {
    type V = Seq<char>;

    closed spec fn view(&self) -> Seq<char> {
        self.content@
    }
}

impl Input {
    /// Context from a string, exactly as given.
    pub fn from_string(content: String) -> (r: Input)
        ensures
            r@ == content@,
    {
        Input { content }
    }

    /// The content as text.
    pub fn content(&self) -> (r: &str)
        ensures
            r@ == self@,
    {
        self.content.as_str()
    }
}

} // verus!
