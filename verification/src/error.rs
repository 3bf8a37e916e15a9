//! The failures that clipboard operations report.

use vstd::prelude::*;

verus! {

/// Why an operation on clipboard content failed.
#[derive(Clone, Debug, PartialEq, Eq)]
pub enum ClipboardError {
    /// The requested representation is not on the clipboard.
    FormatUnavailable,
    /// The content has no textual form.
    NotText,
    /// The value is the empty sentinel, or an empty list, and holds no data.
    EmptyContent,
    /// Bytes were present but malformed; the payload is the diagnostic.
    Decode(String),
    /// The image codec could not produce the requested encoding.
    Encode(String),
    /// The platform's clipboard call failed.
    OsBinding(String),
    /// A file could not be read or written.
    Io(String),
}

/// The diagnostic used when bytes offered as text are not UTF-8.
pub open spec fn invalid_text_message() -> Seq<char> {
    "content is not valid UTF-8"@
}

impl ClipboardError {
    /// The text that describes the failure to a person.
    pub open spec fn spec_message(&self) -> Seq<char> {
        match self {
            ClipboardError::FormatUnavailable => "format is not available"@,
            ClipboardError::NotText => "can't convert image to string"@,
            ClipboardError::EmptyContent => "content is empty"@,
            ClipboardError::Decode(m) => m@,
            ClipboardError::Encode(m) => m@,
            ClipboardError::OsBinding(m) => m@,
            ClipboardError::Io(m) => m@,
        }
    }

    /// Describes the failure: a fixed sentence for the kinds without a
    /// payload, the carried diagnostic for the others.
    pub fn message(&self) -> (text: String)
        ensures
            text@ == self.spec_message(),
    {
        match self {
            ClipboardError::FormatUnavailable => "format is not available".to_owned(),
            ClipboardError::NotText => "can't convert image to string".to_owned(),
            ClipboardError::EmptyContent => "content is empty".to_owned(),
            ClipboardError::Decode(m) => m.clone(),
            ClipboardError::Encode(m) => m.clone(),
            ClipboardError::OsBinding(m) => m.clone(),
            ClipboardError::Io(m) => m.clone(),
        }
    }
}

} // verus!
