use vstd::prelude::*;

verus! {

/// Which of the two inputs could not be laid out as a boundary buffer.
#[derive(Clone, Copy, Debug, PartialEq, Eq)]
pub enum BoundaryField {
    /// The template text.
    Template,
    /// The JSON text of the data.
    Data,
}

/// The category of a failed render, for callers to branch on.
#[derive(Clone, Copy, Debug, PartialEq, Eq)]
pub enum ErrorKind {
    /// An input holds a null byte, at `position`, and cannot cross the
    /// boundary, where text is null-terminated.
    InvalidInput { field: BoundaryField, position: usize },
    /// The data could not be serialized to JSON.
    Serialization,
    /// The engine reported an error.
    Execution,
}

/// Why a render did not produce output: its category, and the message of the
/// serializer or of the engine, verbatim (empty for `InvalidInput`).
#[derive(Clone, Debug, PartialEq, Eq)]
pub struct TemplateError {
    pub kind: ErrorKind,
    pub message: String,
}

/// The text of `e`: a fixed lead for its category, then its message.
pub open spec fn error_text(e: TemplateError) -> Seq<char> {
    match e.kind {
        ErrorKind::InvalidInput { field: BoundaryField::Template, .. } => (
        "Go Template Error: Failed to convert template content to CString")@,
        ErrorKind::InvalidInput { field: BoundaryField::Data, .. } => (
        "Go Template Error: Failed to convert JSON data string to CString")@,
        ErrorKind::Serialization => ("Go Template Error: Failed to serialize data to JSON: ")@
            + e.message@,
        ErrorKind::Execution => ("Go Template Error: ")@ + e.message@,
    }
}

impl TemplateError {
    /// The error as text, for a person to read.
    pub fn to_string(&self) -> (r: String)
        ensures
            r@ == error_text(*self),
    {
        match self.kind {
            ErrorKind::InvalidInput { field: BoundaryField::Template, .. } => String::from_str(
                "Go Template Error: Failed to convert template content to CString",
            ),
            ErrorKind::InvalidInput { field: BoundaryField::Data, .. } => String::from_str(
                "Go Template Error: Failed to convert JSON data string to CString",
            ),
            ErrorKind::Serialization => {
                let mut r = String::from_str("Go Template Error: Failed to serialize data to JSON: ");
                r.append(self.message.as_str());
                r
            },
            ErrorKind::Execution => {
                let mut r = String::from_str("Go Template Error: ");
                r.append(self.message.as_str());
                r
            },
        }
    }
}

} // verus!
