use vstd::prelude::*;

verus! {

/// What a lookup of one top-level key in a JSON object found.
///
/// Only the distinctions that validation acts on are kept: a string field
/// (with its contents), a field holding an unsigned 64-bit integer (with its
/// value), an absent field, and a field of any other JSON shape.
#[derive(Debug, PartialEq, Eq)]
pub enum JsonField {
    /// The key does not occur in the object.
    Missing,
    /// The key holds a JSON string with these contents.
    Text(String),
    /// The key holds a JSON number that is an integer in unsigned 64-bit range.
    UInt(u64),
    /// The key holds a JSON value of any other shape (boolean, float,
    /// negative or oversized number, array, object, null).
    Other,
}

/// The part of a parsed JSON document that validation reads: whether the top
/// level is an object, and what the keys `format` and `version` hold.
#[derive(Debug, PartialEq, Eq)]
pub struct DocumentShape {
    /// Whether the top-level JSON value is an object.
    pub is_object: bool,
    /// What the key `format` holds. `Missing` when the top level is not an object.
    pub format: JsonField,
    /// What the key `version` holds. `Missing` when the top level is not an object.
    pub version: JsonField,
}

/// The successful result of validating one input document.
#[derive(Debug, PartialEq, Eq)]
pub struct ValidationSummary {
    /// The declared format token, present only when the input declared one
    /// and it was recognized.
    pub format: Option<String>,
    /// The declared version number, present only when the input declared one.
    pub version: Option<u64>,
    /// Whether the input object contained a `format` key at all.
    pub format_declared: bool,
}

/// The first rule an invalid input violated.
#[derive(Debug, PartialEq, Eq)]
pub enum ValidationError {
    /// Reading the input failed; carries the rendered cause.
    Io(String),
    /// The input is not well-formed JSON; carries the parser's message.
    Parse(String),
    /// The top-level JSON value is not an object.
    NotObject,
    /// The `format` field is present but not a string.
    FormatNotString,
    /// The `format` field is a string outside the recognized set; carries it.
    UnknownFormat(String),
    /// Declared and expected formats are both recognized but differ; carries
    /// both canonical tokens.
    FormatMismatch { expected: String, found: String },
    /// The `version` field is present but not a non-negative integer in
    /// unsigned 64-bit range.
    InvalidVersionType,
}

/// Mathematical model of a `JsonField`: string contents as character sequences.
pub enum FieldView {
    Missing,
    Text(Seq<char>),
    UInt(u64),
    Other,
}

/// Mathematical model of a `DocumentShape`.
pub struct DocView {
    pub is_object: bool,
    pub format: FieldView,
    pub version: FieldView,
}

/// Mathematical model of a `ValidationSummary`.
pub struct SummaryView {
    pub format: Option<Seq<char>>,
    pub version: Option<u64>,
    pub format_declared: bool,
}

/// Mathematical model of a `ValidationError`.
pub enum ErrorView {
    Io(Seq<char>),
    Parse(Seq<char>),
    NotObject,
    FormatNotString,
    UnknownFormat(Seq<char>),
    FormatMismatch { expected: Seq<char>, found: Seq<char> },
    InvalidVersionType,
}

impl View for JsonField {
    type V = FieldView;

    open spec fn view(&self) -> FieldView {
        match self {
            JsonField::Missing => FieldView::Missing,
            JsonField::Text(s) => FieldView::Text(s@),
            JsonField::UInt(n) => FieldView::UInt(*n),
            JsonField::Other => FieldView::Other,
        }
    }
}

impl View for DocumentShape {
    type V = DocView;

    open spec fn view(&self) -> DocView {
        DocView { is_object: self.is_object, format: self.format@, version: self.version@ }
    }
}

impl View for ValidationSummary {
    type V = SummaryView;

    open spec fn view(&self) -> SummaryView {
        SummaryView {
            format: match self.format {
                Some(s) => Some(s@),
                None => None,
            },
            version: self.version,
            format_declared: self.format_declared,
        }
    }
}

impl View for ValidationError {
    type V = ErrorView;

    open spec fn view(&self) -> ErrorView {
        match self {
            ValidationError::Io(s) => ErrorView::Io(s@),
            ValidationError::Parse(s) => ErrorView::Parse(s@),
            ValidationError::NotObject => ErrorView::NotObject,
            ValidationError::FormatNotString => ErrorView::FormatNotString,
            ValidationError::UnknownFormat(s) => ErrorView::UnknownFormat(s@),
            ValidationError::FormatMismatch { expected, found } => ErrorView::FormatMismatch {
                expected: expected@,
                found: found@,
            },
            ValidationError::InvalidVersionType => ErrorView::InvalidVersionType,
        }
    }
}

/// The model of one validation outcome: views of the summary or the error.
pub open spec fn outcome_view(r: Result<ValidationSummary, ValidationError>) -> Result<
    SummaryView,
    ErrorView,
> {
    match r {
        Ok(s) => Ok(s@),
        Err(e) => Err(e@),
    }
}

} // verus!
