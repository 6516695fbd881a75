use vstd::prelude::*;

use crate::format::GuildFormat;
use crate::format::recognized;
use crate::format::token_of;
use crate::json::document_of;
use crate::json::json_error_string;
use crate::json::json_parses;
use crate::json::probe_text;
use crate::model::DocView;
use crate::model::DocumentShape;
use crate::model::ErrorView;
use crate::model::FieldView;
use crate::model::JsonField;
use crate::model::SummaryView;
use crate::model::ValidationError;
use crate::model::ValidationSummary;
use crate::model::outcome_view;

verus! {

/// The outcome the version rule assigns, once the format rules have passed
/// with the given summary fields.
pub open spec fn version_step(
    format: Option<Seq<char>>,
    format_declared: bool,
    version: FieldView,
) -> Result<SummaryView, ErrorView> {
    match version {
        FieldView::Missing => Ok(
            SummaryView { format, version: None, format_declared },
        ),
        FieldView::UInt(n) => Ok(
            SummaryView { format, version: Some(n), format_declared },
        ),
        FieldView::Text(_) => Err(ErrorView::InvalidVersionType),
        FieldView::Other => Err(ErrorView::InvalidVersionType),
    }
}

/// The outcome validation assigns to a document of the given shape under the
/// given expectation: the rules in order, the first violated one reported.
pub open spec fn validate_spec(doc: DocView, expected: Option<GuildFormat>) -> Result<
    SummaryView,
    ErrorView,
> {
    if !doc.is_object {
        Err(ErrorView::NotObject)
    } else {
        match doc.format {
            FieldView::Missing => version_step(None, false, doc.version),
            FieldView::Text(s) => if !recognized(s) {
                Err(ErrorView::UnknownFormat(s))
            } else {
                match expected {
                    Some(e) => if s != token_of(e) {
                        Err(ErrorView::FormatMismatch { expected: token_of(e), found: s })
                    } else {
                        version_step(Some(s), true, doc.version)
                    },
                    None => version_step(Some(s), true, doc.version),
                }
            },
            FieldView::UInt(_) => Err(ErrorView::FormatNotString),
            FieldView::Other => Err(ErrorView::FormatNotString),
        }
    }
}

/// Whether a string equals a recognized-token literal.
fn str_matches(s: &String, token: &str) -> (r: bool)
    ensures
        r == (s@ == token@),
{
    let owned: String = token.to_owned();
    *s == owned
}

/// Apply the validation rules to an already-probed document shape.
///
/// The outcome is exactly what `validate_spec` assigns to the shape's model.
pub fn evaluate(doc: &DocumentShape, expected: Option<GuildFormat>) -> (r: Result<
    ValidationSummary,
    ValidationError,
>)
    ensures
        outcome_view(r) == validate_spec(doc@, expected),
{
    if !doc.is_object {
        return Err(ValidationError::NotObject);
    }
    let mut format: Option<String> = None;
    let mut format_declared = false;
    match &doc.format {
        JsonField::Missing => {},
        JsonField::Text(s) => {
            format_declared = true;
            let is_dump = str_matches(s, "dump");
            let is_upload = str_matches(s, "upload");
            if !is_dump && !is_upload {
                return Err(ValidationError::UnknownFormat(s.clone()));
            }
            if let Some(e) = expected {
                let token = e.as_str();
                if !str_matches(s, token) {
                    return Err(ValidationError::FormatMismatch {
                        expected: token.to_owned(),
                        found: s.clone(),
                    });
                }
            }
            format = Some(s.clone());
        },
        JsonField::UInt(_) => {
            return Err(ValidationError::FormatNotString);
        },
        JsonField::Other => {
            return Err(ValidationError::FormatNotString);
        },
    }
    let version: Option<u64> = match &doc.version {
        JsonField::Missing => None,
        JsonField::UInt(n) => Some(*n),
        JsonField::Text(_) => {
            return Err(ValidationError::InvalidVersionType);
        },
        JsonField::Other => {
            return Err(ValidationError::InvalidVersionType);
        },
    };
    Ok(ValidationSummary { format, version, format_declared })
}

/// What every successful summary satisfies: a reported format token was
/// declared and recognized, and matches the expectation when one was given.
pub open spec fn summary_consistent(s: SummaryView, expected: Option<GuildFormat>) -> bool {
    &&& (s.format matches Some(f) ==> s.format_declared && recognized(f))
    &&& (s.format matches Some(f) ==> (expected matches Some(e) ==> f == token_of(e)))
}

/// What every validation error of a parsed document satisfies: a mismatch
/// carries the expected token and a recognized, differing found token, an
/// unknown format carries an unrecognized token, and no read failure is
/// reported.
pub open spec fn error_consistent(e: ErrorView, expected: Option<GuildFormat>) -> bool {
    &&& (e matches ErrorView::FormatMismatch { expected: ex, found } ==> {
        &&& expected matches Some(g) && ex == token_of(g)
        &&& recognized(found)
        &&& found != ex
    })
    &&& (e matches ErrorView::UnknownFormat(f) ==> !recognized(f))
    &&& !(e is Io)
}

/// Every outcome `validate_spec` assigns is consistent in the sense of
/// `summary_consistent` and `error_consistent`.
pub proof fn lemma_validate_spec_consistent(doc: DocView, expected: Option<GuildFormat>)
    ensures
        validate_spec(doc, expected) matches Ok(s) ==> summary_consistent(s, expected),
        validate_spec(doc, expected) matches Err(e) ==> error_consistent(e, expected),
{
}

/// A version field is well-typed when it is absent or holds an unsigned
/// 64-bit integer.
pub open spec fn version_field_ok(v: FieldView) -> bool {
    v is Missing || v is UInt
}

/// The format rules pass when the field is absent, or declares a recognized
/// token that matches the expectation where one was given.
pub open spec fn format_accepted(f: FieldView, expected: Option<GuildFormat>) -> bool {
    match f {
        FieldView::Missing => true,
        FieldView::Text(s) => recognized(s) && (expected matches Some(e) ==> s == token_of(e)),
        FieldView::UInt(_) => false,
        FieldView::Other => false,
    }
}

/// An object that declares neither `format` nor `version` validates
/// successfully with an empty summary, whatever format was expected.
pub proof fn lemma_absent_fields_accepted(doc: DocView, expected: Option<GuildFormat>)
    requires
        doc.is_object,
        doc.format is Missing,
        doc.version is Missing,
    ensures
        validate_spec(doc, expected) == Ok::<SummaryView, ErrorView>(
            SummaryView { format: None, version: None, format_declared: false },
        ),
{
}

/// An object declaring the format `dump`, with no expectation and a
/// well-typed version field, validates successfully and reports the declared
/// token.
pub proof fn lemma_declared_dump_accepted(doc: DocView)
    requires
        doc.is_object,
        doc.format == FieldView::Text("dump"@),
        version_field_ok(doc.version),
    ensures
        validate_spec(doc, None) matches Ok(s) && s.format == Some("dump"@) && s.format_declared,
{
}

/// A declared, recognized format that differs from the expected one fails
/// with a mismatch carrying both canonical tokens, whatever the version
/// holds.
pub proof fn lemma_mismatch_reported(doc: DocView, e: GuildFormat)
    requires
        doc.is_object,
        doc.format is Text,
        recognized(doc.format->Text_0),
        doc.format->Text_0 != token_of(e),
    ensures
        validate_spec(doc, Some(e)) == Err::<SummaryView, ErrorView>(
            ErrorView::FormatMismatch { expected: token_of(e), found: doc.format->Text_0 },
        ),
{
}

/// An object declaring the format `upload` against an expected dump fails
/// with a mismatch between the two tokens.
pub proof fn lemma_upload_against_dump_mismatch(doc: DocView)
    requires
        doc.is_object,
        doc.format == FieldView::Text("upload"@),
    ensures
        validate_spec(doc, Some(GuildFormat::Dump)) == Err::<SummaryView, ErrorView>(
            ErrorView::FormatMismatch { expected: "dump"@, found: "upload"@ },
        ),
{
    reveal_strlit("dump");
    reveal_strlit("upload");
    assert("dump"@.len() == 4);
    assert("upload"@.len() == 6);
    lemma_mismatch_reported(doc, GuildFormat::Dump);
}

/// An object declaring the format `dump` when dump is expected, with a
/// well-typed version field, validates successfully and reports the token.
pub proof fn lemma_expected_dump_accepted(doc: DocView)
    requires
        doc.is_object,
        doc.format == FieldView::Text("dump"@),
        version_field_ok(doc.version),
    ensures
        validate_spec(doc, Some(GuildFormat::Dump)) matches Ok(s) && s.format == Some("dump"@),
{
}

/// An object whose `format` field is present but not a string fails with the
/// not-a-string error, whatever the version holds and whatever was expected.
pub proof fn lemma_format_not_string(doc: DocView, expected: Option<GuildFormat>)
    requires
        doc.is_object,
        doc.format is UInt || doc.format is Other,
    ensures
        validate_spec(doc, expected) == Err::<SummaryView, ErrorView>(ErrorView::FormatNotString),
{
}

/// An object whose format rules pass but whose `version` field is present
/// and not an unsigned 64-bit integer fails with the invalid-version error.
pub proof fn lemma_invalid_version(doc: DocView, expected: Option<GuildFormat>)
    requires
        doc.is_object,
        format_accepted(doc.format, expected),
        doc.version is Text || doc.version is Other,
    ensures
        validate_spec(doc, expected) == Err::<SummaryView, ErrorView>(
            ErrorView::InvalidVersionType,
        ),
{
}

/// An object whose format rules pass and whose `version` field holds an
/// unsigned integer validates successfully and reports that number.
pub proof fn lemma_version_reported(doc: DocView, expected: Option<GuildFormat>, n: u64)
    requires
        doc.is_object,
        format_accepted(doc.format, expected),
        doc.version == FieldView::UInt(n),
    ensures
        validate_spec(doc, expected) matches Ok(s) && s.version == Some(n),
{
}

/// A document whose top level is not an object fails with the not-an-object
/// error, whatever was expected.
pub proof fn lemma_not_object(doc: DocView, expected: Option<GuildFormat>)
    requires
        !doc.is_object,
    ensures
        validate_spec(doc, expected) == Err::<SummaryView, ErrorView>(ErrorView::NotObject),
{
}

/// Full validation keeps no state either: two outcomes obtained for one text
/// under one expectation agree wherever the text parses, and are both parse
/// errors wherever it does not.
pub proof fn lemma_validate_format_repeatable(
    r1: Result<ValidationSummary, ValidationError>,
    r2: Result<ValidationSummary, ValidationError>,
    text: Seq<char>,
    expected: Option<GuildFormat>,
)
    requires
        json_parses(text) ==> outcome_view(r1) == validate_spec(document_of(text), expected),
        json_parses(text) ==> outcome_view(r2) == validate_spec(document_of(text), expected),
        (outcome_view(r1) matches Err(e) && e is Parse) <==> !json_parses(text),
        (outcome_view(r2) matches Err(e) && e is Parse) <==> !json_parses(text),
    ensures
        json_parses(text) ==> outcome_view(r1) == outcome_view(r2),
        !json_parses(text) ==> (outcome_view(r1) matches Err(e) && e is Parse) && (outcome_view(
            r2,
        ) matches Err(e) && e is Parse),
{
}

/// Validation keeps no state: two outcomes obtained for one document shape
/// under one expectation are the same outcome.
pub proof fn lemma_validation_repeatable(
    r1: Result<ValidationSummary, ValidationError>,
    r2: Result<ValidationSummary, ValidationError>,
    doc: DocView,
    expected: Option<GuildFormat>,
)
    requires
        outcome_view(r1) == validate_spec(doc, expected),
        outcome_view(r2) == validate_spec(doc, expected),
    ensures
        outcome_view(r1) == outcome_view(r2),
{
}

/// Validate the text of one input document against an optional expected
/// format.
///
/// A parse failure is reported exactly when the text is not well-formed JSON;
/// on a text that parses, the outcome is exactly what `validate_spec` assigns
/// to the parse's shape, so a summary or error is consistent with the
/// expectation and no read failure is ever reported.
///
/// An absent `format` field is never compared against the expectation: the
/// absence is visible only through `format_declared` in the summary. Missing
/// is not wrong; only a differing declared format is.
pub fn validate_format(text: &str, expected: Option<GuildFormat>) -> (r: Result<
    ValidationSummary,
    ValidationError,
>)
    ensures
        json_parses(text@) ==> outcome_view(r) == validate_spec(document_of(text@), expected),
        (outcome_view(r) matches Err(e) && e is Parse) <==> !json_parses(text@),
        outcome_view(r) matches Ok(s) ==> summary_consistent(s, expected),
        outcome_view(r) matches Err(e) ==> error_consistent(e, expected),
{
    match probe_text(text) {
        Err(e) => Err(ValidationError::Parse(json_error_string(&e))),
        Ok(doc) => {
            let r = evaluate(&doc, expected);
            proof {
                lemma_validate_spec_consistent(doc@, expected);
            }
            r
        },
    }
}

} // verus!
