//! The export dispatcher: per export request it decides which converter to
//! run, how to react to a converter's outcome, and which diagnostic to hand
//! back when conversion fails.
//!
//! A PDF export first tries the primary, in-process Markdown renderer. If
//! that fails with a description carrying the unmatched-emphasis signature,
//! the request falls back to the secondary, external conversion tool with
//! the same content and target path; any other primary failure is final and
//! is reported wrapped, with no fallback. A DOCX export always goes straight
//! to the secondary tool, and its failure is propagated verbatim.
//!
//! The caller performs the process I/O: it writes the rendered bytes to the
//! target path and runs the secondary tool, feeding each outcome back into
//! the step functions here.

use vstd::prelude::*;

use crate::text::contains_at;
use crate::text::contains_seq;
use crate::text::lemma_contains_concat_left;
use crate::text::lemma_contains_concat_right;
use crate::text::lemma_contains_self;
use crate::text::str_contains;

verus! {

/// The output format an export request asks for.
#[derive(Debug, Clone, Copy, PartialEq, Eq, Structural)]
pub enum ExportFormat {
    Pdf,
    Docx,
}

/// The two converter capabilities the dispatcher can call on.
#[derive(Debug, Clone, Copy, PartialEq, Eq, Structural)]
pub enum Converter {
    Primary,
    Secondary,
}

/// The converter an export request is sent to first: only a PDF request
/// ever reaches the primary renderer; a DOCX request starts (and stays)
/// with the secondary tool.
pub open spec fn spec_first_converter(format: ExportFormat) -> Converter {
    match format {
        ExportFormat::Pdf => Converter::Primary,
        ExportFormat::Docx => Converter::Secondary,
    }
}

/// Picks the converter that serves an export request first.
pub fn first_converter(format: ExportFormat) -> (c: Converter)
    ensures
        c == spec_first_converter(format),
{
    match format {
        ExportFormat::Pdf => Converter::Primary,
        ExportFormat::Docx => Converter::Secondary,
    }
}

/// The failure-description signature that triggers the fallback. The scope
/// is deliberately narrow: only this one parser complaint falls back, every
/// other primary failure is final.
pub open spec fn emphasis_signature() -> Seq<char> {
    "Unmatched emphasis"@
}

/// A primary-converter failure description that carries the
/// unmatched-emphasis signature.
pub open spec fn is_emphasis_failure(err: Seq<char>) -> bool {
    contains_seq(err, emphasis_signature())
}

/// Classifies a primary-converter failure description: does it carry the
/// unmatched-emphasis signature?
pub fn is_emphasis_error(err: &str) -> (r: bool)
    ensures
        r == is_emphasis_failure(err@),
{
    str_contains(err, "Unmatched emphasis")
}

/// The diagnostic for a final primary failure: the original description,
/// wrapped, and nothing else.
pub open spec fn wrapped_primary_error(err: Seq<char>) -> Seq<char> {
    "Failed to export PDF: "@ + err
}

/// Wraps a final primary-converter failure description.
pub fn wrap_primary_error(err: &str) -> (r: String)
    ensures
        r@ == wrapped_primary_error(err@),
{
    let mut d = String::from_str("Failed to export PDF: ");
    d.append(err);
    d
}

/// The fixed suggestion a composite diagnostic carries.
pub open spec fn suggestion_text() -> Seq<char> {
    "Verify your Markdown syntax is valid (matching * or _)."@
}

/// The diagnostic when the primary converter and the fallback both failed:
/// the parser's description, the fixed suggestion, and the fallback tool's
/// description, in that order.
pub open spec fn composite_diagnostic_spec(primary_err: Seq<char>, secondary_err: Seq<char>) -> Seq<char> {
    "❌ Markdown Parsing Error: "@ + primary_err + "\n\n💡 Suggestion: "@ + suggestion_text()
        + " Pandoc also failed: "@ + secondary_err
}

/// Builds the composite diagnostic for a PDF export on which both
/// converters failed.
pub fn composite_diagnostic(primary_err: &str, secondary_err: &str) -> (r: String)
    ensures
        r@ == composite_diagnostic_spec(primary_err@, secondary_err@),
{
    let mut d = String::from_str("❌ Markdown Parsing Error: ");
    d.append(primary_err);
    d.append("\n\n💡 Suggestion: ");
    d.append("Verify your Markdown syntax is valid (matching * or _).");
    d.append(" Pandoc also failed: ");
    d.append(secondary_err);
    d
}

/// A composite diagnostic carries both underlying failure descriptions and
/// the fixed suggestion.
pub proof fn lemma_composite_diagnostic_complete(primary_err: Seq<char>, secondary_err: Seq<char>)
    ensures
        contains_seq(composite_diagnostic_spec(primary_err, secondary_err), primary_err),
        contains_seq(composite_diagnostic_spec(primary_err, secondary_err), secondary_err),
        contains_seq(composite_diagnostic_spec(primary_err, secondary_err), suggestion_text()),
{
    let a = "❌ Markdown Parsing Error: "@;
    let b = "\n\n💡 Suggestion: "@;
    let c = " Pandoc also failed: "@;
    lemma_contains_self(primary_err);
    lemma_contains_concat_right(a, primary_err, primary_err);
    lemma_contains_concat_left(a + primary_err, b, primary_err);
    lemma_contains_concat_left(a + primary_err + b, suggestion_text(), primary_err);
    lemma_contains_concat_left(a + primary_err + b + suggestion_text(), c, primary_err);
    lemma_contains_concat_left(a + primary_err + b + suggestion_text() + c, secondary_err, primary_err);
    lemma_contains_self(secondary_err);
    lemma_contains_concat_right(a + primary_err + b + suggestion_text() + c, secondary_err, secondary_err);
    lemma_contains_self(suggestion_text());
    lemma_contains_concat_right(a + primary_err + b, suggestion_text(), suggestion_text());
    lemma_contains_concat_left(a + primary_err + b + suggestion_text(), c, suggestion_text());
    lemma_contains_concat_left(a + primary_err + b + suggestion_text() + c, secondary_err, suggestion_text());
}

/// A wrapped final diagnostic still carries the original failure
/// description.
pub proof fn lemma_wrapped_error_contains_original(err: Seq<char>)
    ensures
        contains_seq(wrapped_primary_error(err), err),
{
    lemma_contains_self(err);
    lemma_contains_concat_right("Failed to export PDF: "@, err, err);
}

/// What a PDF export does after the primary converter's attempt.
pub enum PdfStep {
    /// The primary converter accepted the content: write these bytes to the
    /// target path and report success.
    Ready { pdf: Vec<u8>, file_path: String },
    /// The primary converter failed with the unmatched-emphasis signature:
    /// run the secondary tool on the same content and target path.
    Fallback { content: String, file_path: String, primary_err: String },
    /// The primary converter failed for any other reason: no fallback, the
    /// export is over with this diagnostic.
    Fail { diagnostic: String },
}

/// The mathematical shape of a [`PdfStep`].
pub enum PdfStepModel {
    Ready { pdf: Seq<u8>, file_path: Seq<char> },
    Fallback { content: Seq<char>, file_path: Seq<char>, primary_err: Seq<char> },
    Fail { diagnostic: Seq<char> },
}

impl View for PdfStep {
    type V = PdfStepModel;

    open spec fn view(&self) -> PdfStepModel {
        match self {
            PdfStep::Ready { pdf, file_path } => (PdfStepModel::Ready {
                pdf: pdf@,
                file_path: file_path@,
            }),
            PdfStep::Fallback { content, file_path, primary_err } => (PdfStepModel::Fallback {
                content: content@,
                file_path: file_path@,
                primary_err: primary_err@,
            }),
            PdfStep::Fail { diagnostic } => (PdfStepModel::Fail { diagnostic: diagnostic@ }),
        }
    }
}

/// The view of a primary-converter outcome: rendered bytes, or a failure
/// description.
pub open spec fn primary_outcome_view(r: Result<Vec<u8>, String>) -> Result<Seq<u8>, Seq<char>> {
    match r {
        Ok(pdf) => Ok(pdf@),
        Err(e) => Err(e@),
    }
}

/// The view of a secondary-converter outcome: success, or a failure
/// description.
pub open spec fn secondary_outcome_view(r: Result<(), String>) -> Result<(), Seq<char>> {
    match r {
        Ok(u) => Ok(u),
        Err(e) => Err(e@),
    }
}

/// The fallback policy for a PDF export, as one total function from the
/// request and the primary converter's outcome to the next step.
pub open spec fn pdf_step_model(
    content: Seq<char>,
    file_path: Seq<char>,
    primary: Result<Seq<u8>, Seq<char>>,
) -> PdfStepModel {
    match primary {
        Ok(pdf) => PdfStepModel::Ready { pdf, file_path },
        Err(e) => if is_emphasis_failure(e) {
            PdfStepModel::Fallback { content, file_path, primary_err: e }
        } else {
            PdfStepModel::Fail { diagnostic: wrapped_primary_error(e) }
        },
    }
}

/// Decides how a PDF export goes on after the primary converter's attempt.
pub fn pdf_step_after_primary(
    content: String,
    file_path: String,
    primary: Result<Vec<u8>, String>,
) -> (step: PdfStep)
    ensures
        step@ == pdf_step_model(content@, file_path@, primary_outcome_view(primary)),
{
    match primary {
        Ok(pdf) => PdfStep::Ready { pdf, file_path },
        Err(e) => {
            if is_emphasis_error(e.as_str()) {
                PdfStep::Fallback { content, file_path, primary_err: e }
            } else {
                PdfStep::Fail { diagnostic: wrap_primary_error(e.as_str()) }
            }
        },
    }
}

/// The outcome of a PDF export after the fallback ran: the secondary
/// tool's success is the export's success; its failure yields the composite
/// diagnostic built from both failure descriptions.
pub open spec fn pdf_fallback_outcome_model(
    primary_err: Seq<char>,
    secondary: Result<(), Seq<char>>,
) -> Result<(), Seq<char>> {
    match secondary {
        Ok(u) => Ok(u),
        Err(se) => Err(composite_diagnostic_spec(primary_err, se)),
    }
}

/// Finishes a PDF export after the fallback to the secondary tool.
pub fn pdf_outcome_after_secondary(
    primary_err: &str,
    secondary: Result<(), String>,
) -> (r: Result<(), String>)
    ensures
        secondary_outcome_view(r) == pdf_fallback_outcome_model(
            primary_err@,
            secondary_outcome_view(secondary),
        ),
{
    match secondary {
        Ok(u) => Ok(u),
        Err(se) => Err(composite_diagnostic(primary_err, se.as_str())),
    }
}

/// Content the primary converter accepts is exported as the bytes it
/// rendered, at the request's own target path, with no further converter
/// call.
pub proof fn lemma_accepted_content_is_ready(
    content: Seq<char>,
    file_path: Seq<char>,
    pdf: Seq<u8>,
)
    ensures
        pdf_step_model(content, file_path, Ok::<Seq<u8>, Seq<char>>(pdf))
            == (PdfStepModel::Ready { pdf, file_path }),
{
}

/// A fallback step only ever arises from a primary failure with the
/// unmatched-emphasis signature, and it carries the request's own content
/// and target path to the secondary tool.
pub proof fn lemma_fallback_preserves_request(
    content: Seq<char>,
    file_path: Seq<char>,
    primary: Result<Seq<u8>, Seq<char>>,
)
    ensures
        (pdf_step_model(content, file_path, primary) matches PdfStepModel::Fallback {
            content: c,
            file_path: f,
            primary_err: e,
        } ==> c == content && f == file_path && primary == Err::<Seq<u8>, Seq<char>>(e)
            && is_emphasis_failure(e)),
{
}

/// A primary failure without the unmatched-emphasis signature is final: no
/// fallback follows, and the diagnostic is the original description wrapped,
/// nothing more.
pub proof fn lemma_other_failures_are_final(
    content: Seq<char>,
    file_path: Seq<char>,
    err: Seq<char>,
)
    requires
        !is_emphasis_failure(err),
    ensures
        pdf_step_model(content, file_path, Err::<Seq<u8>, Seq<char>>(err))
            == (PdfStepModel::Fail { diagnostic: wrapped_primary_error(err) }),
        contains_seq(wrapped_primary_error(err), err),
{
    lemma_wrapped_error_contains_original(err);
}

/// A DOCX export starts with the secondary tool, and since
/// [`docx_outcome`] returns that tool's outcome unchanged, the primary
/// converter is never consulted for DOCX.
pub proof fn lemma_docx_goes_straight_to_secondary()
    ensures
        spec_first_converter(ExportFormat::Docx) == Converter::Secondary,
{
}

/// Relies on markdown2pdf::parse_into_bytes: it renders Markdown text to
/// PDF bytes in memory, with the bundled default style and an auto-detected
/// system font, and reports any failure through its error value. Which bytes
/// (or which failure description) come back also depends on the fonts this
/// machine offers, so nothing is promised of the outcome: the decision
/// logic, [`pdf_step_after_primary`], takes the result as an argument.
#[verifier::external_body]
fn primary_pdf_bytes(markdown: &str) -> Result<Vec<u8>, String> {
    markdown2pdf::parse_into_bytes(
        markdown.to_string(),
        markdown2pdf::config::ConfigSource::Default,
        None,
    )
    .map_err(|e| e.to_string())
}

/// Runs the primary converter on a PDF export request and decides the next
/// step. Whatever the converter's outcome, the step follows the fallback
/// policy for it: in particular a fallback step carries the request's own
/// content and target path and only ever follows a failure description with
/// the unmatched-emphasis signature.
pub fn attempt_primary(content: String, file_path: String) -> (step: PdfStep)
    ensures
        exists|r: Result<Seq<u8>, Seq<char>>|
            step@ == #[trigger] pdf_step_model(content@, file_path@, r),
        (step@ matches PdfStepModel::Ready { pdf, file_path: f } ==> f == file_path@),
        (step@ matches PdfStepModel::Fallback { content: c, file_path: f, primary_err: e }
            ==> c == content@ && f == file_path@ && is_emphasis_failure(e)),
{
    let primary = primary_pdf_bytes(content.as_str());
    let step = pdf_step_after_primary(content, file_path, primary);
    proof {
        assert(step@ == pdf_step_model(content@, file_path@, primary_outcome_view(primary)));
    }
    step
}

/// Finishes a DOCX export: the secondary tool's outcome is propagated
/// verbatim, failure description included. No other converter is ever
/// consulted for DOCX.
pub fn docx_outcome(secondary: Result<(), String>) -> (r: Result<(), String>)
    ensures
        r == secondary,
{
    secondary
}

} // verus!
