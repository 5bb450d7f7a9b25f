use md_export::dispatch::attempt_primary;
use md_export::dispatch::composite_diagnostic;
use md_export::dispatch::docx_outcome;
use md_export::dispatch::first_converter;
use md_export::dispatch::is_emphasis_error;
use md_export::dispatch::pdf_outcome_after_secondary;
use md_export::dispatch::pdf_step_after_primary;
use md_export::dispatch::wrap_primary_error;
use md_export::dispatch::Converter;
use md_export::dispatch::ExportFormat;
use md_export::dispatch::PdfStep;

const SUGGESTION: &str = "Verify your Markdown syntax is valid (matching * or _).";

#[test]
fn pdf_requests_try_the_primary_converter_first() {
    assert_eq!(first_converter(ExportFormat::Pdf), Converter::Primary);
}

#[test]
fn docx_requests_never_reach_the_primary_converter() {
    assert_eq!(first_converter(ExportFormat::Docx), Converter::Secondary);
}

#[test]
fn accepted_content_is_ready_to_write() {
    let step = pdf_step_after_primary(
        "# Title".to_string(),
        "out.pdf".to_string(),
        Ok(vec![0x25, 0x50, 0x44, 0x46]),
    );
    match step {
        PdfStep::Ready { pdf, file_path } => {
            assert_eq!(pdf, vec![0x25, 0x50, 0x44, 0x46]);
            assert_eq!(file_path, "out.pdf");
        }
        _ => panic!("primary success must end the export with the rendered bytes"),
    }
}

#[test]
fn emphasis_failure_falls_back_with_the_same_request() {
    let step = pdf_step_after_primary(
        "*dangling".to_string(),
        "report.pdf".to_string(),
        Err("lexing failed: Unmatched emphasis at line 1".to_string()),
    );
    match step {
        PdfStep::Fallback { content, file_path, primary_err } => {
            assert_eq!(content, "*dangling");
            assert_eq!(file_path, "report.pdf");
            assert_eq!(primary_err, "lexing failed: Unmatched emphasis at line 1");
        }
        _ => panic!("the emphasis signature must trigger the fallback"),
    }
}

#[test]
fn other_failures_are_final_and_keep_only_the_original_error() {
    let step = pdf_step_after_primary(
        "# fine".to_string(),
        "out.pdf".to_string(),
        Err("Font Error: no usable font".to_string()),
    );
    match step {
        PdfStep::Fail { diagnostic } => {
            assert_eq!(diagnostic, "Failed to export PDF: Font Error: no usable font");
        }
        _ => panic!("a failure without the signature must not fall back"),
    }
}

#[test]
fn wrapped_error_has_the_exact_shape() {
    assert_eq!(wrap_primary_error("boom"), "Failed to export PDF: boom");
}

#[test]
fn emphasis_signature_is_recognised() {
    assert!(is_emphasis_error("Unmatched emphasis"));
    assert!(is_emphasis_error("error: Unmatched emphasis marker at 3:7"));
    assert!(!is_emphasis_error("unmatched emphasis"));
    assert!(!is_emphasis_error("Unmatched brackets"));
    assert!(!is_emphasis_error(""));
}

#[test]
fn composite_diagnostic_carries_both_errors_and_the_suggestion() {
    let d = composite_diagnostic("parser gave up", "tool not installed");
    assert!(d.contains("parser gave up"));
    assert!(d.contains("tool not installed"));
    assert!(d.contains(SUGGESTION));
}

#[test]
fn composite_diagnostic_has_the_exact_shape() {
    let d = composite_diagnostic("first", "second");
    assert_eq!(
        d,
        "❌ Markdown Parsing Error: first\n\n💡 Suggestion: Verify your Markdown syntax is \
         valid (matching * or _). Pandoc also failed: second"
    );
}

#[test]
fn fallback_success_is_export_success() {
    assert_eq!(pdf_outcome_after_secondary("earlier parse error", Ok(())), Ok(()));
}

#[test]
fn fallback_failure_yields_the_composite_diagnostic() {
    let r = pdf_outcome_after_secondary("earlier parse error", Err("no converter".to_string()));
    let d = r.expect_err("a failed fallback must fail the export");
    assert_eq!(d, composite_diagnostic("earlier parse error", "no converter"));
    assert!(d.contains("earlier parse error"));
    assert!(d.contains("no converter"));
    assert!(d.contains(SUGGESTION));
}

#[test]
fn docx_outcome_is_propagated_verbatim() {
    assert_eq!(docx_outcome(Ok(())), Ok(()));
    assert_eq!(
        docx_outcome(Err("pandoc: not found".to_string())),
        Err("pandoc: not found".to_string())
    );
}

#[test]
fn primary_attempt_follows_the_fallback_policy() {
    let content = "# Title\n\nPlain body text.".to_string();
    match attempt_primary(content.clone(), "out.pdf".to_string()) {
        PdfStep::Ready { pdf, file_path } => {
            assert_eq!(file_path, "out.pdf");
            assert!(pdf.starts_with(b"%PDF"));
        }
        PdfStep::Fallback { content: c, file_path, primary_err } => {
            assert_eq!(c, content);
            assert_eq!(file_path, "out.pdf");
            assert!(primary_err.contains("Unmatched emphasis"));
        }
        PdfStep::Fail { diagnostic } => {
            assert!(diagnostic.starts_with("Failed to export PDF: "));
            assert!(!diagnostic.contains("Unmatched emphasis"));
        }
    }
}
