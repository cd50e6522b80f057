use chitchat::context_file::{context_format, ContextFileError, ContextFormat};
use chitchat::error::PipelineError;

#[test]
fn every_failure_has_its_message() {
    let cases = [
        (PipelineError::ContextFile("No such file".to_string()), "No such file"),
        (PipelineError::ModelNotFound, "Model not found"),
        (PipelineError::Download("connection reset".to_string()), "connection reset"),
        (PipelineError::ArchitectureNotFound, "Architecture not found"),
        (PipelineError::TokenizerUnsupported, "Tokenizer not supported"),
        (PipelineError::Load("invalid magic".to_string()), "Error loading model: invalid magic"),
        (PipelineError::Feed("context full".to_string()), "Error feeding prompt: context full"),
        (PipelineError::NotStarted, "Model not started"),
        (PipelineError::Inference("context full".to_string()), "Error inferring: context full"),
        (
            PipelineError::Lock("poisoned lock".to_string()),
            "Unable to lock the backend: poisoned lock",
        ),
    ];
    for (error, message) in cases {
        assert_eq!(error.message(), message);
    }
}

#[test]
fn txt_and_pdf_are_the_formats_that_are_read() {
    assert_eq!(context_format(Some(Some("txt"))).unwrap(), ContextFormat::PlainText);
    assert_eq!(context_format(Some(Some("pdf"))).unwrap(), ContextFormat::Pdf);
}

#[test]
fn other_extensions_are_refused_by_name() {
    match context_format(Some(Some("docx"))) {
        Err(ContextFileError::Unsupported(extension)) => assert_eq!(extension, "docx"),
        _ => panic!("docx is not read"),
    }
    match context_format(Some(Some("TXT"))) {
        Err(error) => assert_eq!(error.message(), "Unsupported file extension TXT"),
        Ok(_) => panic!("extensions are matched as they are written"),
    }
    match context_format(Some(Some(""))) {
        Err(error) => assert_eq!(error.message(), "Unsupported file extension "),
        Ok(_) => panic!("an empty extension names no format"),
    }
}

#[test]
fn a_path_without_a_readable_extension_is_refused() {
    match context_format(None) {
        Err(error) => {
            assert!(matches!(error, ContextFileError::NoExtension));
            assert_eq!(error.message(), "Could not determine file extension");
        }
        Ok(_) => panic!("a path without an extension is not read"),
    }
    match context_format(Some(None)) {
        Err(error) => {
            assert!(matches!(error, ContextFileError::ExtensionNotText));
            assert_eq!(error.message(), "Could not convert file extension to string");
        }
        Ok(_) => panic!("an extension that is not text is not read"),
    }
}
