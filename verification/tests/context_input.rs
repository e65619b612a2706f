use moonraker::cell::ParseError;
use moonraker::inputs::{Input, InputError};

#[test]
fn test_from_string() {
    let input = Input::from_string("Direct content".to_string());
    assert_eq!(input.content(), "Direct content");
}

#[test]
fn test_input_error_messages() {
    assert_eq!(
        InputError::FileNotFound("/a/b".to_string()).message(),
        "File not found: /a/b"
    );
    assert_eq!(
        InputError::ReadError("bad bytes".to_string()).message(),
        "Error reading file: bad bytes"
    );
    assert_eq!(
        InputError::PdfError("no text".to_string()).message(),
        "Error processing PDF: no text"
    );
    assert_eq!(
        InputError::UnsupportedFormat("dir".to_string()).message(),
        "Unsupported format: dir"
    );
}

#[test]
fn test_run_cell_shapes() {
    let args = moonraker::tools::RunCellArgs::new("a comment".to_string(), "a = 1".to_string());
    assert_eq!(args.comment, "a comment");
    assert_eq!(args.code, "a = 1");

    let err = moonraker::tools::RunCellError::new("it broke".to_string());
    assert_eq!(err.message(), "it broke");
}

#[test]
fn test_parse_error_messages() {
    assert_eq!(
        ParseError::MissingComment.message(),
        "Failed to parse <comment> tag from response"
    );
    assert_eq!(
        ParseError::MissingCode.message(),
        "Failed to parse <code> tag from response"
    );
    assert_eq!(ParseError::EmptyComment.message(), "Comment tag is empty");
    assert_eq!(ParseError::EmptyCode.message(), "Code tag is empty");
}
