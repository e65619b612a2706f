use moonraker::cell::{Cell, ParseError};

#[test]
fn test_cell_parser_xml_format() {
    let text = r#"<comment>
First, let me check the context to understand what we're working with
</comment>

<code>
print(string.sub(context, 1, 100))
</code>

<final>
false
</final>"#;

    let cell = Cell::parse(text).unwrap();
    assert_eq!(
        cell.comment,
        "First, let me check the context to understand what we're working with"
    );
    assert_eq!(cell.code, "print(string.sub(context, 1, 100))");
    assert!(!cell.is_final);
}

#[test]
fn test_cell_parser_final_true() {
    let text = r#"<comment>
Output the final answer
</comment>

<code>
print("The answer is: 42")
</code>

<final>
true
</final>"#;

    let cell = Cell::parse(text).unwrap();
    assert_eq!(cell.comment, "Output the final answer");
    assert_eq!(cell.code, r#"print("The answer is: 42")"#);
    assert!(cell.is_final);
}

#[test]
fn test_cell_parser_json_fallback() {
    let json = r#"{"comment": "Test comment", "code": "print('hello')", "final": false}"#;
    let cell = Cell::parse(json).unwrap();
    assert_eq!(cell.comment, "Test comment");
    assert_eq!(cell.code, "print('hello')");
    assert!(!cell.is_final);
}

#[test]
fn test_cell_parser_missing_code_names_field() {
    let text = "<comment>only a comment</comment>";
    match Cell::parse(text) {
        Err(ParseError::MissingCode) => {}
        other => panic!("expected the code field to be named missing, got {other:?}"),
    }
}

#[test]
fn test_cell_parser_missing_comment_names_field() {
    let text = "<code>print(1)</code>";
    match Cell::parse(text) {
        Err(ParseError::MissingComment) => {}
        other => panic!("expected the comment field to be named missing, got {other:?}"),
    }
}

#[test]
fn test_cell_parser_empty_regions_rejected() {
    let text = "<comment>   </comment><code>print(1)</code>";
    assert!(matches!(Cell::parse(text), Err(ParseError::EmptyComment)));

    let text = "<comment>fine</comment><code>\n\n</code>";
    assert!(matches!(Cell::parse(text), Err(ParseError::EmptyCode)));
}

#[test]
fn test_cell_parser_final_spellings() {
    let cell = Cell::parse("<comment>c</comment><code>k</code><final>TRUE</final>").unwrap();
    assert!(cell.is_final);
    let cell = Cell::parse("<comment>c</comment><code>k</code><final>yes</final>").unwrap();
    assert!(cell.is_final);
    let cell = Cell::parse("<comment>c</comment><code>k</code><final>maybe</final>").unwrap();
    assert!(!cell.is_final);
    let cell = Cell::parse("<comment>c</comment><code>k</code>").unwrap();
    assert!(!cell.is_final);
}

#[test]
fn test_cell_parser_json_ignores_output() {
    let json = r#"{"comment": "c", "code": "k", "output": "stale", "final": true}"#;
    let cell = Cell::parse(json).unwrap();
    assert_eq!(cell.comment, "c");
    assert_eq!(cell.code, "k");
    assert_eq!(cell.output, None);
    assert!(cell.is_final);
}

#[test]
fn test_cell_parser_trims_regions() {
    let cell =
        Cell::parse("<comment>\n  spaced  \n</comment><code>\t code \r\n</code>").unwrap();
    assert_eq!(cell.comment, "spaced");
    assert_eq!(cell.code, "code");
}

#[test]
fn test_cell_parser_json_empty_fields_rejected() {
    let json = r#"{"comment": "   ", "code": "x = 1"}"#;
    assert!(matches!(Cell::parse(json), Err(ParseError::EmptyComment)));

    let json = r#"{"comment": "fine", "code": "  "}"#;
    assert!(matches!(Cell::parse(json), Err(ParseError::EmptyCode)));
}

#[test]
fn test_cell_parser_json_trims_fields() {
    let json = r#"{"comment": "  padded  ", "code": "\n x = 1 \n"}"#;
    let cell = Cell::parse(json).unwrap();
    assert_eq!(cell.comment, "padded");
    assert_eq!(cell.code, "x = 1");
}

#[test]
fn test_cell_parser_trims_unicode_whitespace() {
    let text = "<comment>\u{a0}spaced\u{2003}</comment><code>\u{2028}x = 1\u{3000}</code>";
    let cell = Cell::parse(text).unwrap();
    assert_eq!(cell.comment, "spaced");
    assert_eq!(cell.code, "x = 1");
}
