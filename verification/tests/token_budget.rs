use moonraker::environment::{captured_output, ExecError};
use moonraker::repl::stored_output;
use moonraker::tokens::token_bound;

#[test]
fn test_token_bound_within_budget_is_identity() {
    let text = "Hello world".to_string();
    let bounded = token_bound(&text, 1000).unwrap();
    assert_eq!(bounded, text);
}

#[test]
fn test_token_bound_empty_text() {
    let text = String::new();
    let bounded = token_bound(&text, 0).unwrap();
    assert_eq!(bounded, "");
}

#[test]
fn test_token_bound_truncates_to_prefix() {
    let text = "The quick brown fox jumps over the lazy dog".to_string();
    let bounded = token_bound(&text, 3).unwrap();
    assert!(bounded.len() < text.len());
    assert!(text.starts_with(&bounded), "expected a prefix, got: {bounded}");
}

#[test]
fn test_token_bound_zero_budget() {
    let text = "something".to_string();
    let bounded = token_bound(&text, 0).unwrap();
    assert_eq!(bounded, "");
}

#[test]
fn test_bound_output_marks_truncation() {
    let mut long = String::new();
    for i in 0..300 {
        long.push_str(&format!("word{i} "));
    }
    let bounded = moonraker::repl::bound_output(long.clone()).unwrap();
    assert!(bounded.ends_with("\n[truncated]"));
    let kept = &bounded[..bounded.len() - "\n[truncated]".len()];
    assert!(long.starts_with(kept));
    assert!(kept.len() < long.len());
}

#[test]
fn test_bound_output_keeps_short_text() {
    let text = "short and sweet".to_string();
    assert_eq!(moonraker::repl::bound_output(text.clone()).unwrap(), text);
}

#[test]
fn test_stored_output_forms() {
    assert_eq!(stored_output(Ok(None)), None);
    assert_eq!(
        stored_output(Ok(Some("plain".to_string()))),
        Some("plain".to_string())
    );
    assert_eq!(
        stored_output(Err(ExecError::Runtime("boom".to_string()))),
        Some("Execution error: boom".to_string())
    );

    let mut long = String::new();
    for i in 0..400 {
        long.push_str(&format!("piece {i} "));
    }
    let stored = stored_output(Ok(Some(long.clone()))).unwrap();
    assert!(stored.ends_with("\n[truncated]"));
    assert!(long.starts_with(&stored[..stored.len() - "\n[truncated]".len()]));
}

#[test]
fn test_captured_output_dispatch() {
    assert_eq!(captured_output(String::new()), None);
    assert_eq!(captured_output("out".to_string()), Some("out".to_string()));
}
