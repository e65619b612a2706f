use moonraker::environment::{ContextValue, Environment, ExecError, LlmClient};

fn env_with(context: ContextValue) -> Environment {
    Environment::new(context, LlmClient::Ollama("qwen3:30b".to_string())).unwrap()
}

fn text_env(context: &str) -> Environment {
    env_with(ContextValue::Text(context.to_string()))
}

#[test]
fn test_basic_print() {
    let env = text_env("initial");
    let result = env.eval(r#"print("hello moon")"#).unwrap();
    assert_eq!(result, Some("hello moon".to_string()));
}

#[test]
fn test_no_output() {
    let env = text_env("initial");
    let result = env.eval("x = 5").unwrap();
    assert_eq!(result, None);
}

#[test]
fn test_persistent_state() {
    let env = text_env("initial");

    let result = env.eval("x = 5").unwrap();
    assert_eq!(result, None);

    let result = env.eval("print(x * 2)").unwrap();
    assert_eq!(result, Some("10".to_string()));
}

#[test]
fn test_multiple_prints() {
    let env = text_env("initial");
    let result = env.eval(r#"print("first"); print("second")"#).unwrap();
    assert_eq!(result, Some("first\nsecond".to_string()));
}

#[test]
fn test_state_accumulation() {
    let env = text_env("initial");

    env.eval("a = 10").unwrap();
    env.eval("b = 20").unwrap();
    let result = env.eval("print(a + b)").unwrap();
    assert_eq!(result, Some("30".to_string()));
}

#[test]
fn test_global_state_derived_value() {
    let env = text_env("");

    assert_eq!(env.eval("a = 10").unwrap(), None);
    assert_eq!(env.eval("print(a + 5)").unwrap(), Some("15".to_string()));
}

#[test]
fn test_print_with_multiple_args() {
    let env = text_env("initial");
    let result = env.eval(r#"print("hello", "world", 42)"#).unwrap();
    assert_eq!(result, Some("hello\tworld\t42".to_string()));
}

#[test]
fn test_context_variable_string() {
    let env = text_env("my context value");
    let result = env.eval("print(context)").unwrap();
    assert_eq!(result, Some("my context value".to_string()));
}

#[test]
fn test_context_variable_number() {
    let env = env_with(ContextValue::Number(42));
    let result = env.eval("print(context * 2)").unwrap();
    assert_eq!(result, Some("84".to_string()));
}

#[test]
fn test_context_variable_table() {
    let env = text_env("initial");
    env.eval("context = {name = 'test', value = 100}").unwrap();
    let result = env
        .eval("print(context.name .. ': ' .. context.value)")
        .unwrap();
    assert_eq!(result, Some("test: 100".to_string()));
}

#[test]
fn test_syntax_error_reported() {
    let env = text_env("initial");
    match env.eval("this is not valid lua") {
        Err(ExecError::Syntax(_)) => {}
        other => panic!("expected a syntax error, got {other:?}"),
    }
}

#[test]
fn test_runtime_error_reported() {
    let env = text_env("initial");
    match env.eval(r#"error("boom")"#) {
        Err(ExecError::Runtime(_)) => {}
        other => panic!("expected a runtime error, got {other:?}"),
    }
}

#[test]
fn test_state_survives_failed_call() {
    let env = text_env("initial");
    env.eval("kept = 11").unwrap();
    assert!(env.eval(r#"error("boom")"#).is_err());
    assert_eq!(env.eval("print(kept)").unwrap(), Some("11".to_string()));
}

#[test]
fn test_token_trunc_basic() {
    let env = text_env("");

    let code = r#"
        text = "This is a test string that will be truncated to a smaller number of tokens."
        truncated = token_trunc(text, 5)
        print(truncated)
    "#;

    let result = env.eval(code).unwrap();
    assert!(result.is_some(), "token_trunc should return output");

    let output = result.unwrap();
    assert!(
        output.len() < 77,
        "Truncated string should be shorter than original, got: {output}"
    );

    assert!(
        output.starts_with("This"),
        "Truncated string should start with 'This', got: {output}"
    );
}

#[test]
fn test_token_trunc_exact() {
    let env = text_env("");

    let code = r#"
        text = "Hello world"
        truncated = token_trunc(text, 1)
        print(truncated)
    "#;

    let result = env.eval(code).unwrap();
    assert!(result.is_some());

    let output = result.unwrap();
    assert!(
        output.len() < 12,
        "Truncated to 1 token should be much shorter, got: {output}"
    );
}

#[test]
fn test_token_trunc_longer_than_input() {
    let env = text_env("");

    let code = r#"
        text = "Short"
        truncated = token_trunc(text, 1000)
        print(truncated)
    "#;

    let result = env.eval(code).unwrap();
    assert!(result.is_some());

    let output = result.unwrap();
    assert_eq!(output, "Short");
}

#[test]
fn test_token_trunc_empty_string() {
    let env = text_env("");

    let code = r#"
        text = ""
        truncated = token_trunc(text, 10)
        print(truncated)
    "#;

    let result = env.eval(code).unwrap();
    assert!(result.is_none() || result == Some("".to_string()));
}

#[test]
fn test_token_trunc_with_special_chars() {
    let env = text_env("");

    let code = "
        text = \"Hello! How are you? I'm doing well. \u{1F600}\"
        truncated = token_trunc(text, 5)
        print(truncated)
    ";

    let result = env.eval(code).unwrap();
    assert!(result.is_some());

    let output = result.unwrap();
    assert!(
        output.len() < 40,
        "Truncated string with special chars should be shorter, got: {output}"
    );
}

#[test]
fn test_token_trunc_preserves_beginning() {
    let env = text_env("");

    let code = r#"
        text = "The quick brown fox jumps over the lazy dog"
        truncated = token_trunc(text, 3)
        print(truncated)
    "#;

    let result = env.eval(code).unwrap();
    assert!(result.is_some());

    let output = result.unwrap();
    assert!(
        output.starts_with("The"),
        "Should start with 'The', got: {output}"
    );
}

#[test]
fn test_sandbox_excludes_system_libraries() {
    let env = text_env("initial");
    let result = env
        .eval("print(type(io), type(os), type(package), type(dofile), type(loadfile))")
        .unwrap();
    assert_eq!(result, Some("nil\tnil\tnil\tnil\tnil".to_string()));
}

#[test]
fn test_sandbox_keeps_safe_libraries() {
    let env = text_env("initial");
    let result = env
        .eval("print(type(string.sub), type(table.insert), type(math.floor), type(utf8.char))")
        .unwrap();
    assert_eq!(
        result,
        Some("function\tfunction\tfunction\tfunction".to_string())
    );
}
