use moonraker::cell::Cell;
use moonraker::environment::LlmClient;
use moonraker::repl::Repl;
use moonraker::rlm::{LmProvider, Rlm, RunState, StepError};

fn client() -> LlmClient {
    LlmClient::Ollama("qwen3:30b".to_string())
}

/// A provider whose next step depends only on how many cells the ledger
/// already holds, so rounds are scripted without any model behind them.
struct ScriptedProvider {
    rounds: Vec<(String, String, bool)>,
}

impl LmProvider for ScriptedProvider {
    fn with_system(self, _prompt: String) -> Self {
        self
    }

    fn generate(&self, input: &Repl) -> Result<Cell, StepError> {
        let round = input.entries.len();
        match self.rounds.get(round) {
            Some((comment, code, is_final)) => Ok(Cell {
                comment: comment.clone(),
                code: code.clone(),
                output: None,
                is_final: *is_final,
            }),
            None => Err(StepError::Provider("script exhausted".to_string())),
        }
    }
}

#[test]
fn test_two_round_run_completes_with_final_output() {
    let provider = ScriptedProvider {
        rounds: vec![
            ("Set a variable".to_string(), "x = 7".to_string(), false),
            (
                "Print the derived value".to_string(),
                "print(x + 3)".to_string(),
                true,
            ),
        ],
    };
    let mut rlm = Rlm::new(
        provider,
        "add things".to_string(),
        String::new(),
        "test-model".to_string(),
        client(),
    )
    .unwrap();

    let mut iter = rlm.execute(5);
    let mut rounds = 0;
    while let Some(result) = iter.next(&mut rlm) {
        let cell = result.unwrap();
        rounds += 1;
        if rounds == 2 {
            assert!(cell.is_final);
            assert_eq!(cell.output, Some("10".to_string()));
        } else {
            assert!(!cell.is_final);
        }
    }

    assert_eq!(rounds, 2);
    assert_eq!(iter.state(), RunState::Completed);
    assert_eq!(rlm.final_output(), Some("10".to_string()));
}

#[test]
fn test_budget_exhaustion_reports_not_completed() {
    let rounds: Vec<(String, String, bool)> = (0..10)
        .map(|i| {
            (
                format!("round {i}"),
                format!("print({i})"),
                false,
            )
        })
        .collect();
    let provider = ScriptedProvider { rounds };
    let mut rlm = Rlm::new(
        provider,
        "never ends".to_string(),
        String::new(),
        "test-model".to_string(),
        client(),
    )
    .unwrap();

    let max_iterations = 3;
    let mut iter = rlm.execute(max_iterations);
    let mut rounds_run = 0;
    while let Some(result) = iter.next(&mut rlm) {
        result.unwrap();
        rounds_run += 1;
    }

    assert_eq!(rounds_run, max_iterations);
    assert_eq!(iter.remaining(), 0);
    assert_eq!(iter.state(), RunState::BudgetExhausted);
}

#[test]
fn test_step_preserves_generated_final_flag() {
    let provider = ScriptedProvider {
        rounds: vec![("Only step".to_string(), "print('done')".to_string(), true)],
    };
    let mut rlm = Rlm::new(
        provider,
        String::new(),
        String::new(),
        "test-model".to_string(),
        client(),
    )
    .unwrap();

    let cell = rlm.step().unwrap();
    assert!(cell.is_final);
    assert_eq!(cell.comment, "Only step");
    assert_eq!(cell.output, Some("done".to_string()));
}

#[test]
fn test_generation_failure_is_fatal_for_the_round() {
    let provider = ScriptedProvider { rounds: vec![] };
    let mut rlm = Rlm::new(
        provider,
        String::new(),
        String::new(),
        "test-model".to_string(),
        client(),
    )
    .unwrap();

    let mut iter = rlm.execute(2);
    match iter.next(&mut rlm) {
        Some(Err(StepError::Provider(_))) => {}
        other => panic!("expected a provider failure, got {other:?}"),
    }
    assert_eq!(rlm.final_output(), None);
}

#[test]
fn test_remaining_counts_down() {
    let provider = ScriptedProvider {
        rounds: vec![("one".to_string(), "y = 1".to_string(), false)],
    };
    let mut rlm = Rlm::new(
        provider,
        String::new(),
        String::new(),
        "test-model".to_string(),
        client(),
    )
    .unwrap();

    let mut iter = rlm.execute(2);
    assert_eq!(iter.remaining(), 2);
    assert_eq!(iter.state(), RunState::Running);
    let first = iter.next(&mut rlm);
    assert!(first.is_some());
    assert_eq!(iter.remaining(), 1);
}
