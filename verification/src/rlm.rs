//! The orchestration loop: repeated rounds of snapshot, generate, execute,
//! record, driven until the model declares completion or the iteration
//! budget runs out.
//!
//! The model itself stands behind the [`LmProvider`] trait; [`RigProvider`]
//! implements it against the configured backend.

use vstd::prelude::*;

use crate::cell::{lemma_parsed_step_not_executed, step_of_text, Cell, CellView, ParseError};
use crate::environment::{prompt_model, ContextValue, ExecError, LlmClient};
use crate::repl::{document_of, Repl, ReplView};

verus! {

/// Failure to construct the orchestrator or its ledger.
#[derive(Debug)]
pub enum InitError {
    /// The execution environment could not be built.
    Environment(String),
}

impl InitError {
    /// A human-readable description of the failure.
    pub fn message(&self) -> (r: String)
        ensures
            self matches InitError::Environment(m) ==> r@ == m@,
    {
        match self {
            InitError::Environment(m) => m.clone(),
        }
    }
}

/// A fatal failure of one generation round.  Unlike an execution failure,
/// which is recorded in the ledger and shown to the model, these leave no
/// valid step to act on and terminate the whole sequence.
#[derive(Debug)]
pub enum StepError {
    /// The ledger could not be snapshotted for generation.
    Snapshot(String),
    /// The model provider failed to produce a response.
    Provider(String),
    /// The response could not be parsed into a step.
    Parse(ParseError),
}

impl StepError {
    /// A human-readable description of the failure.
    pub fn message(&self) -> (r: String)
        ensures
            self matches StepError::Snapshot(m) ==> r@ == m@,
            self matches StepError::Provider(m) ==> r@ == m@,
    {
        match self {
            StepError::Snapshot(m) => m.clone(),
            StepError::Provider(m) => m.clone(),
            StepError::Parse(e) => e.message(),
        }
    }
}

/// Inputs a language model can be prompted with.
pub trait LmInput {
    /// Render the input as one prompt document.
    fn format(&self) -> String;
}

impl LmInput for Repl {
    /// The ledger's rendered document.
    fn format(&self) -> (r: String)
        ensures
            r@ == document_of(self@.prompt, self@.cells),
    {
        self.to_markdown()
    }
}

/// Parsing a model's text output into a structured value.
pub trait OutputParser: Sized {
    /// Parse the text into the structured type.
    fn parse(text: &str) -> Result<Self, ParseError>;
}

impl OutputParser for Cell {
    /// The cell parser of [`Cell::parse`].
    fn parse(text: &str) -> (r: Result<Cell, ParseError>)
        ensures
            match r {
                Ok(c) => step_of_text(text@) == Ok::<CellView, ParseError>(c@),
                Err(e) => step_of_text(text@) == Err::<CellView, ParseError>(e),
            },
    {
        Cell::parse(text)
    }
}

/// A model provider: turns a rendered ledger into the next structured
/// step.  The work behind it is outside this library; nothing is promised
/// of what an implementation returns.
pub trait LmProvider: Sized {
    /// Replace the system instruction the provider sends.
    fn with_system(self, prompt: String) -> Self;

    /// Generate one structured step from the given ledger.
    fn generate(&self, input: &Repl) -> Result<Cell, StepError>;
}

/// Mathematical image of a [`RigProvider`]: its backend configuration and
/// its system instruction.
pub ghost struct RigProviderView {
    pub backend: LlmClient,
    pub system_prompt: Option<Seq<char>>,
}

/// The provider against the configured model backend: it renders the
/// ledger, sends it under the system instruction, and parses the response
/// into a step.
pub struct RigProvider {
    backend: LlmClient,
    system_prompt: Option<String>,
}

impl View for RigProvider {
    type V = RigProviderView;

    closed spec fn view(&self) -> RigProviderView {
        RigProviderView {
            backend: self.backend,
            system_prompt: match self.system_prompt {
                Some(s) => Some(s@),
                None => None,
            },
        }
    }
}

impl RigProvider {
    /// A provider that talks to a local model daemon, under the given
    /// system instruction.
    pub fn new_ollama_with_system(model: String, system_prompt: String) -> (r: RigProvider)
        ensures
            r@.backend == LlmClient::Ollama(model),
            r@.system_prompt == Some(system_prompt@),
    {
        RigProvider { backend: LlmClient::Ollama(model), system_prompt: Some(system_prompt) }
    }

    /// A provider that talks to the hosted model router with the given API
    /// key, under the given system instruction.
    pub fn new_openrouter_with_system_and_key(
        model: String,
        system_prompt: String,
        api_key: String,
    ) -> (r: RigProvider)
        ensures
            r@.backend == LlmClient::Openrouter(model, api_key),
            r@.system_prompt == Some(system_prompt@),
    {
        RigProvider {
            backend: LlmClient::Openrouter(model, api_key),
            system_prompt: Some(system_prompt),
        }
    }

    /// The bridge configuration for an environment that should ask the
    /// same backend.
    pub fn to_llm_client(&self) -> (r: Result<LlmClient, InitError>)
        ensures
            r matches Ok(c) ==> c == self@.backend,
    {
        Ok(self.backend.clone())
    }
}

impl LmProvider for RigProvider {
    /// Unchanged: the system instruction is fixed at construction.
    fn with_system(self, _prompt: String) -> (r: RigProvider)
        ensures
            r@ == self@,
    {
        self
    }

    /// One generation round: render `input`, send it under the system
    /// instruction, parse the response.  On success the step is exactly
    /// what the parser read from some response text, so it is
    /// pre-execution: its output is `None`.
    fn generate(&self, input: &Repl) -> (r: Result<Cell, StepError>)
        ensures
            r matches Ok(c) ==> {
                &&& exists|resp: Seq<char>|
                    step_of_text(resp) == Ok::<CellView, ParseError>(c@)
                &&& c@.output is None
            },
    {
        let rendered = input.to_markdown();
        let system: Option<&str> = match &self.system_prompt {
            Some(s) => Some(s.as_str()),
            None => None,
        };
        let response = match prompt_model(&self.backend, system, rendered.as_str()) {
            Ok(text) => text,
            Err(e) => {
                return Err(StepError::Provider(e.message()));
            },
        };
        match Cell::parse(response.as_str()) {
            Ok(c) => {
                proof {
                    assert(step_of_text(response@) == Ok::<CellView, ParseError>(c@));
                    lemma_parsed_step_not_executed(response@, c@);
                }
                Ok(c)
            },
            Err(e) => Err(StepError::Parse(e)),
        }
    }
}

/// Where a run stands: still generating, done by an explicit final step,
/// or done because the iteration budget ran out.
#[derive(Debug, Clone, Copy, PartialEq, Eq, Structural)]
pub enum RunState {
    /// Rounds may still be performed.
    Running,
    /// A step declared itself final.
    Completed,
    /// The iteration budget was used up without a final step.
    BudgetExhausted,
}

/// The orchestrator: a model provider and the ledger it works against.
pub struct Rlm<P: LmProvider> {
    provider: P,
    repl: Repl,
}

impl<P: LmProvider> View for Rlm<P> {
    type V = ReplView;

    closed spec fn view(&self) -> ReplView {
        self.repl@
    }
}

impl<P: LmProvider> Rlm<P> {
    /// A fresh orchestrator: an empty ledger for `prompt`, whose
    /// environment holds `context` and asks the backend `client` names.
    /// The `model` argument names the model for callers' bookkeeping.
    pub fn new(
        provider: P,
        prompt: String,
        context: String,
        model: String,
        client: LlmClient,
    ) -> (r: Result<Rlm<P>, InitError>)
        ensures
            r matches Ok(m) ==> {
                &&& m@.prompt == prompt@
                &&& m@.cells.len() == 0
                &&& m@.client == client
            },
    {
        let repl = match Repl::new(prompt, ContextValue::Text(context), model, client) {
            Ok(l) => l,
            Err(e) => {
                return Err(InitError::Environment(e.message()));
            },
        };
        Ok(Rlm { provider, repl })
    }

    /// One round: snapshot the ledger, generate the next step from it,
    /// execute the step's code against the live ledger, overwrite the
    /// stored record's completion flag with the generation-time flag
    /// (execution itself knows nothing of completion), and return the
    /// executed step exactly as stored.  On failure nothing is recorded.
    pub fn step(&mut self) -> (r: Result<Cell, StepError>)
        ensures
            r matches Ok(c) ==> {
                &&& final(self)@.prompt == old(self)@.prompt
                &&& final(self)@.client == old(self)@.client
                &&& final(self)@.cells.len() == old(self)@.cells.len() + 1
                &&& final(self)@.cells.drop_last() == old(self)@.cells
                &&& c@ == final(self)@.cells.last()
            },
            r is Err ==> final(self)@ == old(self)@,
    {
        let snapshot = match self.repl.snapshot() {
            Ok(s) => s,
            Err(e) => {
                return Err(StepError::Snapshot(e.message()));
            },
        };
        let generated = self.provider.generate(&snapshot)?;
        self.repl.eval(generated.comment.as_str(), generated.code.as_str());
        self.repl.set_last_final(generated.is_final);
        Ok(self.repl.last_cell())
    }

    /// An iteration counter for up to `max_iterations` rounds against this
    /// orchestrator.
    pub fn execute(&self, max_iterations: usize) -> (it: RlmIterator<P>)
        ensures
            it@.remaining == max_iterations,
            it@.state is Running,
    {
        RlmIterator {
            remaining: max_iterations,
            state: RunState::Running,
            marker: core::marker::PhantomData,
        }
    }

    /// The output of the last step, or nothing when no step exists.
    pub fn final_output(&self) -> (r: Option<String>)
        ensures
            self@.cells.len() == 0 ==> r is None,
            self@.cells.len() > 0 ==> match (r, self@.cells.last().output) {
                (Some(s), Some(o)) => s@ == o,
                (None, None) => true,
                _ => false,
            },
    {
        self.repl.final_output()
    }
}

/// Mathematical image of an [`RlmIterator`]: rounds left and where the
/// run stands.
pub ghost struct IterView {
    pub remaining: nat,
    pub state: RunState,
}

/// Drives up to a budgeted number of rounds and stops early on the first
/// step that declares itself final.  It holds no borrow of its
/// orchestrator: each call to [`RlmIterator::next`] takes the orchestrator
/// to drive, and the contracts hold per call, so a counter should be
/// paired with one orchestrator throughout a run.
pub struct RlmIterator<P: LmProvider> {
    remaining: usize,
    state: RunState,
    marker: core::marker::PhantomData<P>,
}

impl<P: LmProvider> View for RlmIterator<P> {
    type V = IterView;

    closed spec fn view(&self) -> IterView {
        IterView { remaining: self.remaining as nat, state: self.state }
    }
}

impl<P: LmProvider> RlmIterator<P> {
    /// The next executed step: one round of `rlm`, unless the run is done
    /// or the budget is spent, in which case nothing is performed and the
    /// budget's exhaustion is recorded.  A step that declares itself final
    /// completes the run; a round's failure is handed through.
    pub fn next(&mut self, rlm: &mut Rlm<P>) -> (r: Option<Result<Cell, StepError>>)
        ensures
            !(old(self)@.state is Running) ==> {
                &&& r is None
                &&& final(rlm)@ == old(rlm)@
                &&& final(self)@ == old(self)@
            },
            old(self)@.state is Running && old(self)@.remaining == 0 ==> {
                &&& r is None
                &&& final(rlm)@ == old(rlm)@
                &&& final(self)@.remaining == 0
                &&& final(self)@.state is BudgetExhausted
            },
            old(self)@.state is Running && old(self)@.remaining > 0 ==> {
                &&& final(self)@.remaining == old(self)@.remaining - 1
                &&& match r {
                    Some(Ok(c)) => {
                        &&& final(rlm)@.prompt == old(rlm)@.prompt
                        &&& final(rlm)@.client == old(rlm)@.client
                        &&& final(rlm)@.cells.len() == old(rlm)@.cells.len() + 1
                        &&& final(rlm)@.cells.drop_last() == old(rlm)@.cells
                        &&& c@.is_final ==> final(self)@.state is Completed
                        &&& !c@.is_final ==> final(self)@.state is Running
                    },
                    Some(Err(_)) => final(rlm)@ == old(rlm)@ && final(self)@.state is Running,
                    None => false,
                }
            },
    {
        match self.state {
            RunState::Completed => {
                return None;
            },
            RunState::BudgetExhausted => {
                return None;
            },
            RunState::Running => {},
        }
        if self.remaining == 0 {
            self.state = RunState::BudgetExhausted;
            return None;
        }
        self.remaining = self.remaining - 1;
        match rlm.step() {
            Ok(c) => {
                if c.is_final {
                    self.state = RunState::Completed;
                }
                Some(Ok(c))
            },
            Err(e) => Some(Err(e)),
        }
    }

    /// The number of rounds still in the budget.
    pub fn remaining(&self) -> (r: usize)
        ensures
            r == self@.remaining,
    {
        self.remaining
    }

    /// Where the run stands.
    pub fn state(&self) -> (r: RunState)
        ensures
            r == self@.state,
    {
        self.state
    }
}

} // verus!
