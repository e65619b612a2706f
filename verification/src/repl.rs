//! The notebook ledger: an append-only sequence of executed cells plus the
//! original task prompt, backed by one live [`Environment`].
//!
//! The ledger renders itself to a single text document for re-submission to
//! the model, bounds every stored output to a fixed token budget, and can
//! take an isolated snapshot (same content, fresh environment) for safe use
//! during generation.

use vstd::prelude::*;

use crate::cell::{cells_view, Cell, CellView};
use crate::environment::{exec_error_text, ContextValue, Environment, ExecError, LlmClient};
use crate::text::{join_strings, join_with, views_of};
use crate::tokens::{decode_of, encode_of, p50k_decode, p50k_encode, TokenError};

verus! {

/// The token budget for one stored cell output.
pub const MAX_OUTPUT_TOKENS: usize = 200;

/// The literal appended to an output that was cut down to the budget, so
/// the model can react to the loss.
pub open spec fn truncation_marker() -> Seq<char> {
    "\n[truncated]"@
}

/// Bound one raw output to [`MAX_OUTPUT_TOKENS`] token units.  Output
/// within the budget is kept as it is; longer output is truncated to
/// exactly the budget's leading units and marked, never kept whole.  A
/// failure of the tokenizer collaborator is reported, not papered over.
pub fn bound_output(raw: String) -> (r: Result<String, TokenError>)
    ensures
        r matches Ok(b) ==> {
            &&& raw@.len() > 0 ==> b@.len() > 0
            &&& encode_of(raw@).len() <= MAX_OUTPUT_TOKENS ==> b@ == raw@
            &&& encode_of(raw@).len() > MAX_OUTPUT_TOKENS ==> {
                let kept = decode_of(encode_of(raw@).take(MAX_OUTPUT_TOKENS as int));
                &&& b@ == kept + truncation_marker()
                &&& kept.is_prefix_of(raw@)
                &&& kept.len() < raw@.len()
                &&& b@.len() >= truncation_marker().len()
                &&& b@.subrange(
                    b@.len() - truncation_marker().len(),
                    b@.len() as int,
                ) == truncation_marker()
            }
        },
{
    proof {
        reveal_strlit("\n[truncated]");
    }
    let tokens = p50k_encode(raw.as_str())?;
    if tokens.len() <= MAX_OUTPUT_TOKENS {
        return Ok(raw);
    }
    let mut prefix = tokens;
    prefix.truncate(MAX_OUTPUT_TOKENS);
    let mut kept = p50k_decode(&prefix)?;
    kept.append("\n[truncated]");
    proof {
        assert(kept@.subrange(
            kept@.len() - truncation_marker().len(),
            kept@.len() as int,
        ) =~= truncation_marker());
    }
    Ok(kept)
}

/// The prefix that marks a stored failure text.
pub open spec fn error_prefix() -> Seq<char> {
    "Execution error: "@
}

/// The stored record of one evaluation outcome: captured output bounded to
/// the token budget, nothing at all where nothing was printed, and for a
/// failure — of execution and of the tokenizer alike — the failure's text
/// behind the `Execution error: ` prefix, visible to the model and never
/// fatal.  Over-budget output is stored only in its marked, truncated form.
pub fn stored_output(outcome: Result<Option<String>, ExecError>) -> (r: Option<String>)
    ensures
        match outcome {
            Ok(None) => r is None,
            Ok(Some(raw)) => r matches Some(s) && {
                &&& s@.len() > 0 || raw@.len() == 0
                &&& {
                    ||| (encode_of(raw@).len() <= MAX_OUTPUT_TOKENS && s@ == raw@)
                    ||| (encode_of(raw@).len() > MAX_OUTPUT_TOKENS && s@ == decode_of(
                        encode_of(raw@).take(MAX_OUTPUT_TOKENS as int),
                    ) + truncation_marker())
                    ||| error_prefix().is_prefix_of(s@)
                }
            },
            Err(e) => r matches Some(s) && s@ == error_prefix() + exec_error_text(e) && s@.len()
                > 0,
        },
{
    proof {
        reveal_strlit("Execution error: ");
    }
    match outcome {
        Ok(None) => None,
        Ok(Some(raw)) => match bound_output(raw) {
            Ok(bounded) => Some(bounded),
            Err(failure) => {
                let mut s = String::from_str("Execution error: ");
                s.append(failure.message().as_str());
                proof {
                    assert(s@.subrange(0, error_prefix().len() as int) =~= error_prefix());
                }
                Some(s)
            },
        },
        Err(e) => {
            let mut s = String::from_str("Execution error: ");
            s.append(e.message().as_str());
            Some(s)
        },
    }
}

/// The pieces one cell contributes to the rendered document: its comment as
/// a heading, its code fenced, and its output fenced under an `Output`
/// label; empty sub-parts are left out.
pub open spec fn rendered_cell_parts(c: CellView) -> Seq<Seq<char>> {
    let with_comment: Seq<Seq<char>> = if c.comment.len() > 0 {
        seq!["# "@ + c.comment]
    } else {
        Seq::empty()
    };
    let with_code: Seq<Seq<char>> = if c.code.len() > 0 {
        with_comment.push("```\n"@ + c.code + "\n```"@)
    } else {
        with_comment
    };
    match c.output {
        Some(out) => with_code.push("Output:\n```\n"@ + out + "\n```"@),
        None => with_code,
    }
}

/// What one cell contributes to the document: its pieces joined by line
/// breaks and closed by one, or nothing when it has no pieces at all.
pub open spec fn rendered_cell(c: CellView) -> Option<Seq<char>> {
    let parts = rendered_cell_parts(c);
    if parts.len() == 0 {
        None
    } else {
        Some(join_with(parts, "\n"@) + "\n"@)
    }
}

/// The per-cell blocks of the document, in ledger order.
pub open spec fn cell_blocks_of(cells: Seq<CellView>) -> Seq<Seq<char>>
    decreases cells.len(),
{
    if cells.len() == 0 {
        Seq::empty()
    } else {
        let rest = cell_blocks_of(cells.drop_last());
        match rendered_cell(cells.last()) {
            Some(block) => rest.push(block),
            None => rest,
        }
    }
}

/// All blocks of the document: the task prompt first when there is one,
/// then each cell's block.
pub open spec fn document_blocks_of(prompt: Seq<char>, cells: Seq<CellView>) -> Seq<Seq<char>> {
    let head: Seq<Seq<char>> = if prompt.len() > 0 {
        seq!["Prompt:\n"@ + prompt + "\n"@]
    } else {
        Seq::empty()
    };
    head + cell_blocks_of(cells)
}

/// The whole rendered document: the blocks joined by blank separation.
pub open spec fn document_of(prompt: Seq<char>, cells: Seq<CellView>) -> Seq<char> {
    join_with(document_blocks_of(prompt, cells), "\n"@)
}

/// Rendering reads nothing but the prompt and the cells: equal ledgers
/// render to equal text, so re-rendering an unmodified ledger yields the
/// identical document.
pub proof fn lemma_render_idempotent(
    prompt1: Seq<char>,
    cells1: Seq<CellView>,
    prompt2: Seq<char>,
    cells2: Seq<CellView>,
)
    requires
        prompt1 == prompt2,
        cells1 == cells2,
    ensures
        document_of(prompt1, cells1) == document_of(prompt2, cells2),
{
}

/// Every stored output in `cells` is non-empty: the ledger distinguishes
/// "no output" from "empty output" and never stores the latter.
pub open spec fn outputs_well_formed(cells: Seq<CellView>) -> bool {
    forall|i: int|
        0 <= i < cells.len() ==> match (#[trigger] cells[i]).output {
            Some(s) => s.len() > 0,
            None => true,
        }
}

/// Mathematical image of a [`Repl`]: its prompt, its cells, and the bridge
/// configuration its environment was built with.  The environment's own
/// interpreter state has no mathematical image.
pub ghost struct ReplView {
    pub prompt: Seq<char>,
    pub cells: Seq<CellView>,
    pub client: LlmClient,
}

/// The notebook: the fixed task prompt, the executed cells in execution
/// order, and the one live environment the cells ran against.
pub struct Repl {
    /// The task prompt, fixed at creation.
    pub prompt: String,
    /// The executed cells, in execution order; append-only.
    pub entries: Vec<Cell>,
    environment: Environment,
    client: LlmClient,
}

impl View for Repl {
    type V = ReplView;

    closed spec fn view(&self) -> ReplView {
        ReplView {
            prompt: self.prompt@,
            cells: cells_view(self.entries@),
            client: self.client,
        }
    }
}

impl Repl {
    /// A fresh ledger around a fresh environment holding `init_context`.
    /// The `model` argument names the model for callers' bookkeeping; the
    /// environment's bridge is configured by `client` alone.
    pub fn new(
        prompt: String,
        init_context: ContextValue,
        _model: String,
        client: LlmClient,
    ) -> (r: Result<Repl, ExecError>)
        ensures
            r matches Ok(l) ==> {
                &&& l@.prompt == prompt@
                &&& l@.cells.len() == 0
                &&& l@.client == client
            },
    {
        let environment = Environment::new(init_context, client.clone())?;
        Ok(Repl { prompt, entries: Vec::new(), environment, client })
    }

    /// A ledger with the given content, around a fresh environment with an
    /// empty context: what reading a persisted ledger back yields.
    /// Environment state is never persisted.
    pub fn from_parts(prompt: String, entries: Vec<Cell>, client: LlmClient) -> (r: Result<
        Repl,
        ExecError,
    >)
        ensures
            r matches Ok(l) ==> {
                &&& l@.prompt == prompt@
                &&& l@.cells == cells_view(entries@)
                &&& l@.client == client
            },
    {
        let environment = Environment::new(
            ContextValue::Text(String::new()),
            client.clone(),
        )?;
        Ok(Repl { prompt, entries, environment, client })
    }

    /// Execute one step against the live environment and append its record.
    /// Output is bounded by [`bound_output`]; an execution failure is
    /// stored as the output text, prefixed `Execution error: `, and is not
    /// fatal.  The new cell is not final; nothing already recorded changes.
    pub fn eval(&mut self, comment: &str, code: &str)
        ensures
            final(self)@.prompt == old(self)@.prompt,
            final(self)@.client == old(self)@.client,
            final(self)@.cells.len() == old(self)@.cells.len() + 1,
            final(self)@.cells.drop_last() == old(self)@.cells,
            final(self)@.cells.last().comment == comment@,
            final(self)@.cells.last().code == code@,
            !final(self)@.cells.last().is_final,
            match final(self)@.cells.last().output {
                Some(s) => s.len() > 0,
                None => true,
            },
            outputs_well_formed(old(self)@.cells) ==> outputs_well_formed(final(self)@.cells),
    {
        let outcome = self.environment.eval(code);
        let output = stored_output(outcome);
        let cell = Cell {
            comment: comment.to_owned(),
            code: code.to_owned(),
            output,
            is_final: false,
        };
        self.entries.push(cell);
        proof {
            assert(cells_view(self.entries@).drop_last() =~= cells_view(old(self).entries@));
            if outputs_well_formed(cells_view(old(self).entries@)) {
                let cells = cells_view(self.entries@);
                assert forall|i: int|
                    0 <= i < cells.len() implies match (#[trigger] cells[i]).output {
                    Some(s) => s.len() > 0,
                    None => true,
                } by {
                    if i < cells.len() - 1 {
                        assert(cells_view(old(self).entries@)[i] == old(self).entries@[i]@);
                        assert(cells[i] == old(self).entries@[i]@);
                    }
                }
            }
        }
    }

    /// Render the ledger to one document: the prompt first when non-empty,
    /// then each cell's heading, fenced code and fenced output, leaving out
    /// what a cell does not have.
    pub fn to_markdown(&self) -> (r: String)
        ensures
            r@ == document_of(self@.prompt, self@.cells),
    {
        let ghost cells = cells_view(self.entries@);
        let mut blocks: Vec<String> = Vec::new();
        if !self.prompt.as_str().is_empty() {
            let mut head = String::from_str("Prompt:\n");
            head.append(self.prompt.as_str());
            head.append("\n");
            blocks.push(head);
        }
        proof {
            assert(views_of(blocks@) =~= document_blocks_of(self.prompt@, cells.take(0int)));
        }
        let mut i: usize = 0;
        while i < self.entries.len()
            invariant
                cells == cells_view(self.entries@),
                cells.len() == self.entries@.len(),
                i <= self.entries@.len(),
                views_of(blocks@) == document_blocks_of(self.prompt@, cells.take(i as int)),
            decreases self.entries@.len() - i,
        {
            let cell = &self.entries[i];
            let ghost cv = cells[i as int];
            assert(cv == self.entries@[i as int]@);
            let mut parts: Vec<String> = Vec::new();
            if !cell.comment.as_str().is_empty() {
                let mut s = String::from_str("# ");
                s.append(cell.comment.as_str());
                parts.push(s);
            }
            if !cell.code.as_str().is_empty() {
                let mut s = String::from_str("```\n");
                s.append(cell.code.as_str());
                s.append("\n```");
                parts.push(s);
            }
            match &cell.output {
                Some(out) => {
                    let mut s = String::from_str("Output:\n```\n");
                    s.append(out.as_str());
                    s.append("\n```");
                    parts.push(s);
                },
                None => {},
            }
            assert(views_of(parts@) =~= rendered_cell_parts(cv));
            if parts.len() > 0 {
                let mut block = join_strings(&parts, "\n");
                block.append("\n");
                blocks.push(block);
                assert(views_of(blocks@) =~= document_blocks_of(
                    self.prompt@,
                    cells.take(i as int),
                ).push(rendered_cell(cv)->Some_0));
            }
            proof {
                assert(cells.take(i + 1 as int).drop_last() =~= cells.take(i as int));
                assert(cells.take(i + 1 as int).last() == cv);
                let head: Seq<Seq<char>> = if self.prompt@.len() > 0 {
                    seq!["Prompt:\n"@ + self.prompt@ + "\n"@]
                } else {
                    Seq::empty()
                };
                match rendered_cell(cv) {
                    Some(block) => {
                        assert((head + cell_blocks_of(cells.take(i as int))).push(block) =~= head
                            + cell_blocks_of(cells.take(i as int)).push(block));
                    },
                    None => {},
                }
            }
            i = i + 1;
        }
        proof {
            assert(cells.take(cells.len() as int) =~= cells);
        }
        join_strings(&blocks, "\n")
    }

    /// An isolated copy for rendering during generation: same prompt, same
    /// cells, same model bridge, but a fresh environment with an empty
    /// context.  A snapshot exists to be rendered, never executed against.
    pub fn snapshot(&self) -> (r: Result<Repl, ExecError>)
        ensures
            r matches Ok(s) ==> s@ == self@,
    {
        let mut entries: Vec<Cell> = Vec::new();
        let mut i: usize = 0;
        while i < self.entries.len()
            invariant
                i <= self.entries@.len(),
                entries@ == self.entries@.take(i as int),
            decreases self.entries@.len() - i,
        {
            entries.push(self.entries[i].clone());
            assert(entries@ =~= self.entries@.take(i + 1 as int));
            i = i + 1;
        }
        assert(entries@ =~= self.entries@);
        let environment = Environment::new(
            ContextValue::Text(String::new()),
            self.client.clone(),
        )?;
        let s = Repl {
            prompt: self.prompt.clone(),
            entries,
            environment,
            client: self.client.clone(),
        };
        assert(s@ =~= self@);
        Ok(s)
    }

    /// Overwrite the last cell's completion flag: execution itself does not
    /// know about completion, so the generation-time flag is written onto
    /// the stored record once the step has run.  Nothing else changes.
    pub fn set_last_final(&mut self, is_final: bool)
        requires
            old(self)@.cells.len() > 0,
        ensures
            final(self)@.prompt == old(self)@.prompt,
            final(self)@.client == old(self)@.client,
            final(self)@.cells.len() == old(self)@.cells.len(),
            final(self)@.cells.drop_last() == old(self)@.cells.drop_last(),
            final(self)@.cells.last() == (CellView {
                is_final,
                ..old(self)@.cells.last()
            }),
    {
        let mut cell = self.entries.pop().unwrap();
        cell.is_final = is_final;
        self.entries.push(cell);
        proof {
            assert(cells_view(self.entries@).drop_last() =~= cells_view(
                old(self).entries@,
            ).drop_last());
            assert(cells_view(self.entries@).last() == (CellView {
                is_final,
                ..cells_view(old(self).entries@).last()
            }));
        }
    }

    /// A copy of the last cell.
    pub fn last_cell(&self) -> (r: Cell)
        requires
            self@.cells.len() > 0,
        ensures
            r@ == self@.cells.last(),
    {
        let last = &self.entries[self.entries.len() - 1];
        last.clone()
    }

    /// The output of the last cell, or nothing when no cell exists.
    pub fn final_output(&self) -> (r: Option<String>)
        ensures
            self@.cells.len() == 0 ==> r is None,
            self@.cells.len() > 0 ==> match (r, self@.cells.last().output) {
                (Some(s), Some(o)) => s@ == o,
                (None, None) => true,
                _ => false,
            },
    {
        if self.entries.len() == 0 {
            return None;
        }
        let last = &self.entries[self.entries.len() - 1];
        match &last.output {
            Some(s) => Some(s.clone()),
            None => None,
        }
    }
}

} // verus!
