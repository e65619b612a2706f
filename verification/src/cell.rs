//! One unit of agent work and the parser that reads it from a model's
//! free-text response.
//!
//! A response is accepted in either of two wire formats: a JSON object of
//! the cell shape, or three tagged regions (`<comment>`, `<code>`,
//! `<final>`).  Parsing is pure: the same text always yields the same cell
//! or the same failure.

use vstd::prelude::*;

use crate::text::{
    chars_eq, chars_of, find_from, first_match_from, lower_of, string_of, to_lower, trim, trim_of,
};

verus! {

/// One unit of agent work: an intent, the code that realises it, the
/// captured output once executed, and a completion flag.
#[derive(Debug)]
pub struct Cell {
    /// Description of the intent of this cell.
    pub comment: String,
    /// Computation to perform.
    pub code: String,
    /// Output of the computation; `None` before execution and for code
    /// that produced no output.
    pub output: Option<String>,
    /// True if this is the final cell in the computation sequence.
    pub is_final: bool,
}

/// Mathematical image of a [`Cell`]: its four fields as plain values.
pub ghost struct CellView {
    pub comment: Seq<char>,
    pub code: Seq<char>,
    pub output: Option<Seq<char>>,
    pub is_final: bool,
}

impl Clone for Cell {
    /// An exact copy.
    fn clone(&self) -> (r: Cell)
        ensures
            r == *self,
    {
        Cell {
            comment: self.comment.clone(),
            code: self.code.clone(),
            output: match &self.output {
                Some(s) => Some(s.clone()),
                None => None,
            },
            is_final: self.is_final,
        }
    }
}

/// The views of a sequence of cells.
pub open spec fn cells_view(s: Seq<Cell>) -> Seq<CellView> {
    s.map_values(|c: Cell| c@)
}

impl View for Cell {
    type V = CellView;

    open spec fn view(&self) -> CellView {
        CellView {
            comment: self.comment@,
            code: self.code@,
            output: match self.output {
                Some(s) => Some(s@),
                None => None,
            },
            is_final: self.is_final,
        }
    }
}

/// Failure to read a cell out of a response text.
#[derive(Debug, Clone, Copy, PartialEq, Eq, Structural)]
pub enum ParseError {
    /// No `<comment>` region was found.
    MissingComment,
    /// No `<code>` region was found.
    MissingCode,
    /// The `<comment>` region is empty after trimming.
    EmptyComment,
    /// The `<code>` region is empty after trimming.
    EmptyCode,
}

impl ParseError {
    /// A human-readable description naming the field at fault.
    pub fn message(&self) -> (r: String)
        ensures
            *self == ParseError::MissingComment ==> r@ == "Failed to parse <comment> tag from response"@,
            *self == ParseError::MissingCode ==> r@ == "Failed to parse <code> tag from response"@,
            *self == ParseError::EmptyComment ==> r@ == "Comment tag is empty"@,
            *self == ParseError::EmptyCode ==> r@ == "Code tag is empty"@,
    {
        match self {
            ParseError::MissingComment => String::from_str(
                "Failed to parse <comment> tag from response",
            ),
            ParseError::MissingCode => String::from_str("Failed to parse <code> tag from response"),
            ParseError::EmptyComment => String::from_str("Comment tag is empty"),
            ParseError::EmptyCode => String::from_str("Code tag is empty"),
        }
    }
}

/// What the structured path of the parser yields for a text: the comment,
/// code and completion flag of a JSON object of the cell shape, or nothing
/// when the text is not one.
pub uninterp spec fn json_step_of(t: Seq<char>) -> Option<(Seq<char>, Seq<char>, bool)>;

/// Relies on `serde_json::from_str::<Value>` and the `Value` accessors:
/// parses `text` as a JSON object whose members "comment" and "code" are
/// strings, whose optional member "final" is a boolean (absent means not
/// final), and whose optional member "output" is a string or null and is
/// discarded.  Anything else yields `None`.  Parsing is deterministic, a
/// function of the text alone.
#[verifier::external_body]
fn parse_json_step(text: &str) -> (r: Option<(String, String, bool)>)
    ensures
        match r {
            Some((c, k, f)) => json_step_of(text@) == Some((c@, k@, f)),
            None => json_step_of(text@) is None,
        },
{
    let v: serde_json::Value = serde_json::from_str(text).ok()?;
    let comment = v.get("comment")?.as_str()?.to_string();
    let code = v.get("code")?.as_str()?.to_string();
    if let Some(o) = v.get("output") {
        if !(o.is_string() || o.is_null()) {
            return None;
        }
    }
    let is_final = match v.get("final") {
        None => false,
        Some(b) => b.as_bool()?,
    };
    Some((comment, code, is_final))
}

/// The first region of `t` that lies between the `open` tag and the first
/// `close` tag after it.
pub open spec fn region_of(t: Seq<char>, open: Seq<char>, close: Seq<char>) -> Option<Seq<char>> {
    match first_match_from(t, open, 0) {
        Some(i) => match first_match_from(t, close, i + open.len()) {
            Some(j) => Some(t.subrange(i + open.len(), j)),
            None => None,
        },
        None => None,
    }
}

/// Whether a `<final>` region declares completion: its trimmed value,
/// ASCII lower-cased (the accepted spellings are ASCII), is `true` or
/// `yes`; anything else, or no region at all, does not.
pub open spec fn final_flag_of(r: Option<Seq<char>>) -> bool {
    match r {
        Some(s) => lower_of(trim_of(s)) == "true"@ || lower_of(trim_of(s)) == "yes"@,
        None => false,
    }
}

/// The validation both wire formats share: the intent and the code are
/// trimmed and must both be non-empty; a step that passes is
/// pre-execution, its output `None`.
pub open spec fn validated_step(comment_raw: Seq<char>, code_raw: Seq<char>, is_final: bool) -> Result<
    CellView,
    ParseError,
> {
    let comment = trim_of(comment_raw);
    let code = trim_of(code_raw);
    if comment.len() == 0 {
        Err(ParseError::EmptyComment)
    } else if code.len() == 0 {
        Err(ParseError::EmptyCode)
    } else {
        Ok(CellView { comment, code, output: None, is_final })
    }
}

/// What the tagged path of the parser yields: the `<comment>` and `<code>`
/// regions, which must be present, and the optional `<final>` flag, all
/// put through the shared validation.
pub open spec fn tagged_step_of(t: Seq<char>) -> Result<CellView, ParseError> {
    match region_of(t, "<comment>"@, "</comment>"@) {
        None => Err(ParseError::MissingComment),
        Some(comment_raw) => match region_of(t, "<code>"@, "</code>"@) {
            None => Err(ParseError::MissingCode),
            Some(code_raw) => validated_step(
                comment_raw,
                code_raw,
                final_flag_of(region_of(t, "<final>"@, "</final>"@)),
            ),
        },
    }
}

/// The whole parsing policy: the structured path first, the tagged path
/// otherwise, both ending in the shared validation.
pub open spec fn step_of_text(t: Seq<char>) -> Result<CellView, ParseError> {
    match json_step_of(t) {
        Some((c, k, f)) => validated_step(c, k, f),
        None => tagged_step_of(t),
    }
}

/// A parsed step is always pre-execution: whatever text it was read from,
/// and on either wire format, its output is `None`.
pub proof fn lemma_parsed_step_not_executed(t: Seq<char>, c: CellView)
    requires
        step_of_text(t) == Ok::<CellView, ParseError>(c),
    ensures
        c.output is None,
{
}

/// The first region of `t` between `open` and the first following `close`.
fn extract_region(t: &Vec<char>, open: &Vec<char>, close: &Vec<char>) -> (r: Option<Vec<char>>)
    ensures
        match r {
            Some(v) => region_of(t@, open@, close@) == Some(v@),
            None => region_of(t@, open@, close@) is None,
        },
{
    let tl = t.len();
    let i = match find_from(t, open, 0) {
        None => {
            return None;
        },
        Some(i) => i,
    };
    assert(i + open@.len() <= tl);
    let content_start = i + open.len();
    let j = match find_from(t, close, content_start) {
        None => {
            return None;
        },
        Some(j) => j,
    };
    let mut out: Vec<char> = Vec::new();
    let mut k: usize = content_start;
    while k < j
        invariant
            content_start <= k <= j,
            j <= t@.len(),
            out@ == t@.subrange(content_start as int, k as int),
        decreases j - k,
    {
        out.push(t[k]);
        assert(out@ =~= t@.subrange(content_start as int, k + 1 as int));
        k = k + 1;
    }
    Some(out)
}

/// Trim and reject: the shared validation of [`validated_step`], on the
/// raw intent and code of either wire format.
fn validate_step(comment_raw: &Vec<char>, code_raw: &Vec<char>, is_final: bool) -> (r: Result<
    Cell,
    ParseError,
>)
    ensures
        match r {
            Ok(c) => validated_step(comment_raw@, code_raw@, is_final) == Ok::<
                CellView,
                ParseError,
            >(c@),
            Err(e) => validated_step(comment_raw@, code_raw@, is_final) == Err::<
                CellView,
                ParseError,
            >(e),
        },
{
    let comment = trim(comment_raw);
    let code = trim(code_raw);
    if comment.len() == 0 {
        return Err(ParseError::EmptyComment);
    }
    if code.len() == 0 {
        return Err(ParseError::EmptyCode);
    }
    Ok(Cell { comment: string_of(&comment), code: string_of(&code), output: None, is_final })
}

impl Cell {
    /// Parse a model's raw response into an unexecuted cell, by the policy
    /// of [`step_of_text`]: the structured JSON form when the text is one,
    /// otherwise the three tagged regions, of which `<comment>` and
    /// `<code>` are mandatory; on both paths the intent and the code are
    /// trimmed and must be non-empty.
    pub fn parse(text: &str) -> (r: Result<Cell, ParseError>)
        ensures
            match r {
                Ok(c) => step_of_text(text@) == Ok::<CellView, ParseError>(c@),
                Err(e) => step_of_text(text@) == Err::<CellView, ParseError>(e),
            },
    {
        if let Some((comment, code, is_final)) = parse_json_step(text) {
            return validate_step(
                &chars_of(comment.as_str()),
                &chars_of(code.as_str()),
                is_final,
            );
        }
        let t = chars_of(text);
        let comment_raw = match extract_region(
            &t,
            &chars_of("<comment>"),
            &chars_of("</comment>"),
        ) {
            None => {
                return Err(ParseError::MissingComment);
            },
            Some(v) => v,
        };
        let code_raw = match extract_region(&t, &chars_of("<code>"), &chars_of("</code>")) {
            None => {
                return Err(ParseError::MissingCode);
            },
            Some(v) => v,
        };
        let is_final = match extract_region(&t, &chars_of("<final>"), &chars_of("</final>")) {
            None => false,
            Some(raw) => {
                let trimmed = trim(&raw);
                let v = to_lower(&trimmed);
                let is_true = chars_eq(&v, &chars_of("true"));
                let is_yes = chars_eq(&v, &chars_of("yes"));
                is_true || is_yes
            },
        };
        validate_step(&comment_raw, &code_raw, is_final)
    }
}

} // verus!

