//! A notebook-style agent runtime: a capability-restricted script
//! environment with persistent global state, an append-only ledger of
//! executed steps, a parser for a model's free-text step descriptions,
//! and an orchestration loop that drives generate-execute-record rounds.

pub mod cell;
pub mod environment;
pub mod inputs;
pub mod repl;
pub mod rlm;
pub mod tools;
pub mod text;
pub mod tokens;
