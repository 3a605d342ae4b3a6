//! Core of an interactive record-management shell: a quote-aware,
//! pipe-aware command-line tokenizer and a pipeline executor that
//! resolves command names against a registry and threads each stage's
//! output into the next stage's input.

pub mod cmd;
pub mod pipeline;
pub mod tokenize;
