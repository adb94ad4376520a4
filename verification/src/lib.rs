//! Source-code analysis behind a request/response boundary.
//!
//! A request names a file and carries its content; the answer is a syntax
//! tree, a copy without comments, a set of metrics or the list of functions.
//! Parsing and the analyses themselves are done by `rust_code_analysis`; this
//! crate decides which grammar a request is read with, which analysis runs on
//! it, and what the answer looks like on the wire.
//!
//! * [`language`]: the grammars and how a request is assigned one.
//! * [`engine`]: every call into `rust_code_analysis`, each with the contract
//!   that the rest of the crate relies on and does not prove.
//! * [`capability`]: the interface of an analysis, the generic dispatcher and
//!   the answer to a request, whatever the analysis.
//! * [`response`]: the shapes an answer can take.
//! * [`ast`], [`comment`], [`metrics`], [`function`]: the four analyses.
//! * [`server`]: one handler per route.
//! * [`laws`]: what holds across handlers and analyses.

pub mod language;
pub mod engine;
pub mod capability;
pub mod response;
pub mod ast;
pub mod comment;
pub mod metrics;
pub mod function;
pub mod server;
pub mod laws;
