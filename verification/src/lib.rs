//! Several isolates in one process, each running the same embedded program
//! under a number of its own: the decisions of such a run.
//!
//! - `source`: the embedded program.
//! - `locator`: locator syntax, as the `url` crate parses it.
//! - `loader`: the module provider of the isolates, which resolves any
//!   specifier and serves one module.
//! - `config`: the options that an isolate is created with.
//! - `decimal`: numbers in decimal notation.
//! - `slot`: one isolate's way from creation to its end.
//! - `orchestrator`: the join over all slots, in which the first failure
//!   decides.

pub mod config;
pub mod decimal;
pub mod loader;
pub mod locator;
pub mod orchestrator;
pub mod slot;
pub mod source;
