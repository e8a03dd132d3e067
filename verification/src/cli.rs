//! The command-line tool's own rules: its configuration, how missing arguments are asked
//! for, and how a dataset request becomes a pipeline run.
use vstd::prelude::*;

pub mod args;
pub mod config;
pub mod create;
pub mod dataset;
pub mod resolver;

verus! {
} // verus!
