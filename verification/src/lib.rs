//! Extraction of functions from source-code repositories, and the configuration,
//! pipeline and naming rules around it.
use vstd::prelude::*;

pub mod builder;
pub mod cli;
pub mod config;
pub mod dataset;
pub mod extractor;
pub mod function;
pub mod language;
pub mod parser;
pub mod pipeline;
pub mod progress;
pub mod remote;
pub mod repo;
pub mod storage;
pub mod syntax;
pub mod text;

verus! {
} // verus!
