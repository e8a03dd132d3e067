//! Datasets built from repositories fetched from the network: where they are unpacked, the
//! stages a build goes through, and the functions read from the fetched files.
use vstd::prelude::*;

pub mod extractor;
pub mod pipeline;
pub mod repo;
pub mod types;

verus! {

/// Why building a dataset from a remote repository stopped.
#[derive(Debug)]
pub enum Error {
    /// An event arrived that the current stage does not expect; both are named.
    InvalidTransition { stage: String, event: String },
    /// The repository could not be fetched; the message says why.
    Repo(String),
    /// Reading or writing a file failed; the message says why.
    Io(String),
}

/// A greeting from the library.
pub fn hello() -> (r: String)
    ensures
        r@ == "Hello from codablellm-core!"@,
{
    "Hello from codablellm-core!".to_owned()
}

} // verus!
