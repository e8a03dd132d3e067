//! Options shared by dataset commands.
use vstd::prelude::*;

use crate::language::{all_languages, SourceLanguage};

verus! {

/// The languages to extract.
#[derive(Debug, Clone)]
pub struct DatasetOpts {
    pub languages: Vec<SourceLanguage>,
}

impl Default for DatasetOpts {
    fn default() -> (r: DatasetOpts)
        ensures
            r.languages@ == all_languages(),
    {
        DatasetOpts { languages: SourceLanguage::iter() }
    }
}

} // verus!
