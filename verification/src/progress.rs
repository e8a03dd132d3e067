//! Where progress is shown, and which kind of progress bar a task gets.
use vstd::prelude::*;

use indicatif::MultiProgress;
use std::sync::Arc;

verus! {

#[verifier::external_type_specification]
#[verifier::external_body]
pub struct ExMultiProgress(MultiProgress);

/// Where progress is shown: nowhere, on a bar of its own, or on a bar among others.
#[derive(Debug, Clone)]
pub enum ProgressDisplay {
    Hidden,
    Standalone,
    Nested(Arc<MultiProgress>),
}

impl Default for ProgressDisplay {
    fn default() -> (r: ProgressDisplay)
        ensures
            r is Standalone,
    {
        ProgressDisplay::Standalone
    }
}

/// The kind of bar a task gets.
#[derive(Debug, Clone, Copy, PartialEq, Eq, Structural)]
pub enum BarKind {
    /// Nothing is drawn.
    Hidden,
    /// A bar that counts up to the given length.
    Sized(u64),
    /// A spinner.
    Spinner,
    /// A bar with no known length.
    NoLength,
}

/// The bar for a task of `len` steps (if known): hidden when progress is hidden; otherwise a
/// bar of that length, else a spinner when one is asked for, else a bar with no length.
pub open spec fn spec_bar_kind(hidden: bool, len: Option<u64>, spinner: bool) -> BarKind {
    if hidden {
        BarKind::Hidden
    } else {
        match len {
            Some(l) => BarKind::Sized(l),
            None => if spinner {
                BarKind::Spinner
            } else {
                BarKind::NoLength
            },
        }
    }
}

impl ProgressDisplay {
    /// The bar for a task of `len` steps (see [`spec_bar_kind`]); a nested display's bar is
    /// drawn among the others of its group.
    pub fn bar_kind(&self, len: Option<u64>, spinner: bool) -> (r: BarKind)
        ensures
            r == spec_bar_kind(*self is Hidden, len, spinner),
    {
        match self {
            ProgressDisplay::Hidden => BarKind::Hidden,
            _ => match len {
                Some(l) => BarKind::Sized(l),
                None => if spinner {
                    BarKind::Spinner
                } else {
                    BarKind::NoLength
                },
            },
        }
    }
}

} // verus!
