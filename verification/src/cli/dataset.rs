//! Choices offered when a dataset is created from a repository URL.
use vstd::prelude::*;

verus! {

/// The kind of code forge a repository is hosted on.
#[derive(Debug, Clone, Copy, PartialEq, Eq, Structural)]
pub enum ForgeChoice {
    GitHub,
    GitLab,
    Gitea,
    Other,
}

/// A representation of functions that a dataset holds.
#[derive(Debug, Clone, Copy, PartialEq, Eq, Structural)]
pub enum RepresentationChoice {
    Source,
    Decompiled,
    Assembly,
}

/// The lowercase name of a forge.
pub open spec fn spec_forge_name(f: ForgeChoice) -> Seq<char> {
    match f {
        ForgeChoice::GitHub => "github"@,
        ForgeChoice::GitLab => "gitlab"@,
        ForgeChoice::Gitea => "gitea"@,
        ForgeChoice::Other => "other"@,
    }
}

impl ForgeChoice {
    /// The lowercase name of the forge.
    pub fn to_string(&self) -> (r: String)
        ensures
            r@ == spec_forge_name(*self),
    {
        let name: &str = match self {
            ForgeChoice::GitHub => "github",
            ForgeChoice::GitLab => "gitlab",
            ForgeChoice::Gitea => "gitea",
            ForgeChoice::Other => "other",
        };
        name.to_owned()
    }
}

} // verus!
