//! Turning a request for a dataset into a pipeline run: asking for what is missing, choosing
//! the mode, and guarding the output file.
use vstd::prelude::*;

use crate::cli::resolver::{missing_argument_message, missing_message};
use crate::pipeline::{copy_strings, BinaryMode, Mode};
use crate::text::push_str;

verus! {

/// The file format a dataset is written in.
#[derive(Debug, Clone, Copy, PartialEq, Eq, Structural)]
pub enum FormatChoice {
    Csv,
    Parquet,
    Jsonl,
}

/// A representation of functions that a dataset holds.
#[derive(Debug, Clone, Copy, PartialEq, Eq, Structural)]
pub enum RepresentationChoice {
    Source,
    Decompiled,
    Assembly,
}

/// The lowercase name of a format.
pub open spec fn spec_format_name(f: FormatChoice) -> Seq<char> {
    match f {
        FormatChoice::Csv => "csv"@,
        FormatChoice::Parquet => "parquet"@,
        FormatChoice::Jsonl => "jsonl"@,
    }
}

/// The lowercase name of a representation.
pub open spec fn spec_representation_name(r: RepresentationChoice) -> Seq<char> {
    match r {
        RepresentationChoice::Source => "source"@,
        RepresentationChoice::Decompiled => "decompiled"@,
        RepresentationChoice::Assembly => "assembly"@,
    }
}

impl FormatChoice {
    /// The lowercase name of the format.
    pub fn to_string(&self) -> (r: String)
        ensures
            r@ == spec_format_name(*self),
    {
        let name: &str = match self {
            FormatChoice::Csv => "csv",
            FormatChoice::Parquet => "parquet",
            FormatChoice::Jsonl => "jsonl",
        };
        name.to_owned()
    }
}

impl RepresentationChoice {
    /// The lowercase name of the representation.
    pub fn to_string(&self) -> (r: String)
        ensures
            r@ == spec_representation_name(*self),
    {
        let name: &str = match self {
            RepresentationChoice::Source => "source",
            RepresentationChoice::Decompiled => "decompiled",
            RepresentationChoice::Assembly => "assembly",
        };
        name.to_owned()
    }

    /// The representations a dataset holds unless told otherwise: all three.
    pub fn defaults() -> (r: Vec<RepresentationChoice>)
        ensures
            r@ == seq![
                RepresentationChoice::Source,
                RepresentationChoice::Decompiled,
                RepresentationChoice::Assembly,
            ],
    {
        let r = vec![
            RepresentationChoice::Source,
            RepresentationChoice::Decompiled,
            RepresentationChoice::Assembly,
        ];
        assert(r@ =~= seq![
            RepresentationChoice::Source,
            RepresentationChoice::Decompiled,
            RepresentationChoice::Assembly,
        ]);
        r
    }
}

/// What must be known before a dataset can be created, as far as it is known so far.
#[derive(Debug, Clone)]
pub struct Resolution {
    /// The dataset's name.
    pub name: Option<String>,
    /// The repository's path.
    pub repo: Option<String>,
    /// Where the built binaries will be.
    pub binaries: Vec<String>,
    /// The commands that build the repository.
    pub build_commands: Vec<String>,
    /// Whether anything has been asked for yet.
    pub prompted: bool,
    /// Whether the dataset maps source code to compiled code, once decided.
    pub compiled: Option<bool>,
}

/// Something to ask the user.
#[derive(Debug, Clone, Copy, PartialEq, Eq, Structural)]
pub enum Question {
    /// The dataset's name.
    Name,
    /// The repository's path.
    Repo,
    /// Whether the dataset is of compiled code.
    IsCompiled,
    /// The paths of the built binaries.
    Binaries,
    /// The build commands.
    BuildCommands,
}

/// A user's answer.
#[derive(Debug, Clone)]
pub enum Answer {
    Text(String),
    Confirm(bool),
    List(Vec<String>),
}

/// What resolving a request does next.
#[derive(Debug, Clone, PartialEq, Eq)]
pub enum ResolveStep {
    /// Ask the user.
    Ask(Question),
    /// Stop: a required argument is missing; the message names it.
    Fail(String),
    /// Everything needed is known.
    Done,
}

/// A resolution step as plain values.
pub enum StepView {
    Ask(Question),
    Fail(Seq<char>),
    Done,
}

/// The step of a resolution step, as plain values.
pub open spec fn step_view(s: ResolveStep) -> StepView {
    match s {
        ResolveStep::Ask(q) => StepView::Ask(q),
        ResolveStep::Fail(m) => StepView::Fail(m@),
        ResolveStep::Done => StepView::Done,
    }
}

/// A required argument that is missing: asked for when interactive, else a failure.
pub open spec fn ask_or_fail(q: Question, name: Seq<char>, interactive: bool) -> StepView {
    if interactive {
        StepView::Ask(q)
    } else {
        StepView::Fail(missing_message(name))
    }
}

/// Whether the dataset is of compiled code: binaries or build commands were given, or the
/// user said so.
pub open spec fn spec_is_compiled(r: Resolution) -> Option<bool> {
    if r.binaries@.len() > 0 || r.build_commands@.len() > 0 {
        Some(true)
    } else if !r.prompted {
        Some(false)
    } else {
        r.compiled
    }
}

/// The next step of resolving a request: the name, then the repository, then (after a
/// prompt, unless binaries or build commands were given) whether the dataset is of compiled
/// code, then for compiled code the binaries and the build commands. Missing arguments are
/// asked for when interactive, and otherwise fail naming the argument.
pub open spec fn spec_next_step(r: Resolution, interactive: bool) -> StepView {
    if r.name is None {
        ask_or_fail(Question::Name, "NAME"@, interactive)
    } else if r.repo is None {
        ask_or_fail(Question::Repo, "REPO"@, interactive)
    } else if spec_is_compiled(r) is None {
        StepView::Ask(Question::IsCompiled)
    } else if spec_is_compiled(r) == Some(true) && r.binaries@.len() == 0 {
        ask_or_fail(Question::Binaries, "--binaries"@, interactive)
    } else if spec_is_compiled(r) == Some(true) && r.build_commands@.len() == 0 {
        ask_or_fail(Question::BuildCommands, "--build-commands"@, interactive)
    } else {
        StepView::Done
    }
}

impl Resolution {
    /// A request with the given arguments; nothing asked yet.
    pub fn new(
        name: Option<String>,
        repo: Option<String>,
        binaries: Vec<String>,
        build_commands: Vec<String>,
    ) -> (r: Self)
        ensures
            r.name == name,
            r.repo == repo,
            r.binaries == binaries,
            r.build_commands == build_commands,
            !r.prompted,
            r.compiled is None,
    {
        Resolution { name, repo, binaries, build_commands, prompted: false, compiled: None }
    }

    /// Whether the dataset is of compiled code, once known (see [`spec_is_compiled`]).
    pub fn is_compiled(&self) -> (r: Option<bool>)
        ensures
            r == spec_is_compiled(*self),
    {
        if self.binaries.len() > 0 || self.build_commands.len() > 0 {
            Some(true)
        } else if !self.prompted {
            Some(false)
        } else {
            self.compiled
        }
    }

    /// The next step (see [`spec_next_step`]).
    pub fn next_step(&self, interactive: bool) -> (r: ResolveStep)
        ensures
            step_view(r) == spec_next_step(*self, interactive),
    {
        if self.name.is_none() {
            ask_or_fail_step(Question::Name, "NAME", interactive)
        } else if self.repo.is_none() {
            ask_or_fail_step(Question::Repo, "REPO", interactive)
        } else {
            match self.is_compiled() {
                None => ResolveStep::Ask(Question::IsCompiled),
                Some(true) => if self.binaries.len() == 0 {
                    ask_or_fail_step(Question::Binaries, "--binaries", interactive)
                } else if self.build_commands.len() == 0 {
                    ask_or_fail_step(Question::BuildCommands, "--build-commands", interactive)
                } else {
                    ResolveStep::Done
                },
                Some(false) => ResolveStep::Done,
            }
        }
    }

    /// Records the user's answer to a question: a text for the name or the repository, a
    /// confirmation for whether the dataset is compiled, a list for binaries and build
    /// commands. Asking counts as a prompt; an answer of the wrong kind is ignored.
    pub fn answer(&mut self, question: Question, answer: Answer)
        ensures
            final(self).prompted,
            match (question, answer) {
                (Question::Name, Answer::Text(t)) => final(self).name == Some(t) && final(self).repo == old(self).repo,
                (Question::Repo, Answer::Text(t)) => final(self).repo == Some(t) && final(self).name == old(self).name,
                (Question::IsCompiled, Answer::Confirm(b)) => final(self).compiled == Some(b),
                (Question::Binaries, Answer::List(v)) => final(self).binaries == v,
                (Question::BuildCommands, Answer::List(v)) => final(self).build_commands == v,
                _ => true,
            },
            question != Question::Name ==> final(self).name == old(self).name,
            question != Question::Repo ==> final(self).repo == old(self).repo,
            question != Question::Binaries ==> final(self).binaries == old(self).binaries,
            question != Question::BuildCommands ==> final(self).build_commands == old(self).build_commands,
            question != Question::IsCompiled ==> final(self).compiled == old(self).compiled,
    {
        self.prompted = true;
        match (question, answer) {
            (Question::Name, Answer::Text(t)) => {
                self.name = Some(t);
            },
            (Question::Repo, Answer::Text(t)) => {
                self.repo = Some(t);
            },
            (Question::IsCompiled, Answer::Confirm(b)) => {
                self.compiled = Some(b);
            },
            (Question::Binaries, Answer::List(v)) => {
                self.binaries = v;
            },
            (Question::BuildCommands, Answer::List(v)) => {
                self.build_commands = v;
            },
            _ => {},
        }
    }
}

/// A missing argument: asked for when interactive, else a failure naming it.
fn ask_or_fail_step(q: Question, name: &str, interactive: bool) -> (r: ResolveStep)
    ensures
        step_view(r) == ask_or_fail(q, name@, interactive),
{
    if interactive {
        ResolveStep::Ask(q)
    } else {
        ResolveStep::Fail(missing_argument_message(name))
    }
}

/// Law: resolving without a terminal never asks a question about the arguments; it either
/// fails or finishes (only the compiled-code question, which follows a prompt, can remain).
pub proof fn lemma_non_interactive_never_prompts(r: Resolution)
    requires
        !r.prompted,
    ensures
        !(spec_next_step(r, false) is Ask),
{
}

/// Law: a request that names the dataset and the repository and gives both binaries and
/// build commands (or neither) needs nothing more.
pub proof fn lemma_complete_request_is_done(r: Resolution, interactive: bool)
    requires
        r.name is Some,
        r.repo is Some,
        !r.prompted,
        (r.binaries@.len() > 0) == (r.build_commands@.len() > 0),
    ensures
        spec_next_step(r, interactive) is Done,
{
}

/// Views of a list of strings.
pub open spec fn string_views(v: Seq<String>) -> Seq<Seq<char>> {
    v.map_values(|s: String| s@)
}

/// Whether `v` holds the string `s`.
fn holds(v: &Vec<String>, s: &str) -> (r: bool)
    ensures
        r == string_views(v@).contains(s@),
{
    let mut i: usize = 0;
    while i < v.len()
        invariant
            0 <= i <= v@.len(),
            forall|k: int| 0 <= k < i ==> string_views(v@)[k] != s@,
        decreases v.len() - i,
    {
        if crate::text::str_eq(v[i].as_str(), s) {
            assert(string_views(v@)[i as int] == s@);
            return true;
        }
        i = i + 1;
    }
    false
}

/// The names given, each once, in the order they first occur.
fn distinct_names(names: &Vec<String>) -> (r: Vec<String>)
    ensures
        string_views(r@).no_duplicates(),
        string_views(r@).to_set() == string_views(names@).to_set(),
{
    let mut r: Vec<String> = Vec::new();
    let mut i: usize = 0;
    while i < names.len()
        invariant
            0 <= i <= names@.len(),
            string_views(r@).no_duplicates(),
            string_views(r@).to_set() == string_views(names@.subrange(0, i as int)).to_set(),
        decreases names.len() - i,
    {
        let ghost before = string_views(r@);
        let ghost name = names@[i as int]@;
        assert(string_views(names@.subrange(0, i + 1)) =~= string_views(
            names@.subrange(0, i as int),
        ).push(name));
        if !holds(&r, names[i].as_str()) {
            let n = names[i].clone();
            r.push(n);
            assert(string_views(r@) =~= before.push(name));
            assert(string_views(r@).to_set() =~= before.to_set().insert(name)) by {
                before.lemma_push_to_set_commute(name);
            }
            assert(string_views(names@.subrange(0, i + 1)).to_set() =~= string_views(
                names@.subrange(0, i as int),
            ).to_set().insert(name)) by {
                string_views(names@.subrange(0, i as int)).lemma_push_to_set_commute(name);
            }
        } else {
            assert(before.to_set().contains(name));
            assert(string_views(names@.subrange(0, i + 1)).to_set() =~= string_views(
                names@.subrange(0, i as int),
            ).to_set().insert(name)) by {
                string_views(names@.subrange(0, i as int)).lemma_push_to_set_commute(name);
            }
        }
        i = i + 1;
    }
    assert(names@.subrange(0, names@.len() as int) == names@);
    r
}

/// The mode a dataset is built in: source only without binaries; otherwise the binaries and
/// build commands, stripped of their symbols when asked, decompiled with the decompilers
/// named (each once).
pub fn dataset_mode(
    binaries: &Vec<String>,
    build_commands: &Vec<String>,
    strip: bool,
    decompilers: &Vec<String>,
) -> (r: Mode)
    ensures
        binaries@.len() == 0 ==> r is SourceOnly,
        binaries@.len() > 0 ==> (r matches Mode::SourceAndBinary(m) && m@.binaries
            == binaries@.map_values(|s: String| s@) && m@.build_commands
            == build_commands@.map_values(|s: String| s@) && m.strip == strip
            && m@.decompilers.to_set() == decompilers@.map_values(|s: String| s@).to_set()
            && m.well_formed()),
{
    if binaries.len() == 0 {
        Mode::SourceOnly
    } else {
        let decompilers = distinct_names(decompilers);
        Mode::SourceAndBinary(
            BinaryMode {
                binaries: copy_strings(binaries),
                build_commands: copy_strings(build_commands),
                strip,
                decompilers,
            },
        )
    }
}

/// `{output} already exists; pass --force/--overwrite to replace it`.
pub open spec fn exists_message(output: Seq<char>) -> Seq<char> {
    output + " already exists; pass --force/--overwrite to replace it"@
}

/// Whether the dataset may be written to `output`: an existing file is replaced only when
/// forced.
pub fn check_output(output: Option<&str>, exists: bool, force: bool) -> (r: Result<(), String>)
    ensures
        match output {
            Some(o) => if exists && !force {
                r matches Err(m) && m@ == exists_message(o@)
            } else {
                r is Ok
            },
            None => r is Ok,
        },
{
    match output {
        Some(o) => if exists && !force {
            let mut m = o.to_owned();
            push_str(&mut m, " already exists; pass --force/--overwrite to replace it");
            Err(m)
        } else {
            Ok(())
        },
        None => Ok(()),
    }
}

} // verus!
