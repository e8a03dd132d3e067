//! The stages of building a dataset from a remote repository, and the events that move a
//! build from one stage to the next.
use vstd::prelude::*;

use crate::remote::Error;

verus! {

/// A stage of the build.
#[derive(Debug, Clone, Copy, PartialEq, Eq, Structural)]
pub enum Stage {
    Pulling,
    SetupContainer,
    ExtractSourceCode,
    BuildCode,
    DecompileBinaries,
    MapCode,
    CreateDataset,
    Complete,
}

/// What a finished step reports.
#[derive(Debug, Clone, Copy, PartialEq, Eq, Structural)]
pub enum Event {
    RepoPulled,
    ContainerSetup,
    SourceCodeExtracted,
    CodeBuilt,
    BinariesDecompiled,
    CodeMapped,
    DatasetCreated,
}

/// The stage an event leads to from a stage, if the stage expects it: each stage but the
/// last expects the one event that reports its own work done.
pub open spec fn spec_next_stage(s: Stage, e: Event) -> Option<Stage> {
    match (s, e) {
        (Stage::Pulling, Event::RepoPulled) => Some(Stage::SetupContainer),
        (Stage::SetupContainer, Event::ContainerSetup) => Some(Stage::ExtractSourceCode),
        (Stage::ExtractSourceCode, Event::SourceCodeExtracted) => Some(Stage::BuildCode),
        (Stage::BuildCode, Event::CodeBuilt) => Some(Stage::DecompileBinaries),
        (Stage::DecompileBinaries, Event::BinariesDecompiled) => Some(Stage::MapCode),
        (Stage::MapCode, Event::CodeMapped) => Some(Stage::CreateDataset),
        (Stage::CreateDataset, Event::DatasetCreated) => Some(Stage::Complete),
        _ => None,
    }
}

/// The variant name of a stage.
pub open spec fn spec_stage_name(s: Stage) -> Seq<char> {
    match s {
        Stage::Pulling => "Pulling"@,
        Stage::SetupContainer => "SetupContainer"@,
        Stage::ExtractSourceCode => "ExtractSourceCode"@,
        Stage::BuildCode => "BuildCode"@,
        Stage::DecompileBinaries => "DecompileBinaries"@,
        Stage::MapCode => "MapCode"@,
        Stage::CreateDataset => "CreateDataset"@,
        Stage::Complete => "Complete"@,
    }
}

/// The variant name of an event.
pub open spec fn spec_event_name(e: Event) -> Seq<char> {
    match e {
        Event::RepoPulled => "RepoPulled"@,
        Event::ContainerSetup => "ContainerSetup"@,
        Event::SourceCodeExtracted => "SourceCodeExtracted"@,
        Event::CodeBuilt => "CodeBuilt"@,
        Event::BinariesDecompiled => "BinariesDecompiled"@,
        Event::CodeMapped => "CodeMapped"@,
        Event::DatasetCreated => "DatasetCreated"@,
    }
}

/// The number of stages.
pub const STAGE_COUNT: usize = 8;

impl Stage {
    /// The first stage: pulling the repository.
    pub fn start() -> (r: Stage)
        ensures
            r == Stage::Pulling,
    {
        Stage::Pulling
    }

    /// The stage the event leads to; an event the stage does not expect is an invalid
    /// transition, naming both.
    pub fn transition(self, event: Event) -> (r: Result<Stage, Error>)
        ensures
            match spec_next_stage(self, event) {
                Some(next) => r == Ok::<Stage, Error>(next),
                None => r matches Err(Error::InvalidTransition { stage, event: ev }) && stage@
                    == spec_stage_name(self) && ev@ == spec_event_name(event),
            },
    {
        match (self, event) {
            (Stage::Pulling, Event::RepoPulled) => Ok(Stage::SetupContainer),
            (Stage::SetupContainer, Event::ContainerSetup) => Ok(Stage::ExtractSourceCode),
            (Stage::ExtractSourceCode, Event::SourceCodeExtracted) => Ok(Stage::BuildCode),
            (Stage::BuildCode, Event::CodeBuilt) => Ok(Stage::DecompileBinaries),
            (Stage::DecompileBinaries, Event::BinariesDecompiled) => Ok(Stage::MapCode),
            (Stage::MapCode, Event::CodeMapped) => Ok(Stage::CreateDataset),
            (Stage::CreateDataset, Event::DatasetCreated) => Ok(Stage::Complete),
            (stage, event) => Err(
                Error::InvalidTransition { stage: stage.to_string(), event: event.to_string() },
            ),
        }
    }

    /// The variant name of the stage.
    pub fn to_string(&self) -> (r: String)
        ensures
            r@ == spec_stage_name(*self),
    {
        let name: &str = match self {
            Stage::Pulling => "Pulling",
            Stage::SetupContainer => "SetupContainer",
            Stage::ExtractSourceCode => "ExtractSourceCode",
            Stage::BuildCode => "BuildCode",
            Stage::DecompileBinaries => "DecompileBinaries",
            Stage::MapCode => "MapCode",
            Stage::CreateDataset => "CreateDataset",
            Stage::Complete => "Complete",
        };
        name.to_owned()
    }
}

impl Default for Stage {
    fn default() -> (r: Stage)
        ensures
            r == Stage::Pulling,
    {
        Stage::start()
    }
}

impl Event {
    /// The variant name of the event.
    pub fn to_string(&self) -> (r: String)
        ensures
            r@ == spec_event_name(*self),
    {
        let name: &str = match self {
            Event::RepoPulled => "RepoPulled",
            Event::ContainerSetup => "ContainerSetup",
            Event::SourceCodeExtracted => "SourceCodeExtracted",
            Event::CodeBuilt => "CodeBuilt",
            Event::BinariesDecompiled => "BinariesDecompiled",
            Event::CodeMapped => "CodeMapped",
            Event::DatasetCreated => "DatasetCreated",
        };
        name.to_owned()
    }
}

/// Whether the build works on source code alone or also builds binaries.
#[derive(Debug)]
pub enum Mode {
    SourceOnly,
    SourceAndBinary { build_commands: Vec<String>, strip: bool, decompilers: Vec<String> },
}

/// What the build is asked to do besides its stages.
#[derive(Debug)]
pub struct Options {
    pub display_progress: bool,
}

impl Default for Options {
    fn default() -> (r: Options)
        ensures
            !r.display_progress,
    {
        Options { display_progress: false }
    }
}

/// What the driver of a build does next.
#[derive(Debug, PartialEq, Eq)]
pub enum Action {
    /// Fetch the repository from the URL.
    Pull(String),
    /// The stage's work is not available; the build cannot go on.
    Unavailable(Stage),
    /// The build is complete.
    Finish,
}

/// A build of a dataset from the repository at a URL.
#[derive(Debug)]
pub struct Manager {
    pub repo_url: String,
    pub mode: Mode,
    pub stage: Stage,
}

impl Manager {
    /// A build of the repository at `repo_url`, at its first stage.
    pub fn new(repo_url: String, mode: Mode) -> (r: Self)
        ensures
            r.repo_url == repo_url,
            r.mode == mode,
            r.stage == Stage::Pulling,
    {
        Manager { repo_url, mode, stage: Stage::default() }
    }

    /// The work of the current stage: pulling the repository while pulling, finishing once
    /// complete; the other stages' work is not available.
    pub fn step(&self) -> (r: Action)
        ensures
            self.stage == Stage::Pulling ==> (r matches Action::Pull(url) && url@
                == self.repo_url@),
            self.stage == Stage::Complete ==> r == Action::Finish,
            self.stage != Stage::Pulling && self.stage != Stage::Complete ==> r
                == Action::Unavailable(self.stage),
    {
        match self.stage {
            Stage::Pulling => Action::Pull(self.repo_url.clone()),
            Stage::Complete => Action::Finish,
            other => Action::Unavailable(other),
        }
    }
}

impl Manager {
    /// Moves the build on by the event its step reported; an event the current stage does
    /// not expect leaves the build where it was and is an invalid transition.
    pub fn advance(&mut self, event: Event) -> (r: Result<(), Error>)
        ensures
            final(self).repo_url == old(self).repo_url,
            final(self).mode == old(self).mode,
            match spec_next_stage(old(self).stage, event) {
                Some(next) => r is Ok && final(self).stage == next,
                None => r matches Err(Error::InvalidTransition { stage, event: ev }) && stage@
                    == spec_stage_name(old(self).stage) && ev@ == spec_event_name(event)
                    && final(self).stage == old(self).stage,
            },
    {
        match self.stage.transition(event) {
            Ok(next) => {
                self.stage = next;
                Ok(())
            },
            Err(e) => Err(e),
        }
    }
}

/// The stage reached by applying `events` in turn from `stage`, if each is expected.
pub open spec fn spec_replay(stage: Stage, events: Seq<Event>) -> Option<Stage>
    decreases events.len(),
{
    if events.len() == 0 {
        Some(stage)
    } else {
        match spec_replay(stage, events.drop_last()) {
            Some(s) => spec_next_stage(s, events.last()),
            None => None,
        }
    }
}

/// Drives a build from its first stage through the events its steps reported: the stage
/// reached, or the first invalid transition.
pub fn run(events: &Vec<Event>) -> (r: Result<Stage, Error>)
    ensures
        match spec_replay(Stage::Pulling, events@) {
            Some(s) => r == Ok::<Stage, Error>(s),
            None => r matches Err(Error::InvalidTransition { .. }),
        },
{
    let mut stage = Stage::start();
    let mut i: usize = 0;
    while i < events.len()
        invariant
            0 <= i <= events@.len(),
            spec_replay(Stage::Pulling, events@.subrange(0, i as int)) == Some(stage),
        decreases events.len() - i,
    {
        assert(events@.subrange(0, i + 1).drop_last() == events@.subrange(0, i as int));
        match stage.transition(events[i]) {
            Ok(next) => {
                stage = next;
            },
            Err(e) => {
                proof {
                    lemma_replay_stuck(Stage::Pulling, events@, i + 1, events@.len() as int);
                    assert(events@.subrange(0, events@.len() as int) == events@);
                }
                return Err(e);
            },
        }
        i = i + 1;
    }
    assert(events@.subrange(0, events@.len() as int) == events@);
    Ok(stage)
}

/// Once a replay fails, replaying more events fails too.
pub proof fn lemma_replay_stuck(stage: Stage, events: Seq<Event>, k: int, j: int)
    requires
        0 <= k <= j <= events.len(),
        spec_replay(stage, events.subrange(0, k)) is None,
    ensures
        spec_replay(stage, events.subrange(0, j)) is None,
    decreases j - k,
{
    if j > k {
        lemma_replay_stuck(stage, events, k, j - 1);
        assert(events.subrange(0, j).drop_last() == events.subrange(0, j - 1));
    }
}

/// The events a successful build reports, in order.
pub open spec fn full_build() -> Seq<Event> {
    seq![
        Event::RepoPulled,
        Event::ContainerSetup,
        Event::SourceCodeExtracted,
        Event::CodeBuilt,
        Event::BinariesDecompiled,
        Event::CodeMapped,
        Event::DatasetCreated,
    ]
}

/// Law: the events of a successful build, in order, take a build from its first stage
/// to completion.
pub proof fn lemma_full_build_completes()
    ensures
        spec_replay(Stage::Pulling, full_build()) == Some(Stage::Complete),
{
    let e = full_build();
    assert(e.drop_last().drop_last().drop_last().drop_last().drop_last().drop_last().drop_last()
        =~= Seq::<Event>::empty());
    reveal_with_fuel(spec_replay, 8);
}

/// Law: a completed build accepts no further event.
pub proof fn lemma_complete_is_final(e: Event)
    ensures
        spec_next_stage(Stage::Complete, e) is None,
{
}

/// Law: from any stage, at most one event is expected, and it leads to a stage other than
/// the first.
pub proof fn lemma_transitions_deterministic(s: Stage, e1: Event, e2: Event)
    requires
        spec_next_stage(s, e1) is Some,
        spec_next_stage(s, e2) is Some,
    ensures
        e1 == e2,
        spec_next_stage(s, e1) != Some(Stage::Pulling),
{
}

} // verus!
