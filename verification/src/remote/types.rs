//! Stages and events of a build that also records failures.
use vstd::prelude::*;

verus! {

/// A stage of the build; `Error` holds why the build failed.
#[derive(Debug)]
pub enum Stage {
    Pulling,
    SetupContainer,
    ExtractSourceCode,
    BuildCode,
    DecompileBinaries,
    MapCode,
    CreateDataset,
    Complete,
    Error(String),
}

/// What a finished step reports; `CriticalFailure` holds what went wrong.
#[derive(Debug)]
pub enum Event {
    PulledRepo,
    ContainerSetup,
    SourceCodeExtracted,
    CodeBuilt,
    BinariesDecompiled,
    CodeMapped,
    DatasetCreated,
    CriticalFailure(String),
}

/// An event arrived that the stage does not expect; both are kept.
#[derive(Debug)]
pub enum PipelineError {
    InvalidTransition { stage: Stage, event: Event },
}

/// Whether a stage expects an event, and the stage it then leads to.
pub open spec fn spec_expected(s: Stage, e: Event) -> Option<Stage> {
    match (s, e) {
        (Stage::Pulling, Event::PulledRepo) => Some(Stage::SetupContainer),
        (Stage::SetupContainer, Event::ContainerSetup) => Some(Stage::ExtractSourceCode),
        (Stage::ExtractSourceCode, Event::SourceCodeExtracted) => Some(Stage::BuildCode),
        (Stage::BuildCode, Event::CodeBuilt) => Some(Stage::DecompileBinaries),
        (Stage::DecompileBinaries, Event::BinariesDecompiled) => Some(Stage::MapCode),
        (Stage::MapCode, Event::CodeMapped) => Some(Stage::CreateDataset),
        (Stage::CreateDataset, Event::DatasetCreated) => Some(Stage::Complete),
        _ => None,
    }
}

impl Stage {
    /// The stage the event leads to; an event the stage does not expect (a failure among
    /// them) is an invalid transition that keeps both.
    pub fn transition(self, event: Event) -> (r: Result<Self, PipelineError>)
        ensures
            match spec_expected(self, event) {
                Some(next) => r matches Ok(s) && s == next,
                None => r matches Err(PipelineError::InvalidTransition { stage, event: ev })
                    && stage == self && ev == event,
            },
    {
        match (self, event) {
            (Self::Pulling, Event::PulledRepo) => Ok(Self::SetupContainer),
            (Self::SetupContainer, Event::ContainerSetup) => Ok(Self::ExtractSourceCode),
            (Self::ExtractSourceCode, Event::SourceCodeExtracted) => Ok(Self::BuildCode),
            (Self::BuildCode, Event::CodeBuilt) => Ok(Self::DecompileBinaries),
            (Self::DecompileBinaries, Event::BinariesDecompiled) => Ok(Self::MapCode),
            (Self::MapCode, Event::CodeMapped) => Ok(Self::CreateDataset),
            (Self::CreateDataset, Event::DatasetCreated) => Ok(Self::Complete),
            (stage, event) => Err(PipelineError::InvalidTransition { stage, event }),
        }
    }
}

/// Whether the build works on source code alone or also builds binaries with the given
/// scripts and decompilers.
#[derive(Debug, Clone)]
pub enum Mode {
    SourceOnly,
    SourceAndBinary { build_scripts: Vec<String>, strip: bool, decompilers: Vec<String> },
}

impl Default for Mode {
    fn default() -> (r: Mode)
        ensures
            r is SourceOnly,
    {
        Mode::SourceOnly
    }
}

/// What to build a dataset from, and how.
#[derive(Debug, Clone)]
pub struct Options {
    pub repo_url: String,
    pub mode: Mode,
}

impl Default for Options {
    fn default() -> (r: Options)
        ensures
            r.repo_url@ == Seq::<char>::empty(),
            r.mode is SourceOnly,
    {
        Options { repo_url: String::new(), mode: Mode::default() }
    }
}

/// The position of a stage in a build: pulling first, complete last; a failed build has
/// none.
pub open spec fn stage_position(s: Stage) -> Option<nat> {
    match s {
        Stage::Pulling => Some(0),
        Stage::SetupContainer => Some(1),
        Stage::ExtractSourceCode => Some(2),
        Stage::BuildCode => Some(3),
        Stage::DecompileBinaries => Some(4),
        Stage::MapCode => Some(5),
        Stage::CreateDataset => Some(6),
        Stage::Complete => Some(7),
        Stage::Error(_) => None,
    }
}

/// The events a full build reports, in the order its steps finish.
pub open spec fn full_build_events() -> Seq<Event> {
    seq![
        Event::PulledRepo,
        Event::ContainerSetup,
        Event::SourceCodeExtracted,
        Event::CodeBuilt,
        Event::BinariesDecompiled,
        Event::CodeMapped,
        Event::DatasetCreated,
    ]
}

/// The stages passed through when `events` arrive one after another from `s`: `s` first;
/// `None` once an event is not expected.
pub open spec fn replay(s: Stage, events: Seq<Event>) -> Option<Seq<Stage>>
    decreases events.len(),
{
    if events.len() == 0 {
        Some(seq![s])
    } else {
        match spec_expected(s, events[0]) {
            Some(next) => match replay(next, events.drop_first()) {
                Some(rest) => Some(seq![s] + rest),
                None => None,
            },
            None => None,
        }
    }
}

/// Law: stages advance one at a time. Whatever stage and event, an expected event leads from
/// a stage to the one right after it, never back, never past one; and the complete stage and
/// a failed one expect nothing.
pub proof fn lemma_one_stage_at_a_time(s: Stage, e: Event)
    ensures
        spec_expected(s, e) matches Some(next) ==> stage_position(s) matches Some(p)
            && stage_position(next) == Some((p + 1) as nat),
        s is Complete ==> spec_expected(s, e) is None,
        s is Error ==> spec_expected(s, e) is None,
{
}

/// Law: the `k`-th event of a full build is what the `k`-th stage waits for: replayed from
/// pulling, the events of a full build pass through every stage in order, each exactly once,
/// and end complete.
pub proof fn lemma_full_build_replays(k: int)
    requires
        0 <= k < 7,
    ensures
        replay(Stage::Pulling, full_build_events()) matches Some(stages) && stages.len() == 8
            && stages[7] == Stage::Complete && stage_position(stages[k]) == Some(k as nat)
            && spec_expected(stages[k], full_build_events()[k]) == Some(stages[k + 1]),
{
    let evs = full_build_events();
    reveal_with_fuel(replay, 9);
    assert(evs.drop_first() =~= seq![
        Event::ContainerSetup,
        Event::SourceCodeExtracted,
        Event::CodeBuilt,
        Event::BinariesDecompiled,
        Event::CodeMapped,
        Event::DatasetCreated,
    ]);
    let e1 = evs.drop_first();
    assert(e1.drop_first() =~= seq![
        Event::SourceCodeExtracted,
        Event::CodeBuilt,
        Event::BinariesDecompiled,
        Event::CodeMapped,
        Event::DatasetCreated,
    ]);
    let e2 = e1.drop_first();
    assert(e2.drop_first() =~= seq![
        Event::CodeBuilt,
        Event::BinariesDecompiled,
        Event::CodeMapped,
        Event::DatasetCreated,
    ]);
    let e3 = e2.drop_first();
    assert(e3.drop_first() =~= seq![Event::BinariesDecompiled, Event::CodeMapped, Event::DatasetCreated]);
    let e4 = e3.drop_first();
    assert(e4.drop_first() =~= seq![Event::CodeMapped, Event::DatasetCreated]);
    let e5 = e4.drop_first();
    assert(e5.drop_first() =~= seq![Event::DatasetCreated]);
    let e6 = e5.drop_first();
    assert(e6.drop_first() =~= Seq::<Event>::empty());
    let expected = seq![
        Stage::Pulling,
        Stage::SetupContainer,
        Stage::ExtractSourceCode,
        Stage::BuildCode,
        Stage::DecompileBinaries,
        Stage::MapCode,
        Stage::CreateDataset,
        Stage::Complete,
    ];
    assert(replay(Stage::Complete, e6.drop_first()) == Some(seq![Stage::Complete]));
    assert(replay(Stage::CreateDataset, e6) == Some(expected.subrange(6, 8)));
    assert(replay(Stage::MapCode, e5) == Some(expected.subrange(5, 8)));
    assert(replay(Stage::DecompileBinaries, e4) == Some(expected.subrange(4, 8)));
    assert(replay(Stage::BuildCode, e3) == Some(expected.subrange(3, 8)));
    assert(replay(Stage::ExtractSourceCode, e2) == Some(expected.subrange(2, 8)));
    assert(replay(Stage::SetupContainer, e1) == Some(expected.subrange(1, 8)));
    assert(replay(Stage::Pulling, evs) == Some(expected));
}

/// Law: a critical failure is never an expected event, whatever the stage.
pub proof fn lemma_failure_never_expected(s: Stage, why: String)
    ensures
        spec_expected(s, Event::CriticalFailure(why)) is None,
{
}

} // verus!
