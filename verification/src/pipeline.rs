//! The stages of building a dataset from a repository, and the choices made between them.
use vstd::prelude::*;

use crate::language::{file_name, spec_file_name};
use crate::text::push_str;

verus! {

/// Why the pipeline stopped.
#[derive(Debug)]
pub enum Error {
    /// The repository path names no directory entry; the path is given.
    InvalidRepoPath(String),
    /// The repository could not be opened.
    Repository(crate::repo::Error),
    /// Functions could not be extracted.
    Extractor(crate::parser::Error),
}

/// A stage of the pipeline.
#[derive(Debug, Clone, Copy, PartialEq, Eq, Structural)]
pub enum Stage {
    Loading,
    ExtractSourceCode,
    BuildCode,
    DecompileBinaries,
    MapCode,
    CreateDataset,
}

/// Every stage, in the order they run.
pub open spec fn all_stages() -> Seq<Stage> {
    seq![
        Stage::Loading,
        Stage::ExtractSourceCode,
        Stage::BuildCode,
        Stage::DecompileBinaries,
        Stage::MapCode,
        Stage::CreateDataset,
    ]
}

/// Whether a stage only runs when binaries are built.
pub open spec fn spec_is_binary_stage(s: Stage) -> bool {
    match s {
        Stage::Loading | Stage::ExtractSourceCode | Stage::CreateDataset => false,
        _ => true,
    }
}

/// The stages that run for source code alone, in order.
pub open spec fn source_stages() -> Seq<Stage> {
    all_stages().filter(|s: Stage| !spec_is_binary_stage(s))
}

/// Law: for source code alone the pipeline loads the repository, extracts its functions and
/// creates the dataset, in that order.
pub proof fn lemma_source_stages()
    ensures
        source_stages() == seq![Stage::Loading, Stage::ExtractSourceCode, Stage::CreateDataset],
{
    reveal_with_fuel(Seq::<Stage>::filter, 7);
    assert(all_stages().drop_last() =~= seq![
        Stage::Loading,
        Stage::ExtractSourceCode,
        Stage::BuildCode,
        Stage::DecompileBinaries,
        Stage::MapCode,
    ]);
    assert(source_stages() =~= seq![Stage::Loading, Stage::ExtractSourceCode, Stage::CreateDataset]);
}

/// The `snake_case` name of a stage.
pub open spec fn spec_stage_name(s: Stage) -> Seq<char> {
    match s {
        Stage::Loading => "loading"@,
        Stage::ExtractSourceCode => "extract_source_code"@,
        Stage::BuildCode => "build_code"@,
        Stage::DecompileBinaries => "decompile_binaries"@,
        Stage::MapCode => "map_code"@,
        Stage::CreateDataset => "create_dataset"@,
    }
}

impl Default for Stage {
    fn default() -> (r: Stage)
        ensures
            r == Stage::Loading,
    {
        Stage::Loading
    }
}

impl Stage {
    /// Whether the stage only runs when binaries are built.
    pub fn is_binary_stage(&self) -> (r: bool)
        ensures
            r == spec_is_binary_stage(*self),
    {
        match self {
            Stage::Loading | Stage::ExtractSourceCode | Stage::CreateDataset => false,
            Stage::BuildCode | Stage::DecompileBinaries | Stage::MapCode => true,
        }
    }

    /// Every stage, in the order they run.
    pub fn iter() -> (r: Vec<Stage>)
        ensures
            r@ == all_stages(),
    {
        let r = vec![
            Stage::Loading,
            Stage::ExtractSourceCode,
            Stage::BuildCode,
            Stage::DecompileBinaries,
            Stage::MapCode,
            Stage::CreateDataset,
        ];
        assert(r@ =~= all_stages());
        r
    }

    /// The stages that run for source code alone, in order.
    pub fn iter_source() -> (r: Vec<Stage>)
        ensures
            r@ == source_stages(),
    {
        let all = Stage::iter();
        let mut r: Vec<Stage> = Vec::new();
        let mut i: usize = 0;
        while i < all.len()
            invariant
                0 <= i <= all@.len(),
                all@ == all_stages(),
                r@ == all_stages().subrange(0, i as int).filter(
                    |s: Stage| !spec_is_binary_stage(s),
                ),
            decreases all.len() - i,
        {
            proof {
                reveal_with_fuel(Seq::<Stage>::filter, 1);
                assert(all_stages().subrange(0, i + 1).drop_last() == all_stages().subrange(
                    0,
                    i as int,
                ));
            }
            if !all[i].is_binary_stage() {
                r.push(all[i]);
            }
            i = i + 1;
        }
        assert(all_stages().subrange(0, 6) == all_stages());
        r
    }

    /// The `snake_case` name of the stage.
    pub fn to_string(&self) -> (r: String)
        ensures
            r@ == spec_stage_name(*self),
    {
        let name: &str = match self {
            Stage::Loading => "loading",
            Stage::ExtractSourceCode => "extract_source_code",
            Stage::BuildCode => "build_code",
            Stage::DecompileBinaries => "decompile_binaries",
            Stage::MapCode => "map_code",
            Stage::CreateDataset => "create_dataset",
        };
        name.to_owned()
    }
}

/// How binaries of the repository are built and decompiled.
#[derive(Debug, Clone)]
pub struct BinaryMode {
    pub build_commands: Vec<String>,
    pub binaries: Vec<String>,
    pub strip: bool,
    /// The decompilers to run, each named once.
    pub decompilers: Vec<String>,
}

/// A binary mode as plain values.
pub struct BinaryModeView {
    pub build_commands: Seq<Seq<char>>,
    pub binaries: Seq<Seq<char>>,
    pub strip: bool,
    pub decompilers: Seq<Seq<char>>,
}

impl View for BinaryMode {
    type V = BinaryModeView;

    open spec fn view(&self) -> BinaryModeView {
        BinaryModeView {
            build_commands: self.build_commands@.map_values(|s: String| s@),
            binaries: self.binaries@.map_values(|s: String| s@),
            strip: self.strip,
            decompilers: self.decompilers@.map_values(|s: String| s@),
        }
    }
}

impl BinaryMode {
    /// No decompiler is named twice.
    pub open spec fn well_formed(&self) -> bool {
        self@.decompilers.no_duplicates()
    }
}

/// A copy of a list of strings.
pub fn copy_strings(v: &Vec<String>) -> (r: Vec<String>)
    ensures
        r@.map_values(|s: String| s@) == v@.map_values(|s: String| s@),
{
    let mut r: Vec<String> = Vec::new();
    let mut i: usize = 0;
    while i < v.len()
        invariant
            0 <= i <= v@.len(),
            r@.map_values(|s: String| s@) == v@.subrange(0, i as int).map_values(
                |s: String| s@,
            ),
        decreases v.len() - i,
    {
        let ghost before = r@;
        let c = v[i].clone();
        assert(c@ == v@[i as int]@);
        r.push(c);
        assert(r@.map_values(|s: String| s@) =~= before.map_values(|s: String| s@).push(c@));
        assert(v@.subrange(0, i + 1).map_values(|s: String| s@) =~= v@.subrange(0, i as int).map_values(|s: String| s@).push(v@[i as int]@));
        assert(r@.map_values(|s: String| s@) =~= v@.subrange(0, i + 1).map_values(
            |s: String| s@,
        ));
        i = i + 1;
    }
    assert(v@.subrange(0, v@.len() as int) == v@);
    r
}

impl BinaryMode {
    /// A copy of the mode.
    pub fn duplicate(&self) -> (r: BinaryMode)
        ensures
            r@ == self@,
    {
        BinaryMode {
            build_commands: copy_strings(&self.build_commands),
            binaries: copy_strings(&self.binaries),
            strip: self.strip,
            decompilers: copy_strings(&self.decompilers),
        }
    }
}

/// Whether the pipeline works on source code alone or also builds binaries.
#[derive(Debug, Clone)]
pub enum Mode {
    SourceOnly,
    SourceAndBinary(BinaryMode),
}

impl Mode {
    /// The binary mode; only asked for during a binary stage, which runs only in that mode.
    pub fn as_binary_mode(&self) -> (r: BinaryMode)
        requires
            self is SourceAndBinary,
        ensures
            r@ == self->SourceAndBinary_0@,
    {
        match self {
            Mode::SourceAndBinary(mode) => mode.duplicate(),
            Mode::SourceOnly => {
                proof {
                    assert(false);
                }
                BinaryMode {
                    build_commands: Vec::new(),
                    binaries: Vec::new(),
                    strip: false,
                    decompilers: Vec::new(),
                }
            },
        }
    }
}

/// The stages the pipeline runs in a mode: the source stages alone, or every stage.
pub open spec fn spec_pipeline_stages(mode: Mode) -> Seq<Stage> {
    match mode {
        Mode::SourceOnly => source_stages(),
        Mode::SourceAndBinary(_) => all_stages(),
    }
}

/// The stages the pipeline runs in a mode, in order.
pub fn pipeline_stages(mode: &Mode) -> (r: Vec<Stage>)
    ensures
        r@ == spec_pipeline_stages(*mode),
{
    match mode {
        Mode::SourceOnly => Stage::iter_source(),
        Mode::SourceAndBinary(_) => Stage::iter(),
    }
}

/// The repository's name: the file name its path ends in; a path with none is invalid.
pub fn repo_name(path: &str) -> (r: Result<String, Error>)
    ensures
        match r {
            Ok(n) => spec_file_name(path@) == Some(n@),
            Err(e) => spec_file_name(path@) is None && (e matches Error::InvalidRepoPath(p) && p@
                == path@),
        },
{
    match file_name(path) {
        Some(n) => Ok(n),
        None => Err(Error::InvalidRepoPath(path.to_owned())),
    }
}

/// Whether the pipeline can carry out a stage yet: loading and source extraction.
pub open spec fn spec_stage_implemented(s: Stage) -> bool {
    s == Stage::Loading || s == Stage::ExtractSourceCode
}

/// Whether the pipeline can carry out a stage yet.
pub fn stage_implemented(s: Stage) -> (r: bool)
    ensures
        r == spec_stage_implemented(s),
{
    match s {
        Stage::Loading | Stage::ExtractSourceCode => true,
        _ => false,
    }
}

/// What the pipeline's run is asked to do besides its stages.
#[derive(Debug, Clone)]
pub struct Options {
    pub display_progress: bool,
    pub dry_run: bool,
    pub cache_dir: Option<String>,
    pub save_transformed_repos: bool,
    pub transform_in_place: bool,
    pub state_dir: Option<String>,
    pub save_state: bool,
}

impl Default for Options {
    fn default() -> (r: Options)
        ensures
            r.display_progress,
            !r.dry_run,
            r.cache_dir is None,
            r.state_dir is None,
            !r.save_transformed_repos,
            r.save_state,
            !r.transform_in_place,
    {
        Options {
            display_progress: true,
            dry_run: false,
            cache_dir: None,
            save_transformed_repos: false,
            transform_in_place: false,
            state_dir: None,
            save_state: true,
        }
    }
}

} // verus!
