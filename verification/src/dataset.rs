//! Datasets of extracted functions, held as polars data frames, and the scripts run over them.
use vstd::prelude::*;

use polars::prelude::{Column, DataFrame, PolarsError, Series};
use polars::prelude::NamedFrom;

use crate::function::Descriptor;

verus! {

#[verifier::external_type_specification]
#[verifier::external_body]
pub struct ExDataFrame(DataFrame);

#[verifier::external_type_specification]
#[verifier::external_body]
pub struct ExPolarsError(PolarsError);

#[verifier::external_type_specification]
#[verifier::external_body]
pub struct ExColumn(Column);

/// Why a dataset could not be made.
#[derive(Debug)]
pub enum Error {
    /// polars refused the columns.
    DatasetCreation(PolarsError),
    /// A script failed.
    ScriptError,
}

/// How a dataset is made.
#[derive(Debug, Clone, Copy)]
pub struct Options {
    pub display_progress: bool,
}

impl Default for Options {
    fn default() -> (r: Options)
        ensures
            !r.display_progress,
    {
        Options { display_progress: false }
    }
}

/// A named column of text values, as plain values.
pub open spec fn column_views(columns: Seq<(String, Vec<String>)>) -> Seq<(Seq<char>, Seq<Seq<char>>)> {
    columns.map_values(|c: (String, Vec<String>)| (c.0@, c.1@.map_values(|s: String| s@)))
}

/// Columns make a frame when no name occurs twice and every column is as long as the first.
pub open spec fn valid_columns(columns: Seq<(Seq<char>, Seq<Seq<char>>)>) -> bool {
    &&& forall|i: int, j: int|
        0 <= i < j < columns.len() ==> #[trigger] columns[i].0 != #[trigger] columns[j].0
    &&& forall|i: int| 0 <= i < columns.len() ==> (#[trigger] columns[i]).1.len() == columns[0].1.len()
}

/// What a data frame of text columns holds: each column's name and values, in order.
pub uninterp spec fn frame_columns(df: DataFrame) -> Seq<(Seq<char>, Seq<Seq<char>>)>;

/// Builds a data frame of text columns with `DataFrame::new_infer_height`, each column made
/// by `Series::new` from its name and values. polars checks only that no column name occurs
/// twice and that every column is as long as the first, so the frame is made exactly when
/// that holds; the frame then holds the given columns, in order.
#[verifier::external_body]
fn frame_of(columns: Vec<(String, Vec<String>)>) -> (r: Result<DataFrame, PolarsError>)
    ensures
        r is Ok <==> valid_columns(column_views(columns@)),
        r matches Ok(df) ==> frame_columns(df) == column_views(columns@),
{
    let columns: Vec<Column> = columns
        .into_iter()
        .map(|(name, values)| Column::from(Series::new(name.into(), values)))
        .collect();
    DataFrame::new_infer_height(columns)
}

/// The names of functions, in order.
pub open spec fn function_names(functions: Seq<Descriptor>) -> Seq<Seq<char>> {
    functions.map_values(|d: Descriptor| d.name@)
}

/// The columns of a source dataset: `name` and `definitions`, the latter repeating the
/// function names.
pub open spec fn spec_source_columns(functions: Seq<Descriptor>) -> Seq<(Seq<char>, Seq<Seq<char>>)> {
    seq![("name"@, function_names(functions)), ("definitions"@, function_names(functions))]
}

/// The names of functions, in order.
fn names_of(functions: &Vec<Descriptor>) -> (r: Vec<String>)
    ensures
        r@.map_values(|s: String| s@) == function_names(functions@),
{
    let mut r: Vec<String> = Vec::new();
    let mut i: usize = 0;
    while i < functions.len()
        invariant
            0 <= i <= functions@.len(),
            r@.map_values(|s: String| s@) == function_names(functions@.subrange(0, i as int)),
        decreases functions.len() - i,
    {
        let ghost before = r@;
        let n = functions[i].name.clone();
        r.push(n);
        assert(r@.map_values(|s: String| s@) =~= before.map_values(|s: String| s@).push(n@));
        assert(function_names(functions@.subrange(0, i + 1)) =~= function_names(
            functions@.subrange(0, i as int),
        ).push(functions@[i as int].name@));
        i = i + 1;
    }
    assert(functions@.subrange(0, functions@.len() as int) == functions@);
    r
}

/// The columns of a source dataset (see [`spec_source_columns`]).
pub fn source_columns(functions: &Vec<Descriptor>) -> (r: Vec<(String, Vec<String>)>)
    ensures
        column_views(r@) == spec_source_columns(functions@),
{
    let names = names_of(functions);
    let definitions = names_of(functions);
    let r = vec![("name".to_owned(), names), ("definitions".to_owned(), definitions)];
    proof {
        reveal_strlit("name");
        reveal_strlit("definitions");
        assert(column_views(r@) =~= spec_source_columns(functions@));
    }
    r
}

/// Anything that holds a data frame.
pub trait Dataset {
    /// The frame held, in specifications.
    spec fn spec_df(&self) -> DataFrame;

    /// The frame.
    fn df(&self) -> (r: &DataFrame)
        ensures
            *r == self.spec_df(),
    ;

    /// The frame, to change: the dataset then holds the frame as changed.
    fn df_mut(&mut self) -> (r: &mut DataFrame)
        ensures
            *r == old(self).spec_df(),
            final(self).spec_df() == *final(r),
    ;
}

/// A dataset of source-code functions.
pub struct SourceDataset {
    df: DataFrame,
}

impl Dataset for SourceDataset {
    closed spec fn spec_df(&self) -> DataFrame {
        self.df
    }

    fn df(&self) -> &DataFrame {
        &self.df
    }

    fn df_mut(&mut self) -> &mut DataFrame {
        &mut self.df
    }
}

impl SourceDataset {
    /// A dataset with one row per function (see [`spec_source_columns`]); its two columns
    /// always make a frame.
    pub fn new(functions: &Vec<Descriptor>) -> (r: Result<Self, Error>)
        ensures
            r matches Ok(d) && frame_columns(d.spec_df()) == spec_source_columns(functions@),
    {
        let columns = source_columns(functions);
        proof {
            reveal_strlit("name");
            reveal_strlit("definitions");
            let cs = column_views(columns@);
            assert(cs[0].0 != cs[1].0) by {
                assert(cs[0].0[0] != cs[1].0[0]);
            }
        }
        match frame_of(columns) {
            Ok(df) => Ok(SourceDataset { df }),
            Err(e) => Err(Error::DatasetCreation(e)),
        }
    }
}

/// A dataset of compiled functions.
pub struct BinaryDataset {
    df: DataFrame,
}

impl Dataset for BinaryDataset {
    closed spec fn spec_df(&self) -> DataFrame {
        self.df
    }

    fn df(&self) -> &DataFrame {
        &self.df
    }

    fn df_mut(&mut self) -> &mut DataFrame {
        &mut self.df
    }
}

/// Either kind of dataset.
pub enum Kind {
    Source(SourceDataset),
    Binary(BinaryDataset),
}

impl Dataset for Kind {
    open spec fn spec_df(&self) -> DataFrame {
        match self {
            Kind::Source(d) => d.spec_df(),
            Kind::Binary(d) => d.spec_df(),
        }
    }

    fn df(&self) -> &DataFrame {
        match self {
            Kind::Source(d) => d.df(),
            Kind::Binary(d) => d.df(),
        }
    }

    fn df_mut(&mut self) -> &mut DataFrame {
        match self {
            Kind::Source(d) => d.df_mut(),
            Kind::Binary(d) => d.df_mut(),
        }
    }
}

/// When a script runs: before or after the dataset is made.
#[derive(Debug, Clone, Copy, PartialEq, Eq, Structural)]
pub enum ScriptHook {
    Pre,
    Post,
}

impl Default for ScriptHook {
    fn default() -> (r: ScriptHook)
        ensures
            r == ScriptHook::Post,
    {
        ScriptHook::Post
    }
}

/// What runs a script.
#[derive(Debug, Clone, Copy, PartialEq, Eq, Structural)]
pub enum ScriptEngine {
    /// Chosen from the script.
    Auto,
    /// The system shell.
    Shell,
}

impl Default for ScriptEngine {
    fn default() -> (r: ScriptEngine)
        ensures
            r == ScriptEngine::Auto,
    {
        ScriptEngine::Auto
    }
}

/// How a script is registered.
#[derive(Debug, Clone)]
pub struct ScriptOptions {
    pub engine: ScriptEngine,
    /// A name to register the script under in place of its path.
    pub rename: Option<String>,
}

impl Default for ScriptOptions {
    fn default() -> (r: ScriptOptions)
        ensures
            r.engine == ScriptEngine::Auto,
            r.rename is None,
    {
        ScriptOptions { engine: ScriptEngine::Auto, rename: None }
    }
}

/// A script registered to run over a dataset.
#[derive(Debug, Clone)]
pub struct Script {
    pub engine: ScriptEngine,
}

impl Script {
    /// The script at `path`, run by the default engine.
    pub fn new(path: &str) -> (r: Result<Self, crate::storage::Error>)
        ensures
            r matches Ok(s) && s.engine == ScriptEngine::Auto,
    {
        Self::new_with_options(path, &ScriptOptions::default())
    }

    /// The script at `path`, run by the engine the options name.
    pub fn new_with_options(path: &str, options: &ScriptOptions) -> (r: Result<
        Self,
        crate::storage::Error,
    >)
        ensures
            r matches Ok(s) && s.engine == options.engine,
    {
        Ok(Script { engine: options.engine })
    }
}

} // verus!
