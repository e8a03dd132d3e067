//! A local repository of source code and the files in it that are read.
use vstd::prelude::*;

use crate::language::{all_languages, spec_file_extensions, str_views, SourceLanguage};
use crate::text::push_str;

verus! {

/// Why a repository could not be opened.
#[derive(Debug)]
pub enum Error {
    /// The path is not a directory; the message says which path.
    NotADirectory { message: String },
}

/// A directory of source code, and the languages whose files are read from it.
#[derive(Debug)]
pub struct Repository {
    pub path: String,
    pub languages: Vec<SourceLanguage>,
}

/// `{path} is not a directory`.
pub open spec fn not_a_directory_message(path: Seq<char>) -> Seq<char> {
    path + " is not a directory"@
}

/// The glob pattern that finds files with extension `ext` anywhere under `path`.
pub open spec fn glob_pattern(path: Seq<char>, ext: Seq<char>) -> Seq<char> {
    path + "/**/*."@ + ext
}

/// Glob patterns for each extension, in order.
pub open spec fn patterns_for(path: Seq<char>, exts: Seq<Seq<char>>) -> Seq<Seq<char>> {
    exts.map_values(|e: Seq<char>| glob_pattern(path, e))
}

/// Glob patterns for the files of each language, language by language and extension by
/// extension in order.
pub open spec fn source_patterns(path: Seq<char>, languages: Seq<SourceLanguage>) -> Seq<
    Seq<char>,
>
    decreases languages.len(),
{
    if languages.len() == 0 {
        Seq::empty()
    } else {
        source_patterns(path, languages.drop_last()) + patterns_for(
            path,
            spec_file_extensions(languages.last()),
        )
    }
}

impl Repository {
    /// Opens the directory at `path` with every language; `is_dir` is whether the caller
    /// found a directory there.
    pub fn new(path: String, is_dir: bool) -> (r: Result<Self, Error>)
        ensures
            is_dir ==> (r matches Ok(repo) && repo.path@ == path@ && repo.languages@
                == all_languages()),
            !is_dir ==> (r matches Err(Error::NotADirectory { message }) && message@
                == not_a_directory_message(path@)),
    {
        Self::new_with_languages(path, SourceLanguage::iter(), is_dir)
    }

    /// Opens the directory at `path` with the given languages; `is_dir` is whether the
    /// caller found a directory there.
    pub fn new_with_languages(path: String, languages: Vec<SourceLanguage>, is_dir: bool) -> (r:
        Result<Self, Error>)
        ensures
            is_dir ==> (r matches Ok(repo) && repo.path@ == path@ && repo.languages@
                == languages@),
            !is_dir ==> (r matches Err(Error::NotADirectory { message }) && message@
                == not_a_directory_message(path@)),
    {
        if !is_dir {
            let mut message = path;
            push_str(&mut message, " is not a directory");
            return Err(Error::NotADirectory { message });
        }
        Ok(Repository { path, languages })
    }

    /// The glob patterns that find the repository's source files (see [`source_patterns`]).
    pub fn source_file_patterns(&self) -> (r: Vec<String>)
        ensures
            r@.map_values(|s: String| s@) == source_patterns(self.path@, self.languages@),
    {
        source_file_patterns(self.path.as_str(), &self.languages)
    }
}

/// The glob patterns that find the files of `languages` under `path`.
pub fn source_file_patterns(path: &str, languages: &Vec<SourceLanguage>) -> (r: Vec<String>)
    ensures
        r@.map_values(|s: String| s@) == source_patterns(path@, languages@),
{
    let mut r: Vec<String> = Vec::new();
    let mut i: usize = 0;
    while i < languages.len()
        invariant
            0 <= i <= languages@.len(),
            r@.map_values(|s: String| s@) == source_patterns(
                path@,
                languages@.subrange(0, i as int),
            ),
        decreases languages.len() - i,
    {
        assert(languages@.subrange(0, i + 1).drop_last() == languages@.subrange(0, i as int));
        let exts = languages[i].file_extensions();
        let ghost base = r@.map_values(|s: String| s@);
        let mut j: usize = 0;
        while j < exts.len()
            invariant
                0 <= j <= exts@.len(),
                str_views(exts@) == spec_file_extensions(languages@[i as int]),
                r@.map_values(|s: String| s@) == base + patterns_for(
                    path@,
                    str_views(exts@).subrange(0, j as int),
                ),
            decreases exts.len() - j,
        {
            let mut p = path.to_owned();
            push_str(&mut p, "/**/*.");
            push_str(&mut p, exts[j]);
            let ghost before = r@;
            let ghost pv = p@;
            r.push(p);
            assert(r@.map_values(|s: String| s@) =~= before.map_values(|s: String| s@).push(pv));
            assert(patterns_for(path@, str_views(exts@).subrange(0, j + 1)) =~= patterns_for(
                path@,
                str_views(exts@).subrange(0, j as int),
            ).push(glob_pattern(path@, exts@[j as int]@)));
            assert(str_views(exts@).subrange(0, j + 1) == str_views(exts@).subrange(
                0,
                j as int,
            ).push(exts@[j as int]@));
            assert(r@.map_values(|s: String| s@) =~= base + patterns_for(
                path@,
                str_views(exts@).subrange(0, j + 1),
            ));
            j = j + 1;
        }
        assert(str_views(exts@).subrange(0, exts@.len() as int) == str_views(exts@));
        i = i + 1;
    }
    assert(languages@.subrange(0, languages@.len() as int) == languages@);
    r
}

} // verus!
