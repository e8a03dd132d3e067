//! Where a fetched repository is unpacked, and which of its files are read.
use vstd::prelude::*;

use crate::language::{all_languages, SourceLanguage};
use crate::repo::source_patterns;
use crate::text::{chars_of, push_char, push_str, string_from_chars};

verus! {

/// A local copy of a repository, and the languages whose files are read from it.
#[derive(Debug)]
pub struct Repo {
    path: String,
    pub target_languages: Vec<SourceLanguage>,
}

/// `s` with every leading occurrence of `prefix` removed, as `str::trim_start_matches` does.
pub open spec fn trim_start_all(s: Seq<char>, prefix: Seq<char>) -> Seq<char>
    decreases s.len(),
{
    if prefix.len() > 0 && prefix.len() <= s.len() && s.subrange(0, prefix.len() as int)
        == prefix {
        trim_start_all(s.subrange(prefix.len() as int, s.len() as int), prefix)
    } else {
        s
    }
}

/// `s` with every `/` replaced by `-`.
pub open spec fn slashes_to_dashes(s: Seq<char>) -> Seq<char> {
    s.map_values(
        |c: char|
            if c == '/' {
                '-'
            } else {
                c
            },
    )
}

/// The directory name for a repository URL: the URL without its leading `https://`s and
/// then `http://`s, with `/` replaced by `-`.
pub open spec fn spec_url_to_dirname(url: Seq<char>) -> Seq<char> {
    slashes_to_dashes(trim_start_all(trim_start_all(url, "https://"@), "http://"@))
}

/// Law: a repository's directory name holds no `/`, so it names a single directory under
/// the root.
pub proof fn lemma_dirname_has_no_slash(url: Seq<char>)
    ensures
        !spec_url_to_dirname(url).contains('/'),
{
    let d = spec_url_to_dirname(url);
    if d.contains('/') {
        let i = choose|i: int| 0 <= i < d.len() && d[i] == '/';
        assert(d[i] == '/');
    }
}

/// `name` placed under the directory `root`, as `Path::join` does for a relative name.
pub open spec fn spec_join_path(root: Seq<char>, name: Seq<char>) -> Seq<char> {
    if root.len() == 0 {
        name
    } else if root.last() == '/' {
        root + name
    } else {
        root + "/"@ + name
    }
}

/// Whether `s` starts with `prefix`.
fn starts_with(s: &Vec<char>, from: usize, prefix: &Vec<char>) -> (r: bool)
    requires
        from <= s@.len(),
    ensures
        r == (prefix@.len() <= s@.len() - from && s@.subrange(
            from as int,
            from + prefix@.len(),
        ) == prefix@),
{
    if prefix.len() > s.len() - from {
        return false;
    }
    let mut i: usize = 0;
    while i < prefix.len()
        invariant
            0 <= i <= prefix@.len(),
            from <= s@.len() <= usize::MAX,
            prefix@.len() <= s@.len() - from,
            forall|j: int| 0 <= j < i ==> s@[from + j] == prefix@[j],
        decreases prefix.len() - i,
    {
        if s[from + i] != prefix[i] {
            assert(s@.subrange(from as int, from + prefix@.len())[i as int] != prefix@[i as int]);
            return false;
        }
        i = i + 1;
    }
    assert(s@.subrange(from as int, from + prefix@.len()) =~= prefix@);
    true
}

/// The position after every leading occurrence of `prefix` in `s[from..]`.
fn skip_all(s: &Vec<char>, from: usize, prefix: &Vec<char>) -> (r: usize)
    requires
        from <= s@.len(),
    ensures
        from <= r <= s@.len(),
        s@.subrange(r as int, s@.len() as int) == trim_start_all(
            s@.subrange(from as int, s@.len() as int),
            prefix@,
        ),
{
    let mut pos = from;
    let total = s.len();
    let mut more = prefix.len() > 0 && starts_with(s, pos, prefix);
    while more
        invariant
            total == s@.len(),
            more == (prefix@.len() > 0 && prefix@.len() <= s@.len() - pos && s@.subrange(
                pos as int,
                pos + prefix@.len(),
            ) == prefix@),
            from <= pos <= s@.len(),
            trim_start_all(s@.subrange(from as int, s@.len() as int), prefix@) == trim_start_all(
                s@.subrange(pos as int, s@.len() as int),
                prefix@,
            ),
        decreases s@.len() - pos,
    {
        let ghost rest = s@.subrange(pos as int, s@.len() as int);
        assert(rest.subrange(0, prefix@.len() as int) == s@.subrange(
            pos as int,
            pos + prefix@.len(),
        ));
        assert(rest.subrange(prefix@.len() as int, rest.len() as int) == s@.subrange(
            pos + prefix@.len(),
            s@.len() as int,
        ));
        pos = pos + prefix.len();
        more = starts_with(s, pos, prefix);
    }
    let ghost rest = s@.subrange(pos as int, s@.len() as int);
    if prefix.len() > 0 && prefix.len() <= s.len() - pos {
        assert(rest.subrange(0, prefix@.len() as int) == s@.subrange(
            pos as int,
            pos + prefix@.len(),
        ));
    }
    pos
}

/// The directory name for a repository URL (see [`spec_url_to_dirname`]).
pub fn url_to_dirname(url: &str) -> (r: String)
    ensures
        r@ == spec_url_to_dirname(url@),
{
    let s = chars_of(url);
    let https = chars_of("https://");
    let http = chars_of("http://");
    let a = skip_all(&s, 0, &https);
    let b = skip_all(&s, a, &http);
    assert(s@.subrange(0, s@.len() as int) == s@);
    let ghost stripped = s@.subrange(b as int, s@.len() as int);
    assert(stripped == trim_start_all(trim_start_all(url@, "https://"@), "http://"@));
    let mut r = String::new();
    let mut i = b;
    while i < s.len()
        invariant
            b <= i <= s@.len(),
            stripped == s@.subrange(b as int, s@.len() as int),
            r@ == slashes_to_dashes(s@.subrange(b as int, i as int)),
        decreases s.len() - i,
    {
        let c = if s[i] == '/' {
            '-'
        } else {
            s[i]
        };
        push_char(&mut r, c);
        assert(slashes_to_dashes(s@.subrange(b as int, i + 1)) =~= slashes_to_dashes(
            s@.subrange(b as int, i as int),
        ).push(c));
        i = i + 1;
    }
    r
}

/// `name` placed under the directory `root` (see [`spec_join_path`]).
pub fn join_path(root: &str, name: &str) -> (r: String)
    ensures
        r@ == spec_join_path(root@, name@),
{
    let rc = chars_of(root);
    let mut r = string_from_chars(&rc);
    if rc.len() == 0 {
        push_str(&mut r, name);
        assert(r@ == name@);
    } else if rc[rc.len() - 1] == '/' {
        push_str(&mut r, name);
    } else {
        push_str(&mut r, "/");
        push_str(&mut r, name);
    }
    r
}

impl Repo {
    /// The repository at `path`, reading every language.
    pub fn new(path: String) -> (r: Self)
        ensures
            r.spec_path() == path@,
            r.spec_languages() == all_languages(),
    {
        Repo { path, target_languages: SourceLanguage::iter() }
    }

    /// The repository's directory, in specifications.
    pub closed spec fn spec_path(&self) -> Seq<char> {
        self.path@
    }

    /// The languages read, in specifications.
    pub closed spec fn spec_languages(&self) -> Seq<SourceLanguage> {
        self.target_languages@
    }

    /// The repository's directory.
    pub fn path(&self) -> (r: &str)
        ensures
            r@ == self.spec_path(),
    {
        self.path.as_str()
    }

    /// The glob patterns that find the repository's source files.
    pub fn source_file_patterns(&self) -> (r: Vec<String>)
        ensures
            r@.map_values(|s: String| s@) == source_patterns(
                self.spec_path(),
                self.spec_languages(),
            ),
    {
        crate::repo::source_file_patterns(self.path.as_str(), &self.target_languages)
    }
}

/// The repository a URL is fetched into: the directory named after the URL (see
/// [`spec_url_to_dirname`]) under `repos_root`, reading every language.
pub fn pull(repo_url: &str, repos_root: &str) -> (r: Repo)
    ensures
        r.spec_path() == spec_join_path(repos_root@, spec_url_to_dirname(repo_url@)),
        r.spec_languages() == all_languages(),
{
    let name = url_to_dirname(repo_url);
    let dir = join_path(repos_root, name.as_str());
    Repo::new(dir)
}

} // verus!
