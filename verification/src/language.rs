//! The languages whose functions are extracted, their file extensions and names.
use vstd::prelude::*;

use crate::text::{chars_eq, chars_of, push_str};

verus! {

/// The kind of code a function was taken from.
#[derive(Debug, Clone, Copy, PartialEq, Eq, Structural)]
pub enum Language {
    Source(SourceLanguage),
    Assembly(),
    PseudoC,
}

/// A programming language whose source files are read.
#[derive(Debug, Clone, Copy, PartialEq, Eq, Hash, Structural)]
pub enum SourceLanguage {
    C,
    Cpp,
    Python,
    JavaScript,
    TypeScript,
    Go,
    Rust,
    Java,
    CSharp,
}

/// Every source language, in declaration order.
pub open spec fn all_languages() -> Seq<SourceLanguage> {
    seq![
        SourceLanguage::C,
        SourceLanguage::Cpp,
        SourceLanguage::Python,
        SourceLanguage::JavaScript,
        SourceLanguage::TypeScript,
        SourceLanguage::Go,
        SourceLanguage::Rust,
        SourceLanguage::Java,
        SourceLanguage::CSharp,
    ]
}

/// The file extensions (without the dot) that mark a file of the language.
pub open spec fn spec_file_extensions(l: SourceLanguage) -> Seq<Seq<char>> {
    match l {
        SourceLanguage::C => seq!["c"@, "h"@],
        SourceLanguage::Cpp => seq![
            "cpp"@,
            "cxx"@,
            "cc"@,
            "c++"@,
            "hpp"@,
            "hxx"@,
            "hh"@,
            "h++"@,
            "h"@,
        ],
        SourceLanguage::Python => seq!["py"@, "pyw"@],
        SourceLanguage::JavaScript => seq!["js"@, "mjs"@, "cjs"@, "jsx"@],
        SourceLanguage::TypeScript => seq!["ts"@, "tsx"@],
        SourceLanguage::Go => seq!["go"@],
        SourceLanguage::Rust => seq!["rs"@],
        SourceLanguage::Java => seq!["java"@],
        SourceLanguage::CSharp => seq!["cs"@],
    }
}

/// Whether code of the language is compiled before it runs.
pub open spec fn spec_is_compilable(l: SourceLanguage) -> bool {
    match l {
        SourceLanguage::Python | SourceLanguage::JavaScript | SourceLanguage::TypeScript => false,
        _ => true,
    }
}

/// The lowercase name of the language.
pub open spec fn spec_language_name(l: SourceLanguage) -> Seq<char> {
    match l {
        SourceLanguage::C => "c"@,
        SourceLanguage::Cpp => "c++"@,
        SourceLanguage::Python => "python"@,
        SourceLanguage::JavaScript => "javascript"@,
        SourceLanguage::TypeScript => "typescript"@,
        SourceLanguage::Go => "go"@,
        SourceLanguage::Rust => "rust"@,
        SourceLanguage::Java => "java"@,
        SourceLanguage::CSharp => "c#"@,
    }
}

/// The first language, in declaration order from index `i` on, that claims the extension.
pub open spec fn first_language_from(ext: Seq<char>, i: nat) -> Option<SourceLanguage>
    decreases all_languages().len() - i,
{
    if i >= all_languages().len() {
        None
    } else if spec_file_extensions(all_languages()[i as int]).contains(ext) {
        Some(all_languages()[i as int])
    } else {
        first_language_from(ext, i + 1)
    }
}

/// The first language, in declaration order, that claims the extension.
pub open spec fn language_for_extension(ext: Seq<char>) -> Option<SourceLanguage> {
    first_language_from(ext, 0)
}

/// Index of the last occurrence of `c` in `s`, or -1 when there is none.
pub open spec fn last_index_of(s: Seq<char>, c: char) -> int
    decreases s.len(),
{
    if s.len() == 0 {
        -1
    } else if s.last() == c {
        s.len() - 1
    } else {
        last_index_of(s.drop_last(), c)
    }
}

/// `last_index_of` is -1 or a position of `c` inside `s`.
pub proof fn lemma_last_index_bounds(s: Seq<char>, c: char)
    ensures
        -1 <= last_index_of(s, c) < s.len(),
        last_index_of(s, c) >= 0 ==> s[last_index_of(s, c)] == c,
    decreases s.len(),
{
    if s.len() > 0 && s.last() != c {
        lemma_last_index_bounds(s.drop_last(), c);
    }
}

/// The final component of a `/`-separated path: trailing separators and `.` components are
/// skipped, and a path that ends in `..`, or has no component, has no file name.
pub open spec fn spec_file_name(p: Seq<char>) -> Option<Seq<char>>
    decreases p.len(),
{
    let i = last_index_of(p, '/');
    let seg = p.subrange(i + 1, p.len() as int);
    if seg == Seq::<char>::empty() || seg == "."@ {
        if i < 0 {
            None
        } else {
            proof {
                lemma_last_index_bounds(p, '/');
            }
            spec_file_name(p.subrange(0, i))
        }
    } else if seg == ".."@ {
        None
    } else {
        Some(seg)
    }
}

/// The extension of a file name: the part after its final `.`, when that dot is not its
/// first character.
pub open spec fn spec_name_extension(name: Seq<char>) -> Option<Seq<char>> {
    let i = last_index_of(name, '.');
    if i <= 0 {
        None
    } else {
        Some(name.subrange(i + 1, name.len() as int))
    }
}

/// The extension of the file a path names.
pub open spec fn spec_path_extension(p: Seq<char>) -> Option<Seq<char>> {
    match spec_file_name(p) {
        Some(name) => spec_name_extension(name),
        None => None,
    }
}

/// The language of the file a path names, decided by its extension.
pub open spec fn spec_language_from_path(p: Seq<char>) -> Option<SourceLanguage> {
    match spec_path_extension(p) {
        Some(ext) => language_for_extension(ext),
        None => None,
    }
}

/// Position of the last `c` in `v`, if any.
fn find_last(v: &Vec<char>, c: char) -> (r: Option<usize>)
    ensures
        match r {
            Some(k) => k == last_index_of(v@, c) && k < v.len(),
            None => last_index_of(v@, c) == -1,
        },
{
    proof {
        lemma_last_index_bounds(v@, c);
    }
    let mut i: usize = v.len();
    assert(v@.subrange(0, v.len() as int) == v@);
    while i > 0
        invariant
            0 <= i <= v.len(),
            last_index_of(v@, c) == last_index_of(v@.subrange(0, i as int), c),
        decreases i,
    {
        let ghost prefix = v@.subrange(0, i as int);
        assert(prefix.drop_last() == v@.subrange(0, i - 1));
        if v[i - 1] == c {
            return Some(i - 1);
        }
        i = i - 1;
    }
    assert(v@.subrange(0, 0) == Seq::<char>::empty());
    None
}

/// The characters of `v` in `[from, to)`.
fn slice_chars(v: &Vec<char>, from: usize, to: usize) -> (r: Vec<char>)
    requires
        from <= to <= v.len(),
    ensures
        r@ == v@.subrange(from as int, to as int),
{
    let mut r: Vec<char> = Vec::new();
    let mut i = from;
    while i < to
        invariant
            from <= i <= to <= v.len(),
            r@ == v@.subrange(from as int, i as int),
        decreases to - i,
    {
        r.push(v[i]);
        assert(v@.subrange(from as int, i + 1) == v@.subrange(from as int, i as int).push(
            v@[i as int],
        ));
        i = i + 1;
    }
    r
}

/// The file name of the path held in `p`.
fn file_name_chars(p: &Vec<char>) -> (r: Option<Vec<char>>)
    ensures
        match r {
            Some(n) => spec_file_name(p@) == Some(n@),
            None => spec_file_name(p@) is None,
        },
    decreases p.len(),
{
    let found = find_last(p, '/');
    let start: usize = match found {
        Some(k) => k + 1,
        None => 0,
    };
    let seg = slice_chars(p, start, p.len());
    let dot = chars_of(".");
    let dotdot = chars_of("..");
    let ghost i = last_index_of(p@, '/');
    proof {
        reveal_strlit(".");
        reveal_strlit("..");
        assert(seg@ == p@.subrange(i + 1, p@.len() as int));
    }
    if seg.len() == 0 || chars_eq(&seg, &dot) {
        assert(seg@ == Seq::<char>::empty() || seg@ == "."@);
        match found {
            None => {
                assert(spec_file_name(p@) is None);
                None
            },
            Some(k) => {
                let rest = slice_chars(p, 0, k);
                assert(spec_file_name(p@) == spec_file_name(rest@));
                file_name_chars(&rest)
            },
        }
    } else if chars_eq(&seg, &dotdot) {
        assert(seg@ == ".."@);
        assert(seg@ != "."@);
        assert(spec_file_name(p@) is None);
        None
    } else {
        assert(seg@ != Seq::<char>::empty());
        assert(spec_file_name(p@) == Some(seg@));
        Some(seg)
    }
}

/// The file name a path ends in, as `Path::file_name` gives it (see [`spec_file_name`]).
pub fn file_name(path: &str) -> (r: Option<String>)
    ensures
        match r {
            Some(n) => spec_file_name(path@) == Some(n@),
            None => spec_file_name(path@) is None,
        },
{
    let p = chars_of(path);
    match file_name_chars(&p) {
        Some(n) => Some(crate::text::string_from_chars(&n)),
        None => None,
    }
}

/// The extension of the file a path names, as `Path::extension` gives it.
pub fn path_extension(path: &str) -> (r: Option<String>)
    ensures
        match r {
            Some(e) => spec_path_extension(path@) == Some(e@),
            None => spec_path_extension(path@) is None,
        },
{
    let p = chars_of(path);
    match file_name_chars(&p) {
        None => None,
        Some(name) => match find_last(&name, '.') {
            None => None,
            Some(0) => None,
            Some(k) => {
                let ext = slice_chars(&name, k + 1, name.len());
                Some(crate::text::string_from_chars(&ext))
            },
        },
    }
}

/// Views of a list of string slices.
pub open spec fn str_views(v: Seq<&str>) -> Seq<Seq<char>> {
    v.map_values(|x: &str| x@)
}

/// Whether `e` is one of the extensions the language claims, written out.
spec fn is_extension_of(l: SourceLanguage, e: Seq<char>) -> bool {
    match l {
        SourceLanguage::C => e == "c"@ || e == "h"@,
        SourceLanguage::Cpp => e == "cpp"@ || e == "cxx"@ || e == "cc"@ || e == "c++"@ || e == "hpp"@ || e == "hxx"@ || e == "hh"@ || e == "h++"@ || e == "h"@,
        SourceLanguage::Python => e == "py"@ || e == "pyw"@,
        SourceLanguage::JavaScript => e == "js"@ || e == "mjs"@ || e == "cjs"@ || e == "jsx"@,
        SourceLanguage::TypeScript => e == "ts"@ || e == "tsx"@,
        SourceLanguage::Go => e == "go"@,
        SourceLanguage::Rust => e == "rs"@,
        SourceLanguage::Java => e == "java"@,
        SourceLanguage::CSharp => e == "cs"@,
    }
}

/// A language claims exactly the extensions written out for it.
proof fn lemma_claims_exactly(l: SourceLanguage, e: Seq<char>)
    ensures
        spec_file_extensions(l).contains(e) <==> is_extension_of(l, e),
{
    let exts = spec_file_extensions(l);
    if exts.contains(e) {
        let k = choose|k: int| 0 <= k < exts.len() && exts[k] == e;
        assert(exts[k] == e);
    }
    if is_extension_of(l, e) {
        match l {
            SourceLanguage::C => {
                if e == "c"@ {
                    assert(exts[0] == e);
                } else if e == "h"@ {
                    assert(exts[1] == e);
                }
            },
            SourceLanguage::Cpp => {
                if e == "cpp"@ {
                    assert(exts[0] == e);
                } else if e == "cxx"@ {
                    assert(exts[1] == e);
                } else if e == "cc"@ {
                    assert(exts[2] == e);
                } else if e == "c++"@ {
                    assert(exts[3] == e);
                } else if e == "hpp"@ {
                    assert(exts[4] == e);
                } else if e == "hxx"@ {
                    assert(exts[5] == e);
                } else if e == "hh"@ {
                    assert(exts[6] == e);
                } else if e == "h++"@ {
                    assert(exts[7] == e);
                } else if e == "h"@ {
                    assert(exts[8] == e);
                }
            },
            SourceLanguage::Python => {
                if e == "py"@ {
                    assert(exts[0] == e);
                } else if e == "pyw"@ {
                    assert(exts[1] == e);
                }
            },
            SourceLanguage::JavaScript => {
                if e == "js"@ {
                    assert(exts[0] == e);
                } else if e == "mjs"@ {
                    assert(exts[1] == e);
                } else if e == "cjs"@ {
                    assert(exts[2] == e);
                } else if e == "jsx"@ {
                    assert(exts[3] == e);
                }
            },
            SourceLanguage::TypeScript => {
                if e == "ts"@ {
                    assert(exts[0] == e);
                } else if e == "tsx"@ {
                    assert(exts[1] == e);
                }
            },
            SourceLanguage::Go => {
                if e == "go"@ {
                    assert(exts[0] == e);
                }
            },
            SourceLanguage::Rust => {
                if e == "rs"@ {
                    assert(exts[0] == e);
                }
            },
            SourceLanguage::Java => {
                if e == "java"@ {
                    assert(exts[0] == e);
                }
            },
            SourceLanguage::CSharp => {
                if e == "cs"@ {
                    assert(exts[0] == e);
                }
            },
        }
    }
}

/// The length and the first and last characters of each extension.
proof fn lemma_extension_literals()
    ensures
        "c"@.len() == 1 && "c"@[0] == 'c' && "c"@[0] == 'c',
        "h"@.len() == 1 && "h"@[0] == 'h' && "h"@[0] == 'h',
        "cpp"@.len() == 3 && "cpp"@[0] == 'c' && "cpp"@[2] == 'p',
        "cxx"@.len() == 3 && "cxx"@[0] == 'c' && "cxx"@[2] == 'x',
        "cc"@.len() == 2 && "cc"@[0] == 'c' && "cc"@[1] == 'c',
        "c++"@.len() == 3 && "c++"@[0] == 'c' && "c++"@[2] == '+',
        "hpp"@.len() == 3 && "hpp"@[0] == 'h' && "hpp"@[2] == 'p',
        "hxx"@.len() == 3 && "hxx"@[0] == 'h' && "hxx"@[2] == 'x',
        "hh"@.len() == 2 && "hh"@[0] == 'h' && "hh"@[1] == 'h',
        "h++"@.len() == 3 && "h++"@[0] == 'h' && "h++"@[2] == '+',
        "py"@.len() == 2 && "py"@[0] == 'p' && "py"@[1] == 'y',
        "pyw"@.len() == 3 && "pyw"@[0] == 'p' && "pyw"@[2] == 'w',
        "js"@.len() == 2 && "js"@[0] == 'j' && "js"@[1] == 's',
        "mjs"@.len() == 3 && "mjs"@[0] == 'm' && "mjs"@[2] == 's',
        "cjs"@.len() == 3 && "cjs"@[0] == 'c' && "cjs"@[2] == 's',
        "jsx"@.len() == 3 && "jsx"@[0] == 'j' && "jsx"@[2] == 'x',
        "ts"@.len() == 2 && "ts"@[0] == 't' && "ts"@[1] == 's',
        "tsx"@.len() == 3 && "tsx"@[0] == 't' && "tsx"@[2] == 'x',
        "go"@.len() == 2 && "go"@[0] == 'g' && "go"@[1] == 'o',
        "rs"@.len() == 2 && "rs"@[0] == 'r' && "rs"@[1] == 's',
        "java"@.len() == 4 && "java"@[0] == 'j' && "java"@[3] == 'a',
        "cs"@.len() == 2 && "cs"@[0] == 'c' && "cs"@[1] == 's',
{
    reveal_strlit("c");
    reveal_strlit("h");
    reveal_strlit("cpp");
    reveal_strlit("cxx");
    reveal_strlit("cc");
    reveal_strlit("c++");
    reveal_strlit("hpp");
    reveal_strlit("hxx");
    reveal_strlit("hh");
    reveal_strlit("h++");
    reveal_strlit("py");
    reveal_strlit("pyw");
    reveal_strlit("js");
    reveal_strlit("mjs");
    reveal_strlit("cjs");
    reveal_strlit("jsx");
    reveal_strlit("ts");
    reveal_strlit("tsx");
    reveal_strlit("go");
    reveal_strlit("rs");
    reveal_strlit("java");
    reveal_strlit("cs");
}

/// The language each claimed extension leads to.
#[verifier::rlimit(50)]
proof fn lemma_claimed_extensions()
    ensures
        language_for_extension("c"@) == Some(SourceLanguage::C),
        language_for_extension("h"@) == Some(SourceLanguage::C),
        language_for_extension("cpp"@) == Some(SourceLanguage::Cpp),
        language_for_extension("cxx"@) == Some(SourceLanguage::Cpp),
        language_for_extension("cc"@) == Some(SourceLanguage::Cpp),
        language_for_extension("c++"@) == Some(SourceLanguage::Cpp),
        language_for_extension("hpp"@) == Some(SourceLanguage::Cpp),
        language_for_extension("hxx"@) == Some(SourceLanguage::Cpp),
        language_for_extension("hh"@) == Some(SourceLanguage::Cpp),
        language_for_extension("h++"@) == Some(SourceLanguage::Cpp),
        language_for_extension("py"@) == Some(SourceLanguage::Python),
        language_for_extension("pyw"@) == Some(SourceLanguage::Python),
        language_for_extension("js"@) == Some(SourceLanguage::JavaScript),
        language_for_extension("mjs"@) == Some(SourceLanguage::JavaScript),
        language_for_extension("cjs"@) == Some(SourceLanguage::JavaScript),
        language_for_extension("jsx"@) == Some(SourceLanguage::JavaScript),
        language_for_extension("ts"@) == Some(SourceLanguage::TypeScript),
        language_for_extension("tsx"@) == Some(SourceLanguage::TypeScript),
        language_for_extension("go"@) == Some(SourceLanguage::Go),
        language_for_extension("rs"@) == Some(SourceLanguage::Rust),
        language_for_extension("java"@) == Some(SourceLanguage::Java),
        language_for_extension("cs"@) == Some(SourceLanguage::CSharp),
{
    lemma_extension_literals();
    assert forall|l: SourceLanguage, e: Seq<char>|
        #[trigger] spec_file_extensions(l).contains(e) == is_extension_of(l, e) by {
        lemma_claims_exactly(l, e);
    }
    reveal_with_fuel(first_language_from, 10);
}

/// Law: each extension a language claims leads back to that language, save `h`, which C
/// claims before C++ does.
pub proof fn lemma_extension_names_language(l: SourceLanguage, e: Seq<char>)
    requires
        spec_file_extensions(l).contains(e),
        !(l == SourceLanguage::Cpp && e == "h"@),
    ensures
        language_for_extension(e) == Some(l),
{
    lemma_claimed_extensions();
    let exts = spec_file_extensions(l);
    let k = choose|k: int| 0 <= k < exts.len() && exts[k] == e;
    assert(exts[k] == e);
}

impl SourceLanguage {
    /// The file extensions (without the dot) that mark a file of this language.
    pub fn file_extensions(&self) -> (r: &'static [&'static str])
        ensures
            str_views(r@) == spec_file_extensions(*self),
    {
        let r: &'static [&'static str] = match self {
            SourceLanguage::C => &["c", "h"],
            SourceLanguage::Cpp => &["cpp", "cxx", "cc", "c++", "hpp", "hxx", "hh", "h++", "h"],
            SourceLanguage::Python => &["py", "pyw"],
            SourceLanguage::JavaScript => &["js", "mjs", "cjs", "jsx"],
            SourceLanguage::TypeScript => &["ts", "tsx"],
            SourceLanguage::Go => &["go"],
            SourceLanguage::Rust => &["rs"],
            SourceLanguage::Java => &["java"],
            SourceLanguage::CSharp => &["cs"],
        };
        assert(str_views(r@) =~= spec_file_extensions(*self));
        r
    }

    /// Whether code of this language is compiled before it runs.
    pub fn is_compilable(&self) -> (r: bool)
        ensures
            r == spec_is_compilable(*self),
    {
        match self {
            SourceLanguage::C
            | SourceLanguage::Cpp
            | SourceLanguage::Rust
            | SourceLanguage::Go
            | SourceLanguage::Java
            | SourceLanguage::CSharp => true,
            SourceLanguage::Python | SourceLanguage::JavaScript | SourceLanguage::TypeScript => {
                false
            },
        }
    }

    /// Every source language, in declaration order.
    pub fn iter() -> (r: Vec<SourceLanguage>)
        ensures
            r@ == all_languages(),
    {
        let r = vec![
            SourceLanguage::C,
            SourceLanguage::Cpp,
            SourceLanguage::Python,
            SourceLanguage::JavaScript,
            SourceLanguage::TypeScript,
            SourceLanguage::Go,
            SourceLanguage::Rust,
            SourceLanguage::Java,
            SourceLanguage::CSharp,
        ];
        assert(r@ =~= all_languages());
        r
    }

    /// The lowercase name of this language (`c++` and `c#` for C++ and C#).
    pub fn to_string(&self) -> (r: String)
        ensures
            r@ == spec_language_name(*self),
    {
        let name: &str = match self {
            SourceLanguage::C => "c",
            SourceLanguage::Cpp => "c++",
            SourceLanguage::Python => "python",
            SourceLanguage::JavaScript => "javascript",
            SourceLanguage::TypeScript => "typescript",
            SourceLanguage::Go => "go",
            SourceLanguage::Rust => "rust",
            SourceLanguage::Java => "java",
            SourceLanguage::CSharp => "c#",
        };
        name.to_owned()
    }

    /// Whether `ext` is one of this language's file extensions.
    pub fn has_extension(&self, ext: &str) -> (r: bool)
        ensures
            r == spec_file_extensions(*self).contains(ext@),
    {
        let exts = self.file_extensions();
        let mut i: usize = 0;
        while i < exts.len()
            invariant
                0 <= i <= exts@.len(),
                str_views(exts@) == spec_file_extensions(*self),
                forall|j: int| 0 <= j < i ==> exts@[j]@ != ext@,
            decreases exts.len() - i,
        {
            if crate::text::str_eq(exts[i], ext) {
                assert(str_views(exts@)[i as int] == ext@);
                return true;
            }
            i = i + 1;
        }
        proof {
            if spec_file_extensions(*self).contains(ext@) {
                let k = choose|k: int|
                    0 <= k < spec_file_extensions(*self).len() && spec_file_extensions(
                        *self,
                    )[k] == ext@;
                assert(str_views(exts@)[k] == exts@[k]@);
            }
        }
        false
    }

    /// The language of the file a path names, decided by the path's extension: the first
    /// language, in declaration order, that claims the extension (so `.h` files are C).
    pub fn from_path(path: &str) -> (r: Option<SourceLanguage>)
        ensures
            r == spec_language_from_path(path@),
    {
        let ext = match path_extension(path) {
            Some(e) => e,
            None => {
                return None;
            },
        };
        let langs = SourceLanguage::iter();
        let mut i: usize = 0;
        while i < langs.len()
            invariant
                0 <= i <= langs@.len(),
                langs@ == all_languages(),
                spec_path_extension(path@) == Some(ext@),
                language_for_extension(ext@) == first_language_from(ext@, i as nat),
            decreases langs.len() - i,
        {
            if langs[i].has_extension(ext.as_str()) {
                return Some(langs[i]);
            }
            i = i + 1;
        }
        None
    }
}

impl Language {
    /// The lowercase name of the language: a source language's own name, `assembly`,
    /// or `pseudoc`.
    pub fn to_string(&self) -> (r: String)
        ensures
            r@ == spec_kind_name(*self),
    {
        match self {
            Language::Source(l) => l.to_string(),
            Language::Assembly() => "assembly".to_owned(),
            Language::PseudoC => "pseudoc".to_owned(),
        }
    }
}

/// The lowercase name of a kind of code.
pub open spec fn spec_kind_name(l: Language) -> Seq<char> {
    match l {
        Language::Source(s) => spec_language_name(s),
        Language::Assembly() => "assembly"@,
        Language::PseudoC => "pseudoc"@,
    }
}

} // verus!
