//! Parsed source code: the text, its language and its tree-sitter syntax tree.
use vstd::prelude::*;

use crate::language::{spec_language_from_path, spec_path_extension, SourceLanguage};
use crate::syntax::{
    edit_tree, grammar_c, grammar_cpp, grammar_csharp, grammar_go, grammar_java,
    grammar_javascript, grammar_python, grammar_rust, grammar_tsx, grammar_typescript,
    new_parser, new_query, parse_text, query_captures, query_compiles, query_matches,
    set_parser_language, BundledGrammar, CompiledQuery, Point, QueryMatch, SyntaxTree, TextEdit,
    TreeState,
};

verus! {

/// Why source code could not be parsed or queried.
#[derive(Debug)]
pub enum Error {
    /// Parsing failed; `path` is the file, when known, and `io_error` the reason it could not
    /// be read, when that was the cause.
    Parse { path: Option<String>, io_error: Option<String> },
    /// Captured text was not valid UTF-8, or lay outside the code.
    Decode,
    /// The file's extension belongs to no supported language.
    UnknownLanguage { file: String },
    /// The query did not compile.
    Query(tree_sitter::QueryError),
    /// The query lacks a capture that function extraction needs.
    MissingCapture { name: String },
}

/// A tree-sitter grammar: one per source language, and TSX besides TypeScript.
#[derive(Debug, Clone, Copy, PartialEq, Eq, Structural)]
pub enum Grammar {
    C,
    Cpp,
    Python,
    JavaScript,
    TypeScript,
    Tsx,
    Go,
    Rust,
    Java,
    CSharp,
}

/// Whether an extension is `tsx`, ignoring ASCII case.
pub open spec fn is_tsx_extension(e: Seq<char>) -> bool {
    &&& e.len() == 3
    &&& (e[0] == 't' || e[0] == 'T')
    &&& (e[1] == 's' || e[1] == 'S')
    &&& (e[2] == 'x' || e[2] == 'X')
}

/// Whether an extension is `h`, ignoring ASCII case.
pub open spec fn is_header_extension(e: Seq<char>) -> bool {
    e.len() == 1 && (e[0] == 'h' || e[0] == 'H')
}

/// The grammar of a language when no file decides otherwise.
pub open spec fn spec_language_grammar(language: SourceLanguage) -> Grammar {
    match language {
        SourceLanguage::C => Grammar::C,
        SourceLanguage::Cpp => Grammar::Cpp,
        SourceLanguage::Python => Grammar::Python,
        SourceLanguage::JavaScript => Grammar::JavaScript,
        SourceLanguage::TypeScript => Grammar::TypeScript,
        SourceLanguage::Go => Grammar::Go,
        SourceLanguage::Rust => Grammar::Rust,
        SourceLanguage::Java => Grammar::Java,
        SourceLanguage::CSharp => Grammar::CSharp,
    }
}

/// The grammar used to parse code of `language` read from `source`: TypeScript from a file
/// with a `tsx` extension (any case) is parsed as TSX.
pub open spec fn spec_grammar_for(language: SourceLanguage, source: Option<Seq<char>>) -> Grammar {
    if language == SourceLanguage::TypeScript && source is Some && spec_path_extension(
        source->0,
    ) is Some && is_tsx_extension(spec_path_extension(source->0)->0) {
        Grammar::Tsx
    } else {
        spec_language_grammar(language)
    }
}

/// The language whose code a grammar parses: each grammar its own language, TSX the
/// TypeScript of `.tsx` files.
pub open spec fn grammar_parses(g: Grammar) -> SourceLanguage {
    match g {
        Grammar::C => SourceLanguage::C,
        Grammar::Cpp => SourceLanguage::Cpp,
        Grammar::Python => SourceLanguage::Python,
        Grammar::JavaScript => SourceLanguage::JavaScript,
        Grammar::TypeScript | Grammar::Tsx => SourceLanguage::TypeScript,
        Grammar::Go => SourceLanguage::Go,
        Grammar::Rust => SourceLanguage::Rust,
        Grammar::Java => SourceLanguage::Java,
        Grammar::CSharp => SourceLanguage::CSharp,
    }
}

/// Law: code of a language is parsed with a grammar of that same language, whatever file it
/// comes from: its own grammar by default, TSX only for TypeScript read from a `.tsx` file;
/// and different languages never share a default grammar.
pub proof fn lemma_grammar_of_own_language(
    language: SourceLanguage,
    other: SourceLanguage,
    source: Option<Seq<char>>,
)
    ensures
        grammar_parses(spec_language_grammar(language)) == language,
        spec_language_grammar(language) != Grammar::Tsx,
        grammar_parses(spec_grammar_for(language, source)) == language,
        spec_grammar_for(language, source) == Grammar::Tsx <==> (language
            == SourceLanguage::TypeScript && source is Some && spec_path_extension(source->0) is Some
            && is_tsx_extension(spec_path_extension(source->0)->0)),
        language != other ==> spec_language_grammar(language) != spec_language_grammar(other),
{
}

/// The language a file is parsed as: the language its extension gives, except that a `.h`
/// file (any case) is C++ rather than C when `headers_as_cpp` is set.
pub open spec fn spec_source_language(path: Seq<char>, headers_as_cpp: bool) -> Option<
    SourceLanguage,
> {
    match spec_language_from_path(path) {
        None => None,
        Some(l) => if headers_as_cpp && l == SourceLanguage::C && spec_path_extension(path) is Some
            && is_header_extension(spec_path_extension(path)->0) {
            Some(SourceLanguage::Cpp)
        } else {
            Some(l)
        },
    }
}

/// Views of an optional string.
pub open spec fn opt_view(o: Option<String>) -> Option<Seq<char>> {
    match o {
        Some(s) => Some(s@),
        None => None,
    }
}

/// Number of bytes equal to `b` in `s`.
pub open spec fn count_byte(s: Seq<u8>, b: u8) -> nat
    decreases s.len(),
{
    if s.len() == 0 {
        0
    } else {
        count_byte(s.drop_last(), b) + if s.last() == b {
            1nat
        } else {
            0nat
        }
    }
}

/// Index of the last byte equal to `b` in `s`, or -1.
pub open spec fn last_byte_index(s: Seq<u8>, b: u8) -> int
    decreases s.len(),
{
    if s.len() == 0 {
        -1
    } else if s.last() == b {
        s.len() - 1
    } else {
        last_byte_index(s.drop_last(), b)
    }
}

/// The row and column of byte `offset`: the newlines before it, and the bytes between the
/// last of them (or the start) and it.
pub open spec fn spec_point_at(bytes: Seq<u8>, offset: int) -> Point {
    let before = bytes.subrange(0, offset);
    Point {
        row: count_byte(before, 10u8) as usize,
        column: (offset - 1 - last_byte_index(before, 10u8)) as usize,
    }
}

/// `p` is the length of the longest common prefix of `a` and `b`.
pub open spec fn is_common_prefix_len(a: Seq<u8>, b: Seq<u8>, p: int) -> bool {
    &&& 0 <= p <= a.len()
    &&& p <= b.len()
    &&& a.subrange(0, p) == b.subrange(0, p)
    &&& (p == a.len() || p == b.len() || a[p] != b[p])
}

/// `s` is the length of the longest common suffix of what follows the first `p` bytes of
/// `a` and of `b`.
pub open spec fn is_common_suffix_len(a: Seq<u8>, b: Seq<u8>, p: int, s: int) -> bool {
    &&& 0 <= s
    &&& s <= a.len() - p
    &&& s <= b.len() - p
    &&& a.subrange(a.len() - s, a.len() as int) == b.subrange(b.len() - s, b.len() as int)
    &&& (s == a.len() - p || s == b.len() - p || a[a.len() - s - 1] != b[b.len() - s - 1])
}

/// The edit that turns `old` into `new`: what lies between their longest common prefix and
/// their longest common suffix (not overlapping the prefix) was replaced.
pub open spec fn is_minimal_edit(old: Seq<u8>, new: Seq<u8>, e: TextEdit) -> bool {
    &&& is_common_prefix_len(old, new, e.start_byte as int)
    &&& is_common_suffix_len(old, new, e.start_byte as int, old.len() - e.old_end_byte)
    &&& new.len() - e.new_end_byte == old.len() - e.old_end_byte
    &&& e.start_position == spec_point_at(old, e.start_byte as int)
    &&& e.old_end_position == spec_point_at(old, e.old_end_byte as int)
    &&& e.new_end_position == spec_point_at(new, e.new_end_byte as int)
}

/// `s` with bytes `[start, end)` replaced by `with`.
pub open spec fn splice(s: Seq<u8>, start: int, end: int, with: Seq<u8>) -> Seq<u8> {
    s.subrange(0, start) + with + s.subrange(end, s.len() as int)
}

/// The row and column of byte `offset` of `bytes`.
pub fn point_at(bytes: &[u8], offset: usize) -> (p: Point)
    requires
        offset <= bytes@.len(),
    ensures
        p == spec_point_at(bytes@, offset as int),
{
    let mut row: usize = 0;
    let mut column: usize = 0;
    let mut i: usize = 0;
    while i < offset
        invariant
            0 <= i <= offset <= bytes@.len(),
            row == count_byte(bytes@.subrange(0, i as int), 10u8),
            column == i - 1 - last_byte_index(bytes@.subrange(0, i as int), 10u8),
            row <= i,
            column <= i,
        decreases offset - i,
    {
        proof {
            lemma_last_byte_index_bounds(bytes@.subrange(0, i as int), 10u8);
            assert(bytes@.subrange(0, i + 1).drop_last() == bytes@.subrange(0, i as int));
        }
        if bytes[i] == 10u8 {
            row = row + 1;
            column = 0;
        } else {
            column = column + 1;
        }
        i = i + 1;
    }
    Point { row, column }
}

/// `last_byte_index` is -1 or a position inside the sequence.
pub proof fn lemma_last_byte_index_bounds(s: Seq<u8>, b: u8)
    ensures
        -1 <= last_byte_index(s, b) < s.len(),
    decreases s.len(),
{
    if s.len() > 0 && s.last() != b {
        lemma_last_byte_index_bounds(s.drop_last(), b);
    }
}

/// The smallest edit that turns `old` into `new` (see [`is_minimal_edit`]).
pub fn compute_edit(old: &[u8], new: &[u8]) -> (e: TextEdit)
    ensures
        is_minimal_edit(old@, new@, e),
        e.start_byte <= e.old_end_byte <= old@.len(),
        e.start_byte <= e.new_end_byte <= new@.len(),
{
    let min_len = if old.len() < new.len() {
        old.len()
    } else {
        new.len()
    };
    let mut p: usize = 0;
    while p < min_len && old[p] == new[p]
        invariant
            0 <= p <= min_len,
            min_len <= old@.len(),
            min_len <= new@.len(),
            min_len == old@.len() || min_len == new@.len(),
            old@.subrange(0, p as int) == new@.subrange(0, p as int),
        decreases min_len - p,
    {
        assert(old@.subrange(0, p + 1) == old@.subrange(0, p as int).push(old@[p as int]));
        assert(new@.subrange(0, p + 1) == new@.subrange(0, p as int).push(new@[p as int]));
        p = p + 1;
    }
    let bound = min_len - p;
    let mut s: usize = 0;
    while s < bound && old[old.len() - 1 - s] == new[new.len() - 1 - s]
        invariant
            0 <= s <= bound,
            bound == min_len - p,
            p <= min_len,
            min_len <= old@.len(),
            min_len <= new@.len(),
            old@.subrange(old@.len() - s, old@.len() as int) == new@.subrange(
                new@.len() - s,
                new@.len() as int,
            ),
        decreases bound - s,
    {
        assert(old@.subrange(old@.len() - (s + 1), old@.len() as int) == seq![
            old@[old@.len() - 1 - s],
        ] + old@.subrange(old@.len() - s, old@.len() as int));
        assert(new@.subrange(new@.len() - (s + 1), new@.len() as int) == seq![
            new@[new@.len() - 1 - s],
        ] + new@.subrange(new@.len() - s, new@.len() as int));
        s = s + 1;
    }
    let start_byte = p;
    let old_end_byte = old.len() - s;
    let new_end_byte = new.len() - s;
    TextEdit {
        start_byte,
        old_end_byte,
        new_end_byte,
        start_position: point_at(old, start_byte),
        old_end_position: point_at(old, old_end_byte),
        new_end_position: point_at(new, new_end_byte),
    }
}

/// Law: the minimal edit reconstructs the new text — splicing the new text's changed bytes
/// into the old text in place of the old text's changed bytes gives the new text.
pub proof fn lemma_minimal_edit_reconstructs(old: Seq<u8>, new: Seq<u8>, e: TextEdit)
    requires
        is_minimal_edit(old, new, e),
        e.old_end_byte <= old.len(),
        e.new_end_byte <= new.len(),
    ensures
        splice(
            old,
            e.start_byte as int,
            e.old_end_byte as int,
            new.subrange(e.start_byte as int, e.new_end_byte as int),
        ) == new,
{
    let p = e.start_byte as int;
    let s = old.len() - e.old_end_byte;
    let r = splice(old, p, e.old_end_byte as int, new.subrange(p, e.new_end_byte as int));
    assert(r.len() == new.len());
    assert forall|i: int| 0 <= i < new.len() implies r[i] == new[i] by {
        if i < p {
            assert(old.subrange(0, p)[i] == new.subrange(0, p)[i]);
        } else if i < e.new_end_byte {
        } else {
            let k = i - e.new_end_byte;
            assert(old.subrange(old.len() - s, old.len() as int)[k] == new.subrange(
                new.len() - s,
                new.len() as int,
            )[k]);
        }
    }
    assert(r =~= new);
}

/// Source code together with its syntax tree.
pub struct ParsedCode {
    tree: SyntaxTree,
    language: SourceLanguage,
    /// The file the code was read from, if any.
    pub source: Option<String>,
}

/// The bundled tree-sitter grammar for a grammar.
fn grammar_language(g: Grammar) -> (r: BundledGrammar)
    ensures
        r.spec_grammar() == g,
{
    match g {
        Grammar::C => grammar_c(),
        Grammar::Cpp => grammar_cpp(),
        Grammar::Python => grammar_python(),
        Grammar::JavaScript => grammar_javascript(),
        Grammar::TypeScript => grammar_typescript(),
        Grammar::Tsx => grammar_tsx(),
        Grammar::Go => grammar_go(),
        Grammar::Rust => grammar_rust(),
        Grammar::Java => grammar_java(),
        Grammar::CSharp => grammar_csharp(),
    }
}

/// The grammar of a language when no file decides otherwise.
pub fn language_grammar(language: SourceLanguage) -> (g: Grammar)
    ensures
        g == spec_language_grammar(language),
{
    match language {
        SourceLanguage::C => Grammar::C,
        SourceLanguage::Cpp => Grammar::Cpp,
        SourceLanguage::Python => Grammar::Python,
        SourceLanguage::JavaScript => Grammar::JavaScript,
        SourceLanguage::TypeScript => Grammar::TypeScript,
        SourceLanguage::Go => Grammar::Go,
        SourceLanguage::Rust => Grammar::Rust,
        SourceLanguage::Java => Grammar::Java,
        SourceLanguage::CSharp => Grammar::CSharp,
    }
}

/// Whether a string is `tsx`, ignoring ASCII case.
fn is_tsx(e: &str) -> (r: bool)
    ensures
        r == is_tsx_extension(e@),
{
    let c = crate::text::chars_of(e);
    c.len() == 3 && (c[0] == 't' || c[0] == 'T') && (c[1] == 's' || c[1] == 'S') && (c[2] == 'x'
        || c[2] == 'X')
}

/// Whether a string is `h`, ignoring ASCII case.
fn is_header(e: &str) -> (r: bool)
    ensures
        r == is_header_extension(e@),
{
    let c = crate::text::chars_of(e);
    c.len() == 1 && (c[0] == 'h' || c[0] == 'H')
}

/// The grammar used to parse code of `language` read from `source` (see [`spec_grammar_for`]).
pub fn grammar_for(language: SourceLanguage, source: &Option<String>) -> (g: Grammar)
    ensures
        g == spec_grammar_for(language, opt_view(*source)),
{
    if language == SourceLanguage::TypeScript {
        if let Some(path) = source {
            if let Some(ext) = crate::language::path_extension(path.as_str()) {
                if is_tsx(ext.as_str()) {
                    return Grammar::Tsx;
                }
            }
        }
    }
    language_grammar(language)
}

/// The language a file is parsed as (see [`spec_source_language`]).
pub fn source_language(path: &str, headers_as_cpp: bool) -> (r: Option<SourceLanguage>)
    ensures
        r == spec_source_language(path@, headers_as_cpp),
{
    let language = match SourceLanguage::from_path(path) {
        Some(l) => l,
        None => {
            return None;
        },
    };
    if headers_as_cpp && language == SourceLanguage::C {
        if let Some(ext) = crate::language::path_extension(path) {
            if is_header(ext.as_str()) {
                return Some(SourceLanguage::Cpp);
            }
        }
    }
    Some(language)
}

/// Parses `code` with the given grammar, reusing `old_tree` (a tree of that grammar edited
/// to match `code`) if given: a fresh parse without one, a reparse with one. tree-sitter
/// parses any text, so no error comes back.
fn parse_with(grammar: Grammar, code: &[u8], old_tree: Option<&SyntaxTree>) -> (r: Result<
    SyntaxTree,
    Error,
>)
    requires
        old_tree matches Some(t) ==> t.spec_code() == code@ && t.spec_grammar() == grammar,
    ensures
        r matches Ok(t) && t.spec_code() == code@ && t.spec_grammar() == grammar && t.spec_state()
            == (if old_tree is Some {
            TreeState::Reparsed
        } else {
            TreeState::Fresh
        }),
{
    let g = grammar_language(grammar);
    let mut parser = match set_parser_language(new_parser(), &g) {
        Ok(p) => p,
        Err(_) => {
            return Err(Error::Parse { path: None, io_error: None });
        },
    };
    match parse_text(&mut parser, code, old_tree) {
        Some(tree) => Ok(tree),
        None => Err(Error::Parse { path: None, io_error: None }),
    }
}

impl ParsedCode {
    /// The code, in specifications.
    pub closed spec fn spec_code(&self) -> Seq<u8> {
        self.tree.spec_code()
    }

    /// The language, in specifications.
    pub closed spec fn spec_language(&self) -> SourceLanguage {
        self.language
    }

    /// The file the code was read from, in specifications.
    pub closed spec fn spec_source(&self) -> Option<String> {
        self.source
    }

    /// The grammar the syntax tree was parsed with, in specifications.
    pub closed spec fn spec_grammar(&self) -> Grammar {
        self.tree.spec_grammar()
    }

    /// Whether the syntax tree was parsed from the code alone.
    pub closed spec fn spec_is_fresh(&self) -> bool {
        self.tree.spec_state() == TreeState::Fresh
    }

    /// Whether the syntax tree is a parse of the code (fresh, or a reparse reusing an
    /// edited tree), not an edited tree awaiting a reparse.
    pub closed spec fn spec_is_parse(&self) -> bool {
        self.tree.spec_state() != TreeState::Edited
    }

    /// Parses `text` as code of `language` read from `source`, with the grammar
    /// [`spec_grammar_for`] gives; the tree is a fresh parse of `text`.
    pub fn new(language: SourceLanguage, text: Vec<u8>, source: Option<String>) -> (r: Result<
        Self,
        Error,
    >)
        ensures
            r matches Ok(c) && c.spec_code() == text@ && c.spec_language() == language
                && c.spec_source() == source && c.spec_grammar() == spec_grammar_for(
                language,
                opt_view(source),
            ) && c.spec_is_fresh() && c.spec_is_parse(),
    {
        let grammar = grammar_for(language, &source);
        let tree = parse_with(grammar, text.as_slice(), None)?;
        Ok(ParsedCode { tree, language, source })
    }

    /// Parses the text of the file at `path`, its language given by the path (see
    /// [`spec_source_language`]); an unrecognised extension is an error.
    pub fn try_from_path_with_options(path: &str, text: Vec<u8>, headers_as_cpp: bool) -> (r:
        Result<Self, Error>)
        ensures
            spec_source_language(path@, headers_as_cpp) is None ==> (r matches Err(
                Error::UnknownLanguage { file },
            ) && file@ == path@),
            spec_source_language(path@, headers_as_cpp) matches Some(l) ==> (r matches Ok(c)
                && c.spec_code() == text@ && c.spec_language() == l && opt_view(c.spec_source())
                == Some(path@) && c.spec_grammar() == spec_grammar_for(l, Some(path@))
                && c.spec_is_fresh() && c.spec_is_parse()),
    {
        let language = match source_language(path, headers_as_cpp) {
            Some(l) => l,
            None => {
                return Err(Error::UnknownLanguage { file: path.to_owned() });
            },
        };
        let source = Some(path.to_owned());
        Self::new(language, text, source)
    }

    /// The language the code is written in.
    pub fn language(&self) -> (r: &SourceLanguage)
        ensures
            *r == self.spec_language(),
    {
        &self.language
    }

    /// The file the code was read from, if any.
    pub fn source(&self) -> (r: &Option<String>)
        ensures
            *r == self.spec_source(),
    {
        &self.source
    }

    /// The code's bytes.
    pub fn code(&self) -> (r: &[u8])
        ensures
            r@ == self.spec_code(),
    {
        self.tree.code()
    }

    /// Compiles the S-expression query for the tree's grammar and runs it over the tree:
    /// the query and the captures of each match, which over a fresh parse are those
    /// [`query_captures`] names; a query that does not compile is an error.
    pub fn query(&self, sexp: &str) -> (r: Result<(CompiledQuery, Vec<QueryMatch>), Error>)
        requires
            self.spec_is_parse(),
        ensures
            r is Ok <==> query_compiles(self.spec_grammar(), sexp@),
            r matches Ok((q, ms)) ==> q.spec_grammar() == self.spec_grammar() && q.spec_sexp()
                == sexp@,
            self.spec_is_fresh() ==> (r matches Ok((q, ms)) ==> ms@.map_values(
                |m: QueryMatch| m.captures@,
            ) == query_captures(self.spec_grammar(), sexp@, self.spec_code())),
            r matches Err(e) ==> e is Query,
    {
        let g = grammar_language(self.tree_grammar());
        let query = match new_query(&g, sexp) {
            Ok(q) => q,
            Err(e) => {
                return Err(Error::Query(e));
            },
        };
        let matches = query_matches(&query, &self.tree);
        Ok((query, matches))
    }

    /// The grammar the syntax tree was parsed with.
    fn tree_grammar(&self) -> (r: Grammar)
        ensures
            r == self.spec_grammar(),
    {
        crate::syntax::tree_grammar(&self.tree)
    }

    /// Replaces the code with `new_code`: the syntax tree is told of the smallest edit that
    /// turns the old code into the new (see [`compute_edit`]) and reparsed with the
    /// language's own grammar, reusing the edited tree when that grammar is the one it was
    /// parsed with (a fresh parse otherwise). The reparse always gives a tree of the new code.
    pub fn edit(&mut self, new_code: Vec<u8>) -> (r: Result<(), Error>)
        ensures
            r is Ok,
            final(self).spec_is_parse(),
            final(self).spec_is_fresh() <==> old(self).spec_grammar() != spec_language_grammar(
                old(self).spec_language(),
            ),
            final(self).spec_code() == new_code@,
            final(self).spec_language() == old(self).spec_language(),
            final(self).spec_source() == old(self).spec_source(),
            final(self).spec_grammar() == spec_language_grammar(old(self).spec_language()),
    {
        let e = compute_edit(self.tree.code(), new_code.as_slice());
        edit_tree(&mut self.tree, &e, new_code.as_slice());
        let grammar = language_grammar(self.language);
        let reuse = if grammar == self.tree_grammar() {
            Some(&self.tree)
        } else {
            None
        };
        match parse_with(grammar, new_code.as_slice(), reuse) {
            Ok(tree) => {
                self.tree = tree;
                Ok(())
            },
            Err(_) => Err(Error::Parse { path: self.source.clone(), io_error: None }),
        }
    }
}

/// Parses `text` as code of `language`, with no file behind it.
pub fn parse(language: SourceLanguage, text: Vec<u8>) -> (r: Result<ParsedCode, Error>)
    ensures
        r matches Ok(c) && c.spec_code() == text@ && c.spec_language() == language
            && c.spec_source() is None && c.spec_grammar() == spec_language_grammar(language)
            && c.spec_is_fresh() && c.spec_is_parse(),
{
    ParsedCode::new(language, text, None)
}

/// Parses the text of the file at `path`, its language given by the extension.
pub fn parse_file(path: &str, text: Vec<u8>) -> (r: Result<ParsedCode, Error>)
    ensures
        spec_language_from_path(path@) is None ==> (r matches Err(Error::UnknownLanguage { file })
            && file@ == path@),
        spec_language_from_path(path@) matches Some(l) ==> (r matches Ok(c) && c.spec_code()
            == text@ && c.spec_language() == l && opt_view(c.spec_source()) == Some(path@)
            && c.spec_grammar() == spec_grammar_for(l, Some(path@)) && c.spec_is_fresh()
            && c.spec_is_parse()),
{
    ParsedCode::try_from_path_with_options(path, text, false)
}

} // verus!
