//! The tree-sitter calls the parser makes, each behind a small function whose contract is taken on trust.
//!
//! Tree-sitter values (parsers, syntax trees, grammars, queries) are held in types of this
//! module together with the plain values they were made from: the grammar, the code a tree
//! is a parse of, the text of a query. Only the functions below make values of these types,
//! so what they state of those plain values holds of every value there is.
use vstd::prelude::*;

use crate::function::Span;
use crate::parser::{is_minimal_edit, Grammar};
use tree_sitter::Language as TsGrammar;
use tree_sitter::StreamingIterator;

verus! {

#[verifier::external_type_specification]
#[verifier::external_body]
pub struct ExTsParser(tree_sitter::Parser);

#[verifier::external_type_specification]
#[verifier::external_body]
pub struct ExTsTree(tree_sitter::Tree);

#[verifier::external_type_specification]
#[verifier::external_body]
pub struct ExTsLanguage(TsGrammar);

#[verifier::external_type_specification]
#[verifier::external_body]
pub struct ExTsLanguageError(tree_sitter::LanguageError);

#[verifier::external_type_specification]
#[verifier::external_body]
pub struct ExTsQuery(tree_sitter::Query);

#[verifier::external_type_specification]
#[verifier::external_body]
pub struct ExTsQueryError(tree_sitter::QueryError);

/// A zero-based row and column in a text, the column counted in bytes.
#[derive(Debug, Clone, Copy, PartialEq, Eq, Structural)]
pub struct Point {
    pub row: usize,
    pub column: usize,
}

/// A change of a text: bytes `[start_byte, old_end_byte)` of the old text became bytes
/// `[start_byte, new_end_byte)` of the new one; the positions are the same offsets as rows
/// and columns.
#[derive(Debug, Clone, Copy, PartialEq, Eq, Structural)]
pub struct TextEdit {
    pub start_byte: usize,
    pub old_end_byte: usize,
    pub new_end_byte: usize,
    pub start_position: Point,
    pub old_end_position: Point,
    pub new_end_position: Point,
}

/// A node captured by a query: the index of its capture name, its bytes and its extent.
#[derive(Debug, Clone, Copy, PartialEq, Eq, Structural)]
pub struct Capture {
    pub index: u32,
    pub bytes: Span,
    pub start: Point,
    pub end: Point,
}

/// The captures of one match of a query, in the order tree-sitter reports them.
#[derive(Debug, Clone)]
pub struct QueryMatch {
    pub captures: Vec<Capture>,
}

/// One of the grammars bundled with the library, tagged with the grammar it is.
pub struct BundledGrammar {
    grammar: Grammar,
    language: TsGrammar,
}

/// A parser that has a bundled grammar assigned.
pub struct ReadyParser {
    parser: tree_sitter::Parser,
    grammar: Grammar,
}

/// How a syntax tree came to be.
#[derive(Debug, Clone, Copy, PartialEq, Eq, Structural)]
pub enum TreeState {
    /// Parsed from its code alone.
    Fresh,
    /// Reparsed from its code, reusing an older tree edited to match it.
    Reparsed,
    /// An older tree whose positions were edited to match its code, not yet reparsed.
    Edited,
}

/// A syntax tree, with the grammar it was parsed with, the code it stands for and how it
/// came to be.
pub struct SyntaxTree {
    tree: tree_sitter::Tree,
    grammar: Grammar,
    code: Vec<u8>,
    state: TreeState,
}

/// A compiled query, with the grammar it was compiled for and its text.
pub struct CompiledQuery {
    query: tree_sitter::Query,
    grammar: Grammar,
    sexp: String,
}

impl BundledGrammar {
    /// Which grammar this is.
    pub closed spec fn spec_grammar(&self) -> Grammar {
        self.grammar
    }
}

impl ReadyParser {
    /// The grammar assigned to the parser.
    pub closed spec fn spec_grammar(&self) -> Grammar {
        self.grammar
    }
}

impl SyntaxTree {
    /// The grammar the tree was parsed with.
    pub closed spec fn spec_grammar(&self) -> Grammar {
        self.grammar
    }

    /// The code the tree stands for: what it was parsed from, or edited to match.
    pub closed spec fn spec_code(&self) -> Seq<u8> {
        self.code@
    }

    /// How the tree came to be.
    pub closed spec fn spec_state(&self) -> TreeState {
        self.state
    }

    /// The code the tree stands for.
    pub fn code(&self) -> (r: &[u8])
        ensures
            r@ == self.spec_code(),
    {
        self.code.as_slice()
    }
}

/// The grammar a syntax tree was parsed with.
pub fn tree_grammar(tree: &SyntaxTree) -> (r: Grammar)
    ensures
        r == tree.spec_grammar(),
{
    tree.grammar
}

/// How a syntax tree came to be.
pub fn tree_state(tree: &SyntaxTree) -> (r: TreeState)
    ensures
        r == tree.spec_state(),
{
    tree.state
}

impl CompiledQuery {
    /// The grammar the query was compiled for.
    pub closed spec fn spec_grammar(&self) -> Grammar {
        self.grammar
    }

    /// The text of the query.
    pub closed spec fn spec_sexp(&self) -> Seq<char> {
        self.sexp@
    }
}

/// Whether tree-sitter compiles the S-expression query `sexp` for the grammar.
pub uninterp spec fn query_compiles(grammar: Grammar, sexp: Seq<char>) -> bool;

/// The index tree-sitter gives the capture `name` in the compiled query `sexp`, if the query
/// has that capture.
pub uninterp spec fn query_capture_index(sexp: Seq<char>, name: Seq<char>) -> Option<u32>;

/// The captures of each match that tree-sitter reports, in order, for the query `sexp` run
/// over the tree that parsing `code` from scratch with the grammar gives.
pub uninterp spec fn query_captures(grammar: Grammar, sexp: Seq<char>, code: Seq<u8>) -> Seq<
    Seq<Capture>,
>;

/// The tree-sitter grammar for C: `tree_sitter_c::LANGUAGE`, converted.
#[verifier::external_body]
pub(crate) fn grammar_c() -> (r: BundledGrammar)
    ensures
        r.spec_grammar() == Grammar::C,
{
    BundledGrammar { grammar: Grammar::C, language: tree_sitter_c::LANGUAGE.into() }
}

/// The tree-sitter grammar for C++: `tree_sitter_cpp::LANGUAGE`, converted.
#[verifier::external_body]
pub(crate) fn grammar_cpp() -> (r: BundledGrammar)
    ensures
        r.spec_grammar() == Grammar::Cpp,
{
    BundledGrammar { grammar: Grammar::Cpp, language: tree_sitter_cpp::LANGUAGE.into() }
}

/// The tree-sitter grammar for Python: `tree_sitter_python::LANGUAGE`, converted.
#[verifier::external_body]
pub(crate) fn grammar_python() -> (r: BundledGrammar)
    ensures
        r.spec_grammar() == Grammar::Python,
{
    BundledGrammar { grammar: Grammar::Python, language: tree_sitter_python::LANGUAGE.into() }
}

/// The tree-sitter grammar for JavaScript: `tree_sitter_javascript::LANGUAGE`, converted.
#[verifier::external_body]
pub(crate) fn grammar_javascript() -> (r: BundledGrammar)
    ensures
        r.spec_grammar() == Grammar::JavaScript,
{
    BundledGrammar { grammar: Grammar::JavaScript, language: tree_sitter_javascript::LANGUAGE.into() }
}

/// The tree-sitter grammar for TypeScript: `tree_sitter_typescript::LANGUAGE_TYPESCRIPT`,
/// converted.
#[verifier::external_body]
pub(crate) fn grammar_typescript() -> (r: BundledGrammar)
    ensures
        r.spec_grammar() == Grammar::TypeScript,
{
    BundledGrammar {
        grammar: Grammar::TypeScript,
        language: tree_sitter_typescript::LANGUAGE_TYPESCRIPT.into(),
    }
}

/// The tree-sitter grammar for TSX: `tree_sitter_typescript::LANGUAGE_TSX`, converted.
#[verifier::external_body]
pub(crate) fn grammar_tsx() -> (r: BundledGrammar)
    ensures
        r.spec_grammar() == Grammar::Tsx,
{
    BundledGrammar { grammar: Grammar::Tsx, language: tree_sitter_typescript::LANGUAGE_TSX.into() }
}

/// The tree-sitter grammar for Go: `tree_sitter_go::LANGUAGE`, converted.
#[verifier::external_body]
pub(crate) fn grammar_go() -> (r: BundledGrammar)
    ensures
        r.spec_grammar() == Grammar::Go,
{
    BundledGrammar { grammar: Grammar::Go, language: tree_sitter_go::LANGUAGE.into() }
}

/// The tree-sitter grammar for Rust: `tree_sitter_rust::LANGUAGE`, converted.
#[verifier::external_body]
pub(crate) fn grammar_rust() -> (r: BundledGrammar)
    ensures
        r.spec_grammar() == Grammar::Rust,
{
    BundledGrammar { grammar: Grammar::Rust, language: tree_sitter_rust::LANGUAGE.into() }
}

/// The tree-sitter grammar for Java: `tree_sitter_java::LANGUAGE`, converted.
#[verifier::external_body]
pub(crate) fn grammar_java() -> (r: BundledGrammar)
    ensures
        r.spec_grammar() == Grammar::Java,
{
    BundledGrammar { grammar: Grammar::Java, language: tree_sitter_java::LANGUAGE.into() }
}

/// The tree-sitter grammar for C#: `tree_sitter_c_sharp::LANGUAGE`, converted.
#[verifier::external_body]
pub(crate) fn grammar_csharp() -> (r: BundledGrammar)
    ensures
        r.spec_grammar() == Grammar::CSharp,
{
    BundledGrammar { grammar: Grammar::CSharp, language: tree_sitter_c_sharp::LANGUAGE.into() }
}

/// A fresh parser with no language: `tree_sitter::Parser::new`.
#[verifier::external_body]
pub(crate) fn new_parser() -> tree_sitter::Parser {
    tree_sitter::Parser::new()
}

/// `tree_sitter::Parser::set_language`: assigns the grammar. It fails only for a grammar
/// whose ABI version lies outside `MIN_COMPATIBLE_LANGUAGE_VERSION..=LANGUAGE_VERSION`
/// (13 to 15); every bundled grammar declares version 14 or 15, so it succeeds.
#[verifier::external_body]
pub(crate) fn set_parser_language(
    parser: tree_sitter::Parser,
    grammar: &BundledGrammar,
) -> (r: Result<ReadyParser, tree_sitter::LanguageError>)
    ensures
        r is Ok,
        r matches Ok(p) ==> p.spec_grammar() == grammar.spec_grammar(),
{
    let mut parser = parser;
    parser.set_language(&grammar.language)?;
    Ok(ReadyParser { parser, grammar: grammar.grammar })
}

/// `tree_sitter::Parser::parse`: the syntax tree of `code`. With no `old_tree` it is a parse
/// of `code` alone; with one, which must be a tree of the same grammar already edited to match
/// `code`, tree-sitter reuses it, and the result is documented only as a tree of `code`.
/// tree-sitter gives no tree only when no language is assigned or a timeout or cancellation
/// flag (never set here) ends the parse, so a tree comes back.
#[verifier::external_body]
pub(crate) fn parse_text(
    parser: &mut ReadyParser,
    code: &[u8],
    old_tree: Option<&SyntaxTree>,
) -> (r: Option<SyntaxTree>)
    requires
        old_tree matches Some(t) ==> t.spec_code() == code@ && t.spec_grammar() == old(
            parser,
        ).spec_grammar(),
    ensures
        final(parser).spec_grammar() == old(parser).spec_grammar(),
        r is Some,
        r matches Some(t) ==> t.spec_code() == code@ && t.spec_grammar() == old(
            parser,
        ).spec_grammar() && t.spec_state() == (if old_tree is Some {
            TreeState::Reparsed
        } else {
            TreeState::Fresh
        }),
{
    let (old, state) = match old_tree {
        Some(t) => (Some(&t.tree), TreeState::Reparsed),
        None => (None, TreeState::Fresh),
    };
    let tree = parser.parser.parse(code, old)?;
    Some(SyntaxTree { tree, grammar: parser.grammar, code: code.to_vec(), state })
}

/// `tree_sitter::Tree::edit`: tells the tree of the change `edit`, which turns its code into
/// `new_code`, so that a reparse of `new_code` can reuse it. It does not reparse: the tree is
/// then an edited one, standing for `new_code` until it is reparsed.
#[verifier::external_body]
pub(crate) fn edit_tree(tree: &mut SyntaxTree, edit: &TextEdit, new_code: &[u8])
    requires
        is_minimal_edit(old(tree).spec_code(), new_code@, *edit),
    ensures
        final(tree).spec_code() == new_code@,
        final(tree).spec_grammar() == old(tree).spec_grammar(),
        final(tree).spec_state() == TreeState::Edited,
{
    let point = |p: Point| tree_sitter::Point { row: p.row, column: p.column };
    tree.tree.edit(
        &tree_sitter::InputEdit {
            start_byte: edit.start_byte,
            old_end_byte: edit.old_end_byte,
            new_end_byte: edit.new_end_byte,
            start_position: point(edit.start_position),
            old_end_position: point(edit.old_end_position),
            new_end_position: point(edit.new_end_position),
        },
    );
    tree.code = new_code.to_vec();
    tree.state = TreeState::Edited;
}

/// `tree_sitter::Query::new`: compiles an S-expression query for a grammar, or reports why
/// it cannot (see [`query_compiles`]).
#[verifier::external_body]
pub(crate) fn new_query(grammar: &BundledGrammar, sexp: &str) -> (r: Result<
    CompiledQuery,
    tree_sitter::QueryError,
>)
    ensures
        r is Ok <==> query_compiles(grammar.spec_grammar(), sexp@),
        r matches Ok(q) ==> q.spec_grammar() == grammar.spec_grammar() && q.spec_sexp() == sexp@,
{
    let query = tree_sitter::Query::new(&grammar.language, sexp)?;
    Ok(CompiledQuery { query, grammar: grammar.grammar, sexp: sexp.to_owned() })
}

/// `tree_sitter::Query::capture_index_for_name`: the index of a capture name of the query
/// (see [`query_capture_index`]).
#[verifier::external_body]
pub(crate) fn capture_index(query: &CompiledQuery, name: &str) -> (r: Option<u32>)
    ensures
        r == query_capture_index(query.spec_sexp(), name@),
{
    query.query.capture_index_for_name(name)
}

/// `tree_sitter::QueryCursor::matches` over the whole tree, which must be a parse (not an
/// edited tree awaiting one), each match's captures copied out as plain values. Over a fresh
/// parse they are the ones [`query_captures`] names; over a reparse nothing is stated.
#[verifier::external_body]
pub(crate) fn query_matches(query: &CompiledQuery, tree: &SyntaxTree) -> (r: Vec<QueryMatch>)
    requires
        query.spec_grammar() == tree.spec_grammar(),
        tree.spec_state() != TreeState::Edited,
    ensures
        tree.spec_state() == TreeState::Fresh ==> r@.map_values(|m: QueryMatch| m.captures@)
            == query_captures(query.spec_grammar(), query.spec_sexp(), tree.spec_code()),
{
    let mut cursor = tree_sitter::QueryCursor::new();
    let mut matches = cursor.matches(&query.query, tree.tree.root_node(), tree.code.as_slice());
    let mut out = Vec::new();
    while let Some(m) = matches.next() {
        let captures = m.captures.iter().map(|c| (c.index, c.node.range())).map(|(index, r)| Capture {
            index,
            bytes: Span { start: r.start_byte, end: r.end_byte },
            start: Point { row: r.start_point.row, column: r.start_point.column },
            end: Point { row: r.end_point.row, column: r.end_point.column },
        });
        out.push(QueryMatch { captures: captures.collect() });
    }
    out
}

} // verus!
