//! Functions extracted from parsed code, and edits of their definitions written back.
use vstd::prelude::*;

use crate::function::{Descriptor, DescriptorView, Location, LocationView, Span};
use crate::language::{Language, SourceLanguage};
use crate::parser::{opt_view, Error, Grammar, ParsedCode};
use crate::syntax::{
    capture_index, query_capture_index, query_captures, query_compiles, Capture, QueryMatch,
};
use crate::parser::splice;
use vstd::utf8::{decode_utf8, encode_utf8, valid_utf8};

verus! {

/// The tree-sitter query that finds a language's function definitions: `@name` captures the
/// function's name and `@definition` its whole definition.
pub open spec fn spec_function_sexp(language: SourceLanguage) -> Seq<char> {
    match language {
        SourceLanguage::C => "(function_definition\n    declarator: (function_declarator\n        declarator: (identifier) @name)\n) @definition\n"@,
        SourceLanguage::Cpp => "(function_definition\n    declarator: (function_declarator\n        declarator: [(identifier) (field_identifier)] @name)\n) @definition\n"@,
        SourceLanguage::Python => "(function_definition\n    name: (identifier) @name\n) @definition\n"@,
        SourceLanguage::JavaScript => "[\n    (function_declaration\n        name: (identifier) @name) @definition\n    (method_definition\n        name: (property_identifier) @name) @definition\n]\n"@,
        SourceLanguage::TypeScript => "[\n    (function_declaration\n        name: (identifier) @name) @definition\n    (method_definition\n        name: (property_identifier) @name) @definition\n]\n"@,
        SourceLanguage::Go => "(function_declaration\n    name: (identifier) @name\n) @definition\n(method_declaration\n    name: (field_identifier) @name\n) @definition\n"@,
        SourceLanguage::Rust => "(function_item\n    name: (identifier) @name\n) @definition\n"@,
        SourceLanguage::Java => "(method_declaration\n    name: (identifier) @name\n) @definition\n"@,
        SourceLanguage::CSharp => "(method_declaration\n    name: (identifier) @name\n) @definition\n"@,
    }
}

/// Whether `needle` occurs somewhere in `hay`.
pub open spec fn has_text(hay: Seq<char>, needle: Seq<char>) -> bool {
    exists|i: int|
        0 <= i && i + needle.len() <= hay.len() && #[trigger] hay.subrange(i, i + needle.len())
            == needle
}

/// The kinds of syntax node that are function definitions in a language's grammar.
pub open spec fn function_node_kinds(language: SourceLanguage) -> Seq<Seq<char>> {
    match language {
        SourceLanguage::C | SourceLanguage::Cpp | SourceLanguage::Python => seq![
            "function_definition"@,
        ],
        SourceLanguage::JavaScript | SourceLanguage::TypeScript => seq![
            "function_declaration"@,
            "method_definition"@,
        ],
        SourceLanguage::Go => seq!["function_declaration"@, "method_declaration"@],
        SourceLanguage::Rust => seq!["function_item"@],
        SourceLanguage::Java | SourceLanguage::CSharp => seq!["method_declaration"@],
    }
}

proof fn lemma_text_at(hay: Seq<char>, needle: Seq<char>, i: int)
    requires
        0 <= i,
        i + needle.len() <= hay.len(),
        hay.subrange(i, i + needle.len()) =~= needle,
    ensures
        has_text(hay, needle),
{
}

/// Law: a language's function query has a pattern for every kind of node that defines a
/// function in that language (for Go both function and method declarations, for JavaScript
/// and TypeScript both function declarations and method definitions), and a Go method is
/// named by its field identifier.
pub proof fn lemma_query_covers_function_kinds(language: SourceLanguage, k: int)
    requires
        0 <= k < function_node_kinds(language).len(),
    ensures
        has_text(spec_function_sexp(language), "("@ + function_node_kinds(language)[k]),
        language == SourceLanguage::Go ==> has_text(
            spec_function_sexp(language),
            "(method_declaration\n    name: (field_identifier) @name"@,
        ),
{
    reveal_strlit("(");
    reveal_strlit("function_definition");
    reveal_strlit("function_declaration");
    reveal_strlit("method_definition");
    reveal_strlit("method_declaration");
    reveal_strlit("function_item");
    reveal_strlit("(method_declaration\n    name: (field_identifier) @name");
    let sexp = spec_function_sexp(language);
    let needle = "("@ + function_node_kinds(language)[k];
    match language {
        SourceLanguage::C => {
            reveal_strlit("(function_definition\n    declarator: (function_declarator\n        declarator: (identifier) @name)\n) @definition\n");
            lemma_text_at(sexp, needle, 0);
        },
        SourceLanguage::Cpp => {
            reveal_strlit("(function_definition\n    declarator: (function_declarator\n        declarator: [(identifier) (field_identifier)] @name)\n) @definition\n");
            lemma_text_at(sexp, needle, 0);
        },
        SourceLanguage::Python => {
            reveal_strlit("(function_definition\n    name: (identifier) @name\n) @definition\n");
            lemma_text_at(sexp, needle, 0);
        },
        SourceLanguage::JavaScript => {
            reveal_strlit("[\n    (function_declaration\n        name: (identifier) @name) @definition\n    (method_definition\n        name: (property_identifier) @name) @definition\n]\n");
            if k == 0 {
                lemma_text_at(sexp, needle, 6);
            } else {
                lemma_text_at(sexp, needle, 78);
            }
        },
        SourceLanguage::TypeScript => {
            reveal_strlit("[\n    (function_declaration\n        name: (identifier) @name) @definition\n    (method_definition\n        name: (property_identifier) @name) @definition\n]\n");
            if k == 0 {
                lemma_text_at(sexp, needle, 6);
            } else {
                lemma_text_at(sexp, needle, 78);
            }
        },
        SourceLanguage::Go => {
            reveal_strlit("(function_declaration\n    name: (identifier) @name\n) @definition\n(method_declaration\n    name: (field_identifier) @name\n) @definition\n");
            if k == 0 {
                lemma_text_at(sexp, needle, 0);
            } else {
                lemma_text_at(sexp, needle, 65);
            }
            lemma_text_at(sexp, "(method_declaration\n    name: (field_identifier) @name"@, 65);
        },
        SourceLanguage::Rust => {
            reveal_strlit("(function_item\n    name: (identifier) @name\n) @definition\n");
            lemma_text_at(sexp, needle, 0);
        },
        SourceLanguage::Java => {
            reveal_strlit("(method_declaration\n    name: (identifier) @name\n) @definition\n");
            lemma_text_at(sexp, needle, 0);
        },
        SourceLanguage::CSharp => {
            reveal_strlit("(method_declaration\n    name: (identifier) @name\n) @definition\n");
            lemma_text_at(sexp, needle, 0);
        },
    }
}

/// The tree-sitter query that finds a language's function definitions.
pub fn function_sexp(language: &SourceLanguage) -> (r: &'static str)
    ensures
        r@ == spec_function_sexp(*language),
{
    match language {
        SourceLanguage::C => "(function_definition\n    declarator: (function_declarator\n        declarator: (identifier) @name)\n) @definition\n",
        SourceLanguage::Cpp => "(function_definition\n    declarator: (function_declarator\n        declarator: [(identifier) (field_identifier)] @name)\n) @definition\n",
        SourceLanguage::Python => "(function_definition\n    name: (identifier) @name\n) @definition\n",
        SourceLanguage::JavaScript => "[\n    (function_declaration\n        name: (identifier) @name) @definition\n    (method_definition\n        name: (property_identifier) @name) @definition\n]\n",
        SourceLanguage::TypeScript => "[\n    (function_declaration\n        name: (identifier) @name) @definition\n    (method_definition\n        name: (property_identifier) @name) @definition\n]\n",
        SourceLanguage::Go => "(function_declaration\n    name: (identifier) @name\n) @definition\n(method_declaration\n    name: (field_identifier) @name\n) @definition\n",
        SourceLanguage::Rust => "(function_item\n    name: (identifier) @name\n) @definition\n",
        SourceLanguage::Java => "(method_declaration\n    name: (identifier) @name\n) @definition\n",
        SourceLanguage::CSharp => "(method_declaration\n    name: (identifier) @name\n) @definition\n",
    }
}

/// The first capture with the given capture index.
pub open spec fn first_capture(caps: Seq<Capture>, idx: u32) -> Option<Capture>
    decreases caps.len(),
{
    if caps.len() == 0 {
        None
    } else if caps[0].index == idx {
        Some(caps[0])
    } else {
        first_capture(caps.drop_first(), idx)
    }
}

/// The text a capture covers, when its bytes lie within the code and are valid UTF-8.
pub open spec fn capture_text(code: Seq<u8>, c: Capture) -> Option<Seq<char>> {
    if c.bytes.start <= c.bytes.end <= code.len() && valid_utf8(
        code.subrange(c.bytes.start as int, c.bytes.end as int),
    ) {
        Some(decode_utf8(code.subrange(c.bytes.start as int, c.bytes.end as int)))
    } else {
        None
    }
}

/// The function one query match describes: `Some(None)` when the match lacks a name or a
/// definition capture, `None` when the captured text cannot be decoded.
pub open spec fn match_descriptor(
    code: Seq<u8>,
    language: SourceLanguage,
    source: Seq<char>,
    name_idx: u32,
    def_idx: u32,
    caps: Seq<Capture>,
) -> Option<Option<DescriptorView>> {
    match (first_capture(caps, name_idx), first_capture(caps, def_idx)) {
        (Some(n), Some(d)) => match (capture_text(code, n), capture_text(code, d)) {
            (Some(name), Some(definition)) => Some(
                Some(
                    DescriptorView {
                        name,
                        definition,
                        language: Language::Source(language),
                        location: Some(
                            LocationView {
                                source,
                                bytes_range: d.bytes,
                                line_range: Span { start: d.start.row, end: d.end.row },
                                column_range: Span { start: d.start.column, end: d.end.column },
                            },
                        ),
                    },
                ),
            ),
            _ => None,
        },
        _ => Some(None),
    }
}

/// The functions a sequence of query matches describes, in match order; `None` when some
/// captured text cannot be decoded.
pub open spec fn matches_descriptors(
    code: Seq<u8>,
    language: SourceLanguage,
    source: Seq<char>,
    name_idx: u32,
    def_idx: u32,
    ms: Seq<Seq<Capture>>,
) -> Option<Seq<DescriptorView>>
    decreases ms.len(),
{
    if ms.len() == 0 {
        Some(Seq::empty())
    } else {
        match matches_descriptors(code, language, source, name_idx, def_idx, ms.drop_last()) {
            None => None,
            Some(fs) => match match_descriptor(code, language, source, name_idx, def_idx, ms.last()) {
                None => None,
                Some(None) => Some(fs),
                Some(Some(d)) => Some(fs.push(d)),
            },
        }
    }
}

/// Once the functions of a prefix of the matches cannot be decoded, neither can those of
/// any longer prefix.
pub proof fn lemma_undecodable_prefix(
    code: Seq<u8>,
    language: SourceLanguage,
    source: Seq<char>,
    name_idx: u32,
    def_idx: u32,
    ms: Seq<Seq<Capture>>,
    k: int,
    j: int,
)
    requires
        0 <= k <= j <= ms.len(),
        matches_descriptors(code, language, source, name_idx, def_idx, ms.subrange(0, k)) is None,
    ensures
        matches_descriptors(code, language, source, name_idx, def_idx, ms.subrange(0, j)) is None,
    decreases j - k,
{
    if j > k {
        lemma_undecodable_prefix(code, language, source, name_idx, def_idx, ms, k, j - 1);
        assert(ms.subrange(0, j).drop_last() == ms.subrange(0, j - 1));
    }
}

/// Captures of each match, as plain values.
pub open spec fn match_captures(ms: Seq<QueryMatch>) -> Seq<Seq<Capture>> {
    ms.map_values(|m: QueryMatch| m.captures@)
}

/// Views of a list of descriptors.
pub open spec fn descriptor_views(fs: Seq<Descriptor>) -> Seq<DescriptorView> {
    fs.map_values(|d: Descriptor| d@)
}

/// The path text recorded for functions of code read from `source` (empty for none).
pub open spec fn source_text(source: Option<String>) -> Seq<char> {
    match source {
        Some(s) => s@,
        None => Seq::empty(),
    }
}

/// The first capture with the given index.
fn find_capture(caps: &Vec<Capture>, idx: u32) -> (r: Option<Capture>)
    ensures
        r == first_capture(caps@, idx),
{
    let mut i: usize = 0;
    assert(caps@.subrange(0, caps@.len() as int) == caps@);
    while i < caps.len()
        invariant
            0 <= i <= caps@.len(),
            first_capture(caps@, idx) == first_capture(
                caps@.subrange(i as int, caps@.len() as int),
                idx,
            ),
        decreases caps.len() - i,
    {
        assert(caps@.subrange(i as int, caps@.len() as int).drop_first() == caps@.subrange(
            i + 1,
            caps@.len() as int,
        ));
        if caps[i].index == idx {
            return Some(caps[i]);
        }
        i = i + 1;
    }
    None
}

/// The text a capture covers (see [`capture_text`]).
fn capture_string(code: &[u8], c: &Capture) -> (r: Option<String>)
    ensures
        match r {
            Some(s) => capture_text(code@, *c) == Some(s@),
            None => capture_text(code@, *c) is None,
        },
{
    if c.bytes.start <= c.bytes.end && c.bytes.end <= code.len() {
        let bytes = vstd::slice::slice_subrange(code, c.bytes.start, c.bytes.end);
        match crate::text::utf8_str(bytes) {
            Some(s) => Some(s.to_owned()),
            None => None,
        }
    } else {
        None
    }
}

/// The functions that query matches over `code` describe (see [`matches_descriptors`]):
/// for each match that has both a `name_idx` and a `def_idx` capture, its name and
/// definition text, its language, and the definition's place in the file `source`.
pub fn descriptors_from_matches(
    code: &[u8],
    language: SourceLanguage,
    source: &Option<String>,
    name_idx: u32,
    def_idx: u32,
    matches: &Vec<QueryMatch>,
) -> (r: Result<Vec<Descriptor>, Error>)
    ensures
        match r {
            Ok(fs) => matches_descriptors(
                code@,
                language,
                source_text(*source),
                name_idx,
                def_idx,
                match_captures(matches@),
            ) == Some(descriptor_views(fs@)),
            Err(e) => e is Decode && matches_descriptors(
                code@,
                language,
                source_text(*source),
                name_idx,
                def_idx,
                match_captures(matches@),
            ) is None,
        },
{
    let path = match source {
        Some(s) => s.clone(),
        None => String::new(),
    };
    let ghost ms = match_captures(matches@);
    let mut functions: Vec<Descriptor> = Vec::new();
    let mut i: usize = 0;
    while i < matches.len()
        invariant
            0 <= i <= matches@.len(),
            ms == match_captures(matches@),
            path@ == source_text(*source),
            matches_descriptors(
                code@,
                language,
                path@,
                name_idx,
                def_idx,
                ms.subrange(0, i as int),
            ) == Some(descriptor_views(functions@)),
        decreases matches.len() - i,
    {
        assert(ms.subrange(0, i + 1).drop_last() == ms.subrange(0, i as int));
        assert(ms.subrange(0, i + 1).last() == matches@[i as int].captures@);
        let caps = &matches[i].captures;
        let name = find_capture(caps, name_idx);
        let def = find_capture(caps, def_idx);
        match (name, def) {
            (Some(n), Some(d)) => {
                let name_text = match capture_string(code, &n) {
                    Some(t) => t,
                    None => {
                        proof {
                            lemma_undecodable_prefix(
                                code@,
                                language,
                                path@,
                                name_idx,
                                def_idx,
                                ms,
                                i + 1,
                                ms.len() as int,
                            );
                            assert(ms.subrange(0, ms.len() as int) == ms);
                        }
                        return Err(Error::Decode);
                    },
                };
                let definition = match capture_string(code, &d) {
                    Some(t) => t,
                    None => {
                        proof {
                            lemma_undecodable_prefix(
                                code@,
                                language,
                                path@,
                                name_idx,
                                def_idx,
                                ms,
                                i + 1,
                                ms.len() as int,
                            );
                            assert(ms.subrange(0, ms.len() as int) == ms);
                        }
                        return Err(Error::Decode);
                    },
                };
                let location = Location {
                    source: path.clone(),
                    bytes_range: d.bytes,
                    line_range: Span { start: d.start.row, end: d.end.row },
                    column_range: Span { start: d.start.column, end: d.end.column },
                };
                let f = Descriptor {
                    name: name_text,
                    definition,
                    language: Language::Source(language),
                    location: Some(location),
                };
                functions.push(f);
                assert(descriptor_views(functions@) =~= descriptor_views(
                    functions@.drop_last(),
                ).push(f@));
            },
            _ => {},
        }
        i = i + 1;
    }
    assert(ms.subrange(0, matches@.len() as int) == ms);
    Ok(functions)
}

/// The byte offset functions are edited in order of: the start of the definition, or 0 for a
/// function with no location.
pub open spec fn edit_key(d: DescriptorView) -> int {
    match d.location {
        Some(l) => l.bytes_range.start as int,
        None => 0,
    }
}

/// `order` lists every function index once, later definitions (by start offset) first.
pub open spec fn is_edit_order(fs: Seq<DescriptorView>, order: Seq<usize>) -> bool {
    &&& order.len() == fs.len()
    &&& forall|i: int| 0 <= i < order.len() ==> order[i] < fs.len()
    &&& forall|i: int, j: int| 0 <= i < j < order.len() ==> order[i] != order[j]
    &&& forall|i: int, j: int|
        0 <= i < j < order.len() ==> edit_key(fs[order[i] as int]) >= edit_key(
            fs[order[j] as int],
        )
}

/// The new name and definition given for function `k`, if any.
pub open spec fn change_at(changes: Seq<Option<(String, String)>>, k: int) -> Option<
    (Seq<char>, Seq<char>),
> {
    if 0 <= k < changes.len() {
        match changes[k] {
            Some((n, d)) => Some((n@, d@)),
            None => None,
        }
    } else {
        None
    }
}

/// One function's edit of the code: when its definition changed and it has a location, the
/// bytes of its old definition at its start offset are replaced by the new definition's
/// bytes (left alone if they would run past the end of the code).
pub open spec fn edit_step(
    code: Seq<u8>,
    f: DescriptorView,
    change: Option<(Seq<char>, Seq<char>)>,
) -> Seq<u8> {
    match (change, f.location) {
        (Some((_, new_def)), Some(loc)) => {
            let start = loc.bytes_range.start as int;
            let end = start + encode_utf8(f.definition).len();
            if new_def != f.definition && end <= code.len() {
                splice(code, start, end, encode_utf8(new_def))
            } else {
                code
            }
        },
        _ => code,
    }
}

/// Whether one function's edit changes the code.
pub open spec fn edit_applies(
    code: Seq<u8>,
    f: DescriptorView,
    change: Option<(Seq<char>, Seq<char>)>,
) -> bool {
    match (change, f.location) {
        (Some((_, new_def)), Some(loc)) => new_def != f.definition && loc.bytes_range.start
            + encode_utf8(f.definition).len() <= code.len(),
        _ => false,
    }
}

/// The code after the functions' edits are applied one by one in `order`.
pub open spec fn apply_edits(
    code: Seq<u8>,
    fs: Seq<DescriptorView>,
    changes: Seq<Option<(String, String)>>,
    order: Seq<usize>,
) -> Seq<u8>
    decreases order.len(),
{
    if order.len() == 0 {
        code
    } else {
        edit_step(
            apply_edits(code, fs, changes, order.drop_last()),
            fs[order.last() as int],
            change_at(changes, order.last() as int),
        )
    }
}

/// Whether any of the edits in `order` changes the code.
pub open spec fn any_edit_applies(
    code: Seq<u8>,
    fs: Seq<DescriptorView>,
    changes: Seq<Option<(String, String)>>,
    order: Seq<usize>,
) -> bool
    decreases order.len(),
{
    if order.len() == 0 {
        false
    } else {
        any_edit_applies(code, fs, changes, order.drop_last()) || edit_applies(
            apply_edits(code, fs, changes, order.drop_last()),
            fs[order.last() as int],
            change_at(changes, order.last() as int),
        )
    }
}

/// The byte offset just past a located function's definition.
pub open spec fn definition_end(f: DescriptorView) -> int {
    edit_key(f) + encode_utf8(f.definition).len()
}

/// The located functions' definitions are non-empty and occupy disjoint byte ranges.
pub open spec fn disjoint_definitions(fs: Seq<DescriptorView>) -> bool {
    &&& forall|a: int|
        0 <= a < fs.len() && (#[trigger] fs[a]).location is Some ==> encode_utf8(
            fs[a].definition,
        ).len() > 0
    &&& forall|a: int, b: int|
        0 <= a < fs.len() && 0 <= b < fs.len() && a != b && (#[trigger] fs[a]).location is Some
            && (#[trigger] fs[b]).location is Some ==> definition_end(fs[a]) <= edit_key(fs[b])
            || definition_end(fs[b]) <= edit_key(fs[a])
}

/// Edits of functions that all start at or after `p` leave the code before `p` as it was.
pub proof fn lemma_edits_keep_prefix(
    code: Seq<u8>,
    fs: Seq<DescriptorView>,
    changes: Seq<Option<(String, String)>>,
    order: Seq<usize>,
    p: int,
)
    requires
        0 <= p <= code.len(),
        forall|i: int| 0 <= i < order.len() ==> order[i] < fs.len(),
        forall|i: int|
            0 <= i < order.len() && (#[trigger] fs[order[i] as int]).location is Some
                ==> edit_key(fs[order[i] as int]) >= p,
    ensures
        p <= apply_edits(code, fs, changes, order).len(),
        apply_edits(code, fs, changes, order).subrange(0, p) == code.subrange(0, p),
    decreases order.len(),
{
    if order.len() > 0 {
        let rest = order.drop_last();
        assert forall|i: int|
            0 <= i < rest.len() && (#[trigger] fs[rest[i] as int]).location is Some implies edit_key(
            fs[rest[i] as int],
        ) >= p by {
            assert(rest[i] == order[i]);
        }
        lemma_edits_keep_prefix(code, fs, changes, rest, p);
        let prev = apply_edits(code, fs, changes, rest);
        let f = fs[order.last() as int];
        assert(order.last() == order[order.len() - 1]);
        let next = edit_step(prev, f, change_at(changes, order.last() as int));
        assert(next == apply_edits(code, fs, changes, order));
        if next != prev {
            let start = edit_key(f);
            let end = definition_end(f);
            let with = encode_utf8((change_at(changes, order.last() as int)->0).1);
            assert(next == splice(prev, start, end, with));
            assert(next.subrange(0, p) =~= prev.subrange(0, p));
        }
    }
}

/// Law: in an edit order over functions whose definitions occupy disjoint, non-empty byte
/// ranges of the code, each function's edit finds the bytes of its range as the unedited code
/// held them: no edit made before it (of a function further on in the code) has shifted or
/// changed them.
pub proof fn lemma_edit_finds_unedited_bytes(
    code: Seq<u8>,
    fs: Seq<DescriptorView>,
    changes: Seq<Option<(String, String)>>,
    order: Seq<usize>,
    t: int,
)
    requires
        is_edit_order(fs, order),
        disjoint_definitions(fs),
        0 <= t < order.len(),
        fs[order[t] as int].location is Some,
        definition_end(fs[order[t] as int]) <= code.len(),
    ensures
        apply_edits(code, fs, changes, order.subrange(0, t)).subrange(
            edit_key(fs[order[t] as int]),
            definition_end(fs[order[t] as int]),
        ) == code.subrange(edit_key(fs[order[t] as int]), definition_end(fs[order[t] as int])),
{
    let k = order[t] as int;
    let done = order.subrange(0, t);
    let start = edit_key(fs[k]);
    let end = definition_end(fs[k]);
    assert forall|i: int|
        0 <= i < done.len() && (#[trigger] fs[done[i] as int]).location is Some implies edit_key(
        fs[done[i] as int],
    ) >= end by {
        let j = done[i] as int;
        assert(done[i] == order[i]);
        assert(order[i] != order[t]);
        assert(edit_key(fs[j]) >= start);
        assert(definition_end(fs[j]) <= edit_key(fs[k]) || definition_end(fs[k]) <= edit_key(
            fs[j],
        ));
        assert(encode_utf8(fs[j].definition).len() > 0);
    }
    lemma_edits_keep_prefix(code, fs, changes, done, end);
    let now = apply_edits(code, fs, changes, done);
    assert(now.subrange(start, end) =~= now.subrange(0, end).subrange(start, end));
    assert(code.subrange(start, end) =~= code.subrange(0, end).subrange(start, end));
}

/// A function after its change: the new name and definition, if one was given.
pub open spec fn edited_function(f: DescriptorView, change: Option<(Seq<char>, Seq<char>)>) -> DescriptorView {
    match change {
        Some((n, d)) => DescriptorView { name: n, definition: d, ..f },
        None => f,
    }
}

/// The byte offset a function is edited in order of.
fn edit_key_of(d: &Descriptor) -> (k: usize)
    ensures
        k == edit_key(d@),
{
    match &d.location {
        Some(l) => l.bytes_range.start,
        None => 0,
    }
}

/// The order in which functions are edited: later definitions first, ties in list order.
pub fn edit_order(fs: &Vec<Descriptor>) -> (order: Vec<usize>)
    ensures
        is_edit_order(descriptor_views(fs@), order@),
        forall|k: usize| k < fs@.len() ==> #[trigger] order@.contains(k),
{
    let ghost views = descriptor_views(fs@);
    let mut order: Vec<usize> = Vec::new();
    let mut i: usize = 0;
    while i < fs.len()
        invariant
            0 <= i <= fs@.len(),
            views == descriptor_views(fs@),
            order@.len() == i,
            forall|a: int| 0 <= a < order@.len() ==> order@[a] < i,
            forall|k: usize| k < i ==> #[trigger] order@.contains(k),
            forall|a: int, b: int| 0 <= a < b < order@.len() ==> order@[a] != order@[b],
            forall|a: int, b: int|
                0 <= a < b < order@.len() ==> edit_key(views[order@[a] as int]) >= edit_key(
                    views[order@[b] as int],
                ),
        decreases fs.len() - i,
    {
        let key = edit_key_of(&fs[i]);
        let mut j: usize = 0;
        while j < order.len() && edit_key_of(&fs[order[j]]) >= key
            invariant
                0 <= j <= order@.len(),
                order@.len() == i,
                i < fs@.len(),
                views == descriptor_views(fs@),
                key == edit_key(views[i as int]),
                forall|a: int| 0 <= a < order@.len() ==> order@[a] < i,
                forall|a: int| 0 <= a < j ==> edit_key(views[order@[a] as int]) >= key,
            decreases order.len() - j,
        {
            j = j + 1;
        }
        let ghost before = order@;
        order.insert(j, i);
        assert(order@ == before.insert(j as int, i));
        assert forall|k: usize| k < i + 1 implies #[trigger] order@.contains(k) by {
            if k == i {
                assert(order@[j as int] == i);
            } else {
                assert(before.contains(k));
                let p = choose|p: int| 0 <= p < before.len() && before[p] == k;
                if p < j {
                    assert(order@[p] == before[p]);
                } else {
                    assert(order@[p + 1] == before[p]);
                }
            }
        }
        assert forall|a: int, b: int| 0 <= a < b < order@.len() implies edit_key(
            views[order@[a] as int],
        ) >= edit_key(views[order@[b] as int]) by {
            if b < j {
            } else if b == j {
            } else if a < j {
                assert(order@[b] == before[b - 1]);
                if j < before.len() {
                    assert(edit_key(views[before[j as int] as int]) < key);
                    if b - 1 > j {
                        assert(edit_key(views[before[j as int] as int]) >= edit_key(
                            views[before[b - 1] as int],
                        ));
                    }
                }
            } else if a == j {
                assert(edit_key(views[before[j as int] as int]) < key);
                if b - 1 > j {
                    assert(edit_key(views[before[j as int] as int]) >= edit_key(
                        views[before[b - 1] as int],
                    ));
                }
            } else {
                assert(order@[a] == before[a - 1]);
                assert(order@[b] == before[b - 1]);
            }
        }
        i = i + 1;
    }
    order
}

/// `code` with bytes `[start, end)` replaced by `with`.
pub fn splice_bytes(code: &Vec<u8>, start: usize, end: usize, with: &[u8]) -> (r: Vec<u8>)
    requires
        start <= end <= code@.len(),
    ensures
        r@ == splice(code@, start as int, end as int, with@),
{
    let mut r: Vec<u8> = Vec::new();
    let mut i: usize = 0;
    while i < start
        invariant
            0 <= i <= start <= end <= code@.len(),
            r@ == code@.subrange(0, i as int),
        decreases start - i,
    {
        r.push(code[i]);
        assert(code@.subrange(0, i + 1) == code@.subrange(0, i as int).push(code@[i as int]));
        i = i + 1;
    }
    let mut j: usize = 0;
    while j < with.len()
        invariant
            0 <= j <= with@.len(),
            r@ == code@.subrange(0, start as int) + with@.subrange(0, j as int),
        decreases with.len() - j,
    {
        r.push(with[j]);
        assert(with@.subrange(0, j + 1) == with@.subrange(0, j as int).push(with@[j as int]));
        j = j + 1;
    }
    assert(with@.subrange(0, with@.len() as int) == with@);
    let mut k: usize = end;
    while k < code.len()
        invariant
            end <= k <= code@.len(),
            r@ == code@.subrange(0, start as int) + with@ + code@.subrange(end as int, k as int),
        decreases code.len() - k,
    {
        r.push(code[k]);
        assert(code@.subrange(end as int, k + 1) == code@.subrange(end as int, k as int).push(
            code@[k as int],
        ));
        k = k + 1;
    }
    r
}

/// Applies the changes to the code and the functions (see [`apply_edits`]): in an edit
/// order, each function whose definition changed has its old definition's bytes in the
/// code replaced by the new definition's; then each changed function takes its new name and
/// definition. Returns the new code and whether any bytes were replaced.
pub fn apply_function_edits(
    code: &[u8],
    functions: &mut Vec<Descriptor>,
    changes: &Vec<Option<(String, String)>>,
) -> (r: (Vec<u8>, bool))
    ensures
        exists|order: Seq<usize>|
            {
                &&& is_edit_order(descriptor_views(old(functions)@), order)
                &&& r.0@ == apply_edits(
                    code@,
                    descriptor_views(old(functions)@),
                    changes@,
                    order,
                )
                &&& r.1 == any_edit_applies(
                    code@,
                    descriptor_views(old(functions)@),
                    changes@,
                    order,
                )
            },
        final(functions)@.len() == old(functions)@.len(),
        forall|k: int|
            0 <= k < old(functions)@.len() ==> #[trigger] final(functions)@[k]@
                == edited_function(old(functions)@[k]@, change_at(changes@, k)),
{
    let ghost fs = descriptor_views(functions@);
    let order = edit_order(functions);
    let mut cur: Vec<u8> = vstd::slice::slice_to_vec(code);
    let mut changed = false;
    let mut t: usize = 0;
    while t < order.len()
        invariant
            0 <= t <= order@.len(),
            is_edit_order(fs, order@),
            fs == descriptor_views(functions@),
            cur@ == apply_edits(code@, fs, changes@, order@.subrange(0, t as int)),
            changed == any_edit_applies(code@, fs, changes@, order@.subrange(0, t as int)),
        decreases order.len() - t,
    {
        let ghost prefix = order@.subrange(0, t + 1);
        assert(prefix.drop_last() == order@.subrange(0, t as int));
        let k = order[t];
        let f = &functions[k];
        let ghost prev = cur@;
        let ghost prev_changed = changed;
        assert(f@ == fs[k as int]);
        if k < changes.len() {
            match &changes[k] {
                Some((_, new_def)) => {
                    match &f.location {
                        Some(loc) => {
                            let start = loc.bytes_range.start;
                            let old_len = f.definition.as_str().as_bytes().len();
                            assert(change_at(changes@, k as int) == Some(((changes@[k as int]->0).0@, new_def@)));
                            assert(old_len == encode_utf8(fs[k as int].definition).len());
                            assert(fs[k as int].location == Some(loc@));
                            if !crate::text::str_eq(new_def.as_str(), f.definition.as_str())
                                && old_len <= cur.len() && start <= cur.len() - old_len {
                                cur = splice_bytes(&cur, start, start + old_len, new_def.as_str().as_bytes());
                                changed = true;
                            }
                        },
                        None => {},
                    }
                },
                None => {},
            }
        }
        assert(cur@ == edit_step(prev, fs[k as int], change_at(changes@, k as int)));
        assert(changed == (prev_changed || edit_applies(prev, fs[k as int], change_at(changes@, k as int))));
        t = t + 1;
    }
    assert(order@.subrange(0, order@.len() as int) == order@);
    let mut k: usize = 0;
    while k < functions.len()
        invariant
            0 <= k <= functions@.len(),
            functions@.len() == fs.len(),
            forall|a: int| 0 <= a < k ==> #[trigger] functions@[a]@ == edited_function(fs[a], change_at(changes@, a)),
            forall|a: int| k <= a < functions@.len() ==> #[trigger] functions@[a]@ == fs[a],
        decreases functions.len() - k,
    {
        if k < changes.len() {
            match &changes[k] {
                Some((new_name, new_def)) => {
                    let old = functions[k].duplicate();
                    let updated = Descriptor {
                        name: new_name.clone(),
                        definition: new_def.clone(),
                        language: old.language,
                        location: old.location,
                    };
                    functions.set(k, updated);
                },
                None => {},
            }
        }
        k = k + 1;
    }
    (cur, changed)
}

/// `fs` are the functions, and `code` the code, that applying `changes` to the functions
/// `fs0` of `code0` gives (see [`apply_function_edits`]).
pub open spec fn edits_applied(
    code0: Seq<u8>,
    fs0: Seq<DescriptorView>,
    changes: Seq<Option<(String, String)>>,
    code: Seq<u8>,
    fs: Seq<DescriptorView>,
) -> bool {
    &&& fs.len() == fs0.len()
    &&& forall|k: int| 0 <= k < fs0.len() ==> #[trigger] fs[k] == edited_function(fs0[k], change_at(changes, k))
    &&& exists|order: Seq<usize>|
        {
            &&& is_edit_order(fs0, order)
            &&& code == apply_edits(code0, fs0, changes, order)
        }
}

/// What looking for functions in code gives.
pub enum Extraction {
    /// The functions that the matches of the language's query describe, in match order.
    Found(Seq<DescriptorView>),
    /// The language's query does not compile for the grammar.
    QueryFailed,
    /// The compiled query lacks the `name` or the `definition` capture.
    CaptureMissing,
    /// Some captured text cannot be decoded.
    Undecodable,
}

/// What looking for functions gives in `code` of `language`, parsed with `grammar` from the
/// file `source`: the language's query is compiled, its `name` and `definition` captures
/// looked up, and the functions its matches over the code describe collected (see
/// [`matches_descriptors`]).
pub open spec fn spec_extraction(
    language: SourceLanguage,
    grammar: Grammar,
    code: Seq<u8>,
    source: Seq<char>,
) -> Extraction {
    let sexp = spec_function_sexp(language);
    if !query_compiles(grammar, sexp) {
        Extraction::QueryFailed
    } else {
        match (query_capture_index(sexp, "name"@), query_capture_index(sexp, "definition"@)) {
            (Some(n), Some(d)) => match matches_descriptors(
                code,
                language,
                source,
                n,
                d,
                query_captures(grammar, sexp, code),
            ) {
                Some(fs) => Extraction::Found(fs),
                None => Extraction::Undecodable,
            },
            _ => Extraction::CaptureMissing,
        }
    }
}

/// What looking for functions in parsed code gives.
pub open spec fn extraction_of(code: ParsedCode) -> Extraction {
    spec_extraction(
        code.spec_language(),
        code.spec_grammar(),
        code.spec_code(),
        source_text(code.spec_source()),
    )
}

/// `fs` are the functions found in `code`.
pub open spec fn found_in(code: ParsedCode, fs: Seq<DescriptorView>) -> bool {
    extraction_of(code) == Extraction::Found(fs)
}

/// `e` is the error for a failed extraction `x`.
pub open spec fn extraction_error(x: Extraction, e: Error) -> bool {
    ||| (x is QueryFailed && e is Query)
    ||| (x is CaptureMissing && e is MissingCapture)
    ||| (x is Undecodable && e is Decode)
}

/// Copies of a list of descriptors.
pub fn copy_descriptors(fs: &[Descriptor]) -> (r: Vec<Descriptor>)
    ensures
        descriptor_views(r@) == descriptor_views(fs@),
{
    let mut r: Vec<Descriptor> = Vec::new();
    let mut i: usize = 0;
    while i < fs.len()
        invariant
            0 <= i <= fs@.len(),
            descriptor_views(r@) == descriptor_views(fs@.subrange(0, i as int)),
        decreases fs.len() - i,
    {
        let d = fs[i].duplicate();
        let ghost before = r@;
        r.push(d);
        assert(descriptor_views(r@) =~= descriptor_views(before).push(d@));
        assert(descriptor_views(fs@.subrange(0, i + 1)) =~= descriptor_views(
            fs@.subrange(0, i as int),
        ).push(fs@[i as int]@));
        i = i + 1;
    }
    assert(fs@.subrange(0, fs@.len() as int) == fs@);
    r
}

/// Parsed code together with the functions found in it.
pub struct ParsedFunctions {
    code: ParsedCode,
    functions: Vec<Descriptor>,
}

impl ParsedFunctions {
    /// The parsed code, in specifications.
    pub closed spec fn spec_parsed(&self) -> ParsedCode {
        self.code
    }

    /// The functions found so far, in specifications.
    pub closed spec fn spec_functions(&self) -> Seq<DescriptorView> {
        descriptor_views(self.functions@)
    }

    /// Parsed code, with its functions not yet looked for.
    pub fn new(code: ParsedCode) -> (r: Self)
        requires
            code.spec_is_parse(),
        ensures
            r.spec_parsed() == code,
            r.spec_functions() == Seq::<DescriptorView>::empty(),
    {
        ParsedFunctions { code, functions: Vec::new() }
    }

    /// The parsed code.
    pub fn code(&self) -> (r: &ParsedCode)
        ensures
            *r == self.spec_parsed(),
    {
        &self.code
    }

    /// Runs the language's function query over the code and collects the functions its
    /// matches describe: over a fresh parse, those [`extraction_of`] gives.
    fn functions_inner(&self) -> (r: Result<Vec<Descriptor>, Error>)
        requires
            self.spec_parsed().spec_is_parse(),
        ensures
            self.spec_parsed().spec_is_fresh() ==> match r {
                Ok(fs) => found_in(self.spec_parsed(), descriptor_views(fs@)),
                Err(e) => extraction_error(extraction_of(self.spec_parsed()), e),
            },
            r matches Err(e) ==> e is Query || e is MissingCapture || e is Decode,
    {
        let language = *self.code.language();
        let sexp = function_sexp(&language);
        let (query, matches) = self.code.query(sexp)?;
        let name_idx = match capture_index(&query, "name") {
            Some(i) => i,
            None => {
                return Err(Error::MissingCapture { name: "name".to_owned() });
            },
        };
        let def_idx = match capture_index(&query, "definition") {
            Some(i) => i,
            None => {
                return Err(Error::MissingCapture { name: "definition".to_owned() });
            },
        };
        let r = descriptors_from_matches(
            self.code.code(),
            language,
            self.code.source(),
            name_idx,
            def_idx,
            &matches,
        );
        proof {
            if self.code.spec_is_fresh() {
                assert(match_captures(matches@) == query_captures(
                    self.code.spec_grammar(),
                    spec_function_sexp(language),
                    self.code.spec_code(),
                ));
            }
        }
        r
    }

    /// The functions in the code, looked for on the first call (and again while none were
    /// found); later calls give the same functions.
    pub fn functions(&mut self) -> (r: Result<&[Descriptor], Error>)
        requires
            old(self).spec_parsed().spec_is_parse(),
        ensures
            final(self).spec_parsed() == old(self).spec_parsed(),
            old(self).spec_functions().len() > 0 ==> final(self).spec_functions() == old(
                self,
            ).spec_functions(),
            old(self).spec_functions().len() == 0 && old(self).spec_parsed().spec_is_fresh()
                ==> match r {
                Ok(_) => found_in(old(self).spec_parsed(), final(self).spec_functions()),
                Err(e) => extraction_error(extraction_of(old(self).spec_parsed()), e),
            },
            match r {
                Ok(fs) => descriptor_views(fs@) == final(self).spec_functions(),
                Err(e) => old(self).spec_functions().len() == 0 && final(self).spec_functions()
                    == old(self).spec_functions() && (e is Query || e is MissingCapture
                    || e is Decode),
            },
    {
        if self.functions.len() == 0 {
            self.functions = self.functions_inner()?;
        }
        Ok(self.functions.as_slice())
    }

    /// Applies `changes` — for function `k`, `changes[k]` is its new name and definition,
    /// or `None` to leave it — to the functions and writes the changed definitions back into
    /// the code (see [`apply_function_edits`]); the code is reparsed once if any bytes
    /// changed. The functions are looked for first if none were found yet.
    pub fn edit(&mut self, changes: &Vec<Option<(String, String)>>) -> (r: Result<(), Error>)
        requires
            old(self).spec_parsed().spec_is_parse(),
        ensures
            final(self).spec_parsed().spec_is_parse(),
            r is Ok && old(self).spec_functions().len() > 0 ==> edits_applied(
                old(self).spec_parsed().spec_code(),
                old(self).spec_functions(),
                changes@,
                final(self).spec_parsed().spec_code(),
                final(self).spec_functions(),
            ),
            old(self).spec_functions().len() > 0 ==> r is Ok,
            old(self).spec_functions().len() == 0 && old(self).spec_parsed().spec_is_fresh()
                ==> match extraction_of(old(self).spec_parsed()) {
                Extraction::Found(fs0) => r is Ok && edits_applied(
                    old(self).spec_parsed().spec_code(),
                    fs0,
                    changes@,
                    final(self).spec_parsed().spec_code(),
                    final(self).spec_functions(),
                ),
                x => r matches Err(e) && extraction_error(x, e) && final(self).spec_parsed()
                    == old(self).spec_parsed() && final(self).spec_functions() == old(
                    self,
                ).spec_functions(),
            },
            old(self).spec_functions().len() == 0 && !old(self).spec_parsed().spec_is_fresh()
                ==> match r {
                Ok(_) => exists|fs0: Seq<DescriptorView>|
                    #[trigger] edits_applied(
                        old(self).spec_parsed().spec_code(),
                        fs0,
                        changes@,
                        final(self).spec_parsed().spec_code(),
                        final(self).spec_functions(),
                    ),
                Err(e) => (e is Query || e is MissingCapture || e is Decode)
                    && final(self).spec_parsed() == old(self).spec_parsed()
                    && final(self).spec_functions() == old(self).spec_functions(),
            },
            final(self).spec_parsed().spec_language() == old(self).spec_parsed().spec_language(),
            final(self).spec_parsed().spec_source() == old(self).spec_parsed().spec_source(),
    {
        let ghost old_fs = descriptor_views(self.functions@);
        let ghost parsed0 = self.code;
        if self.functions.len() == 0 {
            let found = self.functions_inner()?;
            self.functions = found;
        }
        assert(old_fs.len() == 0 && parsed0.spec_is_fresh() ==> found_in(
            parsed0,
            descriptor_views(self.functions@),
        ));
        let ghost fs0 = descriptor_views(self.functions@);
        assert(old_fs.len() > 0 ==> fs0 == old_fs);
        let ghost code0 = self.code.spec_code();
        let (new_code, changed) = apply_function_edits(
            self.code.code(),
            &mut self.functions,
            changes,
        );
        proof {
            let order = choose|order: Seq<usize>|
                {
                    &&& is_edit_order(fs0, order)
                    &&& new_code@ == apply_edits(code0, fs0, changes@, order)
                    &&& changed == any_edit_applies(code0, fs0, changes@, order)
                };
            if !changed {
                lemma_no_edit_keeps_code(code0, fs0, changes@, order);
            }
            assert(descriptor_views(self.functions@).len() == fs0.len());
            assert forall|k: int| 0 <= k < fs0.len() implies #[trigger] descriptor_views(
                self.functions@,
            )[k] == edited_function(fs0[k], change_at(changes@, k)) by {
                assert(self.functions@[k]@ == edited_function(fs0[k], change_at(changes@, k)));
            }
        }
        let ghost spliced = new_code@;
        if changed {
            self.code.edit(new_code)?;
        }
        proof {
            assert(self.code.spec_code() == spliced);
            let order = choose|order: Seq<usize>|
                {
                    &&& is_edit_order(fs0, order)
                    &&& spliced == apply_edits(code0, fs0, changes@, order)
                    &&& changed == any_edit_applies(code0, fs0, changes@, order)
                };
            assert(is_edit_order(fs0, order) && self.code.spec_code() == apply_edits(
                code0,
                fs0,
                changes@,
                order,
            ));
            assert(code0 == parsed0.spec_code());
            assert(edits_applied(
                code0,
                fs0,
                changes@,
                self.code.spec_code(),
                descriptor_views(self.functions@),
            ));
            assert(old(self).spec_parsed() == parsed0);
            assert(old(self).spec_functions() == old_fs);
            assert(edits_applied(
                old(self).spec_parsed().spec_code(),
                fs0,
                changes@,
                self.spec_parsed().spec_code(),
                self.spec_functions(),
            ));
            assert({
                &&& (old_fs.len() > 0 ==> fs0 == old_fs)
                &&& edits_applied(
                    parsed0.spec_code(),
                    fs0,
                    changes@,
                    self.code.spec_code(),
                    descriptor_views(self.functions@),
                )
            });
        }
        Ok(())
    }
}

/// When no edit in `order` applies, the code is left as it was.
pub proof fn lemma_no_edit_keeps_code(
    code: Seq<u8>,
    fs: Seq<DescriptorView>,
    changes: Seq<Option<(String, String)>>,
    order: Seq<usize>,
)
    requires
        !any_edit_applies(code, fs, changes, order),
    ensures
        apply_edits(code, fs, changes, order) == code,
    decreases order.len(),
{
    if order.len() > 0 {
        lemma_no_edit_keeps_code(code, fs, changes, order.drop_last());
    }
}

} // verus!
