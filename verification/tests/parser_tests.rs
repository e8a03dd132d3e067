use codablellm::function::parsed::{apply_function_edits, edit_order, ParsedFunctions};
use codablellm::function::{Descriptor, Location, Span};
use codablellm::language::{Language, SourceLanguage};
use codablellm::parser::{compute_edit, grammar_for, parse, point_at, source_language, Error, Grammar, ParsedCode};
use codablellm::syntax::Point;

const C_CODE: &str = "int add(int a, int b) {\n    return a + b;\n}\n\nstatic void noop(void) {}\n";

#[test]
fn finds_c_functions() {
    let code = parse(SourceLanguage::C, C_CODE.as_bytes().to_vec()).expect("C parses");
    let mut functions = ParsedFunctions::new(code);
    let fs = functions.functions().expect("query runs").to_vec();
    let names: Vec<&str> = fs.iter().map(|f| f.name.as_str()).collect();
    assert_eq!(names, ["add", "noop"]);
    assert_eq!(fs[0].definition, "int add(int a, int b) {\n    return a + b;\n}");
    let loc = fs[0].location.as_ref().unwrap();
    assert_eq!(loc.bytes_range, Span { start: 0, end: 43 });
    assert_eq!(loc.line_range, Span { start: 0, end: 2 });
    assert_eq!(loc.column_range, Span { start: 0, end: 1 });
    assert_eq!(loc.source, "");
    assert_eq!(fs[1].language, Language::Source(SourceLanguage::C));
}

#[test]
fn finds_python_and_rust_functions() {
    let code = parse(SourceLanguage::Python, b"def f(x):\n    return x\n\nclass A:\n    def g(self):\n        pass\n".to_vec()).unwrap();
    let mut functions = ParsedFunctions::new(code);
    let names: Vec<String> = functions.functions().unwrap().iter().map(|f| f.name.clone()).collect();
    assert_eq!(names, ["f", "g"]);
    let code = parse(SourceLanguage::Rust, b"fn main() {}\nimpl S { fn m(&self) {} }\n".to_vec()).unwrap();
    let mut functions = ParsedFunctions::new(code);
    let names: Vec<String> = functions.functions().unwrap().iter().map(|f| f.name.clone()).collect();
    assert_eq!(names, ["main", "m"]);
}

#[test]
fn tsx_files_use_the_tsx_grammar() {
    let code = ParsedCode::try_from_path_with_options("ui/App.tsx", b"function App() { return <div/>; }".to_vec(), false).unwrap();
    assert_eq!(*code.language(), SourceLanguage::TypeScript);
    let mut functions = ParsedFunctions::new(code);
    let names: Vec<String> = functions.functions().unwrap().iter().map(|f| f.name.clone()).collect();
    assert_eq!(names, ["App"]);
    let code = ParsedCode::new(SourceLanguage::TypeScript, b"const x = 1;".to_vec(), Some("ui/App.TSX".to_string())).unwrap();
    assert_eq!(code.source(), &Some("ui/App.TSX".to_string()));
    assert!(ParsedCode::try_from_path_with_options("ui/App.TSX", Vec::new(), false).is_err());
    assert_eq!(grammar_for(SourceLanguage::TypeScript, &Some("ui/App.TSX".to_string())), Grammar::Tsx);
    assert_eq!(grammar_for(SourceLanguage::TypeScript, &Some("ui/app.ts".to_string())), Grammar::TypeScript);
    assert_eq!(grammar_for(SourceLanguage::JavaScript, &Some("ui/app.tsx".to_string())), Grammar::JavaScript);
    assert_eq!(grammar_for(SourceLanguage::TypeScript, &None), Grammar::TypeScript);
}

#[test]
fn unknown_language_is_an_error() {
    match ParsedCode::try_from_path_with_options("notes.txt", Vec::new(), false) {
        Err(Error::UnknownLanguage { file }) => assert_eq!(file, "notes.txt"),
        other => panic!("unexpected: {:?}", other.map(|_| ())),
    }
}

#[test]
fn headers_as_cpp() {
    assert_eq!(source_language("x.h", false), Some(SourceLanguage::C));
    assert_eq!(source_language("x.h", true), Some(SourceLanguage::Cpp));
    assert_eq!(source_language("x.c", true), Some(SourceLanguage::C));
    assert_eq!(source_language("x.txt", true), None);
    let _ = Grammar::Tsx;
}

#[test]
fn point_at_counts_rows_and_columns() {
    let text = b"ab\ncde\n\nf";
    assert_eq!(point_at(text, 0), Point { row: 0, column: 0 });
    assert_eq!(point_at(text, 2), Point { row: 0, column: 2 });
    assert_eq!(point_at(text, 3), Point { row: 1, column: 0 });
    assert_eq!(point_at(text, 5), Point { row: 1, column: 2 });
    assert_eq!(point_at(text, 8), Point { row: 3, column: 0 });
    assert_eq!(point_at(text, 9), Point { row: 3, column: 1 });
}

#[test]
fn compute_edit_finds_the_changed_middle() {
    let e = compute_edit(b"hello world", b"hello brave world");
    assert_eq!((e.start_byte, e.old_end_byte, e.new_end_byte), (6, 6, 12));
    let e = compute_edit(b"aaa", b"aa");
    assert_eq!((e.start_byte, e.old_end_byte, e.new_end_byte), (2, 3, 2));
    let e = compute_edit(b"x\nyz", b"x\nqz");
    assert_eq!((e.start_byte, e.old_end_byte, e.new_end_byte), (2, 3, 3));
    assert_eq!(e.start_position, Point { row: 1, column: 0 });
    assert_eq!(e.old_end_position, Point { row: 1, column: 1 });
    for (old, new) in [(&b"abcdef"[..], &b"abXYef"[..]), (b"", b"new"), (b"gone", b""), (b"aaaa", b"aa")] {
        let e = compute_edit(old, new);
        let mut rebuilt = old[..e.start_byte].to_vec();
        rebuilt.extend_from_slice(&new[e.start_byte..e.new_end_byte]);
        rebuilt.extend_from_slice(&old[e.old_end_byte..]);
        assert_eq!(rebuilt, new);
    }
    let e = compute_edit(b"same", b"same");
    assert_eq!((e.start_byte, e.old_end_byte, e.new_end_byte), (4, 4, 4));
}

#[test]
fn edited_code_is_reparsed() {
    let mut code = parse(SourceLanguage::C, b"int f(void) { return 1; }".to_vec()).unwrap();
    code.edit(b"int g(void) { return 1; }".to_vec()).unwrap();
    assert_eq!(code.code(), b"int g(void) { return 1; }");
    let mut functions = ParsedFunctions::new(code);
    let names: Vec<String> = functions.functions().unwrap().iter().map(|f| f.name.clone()).collect();
    assert_eq!(names, ["g"]);
}

fn located(name: &str, definition: &str, start: usize) -> Descriptor {
    Descriptor {
        name: name.to_string(),
        definition: definition.to_string(),
        language: Language::Source(SourceLanguage::C),
        location: Some(Location {
            source: "m.c".to_string(),
            bytes_range: Span { start, end: start + definition.len() },
            line_range: Span { start: 0, end: 0 },
            column_range: Span { start, end: start + definition.len() },
        }),
    }
}

#[test]
fn edits_are_applied_back_to_front() {
    let code = b"AAA BB CCCC";
    let mut fs = vec![located("a", "AAA", 0), located("b", "BB", 4), located("c", "CCCC", 7)];
    assert_eq!(edit_order(&fs), vec![2, 1, 0]);
    let changes = vec![Some(("a2".to_string(), "aaaaa".to_string())), None, Some(("c".to_string(), "c".to_string()))];
    let (new_code, changed) = apply_function_edits(code, &mut fs, &changes);
    assert!(changed);
    assert_eq!(new_code, b"aaaaa BB c");
    assert_eq!(fs[0].name, "a2");
    assert_eq!(fs[0].definition, "aaaaa");
    assert_eq!(fs[1].definition, "BB");
    assert_eq!(fs[2].definition, "c");
}

#[test]
fn renaming_without_new_definition_keeps_code() {
    let code = b"AAA";
    let mut fs = vec![located("a", "AAA", 0)];
    let changes = vec![Some(("renamed".to_string(), "AAA".to_string()))];
    let (new_code, changed) = apply_function_edits(code, &mut fs, &changes);
    assert!(!changed);
    assert_eq!(new_code, b"AAA");
    assert_eq!(fs[0].name, "renamed");
}

#[test]
fn parsed_functions_edit_rewrites_the_code() {
    let code = parse(SourceLanguage::C, b"int f(void) { return 1; }\nint g(void) { return 2; }\n".to_vec()).unwrap();
    let mut functions = ParsedFunctions::new(code);
    let changes = vec![None, Some(("h".to_string(), "int h(void) { return 3; }".to_string()))];
    functions.edit(&changes).unwrap();
    assert_eq!(functions.code().code(), b"int f(void) { return 1; }\nint h(void) { return 3; }\n");
    let names: Vec<String> = functions.functions().unwrap().iter().map(|f| f.name.clone()).collect();
    assert_eq!(names, ["f", "h"]);
}

#[test]
fn parsing_files_by_extension() {
    let code = codablellm::parser::parse_file("src/lib.rs", b"fn f() {}".to_vec()).unwrap();
    assert_eq!(*code.language(), SourceLanguage::Rust);
    assert_eq!(code.source(), &Some("src/lib.rs".to_string()));
    assert!(codablellm::parser::parse_file("Makefile", b"all:".to_vec()).is_err());
}
