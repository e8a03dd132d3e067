use codablellm::dataset::{Dataset, Kind, Script, ScriptEngine, ScriptHook, ScriptOptions, SourceDataset, source_columns};
use codablellm::extractor::{collect_functions, extract_file, Options};
use codablellm::function::{Descriptor, Location, Span};
use codablellm::language::{Language, SourceLanguage};
use codablellm::parser::Error;
use codablellm::progress::{BarKind, ProgressDisplay};
use codablellm::storage::{check_copy, copies_file, entry_destination, plan_removal, state_dir, Error as StorageError, Removal};

#[test]
fn extracting_a_file() {
    let fs = extract_file("lib/a.c", b"int a(void) { return 0; }\nint b(void) { return 1; }\n".to_vec(), &Options::default()).unwrap();
    let names: Vec<&str> = fs.iter().map(|f| f.name.as_str()).collect();
    assert_eq!(names, ["a", "b"]);
    assert_eq!(fs[1].location.as_ref().unwrap().line_range.start, 1);
    let fs = extract_file("x.h", b"static int h(void) { return 2; }".to_vec(), &Options { headers_as_cpp: true }).unwrap();
    assert_eq!(fs[0].language, Language::Source(SourceLanguage::C));
    match extract_file("README", Vec::new(), &Options::default()) {
        Err(Error::UnknownLanguage { file }) => assert_eq!(file, "README"),
        other => panic!("unexpected {:?}", other.map(|v| v.len())),
    }
}

fn named(name: &str) -> Descriptor {
    Descriptor { name: name.to_string(), definition: String::new(), language: Language::PseudoC, location: None }
}

#[test]
fn collecting_skips_failed_files() {
    let results = vec![
        Ok(vec![named("a"), named("b")]),
        Err(Error::UnknownLanguage { file: "x".to_string() }),
        Ok(vec![]),
        Ok(vec![named("c")]),
    ];
    let names: Vec<String> = collect_functions(results).into_iter().map(|f| f.name).collect();
    assert_eq!(names, ["a", "b", "c"]);
}

#[test]
fn storage_decisions() {
    assert_eq!(plan_removal("dataset", "/d/x", true, true).unwrap(), Removal::Directory);
    assert_eq!(plan_removal("dataset", "/d/x", true, false).unwrap(), Removal::File);
    let e = plan_removal("dataset", "/d/x", false, false).unwrap_err();
    assert!(matches!(&e, StorageError::DataNotFound { kind, name } if kind == "dataset" && name == "/d/x"));
    assert_eq!(e.message(), "dataset \"/d/x\": dataset does not exist");
    let e = check_copy("script", "s.rhai", true, false).unwrap_err();
    assert_eq!(e.message(), "script \"s.rhai\": script already exists");
    assert!(check_copy("script", "s.rhai", true, true).is_ok());
    assert!(check_copy("script", "s.rhai", false, false).is_ok());
    assert!(copies_file(false, false) && copies_file(true, true) && !copies_file(false, true));
    assert_eq!(entry_destination("/dst", "f.txt"), "/dst/f.txt");
    assert_eq!(state_dir(None, "/home/u/.local/share/codablellm"), "/home/u/.local/share/codablellm/state");
    assert_eq!(state_dir(Some("/state".to_string()), "/data"), "/state");
}

#[test]
fn source_datasets() {
    let fs = vec![named("f"), named("g")];
    let cols = source_columns(&fs);
    assert_eq!(cols[0].0, "name");
    assert_eq!(cols[0].1, ["f", "g"]);
    assert_eq!(cols[1].0, "definitions");
    assert_eq!(cols[1].1, ["f", "g"]);
    let mut d = SourceDataset::new(&fs).ok().unwrap();
    assert_eq!(d.df().shape(), (2, 2));
    let names = d.df().column("name").unwrap().str().unwrap();
    assert_eq!(names.get(0), Some("f"));
    assert_eq!(names.get(1), Some("g"));
    assert_eq!(d.df().column("definitions").unwrap().str().unwrap().get(1), Some("g"));
    assert_eq!(d.df_mut().width(), 2);
    let k = Kind::Source(d);
    assert_eq!(k.df().get_column_names()[1].as_str(), "definitions");
    assert_eq!(SourceDataset::new(&vec![]).ok().unwrap().df().height(), 0);
}

#[test]
fn scripts_and_hooks() {
    assert_eq!(ScriptHook::default(), ScriptHook::Post);
    assert_eq!(ScriptEngine::default(), ScriptEngine::Auto);
    assert_eq!(Script::new("a.sh").unwrap().engine, ScriptEngine::Auto);
    let o = ScriptOptions { engine: ScriptEngine::Shell, rename: Some("b".to_string()) };
    assert_eq!(Script::new_with_options("a.sh", &o).unwrap().engine, ScriptEngine::Shell);
}

#[test]
fn progress_bars() {
    assert_eq!(ProgressDisplay::Hidden.bar_kind(Some(3), false), BarKind::Hidden);
    assert_eq!(ProgressDisplay::Standalone.bar_kind(Some(3), true), BarKind::Sized(3));
    assert_eq!(ProgressDisplay::Standalone.bar_kind(None, true), BarKind::Spinner);
    assert_eq!(ProgressDisplay::default().bar_kind(None, false), BarKind::NoLength);
    let multi = std::sync::Arc::new(indicatif::MultiProgress::new());
    assert_eq!(ProgressDisplay::Nested(multi).bar_kind(None, false), BarKind::NoLength);
}

fn rename_main(f: &Descriptor) -> Result<Option<Descriptor>, String> {
    if f.name == "main" {
        Ok(Some(Descriptor {
            name: "entry".to_string(),
            definition: f.definition.replace("main", "entry"),
            language: f.language,
            location: f.location.clone(),
        }))
    } else if f.name == "bad" {
        Err("cannot transform bad".to_string())
    } else {
        Ok(None)
    }
}

#[test]
fn transforms_rename_functions() {
    let f = named("main");
    match codablellm::extractor::apply(&rename_main, &f) {
        Ok(Some(g)) => assert_eq!(g.name, "entry"),
        other => panic!("unexpected {:?}", other.map(|o| o.map(|d| d.name))),
    }
    match codablellm::extractor::apply(&rename_main, &named("bad")) {
        Err(e) => {
            assert_eq!(e.function.name, "bad");
            assert_eq!(e.message, "cannot transform bad");
        }
        Ok(_) => panic!("the transform fails on bad"),
    }
    let changes = codablellm::extractor::transform_changes(&rename_main, &vec![named("main"), named("bad"), named("x")]);
    assert_eq!(changes, vec![Some(("entry".to_string(), String::new())), None, None]);
    let text = b"int main(void) { return 0; }\nint bad(void) { return 1; }\n".to_vec();
    let fs = codablellm::extractor::transform_file("t.c", text, &Options::default(), &rename_main).unwrap();
    let names: Vec<&str> = fs.iter().map(|f| f.name.as_str()).collect();
    assert_eq!(names, ["entry", "bad"]);
    assert_eq!(fs[0].definition, "int entry(void) { return 0; }");
}

fn at(name: &str, start: usize) -> Descriptor {
    Descriptor {
        name: name.to_string(),
        definition: String::new(),
        language: Language::Source(SourceLanguage::C),
        location: Some(Location {
            source: "t.c".to_string(),
            bytes_range: Span { start, end: start + 1 },
            line_range: Span { start: 0, end: 0 },
            column_range: Span { start: 0, end: 1 },
        }),
    }
}

#[test]
fn transform_is_consulted_back_to_front() {
    let seen = std::cell::RefCell::new(Vec::new());
    let record = |f: &Descriptor| -> Result<Option<Descriptor>, String> {
        seen.borrow_mut().push(f.name.clone());
        Ok(None)
    };
    let fs = vec![at("first", 0), at("third", 40), at("second", 20), named("unplaced")];
    let changes = codablellm::extractor::transform_changes(&record, &fs);
    assert_eq!(changes, vec![None, None, None, None]);
    assert_eq!(*seen.borrow(), ["third", "second", "first", "unplaced"]);
}
