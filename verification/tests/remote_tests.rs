use codablellm::remote::extractor::{extract, extract_c_file, extract_python_file, SourceFile};
use codablellm::remote::pipeline::{run, Action, Event, Manager, Mode, Options, Stage, STAGE_COUNT};
use codablellm::remote::repo::{join_path, pull, url_to_dirname, Repo};
use codablellm::remote::types::{Event as TypedEvent, PipelineError, Stage as TypedStage};
use codablellm::remote::{hello, Error};
use codablellm::language::SourceLanguage;

#[test]
fn greeting() {
    assert_eq!(hello(), "Hello from codablellm-core!");
}

#[test]
fn url_directory_names() {
    assert_eq!(url_to_dirname("https://github.com/a/b/archive/main.tar.gz"), "github.com-a-b-archive-main.tar.gz");
    assert_eq!(url_to_dirname("http://x.org/r"), "x.org-r");
    assert_eq!(url_to_dirname("https://https://h/p"), "h-p");
    assert_eq!(url_to_dirname("https://http://h"), "h");
    assert_eq!(url_to_dirname("http://https://h"), "https:--h");
    assert_eq!(url_to_dirname("ftp://h/p"), "ftp:--h-p");
    assert_eq!(url_to_dirname(""), "");
}

#[test]
fn joining_paths() {
    assert_eq!(join_path("/cache/repos", "x"), "/cache/repos/x");
    assert_eq!(join_path("/cache/repos/", "x"), "/cache/repos/x");
    assert_eq!(join_path("", "x"), "x");
}

#[test]
fn pulled_repositories_live_under_the_root() {
    let r = pull("https://example.com/o/r.tar.gz", "/c/repos");
    assert_eq!(r.path(), "/c/repos/example.com-o-r.tar.gz");
    assert_eq!(r.target_languages, SourceLanguage::iter());
    let r = Repo::new("/tmp/r".to_string());
    assert_eq!(r.source_file_patterns()[0], "/tmp/r/**/*.c");
}

#[test]
fn a_full_build_completes() {
    let events = vec![
        Event::RepoPulled,
        Event::ContainerSetup,
        Event::SourceCodeExtracted,
        Event::CodeBuilt,
        Event::BinariesDecompiled,
        Event::CodeMapped,
        Event::DatasetCreated,
    ];
    assert_eq!(run(&events).unwrap(), Stage::Complete);
    assert_eq!(run(&events[..3].to_vec()).unwrap(), Stage::BuildCode);
    assert_eq!(run(&vec![]).unwrap(), Stage::Pulling);
    assert_eq!(STAGE_COUNT, 8);
}

#[test]
fn unexpected_events_are_invalid_transitions() {
    match Stage::Pulling.transition(Event::CodeBuilt) {
        Err(Error::InvalidTransition { stage, event }) => {
            assert_eq!(stage, "Pulling");
            assert_eq!(event, "CodeBuilt");
        }
        other => panic!("unexpected {:?}", other),
    }
    assert!(Stage::Complete.transition(Event::DatasetCreated).is_err());
    assert!(run(&vec![Event::RepoPulled, Event::RepoPulled, Event::ContainerSetup]).is_err());
    assert_eq!(Stage::default(), Stage::start());
}

#[test]
fn manager_steps() {
    let m = Manager::new("https://h/r".to_string(), Mode::SourceOnly);
    assert_eq!(m.step(), Action::Pull("https://h/r".to_string()));
    let mut m = m;
    m.stage = Stage::BuildCode;
    assert_eq!(m.step(), Action::Unavailable(Stage::BuildCode));
    m.stage = Stage::Complete;
    assert_eq!(m.step(), Action::Finish);
    assert!(!Options::default().display_progress);
}

#[test]
fn typed_transitions_keep_failures() {
    assert!(matches!(TypedStage::Pulling.transition(TypedEvent::PulledRepo), Ok(TypedStage::SetupContainer)));
    assert!(matches!(TypedStage::CreateDataset.transition(TypedEvent::DatasetCreated), Ok(TypedStage::Complete)));
    match TypedStage::MapCode.transition(TypedEvent::CriticalFailure("disk full".to_string())) {
        Err(PipelineError::InvalidTransition { stage: TypedStage::MapCode, event: TypedEvent::CriticalFailure(why) }) => {
            assert_eq!(why, "disk full")
        }
        other => panic!("unexpected {:?}", other),
    }
}

#[test]
fn remote_extraction() {
    let fs = extract_c_file("m.c", b"int one(void) { return 1; }".to_vec());
    assert_eq!(fs.len(), 1);
    assert_eq!(fs[0].name, "one");
    assert_eq!(fs[0].location.as_ref().unwrap().source, "m.c");
    let fs = extract_python_file("m.py", b"def a():\n    pass\n".to_vec());
    assert_eq!(fs[0].name, "a");
    let files = vec![
        SourceFile { path: "a.c".to_string(), text: b"void a(void) {}".to_vec() },
        SourceFile { path: "notes.txt".to_string(), text: b"void x(void) {}".to_vec() },
        SourceFile { path: "b.rs".to_string(), text: b"fn b() {} fn c() {}".to_vec() },
    ];
    let names: Vec<String> = extract(files).into_iter().map(|f| f.name).collect();
    assert_eq!(names, ["a", "b", "c"]);
}

#[test]
fn directory_names_hold_no_slash() {
    for url in ["https://a/b/c", "http://x//y/", "///", "https://https:///"] {
        assert!(!url_to_dirname(url).contains('/'), "{url}");
    }
}

#[test]
fn managers_advance_through_expected_events() {
    let mut m = Manager::new("u".to_string(), Mode::SourceOnly);
    m.advance(Event::RepoPulled).unwrap();
    assert_eq!(m.stage, Stage::SetupContainer);
    assert!(m.advance(Event::CodeBuilt).is_err());
    assert_eq!(m.stage, Stage::SetupContainer);
    assert_eq!(m.step(), Action::Unavailable(Stage::SetupContainer));
}
