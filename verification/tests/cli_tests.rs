use codablellm::cli::args::DatasetOpts;
use codablellm::cli::config::{config_action, console_level, update, Config, ConfigAction, ConfigEdit, ConfigStore, LanguagesConfig, LogLevel};
use codablellm::cli::create::{
    check_output, dataset_mode, Answer, FormatChoice, Question, RepresentationChoice, Resolution, ResolveStep,
};
use codablellm::cli::dataset::ForgeChoice;
use codablellm::cli::resolver::{is_interactive, missing_argument_message, require_or_prompt, Requirement};
use codablellm::language::SourceLanguage;
use codablellm::pipeline::Mode;

#[test]
fn required_arguments() {
    assert_eq!(require_or_prompt(Some(3), "N", false), Requirement::Provided(3));
    assert_eq!(require_or_prompt::<u8>(None, "N", true), Requirement::Prompt);
    assert_eq!(
        require_or_prompt::<u8>(None, "NAME", false),
        Requirement::Missing("missing required argument <NAME> (running non-interactively)".to_string())
    );
    assert_eq!(missing_argument_message("REPO"), "missing required argument <REPO> (running non-interactively)");
    assert!(is_interactive(false, true));
    assert!(!is_interactive(true, true));
    assert!(!is_interactive(false, false));
}

#[test]
fn non_interactive_resolution_fails_on_missing_name() {
    let r = Resolution::new(None, Some("repo".to_string()), vec![], vec![]);
    assert_eq!(r.next_step(false), ResolveStep::Fail("missing required argument <NAME> (running non-interactively)".to_string()));
    assert_eq!(r.next_step(true), ResolveStep::Ask(Question::Name));
}

#[test]
fn complete_request_needs_nothing() {
    let r = Resolution::new(Some("ds".to_string()), Some("repo".to_string()), vec![], vec![]);
    assert_eq!(r.is_compiled(), Some(false));
    assert_eq!(r.next_step(false), ResolveStep::Done);
    let r = Resolution::new(Some("ds".to_string()), Some("repo".to_string()), vec!["bin".to_string()], vec!["make".to_string()]);
    assert_eq!(r.is_compiled(), Some(true));
    assert_eq!(r.next_step(false), ResolveStep::Done);
    let r = Resolution::new(Some("ds".to_string()), Some("repo".to_string()), vec!["bin".to_string()], vec![]);
    assert_eq!(r.next_step(false), ResolveStep::Fail("missing required argument <--build-commands> (running non-interactively)".to_string()));
}

#[test]
fn interactive_resolution_asks_in_turn() {
    let mut r = Resolution::new(None, None, vec![], vec![]);
    assert_eq!(r.next_step(true), ResolveStep::Ask(Question::Name));
    r.answer(Question::Name, Answer::Text("ds".to_string()));
    assert_eq!(r.next_step(true), ResolveStep::Ask(Question::Repo));
    r.answer(Question::Repo, Answer::Text("repo".to_string()));
    assert_eq!(r.next_step(true), ResolveStep::Ask(Question::IsCompiled));
    r.answer(Question::IsCompiled, Answer::Confirm(true));
    assert_eq!(r.next_step(true), ResolveStep::Ask(Question::Binaries));
    r.answer(Question::Binaries, Answer::List(vec!["out/app".to_string()]));
    assert_eq!(r.next_step(true), ResolveStep::Ask(Question::BuildCommands));
    r.answer(Question::BuildCommands, Answer::List(vec!["make".to_string()]));
    assert_eq!(r.next_step(true), ResolveStep::Done);
    assert_eq!(r.name.as_deref(), Some("ds"));
    r.answer(Question::Name, Answer::Confirm(true));
    assert_eq!(r.name.as_deref(), Some("ds"));
}

#[test]
fn declining_compiled_code_finishes() {
    let mut r = Resolution::new(None, Some("repo".to_string()), vec![], vec![]);
    r.answer(Question::Name, Answer::Text("ds".to_string()));
    assert_eq!(r.is_compiled(), None);
    r.answer(Question::IsCompiled, Answer::Confirm(false));
    assert_eq!(r.next_step(true), ResolveStep::Done);
}

#[test]
fn modes_of_datasets() {
    assert!(matches!(dataset_mode(&vec![], &vec!["make".to_string()], true, &vec![]), Mode::SourceOnly));
    let decompilers = vec!["Ghidra".to_string(), "angr".to_string(), "Ghidra".to_string()];
    match dataset_mode(&vec!["a".to_string()], &vec!["make".to_string()], true, &decompilers) {
        Mode::SourceAndBinary(m) => {
            assert_eq!(m.binaries, ["a"]);
            assert_eq!(m.build_commands, ["make"]);
            assert!(m.strip);
            assert_eq!(m.decompilers, ["Ghidra", "angr"]);
        }
        Mode::SourceOnly => panic!("binaries were given"),
    }
    match dataset_mode(&vec!["a".to_string()], &vec![], false, &vec![]) {
        Mode::SourceAndBinary(m) => {
            assert!(!m.strip);
            assert!(m.decompilers.is_empty());
        }
        Mode::SourceOnly => panic!("binaries were given"),
    }
}

#[test]
fn output_files_are_not_overwritten_unless_forced() {
    assert_eq!(check_output(Some("out.csv"), true, false), Err("out.csv already exists; pass --force/--overwrite to replace it".to_string()));
    assert_eq!(check_output(Some("out.csv"), true, true), Ok(()));
    assert_eq!(check_output(Some("out.csv"), false, false), Ok(()));
    assert_eq!(check_output(None, true, false), Ok(()));
}

#[test]
fn choices_have_lowercase_names() {
    assert_eq!(FormatChoice::Parquet.to_string(), "parquet");
    assert_eq!(RepresentationChoice::Decompiled.to_string(), "decompiled");
    assert_eq!(RepresentationChoice::defaults(), vec![RepresentationChoice::Source, RepresentationChoice::Decompiled, RepresentationChoice::Assembly]);
    assert_eq!(ForgeChoice::GitLab.to_string(), "gitlab");
    assert_eq!(ForgeChoice::Other.to_string(), "other");
}

#[test]
fn cli_configuration() {
    let l = LanguagesConfig::default();
    assert!(!l.headers_as_cpp);
    assert_eq!(l.included, ["c", "c++", "python", "javascript", "typescript", "go", "rust", "java", "c#"]);
    let mut store = ConfigStore::new(Config::default());
    let c = update(&mut store, ConfigEdit::HeadersAsCpp(true));
    assert!(c.languages.headers_as_cpp);
    let c = update(&mut store, ConfigEdit::Included(vec!["go".to_string()]));
    assert_eq!(c.languages.included, ["go"]);
    assert!(c.languages.headers_as_cpp);
    assert_eq!(config_action(true, true), ConfigAction::ShowAll);
    assert_eq!(config_action(false, true), ConfigAction::ShowPath);
    assert_eq!(config_action(false, false), ConfigAction::Unavailable);
    assert_eq!(console_level(0), LogLevel::Off);
    assert_eq!(console_level(3), LogLevel::Info);
    assert_eq!(console_level(9), LogLevel::Error);
    assert_eq!(DatasetOpts::default().languages, SourceLanguage::iter());
}
