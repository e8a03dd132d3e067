use codablellm::builder::{Architecture, OperatingSystem, Target, CONTAINER_NAME};
use codablellm::config::{get, update, Config, ConfigEdit, ConfigStore, DisplayConfig, LogLevel};
use codablellm::language::SourceLanguage;
use codablellm::pipeline::{pipeline_stages, repo_name, stage_implemented, BinaryMode, Error, Mode, Options, Stage};
use codablellm::repo::{source_file_patterns, Error as RepoError, Repository};

#[test]
fn stages_in_order() {
    let names: Vec<String> = Stage::iter().iter().map(|s| s.to_string()).collect();
    assert_eq!(names, ["loading", "extract_source_code", "build_code", "decompile_binaries", "map_code", "create_dataset"]);
    assert_eq!(Stage::iter_source(), vec![Stage::Loading, Stage::ExtractSourceCode, Stage::CreateDataset]);
    assert_eq!(Stage::default(), Stage::Loading);
    assert!(Stage::BuildCode.is_binary_stage());
    assert!(!Stage::CreateDataset.is_binary_stage());
}

#[test]
fn pipeline_stages_follow_the_mode() {
    assert_eq!(pipeline_stages(&Mode::SourceOnly), Stage::iter_source());
    let mode = Mode::SourceAndBinary(BinaryMode {
        build_commands: vec!["make".to_string()],
        binaries: vec!["a.out".to_string()],
        strip: true,
        decompilers: vec!["Ghidra".to_string()],
    });
    assert_eq!(pipeline_stages(&mode).len(), 6);
    let b = mode.as_binary_mode();
    assert_eq!(b.build_commands, ["make"]);
    assert_eq!(b.binaries, ["a.out"]);
    assert!(b.strip);
    assert_eq!(b.decompilers, ["Ghidra"]);
}

#[test]
fn repository_names() {
    assert_eq!(repo_name("/home/u/projects/zlib").unwrap(), "zlib");
    assert_eq!(repo_name("zlib/").unwrap(), "zlib");
    match repo_name("/") {
        Err(Error::InvalidRepoPath(p)) => assert_eq!(p, "/"),
        other => panic!("unexpected {:?}", other),
    }
    assert!(repo_name("a/..").is_err());
}

#[test]
fn implemented_stages() {
    assert!(stage_implemented(Stage::Loading));
    assert!(stage_implemented(Stage::ExtractSourceCode));
    assert!(!stage_implemented(Stage::MapCode));
    assert!(!stage_implemented(Stage::CreateDataset));
}

#[test]
fn default_options() {
    let o = Options::default();
    assert!(o.display_progress && o.save_state);
    assert!(!o.dry_run && !o.save_transformed_repos && !o.transform_in_place);
    assert!(o.cache_dir.is_none() && o.state_dir.is_none());
}

#[test]
fn repositories_must_be_directories() {
    let r = Repository::new("repo".to_string(), true).unwrap();
    assert_eq!(r.path, "repo");
    assert_eq!(r.languages, SourceLanguage::iter());
    match Repository::new("file.txt".to_string(), false) {
        Err(RepoError::NotADirectory { message }) => assert_eq!(message, "file.txt is not a directory"),
        Ok(_) => panic!("a file is no repository"),
    }
}

#[test]
fn glob_patterns_per_extension() {
    let r = Repository::new_with_languages("src".to_string(), vec![SourceLanguage::C, SourceLanguage::Go], true).unwrap();
    assert_eq!(r.source_file_patterns(), ["src/**/*.c", "src/**/*.h", "src/**/*.go"]);
    assert_eq!(source_file_patterns("r", &vec![SourceLanguage::TypeScript]), ["r/**/*.ts", "r/**/*.tsx"]);
    assert!(source_file_patterns("r", &vec![]).is_empty());
    assert_eq!(source_file_patterns("r", &SourceLanguage::iter()).len(), 23);
}

#[test]
fn builder_names() {
    assert_eq!(Target::Alpine.operating_system(), OperatingSystem::Linux);
    assert_eq!(Target::Windows.operating_system(), OperatingSystem::Windows);
    assert_eq!(Target::Ubuntu.platform(&Architecture::Arm64), "linux/arm64");
    assert_eq!(Target::Windows.platform(&Architecture::Amd64), "windows/amd64");
    assert_eq!(Target::Ubuntu.image(None), "dmanuel99/codablellm-builder:ubuntu-latest");
    assert_eq!(Target::Alpine.image(Some("1.2")), "dmanuel99/codablellm-builder:alpine-1.2");
    assert_eq!(CONTAINER_NAME, "codablellm-builder");
}

#[test]
fn log_levels_and_numbers() {
    let levels = [LogLevel::Off, LogLevel::Trace, LogLevel::Debug, LogLevel::Info, LogLevel::Warn, LogLevel::Error];
    for (n, l) in levels.iter().enumerate() {
        assert_eq!(u8::from(*l), n as u8);
        assert_eq!(LogLevel::from(n as u8), *l);
    }
    assert_eq!(LogLevel::from(200u8), LogLevel::Error);
    assert_eq!(LogLevel::Warn.to_string(), "warn");
}

#[test]
fn config_defaults_and_updates() {
    let c = Config::default();
    assert_eq!(c.display, DisplayConfig { progress: true, console_log_level: LogLevel::Off, file_log_level: LogLevel::Info });
    assert!(c.forge.github_token.is_none());
    let mut store = ConfigStore::new(c);
    let saved = update(&mut store, ConfigEdit::GithubToken(Some("SECRET-REDACTED".to_string())));
    assert_eq!(saved.forge.github_token.as_deref(), Some("SECRET-REDACTED"));
    let saved = update(&mut store, ConfigEdit::ConsoleLogLevel(LogLevel::Debug));
    assert_eq!(saved.display.console_log_level, LogLevel::Debug);
    assert_eq!(saved.forge.github_token.as_deref(), Some("SECRET-REDACTED"));
    let now = get(&store);
    assert_eq!(now.display.console_log_level, LogLevel::Debug);
    assert!(now.display.progress);
    update(&mut store, ConfigEdit::Progress(false));
    update(&mut store, ConfigEdit::Progress(false));
    assert!(!get(&store).display.progress);
}

#[test]
fn edits_of_different_settings_commute() {
    let mut a = ConfigStore::new(Config::default());
    update(&mut a, ConfigEdit::FileLogLevel(LogLevel::Trace));
    update(&mut a, ConfigEdit::GitlabToken(Some("t".to_string())));
    let mut b = ConfigStore::new(Config::default());
    update(&mut b, ConfigEdit::GitlabToken(Some("t".to_string())));
    update(&mut b, ConfigEdit::FileLogLevel(LogLevel::Trace));
    let (a, b) = (get(&a), get(&b));
    assert_eq!(a.display, b.display);
    assert_eq!(a.forge.gitlab_token, b.forge.gitlab_token);
    let mut c = ConfigStore::new(Config::default());
    update(&mut c, ConfigEdit::FileLogLevel(LogLevel::Trace));
    update(&mut c, ConfigEdit::FileLogLevel(LogLevel::Warn));
    assert_eq!(get(&c).display.file_log_level, LogLevel::Warn);
}
