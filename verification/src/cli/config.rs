//! The command-line tool's configuration: display, forge credentials and languages.
use vstd::prelude::*;

pub use crate::config::{DisplayConfig, ForgeConfig, LogLevel};
use crate::config::{copy_opt, opt_str, ForgeConfigView};
use crate::language::{all_languages, spec_language_name, SourceLanguage};
use crate::pipeline::copy_strings;

verus! {

/// Which languages are extracted, and how `.h` files are read.
#[derive(Debug, Clone)]
pub struct LanguagesConfig {
    pub headers_as_cpp: bool,
    /// Names of the languages to extract.
    pub included: Vec<String>,
}

/// Views of a list of strings.
pub open spec fn views(v: Seq<String>) -> Seq<Seq<char>> {
    v.map_values(|s: String| s@)
}

/// The names of every language, in declaration order.
pub open spec fn all_language_names() -> Seq<Seq<char>> {
    all_languages().map_values(|l: SourceLanguage| spec_language_name(l))
}

impl Default for LanguagesConfig {
    fn default() -> (r: LanguagesConfig)
        ensures
            !r.headers_as_cpp,
            views(r.included@) == all_language_names(),
    {
        let langs = SourceLanguage::iter();
        let mut included: Vec<String> = Vec::new();
        let mut i: usize = 0;
        while i < langs.len()
            invariant
                0 <= i <= langs@.len(),
                langs@ == all_languages(),
                views(included@) == all_languages().subrange(0, i as int).map_values(
                    |l: SourceLanguage| spec_language_name(l),
                ),
            decreases langs.len() - i,
        {
            let name = langs[i].to_string();
            let ghost before = included@;
            included.push(name);
            assert(views(included@) =~= views(before).push(name@));
            assert(all_languages().subrange(0, i + 1).map_values(
                |l: SourceLanguage| spec_language_name(l),
            ) =~= all_languages().subrange(0, i as int).map_values(
                |l: SourceLanguage| spec_language_name(l),
            ).push(spec_language_name(langs@[i as int])));
            i = i + 1;
        }
        assert(all_languages().subrange(0, 9) == all_languages());
        LanguagesConfig { headers_as_cpp: false, included }
    }
}

/// The tool's whole configuration.
#[derive(Debug, Clone)]
pub struct Config {
    pub display: DisplayConfig,
    pub forge: ForgeConfig,
    pub languages: LanguagesConfig,
}

/// A configuration as plain values.
#[verifier::ext_equal]
pub struct ConfigView {
    pub display: DisplayConfig,
    pub forge: ForgeConfigView,
    pub headers_as_cpp: bool,
    pub included: Seq<Seq<char>>,
}

impl View for Config {
    type V = ConfigView;

    open spec fn view(&self) -> ConfigView {
        ConfigView {
            display: self.display,
            forge: self.forge@,
            headers_as_cpp: self.languages.headers_as_cpp,
            included: views(self.languages.included@),
        }
    }
}

impl Default for Config {
    fn default() -> (r: Config)
        ensures
            r.display == (DisplayConfig {
                progress: true,
                console_log_level: LogLevel::Off,
                file_log_level: LogLevel::Info,
            }),
            r.forge.github_token is None,
            r.forge.gitlab_token is None,
            !r.languages.headers_as_cpp,
            views(r.languages.included@) == all_language_names(),
    {
        Config {
            display: DisplayConfig::default(),
            forge: ForgeConfig::default(),
            languages: LanguagesConfig::default(),
        }
    }
}

impl Config {
    /// A copy of the configuration.
    pub fn duplicate(&self) -> (r: Config)
        ensures
            r@ == self@,
    {
        Config {
            display: self.display,
            forge: ForgeConfig {
                github_token: copy_opt(&self.forge.github_token),
                gitlab_token: copy_opt(&self.forge.gitlab_token),
            },
            languages: LanguagesConfig {
                headers_as_cpp: self.languages.headers_as_cpp,
                included: copy_strings(&self.languages.included),
            },
        }
    }
}

/// The configuration the tool works with.
#[derive(Debug)]
pub struct ConfigStore {
    config: Config,
}

impl ConfigStore {
    /// The held configuration, in specifications.
    pub closed spec fn spec_config(&self) -> ConfigView {
        self.config@
    }

    /// A store holding `config`, as loaded (or the default when loading failed).
    pub fn new(config: Config) -> (r: Self)
        ensures
            r.spec_config() == config@,
    {
        ConfigStore { config }
    }
}

/// A copy of the held configuration.
pub fn get(store: &ConfigStore) -> (r: Config)
    ensures
        r@ == store.spec_config(),
{
    store.config.duplicate()
}

/// A change to one setting.
#[derive(Debug, Clone)]
pub enum ConfigEdit {
    Progress(bool),
    ConsoleLogLevel(LogLevel),
    FileLogLevel(LogLevel),
    GithubToken(Option<String>),
    GitlabToken(Option<String>),
    HeadersAsCpp(bool),
    Included(Vec<String>),
}

/// The configuration after a change: the one setting named takes the new value.
pub open spec fn spec_apply_edit(c: ConfigView, e: ConfigEdit) -> ConfigView {
    match e {
        ConfigEdit::Progress(b) => ConfigView { display: DisplayConfig { progress: b, ..c.display }, ..c },
        ConfigEdit::ConsoleLogLevel(l) => ConfigView {
            display: DisplayConfig { console_log_level: l, ..c.display },
            ..c
        },
        ConfigEdit::FileLogLevel(l) => ConfigView {
            display: DisplayConfig { file_log_level: l, ..c.display },
            ..c
        },
        ConfigEdit::GithubToken(t) => ConfigView {
            forge: ForgeConfigView { github_token: opt_str(t), ..c.forge },
            ..c
        },
        ConfigEdit::GitlabToken(t) => ConfigView {
            forge: ForgeConfigView { gitlab_token: opt_str(t), ..c.forge },
            ..c
        },
        ConfigEdit::HeadersAsCpp(b) => ConfigView { headers_as_cpp: b, ..c },
        ConfigEdit::Included(names) => ConfigView { included: views(names@), ..c },
    }
}

/// Applies a change to the held configuration and returns the configuration to save.
pub fn update(store: &mut ConfigStore, edit: ConfigEdit) -> (r: Config)
    ensures
        final(store).spec_config() == spec_apply_edit(old(store).spec_config(), edit),
        r@ == final(store).spec_config(),
{
    match edit {
        ConfigEdit::Progress(b) => {
            store.config.display.progress = b;
        },
        ConfigEdit::ConsoleLogLevel(l) => {
            store.config.display.console_log_level = l;
        },
        ConfigEdit::FileLogLevel(l) => {
            store.config.display.file_log_level = l;
        },
        ConfigEdit::GithubToken(t) => {
            store.config.forge.github_token = t;
        },
        ConfigEdit::GitlabToken(t) => {
            store.config.forge.gitlab_token = t;
        },
        ConfigEdit::HeadersAsCpp(b) => {
            store.config.languages.headers_as_cpp = b;
        },
        ConfigEdit::Included(names) => {
            store.config.languages.included = names;
        },
    }
    store.config.duplicate()
}

/// Whether two changes set the same setting.
pub open spec fn same_setting(a: ConfigEdit, b: ConfigEdit) -> bool {
    match (a, b) {
        (ConfigEdit::Progress(_), ConfigEdit::Progress(_)) => true,
        (ConfigEdit::ConsoleLogLevel(_), ConfigEdit::ConsoleLogLevel(_)) => true,
        (ConfigEdit::FileLogLevel(_), ConfigEdit::FileLogLevel(_)) => true,
        (ConfigEdit::GithubToken(_), ConfigEdit::GithubToken(_)) => true,
        (ConfigEdit::GitlabToken(_), ConfigEdit::GitlabToken(_)) => true,
        (ConfigEdit::HeadersAsCpp(_), ConfigEdit::HeadersAsCpp(_)) => true,
        (ConfigEdit::Included(_), ConfigEdit::Included(_)) => true,
        _ => false,
    }
}

/// Law: after a change, the setting it names reads back the value written.
pub proof fn lemma_read_after_write(c: ConfigView, e: ConfigEdit)
    ensures
        match e {
            ConfigEdit::Progress(b) => spec_apply_edit(c, e).display.progress == b,
            ConfigEdit::ConsoleLogLevel(l) => spec_apply_edit(c, e).display.console_log_level == l,
            ConfigEdit::FileLogLevel(l) => spec_apply_edit(c, e).display.file_log_level == l,
            ConfigEdit::GithubToken(t) => spec_apply_edit(c, e).forge.github_token == opt_str(t),
            ConfigEdit::GitlabToken(t) => spec_apply_edit(c, e).forge.gitlab_token == opt_str(t),
            ConfigEdit::HeadersAsCpp(b) => spec_apply_edit(c, e).headers_as_cpp == b,
            ConfigEdit::Included(names) => spec_apply_edit(c, e).included == views(names@),
        },
{
}

/// Law: changes to different settings can be made in either order.
pub proof fn lemma_edits_commute(c: ConfigView, a: ConfigEdit, b: ConfigEdit)
    requires
        !same_setting(a, b),
    ensures
        spec_apply_edit(spec_apply_edit(c, a), b) == spec_apply_edit(spec_apply_edit(c, b), a),
{
    assert(spec_apply_edit(spec_apply_edit(c, a), b) =~= spec_apply_edit(spec_apply_edit(c, b), a));
}

/// Law: of two changes to the same setting, the later one wins; in particular a change made
/// twice leaves the configuration as making it once.
pub proof fn lemma_last_edit_wins(c: ConfigView, a: ConfigEdit, b: ConfigEdit)
    requires
        same_setting(a, b),
    ensures
        spec_apply_edit(spec_apply_edit(c, a), b) == spec_apply_edit(c, b),
{
    assert(spec_apply_edit(spec_apply_edit(c, a), b) =~= spec_apply_edit(c, b));
}

/// What the `config` command does.
#[derive(Debug, Clone, Copy, PartialEq, Eq, Structural)]
pub enum ConfigAction {
    /// Print the whole configuration.
    ShowAll,
    /// Print where the configuration file is.
    ShowPath,
    /// A setting subcommand, not yet carried out.
    Unavailable,
}

/// The `config` command's flags decide what it does: showing everything first, then the
/// path; otherwise the subcommand.
pub fn config_action(show_all: bool, show_path: bool) -> (r: ConfigAction)
    ensures
        show_all ==> r == ConfigAction::ShowAll,
        !show_all && show_path ==> r == ConfigAction::ShowPath,
        !show_all && !show_path ==> r == ConfigAction::Unavailable,
{
    if show_all {
        ConfigAction::ShowAll
    } else if show_path {
        ConfigAction::ShowPath
    } else {
        ConfigAction::Unavailable
    }
}

/// The console log level for a verbosity count.
pub fn console_level(verbosity: u8) -> (r: LogLevel)
    ensures
        r == crate::config::spec_level_of(verbosity),
{
    LogLevel::from(verbosity)
}

} // verus!
