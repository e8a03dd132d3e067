//! User configuration: display and logging preferences and forge credentials.
use vstd::prelude::*;

verus! {

/// How much is logged.
#[derive(Debug, Clone, Copy, PartialEq, Eq, Structural)]
pub enum LogLevel {
    Off,
    Trace,
    Debug,
    Info,
    Warn,
    Error,
}

/// The lowercase name of a log level.
pub open spec fn spec_level_name(l: LogLevel) -> Seq<char> {
    match l {
        LogLevel::Off => "off"@,
        LogLevel::Trace => "trace"@,
        LogLevel::Debug => "debug"@,
        LogLevel::Info => "info"@,
        LogLevel::Warn => "warn"@,
        LogLevel::Error => "error"@,
    }
}

/// The number of a log level, from 0 (off) to 5 (error).
pub open spec fn spec_level_number(l: LogLevel) -> u8 {
    match l {
        LogLevel::Off => 0,
        LogLevel::Trace => 1,
        LogLevel::Debug => 2,
        LogLevel::Info => 3,
        LogLevel::Warn => 4,
        LogLevel::Error => 5,
    }
}

/// The log level of a number: 0 to 4 as numbered, anything greater is `Error`.
pub open spec fn spec_level_of(n: u8) -> LogLevel {
    if n == 0 {
        LogLevel::Off
    } else if n == 1 {
        LogLevel::Trace
    } else if n == 2 {
        LogLevel::Debug
    } else if n == 3 {
        LogLevel::Info
    } else if n == 4 {
        LogLevel::Warn
    } else {
        LogLevel::Error
    }
}

impl LogLevel {
    /// The lowercase name of the level.
    pub fn to_string(&self) -> (r: String)
        ensures
            r@ == spec_level_name(*self),
    {
        let name: &str = match self {
            LogLevel::Off => "off",
            LogLevel::Trace => "trace",
            LogLevel::Debug => "debug",
            LogLevel::Info => "info",
            LogLevel::Warn => "warn",
            LogLevel::Error => "error",
        };
        name.to_owned()
    }
}

impl From<LogLevel> for u8 {
    fn from(value: LogLevel) -> (r: u8) {
        match value {
            LogLevel::Off => 0,
            LogLevel::Trace => 1,
            LogLevel::Debug => 2,
            LogLevel::Info => 3,
            LogLevel::Warn => 4,
            LogLevel::Error => 5,
        }
    }
}

impl vstd::std_specs::convert::FromSpecImpl<LogLevel> for u8 {
    open spec fn obeys_from_spec() -> bool {
        true
    }

    open spec fn from_spec(value: LogLevel) -> u8 {
        spec_level_number(value)
    }
}

impl From<u8> for LogLevel {
    fn from(value: u8) -> (r: LogLevel) {
        if value == 0 {
            LogLevel::Off
        } else if value == 1 {
            LogLevel::Trace
        } else if value == 2 {
            LogLevel::Debug
        } else if value == 3 {
            LogLevel::Info
        } else if value == 4 {
            LogLevel::Warn
        } else {
            LogLevel::Error
        }
    }
}

impl vstd::std_specs::convert::FromSpecImpl<u8> for LogLevel {
    open spec fn obeys_from_spec() -> bool {
        true
    }

    open spec fn from_spec(value: u8) -> LogLevel {
        spec_level_of(value)
    }
}

/// Law: a log level survives the trip through its number.
pub proof fn lemma_level_number_roundtrip(l: LogLevel)
    ensures
        spec_level_of(spec_level_number(l)) == l,
{
}

/// Law: a number up to 5 survives the trip through its log level; greater numbers come back
/// as 5.
pub proof fn lemma_number_level_roundtrip(n: u8)
    ensures
        n <= 5 ==> spec_level_number(spec_level_of(n)) == n,
        n > 5 ==> spec_level_number(spec_level_of(n)) == 5,
{
}

/// What is shown while the tool runs and how much is logged.
#[derive(Debug, Clone, Copy, PartialEq, Eq, Structural)]
pub struct DisplayConfig {
    pub progress: bool,
    pub console_log_level: LogLevel,
    pub file_log_level: LogLevel,
}

impl Default for DisplayConfig {
    fn default() -> (r: DisplayConfig)
        ensures
            r == (DisplayConfig {
                progress: true,
                console_log_level: LogLevel::Off,
                file_log_level: LogLevel::Info,
            }),
    {
        DisplayConfig {
            progress: true,
            console_log_level: LogLevel::Off,
            file_log_level: LogLevel::Info,
        }
    }
}

/// Access tokens for code forges.
#[derive(Debug, Clone)]
pub struct ForgeConfig {
    pub github_token: Option<String>,
    pub gitlab_token: Option<String>,
}

/// Forge tokens as plain values.
#[verifier::ext_equal]
pub struct ForgeConfigView {
    pub github_token: Option<Seq<char>>,
    pub gitlab_token: Option<Seq<char>>,
}

/// An optional string as plain values.
pub open spec fn opt_str(o: Option<String>) -> Option<Seq<char>> {
    match o {
        Some(s) => Some(s@),
        None => None,
    }
}

impl View for ForgeConfig {
    type V = ForgeConfigView;

    open spec fn view(&self) -> ForgeConfigView {
        ForgeConfigView {
            github_token: opt_str(self.github_token),
            gitlab_token: opt_str(self.gitlab_token),
        }
    }
}

/// A copy of an optional string.
pub fn copy_opt(o: &Option<String>) -> (r: Option<String>)
    ensures
        opt_str(r) == opt_str(*o),
{
    match o {
        Some(s) => Some(s.clone()),
        None => None,
    }
}

impl Default for ForgeConfig {
    fn default() -> (r: ForgeConfig)
        ensures
            r.github_token is None,
            r.gitlab_token is None,
    {
        ForgeConfig { github_token: None, gitlab_token: None }
    }
}

/// The whole configuration.
#[derive(Debug, Clone)]
pub struct Config {
    pub display: DisplayConfig,
    pub forge: ForgeConfig,
}

/// A configuration as plain values.
#[verifier::ext_equal]
pub struct ConfigView {
    pub display: DisplayConfig,
    pub forge: ForgeConfigView,
}

impl View for Config {
    type V = ConfigView;

    open spec fn view(&self) -> ConfigView {
        ConfigView { display: self.display, forge: self.forge@ }
    }
}

impl Default for Config {
    fn default() -> (r: Config)
        ensures
            r.display == (DisplayConfig {
                progress: true,
                console_log_level: LogLevel::Off,
                file_log_level: LogLevel::Info,
            }),
            r.forge.github_token is None,
            r.forge.gitlab_token is None,
    {
        Config { display: DisplayConfig::default(), forge: ForgeConfig::default() }
    }
}

impl Config {
    /// A copy of the configuration.
    pub fn duplicate(&self) -> (r: Config)
        ensures
            r@ == self@,
    {
        Config {
            display: self.display,
            forge: ForgeConfig {
                github_token: copy_opt(&self.forge.github_token),
                gitlab_token: copy_opt(&self.forge.gitlab_token),
            },
        }
    }
}

/// A change to one setting.
#[derive(Debug, Clone)]
pub enum ConfigEdit {
    Progress(bool),
    ConsoleLogLevel(LogLevel),
    FileLogLevel(LogLevel),
    GithubToken(Option<String>),
    GitlabToken(Option<String>),
}

/// The configuration after a change: the one setting named takes the new value.
pub open spec fn spec_apply_edit(c: ConfigView, e: ConfigEdit) -> ConfigView {
    match e {
        ConfigEdit::Progress(b) => ConfigView { display: DisplayConfig { progress: b, ..c.display }, ..c },
        ConfigEdit::ConsoleLogLevel(l) => ConfigView {
            display: DisplayConfig { console_log_level: l, ..c.display },
            ..c
        },
        ConfigEdit::FileLogLevel(l) => ConfigView {
            display: DisplayConfig { file_log_level: l, ..c.display },
            ..c
        },
        ConfigEdit::GithubToken(t) => ConfigView {
            forge: ForgeConfigView { github_token: opt_str(t), ..c.forge },
            ..c
        },
        ConfigEdit::GitlabToken(t) => ConfigView {
            forge: ForgeConfigView { gitlab_token: opt_str(t), ..c.forge },
            ..c
        },
    }
}

/// Whether two changes set the same setting.
pub open spec fn same_setting(a: ConfigEdit, b: ConfigEdit) -> bool {
    match (a, b) {
        (ConfigEdit::Progress(_), ConfigEdit::Progress(_)) => true,
        (ConfigEdit::ConsoleLogLevel(_), ConfigEdit::ConsoleLogLevel(_)) => true,
        (ConfigEdit::FileLogLevel(_), ConfigEdit::FileLogLevel(_)) => true,
        (ConfigEdit::GithubToken(_), ConfigEdit::GithubToken(_)) => true,
        (ConfigEdit::GitlabToken(_), ConfigEdit::GitlabToken(_)) => true,
        _ => false,
    }
}

/// Law: after a change, the setting it names reads back the value written.
pub proof fn lemma_read_after_write(c: ConfigView, e: ConfigEdit)
    ensures
        match e {
            ConfigEdit::Progress(b) => spec_apply_edit(c, e).display.progress == b,
            ConfigEdit::ConsoleLogLevel(l) => spec_apply_edit(c, e).display.console_log_level == l,
            ConfigEdit::FileLogLevel(l) => spec_apply_edit(c, e).display.file_log_level == l,
            ConfigEdit::GithubToken(t) => spec_apply_edit(c, e).forge.github_token == opt_str(t),
            ConfigEdit::GitlabToken(t) => spec_apply_edit(c, e).forge.gitlab_token == opt_str(t),
        },
{
}

/// Law: making the same change twice leaves the configuration as making it once.
pub proof fn lemma_edit_idempotent(c: ConfigView, e: ConfigEdit)
    ensures
        spec_apply_edit(spec_apply_edit(c, e), e) == spec_apply_edit(c, e),
{
    assert(spec_apply_edit(spec_apply_edit(c, e), e) =~= spec_apply_edit(c, e));
}

/// Law: changes to different settings can be made in either order.
pub proof fn lemma_edits_commute(c: ConfigView, a: ConfigEdit, b: ConfigEdit)
    requires
        !same_setting(a, b),
    ensures
        spec_apply_edit(spec_apply_edit(c, a), b) == spec_apply_edit(spec_apply_edit(c, b), a),
{
    assert(spec_apply_edit(spec_apply_edit(c, a), b) =~= spec_apply_edit(spec_apply_edit(c, b), a));
}

/// Law: of two changes to the same setting, the later one wins.
pub proof fn lemma_last_edit_wins(c: ConfigView, a: ConfigEdit, b: ConfigEdit)
    requires
        same_setting(a, b),
    ensures
        spec_apply_edit(spec_apply_edit(c, a), b) == spec_apply_edit(c, b),
{
    assert(spec_apply_edit(spec_apply_edit(c, a), b) =~= spec_apply_edit(c, b));
}

/// The configuration the process works with.
#[derive(Debug)]
pub struct ConfigStore {
    config: Config,
}

impl ConfigStore {
    /// The held configuration, in specifications.
    pub closed spec fn spec_config(&self) -> ConfigView {
        self.config@
    }

    /// A store holding `config`, as loaded (or the default when loading failed).
    pub fn new(config: Config) -> (r: Self)
        ensures
            r.spec_config() == config@,
    {
        ConfigStore { config }
    }
}

/// A copy of the held configuration.
pub fn get(store: &ConfigStore) -> (r: Config)
    ensures
        r@ == store.spec_config(),
{
    store.config.duplicate()
}

/// Applies a change to the held configuration and returns the configuration to save.
pub fn update(store: &mut ConfigStore, edit: ConfigEdit) -> (r: Config)
    ensures
        final(store).spec_config() == spec_apply_edit(old(store).spec_config(), edit),
        r@ == final(store).spec_config(),
{
    match edit {
        ConfigEdit::Progress(b) => {
            store.config.display.progress = b;
        },
        ConfigEdit::ConsoleLogLevel(l) => {
            store.config.display.console_log_level = l;
        },
        ConfigEdit::FileLogLevel(l) => {
            store.config.display.file_log_level = l;
        },
        ConfigEdit::GithubToken(t) => {
            store.config.forge.github_token = t;
        },
        ConfigEdit::GitlabToken(t) => {
            store.config.forge.gitlab_token = t;
        },
    }
    store.config.duplicate()
}

} // verus!
