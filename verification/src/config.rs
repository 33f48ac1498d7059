//! The configuration of the programs, and how the API key is found.
//!
//! Reading the configuration file, the environment, the output of a
//! command and the answer to a prompt is the caller's; what is done with
//! them is decided here.

use vstd::prelude::*;
use vstd::string::StrSliceExecFns;
use vstd::string::StringExecFns;
use crate::model::opt_text;
use crate::text::{blank, is_blank, trim, trimmed};

verus! {

/// Where the API key comes from.
#[derive(Debug, PartialEq, Eq)]
pub enum ApiKey {
    /// The key itself.
    Literal(String),
    /// The name of an environment variable that holds the key.
    Env { env: String },
    /// A shell command that prints the key.
    Cmd { cmd: String },
}

/// The mathematical value of an [`ApiKey`].
pub enum ApiKeyView {
    Literal(Seq<char>),
    Env { env: Seq<char> },
    Cmd { cmd: Seq<char> },
}

impl View for ApiKey {
    type V = ApiKeyView;

    open spec fn view(&self) -> ApiKeyView {
        match self {
            ApiKey::Literal(v) => ApiKeyView::Literal(v@),
            ApiKey::Env { env } => ApiKeyView::Env { env: env@ },
            ApiKey::Cmd { cmd } => ApiKeyView::Cmd { cmd: cmd@ },
        }
    }
}

/// What is shown of a goal.
#[derive(Debug, Clone, Copy, PartialEq, Eq, Structural)]
pub struct DisplayConfig {
    pub show_pledge: bool,
    pub show_last_value: bool,
    /// How many datapoints of a goal are fetched for editing.
    pub datapoints_limit: usize,
}

/// How the table program behaves.
#[derive(Debug, Clone, Copy, PartialEq, Eq, Structural)]
pub struct TuiConfig {
    pub refresh_on_start: bool,
}

/// The configuration.
#[derive(Debug, PartialEq, Eq)]
pub struct BeeConfig {
    pub api_key: ApiKey,
    pub default_user: Option<String>,
    pub display: DisplayConfig,
    pub tui: TuiConfig,
}

/// The mathematical value of a [`BeeConfig`].
pub struct BeeConfigView {
    pub api_key: ApiKeyView,
    pub default_user: Option<Seq<char>>,
    pub display: DisplayConfig,
    pub tui: TuiConfig,
}

impl View for BeeConfig {
    type V = BeeConfigView;

    open spec fn view(&self) -> BeeConfigView {
        BeeConfigView {
            api_key: self.api_key@,
            default_user: opt_text(self.default_user),
            display: self.display,
            tui: self.tui,
        }
    }
}

/// The setting of a switch that the configuration does not mention and that is on by default.
pub fn default_true() -> (r: bool)
    ensures
        r,
{
    true
}

/// The number of datapoints fetched for editing where the configuration names none.
pub fn default_datapoints_limit() -> (r: usize)
    ensures
        r == 20,
{
    20
}

impl Default for DisplayConfig {
    fn default() -> (r: Self)
        ensures
            r == (DisplayConfig { show_pledge: true, show_last_value: false, datapoints_limit: 20 }),
    {
        DisplayConfig {
            show_pledge: true,
            show_last_value: false,
            datapoints_limit: default_datapoints_limit(),
        }
    }
}

impl Default for TuiConfig {
    fn default() -> (r: Self)
        ensures
            r == (TuiConfig { refresh_on_start: true }),
    {
        TuiConfig { refresh_on_start: true }
    }
}

impl Default for BeeConfig {
    fn default() -> (r: Self)
        ensures
            r@ == (BeeConfigView {
                api_key: ApiKeyView::Literal(Seq::<char>::empty()),
                default_user: None,
                display: DisplayConfig {
                    show_pledge: true,
                    show_last_value: false,
                    datapoints_limit: 20,
                },
                tui: TuiConfig { refresh_on_start: true },
            }),
    {
        BeeConfig {
            api_key: ApiKey::Literal(String::new()),
            default_user: None,
            display: DisplayConfig::default(),
            tui: TuiConfig::default(),
        }
    }
}

/// Why no API key was found.
#[derive(Debug, PartialEq, Eq)]
pub enum BeeConfigError {
    /// The configuration holds no key, or the key found is blank.
    MissingApiKey,
    /// The environment variable is not set.
    MissingEnv { env: String },
    /// The command ran and failed; `message` is what it wrote to its error output.
    CommandFailed { cmd: String, message: String },
    /// The command could not be run; `source` says why.
    CommandExec { cmd: String, source: String },
    /// The command ran and printed nothing.
    CommandEmpty { cmd: String },
    /// A key is to be asked for, and nobody can be asked; `path` is the configuration file.
    NonInteractive { path: String },
}

/// The mathematical value of a [`BeeConfigError`].
pub enum ConfigErrorView {
    MissingApiKey,
    MissingEnv { env: Seq<char> },
    CommandFailed { cmd: Seq<char>, message: Seq<char> },
    CommandExec { cmd: Seq<char>, source: Seq<char> },
    CommandEmpty { cmd: Seq<char> },
    NonInteractive { path: Seq<char> },
}

impl View for BeeConfigError {
    type V = ConfigErrorView;

    open spec fn view(&self) -> ConfigErrorView {
        match self {
            BeeConfigError::MissingApiKey => ConfigErrorView::MissingApiKey,
            BeeConfigError::MissingEnv { env } => ConfigErrorView::MissingEnv { env: env@ },
            BeeConfigError::CommandFailed { cmd, message } => ConfigErrorView::CommandFailed {
                cmd: cmd@,
                message: message@,
            },
            BeeConfigError::CommandExec { cmd, source } => ConfigErrorView::CommandExec {
                cmd: cmd@,
                source: source@,
            },
            BeeConfigError::CommandEmpty { cmd } => ConfigErrorView::CommandEmpty { cmd: cmd@ },
            BeeConfigError::NonInteractive { path } => ConfigErrorView::NonInteractive {
                path: path@,
            },
        }
    }
}

/// What a command left behind.
#[derive(Debug, PartialEq, Eq)]
pub struct CommandOutput {
    /// Whether the command ended with success.
    pub success: bool,
    pub stdout: String,
    pub stderr: String,
}

/// What the caller found where the key pointed.
#[derive(Debug, PartialEq, Eq)]
pub enum KeyLookup {
    /// Nothing was looked up.
    Nothing,
    /// The value of the environment variable, if it is set.
    EnvValue(Option<String>),
    /// The command ran.
    CommandRan(CommandOutput),
    /// The command could not be run, for the reason given.
    CommandNotRun(String),
}

/// The mathematical value of a [`KeyLookup`].
pub enum LookupView {
    Nothing,
    EnvValue(Option<Seq<char>>),
    CommandRan { success: bool, stdout: Seq<char>, stderr: Seq<char> },
    CommandNotRun(Seq<char>),
}

impl View for KeyLookup {
    type V = LookupView;

    open spec fn view(&self) -> LookupView {
        match self {
            KeyLookup::Nothing => LookupView::Nothing,
            KeyLookup::EnvValue(v) => LookupView::EnvValue(opt_text(*v)),
            KeyLookup::CommandRan(o) => LookupView::CommandRan {
                success: o.success,
                stdout: o.stdout@,
                stderr: o.stderr@,
            },
            KeyLookup::CommandNotRun(why) => LookupView::CommandNotRun(why@),
        }
    }
}

/// The key that a text holds: the text without the white space around it,
/// unless nothing is left.
pub open spec fn key_in(text: Seq<char>) -> Result<Seq<char>, ConfigErrorView> {
    if is_blank(text) {
        Err(ConfigErrorView::MissingApiKey)
    } else {
        Ok(trimmed(text))
    }
}

/// The API key, given what the caller found.
///
/// A literal key is the key. The key of an environment variable is its
/// value; a variable that is not set is a fault. The key of a command is
/// what the command printed; a command that could not be run, that failed
/// or that printed nothing but white space is a fault. White space around a
/// key is dropped, and a blank key is a fault.
pub open spec fn resolved(key: ApiKeyView, found: LookupView) -> Result<
    Seq<char>,
    ConfigErrorView,
> {
    match key {
        ApiKeyView::Literal(v) => key_in(v),
        ApiKeyView::Env { env } => match found {
            LookupView::EnvValue(Some(v)) => key_in(v),
            _ => Err(ConfigErrorView::MissingEnv { env }),
        },
        ApiKeyView::Cmd { cmd } => match found {
            LookupView::CommandRan { success, stdout, stderr } => if !success {
                Err(ConfigErrorView::CommandFailed { cmd, message: trimmed(stderr) })
            } else if is_blank(stdout) {
                Err(ConfigErrorView::CommandEmpty { cmd })
            } else {
                Ok(trimmed(stdout))
            },
            LookupView::CommandNotRun(why) => Err(ConfigErrorView::CommandExec { cmd, source: why }),
            _ => Err(ConfigErrorView::CommandExec { cmd, source: Seq::<char>::empty() }),
        },
    }
}

/// The answer of a contract that returns text or a fault.
pub open spec fn key_result(r: Result<String, BeeConfigError>) -> Result<
    Seq<char>,
    ConfigErrorView,
> {
    match r {
        Ok(k) => Ok(k@),
        Err(e) => Err(e@),
    }
}

/// The key that a text holds.
fn key_of_text(text: &str) -> (r: Result<String, BeeConfigError>)
    ensures
        key_result(r) == key_in(text@),
{
    let t = trim(text);
    if t.as_str().unicode_len() == 0 {
        Err(BeeConfigError::MissingApiKey)
    } else {
        Ok(t)
    }
}

impl ApiKey {
    /// The API key, given what the caller found where the key pointed.
    pub fn resolve(&self, found: &KeyLookup) -> (r: Result<String, BeeConfigError>)
        ensures
            key_result(r) == resolved(self@, found@),
    {
        match self {
            ApiKey::Literal(v) => key_of_text(v.as_str()),
            ApiKey::Env { env } => match found {
                KeyLookup::EnvValue(Some(v)) => key_of_text(v.as_str()),
                _ => Err(BeeConfigError::MissingEnv { env: env.clone() }),
            },
            ApiKey::Cmd { cmd } => match found {
                KeyLookup::CommandRan(out) => {
                    if !out.success {
                        Err(
                            BeeConfigError::CommandFailed {
                                cmd: cmd.clone(),
                                message: trim(out.stderr.as_str()),
                            },
                        )
                    } else {
                        let t = trim(out.stdout.as_str());
                        if t.as_str().unicode_len() == 0 {
                            Err(BeeConfigError::CommandEmpty { cmd: cmd.clone() })
                        } else {
                            Ok(t)
                        }
                    }
                },
                KeyLookup::CommandNotRun(why) => Err(
                    BeeConfigError::CommandExec { cmd: cmd.clone(), source: why.clone() },
                ),
                _ => Err(BeeConfigError::CommandExec { cmd: cmd.clone(), source: String::new() }),
            },
        }
    }
}

/// What is known of the prompt for a key.
#[derive(Debug, PartialEq, Eq)]
pub struct Prompt {
    /// Whether somebody can be asked.
    pub interactive: bool,
    /// The configuration file, for the notice where nobody can be asked.
    pub path: String,
    /// The answer, where somebody was asked.
    pub entered: String,
}

/// Whether a key is to be asked for: the configuration holds a literal key,
/// and it is blank.
pub open spec fn asks_for_key(c: BeeConfigView) -> bool {
    match c.api_key {
        ApiKeyView::Literal(v) => is_blank(v),
        _ => false,
    }
}

/// The configuration after a key was asked for: it holds the answer without
/// the white space around it, as a literal key. Where nobody can be asked, or
/// the answer is blank, there is none.
pub open spec fn onboarded(c: BeeConfigView, interactive: bool, path: Seq<char>, entered: Seq<char>)
    -> Result<BeeConfigView, ConfigErrorView> {
    if !interactive {
        Err(ConfigErrorView::NonInteractive { path })
    } else if is_blank(entered) {
        Err(ConfigErrorView::MissingApiKey)
    } else {
        Ok(BeeConfigView { api_key: ApiKeyView::Literal(trimmed(entered)), ..c })
    }
}

/// The configuration to work with: the one that was loaded where it holds a
/// literal key, or a key that can be found; the one with the answer to the
/// prompt where its literal key is blank.
pub open spec fn ready(
    c: BeeConfigView,
    found: LookupView,
    interactive: bool,
    path: Seq<char>,
    entered: Seq<char>,
) -> Result<BeeConfigView, ConfigErrorView> {
    if asks_for_key(c) {
        onboarded(c, interactive, path, entered)
    } else {
        match resolved(c.api_key, found) {
            Ok(_) => Ok(c),
            Err(e) => Err(e),
        }
    }
}

/// The answer of a contract that returns a configuration or a fault.
pub open spec fn config_result(r: Result<BeeConfig, BeeConfigError>) -> Result<
    BeeConfigView,
    ConfigErrorView,
> {
    match r {
        Ok(c) => Ok(c@),
        Err(e) => Err(e@),
    }
}

impl BeeConfig {
    /// Whether a key is to be asked for.
    pub fn needs_onboarding(&self) -> (r: bool)
        ensures
            r == asks_for_key(self@),
    {
        match &self.api_key {
            ApiKey::Literal(v) => blank(v.as_str()),
            _ => false,
        }
    }

    /// The configuration with the key that was entered at the prompt.
    pub fn onboard_api_key(self, prompt: &Prompt) -> (r: Result<BeeConfig, BeeConfigError>)
        ensures
            config_result(r) == onboarded(
                self@,
                prompt.interactive,
                prompt.path@,
                prompt.entered@,
            ),
    {
        if !prompt.interactive {
            return Err(BeeConfigError::NonInteractive { path: prompt.path.clone() });
        }
        let key = trim(prompt.entered.as_str());
        if key.as_str().unicode_len() == 0 {
            return Err(BeeConfigError::MissingApiKey);
        }
        let mut config = self;
        config.api_key = ApiKey::Literal(key);
        Ok(config)
    }

    /// The configuration to work with, given the one that was loaded, what
    /// was found where its key points, and what is known of the prompt.
    pub fn load_or_onboard(self, found: &KeyLookup, prompt: &Prompt) -> (r: Result<
        BeeConfig,
        BeeConfigError,
    >)
        ensures
            config_result(r) == ready(
                self@,
                found@,
                prompt.interactive,
                prompt.path@,
                prompt.entered@,
            ),
    {
        if self.needs_onboarding() {
            self.onboard_api_key(prompt)
        } else {
            match self.api_key.resolve(found) {
                Ok(_) => Ok(self),
                Err(e) => Err(e),
            }
        }
    }

    /// The API key, given what the caller found where the key points.
    pub fn api_key(&self, found: &KeyLookup) -> (r: Result<String, BeeConfigError>)
        ensures
            key_result(r) == resolved(self@.api_key, found@),
    {
        self.api_key.resolve(found)
    }
}

/// The notice for a fault.
pub open spec fn config_fault_text(e: ConfigErrorView) -> Seq<char> {
    match e {
        ConfigErrorView::MissingApiKey => "missing api key in config; set `api_key` in the beeminder config file"@,
        ConfigErrorView::MissingEnv { env } => "environment variable '"@ + env + "' not found"@,
        ConfigErrorView::CommandFailed { cmd, message } => "api key command failed: "@ + cmd
            + ": "@ + message,
        ConfigErrorView::CommandExec { cmd, source } => "failed to execute api key command '"@
            + cmd + "': "@ + source,
        ConfigErrorView::CommandEmpty { cmd } => "api key command returned empty output: "@ + cmd,
        ConfigErrorView::NonInteractive { path } => "api key required but stdin is not interactive; set `api_key` in "@
            + path + " (example: api_key = \"YOUR_KEY\" or api_key = { cmd = \"...\" })"@,
    }
}

impl BeeConfigError {
    /// The notice for the fault.
    pub fn message(&self) -> (m: String)
        ensures
            m@ == config_fault_text(self@),
    {
        match self {
            BeeConfigError::MissingApiKey => String::from_str(
                "missing api key in config; set `api_key` in the beeminder config file",
            ),
            BeeConfigError::MissingEnv { env } => {
                let mut m = String::from_str("environment variable '");
                m.append(env.as_str());
                m.append("' not found");
                m
            },
            BeeConfigError::CommandFailed { cmd, message } => {
                let mut m = String::from_str("api key command failed: ");
                m.append(cmd.as_str());
                m.append(": ");
                m.append(message.as_str());
                m
            },
            BeeConfigError::CommandExec { cmd, source } => {
                let mut m = String::from_str("failed to execute api key command '");
                m.append(cmd.as_str());
                m.append("': ");
                m.append(source.as_str());
                m
            },
            BeeConfigError::CommandEmpty { cmd } => {
                let mut m = String::from_str("api key command returned empty output: ");
                m.append(cmd.as_str());
                m
            },
            BeeConfigError::NonInteractive { path } => {
                let mut m = String::from_str(
                    "api key required but stdin is not interactive; set `api_key` in ",
                );
                m.append(path.as_str());
                m.append(" (example: api_key = \"YOUR_KEY\" or api_key = { cmd = \"...\" })");
                m
            },
        }
    }
}

} // verus!
