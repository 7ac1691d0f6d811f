//! The bot's configuration, taken from the environment or, failing that,
//! from a configuration file.
//!
//! This module decides; it reads nothing. The caller hands over the variables
//! of the environment and what became of reading and parsing the file.

use vstd::prelude::*;
use vstd::string::StringExecFns;
use crate::number::{parse_u64, unsigned_of};
use crate::text::{chars_of, same_chars, split, split_at_each, trim, trimmed};

verus! {

/// How the bot presents itself to Discord.
#[derive(Debug, Clone)]
pub struct DiscordConfig {
    pub token: String,
    pub application_id: u64,
}

/// Settings of the bot's own.
#[derive(Debug, Clone)]
pub struct BotConfig {
    pub owners: Vec<u64>,
    pub embed_color: String,
}

/// The whole configuration.
#[derive(Debug, Clone)]
pub struct Config {
    pub discord: DiscordConfig,
    pub bot: BotConfig,
}

/// A configuration as contracts see it.
pub struct ConfigView {
    pub token: Seq<char>,
    pub application_id: u64,
    pub owners: Seq<u64>,
    pub embed_color: Seq<char>,
}

impl View for Config {
    type V = ConfigView;

    open spec fn view(&self) -> ConfigView {
        ConfigView {
            token: self.discord.token@,
            application_id: self.discord.application_id,
            owners: self.bot.owners@,
            embed_color: self.bot.embed_color@,
        }
    }
}

/// Why there is no configuration.
#[derive(Debug, Clone)]
pub enum ConfigError {
    /// The environment has no `DISCORD_TOKEN`.
    TokenMissing,
    /// The environment has no `APPLICATION_ID`.
    ApplicationIdMissing,
    /// `APPLICATION_ID` does not write a `u64`.
    ApplicationIdInvalid,
    /// The configuration file could not be read.
    FileUnreadable { reason: String },
    /// The configuration file does not hold a configuration.
    FileMalformed { reason: String },
}

/// An error as contracts see it.
pub enum ConfigErrorView {
    TokenMissing,
    ApplicationIdMissing,
    ApplicationIdInvalid,
    FileUnreadable { reason: Seq<char> },
    FileMalformed { reason: Seq<char> },
}

impl View for ConfigError {
    type V = ConfigErrorView;

    open spec fn view(&self) -> ConfigErrorView {
        match *self {
            ConfigError::TokenMissing => ConfigErrorView::TokenMissing,
            ConfigError::ApplicationIdMissing => ConfigErrorView::ApplicationIdMissing,
            ConfigError::ApplicationIdInvalid => ConfigErrorView::ApplicationIdInvalid,
            ConfigError::FileUnreadable { reason } => ConfigErrorView::FileUnreadable {
                reason: reason@,
            },
            ConfigError::FileMalformed { reason } => ConfigErrorView::FileMalformed {
                reason: reason@,
            },
        }
    }
}

/// The line that tells of an error.
pub open spec fn error_text(error: ConfigErrorView) -> Seq<char> {
    match error {
        ConfigErrorView::TokenMissing => "DISCORD_TOKEN environment variable not found"@,
        ConfigErrorView::ApplicationIdMissing => "APPLICATION_ID environment variable not found"@,
        ConfigErrorView::ApplicationIdInvalid => "APPLICATION_ID must be a valid u64"@,
        ConfigErrorView::FileUnreadable { reason } => "Failed to read config file: config.toml: "@
            + reason,
        ConfigErrorView::FileMalformed { reason } => "Failed to parse config file: config.toml: "@
            + reason,
    }
}

impl ConfigError {
    /// The line to show for this error.
    pub fn message(&self) -> (text: String)
        ensures
            text@ == error_text(self@),
    {
        match self {
            ConfigError::TokenMissing => String::from_str(
                "DISCORD_TOKEN environment variable not found",
            ),
            ConfigError::ApplicationIdMissing => String::from_str(
                "APPLICATION_ID environment variable not found",
            ),
            ConfigError::ApplicationIdInvalid => String::from_str(
                "APPLICATION_ID must be a valid u64",
            ),
            ConfigError::FileUnreadable { reason } => {
                let mut text = String::from_str("Failed to read config file: config.toml: ");
                text.append(reason.as_str());
                text
            },
            ConfigError::FileMalformed { reason } => {
                let mut text = String::from_str("Failed to parse config file: config.toml: ");
                text.append(reason.as_str());
                text
            },
        }
    }
}

/// What became of the configuration file.
pub enum ConfigFile {
    /// It could not be read.
    Unreadable { reason: String },
    /// It was read but does not parse as a configuration.
    Malformed { reason: String },
    /// It holds this configuration.
    Parsed { config: Config },
}

/// The file's outcome as contracts see it.
pub enum ConfigFileView {
    Unreadable { reason: Seq<char> },
    Malformed { reason: Seq<char> },
    Parsed { config: ConfigView },
}

impl View for ConfigFile {
    type V = ConfigFileView;

    open spec fn view(&self) -> ConfigFileView {
        match *self {
            ConfigFile::Unreadable { reason } => ConfigFileView::Unreadable { reason: reason@ },
            ConfigFile::Malformed { reason } => ConfigFileView::Malformed { reason: reason@ },
            ConfigFile::Parsed { config } => ConfigFileView::Parsed { config: config@ },
        }
    }
}

/// A configuration or an error, as contracts see it.
pub open spec fn outcome_view(outcome: Result<Config, ConfigError>) -> Result<
    ConfigView,
    ConfigErrorView,
> {
    match outcome {
        Ok(config) => Ok(config@),
        Err(error) => Err(error@),
    }
}

/// The colour of embeds where the environment names none.
pub open spec fn default_embed_color() -> Seq<char> {
    "#dea584"@
}

/// The value of the variable `name`: that of the first entry with this name.
pub open spec fn lookup(env: Seq<(Seq<char>, Seq<char>)>, name: Seq<char>) -> Option<Seq<char>>
    decreases env.len(),
{
    if env.len() == 0 {
        None
    } else {
        match lookup(env.drop_last(), name) {
            Some(value) => Some(value),
            None => if env.last().0 == name {
                Some(env.last().1)
            } else {
                None
            },
        }
    }
}

/// The numbers among the tokens: each token is trimmed, and those that then
/// write a `u64` give it, in order. The others are passed over.
pub open spec fn numbers_in(tokens: Seq<Seq<char>>) -> Seq<u64>
    decreases tokens.len(),
{
    if tokens.len() == 0 {
        Seq::<u64>::empty()
    } else {
        let before = numbers_in(tokens.drop_last());
        match unsigned_of(trimmed(tokens.last())) {
            Some(number) => before.push(number),
            None => before,
        }
    }
}

/// The owners that a comma-separated list names.
pub open spec fn owners_in(list: Seq<char>) -> Seq<u64> {
    numbers_in(split(list, ','))
}

/// The configuration that an environment gives, or why it gives none. The
/// token is looked for first, then the application id; owners and colour
/// have defaults.
pub open spec fn config_in(env: Seq<(Seq<char>, Seq<char>)>) -> Result<
    ConfigView,
    ConfigErrorView,
> {
    match (lookup(env, "DISCORD_TOKEN"@), lookup(env, "APPLICATION_ID"@)) {
        (None, _) => Err(ConfigErrorView::TokenMissing),
        (Some(_), None) => Err(ConfigErrorView::ApplicationIdMissing),
        (Some(token), Some(id)) => match unsigned_of(id) {
            None => Err(ConfigErrorView::ApplicationIdInvalid),
            Some(application_id) => Ok(
                ConfigView {
                    token,
                    application_id,
                    owners: owners_in(
                        match lookup(env, "BOT_OWNERS"@) {
                            Some(list) => list,
                            None => ""@,
                        },
                    ),
                    embed_color: match lookup(env, "EMBED_COLOR"@) {
                        Some(color) => color,
                        None => default_embed_color(),
                    },
                },
            ),
        },
    }
}

/// The configuration that the file gives, or why it gives none.
pub open spec fn config_of(file: ConfigFileView) -> Result<ConfigView, ConfigErrorView> {
    match file {
        ConfigFileView::Unreadable { reason } => Err(ConfigErrorView::FileUnreadable { reason }),
        ConfigFileView::Malformed { reason } => Err(ConfigErrorView::FileMalformed { reason }),
        ConfigFileView::Parsed { config } => Ok(config),
    }
}

/// A variable found among the first entries is the variable found among all.
pub proof fn lemma_lookup_prefix(env: Seq<(Seq<char>, Seq<char>)>, name: Seq<char>, k: int)
    requires
        0 <= k <= env.len(),
        lookup(env.take(k), name) is Some,
    ensures
        lookup(env, name) == lookup(env.take(k), name),
    decreases env.len() - k,
{
    if k == env.len() {
        assert(env.take(k) =~= env);
    } else {
        assert(env.drop_last().take(k) =~= env.take(k));
        lemma_lookup_prefix(env.drop_last(), name, k);
    }
}

/// Looks a variable up in the environment.
pub fn lookup_var<'a>(env: &'a Vec<(String, String)>, name: &str) -> (value: Option<&'a str>)
    ensures
        match value {
            Some(found) => lookup(env.deep_view(), name@) == Some(found@),
            None => lookup(env.deep_view(), name@) is None,
        },
{
    let wanted = chars_of(name);
    let ghost entries = env.deep_view();
    let mut i: usize = 0;
    while i < env.len()
        invariant
            i <= env.len(),
            wanted@ == name@,
            entries == env.deep_view(),
            lookup(entries.take(i as int), name@) is None,
        decreases env.len() - i,
    {
        let entry = &env[i];
        let entry_name = chars_of(entry.0.as_str());
        proof {
            assert(entries.take(i + 1).drop_last() =~= entries.take(i as int));
        }
        if same_chars(entry_name.as_slice(), wanted.as_slice()) {
            proof {
                lemma_lookup_prefix(entries, name@, i + 1);
            }
            return Some(entry.1.as_str());
        }
        i += 1;
    }
    assert(entries.take(i as int) =~= entries);
    None
}

/// Reads the owners out of a comma-separated list.
pub fn parse_owners(list: &str) -> (owners: Vec<u64>)
    ensures
        owners@ == owners_in(list@),
{
    let text = chars_of(list);
    let tokens = split_at_each(text.as_slice(), ',');
    let mut owners: Vec<u64> = Vec::new();
    let mut i: usize = 0;
    while i < tokens.len()
        invariant
            i <= tokens.len(),
            owners@ == numbers_in(tokens.deep_view().take(i as int)),
        decreases tokens.len() - i,
    {
        proof {
            assert(tokens.deep_view().take(i + 1).drop_last() =~= tokens.deep_view().take(
                i as int,
            ));
            assert(tokens.deep_view().take(i + 1).last() =~= tokens[i as int]@);
        }
        let token = trim(tokens[i].as_slice());
        match parse_u64(token.as_slice()) {
            Some(number) => {
                owners.push(number);
            },
            None => {},
        }
        i += 1;
    }
    assert(tokens.deep_view().take(i as int) =~= tokens.deep_view());
    owners
}

impl Default for Config {
    /// The configuration with nothing set: no token, application 0, no
    /// owners, the default colour.
    fn default() -> (config: Config)
        ensures
            config@ == (ConfigView {
                token: Seq::<char>::empty(),
                application_id: 0,
                owners: Seq::<u64>::empty(),
                embed_color: default_embed_color(),
            }),
    {
        Config {
            discord: DiscordConfig { token: String::new(), application_id: 0 },
            bot: BotConfig { owners: Vec::new(), embed_color: String::from_str("#dea584") },
        }
    }
}

impl Config {
    /// The name of the configuration file.
    pub fn file_name() -> (name: &'static str)
        ensures
            name@ == "config.toml"@,
    {
        "config.toml"
    }

    /// The configuration that the environment gives: `DISCORD_TOKEN` and
    /// `APPLICATION_ID` are needed, `BOT_OWNERS` and `EMBED_COLOR` are not.
    pub fn from_env(env: &Vec<(String, String)>) -> (outcome: Result<Config, ConfigError>)
        ensures
            outcome_view(outcome) == config_in(env.deep_view()),
    {
        let token = match lookup_var(env, "DISCORD_TOKEN") {
            Some(token) => token,
            None => {
                return Err(ConfigError::TokenMissing);
            },
        };
        let id = match lookup_var(env, "APPLICATION_ID") {
            Some(id) => id,
            None => {
                return Err(ConfigError::ApplicationIdMissing);
            },
        };
        let id_text = chars_of(id);
        let application_id = match parse_u64(id_text.as_slice()) {
            Some(number) => number,
            None => {
                return Err(ConfigError::ApplicationIdInvalid);
            },
        };
        let owners = parse_owners(
            match lookup_var(env, "BOT_OWNERS") {
                Some(list) => list,
                None => "",
            },
        );
        let embed_color = match lookup_var(env, "EMBED_COLOR") {
            Some(color) => String::from_str(color),
            None => String::from_str("#dea584"),
        };
        Ok(
            Config {
                discord: DiscordConfig { token: String::from_str(token), application_id },
                bot: BotConfig { owners, embed_color },
            },
        )
    }

    /// The configuration that the file gives.
    pub fn from_file(file: ConfigFile) -> (outcome: Result<Config, ConfigError>)
        ensures
            outcome_view(outcome) == config_of(file@),
    {
        match file {
            ConfigFile::Unreadable { reason } => Err(ConfigError::FileUnreadable { reason }),
            ConfigFile::Malformed { reason } => Err(ConfigError::FileMalformed { reason }),
            ConfigFile::Parsed { config } => Ok(config),
        }
    }

    /// The configuration of the environment where it gives one, else that of
    /// the file. Where neither gives one, the error is the file's.
    pub fn load(env: &Vec<(String, String)>, file: ConfigFile) -> (outcome: Result<
        Config,
        ConfigError,
    >)
        ensures
            outcome_view(outcome) == match config_in(env.deep_view()) {
                Ok(config) => Ok::<ConfigView, ConfigErrorView>(config),
                Err(_) => config_of(file@),
            },
    {
        match Config::from_env(env) {
            Ok(config) => Ok(config),
            Err(_) => Config::from_file(file),
        }
    }
}

} // verus!
