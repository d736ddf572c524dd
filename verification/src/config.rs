//! The configuration model and how it is read from a TOML document.

use crate::toml_doc::{
    error_message, parse_table, table_get, table_of, toml_document, value_as_bool, value_as_str,
    value_as_table, Toml, TomlTable,
};
use vstd::prelude::*;

verus! {

/// Where messages go and how the sender proves who it is.
#[derive(Clone, Debug, PartialEq, Eq)]
pub struct DiscordConfig {
    /// The credential; `destination.credential` in the file.
    pub bot_token: String,
    /// The channel that receives the messages; `destination.channel_id`.
    pub channel_id: String,
    /// The address of the platform's API; `destination.base_address`.
    pub base_url: String,
}

/// Optional switches; the `features` table of the file.
#[derive(Clone, Copy, PartialEq, Eq, Debug)]
pub struct McpConfig {
    /// Whether advertised schemas lose their schema identifier;
    /// `features.strip_schema_url`.
    pub disable_schema_url: Option<bool>,
}

/// The whole configuration. It is read once and never changed.
#[derive(Clone, Debug, PartialEq, Eq)]
pub struct Config {
    pub discord: DiscordConfig,
    pub mcp: Option<McpConfig>,
}

/// The places of a configuration file that the loader looks at.
#[derive(Clone, Copy, PartialEq, Eq, Debug)]
pub enum ConfigKey {
    Destination,
    Credential,
    ChannelId,
    BaseAddress,
    Features,
    StripSchemaUrl,
}

/// Why no configuration could be had.
#[derive(Clone, Debug, PartialEq, Eq)]
pub enum ConfigError {
    /// The file is missing or cannot be read; with the system's reason.
    Unreadable(String),
    /// The text is not a TOML document; with the parser's reason.
    Malformed(String),
    /// A required entry is absent.
    Missing(ConfigKey),
    /// An entry holds a value of the wrong kind.
    WrongType(ConfigKey),
    /// A required text is the empty text.
    Empty(ConfigKey),
}

/// A destination as contracts see it.
pub struct DiscordConfigView {
    pub bot_token: Seq<char>,
    pub channel_id: Seq<char>,
    pub base_url: Seq<char>,
}

/// A configuration as contracts see it.
pub struct ConfigView {
    pub discord: DiscordConfigView,
    pub mcp: Option<McpConfig>,
}

impl View for DiscordConfig {
    type V = DiscordConfigView;

    open spec fn view(&self) -> DiscordConfigView {
        DiscordConfigView {
            bot_token: self.bot_token@,
            channel_id: self.channel_id@,
            base_url: self.base_url@,
        }
    }
}

impl View for Config {
    type V = ConfigView;

    open spec fn view(&self) -> ConfigView {
        ConfigView { discord: self.discord@, mcp: self.mcp }
    }
}

impl DiscordConfigView {
    /// None of the three texts is empty.
    pub open spec fn wf(self) -> bool {
        &&& self.bot_token.len() > 0
        &&& self.channel_id.len() > 0
        &&& self.base_url.len() > 0
    }
}

impl ConfigKey {
    /// The place's path in the file, table and entry joined by a dot.
    pub open spec fn path(self) -> Seq<char> {
        match self {
            ConfigKey::Destination => "destination"@,
            ConfigKey::Credential => "destination.credential"@,
            ConfigKey::ChannelId => "destination.channel_id"@,
            ConfigKey::BaseAddress => "destination.base_address"@,
            ConfigKey::Features => "features"@,
            ConfigKey::StripSchemaUrl => "features.strip_schema_url"@,
        }
    }

    /// The place's path in the file.
    pub fn as_str(self) -> (path: &'static str)
        ensures
            path@ == self.path(),
    {
        match self {
            ConfigKey::Destination => "destination",
            ConfigKey::Credential => "destination.credential",
            ConfigKey::ChannelId => "destination.channel_id",
            ConfigKey::BaseAddress => "destination.base_address",
            ConfigKey::Features => "features",
            ConfigKey::StripSchemaUrl => "features.strip_schema_url",
        }
    }
}

impl ConfigError {
    /// The fault in words.
    pub open spec fn description(self) -> Seq<char> {
        match self {
            ConfigError::Unreadable(reason) => "cannot read the configuration: "@ + reason@,
            ConfigError::Malformed(reason) => "the configuration is not valid TOML: "@ + reason@,
            ConfigError::Missing(key) => "the configuration lacks `"@ + key.path() + "`"@,
            ConfigError::WrongType(key) => "the configuration holds the wrong kind of value in `"@
                + key.path() + "`"@,
            ConfigError::Empty(key) => "the configuration holds an empty text in `"@ + key.path()
                + "`"@,
        }
    }

    /// The fault in words, for the person who starts the server.
    pub fn message(&self) -> (text: String)
        ensures
            text@ == self.description(),
    {
        match self {
            ConfigError::Unreadable(reason) => {
                let mut text = String::from_str("cannot read the configuration: ");
                text.append(reason.as_str());
                text
            },
            ConfigError::Malformed(reason) => {
                let mut text = String::from_str("the configuration is not valid TOML: ");
                text.append(reason.as_str());
                text
            },
            ConfigError::Missing(key) => {
                let mut text = String::from_str("the configuration lacks `");
                text.append(key.as_str());
                text.append("`");
                text
            },
            ConfigError::WrongType(key) => {
                let mut text = String::from_str(
                    "the configuration holds the wrong kind of value in `",
                );
                text.append(key.as_str());
                text.append("`");
                text
            },
            ConfigError::Empty(key) => {
                let mut text = String::from_str("the configuration holds an empty text in `");
                text.append(key.as_str());
                text.append("`");
                text
            },
        }
    }
}

/// The switch as the service reads it: off unless it is present and on.
pub open spec fn schema_url_disabled(mcp: Option<McpConfig>) -> bool {
    match mcp {
        Some(McpConfig { disable_schema_url: Some(flag) }) => flag,
        _ => false,
    }
}

/// A required text entry of a table: present, a string, and not empty.
pub open spec fn required_text(table: Map<Seq<char>, Toml>, name: Seq<char>, key: ConfigKey)
    -> Result<Seq<char>, ConfigError> {
    if !table.contains_key(name) {
        Err(ConfigError::Missing(key))
    } else {
        match table[name] {
            Toml::Text(text) => if text.len() == 0 {
                Err(ConfigError::Empty(key))
            } else {
                Ok(text)
            },
            _ => Err(ConfigError::WrongType(key)),
        }
    }
}

/// The `destination` table of a document, read entry by entry in the order
/// credential, channel, address; the first fault found is the one reported.
pub open spec fn destination_of(document: Map<Seq<char>, Toml>) -> Result<
    DiscordConfigView,
    ConfigError,
> {
    if !document.contains_key("destination"@) {
        Err(ConfigError::Missing(ConfigKey::Destination))
    } else {
        match document["destination"@] {
            Toml::Table(table) => match required_text(
                table,
                "credential"@,
                ConfigKey::Credential,
            ) {
                Err(e) => Err(e),
                Ok(bot_token) => match required_text(table, "channel_id"@, ConfigKey::ChannelId) {
                    Err(e) => Err(e),
                    Ok(channel_id) => match required_text(
                        table,
                        "base_address"@,
                        ConfigKey::BaseAddress,
                    ) {
                        Err(e) => Err(e),
                        Ok(base_url) => Ok(DiscordConfigView { bot_token, channel_id, base_url }),
                    },
                },
            },
            _ => Err(ConfigError::WrongType(ConfigKey::Destination)),
        }
    }
}

/// The optional `features` table of a document.
pub open spec fn features_of(document: Map<Seq<char>, Toml>) -> Result<
    Option<McpConfig>,
    ConfigError,
> {
    if !document.contains_key("features"@) {
        Ok(None)
    } else {
        match document["features"@] {
            Toml::Table(table) => if !table.contains_key("strip_schema_url"@) {
                Ok(Some(McpConfig { disable_schema_url: None }))
            } else {
                match table["strip_schema_url"@] {
                    Toml::Boolean(flag) => Ok(Some(McpConfig { disable_schema_url: Some(flag) })),
                    _ => Err(ConfigError::WrongType(ConfigKey::StripSchemaUrl)),
                }
            },
            _ => Err(ConfigError::WrongType(ConfigKey::Features)),
        }
    }
}

/// The configuration that a parsed document stands for, or the first fault
/// in it. Entries that the configuration does not name are ignored.
pub open spec fn config_of(document: Map<Seq<char>, Toml>) -> Result<ConfigView, ConfigError> {
    match destination_of(document) {
        Err(e) => Err(e),
        Ok(discord) => match features_of(document) {
            Err(e) => Err(e),
            Ok(mcp) => Ok(ConfigView { discord, mcp }),
        },
    }
}

/// What an outcome of the loader stands for: the configuration's view, or
/// the fault.
pub open spec fn outcome_view(outcome: Result<Config, ConfigError>) -> Result<
    ConfigView,
    ConfigError,
> {
    match outcome {
        Ok(config) => Ok(config@),
        Err(e) => Err(e),
    }
}

fn read_text(table: &TomlTable, name: &str, key: ConfigKey) -> (text: Result<String, ConfigError>)
    ensures
        match text {
            Ok(s) => required_text(table_of(*table), name@, key) == Ok::<Seq<char>, ConfigError>(
                s@,
            ),
            Err(e) => required_text(table_of(*table), name@, key) == Err::<Seq<char>, ConfigError>(
                e,
            ),
        },
{
    match table_get(table, name) {
        None => Err(ConfigError::Missing(key)),
        Some(value) => match value_as_str(value) {
            None => Err(ConfigError::WrongType(key)),
            Some(s) => {
                if s.is_empty() {
                    Err(ConfigError::Empty(key))
                } else {
                    Ok(s.to_owned())
                }
            },
        },
    }
}

impl DiscordConfig {
    /// Reads the `destination` table of a document.
    pub fn from_table(document: &TomlTable) -> (outcome: Result<DiscordConfig, ConfigError>)
        ensures
            match outcome {
                Ok(discord) => destination_of(table_of(*document)) == Ok::<
                    DiscordConfigView,
                    ConfigError,
                >(discord@),
                Err(e) => destination_of(table_of(*document)) == Err::<
                    DiscordConfigView,
                    ConfigError,
                >(e),
            },
    {
        match table_get(document, "destination") {
            None => Err(ConfigError::Missing(ConfigKey::Destination)),
            Some(value) => match value_as_table(value) {
                None => Err(ConfigError::WrongType(ConfigKey::Destination)),
                Some(table) => {
                    let bot_token = match read_text(table, "credential", ConfigKey::Credential) {
                        Ok(s) => s,
                        Err(e) => { return Err(e); },
                    };
                    let channel_id = match read_text(table, "channel_id", ConfigKey::ChannelId) {
                        Ok(s) => s,
                        Err(e) => { return Err(e); },
                    };
                    let base_url = match read_text(table, "base_address", ConfigKey::BaseAddress) {
                        Ok(s) => s,
                        Err(e) => { return Err(e); },
                    };
                    Ok(DiscordConfig { bot_token, channel_id, base_url })
                },
            },
        }
    }
}

impl McpConfig {
    /// Reads the optional `features` table of a document.
    pub fn from_table(document: &TomlTable) -> (outcome: Result<Option<McpConfig>, ConfigError>)
        ensures
            outcome == features_of(table_of(*document)),
    {
        match table_get(document, "features") {
            None => Ok(None),
            Some(value) => match value_as_table(value) {
                None => Err(ConfigError::WrongType(ConfigKey::Features)),
                Some(table) => match table_get(table, "strip_schema_url") {
                    None => Ok(Some(McpConfig { disable_schema_url: None })),
                    Some(entry) => match value_as_bool(entry) {
                        None => Err(ConfigError::WrongType(ConfigKey::StripSchemaUrl)),
                        Some(flag) => Ok(Some(McpConfig { disable_schema_url: Some(flag) })),
                    },
                },
            },
        }
    }
}

impl Config {
    /// Whether advertised schemas lose their schema identifier: `false`
    /// unless the switch is present and on.
    pub fn disable_schema_url(&self) -> (disabled: bool)
        ensures
            disabled == schema_url_disabled(self.mcp),
    {
        match self.mcp {
            Some(mcp) => match mcp.disable_schema_url {
                Some(flag) => flag,
                None => false,
            },
            None => false,
        }
    }

    /// Builds the configuration from a parsed document: all of it, or the
    /// first fault and nothing else.
    pub fn from_table(document: &TomlTable) -> (outcome: Result<Config, ConfigError>)
        ensures
            outcome_view(outcome) == config_of(table_of(*document)),
            outcome matches Ok(config) ==> config@.discord.wf(),
    {
        let discord = match DiscordConfig::from_table(document) {
            Ok(d) => d,
            Err(e) => { return Err(e); },
        };
        let mcp = match McpConfig::from_table(document) {
            Ok(m) => m,
            Err(e) => { return Err(e); },
        };
        Ok(Config { discord, mcp })
    }

    /// Builds the configuration from the text of a configuration file. A
    /// text that the parser rejects is `Malformed`; any other text is judged
    /// by its document as `from_table` does.
    pub fn parse(text: &str) -> (outcome: Result<Config, ConfigError>)
        ensures
            match toml_document(text@) {
                Some(document) => outcome_view(outcome) == config_of(document),
                None => outcome matches Err(ConfigError::Malformed(_)),
            },
            outcome matches Ok(config) ==> config@.discord.wf(),
    {
        match parse_table(text) {
            Ok(document) => Config::from_table(&document),
            Err(error) => Err(ConfigError::Malformed(error_message(&error))),
        }
    }

    /// Builds the configuration from what reading the file gave: its text,
    /// or the reason why it could not be read.
    pub fn load(read: Result<String, String>) -> (outcome: Result<Config, ConfigError>)
        ensures
            match read {
                Err(reason) => outcome == Err::<Config, ConfigError>(
                    ConfigError::Unreadable(reason),
                ),
                Ok(text) => match toml_document(text@) {
                    Some(document) => outcome_view(outcome) == config_of(document),
                    None => outcome matches Err(ConfigError::Malformed(_)),
                },
            },
            outcome matches Ok(config) ==> config@.discord.wf(),
    {
        match read {
            Err(reason) => Err(ConfigError::Unreadable(reason)),
            Ok(text) => Config::parse(text.as_str()),
        }
    }
}

/// A document from which the destination, or one of its three entries, is
/// missing stands for no configuration.
pub proof fn lemma_missing_entry_fails(document: Map<Seq<char>, Toml>)
    requires
        !document.contains_key("destination"@) || (document["destination"@] matches Toml::Table(
            table,
        ) && (!table.contains_key("credential"@) || !table.contains_key("channel_id"@)
            || !table.contains_key("base_address"@))),
    ensures
        config_of(document) is Err,
{
}

/// A document stands for a configuration exactly when its destination is a
/// table with three non-empty texts and its features, where present, are a
/// table whose switch, where present, is a boolean.
pub proof fn lemma_config_exists_iff(document: Map<Seq<char>, Toml>)
    ensures
        config_of(document) is Ok <==> {
            &&& document.contains_key("destination"@)
            &&& document["destination"@] matches Toml::Table(table)
            &&& required_text(table, "credential"@, ConfigKey::Credential) is Ok
            &&& required_text(table, "channel_id"@, ConfigKey::ChannelId) is Ok
            &&& required_text(table, "base_address"@, ConfigKey::BaseAddress) is Ok
            &&& features_of(document) is Ok
        },
{
}

/// Every configuration that a document stands for has a complete
/// destination: no text of it is empty.
pub proof fn lemma_loaded_destination_is_complete(document: Map<Seq<char>, Toml>)
    requires
        config_of(document) is Ok,
    ensures
        config_of(document)->Ok_0.discord.wf(),
{
}

} // verus!
