use discord_mcp::config::{Config, ConfigError, ConfigKey, DiscordConfig, McpConfig};

const FULL: &str = r#"
[destination]
credential = "secret-token"
channel_id = "1234567890"
base_address = "https://chat.example/api/v10"

[features]
strip_schema_url = true
"#;

fn table(text: &str) -> toml::Table {
    toml::from_str::<toml::Table>(text).unwrap()
}

#[test]
fn parse_reads_every_entry() {
    let config = Config::parse(FULL).unwrap();
    assert_eq!(config.discord.bot_token, "secret-token");
    assert_eq!(config.discord.channel_id, "1234567890");
    assert_eq!(config.discord.base_url, "https://chat.example/api/v10");
    assert_eq!(config.mcp, Some(McpConfig { disable_schema_url: Some(true) }));
    assert!(config.disable_schema_url());
}

#[test]
fn switch_defaults_to_false_without_features() {
    let text = "[destination]\ncredential = \"t\"\nchannel_id = \"c\"\nbase_address = \"b\"\n";
    let config = Config::parse(text).unwrap();
    assert_eq!(config.mcp, None);
    assert!(!config.disable_schema_url());
}

#[test]
fn switch_defaults_to_false_in_empty_features() {
    let text =
        "[destination]\ncredential = \"t\"\nchannel_id = \"c\"\nbase_address = \"b\"\n[features]\n";
    let config = Config::parse(text).unwrap();
    assert_eq!(config.mcp, Some(McpConfig { disable_schema_url: None }));
    assert!(!config.disable_schema_url());
}

#[test]
fn switch_can_be_off() {
    let text = "[destination]\ncredential = \"t\"\nchannel_id = \"c\"\nbase_address = \"b\"\n[features]\nstrip_schema_url = false\n";
    let config = Config::parse(text).unwrap();
    assert_eq!(config.mcp, Some(McpConfig { disable_schema_url: Some(false) }));
    assert!(!config.disable_schema_url());
}

#[test]
fn disable_schema_url_reads_the_switch() {
    let discord = DiscordConfig {
        bot_token: "t".to_string(),
        channel_id: "c".to_string(),
        base_url: "b".to_string(),
    };
    let cases = [
        (None, false),
        (Some(McpConfig { disable_schema_url: None }), false),
        (Some(McpConfig { disable_schema_url: Some(false) }), false),
        (Some(McpConfig { disable_schema_url: Some(true) }), true),
    ];
    for (mcp, expected) in cases {
        let config = Config { discord: discord.clone(), mcp };
        assert_eq!(config.disable_schema_url(), expected);
    }
}

#[test]
fn missing_destination_fails() {
    assert_eq!(
        Config::parse("[features]\nstrip_schema_url = true\n"),
        Err(ConfigError::Missing(ConfigKey::Destination))
    );
    assert_eq!(Config::parse(""), Err(ConfigError::Missing(ConfigKey::Destination)));
}

#[test]
fn missing_credential_fails() {
    let text = "[destination]\nchannel_id = \"c\"\nbase_address = \"b\"\n";
    assert_eq!(Config::parse(text), Err(ConfigError::Missing(ConfigKey::Credential)));
}

#[test]
fn missing_channel_id_fails() {
    let text = "[destination]\ncredential = \"t\"\nbase_address = \"b\"\n";
    assert_eq!(Config::parse(text), Err(ConfigError::Missing(ConfigKey::ChannelId)));
}

#[test]
fn missing_base_address_fails() {
    let text = "[destination]\ncredential = \"t\"\nchannel_id = \"c\"\n";
    assert_eq!(Config::parse(text), Err(ConfigError::Missing(ConfigKey::BaseAddress)));
}

#[test]
fn first_fault_in_reading_order_is_reported() {
    let text = "[destination]\nbase_address = 7\n";
    assert_eq!(Config::parse(text), Err(ConfigError::Missing(ConfigKey::Credential)));
    let text = "[destination]\ncredential = \"t\"\nchannel_id = 5\n";
    assert_eq!(Config::parse(text), Err(ConfigError::WrongType(ConfigKey::ChannelId)));
}

#[test]
fn wrong_types_fail() {
    assert_eq!(
        Config::parse("destination = \"somewhere\"\n"),
        Err(ConfigError::WrongType(ConfigKey::Destination))
    );
    let text = "[destination]\ncredential = 12\nchannel_id = \"c\"\nbase_address = \"b\"\n";
    assert_eq!(Config::parse(text), Err(ConfigError::WrongType(ConfigKey::Credential)));
    let text = "[destination]\ncredential = \"t\"\nchannel_id = 1234\nbase_address = \"b\"\n";
    assert_eq!(Config::parse(text), Err(ConfigError::WrongType(ConfigKey::ChannelId)));
    let text = "[destination]\ncredential = \"t\"\nchannel_id = \"c\"\nbase_address = true\n";
    assert_eq!(Config::parse(text), Err(ConfigError::WrongType(ConfigKey::BaseAddress)));
    let text =
        "features = 1\n[destination]\ncredential = \"t\"\nchannel_id = \"c\"\nbase_address = \"b\"\n";
    assert_eq!(Config::parse(text), Err(ConfigError::WrongType(ConfigKey::Features)));
    let text = "[destination]\ncredential = \"t\"\nchannel_id = \"c\"\nbase_address = \"b\"\n[features]\nstrip_schema_url = \"yes\"\n";
    assert_eq!(Config::parse(text), Err(ConfigError::WrongType(ConfigKey::StripSchemaUrl)));
}

#[test]
fn empty_texts_fail() {
    let text = "[destination]\ncredential = \"\"\nchannel_id = \"c\"\nbase_address = \"b\"\n";
    assert_eq!(Config::parse(text), Err(ConfigError::Empty(ConfigKey::Credential)));
    let text = "[destination]\ncredential = \"t\"\nchannel_id = \"\"\nbase_address = \"b\"\n";
    assert_eq!(Config::parse(text), Err(ConfigError::Empty(ConfigKey::ChannelId)));
    let text = "[destination]\ncredential = \"t\"\nchannel_id = \"c\"\nbase_address = \"\"\n";
    assert_eq!(Config::parse(text), Err(ConfigError::Empty(ConfigKey::BaseAddress)));
}

#[test]
fn text_that_is_not_toml_is_malformed() {
    assert!(matches!(Config::parse("[destination\ncredential = "), Err(ConfigError::Malformed(_))));
    assert!(matches!(Config::parse("a = 1\na = 2\n"), Err(ConfigError::Malformed(_))));
    match Config::parse("= nothing") {
        Err(ConfigError::Malformed(reason)) => assert!(!reason.is_empty()),
        other => panic!("unexpected outcome: {:?}", other),
    }
}

#[test]
fn unknown_entries_are_ignored() {
    let text = "other = 1\n[destination]\ncredential = \"t\"\nchannel_id = \"c\"\nbase_address = \"b\"\nextra = [1, 2]\n[features]\nmore = 1.5\n[elsewhere]\nx = 1979-05-27\n";
    let config = Config::parse(text).unwrap();
    assert_eq!(config.discord.bot_token, "t");
    assert_eq!(config.mcp, Some(McpConfig { disable_schema_url: None }));
}

#[test]
fn from_table_agrees_with_parse() {
    let parsed = Config::parse(FULL);
    let built = Config::from_table(&table(FULL));
    assert_eq!(parsed, built);
    let broken = "[destination]\ncredential = \"t\"\n";
    assert_eq!(Config::parse(broken), Config::from_table(&table(broken)));
}

#[test]
fn parts_are_read_separately() {
    let document = table(FULL);
    let discord = DiscordConfig::from_table(&document).unwrap();
    assert_eq!(discord.channel_id, "1234567890");
    assert_eq!(
        McpConfig::from_table(&document),
        Ok(Some(McpConfig { disable_schema_url: Some(true) }))
    );
    assert_eq!(McpConfig::from_table(&table("x = 1\n")), Ok(None));
}

#[test]
fn load_reports_an_unreadable_file() {
    let outcome = Config::load(Err("No such file or directory (os error 2)".to_string()));
    assert_eq!(
        outcome,
        Err(ConfigError::Unreadable("No such file or directory (os error 2)".to_string()))
    );
}

#[test]
fn load_parses_the_text_that_was_read() {
    let config = Config::load(Ok(FULL.to_string())).unwrap();
    assert_eq!(config.discord.base_url, "https://chat.example/api/v10");
    assert!(config.disable_schema_url());
    assert_eq!(
        Config::load(Ok("[destination]\n".to_string())),
        Err(ConfigError::Missing(ConfigKey::Credential))
    );
}

#[test]
fn faults_are_put_in_words() {
    assert_eq!(
        ConfigError::Unreadable("denied".to_string()).message(),
        "cannot read the configuration: denied"
    );
    assert_eq!(
        ConfigError::Malformed("expected `=`".to_string()).message(),
        "the configuration is not valid TOML: expected `=`"
    );
    assert_eq!(
        ConfigError::Missing(ConfigKey::Credential).message(),
        "the configuration lacks `destination.credential`"
    );
    assert_eq!(
        ConfigError::WrongType(ConfigKey::StripSchemaUrl).message(),
        "the configuration holds the wrong kind of value in `features.strip_schema_url`"
    );
    assert_eq!(
        ConfigError::Empty(ConfigKey::BaseAddress).message(),
        "the configuration holds an empty text in `destination.base_address`"
    );
    assert_eq!(ConfigKey::Destination.as_str(), "destination");
    assert_eq!(ConfigKey::ChannelId.as_str(), "destination.channel_id");
    assert_eq!(ConfigKey::Features.as_str(), "features");
}
