use foxbot::config::{lookup_var, parse_owners, BotConfig, Config, ConfigError, ConfigFile,
    DiscordConfig};

fn env(pairs: &[(&str, &str)]) -> Vec<(String, String)> {
    pairs.iter().map(|(name, value)| (name.to_string(), value.to_string())).collect()
}

fn file_config() -> Config {
    Config {
        discord: DiscordConfig { token: "from-file".to_string(), application_id: 5 },
        bot: BotConfig { owners: vec![9], embed_color: "#000000".to_string() },
    }
}

#[test]
fn the_environment_gives_a_configuration() {
    let vars = env(&[
        ("PATH", "/bin"),
        ("DISCORD_TOKEN", "secret"),
        ("APPLICATION_ID", "1234567890123"),
        ("BOT_OWNERS", "1, 2,3"),
        ("EMBED_COLOR", "#ffffff"),
    ]);
    let config = Config::from_env(&vars).unwrap();
    assert_eq!(config.discord.token, "secret");
    assert_eq!(config.discord.application_id, 1234567890123);
    assert_eq!(config.bot.owners, vec![1, 2, 3]);
    assert_eq!(config.bot.embed_color, "#ffffff");
}

#[test]
fn owners_and_colour_have_defaults() {
    let vars = env(&[("APPLICATION_ID", "+7"), ("DISCORD_TOKEN", "")]);
    let config = Config::from_env(&vars).unwrap();
    assert_eq!(config.discord.token, "");
    assert_eq!(config.discord.application_id, 7);
    assert!(config.bot.owners.is_empty());
    assert_eq!(config.bot.embed_color, "#dea584");
}

#[test]
fn a_missing_token_is_the_first_error() {
    assert!(matches!(Config::from_env(&env(&[])), Err(ConfigError::TokenMissing)));
    let vars = env(&[("APPLICATION_ID", "x")]);
    assert!(matches!(Config::from_env(&vars), Err(ConfigError::TokenMissing)));
    let vars = env(&[("discord_token", "t"), ("APPLICATION_ID", "1")]);
    assert!(matches!(Config::from_env(&vars), Err(ConfigError::TokenMissing)));
}

#[test]
fn a_missing_application_id_is_an_error() {
    let vars = env(&[("DISCORD_TOKEN", "t")]);
    assert!(matches!(Config::from_env(&vars), Err(ConfigError::ApplicationIdMissing)));
}

#[test]
fn an_application_id_that_is_no_number_is_an_error() {
    for id in ["", "abc", "-1", "1.5", " 1", "18446744073709551616"] {
        let vars = env(&[("DISCORD_TOKEN", "t"), ("APPLICATION_ID", id)]);
        assert!(
            matches!(Config::from_env(&vars), Err(ConfigError::ApplicationIdInvalid)),
            "for {:?}",
            id
        );
    }
}

#[test]
fn owners_that_are_no_numbers_are_passed_over() {
    assert_eq!(parse_owners("1,2,3"), vec![1, 2, 3]);
    assert_eq!(parse_owners(" 1 ,\t2\n, 3 "), vec![1, 2, 3]);
    assert_eq!(parse_owners("1,x,,3,-4,5.0, ,+6"), vec![1, 3, 6]);
    assert_eq!(parse_owners(""), Vec::<u64>::new());
    assert_eq!(parse_owners(","), Vec::<u64>::new());
    assert_eq!(parse_owners("1 2"), Vec::<u64>::new());
    assert_eq!(parse_owners("18446744073709551615,18446744073709551616"), vec![u64::MAX]);
    assert_eq!(parse_owners("7;8"), Vec::<u64>::new());
}

#[test]
fn owners_agree_with_the_standard_library() {
    for list in ["", "1", "1,2", " 1 , 2 ", "a,1,b", ",,", "+1,-1", "\u{a0}3\u{a0},4\u{2003}"] {
        let expected: Vec<u64> = list.split(',').filter_map(|s| s.trim().parse().ok()).collect();
        assert_eq!(parse_owners(list), expected, "for {:?}", list);
    }
}

#[test]
fn the_first_entry_of_a_name_counts() {
    let vars = env(&[("A", "1"), ("B", "2"), ("A", "3")]);
    assert_eq!(lookup_var(&vars, "A"), Some("1"));
    assert_eq!(lookup_var(&vars, "B"), Some("2"));
    assert_eq!(lookup_var(&vars, "C"), None);
    assert_eq!(lookup_var(&vars, "a"), None);
    assert_eq!(lookup_var(&vars, ""), None);
    assert_eq!(lookup_var(&Vec::new(), "A"), None);
}

#[test]
fn the_environment_goes_before_the_file() {
    let vars = env(&[("DISCORD_TOKEN", "from-env"), ("APPLICATION_ID", "1")]);
    let config = Config::load(&vars, ConfigFile::Parsed { config: file_config() }).unwrap();
    assert_eq!(config.discord.token, "from-env");
    let config =
        Config::load(&vars, ConfigFile::Unreadable { reason: "gone".to_string() }).unwrap();
    assert_eq!(config.discord.token, "from-env");
    assert_eq!(config.discord.application_id, 1);
}

#[test]
fn the_file_stands_in_for_the_environment() {
    let vars = env(&[("DISCORD_TOKEN", "from-env")]);
    let config = Config::load(&vars, ConfigFile::Parsed { config: file_config() }).unwrap();
    assert_eq!(config.discord.token, "from-file");
    assert_eq!(config.discord.application_id, 5);
    assert_eq!(config.bot.owners, vec![9]);
    assert_eq!(config.bot.embed_color, "#000000");
}

#[test]
fn without_environment_and_file_the_error_is_the_files() {
    let vars = env(&[]);
    let outcome = Config::load(&vars, ConfigFile::Unreadable { reason: "gone".to_string() });
    assert!(matches!(outcome, Err(ConfigError::FileUnreadable { reason }) if reason == "gone"));
    let outcome = Config::load(&vars, ConfigFile::Malformed { reason: "line 1".to_string() });
    assert!(matches!(outcome, Err(ConfigError::FileMalformed { reason }) if reason == "line 1"));
}

#[test]
fn the_file_gives_what_it_holds() {
    let config = Config::from_file(ConfigFile::Parsed { config: file_config() }).unwrap();
    assert_eq!(config.discord.token, "from-file");
    let outcome = Config::from_file(ConfigFile::Unreadable { reason: "r".to_string() });
    assert!(matches!(outcome, Err(ConfigError::FileUnreadable { reason }) if reason == "r"));
    let outcome = Config::from_file(ConfigFile::Malformed { reason: "m".to_string() });
    assert!(matches!(outcome, Err(ConfigError::FileMalformed { reason }) if reason == "m"));
}

#[test]
fn the_default_configuration_sets_nothing() {
    let config = Config::default();
    assert_eq!(config.discord.token, "");
    assert_eq!(config.discord.application_id, 0);
    assert!(config.bot.owners.is_empty());
    assert_eq!(config.bot.embed_color, "#dea584");
}

#[test]
fn errors_have_their_lines() {
    assert_eq!(
        ConfigError::TokenMissing.message(),
        "DISCORD_TOKEN environment variable not found"
    );
    assert_eq!(
        ConfigError::ApplicationIdMissing.message(),
        "APPLICATION_ID environment variable not found"
    );
    assert_eq!(ConfigError::ApplicationIdInvalid.message(), "APPLICATION_ID must be a valid u64");
    assert_eq!(
        ConfigError::FileUnreadable { reason: "gone".to_string() }.message(),
        "Failed to read config file: config.toml: gone"
    );
    assert_eq!(
        ConfigError::FileMalformed { reason: "line 3".to_string() }.message(),
        "Failed to parse config file: config.toml: line 3"
    );
}

#[test]
fn the_configuration_file_has_its_name() {
    assert_eq!(Config::file_name(), "config.toml");
}
