use fgm::auth;
use fgm::auth::TokenSource;
use fgm::config::{
    default_css_prefix, default_format, default_image_protocol, default_output_format,
    default_scale, default_swift_prefix, get_value, normalize_key, set_value, Config, ConfigError,
};

#[test]
fn normalize_key_canonicalizes() {
    assert_eq!(normalize_key("  Defaults.Team-ID  "), "defaults.team_id");
    assert_eq!(normalize_key("export . default scale"), "export.defaultscale");
    assert_eq!(normalize_key("tokens.css_prefix"), "tokens.css_prefix");
}

#[test]
fn get_value_reads_each_field() {
    let mut config = Config::default();
    config.defaults.team_id = Some("t99".to_string());
    config.defaults.output_format = "table".to_string();
    config.export.default_scale = 2;
    assert_eq!(get_value(&config, "defaults.team_id").unwrap(), "t99");
    assert_eq!(get_value(&config, "defaults.output_format").unwrap(), "table");
    assert_eq!(get_value(&config, "export.default_scale").unwrap(), "2");
    assert_eq!(get_value(&config, "export.output_dir").unwrap(), "");
    assert_eq!(
        get_value(&config, "no.such.key").unwrap_err(),
        ConfigError::UnknownKey
    );
}

#[test]
fn set_value_validates_and_lowers() {
    let mut config = Config::default();
    set_value(&mut config, "defaults.output_format", Some("JSON"), false).unwrap();
    assert_eq!(config.defaults.output_format, "json");

    assert_eq!(
        set_value(&mut config, "defaults.output_format", Some("yaml"), false).unwrap_err(),
        ConfigError::InvalidValue
    );
    // A rejected set leaves the configuration untouched.
    assert_eq!(config.defaults.output_format, "json");

    assert_eq!(
        set_value(&mut config, "defaults.output_format", None, false).unwrap_err(),
        ConfigError::MissingValue
    );
    assert_eq!(
        set_value(&mut config, "bogus", Some("x"), false).unwrap_err(),
        ConfigError::UnknownKey
    );
}

#[test]
fn set_value_handles_scale_and_unset() {
    let mut config = Config::default();
    set_value(&mut config, "export.default_scale", Some("3"), false).unwrap();
    assert_eq!(config.export.default_scale, 3);
    assert_eq!(
        set_value(&mut config, "export.default_scale", Some("9"), false).unwrap_err(),
        ConfigError::InvalidValue
    );

    set_value(&mut config, "defaults.team_id", Some("team7"), false).unwrap();
    assert_eq!(config.defaults.team_id, Some("team7".to_string()));
    set_value(&mut config, "defaults.team_id", None, true).unwrap();
    assert_eq!(config.defaults.team_id, None);

    set_value(&mut config, "export.output_dir", Some("out"), false).unwrap();
    assert_eq!(config.export.output_dir, Some("out".to_string()));
    set_value(&mut config, "export.output_dir", None, true).unwrap();
    assert_eq!(config.export.output_dir, None);

    set_value(&mut config, "tokens.css_prefix", Some("--X-"), false).unwrap();
    assert_eq!(config.tokens.css_prefix, "--X-");
}

#[test]
fn defaults_have_their_documented_values() {
    assert_eq!(default_output_format(), "table");
    assert_eq!(default_image_protocol(), "auto");
    assert_eq!(default_format(), "png");
    assert_eq!(default_scale(), 2);
    assert_eq!(default_css_prefix(), "--figma-");
    assert_eq!(default_swift_prefix(), "Figma");
}

#[test]
fn config_token_round_trip() {
    let mut config = Config::default();
    assert!(!config.has_token());
    config.set_token("SECRET-REDACTED");
    assert!(config.has_token());
    assert_eq!(config.get_token(), Some("SECRET-REDACTED"));
    config.remove_token();
    assert!(config.get_token().is_none());
}

#[test]
fn config_path_is_under_the_config_dir() {
    if let Some(p) = Config::config_path() {
        assert!(p.ends_with("/config.toml"));
    }
}

#[test]
fn token_sources_cascade() {
    let env = Some("envtok".to_string());
    let kc = Some("kctok".to_string());
    let cfg = Some("cfgtok".to_string());

    let r = auth::get_token_with_source(env.clone(), kc.clone(), cfg.clone()).unwrap();
    assert_eq!(r.source, TokenSource::Environment);
    assert_eq!(r.token, "envtok");

    // An empty environment value does not count.
    let r = auth::get_token_with_source(Some(String::new()), kc.clone(), cfg.clone()).unwrap();
    assert_eq!(r.source, TokenSource::Keychain);
    assert_eq!(r.token, "kctok");

    let r = auth::get_token_with_source(None, None, cfg.clone()).unwrap();
    assert_eq!(r.source, TokenSource::ConfigFile);
    assert_eq!(r.token, "cfgtok");

    assert!(auth::get_token_with_source(None, None, None).is_none());
    assert_eq!(auth::get_token(None, kc, None), Some("kctok".to_string()));
    assert!(auth::has_token(env, None, None));
    assert!(!auth::has_token(None, None, None));
}

#[test]
fn removal_requires_one_success() {
    assert!(auth::remove_token(None, Some("no entry".to_string())).is_ok());
    assert!(auth::remove_token(Some("locked".to_string()), None).is_ok());
    let msg = auth::remove_token(Some("locked".to_string()), Some("absent".to_string()))
        .unwrap_err();
    assert_eq!(msg, "Failed to remove token: keychain: locked, config: absent");
}

#[test]
fn config_file_token_helpers() {
    let mut config = Config::default();
    assert!(auth::get_token_from_config(&config).is_none());
    assert!(auth::remove_token_from_config(&mut config).is_err());

    auth::store_token_in_config(&mut config, "tok");
    assert_eq!(auth::get_token_from_config(&config), Some("tok".to_string()));
    assert!(auth::remove_token_from_config(&mut config).is_ok());
    assert!(!config.has_token());
}

#[test]
fn masking_hides_tokens() {
    assert_eq!(auth::mask_token("short"), "*****");
    assert_eq!(auth::mask_token("123456789012"), "************");
    assert_eq!(auth::mask_token("figd_AAAABBBBCCCC"), "figd_AAA...CCCC");
}

#[test]
fn keychain_info_names_service_and_account() {
    let (service, account) = auth::get_keychain_info();
    assert_eq!(service, "fgm");
    assert_eq!(account, "figma_token");
}
