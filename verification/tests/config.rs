use llmpulse_cli::config::{
    active_profile, get_value, list_profiles, mask_api_key, profile_path, read_config, resolve,
    set_active_profile, set_value, try_mask_api_key, validate_base_url, validate_profile_name,
    Config, ConfigStore, ConfigTarget, EnvSettings, Overrides, StoredConfig, DEFAULT_BASE_URL,
};
use llmpulse_cli::error::CliError;

fn config(api_key: Option<&str>, base_url: Option<&str>, project: Option<u64>, active: Option<&str>) -> Config {
    Config {
        api_key: api_key.map(String::from),
        base_url: base_url.map(String::from),
        default_project_id: project,
        active_profile: active.map(String::from),
    }
}

fn empty_store() -> ConfigStore {
    ConfigStore { base: StoredConfig::Missing, profiles: Vec::new() }
}

fn usage_text(error: &CliError) -> String {
    match error {
        CliError::Usage(text) => text.clone(),
        other => panic!("expected a usage error, got {other:?}"),
    }
}

fn no_overrides() -> Overrides {
    Overrides { api_key: None, base_url: None, project_id: None, verbose: false }
}

fn no_env() -> EnvSettings {
    EnvSettings { api_key: None, base_url: None, project_id: None }
}

#[test]
fn validates_secure_and_local_urls() {
    assert!(validate_base_url("https://api.example.com/v1").is_ok());
    assert!(validate_base_url("http://127.0.0.1:3000/api/v1").is_ok());
    assert!(validate_base_url("http://api.example.com/v1").is_err());
    assert!(validate_base_url("not a url").is_err());
}

#[test]
fn masks_api_keys() {
    assert_eq!(mask_api_key("short"), "***");
    assert_eq!(mask_api_key("llmpulse_abcdefghijk"), "llmpulse_abc***ijk");
}

#[test]
fn rejects_unsafe_profile_names() {
    assert!(validate_profile_name("production").is_ok());
    assert!(validate_profile_name("team-1_us").is_ok());
    assert!(validate_profile_name("../secrets").is_err());
}

#[test]
fn base_urls_lose_trailing_slashes_and_report_why_they_fail() {
    assert_eq!(validate_base_url("https://api.example.com/v1//").unwrap(), "https://api.example.com/v1");
    assert!(validate_base_url("http://localhost:8080").is_ok());
    assert_eq!(validate_base_url("http://[::1]:3000/api/v1").unwrap(), "http://[::1]:3000/api/v1");
    assert!(validate_base_url("http://[::2]:8080").is_err());
    match validate_base_url("not a url").unwrap_err() {
        CliError::Config(text) => assert_eq!(text, "Invalid base URL: not a url"),
        other => panic!("unexpected {other:?}"),
    }
    match validate_base_url("http://api.example.com/v1").unwrap_err() {
        CliError::Config(text) => assert_eq!(
            text,
            "Refusing to use insecure base URL 'http://api.example.com/v1'. Use https://. HTTP is allowed only for localhost."
        ),
        other => panic!("unexpected {other:?}"),
    }
    assert!(validate_base_url("ftp://example.com").is_err());
}

#[test]
fn masking_is_refused_only_where_a_character_would_be_cut() {
    assert_eq!(try_mask_api_key("abcdefghijklmn"), Some("***".to_string()));
    assert_eq!(try_mask_api_key("abcdefghijklmno"), Some("abcdefghijkl***mno".to_string()));
    assert_eq!(try_mask_api_key("abcdefghijkéxyz12"), None);
    assert_eq!(try_mask_api_key("abcdefghijklmno€x"), None);
    assert_eq!(try_mask_api_key("abcdefghijklé€"), Some("abcdefghijkl***€".to_string()));
}

#[test]
fn profile_names_and_paths() {
    assert_eq!(profile_path("team-1_us").unwrap(), "profiles/team-1_us.json");
    assert!(profile_path("").is_err());
    assert_eq!(
        usage_text(&profile_path("a b").unwrap_err()),
        "Profile names may contain letters, numbers, hyphens, and underscores"
    );
}

#[test]
fn a_value_set_is_read_back() {
    let mut store = empty_store();
    let writes = set_value(&store, "default_project_id", "77").unwrap();
    assert_eq!(writes.len(), 1);
    assert!(matches!(writes[0].target, ConfigTarget::Base));
    assert_eq!(writes[0].config.default_project_id, Some(77));
    store.apply(&writes[0]);
    assert_eq!(get_value(&store, "default_project_id").unwrap(), Some("77".to_string()));
    assert_eq!(get_value(&store, "api_key").unwrap(), None);
}

#[test]
fn setting_one_key_keeps_the_others() {
    let mut store = ConfigStore {
        base: StoredConfig::Parsed(config(Some("key_1234567890abc"), Some("https://a.example"), Some(5), None)),
        profiles: Vec::new(),
    };
    let writes = set_value(&store, "base_url", "https://b.example/").unwrap();
    for w in &writes {
        store.apply(w);
    }
    assert_eq!(get_value(&store, "base_url").unwrap(), Some("https://b.example".to_string()));
    assert_eq!(get_value(&store, "api_key").unwrap(), Some("key_1234567890abc".to_string()));
    assert_eq!(get_value(&store, "default_project_id").unwrap(), Some("5".to_string()));
}

#[test]
fn setting_writes_the_active_profile() {
    let store = ConfigStore {
        base: StoredConfig::Parsed(config(Some("base-key"), None, None, Some("work"))),
        profiles: vec![("work".to_string(), StoredConfig::Parsed(config(None, None, Some(3), None)))],
    };
    let writes = set_value(&store, "api_key", "work-key").unwrap();
    assert_eq!(writes.len(), 1);
    match &writes[0].target {
        ConfigTarget::Profile(name) => assert_eq!(name, "work"),
        ConfigTarget::Base => panic!("the base file was written"),
    }
    assert_eq!(writes[0].config.api_key.as_deref(), Some("work-key"));
    assert_eq!(writes[0].config.default_project_id, Some(3));
    let merged = read_config(&store).unwrap();
    assert_eq!(merged.api_key.as_deref(), Some("base-key"));
    assert_eq!(merged.default_project_id, Some(3));
}

#[test]
fn setting_rejects_unknown_keys_and_bad_values() {
    let store = empty_store();
    assert_eq!(
        usage_text(&set_value(&store, "colour", "blue").unwrap_err()),
        "Unknown config key 'colour'. Use api_key, base_url, or default_project_id"
    );
    assert_eq!(
        usage_text(&set_value(&store, "default_project_id", "-4").unwrap_err()),
        "default_project_id must be a positive integer"
    );
    assert!(matches!(set_value(&store, "base_url", "http://remote.example").unwrap_err(), CliError::Config(_)));
    assert_eq!(
        usage_text(&get_value(&store, "colour").unwrap_err()),
        "Unknown config key 'colour'. Use api_key, base_url, default_project_id, or active_profile"
    );
}

#[test]
fn using_a_profile_makes_it_active() {
    let mut store = empty_store();
    let writes = set_active_profile(&store, "staging").unwrap();
    assert_eq!(writes.len(), 2);
    for w in &writes {
        store.apply(w);
    }
    assert_eq!(active_profile(&store).unwrap(), Some("staging".to_string()));
    assert!(store.profile("staging").is_some());
    assert!(set_active_profile(&store, "../up").is_err());
}

#[test]
fn unreadable_and_unparsable_files_are_errors() {
    let store = ConfigStore { base: StoredConfig::Unparsable("Could not parse config.json: eof".to_string()), profiles: Vec::new() };
    assert!(matches!(read_config(&store).unwrap_err(), CliError::Config(_)));
    let store = ConfigStore { base: StoredConfig::Unreadable("denied".to_string()), profiles: Vec::new() };
    assert!(matches!(read_config(&store).unwrap_err(), CliError::Io(_)));
}

#[test]
fn flags_beat_environment_beats_files() {
    let store = ConfigStore {
        base: StoredConfig::Parsed(config(Some("file-key"), Some("https://file.example"), Some(1), None)),
        profiles: Vec::new(),
    };
    let resolved = resolve(&store, no_overrides(), no_env()).unwrap();
    assert_eq!(resolved.api_key, "file-key");
    assert_eq!(resolved.base_url, "https://file.example");
    assert_eq!(resolved.project_id, Some(1));

    let env = EnvSettings {
        api_key: Some("env-key".to_string()),
        base_url: Some("https://env.example/".to_string()),
        project_id: Some("2".to_string()),
    };
    let resolved = resolve(&store, no_overrides(), env).unwrap();
    assert_eq!(resolved.api_key, "env-key");
    assert_eq!(resolved.base_url, "https://env.example");
    assert_eq!(resolved.project_id, Some(2));

    let flags = Overrides {
        api_key: Some("flag-key".to_string()),
        base_url: None,
        project_id: Some(3),
        verbose: true,
    };
    let env = EnvSettings { api_key: Some("env-key".to_string()), base_url: None, project_id: Some("x".to_string()) };
    let resolved = resolve(&store, flags, env).unwrap();
    assert_eq!(resolved.api_key, "flag-key");
    assert_eq!(resolved.project_id, Some(3));
    assert!(resolved.verbose);

    let env = EnvSettings { api_key: None, base_url: None, project_id: Some("x".to_string()) };
    assert_eq!(resolve(&store, no_overrides(), env).unwrap().project_id, Some(1));
}

#[test]
fn defaults_apply_when_nothing_is_configured() {
    let resolved = resolve(&empty_store(), no_overrides(), no_env()).unwrap();
    assert_eq!(resolved.api_key, "");
    assert_eq!(resolved.base_url, DEFAULT_BASE_URL);
    assert_eq!(resolved.project_id, None);
}

#[test]
fn profiles_are_listed_sorted_from_json_files() {
    let names = vec![
        "zeta.json".to_string(),
        "notes.txt".to_string(),
        "alpha.json".to_string(),
        "mid.json".to_string(),
    ];
    assert_eq!(list_profiles(&names), vec!["alpha".to_string(), "mid".to_string(), "zeta".to_string()]);
}
