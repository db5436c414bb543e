use mudcrab::{
    lookup, resolve, resolve_values, ConfigKey, MissingConfiguration, ResolvedConfig,
};

fn store(entries: &[(&str, &str)]) -> config::Config {
    let mut settings = config::Config::default();
    for (key, value) in entries {
        settings.set(key, *value).unwrap();
    }
    settings
}

fn some(text: &str) -> Option<String> {
    Some(text.to_string())
}

#[test]
fn overrides_win_over_persisted_values() {
    let persisted = store(&[("addon_list_file", "x"), ("addon_dir", "y")]);
    let resolved = resolve(some("a"), some("b"), &persisted, "/cfg/config.toml");
    assert_eq!(
        resolved,
        Ok(ResolvedConfig { addon_list_path: "a".to_string(), destination_dir: "b".to_string() })
    );
}

#[test]
fn overrides_alone_are_enough() {
    let persisted = config::Config::default();
    let resolved = resolve(some("list.txt"), some("/addons"), &persisted, "/cfg/config.toml");
    assert_eq!(
        resolved,
        Ok(ResolvedConfig {
            addon_list_path: "list.txt".to_string(),
            destination_dir: "/addons".to_string(),
        })
    );
}

#[test]
fn persisted_values_are_used_without_overrides() {
    let persisted = store(&[("addon_list_file", "x"), ("addon_dir", "y")]);
    let resolved = resolve(None, None, &persisted, "/cfg/config.toml");
    assert_eq!(
        resolved,
        Ok(ResolvedConfig { addon_list_path: "x".to_string(), destination_dir: "y".to_string() })
    );
}

#[test]
fn each_setting_is_settled_on_its_own() {
    let persisted = store(&[("addon_list_file", "x"), ("addon_dir", "y")]);
    let resolved = resolve(None, some("b"), &persisted, "/cfg/config.toml");
    assert_eq!(
        resolved,
        Ok(ResolvedConfig { addon_list_path: "x".to_string(), destination_dir: "b".to_string() })
    );
    let resolved = resolve(some("a"), None, &persisted, "/cfg/config.toml");
    assert_eq!(
        resolved,
        Ok(ResolvedConfig { addon_list_path: "a".to_string(), destination_dir: "y".to_string() })
    );
}

#[test]
fn missing_list_is_named() {
    let persisted = store(&[("addon_dir", "y")]);
    let resolved = resolve(None, None, &persisted, "/cfg/config.toml");
    assert_eq!(
        resolved,
        Err(MissingConfiguration {
            keys: vec![ConfigKey::AddonListFile],
            location: "/cfg/config.toml".to_string(),
        })
    );
}

#[test]
fn missing_destination_is_named() {
    let persisted = store(&[("addon_list_file", "x")]);
    let resolved = resolve(None, None, &persisted, "/cfg/config.toml");
    assert_eq!(
        resolved,
        Err(MissingConfiguration {
            keys: vec![ConfigKey::AddonDir],
            location: "/cfg/config.toml".to_string(),
        })
    );
}

#[test]
fn missing_destination_is_named_beside_an_override_of_the_list() {
    let persisted = config::Config::default();
    let resolved = resolve(some("a"), None, &persisted, "here");
    assert_eq!(
        resolved,
        Err(MissingConfiguration { keys: vec![ConfigKey::AddonDir], location: "here".to_string() })
    );
}

#[test]
fn both_are_named_where_both_are_missing() {
    let persisted = config::Config::default();
    let resolved = resolve(None, None, &persisted, "/cfg/config.toml");
    assert_eq!(
        resolved,
        Err(MissingConfiguration {
            keys: vec![ConfigKey::AddonListFile, ConfigKey::AddonDir],
            location: "/cfg/config.toml".to_string(),
        })
    );
}

#[test]
fn other_keys_do_not_count() {
    let persisted = store(&[("addonList", "x"), ("addonDir", "y"), ("addon_list", "z")]);
    let resolved = resolve(None, None, &persisted, "/cfg/config.toml");
    assert_eq!(
        resolved,
        Err(MissingConfiguration {
            keys: vec![ConfigKey::AddonListFile, ConfigKey::AddonDir],
            location: "/cfg/config.toml".to_string(),
        })
    );
}

#[test]
fn lookup_reads_the_store() {
    let persisted = store(&[("addon_list_file", "lists/mine.txt")]);
    assert_eq!(lookup(&persisted, ConfigKey::AddonListFile), some("lists/mine.txt"));
    assert_eq!(lookup(&persisted, ConfigKey::AddonDir), None);
}

#[test]
fn lookup_gives_the_text_of_a_number() {
    let mut persisted = config::Config::default();
    persisted.set("addon_dir", 42).unwrap();
    assert_eq!(lookup(&persisted, ConfigKey::AddonDir), some("42"));
}

#[test]
fn lookup_finds_no_text_in_a_table() {
    let mut persisted = config::Config::default();
    persisted.set("addon_dir.inner", "deep").unwrap();
    assert_eq!(lookup(&persisted, ConfigKey::AddonDir), None);
}

#[test]
fn resolve_values_prefers_overrides() {
    let resolved = resolve_values(some("a"), some("b"), some("x"), some("y"), "loc");
    assert_eq!(
        resolved,
        Ok(ResolvedConfig { addon_list_path: "a".to_string(), destination_dir: "b".to_string() })
    );
}

#[test]
fn resolve_values_falls_back_to_persisted() {
    let resolved = resolve_values(None, None, some("x"), some("y"), "loc");
    assert_eq!(
        resolved,
        Ok(ResolvedConfig { addon_list_path: "x".to_string(), destination_dir: "y".to_string() })
    );
}

#[test]
fn resolve_values_reports_what_is_missing() {
    assert_eq!(
        resolve_values(None, some("b"), None, some("y"), "loc"),
        Err(MissingConfiguration {
            keys: vec![ConfigKey::AddonListFile],
            location: "loc".to_string(),
        })
    );
    assert_eq!(
        resolve_values(some("a"), None, some("x"), None, "loc"),
        Err(MissingConfiguration { keys: vec![ConfigKey::AddonDir], location: "loc".to_string() })
    );
    assert_eq!(
        resolve_values(None, None, None, None, ""),
        Err(MissingConfiguration {
            keys: vec![ConfigKey::AddonListFile, ConfigKey::AddonDir],
            location: String::new(),
        })
    );
}

#[test]
fn key_names() {
    assert_eq!(ConfigKey::AddonListFile.name(), "addon_list_file");
    assert_eq!(ConfigKey::AddonDir.name(), "addon_dir");
}

#[test]
fn empty_settings_are_not_usable() {
    let usable =
        ResolvedConfig { addon_list_path: "l".to_string(), destination_dir: "d".to_string() };
    assert!(usable.is_usable());
    let no_list =
        ResolvedConfig { addon_list_path: String::new(), destination_dir: "d".to_string() };
    assert!(!no_list.is_usable());
    let no_dest =
        ResolvedConfig { addon_list_path: "l".to_string(), destination_dir: String::new() };
    assert!(!no_dest.is_usable());
}
