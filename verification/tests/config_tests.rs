//! Configuration assembly and session construction.

use aleph_tui::app::{App, ConfigError};
use aleph_tui::config::Config;

fn entries(names: &[&str]) -> Vec<(String, String, String)> {
    names
        .iter()
        .enumerate()
        .map(|(i, n)| {
            (
                n.to_string(),
                format!("https://aleph-{}.example.org", i),
                format!("token-{}", i),
            )
        })
        .collect()
}

#[test]
fn test_de_profiles() {
    let raw = r#"
        default = "foo"

        [profiles]
            [profiles.one]
            url = "url1"
            token = "token1"

            [profiles.two]
            url = "url2"
            token = "token2"
        "#;

    // The file loader's job, done here by hand: pull the default name,
    // the interval, and the profile entries in order out of the
    // parsed document, then hand them to the library as plain values.
    let doc: toml::Value = toml::from_str(raw).unwrap();
    let table = doc.as_table().unwrap();
    let default = table.get("default").unwrap().as_str().unwrap().to_string();
    let interval = table.get("fetch_interval").and_then(|v| v.as_integer());
    let mut profile_entries = Vec::new();
    for (name, body) in table.get("profiles").unwrap().as_table().unwrap() {
        let body = body.as_table().unwrap();
        profile_entries.push((
            name.clone(),
            body.get("url").unwrap().as_str().unwrap().to_string(),
            body.get("token").unwrap().as_str().unwrap().to_string(),
        ));
    }

    let cfg = Config::from_parts(default, profile_entries, interval);
    assert!(cfg.default == "foo");
    assert_eq!(cfg.fetch_interval, 5);
    assert_eq!(cfg.profiles.len(), 2);
    assert_eq!(cfg.profiles[0].name, "one");
    assert_eq!(cfg.profiles[0].index, 0);
    assert_eq!(cfg.profiles[0].url, "url1");
    assert_eq!(cfg.profiles[1].token, "token2");
}

#[test]
fn test_interval_present() {
    let cfg = Config::from_parts("a".to_string(), entries(&["a"]), Some(30));
    assert_eq!(cfg.fetch_interval, 30);
}

#[test]
fn test_interval_absent_defaults_to_five() {
    let cfg = Config::from_parts("a".to_string(), entries(&["a"]), None);
    assert_eq!(cfg.fetch_interval, 5);
}

#[test]
fn test_new_selects_default_profile() {
    let cfg = Config::from_parts("two".to_string(), entries(&["one", "two", "three"]), None);
    let app = App::new(cfg, "1.0.0".to_string(), 0).unwrap();
    assert_eq!(app.current_profile, 1);
    assert_eq!(app.profile_cursor, 1);
    assert_eq!(app.current_profile().name, "two");
    assert!(!app.is_fetching);
    assert!(!app.should_quit);
    assert_eq!(app.status.total, 0);
    assert!(app.error_message.is_empty());
}

#[test]
fn test_new_selects_first_match() {
    let cfg = Config::from_parts("dup".to_string(), entries(&["x", "dup", "dup"]), None);
    let app = App::new(cfg, "1.0.0".to_string(), 0).unwrap();
    assert_eq!(app.current_profile, 1);
}

#[test]
fn test_new_unknown_default_fails() {
    let cfg = Config::from_parts("nowhere".to_string(), entries(&["one", "two"]), None);
    match App::new(cfg, "1.0.0".to_string(), 0) {
        Err(e @ ConfigError::DefaultProfileNotFound) => {
            assert!(!e.message().is_empty());
        }
        Ok(_) => panic!("construction must fail when no profile matches the default"),
    }
}

#[test]
fn test_new_empty_profile_list_fails() {
    let cfg = Config::from_parts("any".to_string(), Vec::new(), None);
    assert!(App::new(cfg, "1.0.0".to_string(), 0).is_err());
}
