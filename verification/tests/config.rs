use saves_sync::config::{Config, ConfigError, GameEntry};

fn entry(name: &str, source: &str, destination: &str, enabled: bool) -> GameEntry {
    GameEntry::new(name.to_string(), source.to_string(), destination.to_string(), enabled)
        .expect("the two paths differ")
}

#[test]
fn entry_keeps_what_it_was_made_with() {
    let e = entry("Foo", "/repo/foo/save", "/home/u/.foo/save", true);
    assert_eq!(e.name(), "Foo");
    assert_eq!(e.source(), "/repo/foo/save");
    assert_eq!(e.destination(), "/home/u/.foo/save");
    assert!(e.enabled());
    let d = entry("Bar", "a", "b", false);
    assert!(!d.enabled());
}

#[test]
fn entry_with_one_path_for_both_is_refused() {
    let r = GameEntry::new("Foo".to_string(), "/same".to_string(), "/same".to_string(), true);
    assert!(matches!(r, Err(ConfigError::SamePath)));
    let r = GameEntry::new("Foo".to_string(), String::new(), String::new(), false);
    assert!(matches!(r, Err(ConfigError::SamePath)));
}

#[test]
fn entry_with_paths_that_differ_by_one_letter_is_taken() {
    let r = GameEntry::new("Foo".to_string(), "/save".to_string(), "/savf".to_string(), true);
    assert!(r.is_ok());
    let r = GameEntry::new("Foo".to_string(), "/save".to_string(), "/save/".to_string(), true);
    assert!(r.is_ok());
}

#[test]
fn config_keeps_repo_and_games_in_order() {
    let games = vec![
        ("zeta".to_string(), entry("Z", "/r/z", "/h/z", true)),
        ("alpha".to_string(), entry("A", "/r/a", "/h/a", false)),
        ("mid".to_string(), entry("M", "/r/m", "/h/m", true)),
    ];
    let config = Config::new("/repo".to_string(), games).expect("keys differ");
    assert_eq!(config.repo(), "/repo");
    assert_eq!(config.games().len(), 3);
    assert_eq!(config.games()[0].0, "zeta");
    assert_eq!(config.games()[1].1.name(), "A");
    assert_eq!(config.games()[2].1.source(), "/r/m");
}

#[test]
fn list_gives_the_keys_in_order() {
    let games = vec![
        ("zeta".to_string(), entry("Z", "/r/z", "/h/z", true)),
        ("alpha".to_string(), entry("A", "/r/a", "/h/a", false)),
        ("mid".to_string(), entry("M", "/r/m", "/h/m", true)),
    ];
    let config = Config::new("/repo".to_string(), games).expect("keys differ");
    assert_eq!(config.list(), vec!["zeta", "alpha", "mid"]);
}

#[test]
fn list_of_no_games_is_empty() {
    let config = Config::new("/repo".to_string(), Vec::new()).expect("no keys");
    assert!(config.list().is_empty());
}

#[test]
fn list_gives_keys_and_not_names() {
    let games = vec![("key".to_string(), entry("Name", "/r/a", "/h/a", true))];
    let config = Config::new("/repo".to_string(), games).expect("one key");
    assert_eq!(config.list(), vec!["key"]);
}

#[test]
fn config_with_a_key_twice_is_refused() {
    let games = vec![
        ("one".to_string(), entry("A", "/r/a", "/h/a", true)),
        ("two".to_string(), entry("B", "/r/b", "/h/b", true)),
        ("one".to_string(), entry("C", "/r/c", "/h/c", true)),
    ];
    let r = Config::new("/repo".to_string(), games);
    assert!(matches!(r, Err(ConfigError::DuplicateKey)));
}

#[test]
fn config_with_neighbouring_equal_keys_is_refused() {
    let games = vec![
        ("one".to_string(), entry("A", "/r/a", "/h/a", true)),
        ("one".to_string(), entry("B", "/r/b", "/h/b", true)),
    ];
    let r = Config::new("/repo".to_string(), games);
    assert!(matches!(r, Err(ConfigError::DuplicateKey)));
}

#[test]
fn config_takes_equal_names_under_keys_that_differ() {
    let games = vec![
        ("one".to_string(), entry("Same", "/r/a", "/h/a", true)),
        ("two".to_string(), entry("Same", "/r/b", "/h/b", true)),
    ];
    assert!(Config::new("/repo".to_string(), games).is_ok());
}

#[test]
fn push_does_nothing_and_succeeds() {
    let games = vec![("one".to_string(), entry("A", "/r/a", "/h/a", true))];
    let config = Config::new("/repo".to_string(), games).expect("one key");
    assert_eq!(config.push(), Ok(()));
    assert_eq!(config.push(), Ok(()));
    assert_eq!(config.list(), vec!["one"]);
}
