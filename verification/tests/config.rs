use transit_hub::config::{is_admissible, Config, MAX_CONFIG_LENGTH, MAX_NESTING_MARKS};

const TEST_API_KEY: &str = "api_key";
const TEST_API_KEY_VALUE: &str = "a12b34c567d89";
const TEST_DATABASE_KEY: &str = "test_uri";
const TEST_DATABASE_KEY_VALUE: &str = "testconnectionstring";

#[test]
fn test_config() {
    let yaml_content: String = format!(
        "
{}:
  {}: {}
{}:
  {}: {}
",
        "trafiklab_api",
        TEST_API_KEY,
        TEST_API_KEY_VALUE,
        "database",
        TEST_DATABASE_KEY,
        TEST_DATABASE_KEY_VALUE
    );

    let mut config_handler = Config::new();

    assert_eq!(config_handler.load_config(&yaml_content).is_ok(), true);

    assert_eq!(config_handler.get_trafiklab_value("bad_key").is_none(), true);
    assert_eq!(config_handler.get_database_value("bad_key").is_none(), true);

    let get_key_result_database = config_handler.get_database_value(TEST_DATABASE_KEY);
    let get_key_result_trafik = config_handler.get_trafiklab_value(TEST_API_KEY);

    assert_eq!(get_key_result_trafik.is_some(), true);
    assert_eq!(get_key_result_trafik.unwrap(), TEST_API_KEY_VALUE);

    assert_eq!(get_key_result_database.is_some(), true);
    assert_eq!(get_key_result_database.unwrap(), TEST_DATABASE_KEY_VALUE);
}

#[test]
fn nothing_is_found_before_anything_is_loaded() {
    let config = Config::new();
    assert_eq!(config.get_config_value("database", "uri"), None);
    assert_eq!(config.get_trafiklab_value("realtime_key"), None);
}

#[test]
fn text_that_is_no_yaml_is_refused_and_changes_nothing() {
    let mut config = Config::new();
    assert_eq!(config.load_config("database:\n  uri: mongodb://db\n"), Ok(()));
    assert_eq!(
        config.load_config("database: [unclosed"),
        Err("Could not parse contents of the config file into YAML.".to_string())
    );
    assert_eq!(config.get_database_value("uri"), Some("mongodb://db".to_string()));
}

#[test]
fn only_strings_two_levels_down_are_values() {
    let mut config = Config::new();
    let text = "
trafiklab_api:
  realtime_key: abc
  echo_interval: 2
  nested:
    inner: x
database: plain
list:
  - one
---
database:
  uri: second-document
";
    assert_eq!(config.load_config(text), Ok(()));
    assert_eq!(config.get_trafiklab_value("realtime_key"), Some("abc".to_string()));
    // A number is no string.
    assert_eq!(config.get_trafiklab_value("echo_interval"), None);
    assert_eq!(config.get_trafiklab_value("nested"), None);
    assert_eq!(config.get_config_value("nested", "inner"), None);
    // A section that is no list of keys holds nothing.
    assert_eq!(config.get_database_value("uri"), None);
    assert_eq!(config.get_config_value("list", "one"), None);
    assert_eq!(config.get_config_value("missing", "realtime_key"), None);
}

#[test]
fn loading_again_replaces_what_was_loaded() {
    let mut config = Config::new();
    assert_eq!(config.load_config("database:\n  uri: first\n"), Ok(()));
    assert_eq!(config.load_config("database:\n  name: second\n"), Ok(()));
    assert_eq!(config.get_database_value("uri"), None);
    assert_eq!(config.get_database_value("name"), Some("second".to_string()));
    // A text without any document leaves nothing loaded.
    assert_eq!(config.load_config(""), Ok(()));
    assert_eq!(config.get_database_value("name"), None);
}

const REFUSED: &str = "The contents of the config file are too long or nested too deeply.";

fn nested(depth: usize) -> String {
    let mut text = "- ".repeat(depth);
    text.push('x');
    text
}

#[test]
fn the_deepest_nesting_that_is_taken_loads() {
    assert_eq!(MAX_NESTING_MARKS, 128);
    let mut config = Config::new();
    assert_eq!(config.load_config(&nested(128)), Ok(()));
    assert_eq!(config.get_config_value("a", "b"), None);
    let flow = format!("{}{}", "[".repeat(128), "]".repeat(128));
    assert_eq!(config.load_config(&flow), Ok(()));
    let keys = format!("{}x", "? ".repeat(128));
    assert!(is_admissible(keys.as_bytes()));
    let _ = config.load_config(&keys);
}

#[test]
fn deeper_nesting_is_refused_unread() {
    let mut config = Config::new();
    assert_eq!(config.load_config("database:\n  uri: kept\n"), Ok(()));
    for text in [
        nested(129),
        nested(1_000),
        nested(30_000),
        "[".repeat(129),
        "{".repeat(200),
        "? ".repeat(129),
        ":".repeat(129),
        format!("{}{}", "- ".repeat(64), "[".repeat(65)),
    ] {
        assert!(!is_admissible(text.as_bytes()));
        assert_eq!(config.load_config(&text), Err(REFUSED.to_string()));
        assert_eq!(config.get_database_value("uri"), Some("kept".to_string()));
    }
}

#[test]
fn only_the_five_marks_count() {
    assert!(is_admissible(b""));
    assert!(is_admissible("-?:[{".repeat(25).as_bytes()));
    assert!(is_admissible(format!("{}---", "-?:[{".repeat(25)).as_bytes()));
    assert!(!is_admissible(format!("{}----", "-?:[{".repeat(25)).as_bytes()));
    let other = "abc xyz 019 ]},.;!&*#|>'\"%@`_+=~^()<\n\t".repeat(500);
    assert!(is_admissible(other.as_bytes()));
    // Bytes of a character beyond ASCII are no marks.
    assert!(is_admissible("åäö–—".repeat(1_000).as_bytes()));
}

#[test]
fn the_longest_text_that_is_taken_loads() {
    assert_eq!(MAX_CONFIG_LENGTH, 65_536);
    let mut config = Config::new();
    let long = format!("database:\n  uri: {}\n", "a".repeat(65_536 - 18));
    assert_eq!(long.len(), 65_536);
    assert_eq!(config.load_config(&long), Ok(()));
    assert_eq!(config.get_database_value("uri"), Some("a".repeat(65_536 - 18)));
    let longer = format!("database:\n  uri: {}\n", "a".repeat(65_536 - 17));
    assert_eq!(longer.len(), 65_537);
    assert!(!is_admissible(longer.as_bytes()));
    assert_eq!(config.load_config(&longer), Err(REFUSED.to_string()));
    assert_eq!(config.get_database_value("uri"), Some("a".repeat(65_536 - 18)));
}
