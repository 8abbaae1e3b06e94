use oxide_cli::config_map::{ConfigMap, Entry};
use oxide_cli::error::ConfigError;

const SAMPLE: &str = "# how to reach the service\nname = \"oxide\"   # the name\ncount = 3\n\n[aliases]\nco = \"pr checkout\"\n";

#[test]
fn new_map_is_empty() {
    let map = ConfigMap::new();
    assert!(map.is_empty());
    assert_eq!(map.to_text(), "");
    assert_eq!(map.get_string_value("name"), Err(ConfigError::KeyNotFound));
}

#[test]
fn parse_reads_strings() {
    let map = ConfigMap::parse(SAMPLE).unwrap();
    assert!(!map.is_empty());
    assert_eq!(map.get_string_value("name"), Ok("oxide".to_string()));
}

#[test]
fn parse_keeps_the_text() {
    let map = ConfigMap::parse(SAMPLE).unwrap();
    assert_eq!(map.to_text(), SAMPLE);
}

#[test]
fn parse_refuses_invalid_text() {
    assert!(matches!(ConfigMap::parse("name = "), Err(ConfigError::MalformedConfig)));
    assert!(matches!(ConfigMap::parse("[a\nb = 1"), Err(ConfigError::MalformedConfig)));
}

#[test]
fn missing_key_is_not_found() {
    let map = ConfigMap::parse(SAMPLE).unwrap();
    assert_eq!(map.get_string_value("nothing"), Err(ConfigError::KeyNotFound));
    assert!(matches!(map.find_entry("nothing"), Err(ConfigError::KeyNotFound)));
}

#[test]
fn table_read_as_string_is_a_type_mismatch() {
    let map = ConfigMap::parse(SAMPLE).unwrap();
    assert_eq!(map.get_string_value("aliases"), Err(ConfigError::TypeMismatch));
}

#[test]
fn number_read_as_string_is_a_type_mismatch() {
    let map = ConfigMap::parse(SAMPLE).unwrap();
    assert_eq!(map.get_string_value("count"), Err(ConfigError::TypeMismatch));
}

#[test]
fn find_entry_tells_the_shapes_apart() {
    let map = ConfigMap::parse(SAMPLE).unwrap();
    match map.find_entry("name") {
        Ok(Entry::Text(s)) => assert_eq!(s, "oxide"),
        _ => panic!("a string was expected"),
    }
    match map.find_entry("aliases") {
        Ok(Entry::Table(t)) => {
            assert_eq!(t.get_string_value("co"), Ok("pr checkout".to_string()));
        }
        _ => panic!("a table was expected"),
    }
    assert!(matches!(map.find_entry("count"), Ok(Entry::Other)));
}

#[test]
fn set_creates_a_key() {
    let mut map = ConfigMap::new();
    assert_eq!(map.set_string_value("editor", "vi"), Ok(()));
    assert_eq!(map.get_string_value("editor"), Ok("vi".to_string()));
    assert!(!map.is_empty());
    assert_eq!(map.to_text(), "editor = \"vi\"\n");
}

#[test]
fn set_overwrites_in_place() {
    let mut map = ConfigMap::parse("a = \"1\"\nb = \"2\"\nc = \"3\"\n").unwrap();
    map.set_string_value("b", "two").unwrap();
    assert_eq!(map.get_string_value("b"), Ok("two".to_string()));
    let keys: Vec<String> = map.entries().into_iter().map(|(k, _)| k).collect();
    assert_eq!(keys, vec!["a".to_string(), "b".to_string(), "c".to_string()]);
    assert_eq!(map.to_text(), "a = \"1\"\nb = \"two\"\nc = \"3\"\n");
}

#[test]
fn set_appends_a_new_key_last() {
    let mut map = ConfigMap::parse("a = \"1\"\nb = \"2\"\n").unwrap();
    map.set_string_value("z", "26").unwrap();
    let keys: Vec<String> = map.entries().into_iter().map(|(k, _)| k).collect();
    assert_eq!(keys, vec!["a".to_string(), "b".to_string(), "z".to_string()]);
}

#[test]
fn set_replaces_a_table_by_a_string() {
    let mut map = ConfigMap::parse(SAMPLE).unwrap();
    map.set_string_value("aliases", "none").unwrap();
    assert_eq!(map.get_string_value("aliases"), Ok("none".to_string()));
}

#[test]
fn edit_keeps_the_layout_of_other_keys() {
    let mut map = ConfigMap::parse(SAMPLE).unwrap();
    map.set_string_value("editor", "vi").unwrap();
    let text = map.to_text();
    assert!(text.starts_with("# how to reach the service\nname = \"oxide\"   # the name\ncount = 3\n"));
    assert!(text.contains("editor = \"vi\"\n"));
    assert!(text.contains("[aliases]\nco = \"pr checkout\"\n"));
}

#[test]
fn remove_takes_a_key_out() {
    let mut map = ConfigMap::parse(SAMPLE).unwrap();
    assert_eq!(map.remove_entry("count"), Ok(()));
    assert_eq!(map.get_string_value("count"), Err(ConfigError::KeyNotFound));
    assert_eq!(map.get_string_value("name"), Ok("oxide".to_string()));
    assert_eq!(
        map.to_text(),
        "# how to reach the service\nname = \"oxide\"   # the name\n\n[aliases]\nco = \"pr checkout\"\n"
    );
}

#[test]
fn remove_of_a_missing_key_changes_nothing() {
    let mut map = ConfigMap::parse(SAMPLE).unwrap();
    assert_eq!(map.remove_entry("nothing"), Ok(()));
    assert_eq!(map.to_text(), SAMPLE);
}

#[test]
fn set_table_stores_a_copy() {
    let mut inner = ConfigMap::new();
    inner.set_string_value("token", "abc").unwrap();
    let mut map = ConfigMap::new();
    map.set_table("h1", &inner);
    inner.set_string_value("token", "changed").unwrap();
    match map.find_entry("h1") {
        Ok(Entry::Table(t)) => assert_eq!(t.get_string_value("token"), Ok("abc".to_string())),
        _ => panic!("a table was expected"),
    }
}

#[test]
fn entries_come_in_document_order() {
    let map = ConfigMap::parse(SAMPLE).unwrap();
    let entries = map.entries();
    assert_eq!(entries.len(), 3);
    assert_eq!(entries[0].0, "name");
    assert!(matches!(&entries[0].1, Entry::Text(s) if s == "oxide"));
    assert_eq!(entries[1].0, "count");
    assert!(matches!(entries[1].1, Entry::Other));
    assert_eq!(entries[2].0, "aliases");
    assert!(matches!(entries[2].1, Entry::Table(_)));
}

#[test]
fn clone_is_independent() {
    let mut map = ConfigMap::parse(SAMPLE).unwrap();
    let copy = map.clone();
    map.set_string_value("name", "changed").unwrap();
    assert_eq!(copy.get_string_value("name"), Ok("oxide".to_string()));
    assert_eq!(copy.to_text(), SAMPLE);
}
