use eventstore::metadata::Metadata;

fn sorted(metadata: Metadata) -> Vec<(String, String)> {
    let mut entries = metadata.into_entries();
    entries.sort();
    entries
}

fn pair(key: &str, value: &str) -> (String, String) {
    (key.to_string(), value.to_string())
}

#[test]
fn new_metadata_is_empty() {
    let mut metadata = Metadata::new();
    assert_eq!(metadata.get("type"), None);
    assert_eq!(metadata.remove("type"), None);
    assert_eq!(sorted(metadata), vec![]);
}

#[test]
fn insert_adds_and_replaces() {
    let mut metadata = Metadata::new();
    metadata.insert("a".to_string(), "1".to_string());
    metadata.insert("b".to_string(), "2".to_string());
    metadata.insert("a".to_string(), "3".to_string());
    assert_eq!(metadata.get("a"), Some(&"3".to_string()));
    assert_eq!(sorted(metadata), vec![pair("a", "3"), pair("b", "2")]);
}

#[test]
fn remove_takes_one_key_out() {
    let mut metadata = Metadata::new();
    metadata.insert("a".to_string(), "1".to_string());
    metadata.insert("b".to_string(), "2".to_string());
    metadata.insert("c".to_string(), "3".to_string());
    assert_eq!(metadata.remove("b"), Some("2".to_string()));
    assert_eq!(metadata.remove("b"), None);
    assert_eq!(metadata.get("b"), None);
    assert_eq!(sorted(metadata), vec![pair("a", "1"), pair("c", "3")]);
}
