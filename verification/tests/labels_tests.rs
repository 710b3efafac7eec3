use docker_owl::labels::ContainerLabels;

#[test]
fn labels_read_back_what_was_written() {
    let mut labels = ContainerLabels::new();
    assert!(!labels.contains_key("a"));
    assert_eq!(labels.get("a"), None);
    labels.insert("a".to_string(), "1".to_string());
    labels.insert("b".to_string(), "2".to_string());
    assert_eq!(labels.get("a"), Some(&"1".to_string()));
    assert_eq!(labels.get("b"), Some(&"2".to_string()));
    assert!(labels.contains_key("b"));
    assert!(!labels.contains_key("c"));
}

#[test]
fn labels_insert_replaces() {
    let mut labels = ContainerLabels::new();
    labels.insert("a".to_string(), "1".to_string());
    labels.insert("a".to_string(), "3".to_string());
    assert_eq!(labels.get("a"), Some(&"3".to_string()));
}
