use templater::bindings::Bindings;

#[test]
fn new_bindings_are_empty() {
    let b = Bindings::new();
    assert_eq!(b.len(), 0);
    assert_eq!(b.get("a"), None);
    assert!(!b.contains("a"));
    assert!(b.names().is_empty());
}

#[test]
fn insert_binds_and_rebinds() {
    let mut b = Bindings::new();
    b.insert("a".to_string(), "1".to_string());
    b.insert("b".to_string(), "2".to_string());
    assert_eq!(b.len(), 2);
    assert_eq!(b.get("a"), Some(&"1".to_string()));
    assert_eq!(b.get("b"), Some(&"2".to_string()));
    b.insert("a".to_string(), "3".to_string());
    assert_eq!(b.len(), 2);
    assert_eq!(b.get("a"), Some(&"3".to_string()));
    assert_eq!(b.get("b"), Some(&"2".to_string()));
    assert!(b.contains("a"));
    assert!(!b.contains("c"));
}

#[test]
fn names_lists_each_name_once() {
    let mut b = Bindings::new();
    b.insert("x".to_string(), "1".to_string());
    b.insert("y".to_string(), "2".to_string());
    b.insert("x".to_string(), "3".to_string());
    let mut names = b.names();
    names.sort();
    assert_eq!(names, vec!["x".to_string(), "y".to_string()]);
}

#[test]
fn empty_name_and_empty_text_are_ordinary() {
    let mut b = Bindings::new();
    b.insert(String::new(), String::new());
    assert_eq!(b.get(""), Some(&String::new()));
    assert_eq!(b.len(), 1);
}
