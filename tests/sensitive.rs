use network_monitor::sensitive::{Pattern, SensitivePatterns};

#[test]
fn builtin_patterns_compile() {
    assert!(SensitivePatterns::new().is_ok());
}

#[test]
fn invalid_pattern_is_named_in_the_error() {
    let sources = vec![r"\d+".to_string(), "(unclosed".to_string()];
    let e = SensitivePatterns::from_sources(&sources).err().unwrap();
    assert_eq!(e.pattern, "(unclosed");
    assert!(Pattern::new("(unclosed").is_none());
    assert_eq!(Pattern::new(r"\d+").unwrap().source(), r"\d+");
}

#[test]
fn sensitive_file_contents_are_found() {
    let p = SensitivePatterns::new().unwrap();
    let contents = vec!["Email: test@example.com\nSSN: 123-45-6789\nAPI_KEY=secretkey123".to_string()];
    let found = p.scan_contents(&contents);
    assert!(!found.is_empty());
    let ssn = found.iter().find(|m| m.pattern_type == r"\b\d{3}-\d{2}-\d{4}\b").unwrap();
    assert_eq!(ssn.matched_content, "123-45-6789");
    let key = found
        .iter()
        .find(|m| m.pattern_type == r"(?i)(api[_-]?key|secret[_-]?key).*=.*")
        .unwrap();
    assert_eq!(key.matched_content, "API_KEY=secretkey123");
}

#[test]
fn matches_follow_text_then_pattern_order() {
    let p = SensitivePatterns::from_sources(&vec![r"b+".to_string(), r"a+".to_string()]).unwrap();
    let found = p.scan_contents(&vec!["aab".to_string(), "zzz".to_string(), "bba".to_string()]);
    let got: Vec<(String, String)> =
        found.into_iter().map(|m| (m.pattern_type, m.matched_content)).collect();
    assert_eq!(
        got,
        vec![
            ("b+".to_string(), "b".to_string()),
            ("a+".to_string(), "aa".to_string()),
            ("b+".to_string(), "bb".to_string()),
            ("a+".to_string(), "a".to_string()),
        ]
    );
}

#[test]
fn clean_text_has_no_matches() {
    let p = SensitivePatterns::new().unwrap();
    assert!(p.scan_text(&"nothing to see here".to_string()).is_empty());
}
