use valueformat::attrmap2::AttrMap2;

#[test]
fn test_attrmap2() {
    let mut m = AttrMap2::new();

    m.add_all(&[
        ("foo", "baz".to_string()),
        ("lol", "now".to_string()),
        ("ful", "uuu".to_string()),
    ]);
    assert_eq!(m.attr("foo").unwrap(), "baz");

    m.set_attr("lol", "loud!".to_string());
    assert_eq!(m.attr("lol").unwrap(), "loud!");

    m.clear_attr("ful");
    assert_eq!(m.attr("ful"), None);
}

#[test]
fn test_attrmap2_defaults() {
    let mut m = AttrMap2::new();
    assert!(m.is_empty());
    assert_eq!(m.attr_def("missing", "fallback"), "fallback");

    m.set_attr("a", "1".to_string());
    assert!(!m.is_empty());
    assert_eq!(m.attr_def("a", "fallback"), "1");

    let prior = m.clear_attr("a");
    assert_eq!(prior, Some("1".to_string()));
    assert!(m.is_empty());
    assert_eq!(m.clear_attr("a"), None);
}

#[test]
fn test_attrmap2_overwrite_and_entries() {
    let mut m = AttrMap2::new();
    m.set_attr("k", "v1".to_string());
    m.set_attr("k", "v2".to_string());
    assert_eq!(m.attr("k").unwrap(), "v2");

    m.set_attr("other", "w".to_string());
    let mut entries = m.entries();
    entries.sort();
    assert_eq!(
        entries,
        vec![
            ("k".to_string(), "v2".to_string()),
            ("other".to_string(), "w".to_string()),
        ]
    );
}
