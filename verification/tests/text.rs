use loom_mcp::string_map::StringMap;
use loom_mcp::text::{decimal_string, join, replace_all, split, str_eq, to_lowercase};

#[test]
fn decimal_rendering() {
    assert_eq!(decimal_string(0), "0");
    assert_eq!(decimal_string(7), "7");
    assert_eq!(decimal_string(48), "48");
    assert_eq!(decimal_string(1000), "1000");
    assert_eq!(decimal_string(u64::MAX), u64::MAX.to_string());
}

#[test]
fn replacing_and_splitting() {
    assert_eq!(replace_all("https://a/http://b", "http://", "ws://"), "https://a/ws://b");
    assert_eq!(replace_all("aaa", "aa", "b"), "ba");
    assert_eq!(replace_all("", "x", "y"), "");
    assert_eq!(split("threads/t1/messages", '/'), vec!["threads", "t1", "messages"]);
    assert_eq!(split("", '/'), vec![""]);
    assert_eq!(split("/a/", '/'), vec!["", "a", ""]);
    assert_eq!(join(&vec!["a".to_string(), "b".to_string()], ", "), "a, b");
    assert_eq!(join(&vec![], ", "), "");
}

#[test]
fn lowercase_and_equality() {
    assert_eq!(to_lowercase("PyThOn"), "python");
    assert!(str_eq("a", "a"));
    assert!(!str_eq("a", "b"));
}

#[test]
fn string_map_read_after_write() {
    let mut m = StringMap::new();
    assert!(m.is_empty());
    m.insert("k".to_string(), "v1".to_string());
    m.insert("j".to_string(), "w".to_string());
    m.insert("k".to_string(), "v2".to_string());
    assert_eq!(m.len(), 2);
    assert_eq!(m.get("k").map(|s| s.as_str()), Some("v2"));
    assert_eq!(m.get("j").map(|s| s.as_str()), Some("w"));
    assert!(m.get("x").is_none());
    let (k0, v0) = m.entry(0);
    assert_eq!((k0.as_str(), v0.as_str()), ("k", "v2"));
    let d = m.duplicate();
    assert!(d.is_included_in(&m) && m.is_included_in(&d));
    let mut e = StringMap::new();
    e.insert("k".to_string(), "v2".to_string());
    assert!(e.is_included_in(&m));
    assert!(!m.is_included_in(&e));
}
