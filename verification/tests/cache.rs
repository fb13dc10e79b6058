use asn_lookup::cache::{cache_file_name, get_cache_dir, key_is_safe};

#[test]
fn file_name_is_key_and_suffix() {
    assert_eq!(cache_file_name("AS701"), Some("AS701.json".to_string()));
    assert_eq!(cache_file_name("701"), Some("701.json".to_string()));
    assert_eq!(cache_file_name(""), Some(".json".to_string()));
    assert_eq!(cache_file_name(".."), Some("...json".to_string()));
}

#[test]
fn keys_are_not_normalized() {
    assert_eq!(cache_file_name("as701"), Some("as701.json".to_string()));
    assert_ne!(cache_file_name("as701"), cache_file_name("AS701"));
    assert_ne!(cache_file_name("AS701 "), cache_file_name("AS701"));
    assert_eq!(cache_file_name("AS701.json"), Some("AS701.json.json".to_string()));
}

#[test]
fn keys_with_path_characters_get_no_file() {
    assert_eq!(cache_file_name("../etc/passwd"), None);
    assert_eq!(cache_file_name("/AS701"), None);
    assert_eq!(cache_file_name("AS701/"), None);
    assert_eq!(cache_file_name("a\\b"), None);
    assert_eq!(cache_file_name("a\0b"), None);
}

#[test]
fn key_safety_looks_at_every_character() {
    assert!(key_is_safe("AS701"));
    assert!(key_is_safe(""));
    assert!(key_is_safe("münchen-ß-日本"));
    assert!(key_is_safe("a.b-c_d e"));
    assert!(!key_is_safe("日本/x"));
    assert!(!key_is_safe("x\\"));
    assert!(!key_is_safe("\0"));
}

#[test]
fn cache_dir_is_configured_or_default() {
    assert_eq!(get_cache_dir(None), "/data");
    assert_eq!(get_cache_dir(Some("/var/cache/asn".to_string())), "/var/cache/asn");
    assert_eq!(get_cache_dir(Some(String::new())), "");
}
