use prtl::portal::DEFAULT_PRTL_TAG;
use prtl::{Config, Error};

fn setup_portal_config() -> Config {
    Config::new(String::new())
}

#[test]
fn test_portal_put_dne() {
    let test_cfg = setup_portal_config();

    let actual = test_cfg.portal_map.get(&"dne".to_string());
    assert!(None == actual);
}

#[test]
fn test_portal_put_valid_path_overwrite() {
    let mut test_cfg = setup_portal_config();

    test_cfg.put("Test".to_string(), "/home".to_string());
    test_cfg.put("Test".to_string(), "/tmp".to_string());

    let actual = test_cfg.portal_map.get(&"Test".to_string());
    assert!(Some(&"/tmp".to_string()) == actual);
}

#[test]
fn test_portal_put_valid_path() {
    let mut test_cfg = setup_portal_config();

    test_cfg.put("Test".to_string(), "/home".to_string());

    let actual = test_cfg.portal_map.get(&"Test".to_string());
    assert!(Some(&"/home".to_string()) == actual);
}

#[test]
fn test_portal_put_invalid_path() {
    let mut test_cfg = setup_portal_config();

    // "asdfasdfasdf" does not exist, so it has no canonical form.
    test_cfg
        .set_resolved("Test".to_string(), &"asdfasdfasdf".to_string(), None)
        .ok();
    let actual = test_cfg.portal_map.get(&"Test".to_string());
    assert!(None == actual);
}

#[test]
fn test_portal_get_dne() {
    let test_cfg = setup_portal_config();

    let actual = test_cfg.get(&"dne".to_string());
    assert!(None == actual);
}

#[test]
fn test_portal_get_path() {
    let mut test_cfg = setup_portal_config();

    test_cfg
        .portal_map
        .insert("test".to_string(), "/dir/asdf/asdf/".to_string());
    let actual = test_cfg.get(&"test".to_string());
    assert!(Some("/dir/asdf/asdf/".to_string()) == actual);
}

#[test]
fn default_config_uses_default_tag_and_is_empty() {
    let cfg = Config::default();
    assert_eq!(cfg.default_tag(), "default_prtl");
    assert_eq!(cfg.default_tag(), DEFAULT_PRTL_TAG);
    assert_eq!(cfg.portal_map.len(), 0);
    assert_eq!(cfg.get(&"anything".to_string()), None);
    assert_eq!(cfg.get(&"default_prtl".to_string()), None);
}

#[test]
fn put_twice_keeps_the_later_path() {
    let mut cfg = Config::default();
    cfg.put("t".to_string(), "/a".to_string());
    cfg.put("t".to_string(), "/b".to_string());
    assert_eq!(cfg.get(&"t".to_string()), Some("/b".to_string()));
    assert_eq!(cfg.portal_map.len(), 1);
}

#[test]
fn failed_set_reports_the_path_and_changes_nothing() {
    let mut cfg = Config::default();
    cfg.put("a".to_string(), "/tmp".to_string());
    let r = cfg.set_resolved(
        "bad".to_string(),
        &"definitely/does/not/exist".to_string(),
        None,
    );
    match r {
        Err(e) => assert_eq!(e.message(), "Path definitely/does/not/exist is invalid."),
        Ok(()) => panic!("a path without canonical form was accepted"),
    }
    assert_eq!(cfg.get(&"bad".to_string()), None);
    assert_eq!(cfg.get(&"a".to_string()), Some("/tmp".to_string()));
    assert_eq!(cfg.portal_map.len(), 1);
}

#[test]
fn set_then_lookup_gives_the_canonical_path() {
    let mut cfg = Config::default();
    assert!(cfg
        .set_resolved("work".to_string(), &"/tmp/".to_string(), Some("/tmp".to_string()))
        .is_ok());
    assert_eq!(cfg.lookup(&"work".to_string()).ok(), Some("/tmp".to_string()));
}

#[test]
fn lookup_of_a_missing_tag_names_it() {
    let cfg = Config::default();
    match cfg.lookup(&"nope".to_string()) {
        Err(e) => assert_eq!(e.message(), "Did not find prtl with tag nope"),
        Ok(p) => panic!("found {}", p),
    }
}

#[test]
fn default_tag_set_and_get() {
    let mut cfg = Config::default();
    let tag = cfg.default_tag();
    cfg.set_resolved(tag.clone(), &"/var".to_string(), Some("/var".to_string()))
        .unwrap();
    assert_eq!(cfg.get(&"default_prtl".to_string()), Some("/var".to_string()));
    assert_eq!(cfg.lookup(&DEFAULT_PRTL_TAG.to_string()).ok(), Some("/var".to_string()));
}

#[test]
fn parts_round_trip() {
    let mut cfg = Config::new("home".to_string());
    cfg.put("a".to_string(), "/tmp".to_string());
    cfg.put("b".to_string(), "/var".to_string());
    cfg.put("a".to_string(), "/srv".to_string());
    let (tag, pairs) = cfg.to_parts();
    assert_eq!(tag, "home");
    assert_eq!(
        pairs,
        vec![
            ("a".to_string(), "/srv".to_string()),
            ("b".to_string(), "/var".to_string())
        ]
    );
    let back = Config::from_parts(tag, pairs.clone());
    assert_eq!(back.default_tag(), "home");
    assert_eq!(back.to_parts().1, pairs);
    assert_eq!(back.get(&"a".to_string()), Some("/srv".to_string()));
}

#[test]
fn from_parts_keeps_the_later_duplicate() {
    let cfg = Config::from_parts(
        "d".to_string(),
        vec![
            ("x".to_string(), "/1".to_string()),
            ("y".to_string(), "/2".to_string()),
            ("x".to_string(), "/3".to_string()),
        ],
    );
    assert_eq!(cfg.get(&"x".to_string()), Some("/3".to_string()));
    assert_eq!(
        cfg.to_parts().1,
        vec![
            ("x".to_string(), "/3".to_string()),
            ("y".to_string(), "/2".to_string())
        ]
    );
}

#[test]
fn list_json_holds_every_pair_as_an_object() {
    let mut cfg = Config::default();
    cfg.put("a".to_string(), "/tmp".to_string());
    cfg.put("b".to_string(), "/var".to_string());
    let text = cfg.list_json();
    assert_eq!(text, r#"{"a":"/tmp","b":"/var"}"#);
    let v: serde_json::Value = serde_json::from_str(&text).unwrap();
    let obj = v.as_object().unwrap();
    assert_eq!(obj.len(), 2);
    assert_eq!(obj.get("a").unwrap().as_str(), Some("/tmp"));
    assert_eq!(obj.get("b").unwrap().as_str(), Some("/var"));
}

#[test]
fn list_json_ignores_the_order_of_setting() {
    let mut one = Config::default();
    one.put("b".to_string(), "/var".to_string());
    one.put("a".to_string(), "/tmp".to_string());
    let mut two = Config::default();
    two.put("a".to_string(), "/tmp".to_string());
    two.put("b".to_string(), "/var".to_string());
    assert_eq!(one.list_json(), two.list_json());
}

#[test]
fn list_json_of_an_empty_store_and_escaping() {
    let mut cfg = Config::default();
    assert_eq!(cfg.list_json(), "{}");
    cfg.put("q\"".to_string(), "/a b".to_string());
    assert_eq!(cfg.list_json(), r#"{"q\"":"/a b"}"#);
}

#[test]
fn error_messages() {
    assert_eq!(Error::new("boom".to_string()).message(), "boom");
    assert_eq!(Error::load_failed().message(), "Error loading config.");
    assert_eq!(Error::store_failed().message(), "Failed to save config");
    assert_eq!(
        Error::path_invalid(&"x/y".to_string()).message(),
        "Path x/y is invalid."
    );
    assert_eq!(
        Error::tag_not_found(&"t".to_string()).message(),
        "Did not find prtl with tag t"
    );
}

#[test]
fn portal_map_insert_returns_the_replaced_path() {
    let mut m = prtl::PortalMap::new();
    assert_eq!(m.insert("k".to_string(), "/1".to_string()), None);
    assert_eq!(m.insert("k".to_string(), "/2".to_string()), Some("/1".to_string()));
    assert_eq!(m.get(&"k".to_string()), Some(&"/2".to_string()));
    assert_eq!(m.len(), 1);
}
