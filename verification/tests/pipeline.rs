use pci_catalog::acquire::{build_catalog, resolve_acquisition, AcquisitionError};
use pci_catalog::json::{get, JsonValue};
use pci_catalog::order::order;
use pci_catalog::profile::Profile;

fn mk_profile(codename: &str, priority: i64) -> Profile {
    Profile {
        codename: codename.to_string(),
        i18n_desc: String::new(),
        icon_name: "package-x-generic".to_string(),
        class_ids: Vec::new(),
        vendor_ids: Vec::new(),
        device_ids: Vec::new(),
        blacklisted_class_ids: Vec::new(),
        blacklisted_vendor_ids: Vec::new(),
        blacklisted_device_ids: Vec::new(),
        packages: None,
        install_script: None,
        remove_script: None,
        experimental: false,
        removable: false,
        priority,
    }
}

fn codenames(v: &[Profile]) -> Vec<String> {
    v.iter().map(|p| p.codename.clone()).collect()
}

#[test]
fn order_is_stable_ascending() {
    let input = vec![
        mk_profile("a", 5),
        mk_profile("b", 1),
        mk_profile("c", 1),
        mk_profile("d", 3),
    ];
    let out = order(input);
    assert_eq!(
        codenames(&out),
        vec!["b".to_string(), "c".to_string(), "d".to_string(), "a".to_string()]
    );
}

#[test]
fn order_of_empty_is_empty() {
    assert_eq!(order(Vec::new()).len(), 0);
}

#[test]
fn order_handles_negative_priorities() {
    let input = vec![mk_profile("a", 0), mk_profile("b", -2), mk_profile("c", 2)];
    let out = order(input);
    assert_eq!(
        codenames(&out),
        vec!["b".to_string(), "a".to_string(), "c".to_string()]
    );
}

#[test]
fn fallback_returns_cached_text_unchanged() {
    let cached = "{\"profiles\":[]}".to_string();
    let r = resolve_acquisition(None, Some(cached.clone()));
    assert_eq!(r.unwrap(), cached);
}

#[test]
fn fallback_without_cache_is_not_found() {
    let r = resolve_acquisition(None, None);
    assert_eq!(r.unwrap_err(), AcquisitionError::NotFound);
}

#[test]
fn fetched_text_wins_over_cache() {
    let r = resolve_acquisition(Some("fresh".to_string()), Some("stale".to_string()));
    assert_eq!(r.unwrap(), "fresh");
}

#[test]
fn build_catalog_parses_and_orders() {
    let text = r#"{"profiles":[
        {"codename":"a","priority":5},
        {"codename":"b","priority":1},
        {"codename":"c","priority":1},
        {"codename":"d","priority":3}
    ]}"#;
    let out = build_catalog(text, "en").unwrap();
    assert_eq!(
        codenames(&out),
        vec!["b".to_string(), "c".to_string(), "d".to_string(), "a".to_string()]
    );
}

#[test]
fn build_catalog_propagates_shape_violations() {
    let text = r#"{"profiles":[{"device_ids":"nope"}]}"#;
    assert!(build_catalog(text, "en").is_err());
}

#[test]
fn json_get_finds_first_binding() {
    let obj = JsonValue::Object(vec![
        ("a".to_string(), JsonValue::Int(1)),
        ("b".to_string(), JsonValue::Int(2)),
    ]);
    assert_eq!(get(&obj, &"b".to_string()), Some(&JsonValue::Int(2)));
    assert_eq!(get(&obj, &"missing".to_string()), None);
    assert_eq!(get(&JsonValue::Int(3), &"a".to_string()), None);
}
