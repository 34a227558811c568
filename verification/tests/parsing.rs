use pci_catalog::json::JsonValue;
use pci_catalog::parse::{parse, parse_document, ParseError};

#[test]
fn parse_defaults_on_missing_fields() {
    let text = r#"{"profiles":[{}]}"#;
    let r = parse(text, "en_US").unwrap();
    assert_eq!(r.len(), 1);
    let p = &r[0];
    assert_eq!(p.codename, "");
    assert_eq!(p.i18n_desc, "");
    assert_eq!(p.icon_name, "package-x-generic");
    assert!(p.class_ids.is_empty());
    assert!(p.vendor_ids.is_empty());
    assert!(p.device_ids.is_empty());
    assert!(p.blacklisted_class_ids.is_empty());
    assert!(p.blacklisted_vendor_ids.is_empty());
    assert!(p.blacklisted_device_ids.is_empty());
    assert_eq!(p.packages, None);
    assert_eq!(p.install_script, Some(String::new()));
    assert_eq!(p.remove_script, Some(String::new()));
    assert!(!p.experimental);
    assert!(!p.removable);
    assert_eq!(p.priority, 0);
}

#[test]
fn parse_reads_every_field() {
    let text = r#"{"profiles":[{
        "codename":"nvidia-open",
        "i18n_desc":"Open kernel modules",
        "icon_name":"gpu-icon",
        "class_ids":["0300","0302"],
        "vendor_ids":["10de"],
        "device_ids":["2684"],
        "blacklisted_class_ids":["0380"],
        "blacklisted_vendor_ids":["1002"],
        "blacklisted_device_ids":["ffff"],
        "packages":["nvidia-open-dkms","nvidia-utils"],
        "install_script":"sh install.sh",
        "remove_script":"sh remove.sh",
        "experimental":true,
        "removable":true,
        "priority":7
    }]}"#;
    let r = parse(text, "en_US").unwrap();
    assert_eq!(r.len(), 1);
    let p = &r[0];
    assert_eq!(p.codename, "nvidia-open");
    assert_eq!(p.i18n_desc, "Open kernel modules");
    assert_eq!(p.icon_name, "gpu-icon");
    assert_eq!(p.class_ids, vec!["0300".to_string(), "0302".to_string()]);
    assert_eq!(p.vendor_ids, vec!["10de".to_string()]);
    assert_eq!(p.device_ids, vec!["2684".to_string()]);
    assert_eq!(p.blacklisted_class_ids, vec!["0380".to_string()]);
    assert_eq!(p.blacklisted_vendor_ids, vec!["1002".to_string()]);
    assert_eq!(p.blacklisted_device_ids, vec!["ffff".to_string()]);
    assert_eq!(
        p.packages,
        Some(vec!["nvidia-open-dkms".to_string(), "nvidia-utils".to_string()])
    );
    assert_eq!(p.install_script, Some("sh install.sh".to_string()));
    assert_eq!(p.remove_script, Some("sh remove.sh".to_string()));
    assert!(p.experimental);
    assert!(p.removable);
    assert_eq!(p.priority, 7);
}

#[test]
fn parse_rejects_bad_id_list_shape() {
    let text = r#"{"profiles":[{"class_ids":5}]}"#;
    assert_eq!(parse(text, "en").unwrap_err(), ParseError::ShapeViolation);
}

#[test]
fn parse_rejects_explicit_null_id_list() {
    let text = r#"{"profiles":[{"class_ids":null}]}"#;
    assert_eq!(parse(text, "en").unwrap_err(), ParseError::ShapeViolation);
}

#[test]
fn parse_rejects_explicit_null_packages() {
    let text = r#"{"profiles":[{"packages":null}]}"#;
    assert_eq!(parse(text, "en").unwrap_err(), ParseError::ShapeViolation);
}

#[test]
fn parse_rejects_bad_packages_shape() {
    let text = r#"{"profiles":[{"packages":5}]}"#;
    assert_eq!(parse(text, "en").unwrap_err(), ParseError::ShapeViolation);
}

#[test]
fn parse_is_all_or_nothing() {
    let text = r#"{"profiles":[{"codename":"good"},{"vendor_ids":{}}]}"#;
    assert_eq!(parse(text, "en").unwrap_err(), ParseError::ShapeViolation);
}

#[test]
fn parse_rejects_invalid_json() {
    assert_eq!(parse("not json at all", "en").unwrap_err(), ParseError::InvalidDocument);
}

#[test]
fn parse_without_profiles_array_is_empty() {
    assert_eq!(parse(r#"{"foo":1}"#, "en").unwrap().len(), 0);
    assert_eq!(parse(r#"{"profiles":"nope"}"#, "en").unwrap().len(), 0);
    assert_eq!(parse(r#"[1,2,3]"#, "en").unwrap().len(), 0);
    assert_eq!(parse(r#"null"#, "en").unwrap().len(), 0);
}

#[test]
fn parse_coerces_id_list_elements() {
    let text = r#"{"profiles":[{"class_ids":[1,"0300",true,null]}]}"#;
    let r = parse(text, "en").unwrap();
    assert_eq!(
        r[0].class_ids,
        vec![String::new(), "0300".to_string(), String::new(), String::new()]
    );
}

#[test]
fn parse_defaults_on_wrong_scalar_types() {
    let text = r#"{"profiles":[{
        "codename":12,
        "icon_name":5,
        "experimental":"yes",
        "removable":1,
        "priority":"high"
    }]}"#;
    let p = &parse(text, "en").unwrap()[0];
    assert_eq!(p.codename, "");
    assert_eq!(p.icon_name, "package-x-generic");
    assert!(!p.experimental);
    assert!(!p.removable);
    assert_eq!(p.priority, 0);
}

#[test]
fn parse_defaults_on_non_integer_numbers() {
    let text = r#"{"profiles":[{"priority":3.7},{"priority":99999999999999999999999}]}"#;
    let r = parse(text, "en").unwrap();
    assert_eq!(r[0].priority, 0);
    assert_eq!(r[1].priority, 0);
}

#[test]
fn localized_description_preferred_when_present() {
    let text = r#"{"profiles":[{"i18n_desc":"Hello","i18n_desc[fr_FR]":"Bonjour"}]}"#;
    let r = parse(text, "fr_FR").unwrap();
    assert_eq!(r[0].i18n_desc, "Bonjour");
}

#[test]
fn unqualified_description_used_when_locale_missing() {
    let text = r#"{"profiles":[{"i18n_desc":"Hello","i18n_desc[fr_FR]":"Bonjour"}]}"#;
    let r = parse(text, "de_DE").unwrap();
    assert_eq!(r[0].i18n_desc, "Hello");
}

#[test]
fn unqualified_description_used_when_localized_empty() {
    let text = r#"{"profiles":[{"i18n_desc":"Hello","i18n_desc[fr_FR]":""}]}"#;
    let r = parse(text, "fr_FR").unwrap();
    assert_eq!(r[0].i18n_desc, "Hello");
}

#[test]
fn unqualified_description_used_when_localized_not_a_string() {
    let text = r#"{"profiles":[{"i18n_desc":"Hello","i18n_desc[fr_FR]":3}]}"#;
    let r = parse(text, "fr_FR").unwrap();
    assert_eq!(r[0].i18n_desc, "Hello");
}

#[test]
fn packages_string_means_none() {
    let text = r#"{"profiles":[{"packages":"whatever"}]}"#;
    assert_eq!(parse(text, "en").unwrap()[0].packages, None);
}

#[test]
fn packages_array_means_some() {
    let text = r#"{"profiles":[{"packages":["a","b"]}]}"#;
    assert_eq!(
        parse(text, "en").unwrap()[0].packages,
        Some(vec!["a".to_string(), "b".to_string()])
    );
}

#[test]
fn install_script_sentinel_means_none() {
    let text = r#"{"profiles":[{"install_script":"Option::is_none","remove_script":"Option::is_none"}]}"#;
    let p = &parse(text, "en").unwrap()[0];
    assert_eq!(p.install_script, None);
    assert_eq!(p.remove_script, None);
}

#[test]
fn install_script_empty_string_is_kept() {
    let text = r#"{"profiles":[{"install_script":""}]}"#;
    assert_eq!(parse(text, "en").unwrap()[0].install_script, Some(String::new()));
}

#[test]
fn install_script_other_strings_are_kept() {
    let text = r#"{"profiles":[{"install_script":"echo hi"}]}"#;
    assert_eq!(parse(text, "en").unwrap()[0].install_script, Some("echo hi".to_string()));
}

#[test]
fn parse_document_reads_constructed_values() {
    let rec = JsonValue::Object(vec![
        ("codename".to_string(), JsonValue::Str("x".to_string())),
        ("priority".to_string(), JsonValue::Int(-4)),
    ]);
    let doc = JsonValue::Object(vec![(
        "profiles".to_string(),
        JsonValue::Array(vec![rec]),
    )]);
    let r = parse_document(&doc, "en").unwrap();
    assert_eq!(r.len(), 1);
    assert_eq!(r[0].codename, "x");
    assert_eq!(r[0].priority, -4);
}

#[test]
fn parse_document_non_object_record_is_all_defaults() {
    let doc = JsonValue::Object(vec![(
        "profiles".to_string(),
        JsonValue::Array(vec![JsonValue::Bool(true)]),
    )]);
    let r = parse_document(&doc, "en").unwrap();
    assert_eq!(r.len(), 1);
    assert_eq!(r[0].codename, "");
    assert_eq!(r[0].packages, None);
}
