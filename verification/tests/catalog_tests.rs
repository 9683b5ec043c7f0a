use translator::catalog::normalize_catalog;
use translator::model::{Language, RawLanguageEntry};

fn entry(
    code: Option<&str>,
    name: Option<&str>,
    src: Option<bool>,
    tgt: Option<bool>,
) -> RawLanguageEntry {
    RawLanguageEntry {
        language_code: code.map(|s| s.to_string()),
        display_name: name.map(|s| s.to_string()),
        support_source: src,
        support_target: tgt,
    }
}

#[test]
fn keeps_only_fully_usable_entries() {
    let entries = vec![
        entry(Some("en"), Some("English"), Some(true), Some(true)),
        entry(Some("xx"), None, Some(true), Some(true)),
        entry(Some("yy"), Some("Y"), Some(true), Some(false)),
    ];
    let catalog = normalize_catalog(&entries);
    assert_eq!(
        catalog,
        vec![Language { code: "en".to_string(), display_name: "English".to_string() }]
    );
}

#[test]
fn empty_list_yields_empty_catalog() {
    let catalog = normalize_catalog(&vec![]);
    assert!(catalog.is_empty());
}

#[test]
fn missing_code_is_dropped() {
    let entries = vec![entry(None, Some("English"), Some(true), Some(true))];
    assert!(normalize_catalog(&entries).is_empty());
}

#[test]
fn missing_support_flag_is_dropped() {
    let entries = vec![
        entry(Some("en"), Some("English"), None, Some(true)),
        entry(Some("fr"), Some("French"), Some(true), None),
    ];
    assert!(normalize_catalog(&entries).is_empty());
}

#[test]
fn empty_code_is_dropped() {
    let entries = vec![entry(Some(""), Some("English"), Some(true), Some(true))];
    assert!(normalize_catalog(&entries).is_empty());
}

#[test]
fn empty_display_name_is_dropped() {
    let entries = vec![entry(Some("en"), Some(""), Some(true), Some(true))];
    assert!(normalize_catalog(&entries).is_empty());
}

#[test]
fn false_source_support_is_dropped() {
    let entries = vec![entry(Some("en"), Some("English"), Some(false), Some(true))];
    assert!(normalize_catalog(&entries).is_empty());
}

#[test]
fn order_is_kept_and_duplicates_surface() {
    let entries = vec![
        entry(Some("de"), Some("German"), Some(true), Some(true)),
        entry(Some("fr"), Some("French"), Some(true), Some(true)),
        entry(Some("de"), Some("German"), Some(true), Some(true)),
    ];
    let catalog = normalize_catalog(&entries);
    assert_eq!(catalog.len(), 3);
    assert_eq!(catalog[0].code, "de");
    assert_eq!(catalog[1].code, "fr");
    assert_eq!(catalog[2].code, "de");
}
