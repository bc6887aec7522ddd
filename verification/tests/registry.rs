use meteor_history::browser::Browser;
use meteor_history::browser::HostOs;
use meteor_history::browser::entry_from_row;
use meteor_history::browser::extraction_query;
use meteor_history::browser::get_browser_history_schema;
use meteor_history::browser::safari_path;
use meteor_history::browser::opera_path;
use meteor_history::browser::edge_path;
use meteor_history::browser::vivaldi_path;
use meteor_history::browser::chromium_path;
use meteor_history::collate::resolve_all_schemas;
use meteor_history::collate::schemas_for_home;
use meteor_history::text::i64_digits;
use meteor_history::text::substitute_home;
use meteor_history::text::u64_digits;

#[test]
fn variants_are_in_enumeration_order() {
    let vs = Browser::variants();
    assert_eq!(
        vs,
        vec![Browser::Arc, Browser::Chrome, Browser::Firefox, Browser::Safari, Browser::Brave]
    );
}

#[test]
fn display_names_are_stable() {
    assert_eq!(Browser::Arc.to_str(), "Arc");
    assert_eq!(Browser::Chrome.to_str(), "Chrome");
    assert_eq!(Browser::Firefox.to_str(), "Firefox");
    assert_eq!(Browser::Safari.to_str(), "Safari");
    assert_eq!(Browser::Brave.to_str(), "Brave");
}

#[test]
fn decimal_rendering_exact() {
    assert_eq!(u64_digits(0), "0");
    assert_eq!(u64_digits(7), "7");
    assert_eq!(u64_digits(12345), "12345");
    assert_eq!(u64_digits(1000), "1000");
    assert_eq!(i64_digits(-7), "-7");
    assert_eq!(i64_digits(42), "42");
    assert_eq!(i64_digits(i64::MIN), "-9223372036854775808");
}

#[test]
fn home_marker_substitution() {
    assert_eq!(substitute_home("{}/x/y", "/home/u"), "/home/u/x/y");
    assert_eq!(substitute_home("a{}b", "Z"), "aZb");
    assert_eq!(substitute_home("no marker", "/home/u"), "no marker");
    assert_eq!(substitute_home("{}", "only"), "only");
}

#[test]
fn chrome_schema_on_linux() {
    let schema = get_browser_history_schema(&Browser::Chrome, HostOs::Linux, "/home/u").unwrap();
    assert_eq!(schema.browser, Browser::Chrome);
    assert_eq!(schema.path, "/home/u/.config/google-chrome/Default/History");
    assert!(schema.query.starts_with("SELECT id, url, title, visit_count, typed_count"));
}

#[test]
fn firefox_schema_keeps_wildcard() {
    let schema = get_browser_history_schema(&Browser::Firefox, HostOs::Linux, "/home/u").unwrap();
    assert_eq!(schema.path, "/home/u/.mozilla/firefox/*.default-release/places.sqlite");
    assert!(schema.query.contains("moz_places"));
}

#[test]
fn safari_only_resolves_on_macos() {
    // A Safari-only path requested on a non-matching platform yields no
    // schema at all, and that is an absence, not an error.
    assert!(get_browser_history_schema(&Browser::Safari, HostOs::Linux, "/home/u").is_none());
    assert!(get_browser_history_schema(&Browser::Safari, HostOs::Windows, "/home/u").is_none());
    assert!(safari_path(HostOs::Linux).is_none());
    assert!(safari_path(HostOs::Windows).is_none());
    assert!(safari_path(HostOs::Other).is_none());
    let schema = get_browser_history_schema(&Browser::Safari, HostOs::MacOs, "/Users/u").unwrap();
    assert_eq!(schema.path, "/Users/u/Library/Safari/History.db");
}

#[test]
fn no_browser_resolves_on_unknown_os() {
    for b in Browser::variants() {
        assert!(get_browser_history_schema(&b, HostOs::Other, "/home/u").is_none());
    }
}

#[test]
fn unwired_browser_paths_cover_the_big_three() {
    for os in [HostOs::MacOs, HostOs::Windows, HostOs::Linux] {
        assert!(opera_path(os).is_some());
        assert!(edge_path(os).is_some());
        assert!(vivaldi_path(os).is_some());
        assert!(chromium_path(os).is_some());
    }
    assert!(opera_path(HostOs::Other).is_none());
    assert_eq!(chromium_path(HostOs::Linux).unwrap(), "{}/.config/chromium/Default/History");
}

#[test]
fn schema_list_on_linux_skips_safari() {
    let schemas = schemas_for_home(HostOs::Linux, "/home/u");
    let browsers: Vec<Browser> = schemas.iter().map(|s| s.browser).collect();
    assert_eq!(
        browsers,
        vec![Browser::Arc, Browser::Chrome, Browser::Firefox, Browser::Brave]
    );
}

#[test]
fn schema_list_on_macos_has_all_five() {
    let schemas = schemas_for_home(HostOs::MacOs, "/Users/u");
    assert_eq!(schemas.len(), 5);
    assert_eq!(schemas[3].browser, Browser::Safari);
}

#[test]
fn schema_list_on_unknown_os_is_empty() {
    assert!(schemas_for_home(HostOs::Other, "/home/u").is_empty());
}

#[test]
fn resolution_against_real_home_substitutes_the_marker() {
    // When this machine has a resolvable home directory the resolved
    // paths must carry it in place of the marker; a machine without one
    // yields None, the fatal-configuration signal, and nothing else.
    if let Some(schemas) = resolve_all_schemas(HostOs::Linux) {
        assert_eq!(schemas.len(), 4);
        for schema in &schemas {
            assert!(!schema.path.contains("{}"));
            assert!(!schema.query.is_empty());
        }
    }
}

#[test]
fn queries_normalize_per_backend() {
    assert!(extraction_query(&Browser::Chrome).contains("11644473600000000"));
    assert!(extraction_query(&Browser::Brave).contains("from urls"));
    assert!(extraction_query(&Browser::Firefox).contains("last_visit_date"));
    assert!(extraction_query(&Browser::Safari).contains("978307200"));
}

#[test]
fn synthesized_id_prefixes_browser_name() {
    let e = entry_from_row(&Browser::Chrome, 12345, String::from("u"), String::from("t"), 3, 1, 0);
    assert_eq!(e.id, "Chrome-12345");
    assert_eq!(e.browser, Browser::Chrome);
    assert_eq!(e.url, "u");
    assert_eq!(e.title, "t");
    assert_eq!(e.visit_count, 3);
    assert_eq!(e.typed_count, 1);
    assert_eq!(e.last_visit_time, 0);
}

#[test]
fn synthesized_id_handles_negative_native_ids() {
    let e = entry_from_row(&Browser::Firefox, -9, String::new(), String::new(), 1, 1, 5);
    assert_eq!(e.id, "Firefox--9");
}

#[test]
fn synthesized_ids_differ_across_browsers() {
    // Same native id, different browsers: the ids must not collide.
    let a = entry_from_row(&Browser::Chrome, 5, String::new(), String::new(), 1, 1, 0);
    let b = entry_from_row(&Browser::Brave, 5, String::new(), String::new(), 1, 1, 0);
    assert_ne!(a.id, b.id);
    assert_eq!(a.id, "Chrome-5");
    assert_eq!(b.id, "Brave-5");
}
