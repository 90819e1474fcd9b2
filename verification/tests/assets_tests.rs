//! Tests of the asset linker.

use portfolio_site::assets::{
    has_export_marker, is_binary_candidate, is_script_candidate, link_assets, AssetEntry,
    LinkError,
};

fn entry(name: &str, has_marker: bool) -> AssetEntry {
    AssetEntry { name: String::from(name), has_marker }
}

#[test]
fn script_names_follow_the_convention() {
    assert!(is_script_candidate("portfolio_site-1a2b3c.js"));
    assert!(!is_script_candidate("portfolio_site-1a2b3c.wasm"));
    assert!(!is_script_candidate("other-1a2b3c.js"));
    assert!(!is_script_candidate("portfolio_site_bg-1a2b3c.wasm"));
    assert!(is_binary_candidate("portfolio_site_bg-1a2b3c.wasm"));
    assert!(!is_binary_candidate("portfolio_site-1a2b3c.js"));
}

#[test]
fn the_marker_is_found_only_where_it_stands() {
    assert!(has_export_marker("export function mount_contact_component() {}"));
    assert!(!has_export_marker("export function something_else() {}"));
    assert!(!has_export_marker(""));
}

#[test]
fn zero_matching_scripts_fail_with_not_found() {
    let entries = vec![
        entry("style.css", false),
        entry("portfolio_site_bg-1a2b3c.wasm", false),
        entry("other-9z.js", true),
    ];
    match link_assets(&entries) {
        Err(e @ LinkError::ScriptNotFound) => {
            assert!(e.message().contains("not found"));
        }
        _ => panic!("expected the script-not-found failure"),
    }
}

#[test]
fn a_script_without_the_marker_does_not_count() {
    let entries = vec![
        entry("portfolio_site-1a2b3c.js", false),
        entry("portfolio_site_bg-1a2b3c.wasm", false),
    ];
    assert!(matches!(link_assets(&entries), Err(LinkError::ScriptNotFound)));
}

#[test]
fn a_missing_binary_fails_with_not_found() {
    let entries = vec![entry("portfolio_site-1a2b3c.js", true)];
    match link_assets(&entries) {
        Err(e @ LinkError::BinaryNotFound) => {
            assert!(e.message().contains("not found"));
        }
        _ => panic!("expected the binary-not-found failure"),
    }
}

#[test]
fn one_script_and_one_binary_resolve_to_their_paths() {
    let entries = vec![
        entry("style.css", false),
        entry("portfolio_site-1a2b3c.js", true),
        entry("portfolio_site_bg-4d5e6f.wasm", false),
    ];
    let linked = link_assets(&entries).expect("both files are present");
    assert_eq!(linked.script_path, "/assets/portfolio_site-1a2b3c.js");
    assert_eq!(linked.binary_path, "/assets/portfolio_site_bg-4d5e6f.wasm");
}

#[test]
fn the_first_matching_file_wins() {
    let entries = vec![
        entry("portfolio_site-first.js", true),
        entry("portfolio_site-second.js", true),
        entry("portfolio_site_bg-first.wasm", false),
        entry("portfolio_site_bg-second.wasm", false),
    ];
    let linked = link_assets(&entries).expect("both files are present");
    assert_eq!(linked.script_path, "/assets/portfolio_site-first.js");
    assert_eq!(linked.binary_path, "/assets/portfolio_site_bg-first.wasm");
}

#[test]
fn an_empty_directory_fails_on_the_script_first() {
    let entries: Vec<AssetEntry> = Vec::new();
    assert!(matches!(link_assets(&entries), Err(LinkError::ScriptNotFound)));
}
