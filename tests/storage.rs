use stracciatella_toolset::cache::{
    archive_root, cache_needs_update, externalized_prefix, root_component, externalized_entries, release_url, starts_with, with_json_cache_default,
};
use stracciatella_toolset::config::{PartialToolsetConfig, SerializableToolsetConfig, ToolsetConfig};
use stracciatella_toolset::dirs::get_json_cache_dir;
use stracciatella_toolset::mods::{check_mod_dir_free, Mod, ModCatalog, ModSettings};

fn a_mod(id: &str, path: &str) -> Mod {
    Mod {
        id: id.to_string(),
        name: id.to_uppercase(),
        description: "d".to_string(),
        version: "2".to_string(),
        path: path.to_string(),
    }
}

#[test]
fn catalog_lookup_takes_first_match() {
    let catalog = ModCatalog { mods: vec![a_mod("a", "/m/a1"), a_mod("b", "/m/b"), a_mod("a", "/m/a2")] };
    assert_eq!(catalog.get_mod_by_id("a").unwrap().path, "/m/a1");
    assert_eq!(catalog.get_mod_by_id("b").unwrap().name, "B");
    assert!(catalog.get_mod_by_id("c").is_none());
    assert!(ModCatalog { mods: vec![] }.get_mod_by_id("a").is_none());
}

#[test]
fn editable_mods_exclude_install_dir() {
    let catalog = ModCatalog {
        mods: vec![
            a_mod("vanilla", "/opt/ja2/mods/vanilla"),
            a_mod("mine", "/home/u/.ja2/mods/mine"),
            a_mod("sibling", "/opt/ja2x/mods/sibling"),
        ],
    };
    let editable = catalog.editable_mods("/opt/ja2");
    let ids: Vec<&str> = editable.iter().map(|m| m.id.as_str()).collect();
    assert_eq!(ids, vec!["mine", "sibling"]);
}

#[test]
fn mod_settings_file_name() {
    assert_eq!(ModSettings::filename(), "toolset.json");
    assert!(ModSettings::default().required_mods.is_empty());
}

#[test]
fn mod_dir_must_be_free() {
    let e = check_mod_dir_free("mine", true).unwrap_err();
    assert_eq!(e.message, "a mod with this id already exists: mine");
    assert!(check_mod_dir_free("mine", false).is_ok());
}

#[test]
fn cache_version_check() {
    assert!(!cache_needs_update("0.21.0", "0.21.0"));
    assert!(cache_needs_update("", "0.21.0"));
}

#[test]
fn release_url_is_exact() {
    assert_eq!(
        release_url("0", "21"),
        "https://github.com/ja2-stracciatella/ja2-stracciatella/archive/refs/tags/v0.21.0.zip"
    );
}

#[test]
fn externalized_entries_keep_paths_below_prefix() {
    let names = vec![
        "ja2-0.21.0/assets/externalized/".to_string(),
        "ja2-0.21.0/assets/externalized/items.json".to_string(),
        "ja2-0.21.0/src/main.cc".to_string(),
        "ja2-0.21.0/assets/externalized/maps/a.json".to_string(),
    ];
    let entries = externalized_entries(&names, "ja2-0.21.0/assets/externalized/");
    let rest: Vec<&str> = entries.iter().map(|(_, r)| r.as_str()).collect();
    assert_eq!(rest, vec!["", "items.json", "maps/a.json"]);
    assert_eq!(entries[1].0, "ja2-0.21.0/assets/externalized/items.json");
    assert!(starts_with("abc", "ab"));
    assert!(!starts_with("ab", "abc"));
}

#[test]
fn json_cache_stands_in_for_missing_install_dir() {
    let cfg = SerializableToolsetConfig { partial: true, config: PartialToolsetConfig::default() };
    let (r, uses) = with_json_cache_default(cfg, "/cache/json");
    assert!(uses);
    assert!(r.partial);
    assert_eq!(r.config.stracciatella_install_dir.as_deref(), Some("/cache/json"));

    let mut p = PartialToolsetConfig::default();
    p.stracciatella_install_dir = Some("/opt/ja2".to_string());
    let (r, uses) = with_json_cache_default(SerializableToolsetConfig { partial: false, config: p }, "/cache/json");
    assert!(!uses);
    assert_eq!(r.config.stracciatella_install_dir.as_deref(), Some("/opt/ja2"));

    let mut p = PartialToolsetConfig::default();
    p.stracciatella_install_dir = Some("/cache/json".to_string());
    let (_, uses) = with_json_cache_default(SerializableToolsetConfig { partial: false, config: p }, "/cache/json");
    assert!(uses);
}

#[test]
fn per_user_paths_end_with_their_file() {
    if let Ok(p) = get_json_cache_dir() {
        assert!(p.ends_with("stracciatella-json-cache"));
        assert!(p.len() > "stracciatella-json-cache".len());
    }
    if let Ok(p) = ToolsetConfig::path() {
        assert!(p.ends_with("toolset-config.json"));
        assert!(p.len() > "toolset-config.json".len());
    }
}

#[test]
fn archive_root_is_shared_first_component() {
    assert_eq!(root_component("ja2-0.21.0/assets/x.json"), "ja2-0.21.0");
    assert_eq!(root_component("plain"), "plain");
    assert_eq!(root_component("/abs"), "");
    let names = vec!["ja2-0.21.0/".to_string(), "ja2-0.21.0/assets/a.json".to_string()];
    assert_eq!(archive_root(&names).as_deref(), Some("ja2-0.21.0"));
    let mixed = vec!["a/x".to_string(), "b/y".to_string()];
    assert_eq!(archive_root(&mixed), None);
    assert_eq!(archive_root(&vec![]), None);
    let cluttered = vec![
        "__MACOSX/ja2/._a.json".to_string(),
        ".DS_Store".to_string(),
        "ja2/assets/a.json".to_string(),
    ];
    assert_eq!(archive_root(&cluttered).as_deref(), Some("ja2"));
    let top_file = vec!["ja2/a.json".to_string(), "README".to_string()];
    assert_eq!(archive_root(&top_file), None);
    assert_eq!(archive_root(&vec!["/abs/a".to_string()]), None);
    assert_eq!(externalized_prefix("ja2-0.21.0"), "ja2-0.21.0/assets/externalized/");
}
