use pact_extensions::effect::Action;
use pact_extensions::manager::{
    builtin_name_at, default_home, legacy_source_at, legacy_target_at, ExtensionManager,
    BUILTIN_COUNT, LEGACY_TOOL_COUNT,
};
use pact_extensions::registry::{ExtensionConfig, ExtensionType, PathSet, Registry};

fn manager_on(os: &str, arch: &str) -> ExtensionManager {
    ExtensionManager::new("/home/u", Some("/home/u/.pact/extensions".to_string()), os, arch)
}

fn record(name: &str, version: &str, kind: ExtensionType, installed: bool) -> ExtensionConfig {
    ExtensionConfig {
        name: name.to_string(),
        version: version.to_string(),
        binary_path: format!("/elsewhere/{}", name),
        extension_type: kind,
        installed,
    }
}

#[test]
fn home_is_the_default_without_an_override() {
    let manager = ExtensionManager::new("/home/u", None, "linux", "x86_64");
    assert_eq!(manager.extensions_home, "/home/u/.pact/extensions");
    assert_eq!(manager.platform.os, "linux");
    assert_eq!(manager.platform.arch, "x86_64");
}

#[test]
fn default_home_lies_in_the_home_of_the_user() {
    assert_eq!(default_home("/home/u", "linux"), "/home/u/.pact/extensions");
    assert_eq!(default_home("/home/u/", "linux"), "/home/u/.pact/extensions");
    assert_eq!(default_home("/Users/u", "darwin"), "/Users/u/.pact/extensions");
    assert_eq!(default_home("/", "linux"), "/.pact/extensions");
    assert_eq!(default_home("", "linux"), ".pact/extensions");
    assert_eq!(default_home("", "windows"), ".pact/extensions");
}

#[test]
fn default_home_is_joined_as_the_system_joins_paths() {
    assert_eq!(default_home("C:\\Users\\u", "windows"), "C:\\Users\\u\\.pact/extensions");
    assert_eq!(default_home("C:\\Users\\u\\", "windows"), "C:\\Users\\u\\.pact/extensions");
    assert_eq!(default_home("C:/Users/u/", "windows"), "C:/Users/u/.pact/extensions");
    assert_eq!(default_home("/home/u\\", "linux"), "/home/u\\/.pact/extensions");
    let manager = ExtensionManager::new("C:\\Users\\u", None, "windows", "x86_64");
    assert_eq!(manager.extensions_home, "C:\\Users\\u\\.pact/extensions");
    assert_eq!(manager.get_extension_config_path(), "C:\\Users\\u\\.pact/extensions/config.json");
}

#[test]
fn manager_detects_the_platform() {
    let manager = ExtensionManager::new("/home/u", None, "macos", "aarch64");
    assert_eq!(manager.platform.os, "darwin");
    assert_eq!(manager.platform.arch, "aarch64");
    assert_eq!(manager.extensions_home, "/home/u/.pact/extensions");
}

#[test]
fn home_override_wins() {
    let manager = ExtensionManager::new("/home/u", Some("/opt/ext".to_string()), "linux", "x86_64");
    assert_eq!(manager.extensions_home, "/opt/ext");
    assert_eq!(manager.get_extension_config_path(), "/opt/ext/config.json");
}

#[test]
fn conventional_paths() {
    let manager = manager_on("linux", "x86_64");
    assert_eq!(manager.get_extension_config_path(), "/home/u/.pact/extensions/config.json");
    assert_eq!(manager.bin_dir(), "/home/u/.pact/extensions/bin");
    assert_eq!(manager.extract_dir(), "/home/u/.pact/extensions/pact-legacy");
    assert_eq!(manager.tool_path("pactflow-ai"), "/home/u/.pact/extensions/bin/pactflow-ai");
    assert_eq!(
        manager.source_path("pact-broker"),
        "/home/u/.pact/extensions/pact-legacy/bin/pact-broker"
    );
    assert_eq!(manager.archive_path(), "/home/u/.pact/extensions/pact-legacy.tar.gz");
}

#[test]
fn conventional_paths_on_windows() {
    let manager = manager_on("windows", "x86_64");
    assert_eq!(manager.tool_path("pactflow-ai"), "/home/u/.pact/extensions/bin/pactflow-ai.exe");
    assert_eq!(
        manager.source_path("pact-broker"),
        "/home/u/.pact/extensions/pact-legacy/bin/pact-broker.exe"
    );
    assert_eq!(manager.archive_path(), "/home/u/.pact/extensions/pact-legacy.zip");
}

#[test]
fn ensure_extensions_dir_creates_the_home() {
    let manager = manager_on("linux", "x86_64");
    match manager.ensure_extensions_dir() {
        Action::CreateDir { path } => assert_eq!(path, "/home/u/.pact/extensions"),
        _ => panic!("expected the creation of the home directory"),
    }
}

#[test]
fn builtin_and_legacy_tables() {
    assert_eq!(BUILTIN_COUNT, 7);
    assert_eq!(LEGACY_TOOL_COUNT, 6);
    let builtin: Vec<&str> = (0..BUILTIN_COUNT).map(builtin_name_at).collect();
    assert_eq!(
        builtin,
        vec![
            "pactflow-ai",
            "pact-broker-legacy",
            "pactflow-legacy",
            "message-legacy",
            "mock-legacy",
            "verifier-legacy",
            "stub-legacy"
        ]
    );
    let sources: Vec<&str> = (0..LEGACY_TOOL_COUNT).map(legacy_source_at).collect();
    assert_eq!(
        sources,
        vec![
            "pact-broker",
            "pactflow",
            "pact-message",
            "pact-mock-service",
            "pact-provider-verifier",
            "pact-stub-service"
        ]
    );
    for i in 0..LEGACY_TOOL_COUNT {
        assert_eq!(legacy_target_at(i), builtin_name_at(i + 1));
    }
}

#[test]
fn missing_document_loads_as_empty_registry() {
    let manager = manager_on("linux", "x86_64");
    let registry = manager.load_config(None);
    assert_eq!(registry.len(), 0);
}

#[test]
fn document_loads_in_order_and_later_entries_win() {
    let manager = manager_on("linux", "x86_64");
    let entries = vec![
        ("a".to_string(), record("a", "1", ExtensionType::External, true)),
        ("b".to_string(), record("b", "2", ExtensionType::PactflowAi, false)),
        ("a".to_string(), record("a", "3", ExtensionType::External, false)),
    ];
    let registry = manager.load_config(Some(entries));
    assert_eq!(registry.len(), 2);
    assert_eq!(registry.get("a").unwrap().version, "3");
    assert_eq!(registry.get("b").unwrap().version, "2");
    assert_eq!(registry.key_at(0), "a");
    assert_eq!(registry.key_at(1), "b");
}

#[test]
fn save_then_load_gives_the_same_registry() {
    let manager = manager_on("linux", "x86_64");
    let mut registry = Registry::new();
    registry.insert("pactflow-ai".to_string(), record("pactflow-ai", "2.0.0", ExtensionType::PactflowAi, true));
    registry.insert("pact-legacy".to_string(), record("pact-legacy", "v2.4.1", ExtensionType::PactRubyStandalone, true));
    registry.insert("other".to_string(), record("renamed", "0", ExtensionType::External, false));
    let saved = manager.save_config(&registry);
    assert_eq!(saved.len(), 3);
    assert_eq!(saved[0].0, "pactflow-ai");
    assert_eq!(saved[2].0, "other");
    assert_eq!(saved[2].1.name, "renamed");
    let loaded = manager.load_config(Some(saved));
    assert_eq!(loaded.len(), registry.len());
    for i in 0..registry.len() {
        let name = registry.key_at(i);
        assert_eq!(loaded.key_at(i), name);
        let before = registry.get(name).unwrap();
        let after = loaded.get(name).unwrap();
        assert_eq!(after.name, before.name);
        assert_eq!(after.version, before.version);
        assert_eq!(after.binary_path, before.binary_path);
        assert_eq!(after.extension_type, before.extension_type);
        assert_eq!(after.installed, before.installed);
    }
}

#[test]
fn save_of_the_empty_registry_is_empty() {
    let manager = manager_on("linux", "x86_64");
    assert!(manager.save_config(&Registry::new()).is_empty());
    assert_eq!(manager.load_config(Some(Vec::new())).len(), 0);
}

#[test]
fn listing_adds_every_builtin_name() {
    let manager = manager_on("linux", "x86_64");
    let listed = manager.list_extensions(Registry::new(), &PathSet::new());
    assert_eq!(listed.len(), 7);
    for i in 0..BUILTIN_COUNT {
        let name = builtin_name_at(i);
        assert_eq!(listed.key_at(i), name);
        let config = listed.get(name).unwrap();
        assert_eq!(config.name, name);
        assert_eq!(config.version, "latest");
        assert_eq!(config.binary_path, format!("/home/u/.pact/extensions/bin/{}", name));
        assert!(!config.installed);
        if i == 0 {
            assert_eq!(config.extension_type, ExtensionType::PactflowAi);
        } else {
            assert_eq!(config.extension_type, ExtensionType::PactRubyStandalone);
        }
    }
}

#[test]
fn listing_computes_installed_from_disk() {
    let manager = manager_on("windows", "x86_64");
    let mut present = PathSet::new();
    present.insert("/home/u/.pact/extensions/bin/mock-legacy.exe".to_string());
    present.insert("/home/u/.pact/extensions/bin/pactflow-ai".to_string());
    let listed = manager.list_extensions(Registry::new(), &present);
    assert!(listed.get("mock-legacy").unwrap().installed);
    assert!(!listed.get("pactflow-ai").unwrap().installed);
    assert!(!listed.get("stub-legacy").unwrap().installed);
}

#[test]
fn listing_keeps_the_records_of_the_registry() {
    let manager = manager_on("linux", "x86_64");
    let mut registry = Registry::new();
    registry.insert("custom".to_string(), record("custom", "9", ExtensionType::External, true));
    registry.insert("pactflow-ai".to_string(), record("pactflow-ai", "2.0.0", ExtensionType::PactflowAi, false));
    let mut present = PathSet::new();
    present.insert("/home/u/.pact/extensions/bin/pactflow-ai".to_string());
    let listed = manager.list_extensions(registry, &present);
    assert_eq!(listed.len(), 8);
    assert_eq!(listed.key_at(0), "custom");
    assert_eq!(listed.key_at(1), "pactflow-ai");
    assert_eq!(listed.key_at(2), "pact-broker-legacy");
    let ai = listed.get("pactflow-ai").unwrap();
    assert_eq!(ai.version, "2.0.0");
    assert_eq!(ai.binary_path, "/elsewhere/pactflow-ai");
    assert!(!ai.installed);
    assert!(listed.get("custom").unwrap().installed);
}
