use pact_extensions::effect::Action;
use pact_extensions::error::ExtensionError;
use pact_extensions::listing::{extension_rows, latest_or_unknown};
use pact_extensions::manager::ExtensionManager;
use pact_extensions::registry::{ExtensionConfig, ExtensionType, PathSet, Registry};

fn manager() -> ExtensionManager {
    ExtensionManager::new("/home/u", None, "linux", "x86_64")
}

fn listing() -> Registry {
    let mut registry = Registry::new();
    for (name, version, kind, installed) in [
        ("pactflow-ai", "2.0.0", ExtensionType::PactflowAi, true),
        ("pact-legacy", "v2.4.1", ExtensionType::PactRubyStandalone, true),
        ("mock-legacy", "latest", ExtensionType::PactRubyStandalone, false),
        ("custom", "9", ExtensionType::External, true),
    ] {
        registry.insert(
            name.to_string(),
            ExtensionConfig {
                name: name.to_string(),
                version: version.to_string(),
                binary_path: format!("/home/u/.pact/extensions/bin/{}", name),
                extension_type: kind,
                installed,
            },
        );
    }
    registry
}

#[test]
fn rows_of_the_whole_listing() {
    let rows = extension_rows(&listing(), false, "v2.5.0", "1.11.4", "1.11.3");
    assert_eq!(rows.len(), 4);
    assert_eq!(rows[0].name, "pactflow-ai");
    assert_eq!(rows[0].kind, "PactFlow AI");
    assert_eq!(rows[0].installed_version, "1.11.3");
    assert_eq!(rows[0].latest_version, "1.11.4");
    assert_eq!(rows[0].status, "\u{2705} Installed");
    assert_eq!(rows[1].name, "pact-legacy");
    assert_eq!(rows[1].kind, "Pact Legacy");
    assert_eq!(rows[1].installed_version, "v2.4.1");
    assert_eq!(rows[1].latest_version, "v2.5.0");
    assert_eq!(rows[2].name, "mock-legacy");
    assert_eq!(rows[2].installed_version, "-");
    assert_eq!(rows[2].latest_version, "v2.5.0");
    assert_eq!(rows[2].status, "\u{274c} Not Installed");
    assert_eq!(rows[3].name, "custom");
    assert_eq!(rows[3].kind, "External");
    assert_eq!(rows[3].installed_version, "9");
    assert_eq!(rows[3].latest_version, "-");
}

#[test]
fn rows_of_the_installed_only() {
    let rows = extension_rows(&listing(), true, "unknown", "unknown", "unknown");
    let names: Vec<&str> = rows.iter().map(|row| row.name.as_str()).collect();
    assert_eq!(names, vec!["pactflow-ai", "pact-legacy", "custom"]);
    assert_eq!(rows[0].installed_version, "unknown");
    assert_eq!(rows[0].latest_version, "unknown");
    assert!(extension_rows(&Registry::new(), false, "", "", "").is_empty());
}

#[test]
fn latest_version_or_unknown() {
    assert_eq!(latest_or_unknown(Ok("1.2.3".to_string())), "1.2.3");
    assert_eq!(latest_or_unknown(Err(ExtensionError::VersionResolution)), "unknown");
    assert_eq!(
        latest_or_unknown(Err(ExtensionError::Network { message: "x".to_string() })),
        "unknown"
    );
}

#[test]
fn installed_version_is_the_second_word_of_the_report() {
    let manager = manager();
    assert_eq!(manager.get_installed_pactflow_ai_version(Some("pactflow-ai 1.11.4\n")), "1.11.4");
    assert_eq!(manager.get_installed_pactflow_ai_version(Some("pactflow-ai  1.11.4 (abc)")), "1.11.4");
    assert_eq!(manager.get_installed_pactflow_ai_version(Some("pactflow-ai")), "unknown");
    assert_eq!(manager.get_installed_pactflow_ai_version(Some("")), "unknown");
    assert_eq!(manager.get_installed_pactflow_ai_version(None), "unknown");
}

#[test]
fn installed_version_is_asked_of_an_installed_binary_that_exists() {
    let manager = manager();
    let mut present = PathSet::new();
    assert!(manager.installed_version_query(&listing(), &present).is_none());
    present.insert("/home/u/.pact/extensions/bin/pactflow-ai".to_string());
    match manager.installed_version_query(&listing(), &present) {
        Some(Action::Run { program, args }) => {
            assert_eq!(program, "/home/u/.pact/extensions/bin/pactflow-ai");
            assert_eq!(args, vec!["--version"]);
        }
        _ => panic!("expected a program to run"),
    }
    assert!(manager.installed_version_query(&Registry::new(), &present).is_none());
    let mut registry = listing();
    let mut record = registry.get("pactflow-ai").unwrap().clone();
    record.installed = false;
    registry.insert("pactflow-ai".to_string(), record);
    assert!(manager.installed_version_query(&registry, &present).is_none());
}
