use pact_extensions::effect::Action;
use pact_extensions::error::ExtensionError;
use pact_extensions::registry::{ExtensionConfig, ExtensionType, Registry};
use pact_extensions::router::{
    conclude, contains_item, get_pactflow_extensions, is_pactflow_extension, is_static, route,
    Route,
};

fn listing(entries: &[(&str, bool)]) -> Registry {
    let mut registry = Registry::new();
    for (name, installed) in entries {
        registry.insert(
            name.to_string(),
            ExtensionConfig {
                name: name.to_string(),
                version: "1".to_string(),
                binary_path: format!("/x/bin/{}", name),
                extension_type: ExtensionType::External,
                installed: *installed,
            },
        );
    }
    registry
}

fn strings(items: &[&str]) -> Vec<String> {
    items.iter().map(|s| s.to_string()).collect()
}

#[test]
fn pactflow_extensions_are_the_installed_ones_with_the_prefix() {
    let listed = listing(&[
        ("pactflow-ai", true),
        ("pactflow-legacy", false),
        ("mock-legacy", true),
        ("pactflow-", true),
        ("pactflow-x-y", true),
        ("pactflow", true),
    ]);
    assert_eq!(get_pactflow_extensions(&listed), vec!["ai", "", "x-y"]);
    assert!(is_pactflow_extension("ai", &listed));
    assert!(is_pactflow_extension("x-y", &listed));
    assert!(!is_pactflow_extension("legacy", &listed));
    assert!(!is_pactflow_extension("mock-legacy", &listed));
    assert!(!is_pactflow_extension("pactflow-ai", &listed));
    assert!(get_pactflow_extensions(&Registry::new()).is_empty());
}

#[test]
fn static_commands() {
    for command in ["broker", "extension", "pactflow", "stub", "completions", "plugin", "mock", "verifier"] {
        assert!(is_static(command));
    }
    assert!(!is_static("custom"));
    assert!(!is_static(""));
    assert!(!is_static("Broker"));
}

#[test]
fn no_command_shows_help() {
    let route = route(None, None, &[], &Registry::new(), &strings(&["pact"]));
    assert!(matches!(route, Route::Help));
}

#[test]
fn static_command_is_static() {
    let listed = listing(&[("pactflow-ai", true)]);
    match route(Some("verifier"), Some("ai"), &[], &listed, &strings(&["pact", "verifier", "ai"])) {
        Route::Static { command } => assert_eq!(command, "verifier"),
        _ => panic!("expected a static command"),
    }
}

#[test]
fn nested_pactflow_command_goes_to_an_installed_extension() {
    let listed = listing(&[("pactflow-ai", true)]);
    let known = strings(&["publish-provider-contract"]);
    let arguments = strings(&["pact", "pactflow", "ai", "generate", "--x"]);
    match route(Some("pactflow"), Some("ai"), &known, &listed, &arguments) {
        Route::PactflowExtension { command, args } => {
            assert_eq!(command, "ai");
            assert_eq!(args, strings(&["generate", "--x"]));
        }
        _ => panic!("expected an extension"),
    }
}

#[test]
fn built_in_pactflow_command_stays_static() {
    let listed = listing(&[("pactflow-ai", true)]);
    let known = strings(&["ai"]);
    let arguments = strings(&["pact", "pactflow", "ai"]);
    assert!(matches!(route(Some("pactflow"), Some("ai"), &known, &listed, &arguments), Route::Static { .. }));
}

#[test]
fn pactflow_command_of_an_extension_that_is_not_installed_stays_static() {
    let listed = listing(&[("pactflow-ai", false)]);
    let arguments = strings(&["pact", "pactflow", "ai"]);
    match route(Some("pactflow"), Some("ai"), &[], &listed, &arguments) {
        Route::Static { command } => assert_eq!(command, "pactflow"),
        _ => panic!("expected a static command"),
    }
    assert!(matches!(route(Some("pactflow"), None, &[], &listed, &arguments), Route::Static { .. }));
}

#[test]
fn unknown_top_level_command_is_tried_as_an_extension() {
    let arguments = strings(&["pact", "custom", "a", "b"]);
    match route(Some("custom"), None, &[], &Registry::new(), &arguments) {
        Route::External { name, args } => {
            assert_eq!(name, "custom");
            assert_eq!(args, strings(&["a", "b"]));
        }
        _ => panic!("expected an extension"),
    }
    match route(Some("custom"), None, &[], &Registry::new(), &strings(&["pact"])) {
        Route::External { args, .. } => assert!(args.is_empty()),
        _ => panic!("expected an extension"),
    }
}

#[test]
fn conclusion_of_a_child_that_ran() {
    let done = conclude(false, &Action::Relay { success: true, code: Some(0) });
    assert_eq!(done.exit_code, 0);
    assert!(!done.show_help);
    assert!(done.message.is_none());
    assert!(done.recorded.is_none());
    let failed = conclude(true, &Action::Relay { success: false, code: Some(7) });
    assert_eq!(failed.exit_code, 7);
    let killed = conclude(false, &Action::Relay { success: false, code: None });
    assert_eq!(killed.exit_code, 1);
    let wide = conclude(false, &Action::Relay { success: false, code: Some(256 + 9) });
    assert_eq!(wide.exit_code, 9);
}

#[test]
fn unknown_top_level_command_ends_with_help() {
    let error = ExtensionError::NotFound { name: "nope".to_string() };
    let conclusion = conclude(false, &Action::Fail { error });
    assert_eq!(conclusion.exit_code, 1);
    assert!(conclusion.show_help);
    assert!(conclusion.message.is_none());
    assert_eq!(conclusion.recorded.unwrap(), "Unknown command");
}

#[test]
fn failed_pactflow_extension_reports_the_failure() {
    let error = ExtensionError::NotInstalled { name: "pactflow-ai".to_string() };
    let conclusion = conclude(true, &Action::Fail { error });
    assert_eq!(conclusion.exit_code, 1);
    assert!(!conclusion.show_help);
    assert_eq!(
        conclusion.message.unwrap(),
        "PactFlow extension error: Extension 'pactflow-ai' is not installed. Run 'pact extension install pactflow-ai' first."
    );
    assert_eq!(
        conclusion.recorded.unwrap(),
        "Extension 'pactflow-ai' is not installed. Run 'pact extension install pactflow-ai' first."
    );
}

#[test]
fn conclusion_of_an_unfinished_invocation() {
    let conclusion = conclude(false, &Action::LoadRegistry);
    assert_eq!(conclusion.exit_code, 1);
    assert!(!conclusion.show_help);
    assert!(conclusion.message.is_none());
}

#[test]
fn contains_item_looks_for_the_whole_string() {
    let items = strings(&["ab", "c"]);
    assert!(contains_item(&items, "ab"));
    assert!(contains_item(&items, "c"));
    assert!(!contains_item(&items, "a"));
    assert!(!contains_item(&[], "a"));
}
