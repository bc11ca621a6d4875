use pact_extensions::effect::{Action, Event};
use pact_extensions::error::ExtensionError;
use pact_extensions::invoke::{
    copy_args, exit_byte, exit_code, run_external_extension, run_pactflow_extension, RunState,
};
use pact_extensions::manager::ExtensionManager;
use pact_extensions::registry::{ExtensionConfig, ExtensionType, Registry};

fn manager() -> ExtensionManager {
    ExtensionManager::new("/home/u", None, "linux", "x86_64")
}

fn registry() -> Registry {
    let mut registry = Registry::new();
    registry.insert(
        "pactflow-ai".to_string(),
        ExtensionConfig {
            name: "pactflow-ai".to_string(),
            version: "2.0.0".to_string(),
            binary_path: "/home/u/.pact/extensions/bin/pactflow-ai".to_string(),
            extension_type: ExtensionType::PactflowAi,
            installed: true,
        },
    );
    registry.insert(
        "mock-legacy".to_string(),
        ExtensionConfig {
            name: "mock-legacy".to_string(),
            version: "latest".to_string(),
            binary_path: "/home/u/.pact/extensions/bin/mock-legacy".to_string(),
            extension_type: ExtensionType::PactRubyStandalone,
            installed: false,
        },
    );
    registry
}

fn args() -> Vec<String> {
    vec!["generate".to_string(), "--output".to_string(), "a b".to_string()]
}

#[test]
fn installed_extension_runs_from_its_recorded_path() {
    let manager = manager();
    let (state, action) = manager.run_extension("pactflow-ai", &args(), RunState::Idle, Event::Begin);
    assert_eq!(state, RunState::Loading);
    assert!(matches!(action, Action::LoadRegistry));
    let (state, action) = manager.run_extension("pactflow-ai", &args(), state, Event::Loaded { registry: registry() });
    assert_eq!(state, RunState::Running { fallback: false });
    match action {
        Action::Run { program, args } => {
            assert_eq!(program, "/home/u/.pact/extensions/bin/pactflow-ai");
            assert_eq!(args, vec!["generate", "--output", "a b"]);
        }
        _ => panic!("expected a program to run"),
    }
    let (state, action) = manager.run_extension("pactflow-ai", &args(), state, Event::Exit { success: false, code: Some(3) });
    assert_eq!(state, RunState::Finished);
    assert!(matches!(action, Action::Relay { success: false, code: Some(3) }));
}

#[test]
fn registered_but_not_installed_is_refused() {
    let manager = manager();
    let (state, action) = manager.run_extension("mock-legacy", &[], RunState::Loading, Event::Loaded { registry: registry() });
    assert_eq!(state, RunState::Failed);
    match action {
        Action::Fail { error: ExtensionError::NotInstalled { name } } => assert_eq!(name, "mock-legacy"),
        _ => panic!("expected a failure"),
    }
}

#[test]
fn unregistered_name_falls_back_to_the_search_path() {
    let manager = manager();
    let (state, action) = manager.run_extension("custom", &args(), RunState::Loading, Event::Loaded { registry: registry() });
    assert_eq!(state, RunState::Running { fallback: true });
    match action {
        Action::Run { program, args } => {
            assert_eq!(program, "pact-custom");
            assert_eq!(args.len(), 3);
        }
        _ => panic!("expected a program to run"),
    }
    let (state, action) = manager.run_extension("custom", &args(), state, Event::Exit { success: true, code: Some(0) });
    assert_eq!(state, RunState::Finished);
    assert!(matches!(action, Action::Relay { success: true, code: Some(0) }));
}

#[test]
fn name_without_record_or_binary_is_not_found() {
    let manager = manager();
    let (state, _) = manager.run_extension("nope", &[], RunState::Idle, Event::Begin);
    let (state, action) = manager.run_extension("nope", &[], state, Event::Loaded { registry: Registry::new() });
    assert!(matches!(action, Action::Run { .. }));
    let (state, action) = manager.run_extension("nope", &[], state, Event::Failed { message: "No such file or directory".to_string() });
    assert_eq!(state, RunState::Failed);
    match action {
        Action::Fail { error: ExtensionError::NotFound { name } } => assert_eq!(name, "nope"),
        _ => panic!("expected the extension not to be found"),
    }
}

#[test]
fn recorded_binary_that_cannot_be_launched_is_a_filesystem_failure() {
    let manager = manager();
    let (state, action) = manager.run_extension(
        "pactflow-ai",
        &[],
        RunState::Running { fallback: false },
        Event::Failed { message: "permission denied".to_string() },
    );
    assert_eq!(state, RunState::Failed);
    match action {
        Action::Fail { error: ExtensionError::Filesystem { message } } => assert_eq!(message, "permission denied"),
        _ => panic!("expected a filesystem failure"),
    }
}

#[test]
fn run_events_out_of_order_fail() {
    let manager = manager();
    for (state, event) in [
        (RunState::Idle, Event::Done),
        (RunState::Loading, Event::Begin),
        (RunState::Running { fallback: true }, Event::Done),
        (RunState::Finished, Event::Begin),
        (RunState::Failed, Event::Begin),
    ] {
        let (state, action) = manager.run_extension("x", &[], state, event);
        assert_eq!(state, RunState::Failed);
        assert!(matches!(action, Action::Fail { error: ExtensionError::OutOfOrder }));
    }
}

#[test]
fn pactflow_extension_runs_under_its_registered_name() {
    let manager = manager();
    let (_, action) = run_pactflow_extension(&manager, "ai", &args(), RunState::Loading, Event::Loaded { registry: registry() });
    match action {
        Action::Run { program, .. } => assert_eq!(program, "/home/u/.pact/extensions/bin/pactflow-ai"),
        _ => panic!("expected a program to run"),
    }
    let (_, action) = run_pactflow_extension(&manager, "other", &[], RunState::Loading, Event::Loaded { registry: registry() });
    match action {
        Action::Run { program, .. } => assert_eq!(program, "pact-pactflow-other"),
        _ => panic!("expected a program to run"),
    }
}

#[test]
fn external_extension_runs_under_its_own_name() {
    let manager = manager();
    let (_, action) = run_external_extension(&manager, "pactflow-ai", &[], RunState::Loading, Event::Loaded { registry: registry() });
    match action {
        Action::Run { program, args } => {
            assert_eq!(program, "/home/u/.pact/extensions/bin/pactflow-ai");
            assert!(args.is_empty());
        }
        _ => panic!("expected a program to run"),
    }
}

#[test]
fn exit_code_of_a_child() {
    assert_eq!(exit_code(true, Some(0)), 0);
    assert_eq!(exit_code(true, Some(5)), 0);
    assert_eq!(exit_code(true, None), 0);
    assert_eq!(exit_code(false, Some(3)), 3);
    assert_eq!(exit_code(false, Some(-2)), -2);
    assert_eq!(exit_code(false, None), 1);
}

#[test]
fn exit_byte_is_the_code_modulo_256() {
    assert_eq!(exit_byte(0), 0);
    assert_eq!(exit_byte(1), 1);
    assert_eq!(exit_byte(255), 255);
    assert_eq!(exit_byte(256), 0);
    assert_eq!(exit_byte(257), 1);
    assert_eq!(exit_byte(-1), 255);
    assert_eq!(exit_byte(-256), 0);
    assert_eq!(exit_byte(-257), 255);
    assert_eq!(exit_byte(i32::MAX), 255);
    assert_eq!(exit_byte(i32::MIN), 0);
    for code in [-1000, -129, -128, -1, 0, 127, 128, 1000, 65536] {
        assert_eq!(exit_byte(code), code as u8);
    }
}

#[test]
fn copy_args_copies() {
    assert_eq!(copy_args(&args()), args());
    assert!(copy_args(&[]).is_empty());
}
