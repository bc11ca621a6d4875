use pact_extensions::effect::{is_success, Action, Event};
use pact_extensions::error::{ExtensionError, Family, Request};
use pact_extensions::install::{register, release_version_of, InstallState};
use pact_extensions::manager::ExtensionManager;
use pact_extensions::registry::{ExtensionConfig, ExtensionType, PathSet, Registry};

const HOME: &str = "/home/u/.pact/extensions";

fn manager_on(os: &str, arch: &str) -> ExtensionManager {
    ExtensionManager::new("/home/u", Some("/home/u/.pact/extensions".to_string()), os, arch)
}

fn failure(action: Action) -> ExtensionError {
    match action {
        Action::Fail { error } => error,
        _ => panic!("expected a failure"),
    }
}

/// Runs an installation of the single-binary family in which every action
/// succeeds, and returns the registry that it persists and the number of
/// requests it made.
fn install_pactflow_ai(manager: &ExtensionManager, version: Option<&str>, latest: &str, loaded: Registry) -> (Registry, usize) {
    let mut fetches = 0;
    let mut loaded = Some(loaded);
    let mut saved = None;
    let (mut state, mut action) = manager.install_pactflow_ai(version, InstallState::Idle, Event::Begin);
    loop {
        let event = match action {
            Action::CreateDir { .. } | Action::WriteBody { .. } => Event::Done,
            Action::FetchText { .. } => {
                fetches += 1;
                Event::Text { status: 200, body: latest.to_string() }
            }
            Action::Download { .. } => {
                fetches += 1;
                Event::Status { status: 200 }
            }
            Action::LoadRegistry => Event::Loaded { registry: loaded.take().unwrap() },
            Action::SaveRegistry { registry } => {
                saved = Some(registry);
                Event::Done
            }
            Action::Finish => break,
            _ => panic!("unexpected action"),
        };
        let next = manager.install_pactflow_ai(version, state, event);
        state = next.0;
        action = next.1;
    }
    assert!(matches!(state, InstallState::Finished));
    (saved.unwrap(), fetches)
}

/// Runs an installation of the legacy bundle in which every action succeeds
/// and the extracted bundle holds the given tools.
fn install_ruby_legacy(manager: &ExtensionManager, version: Option<&str>, metadata: &str, tools: &[&str], loaded: Registry) -> (Registry, Vec<(String, String)>, Vec<String>) {
    let mut loaded = Some(loaded);
    let mut saved = None;
    let mut linked = Vec::new();
    let mut log = Vec::new();
    let (mut state, mut action) = manager.install_ruby_legacy(version, InstallState::Idle, Event::Begin);
    loop {
        let event = match action {
            Action::CreateDir { path } => {
                log.push(format!("mkdir {}", path));
                Event::Done
            }
            Action::WriteBody { path, executable } => {
                assert!(!executable);
                log.push(format!("write {}", path));
                Event::Done
            }
            Action::FetchText { url, user_agent } => {
                log.push(format!("get {}", url));
                assert_eq!(user_agent, "pact-cli");
                Event::Text { status: 200, body: metadata.to_string() }
            }
            Action::Download { url } => {
                log.push(format!("download {}", url));
                Event::Status { status: 200 }
            }
            Action::Run { program, args } => {
                log.push(format!("run {} {}", program, args.join(" ")));
                Event::Exit { success: true, code: Some(0) }
            }
            Action::Probe { paths } => {
                let mut present = PathSet::new();
                for path in paths {
                    if path == manager.extract_dir() || tools.iter().any(|tool| path == manager.source_path(tool)) {
                        present.insert(path);
                    }
                }
                Event::Present { paths: present }
            }
            Action::Link { aliases } => {
                for alias in aliases {
                    linked.push((alias.source, alias.target));
                }
                Event::Done
            }
            Action::Remove { files, directories } => {
                assert!(directories.is_empty());
                for file in files {
                    log.push(format!("rm {}", file));
                }
                Event::Done
            }
            Action::LoadRegistry => Event::Loaded { registry: loaded.take().unwrap() },
            Action::SaveRegistry { registry } => {
                log.push("save".to_string());
                saved = Some(registry);
                Event::Done
            }
            Action::Finish => break,
            Action::Relay { .. } => panic!("unexpected relay"),
            Action::Fail { error } => panic!("unexpected failure: {}", error.message()),
        };
        let next = manager.install_ruby_legacy(version, state, event);
        state = next.0;
        action = next.1;
    }
    assert!(matches!(state, InstallState::Finished));
    (saved.unwrap(), linked, log)
}

#[test]
fn success_is_the_two_hundreds() {
    assert!(!is_success(199));
    assert!(is_success(200));
    assert!(is_success(204));
    assert!(is_success(299));
    assert!(!is_success(300));
    assert!(!is_success(404));
    assert!(!is_success(0));
}

#[test]
fn installing_pactflow_ai_with_an_explicit_version() {
    let manager = manager_on("linux", "x86_64");
    let (state, action) = manager.install_pactflow_ai(Some("2.0.0"), InstallState::Idle, Event::Begin);
    assert!(matches!(state, InstallState::PreparingHome));
    match action {
        Action::CreateDir { path } => assert_eq!(path, HOME),
        _ => panic!("expected the creation of the home directory"),
    }
    let (state, action) = manager.install_pactflow_ai(Some("2.0.0"), state, Event::Done);
    match &state {
        InstallState::Downloading { version } => assert_eq!(version, "2.0.0"),
        _ => panic!("expected the download"),
    }
    match action {
        Action::Download { url } => {
            assert_eq!(url, "https://download.pactflow.io/ai/dist/x86_64-unknown-linux-gnu/2.0.0/pactflow-ai");
        }
        _ => panic!("expected a request"),
    }
    let (state, action) = manager.install_pactflow_ai(Some("2.0.0"), state, Event::Status { status: 200 });
    assert!(matches!(state, InstallState::PreparingBin { .. }));
    match action {
        Action::CreateDir { path } => assert_eq!(path, "/home/u/.pact/extensions/bin"),
        _ => panic!("expected the creation of the command directory"),
    }
    let (state, action) = manager.install_pactflow_ai(Some("2.0.0"), state, Event::Done);
    assert!(matches!(state, InstallState::Storing { .. }));
    match action {
        Action::WriteBody { path, executable } => {
            assert_eq!(path, "/home/u/.pact/extensions/bin/pactflow-ai");
            assert!(executable);
        }
        _ => panic!("expected the artifact to be written"),
    }
    let (state, action) = manager.install_pactflow_ai(Some("2.0.0"), state, Event::Done);
    assert!(matches!(state, InstallState::Loading { .. }));
    assert!(matches!(action, Action::LoadRegistry));
    let (state, action) = manager.install_pactflow_ai(Some("2.0.0"), state, Event::Loaded { registry: Registry::new() });
    assert!(matches!(state, InstallState::Saving));
    match action {
        Action::SaveRegistry { registry } => {
            assert_eq!(registry.len(), 1);
            let record = registry.get("pactflow-ai").unwrap();
            assert_eq!(record.name, "pactflow-ai");
            assert_eq!(record.version, "2.0.0");
            assert_eq!(record.binary_path, "/home/u/.pact/extensions/bin/pactflow-ai");
            assert_eq!(record.extension_type, ExtensionType::PactflowAi);
            assert!(record.installed);
        }
        _ => panic!("expected the registry to be saved"),
    }
    let (state, action) = manager.install_pactflow_ai(Some("2.0.0"), state, Event::Done);
    assert!(matches!(state, InstallState::Finished));
    assert!(matches!(action, Action::Finish));
}

#[test]
fn unsupported_platform_fails_before_any_request() {
    for (os, arch) in [("freebsd", "x86_64"), ("linux", "riscv64"), ("", "")] {
        let manager = manager_on(os, arch);
        let (state, action) = manager.install_pactflow_ai(None, InstallState::Idle, Event::Begin);
        assert!(matches!(state, InstallState::Failed));
        match failure(action) {
            ExtensionError::UnsupportedPlatform { os: o, arch: a } => {
                assert_eq!(o, os);
                assert_eq!(a, arch);
            }
            _ => panic!("expected an unsupported platform"),
        }
        let (state, action) = manager.install_ruby_legacy(Some("v2.4.1"), InstallState::Idle, Event::Begin);
        assert!(matches!(state, InstallState::Failed));
        assert!(matches!(failure(action), ExtensionError::UnsupportedPlatform { .. }));
        // Whatever is reported afterwards, nothing more is asked for.
        let (state, action) = manager.install_ruby_legacy(Some("v2.4.1"), state, Event::Done);
        assert!(matches!(state, InstallState::Failed));
        assert!(matches!(failure(action), ExtensionError::OutOfOrder));
    }
}

#[test]
fn every_supported_platform_starts_an_installation() {
    for os in ["darwin", "windows", "linux"] {
        for arch in ["aarch64", "x86_64"] {
            let manager = manager_on(os, arch);
            let (_, fetches) = install_pactflow_ai(&manager, Some("2.0.0"), "", Registry::new());
            assert_eq!(fetches, 1);
        }
    }
}

#[test]
fn latest_pactflow_ai_version_is_the_trimmed_body() {
    let manager = manager_on("darwin", "aarch64");
    let (state, _) = manager.install_pactflow_ai(None, InstallState::Idle, Event::Begin);
    let (state, action) = manager.install_pactflow_ai(None, state, Event::Done);
    assert!(matches!(state, InstallState::Resolving));
    match action {
        Action::FetchText { url, user_agent } => {
            assert_eq!(url, "https://download.pactflow.io/ai/dist/aarch64-apple-darwin/latest");
            assert_eq!(user_agent, "pact-cli");
        }
        _ => panic!("expected a request"),
    }
    let (state, action) = manager.install_pactflow_ai(None, state, Event::Text { status: 200, body: " 1.11.4\n".to_string() });
    match &state {
        InstallState::Downloading { version } => assert_eq!(version, "1.11.4"),
        _ => panic!("expected the download"),
    }
    match action {
        Action::Download { url } => {
            assert_eq!(url, "https://download.pactflow.io/ai/dist/aarch64-apple-darwin/1.11.4/pactflow-ai")
        }
        _ => panic!("expected a request"),
    }
    assert_eq!(manager.get_latest_pactflow_ai_version(200, "\t3.0.0 \r\n").ok().unwrap(), "3.0.0");
    let (registry, fetches) = install_pactflow_ai(&manager, None, "1.11.4\n", Registry::new());
    assert_eq!(fetches, 2);
    assert_eq!(registry.get("pactflow-ai").unwrap().version, "1.11.4");
}

#[test]
fn failed_version_request_is_a_remote_status() {
    let manager = manager_on("linux", "x86_64");
    match manager.get_latest_pactflow_ai_version(500, "oops").err().unwrap() {
        ExtensionError::RemoteStatus { request, family, status } => {
            assert_eq!(request, Request::LatestVersion);
            assert_eq!(family, Family::PactflowAi);
            assert_eq!(status, 500);
        }
        _ => panic!("expected a remote status"),
    }
    let (state, _) = manager.install_pactflow_ai(None, InstallState::Idle, Event::Begin);
    let (state, _) = manager.install_pactflow_ai(None, state, Event::Done);
    let (state, action) = manager.install_pactflow_ai(None, state, Event::Text { status: 404, body: "1.0.0".to_string() });
    assert!(matches!(state, InstallState::Failed));
    let error = failure(action);
    assert_eq!(error.message(), "Failed to resolve the latest version of pactflow-ai: HTTP 404");
    assert!(matches!(
        error,
        ExtensionError::RemoteStatus { request: Request::LatestVersion, family: Family::PactflowAi, status: 404 }
    ));
}

#[test]
fn failed_download_carries_the_status_and_registers_nothing() {
    let manager = manager_on("linux", "x86_64");
    let (state, _) = manager.install_pactflow_ai(Some("2.0.0"), InstallState::Idle, Event::Begin);
    let (state, _) = manager.install_pactflow_ai(Some("2.0.0"), state, Event::Done);
    let (state, action) = manager.install_pactflow_ai(Some("2.0.0"), state, Event::Status { status: 404 });
    assert!(matches!(state, InstallState::Failed));
    let error = failure(action);
    assert_eq!(error.message(), "Failed to download pactflow-ai: HTTP 404");
    assert!(matches!(
        error,
        ExtensionError::RemoteStatus { request: Request::Artifact, family: Family::PactflowAi, status: 404 }
    ));
    let (state, action) = manager.install_pactflow_ai(Some("2.0.0"), state, Event::Loaded { registry: Registry::new() });
    assert!(matches!(state, InstallState::Failed));
    assert!(matches!(failure(action), ExtensionError::OutOfOrder));
}

#[test]
fn failures_of_the_caller_are_classified_by_step() {
    let manager = manager_on("linux", "x86_64");
    let failed = || Event::Failed { message: "boom".to_string() };
    let (state, _) = manager.install_pactflow_ai(Some("1"), InstallState::Idle, Event::Begin);
    let (_, action) = manager.install_pactflow_ai(Some("1"), state, failed());
    match failure(action) {
        ExtensionError::Filesystem { message } => assert_eq!(message, "boom"),
        _ => panic!("expected a filesystem failure"),
    }
    let (_, action) = manager.install_pactflow_ai(None, InstallState::Resolving, failed());
    match failure(action) {
        ExtensionError::Network { message } => assert_eq!(message, "boom"),
        _ => panic!("expected a network failure"),
    }
    let (_, action) = manager.install_pactflow_ai(None, InstallState::Downloading { version: "1".to_string() }, failed());
    assert!(matches!(failure(action), ExtensionError::Network { .. }));
    let (_, action) = manager.install_pactflow_ai(None, InstallState::PreparingBin { version: "1".to_string() }, failed());
    assert!(matches!(failure(action), ExtensionError::Filesystem { .. }));
    let (_, action) = manager.install_pactflow_ai(None, InstallState::Storing { version: "1".to_string() }, failed());
    assert!(matches!(failure(action), ExtensionError::Filesystem { .. }));
    let (_, action) = manager.install_pactflow_ai(None, InstallState::Saving, failed());
    assert!(matches!(failure(action), ExtensionError::Filesystem { .. }));
    let (_, action) = manager.install_ruby_legacy(None, InstallState::Extracting { version: "1".to_string() }, failed());
    assert!(matches!(failure(action), ExtensionError::ArchiveExtraction { zip: false }));
    let (_, action) = manager.install_ruby_legacy(None, InstallState::Linking { records: Vec::new() }, failed());
    assert!(matches!(failure(action), ExtensionError::Filesystem { .. }));
    let (_, action) = manager.install_ruby_legacy(None, InstallState::Cleaning { records: Vec::new() }, failed());
    assert!(matches!(failure(action), ExtensionError::Filesystem { .. }));
    let (_, action) = manager.install_ruby_legacy(None, InstallState::PreparingExtract { version: "1".to_string() }, failed());
    assert!(matches!(failure(action), ExtensionError::Filesystem { .. }));
}

#[test]
fn events_out_of_order_fail() {
    let manager = manager_on("linux", "x86_64");
    let (state, action) = manager.install_pactflow_ai(None, InstallState::Idle, Event::Done);
    assert!(matches!(state, InstallState::Failed));
    assert!(matches!(failure(action), ExtensionError::OutOfOrder));
    let (_, action) = manager.install_pactflow_ai(None, InstallState::Finished, Event::Begin);
    assert!(matches!(failure(action), ExtensionError::OutOfOrder));
    let (_, action) = manager.install_pactflow_ai(None, InstallState::PreparingExtract { version: "1".to_string() }, Event::Done);
    assert!(matches!(failure(action), ExtensionError::OutOfOrder));
    let (_, action) = manager.install_ruby_legacy(None, InstallState::Surveying { version: "1".to_string() }, Event::Done);
    assert!(matches!(failure(action), ExtensionError::OutOfOrder));
    let (_, action) = manager.install_ruby_legacy(None, InstallState::Downloading { version: "1".to_string() }, Event::Text { status: 200, body: String::new() });
    assert!(matches!(failure(action), ExtensionError::OutOfOrder));
}

#[test]
fn installing_twice_leaves_one_record() {
    let manager = manager_on("linux", "x86_64");
    let (first, _) = install_pactflow_ai(&manager, Some("2.0.0"), "", Registry::new());
    assert_eq!(first.len(), 1);
    let (second, _) = install_pactflow_ai(&manager, Some("2.0.0"), "", first.duplicate());
    assert_eq!(second.len(), 1);
    let before = first.get("pactflow-ai").unwrap();
    let after = second.get("pactflow-ai").unwrap();
    assert_eq!(after.version, before.version);
    assert_eq!(after.binary_path, before.binary_path);
    assert_eq!(after.installed, before.installed);
    let (third, _) = install_pactflow_ai(&manager, Some("2.1.0"), "", second);
    assert_eq!(third.len(), 1);
    assert_eq!(third.get("pactflow-ai").unwrap().version, "2.1.0");
}

#[test]
fn installing_keeps_the_other_records() {
    let manager = manager_on("linux", "x86_64");
    let mut registry = Registry::new();
    registry.insert(
        "custom".to_string(),
        ExtensionConfig {
            name: "custom".to_string(),
            version: "1".to_string(),
            binary_path: "/usr/bin/custom".to_string(),
            extension_type: ExtensionType::External,
            installed: true,
        },
    );
    let (saved, _) = install_pactflow_ai(&manager, Some("2.0.0"), "", registry);
    assert_eq!(saved.len(), 2);
    assert_eq!(saved.get("custom").unwrap().binary_path, "/usr/bin/custom");
    assert!(saved.contains_key("pactflow-ai"));
}

#[test]
fn register_puts_each_record_under_its_name() {
    let records = vec![
        ExtensionConfig {
            name: "a".to_string(),
            version: "1".to_string(),
            binary_path: "/a".to_string(),
            extension_type: ExtensionType::External,
            installed: true,
        },
        ExtensionConfig {
            name: "a".to_string(),
            version: "2".to_string(),
            binary_path: "/a".to_string(),
            extension_type: ExtensionType::External,
            installed: false,
        },
    ];
    let registry = register(Registry::new(), &records);
    assert_eq!(registry.len(), 1);
    assert_eq!(registry.get("a").unwrap().version, "2");
    let again = register(registry, &records);
    assert_eq!(again.len(), 1);
    assert_eq!(again.get("a").unwrap().version, "2");
    assert_eq!(register(Registry::new(), &Vec::new()).len(), 0);
}

#[test]
fn legacy_download_url_drops_the_leading_v_in_the_file_name() {
    let manager = manager_on("linux", "x86_64");
    assert_eq!(
        manager.get_ruby_standalone_download_url("v2.4.1"),
        "https://github.com/pact-foundation/pact-standalone/releases/download/v2.4.1/pact-2.4.1-linux-x86_64.tar.gz"
    );
    assert_eq!(
        manager.get_ruby_standalone_download_url("2.4.1"),
        "https://github.com/pact-foundation/pact-standalone/releases/download/2.4.1/pact-2.4.1-linux-x86_64.tar.gz"
    );
    let windows = manager_on("windows", "aarch64");
    assert_eq!(
        windows.get_ruby_standalone_download_url("v2.4.1"),
        "https://github.com/pact-foundation/pact-standalone/releases/download/v2.4.1/pact-2.4.1-windows-x86_64.zip"
    );
    let darwin = manager_on("macos", "aarch64");
    assert_eq!(
        darwin.get_ruby_standalone_download_url("v2.5.0"),
        "https://github.com/pact-foundation/pact-standalone/releases/download/v2.5.0/pact-2.5.0-osx-arm64.tar.gz"
    );
}

#[test]
fn extraction_uses_the_utility_of_the_platform() {
    let manager = manager_on("linux", "x86_64");
    match manager.extract_ruby_archive("/tmp/a.tar.gz") {
        Action::Run { program, args } => {
            assert_eq!(program, "tar");
            assert_eq!(
                args,
                vec!["-xzf", "/tmp/a.tar.gz", "-C", "/home/u/.pact/extensions/pact-legacy", "--strip-components=1"]
            );
        }
        _ => panic!("expected a program to run"),
    }
    let manager = manager_on("windows", "x86_64");
    match manager.extract_ruby_archive("C:\\a.zip") {
        Action::Run { program, args } => {
            assert_eq!(program, "powershell");
            assert_eq!(
                args,
                vec![
                    "-Command",
                    "Expand-Archive -Path 'C:\\a.zip' -DestinationPath '/home/u/.pact/extensions/pact-legacy' -Force"
                ]
            );
        }
        _ => panic!("expected a program to run"),
    }
}

#[test]
fn release_tag_is_read_from_the_metadata() {
    let manager = manager_on("linux", "x86_64");
    let body = "{\"name\": \"Release\", \"tag_name\": \"v2.5.0\", \"assets\": []}";
    assert_eq!(manager.get_latest_ruby_standalone_version(200, body).ok().unwrap(), "v2.5.0");
    // The tag is what the document holds, not the document.
    assert!(manager.get_latest_ruby_standalone_version(200, "v2.5.0").is_err());
    let escaped = "{\"tag_name\": \"v\\u0032.0\"}";
    assert_eq!(manager.get_latest_ruby_standalone_version(200, escaped).ok().unwrap(), "v2.0");
}

#[test]
fn metadata_without_a_tag_is_a_version_resolution_failure() {
    let manager = manager_on("linux", "x86_64");
    for body in ["{}", "{\"tag_name\": 7}", "{\"tag_name\": null}", "[\"tag_name\"]", "not json", "", "{\"tag_name\": \"v1\""] {
        assert!(matches!(
            manager.get_latest_ruby_standalone_version(200, body).err().unwrap(),
            ExtensionError::VersionResolution
        ));
    }
}

#[test]
fn failed_metadata_request_is_a_remote_status() {
    let manager = manager_on("linux", "x86_64");
    let body = "{\"tag_name\": \"v2.5.0\"}";
    assert!(matches!(
        manager.get_latest_ruby_standalone_version(403, body).err().unwrap(),
        ExtensionError::RemoteStatus { request: Request::LatestVersion, family: Family::PactLegacy, status: 403 }
    ));
}

#[test]
fn release_version_of_each_outcome() {
    assert_eq!(release_version_of(200, Some("v1".to_string())).ok().unwrap(), "v1");
    assert_eq!(release_version_of(299, Some(String::new())).ok().unwrap(), "");
    assert!(matches!(release_version_of(200, None).err().unwrap(), ExtensionError::VersionResolution));
    assert!(matches!(
        release_version_of(500, Some("v1".to_string())).err().unwrap(),
        ExtensionError::RemoteStatus { request: Request::LatestVersion, family: Family::PactLegacy, status: 500 }
    ));
    assert!(matches!(
        release_version_of(301, None).err().unwrap(),
        ExtensionError::RemoteStatus { request: Request::LatestVersion, family: Family::PactLegacy, status: 301 }
    ));
}

#[test]
fn bundle_with_two_of_six_tools_registers_two_tools_and_the_master() {
    let manager = manager_on("linux", "x86_64");
    let (registry, linked, _) = install_ruby_legacy(
        &manager,
        Some("v2.4.1"),
        "",
        &["pact-broker", "pact-mock-service"],
        Registry::new(),
    );
    assert_eq!(registry.len(), 3);
    let master = registry.get("pact-legacy").unwrap();
    assert_eq!(master.version, "v2.4.1");
    assert_eq!(master.binary_path, "/home/u/.pact/extensions/pact-legacy");
    assert_eq!(master.extension_type, ExtensionType::PactRubyStandalone);
    assert!(master.installed);
    for (name, file) in [("pact-broker-legacy", "pact-broker"), ("mock-legacy", "pact-mock-service")] {
        let tool = registry.get(name).unwrap();
        assert_eq!(tool.name, name);
        assert_eq!(tool.version, "v2.4.1");
        assert_eq!(tool.binary_path, format!("/home/u/.pact/extensions/pact-legacy/bin/{}", file));
        assert!(tool.binary_path.starts_with(&format!("{}/", master.binary_path)));
        assert_eq!(tool.extension_type, ExtensionType::PactRubyStandalone);
        assert!(tool.installed);
    }
    for name in ["pactflow-legacy", "message-legacy", "verifier-legacy", "stub-legacy"] {
        assert!(!registry.contains_key(name));
    }
    assert_eq!(
        linked,
        vec![
            (
                "/home/u/.pact/extensions/pact-legacy/bin/pact-broker".to_string(),
                "/home/u/.pact/extensions/bin/pact-broker-legacy".to_string()
            ),
            (
                "/home/u/.pact/extensions/pact-legacy/bin/pact-mock-service".to_string(),
                "/home/u/.pact/extensions/bin/mock-legacy".to_string()
            ),
        ]
    );
}

#[test]
fn legacy_installation_goes_step_by_step() {
    let manager = manager_on("linux", "x86_64");
    let (registry, linked, log) = install_ruby_legacy(
        &manager,
        None,
        "{\"tag_name\": \"v2.5.0\"}",
        &["pact-broker", "pactflow", "pact-message", "pact-mock-service", "pact-provider-verifier", "pact-stub-service"],
        Registry::new(),
    );
    assert_eq!(
        log,
        vec![
            "mkdir /home/u/.pact/extensions",
            "get https://api.github.com/repos/pact-foundation/pact-standalone/releases/latest",
            "download https://github.com/pact-foundation/pact-standalone/releases/download/v2.5.0/pact-2.5.0-linux-x86_64.tar.gz",
            "write /home/u/.pact/extensions/pact-legacy.tar.gz",
            "mkdir /home/u/.pact/extensions/pact-legacy",
            "run tar -xzf /home/u/.pact/extensions/pact-legacy.tar.gz -C /home/u/.pact/extensions/pact-legacy --strip-components=1",
            "mkdir /home/u/.pact/extensions/bin",
            "rm /home/u/.pact/extensions/pact-legacy.tar.gz",
            "save",
        ]
    );
    assert_eq!(linked.len(), 6);
    assert_eq!(registry.len(), 7);
    assert_eq!(registry.key_at(0), "pact-legacy");
    assert_eq!(registry.get("stub-legacy").unwrap().version, "v2.5.0");
}

#[test]
fn bridge_passes_over_missing_tools() {
    let manager = manager_on("windows", "x86_64");
    let mut present = PathSet::new();
    present.insert("/home/u/.pact/extensions/pact-legacy/bin/pactflow.exe".to_string());
    // Without the suffix of the platform the file is another one.
    present.insert("/home/u/.pact/extensions/pact-legacy/bin/pact-broker".to_string());
    let (aliases, records) = manager.create_legacy_symlinks_with_version("v1", &present);
    assert_eq!(aliases.len(), 1);
    assert_eq!(aliases[0].source, "/home/u/.pact/extensions/pact-legacy/bin/pactflow.exe");
    assert_eq!(aliases[0].target, "/home/u/.pact/extensions/bin/pactflow-legacy.exe");
    assert_eq!(records.len(), 2);
    assert_eq!(records[0].name, "pact-legacy");
    assert!(!records[0].installed);
    assert_eq!(records[1].name, "pactflow-legacy");
    assert!(records[1].installed);
    let (aliases, records) = manager.create_legacy_symlinks_with_version("v1", &PathSet::new());
    assert!(aliases.is_empty());
    assert_eq!(records.len(), 1);
}

#[test]
fn survey_asks_about_every_tool_and_the_directory() {
    let manager = manager_on("linux", "x86_64");
    assert_eq!(
        manager.survey_paths(),
        vec![
            "/home/u/.pact/extensions/pact-legacy/bin/pact-broker",
            "/home/u/.pact/extensions/pact-legacy/bin/pactflow",
            "/home/u/.pact/extensions/pact-legacy/bin/pact-message",
            "/home/u/.pact/extensions/pact-legacy/bin/pact-mock-service",
            "/home/u/.pact/extensions/pact-legacy/bin/pact-provider-verifier",
            "/home/u/.pact/extensions/pact-legacy/bin/pact-stub-service",
            "/home/u/.pact/extensions/pact-legacy",
        ]
    );
}

#[test]
fn installing_the_bundle_twice_registers_each_name_once() {
    let manager = manager_on("linux", "x86_64");
    let tools = ["pact-broker", "pact-stub-service"];
    let (first, linked_first, _) = install_ruby_legacy(&manager, Some("v2.4.1"), "", &tools, Registry::new());
    let (second, linked_second, _) = install_ruby_legacy(&manager, Some("v2.4.1"), "", &tools, first.duplicate());
    assert_eq!(first.len(), 3);
    assert_eq!(second.len(), 3);
    assert_eq!(linked_first, linked_second);
    for i in 0..first.len() {
        assert_eq!(second.key_at(i), first.key_at(i));
        assert_eq!(second.config_at(i).version, first.config_at(i).version);
    }
}

#[test]
fn failed_extraction_is_an_archive_failure() {
    let manager = manager_on("windows", "x86_64");
    let (state, action) = manager.install_ruby_legacy(
        None,
        InstallState::Extracting { version: "v1".to_string() },
        Event::Exit { success: false, code: Some(2) },
    );
    assert!(matches!(state, InstallState::Failed));
    assert!(matches!(failure(action), ExtensionError::ArchiveExtraction { zip: true }));
    let (state, action) = manager.install_ruby_legacy(
        None,
        InstallState::Extracting { version: "v1".to_string() },
        Event::Exit { success: true, code: Some(0) },
    );
    assert!(matches!(state, InstallState::PreparingBin { .. }));
    assert!(matches!(action, Action::CreateDir { .. }));
}

#[test]
fn failed_removal_of_the_archive_leaves_the_registry_alone() {
    let manager = manager_on("linux", "x86_64");
    let (state, action) = manager.install_ruby_legacy(
        Some("v1"),
        InstallState::Linking { records: Vec::new() },
        Event::Done,
    );
    assert!(matches!(state, InstallState::Cleaning { .. }));
    match action {
        Action::Remove { files, directories } => {
            assert_eq!(files, vec!["/home/u/.pact/extensions/pact-legacy.tar.gz"]);
            assert!(directories.is_empty());
        }
        _ => panic!("expected the archive to be removed"),
    }
    let (state, action) = manager.install_ruby_legacy(
        Some("v1"),
        state,
        Event::Failed { message: "busy".to_string() },
    );
    assert!(matches!(state, InstallState::Failed));
    assert!(matches!(failure(action), ExtensionError::Filesystem { .. }));
    let (state, action) = manager.install_ruby_legacy(
        Some("v1"),
        InstallState::Cleaning { records: Vec::new() },
        Event::Done,
    );
    assert!(matches!(state, InstallState::Loading { .. }));
    assert!(matches!(action, Action::LoadRegistry));
}
