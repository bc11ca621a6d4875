use pact_extensions::error::{ExtensionError, Family, Request};

#[test]
fn family_names() {
    assert_eq!(Family::PactflowAi.name(), "pactflow-ai");
    assert_eq!(Family::PactLegacy.name(), "pact-legacy");
}

#[test]
fn unsupported_platform_names_the_pair() {
    let error = ExtensionError::UnsupportedPlatform { os: "freebsd".to_string(), arch: "x86_64".to_string() };
    assert_eq!(error.message(), "Unsupported platform: freebsd-x86_64");
}

#[test]
fn network_and_filesystem_carry_the_cause() {
    let error = ExtensionError::Network { message: "timed out".to_string() };
    assert_eq!(error.message(), "Network request failed: timed out");
    let error = ExtensionError::Filesystem { message: "permission denied".to_string() };
    assert_eq!(error.message(), "Filesystem operation failed: permission denied");
}

#[test]
fn remote_status_carries_the_status() {
    let error = ExtensionError::RemoteStatus { request: Request::Artifact, family: Family::PactflowAi, status: 404 };
    assert_eq!(error.message(), "Failed to download pactflow-ai: HTTP 404");
    let error = ExtensionError::RemoteStatus { request: Request::Artifact, family: Family::PactLegacy, status: 503 };
    assert_eq!(error.message(), "Failed to download pact-legacy: HTTP 503");
    let error = ExtensionError::RemoteStatus { request: Request::LatestVersion, family: Family::PactLegacy, status: 403 };
    assert_eq!(error.message(), "Failed to resolve the latest version of pact-legacy: HTTP 403");
}

#[test]
fn version_resolution_and_extraction_messages() {
    assert_eq!(ExtensionError::VersionResolution.message(), "No tag_name found in release");
    assert_eq!(
        ExtensionError::ArchiveExtraction { zip: true }.message(),
        "Failed to extract Windows archive"
    );
    assert_eq!(
        ExtensionError::ArchiveExtraction { zip: false }.message(),
        "Failed to extract tar archive"
    );
}

#[test]
fn not_installed_names_the_install_command() {
    let error = ExtensionError::NotInstalled { name: "mock-legacy".to_string() };
    assert_eq!(
        error.message(),
        "Extension 'mock-legacy' is not installed. Run 'pact extension install mock-legacy' first."
    );
}

#[test]
fn not_found_names_the_list_command() {
    let error = ExtensionError::NotFound { name: "nope".to_string() };
    assert_eq!(
        error.message(),
        "Extension 'nope' not found. Available extensions can be listed with 'pact extension list'."
    );
}

#[test]
fn command_line_failures() {
    let error = ExtensionError::UnknownExtension { name: "x".to_string() };
    assert_eq!(error.message(), "Unknown extension: x");
    assert_eq!(
        ExtensionError::MissingTarget.message(),
        "Please specify an extension name or use --all flag"
    );
    assert_eq!(ExtensionError::NothingInstalled.message(), "No extensions installed");
    assert_eq!(ExtensionError::OutOfOrder.message(), "Unexpected event for the current step");
}

#[test]
fn not_registered_does_not_ask_for_an_installation() {
    let error = ExtensionError::NotRegistered { name: "nope".to_string() };
    assert_eq!(error.message(), "Extension 'nope' is not installed.");
}
