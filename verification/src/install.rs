//! Installation of the two extension families, each as a step function, and
//! the bridge that exposes the tools of the legacy bundle as commands of
//! their own.
//!
//! An installation checks the platform before anything else, resolves the
//! version if none is given, downloads and stores the artifact, and only
//! then records the result in the registry.

use crate::effect::{
    aliases_view, is_success, records_view, status_is_success, strings_view, Action, ActionView,
    Alias, AliasView, Event, EventView,
};
use crate::error::{ErrorView, ExtensionError, Family, Request};
use crate::manager::{
    archive_path, bin_dir, extract_dir, legacy_source, legacy_source_at, legacy_target,
    legacy_target_at, source_path, tool_path, ExtensionManager, LEGACY_TOOL_COUNT,
};
use crate::platform::{
    archive_extension, pactflow_ai_artifact_url, pactflow_ai_latest_url, ruby_standalone_target,
    supported_pair,
};
use crate::registry::{ExtensionConfig, ExtensionRecord, ExtensionType, PathSet, Registry};
use crate::text::{join3, skip_leading, str_eq, trim, trim_leading, trimmed};
use vstd::prelude::*;
use vstd::string::*;

verus! {

/// How far an installation has come.
pub enum InstallState {
    /// Nothing has been asked for yet.
    Idle,
    /// The home directory is being created.
    PreparingHome,
    /// The latest version is being asked for.
    Resolving,
    /// The artifact of the version is being requested.
    Downloading { version: String },
    /// The directory of the commands is being created.
    PreparingBin { version: String },
    /// The artifact is being written to disk.
    Storing { version: String },
    /// The directory for the extracted bundle is being created.
    PreparingExtract { version: String },
    /// The archive is being extracted.
    Extracting { version: String },
    /// The extracted bundle is being looked through.
    Surveying { version: String },
    /// The aliases are being created; the records are what will be registered.
    Linking { records: Vec<ExtensionConfig> },
    /// The registry is being read; the records are what will be registered.
    Loading { records: Vec<ExtensionConfig> },
    /// The downloaded archive is being removed; the records are what will
    /// be registered.
    Cleaning { records: Vec<ExtensionConfig> },
    /// The registry is being persisted.
    Saving,
    /// The installation is complete.
    Finished,
    /// The installation failed.
    Failed,
}

/// The mathematical value of an [`InstallState`].
pub enum InstallStateView {
    Idle,
    PreparingHome,
    Resolving,
    Downloading { version: Seq<char> },
    PreparingBin { version: Seq<char> },
    Storing { version: Seq<char> },
    PreparingExtract { version: Seq<char> },
    Extracting { version: Seq<char> },
    Surveying { version: Seq<char> },
    Linking { records: Seq<ExtensionRecord> },
    Loading { records: Seq<ExtensionRecord> },
    Cleaning { records: Seq<ExtensionRecord> },
    Saving,
    Finished,
    Failed,
}

impl View for InstallState {
    type V = InstallStateView;

    open spec fn view(&self) -> InstallStateView {
        match self {
            InstallState::Idle => InstallStateView::Idle,
            InstallState::PreparingHome => InstallStateView::PreparingHome,
            InstallState::Resolving => InstallStateView::Resolving,
            InstallState::Downloading { version } => InstallStateView::Downloading {
                version: version@,
            },
            InstallState::PreparingBin { version } => InstallStateView::PreparingBin {
                version: version@,
            },
            InstallState::Storing { version } => InstallStateView::Storing { version: version@ },
            InstallState::PreparingExtract { version } => InstallStateView::PreparingExtract {
                version: version@,
            },
            InstallState::Extracting { version } => InstallStateView::Extracting {
                version: version@,
            },
            InstallState::Surveying { version } => InstallStateView::Surveying { version: version@ },
            InstallState::Linking { records } => InstallStateView::Linking {
                records: records_view(records@),
            },
            InstallState::Loading { records } => InstallStateView::Loading {
                records: records_view(records@),
            },
            InstallState::Cleaning { records } => InstallStateView::Cleaning {
                records: records_view(records@),
            },
            InstallState::Saving => InstallStateView::Saving,
            InstallState::Finished => InstallStateView::Finished,
            InstallState::Failed => InstallStateView::Failed,
        }
    }
}

/// The character sequence of an optional string slice.
pub open spec fn optional_text(text: Option<&str>) -> Option<Seq<char>> {
    match text {
        Some(t) => Some(t@),
        None => None,
    }
}

/// The `User-Agent` header sent with requests for version information.
pub open spec fn user_agent() -> Seq<char> {
    "pact-cli"@
}

/// Where the metadata of the latest release of the legacy bundle is published.
pub open spec fn legacy_latest_url() -> Seq<char> {
    "https://api.github.com/repos/pact-foundation/pact-standalone/releases/latest"@
}

/// Where version `version` of the legacy bundle is published. The release is
/// named by the version as given; the file name has the version without its
/// leading `v`.
pub open spec fn legacy_artifact_url(os: Seq<char>, arch: Seq<char>, version: Seq<char>) -> Seq<
    char,
> {
    "https://github.com/pact-foundation/pact-standalone/releases/download/"@ + version + "/pact-"@
        + skip_leading(version, 'v') + "-"@ + ruby_standalone_target(os, arch) + "."@
        + archive_extension(os)
}

/// The program that extracts the archive at `archive` into `directory`.
pub open spec fn extract_program(os: Seq<char>) -> Seq<char> {
    if os == "windows"@ {
        "powershell"@
    } else {
        "tar"@
    }
}

/// The arguments with which [`extract_program`] extracts the archive at
/// `archive` into `directory`.
pub open spec fn extract_args(os: Seq<char>, archive: Seq<char>, directory: Seq<char>) -> Seq<
    Seq<char>,
> {
    if os == "windows"@ {
        seq![
            "-Command"@,
            "Expand-Archive -Path '"@ + archive + "' -DestinationPath '"@ + directory + "' -Force"@,
        ]
    } else {
        seq!["-xzf"@, archive, "-C"@, directory, "--strip-components=1"@]
    }
}

/// The record of an installed single-binary extension.
pub open spec fn pactflow_ai_record(home: Seq<char>, os: Seq<char>, version: Seq<char>) -> ExtensionRecord {
    ExtensionRecord {
        name: "pactflow-ai"@,
        version,
        binary_path: tool_path(home, os, "pactflow-ai"@),
        extension_type: ExtensionType::PactflowAi,
        installed: true,
    }
}

/// The master record of the legacy bundle: it owns the extraction directory
/// and counts as installed if that directory exists.
pub open spec fn master_record(home: Seq<char>, version: Seq<char>, present: Set<Seq<char>>) -> ExtensionRecord {
    ExtensionRecord {
        name: "pact-legacy"@,
        version,
        binary_path: extract_dir(home),
        extension_type: ExtensionType::PactRubyStandalone,
        installed: present.contains(extract_dir(home)),
    }
}

/// The record of tool `i` of the legacy bundle once its alias exists. Its
/// path is that of the tool inside the extracted bundle, which the master
/// record owns; the alias is found by the name of the record.
pub open spec fn derived_record(home: Seq<char>, os: Seq<char>, version: Seq<char>, i: int) -> ExtensionRecord {
    ExtensionRecord {
        name: legacy_target(i),
        version,
        binary_path: source_path(home, os, legacy_source(i)),
        extension_type: ExtensionType::PactRubyStandalone,
        installed: true,
    }
}

/// The alias that exposes tool `i` of the legacy bundle.
pub open spec fn tool_alias(home: Seq<char>, os: Seq<char>, i: int) -> AliasView {
    AliasView {
        source: source_path(home, os, legacy_source(i)),
        target: tool_path(home, os, legacy_target(i)),
    }
}

/// The aliases to create for the first `n` tools of the legacy bundle: one
/// for each tool whose file exists in the extracted bundle.
pub open spec fn bridge_aliases(home: Seq<char>, os: Seq<char>, present: Set<Seq<char>>, n: int) -> Seq<
    AliasView,
>
    decreases n,
{
    if n <= 0 {
        Seq::empty()
    } else if present.contains(source_path(home, os, legacy_source(n - 1))) {
        bridge_aliases(home, os, present, n - 1).push(tool_alias(home, os, n - 1))
    } else {
        bridge_aliases(home, os, present, n - 1)
    }
}

/// The records to register for the legacy bundle and the first `n` of its
/// tools: the master record, then one record for each tool whose file exists
/// in the extracted bundle. A tool that the bundle lacks gets no record.
pub open spec fn bridge_records(
    home: Seq<char>,
    os: Seq<char>,
    version: Seq<char>,
    present: Set<Seq<char>>,
    n: int,
) -> Seq<ExtensionRecord>
    decreases n,
{
    if n <= 0 {
        seq![master_record(home, version, present)]
    } else if present.contains(source_path(home, os, legacy_source(n - 1))) {
        bridge_records(home, os, version, present, n - 1).push(
            derived_record(home, os, version, n - 1),
        )
    } else {
        bridge_records(home, os, version, present, n - 1)
    }
}

/// The paths to ask about before bridging: the file of each tool in the
/// extracted bundle, then the extraction directory.
pub open spec fn survey_paths(home: Seq<char>, os: Seq<char>) -> Seq<Seq<char>> {
    Seq::new(
        LEGACY_TOOL_COUNT as nat + 1,
        |i: int|
            if i < LEGACY_TOOL_COUNT {
                source_path(home, os, legacy_source(i))
            } else {
                extract_dir(home)
            },
    )
}

/// The registry with each of the records put under its name, in order.
pub open spec fn with_records(
    registry: Map<Seq<char>, ExtensionRecord>,
    records: Seq<ExtensionRecord>,
) -> Map<Seq<char>, ExtensionRecord>
    decreases records.len(),
{
    if records.len() == 0 {
        registry
    } else {
        with_records(registry, records.drop_last()).insert(records.last().name, records.last())
    }
}

/// The listing order of the registry with each of the records put under its
/// name, in order: a name that is new goes to the end.
pub open spec fn order_with_records(
    order: Seq<Seq<char>>,
    registry: Map<Seq<char>, ExtensionRecord>,
    records: Seq<ExtensionRecord>,
) -> Seq<Seq<char>>
    decreases records.len(),
{
    if records.len() == 0 {
        order
    } else if with_records(registry, records.drop_last()).contains_key(records.last().name) {
        order_with_records(order, registry, records.drop_last())
    } else {
        order_with_records(order, registry, records.drop_last()).push(records.last().name)
    }
}

/// The failed state, with the action that reports `error`.
pub open spec fn failed(error: ErrorView) -> (InstallStateView, ActionView) {
    (InstallStateView::Failed, ActionView::Fail { error })
}

/// The step that asks for the artifact of `version` at `url`.
pub open spec fn download(version: Seq<char>, url: Seq<char>) -> (InstallStateView, ActionView) {
    (InstallStateView::Downloading { version }, ActionView::Download { url })
}

/// The steps that both families share: the check of the platform, the
/// registering of the records, the end once the registry is persisted, and
/// the failures of the steps before the artifact is there. `None` where
/// the step depends on the family.
pub open spec fn shared_step(
    home: Seq<char>,
    os: Seq<char>,
    arch: Seq<char>,
    state: InstallStateView,
    event: EventView,
) -> Option<(InstallStateView, ActionView)> {
    match state {
        InstallStateView::Idle => Some(
            match event {
                EventView::Begin => if supported_pair(os, arch) {
                    (InstallStateView::PreparingHome, ActionView::CreateDir { path: home })
                } else {
                    failed(ErrorView::UnsupportedPlatform { os, arch })
                },
                _ => failed(ErrorView::OutOfOrder),
            },
        ),
        InstallStateView::PreparingHome => match event {
            EventView::Done => None,
            EventView::Failed { message } => Some(failed(ErrorView::Filesystem { message })),
            _ => Some(failed(ErrorView::OutOfOrder)),
        },
        InstallStateView::Resolving => match event {
            EventView::Text { status, body } => None,
            EventView::Failed { message } => Some(failed(ErrorView::Network { message })),
            _ => Some(failed(ErrorView::OutOfOrder)),
        },
        InstallStateView::Downloading { version } => match event {
            EventView::Status { status } => None,
            EventView::Failed { message } => Some(failed(ErrorView::Network { message })),
            _ => Some(failed(ErrorView::OutOfOrder)),
        },
        InstallStateView::Loading { records } => Some(
            match event {
                EventView::Loaded { registry, order } => (
                    InstallStateView::Saving,
                    ActionView::SaveRegistry {
                        registry: with_records(registry, records),
                        order: order_with_records(order, registry, records),
                    },
                ),
                _ => failed(ErrorView::OutOfOrder),
            },
        ),
        InstallStateView::Saving => Some(
            match event {
                EventView::Done => (InstallStateView::Finished, ActionView::Finish),
                EventView::Failed { message } => failed(ErrorView::Filesystem { message }),
                _ => failed(ErrorView::OutOfOrder),
            },
        ),
        InstallStateView::Finished => Some(failed(ErrorView::OutOfOrder)),
        InstallStateView::Failed => Some(failed(ErrorView::OutOfOrder)),
        _ => None,
    }
}

/// The next state and action of an installation of the single-binary family.
///
/// In order: check the platform, create the home directory, resolve the
/// version unless one is given, request the artifact, create the directory
/// of the commands, write the artifact there as an executable, read the
/// registry, persist it with the new record.
pub open spec fn pactflow_ai_step(
    home: Seq<char>,
    os: Seq<char>,
    arch: Seq<char>,
    version: Option<Seq<char>>,
    state: InstallStateView,
    event: EventView,
) -> (InstallStateView, ActionView) {
    match shared_step(home, os, arch, state, event) {
        Some(step) => step,
        None => match state {
            InstallStateView::PreparingHome => match event {
                EventView::Done => match version {
                    Some(v) => download(v, pactflow_ai_artifact_url(os, arch, v)),
                    None => (
                        InstallStateView::Resolving,
                        ActionView::FetchText {
                            url: pactflow_ai_latest_url(os, arch),
                            user_agent: user_agent(),
                        },
                    ),
                },
                _ => failed(ErrorView::OutOfOrder),
            },
            InstallStateView::Resolving => match event {
                EventView::Text { status, body } => match pactflow_ai_version(status, body) {
                    Ok(v) => download(v, pactflow_ai_artifact_url(os, arch, v)),
                    Err(error) => failed(error),
                },
                _ => failed(ErrorView::OutOfOrder),
            },
            InstallStateView::Downloading { version } => match event {
                EventView::Status { status } => if status_is_success(status) {
                    (
                        InstallStateView::PreparingBin { version },
                        ActionView::CreateDir { path: bin_dir(home) },
                    )
                } else {
                    failed(
                        ErrorView::RemoteStatus {
                            request: Request::Artifact,
                            family: Family::PactflowAi,
                            status,
                        },
                    )
                },
                _ => failed(ErrorView::OutOfOrder),
            },
            InstallStateView::PreparingBin { version } => match event {
                EventView::Done => (
                    InstallStateView::Storing { version },
                    ActionView::WriteBody {
                        path: tool_path(home, os, "pactflow-ai"@),
                        executable: true,
                    },
                ),
                EventView::Failed { message } => failed(ErrorView::Filesystem { message }),
                _ => failed(ErrorView::OutOfOrder),
            },
            InstallStateView::Storing { version } => match event {
                EventView::Done => (
                    InstallStateView::Loading { records: seq![pactflow_ai_record(home, os, version)] },
                    ActionView::LoadRegistry,
                ),
                EventView::Failed { message } => failed(ErrorView::Filesystem { message }),
                _ => failed(ErrorView::OutOfOrder),
            },
            _ => failed(ErrorView::OutOfOrder),
        },
    }
}

/// The next state and action of an installation of the legacy bundle, where
/// `tag` is the release tag that the metadata of the latest release names.
///
/// In order: check the platform, create the home directory, resolve the
/// version unless one is given, request the archive, write it to disk,
/// create the extraction directory, extract, create the directory of the
/// commands, look which tools the bundle holds, create their aliases, remove
/// the archive, read the registry, persist it with the new records.
pub open spec fn ruby_legacy_step(
    home: Seq<char>,
    os: Seq<char>,
    arch: Seq<char>,
    version: Option<Seq<char>>,
    state: InstallStateView,
    event: EventView,
    tag: Option<Seq<char>>,
) -> (InstallStateView, ActionView) {
    match shared_step(home, os, arch, state, event) {
        Some(step) => step,
        None => match state {
            InstallStateView::PreparingHome => match event {
                EventView::Done => match version {
                    Some(v) => download(v, legacy_artifact_url(os, arch, v)),
                    None => (
                        InstallStateView::Resolving,
                        ActionView::FetchText {
                            url: legacy_latest_url(),
                            user_agent: user_agent(),
                        },
                    ),
                },
                _ => failed(ErrorView::OutOfOrder),
            },
            InstallStateView::Resolving => match event {
                EventView::Text { status, body } => match release_version(status, tag) {
                    Ok(v) => download(v, legacy_artifact_url(os, arch, v)),
                    Err(error) => failed(error),
                },
                _ => failed(ErrorView::OutOfOrder),
            },
            InstallStateView::Downloading { version } => match event {
                EventView::Status { status } => if status_is_success(status) {
                    (
                        InstallStateView::Storing { version },
                        ActionView::WriteBody { path: archive_path(home, os), executable: false },
                    )
                } else {
                    failed(
                        ErrorView::RemoteStatus {
                            request: Request::Artifact,
                            family: Family::PactLegacy,
                            status,
                        },
                    )
                },
                _ => failed(ErrorView::OutOfOrder),
            },
            InstallStateView::Storing { version } => match event {
                EventView::Done => (
                    InstallStateView::PreparingExtract { version },
                    ActionView::CreateDir { path: extract_dir(home) },
                ),
                EventView::Failed { message } => failed(ErrorView::Filesystem { message }),
                _ => failed(ErrorView::OutOfOrder),
            },
            InstallStateView::PreparingExtract { version } => match event {
                EventView::Done => (
                    InstallStateView::Extracting { version },
                    ActionView::Run {
                        program: extract_program(os),
                        args: extract_args(os, archive_path(home, os), extract_dir(home)),
                    },
                ),
                EventView::Failed { message } => failed(ErrorView::Filesystem { message }),
                _ => failed(ErrorView::OutOfOrder),
            },
            InstallStateView::Extracting { version } => match event {
                EventView::Exit { success, code } => if success {
                    (
                        InstallStateView::PreparingBin { version },
                        ActionView::CreateDir { path: bin_dir(home) },
                    )
                } else {
                    failed(ErrorView::ArchiveExtraction { zip: os == "windows"@ })
                },
                EventView::Failed { message } => failed(
                    ErrorView::ArchiveExtraction { zip: os == "windows"@ },
                ),
                _ => failed(ErrorView::OutOfOrder),
            },
            InstallStateView::PreparingBin { version } => match event {
                EventView::Done => (
                    InstallStateView::Surveying { version },
                    ActionView::Probe { paths: survey_paths(home, os) },
                ),
                EventView::Failed { message } => failed(ErrorView::Filesystem { message }),
                _ => failed(ErrorView::OutOfOrder),
            },
            InstallStateView::Surveying { version } => match event {
                EventView::Present { paths } => (
                    InstallStateView::Linking {
                        records: bridge_records(home, os, version, paths, LEGACY_TOOL_COUNT as int),
                    },
                    ActionView::Link {
                        aliases: bridge_aliases(home, os, paths, LEGACY_TOOL_COUNT as int),
                    },
                ),
                _ => failed(ErrorView::OutOfOrder),
            },
            InstallStateView::Linking { records } => match event {
                EventView::Done => (
                    InstallStateView::Cleaning { records },
                    ActionView::Remove {
                        files: seq![archive_path(home, os)],
                        directories: Seq::empty(),
                    },
                ),
                EventView::Failed { message } => failed(ErrorView::Filesystem { message }),
                _ => failed(ErrorView::OutOfOrder),
            },
            InstallStateView::Cleaning { records } => match event {
                EventView::Done => (InstallStateView::Loading { records }, ActionView::LoadRegistry),
                EventView::Failed { message } => failed(ErrorView::Filesystem { message }),
                _ => failed(ErrorView::OutOfOrder),
            },
            _ => failed(ErrorView::OutOfOrder),
        },
    }
}

/// The version that the answer to a request for release metadata names:
/// the release tag `tag` found in it, provided the answer is a success.
pub open spec fn release_version(status: u16, tag: Option<Seq<char>>) -> Result<Seq<char>, ErrorView> {
    if !status_is_success(status) {
        Err(
            ErrorView::RemoteStatus {
                request: Request::LatestVersion,
                family: Family::PactLegacy,
                status,
            },
        )
    } else {
        match tag {
            Some(v) => Ok(v),
            None => Err(ErrorView::VersionResolution),
        }
    }
}

/// The release tag that an event carries for the installation of the legacy
/// bundle: the member `tag_name` of the body of a text answer.
pub open spec fn event_tag(event: EventView) -> Option<Seq<char>> {
    match event {
        EventView::Text { status, body } => json_member_text(body, "tag_name"@),
        _ => None,
    }
}

/// The views of a result of a version resolution.
pub open spec fn resolved_view(r: Result<String, ExtensionError>) -> Result<Seq<char>, ErrorView> {
    match r {
        Ok(v) => Ok(v@),
        Err(e) => Err(e@),
    }
}

/// The character sequence of an optional string.
pub open spec fn optional_string(text: Option<String>) -> Option<Seq<char>> {
    match text {
        Some(t) => Some(t@),
        None => None,
    }
}

/// The version that the answer to a request for the latest version of the
/// single-binary family names: the body without surrounding white space,
/// provided the answer is a success.
pub open spec fn pactflow_ai_version(status: u16, body: Seq<char>) -> Result<Seq<char>, ErrorView> {
    if status_is_success(status) {
        Ok(trimmed(body))
    } else {
        Err(
            ErrorView::RemoteStatus {
                request: Request::LatestVersion,
                family: Family::PactflowAi,
                status,
            },
        )
    }
}

/// The text of the member `member` of the JSON object that `document`
/// holds, as `serde_json` reads it: `None` where `document` is not JSON, is
/// not an object, lacks the member, or has a member that is not a string.
pub uninterp spec fn json_member_text(document: Seq<char>, member: Seq<char>) -> Option<Seq<char>>;

/// Reads `document` with `serde_json::from_str` as a `serde_json::Value`,
/// indexes the value by `member` and takes the result as a string with
/// `Value::as_str`. The contract only names the outcome: it is a function of
/// the two texts.
#[verifier::external_body]
fn json_string_member(document: &str, member: &str) -> (r: Option<String>)
    ensures
        optional_string(r) == json_member_text(document@, member@),
{
    let value: serde_json::Value = serde_json::from_str(document).ok()?;
    value[member].as_str().map(|text| text.to_string())
}

/// The version that the answer to a request for release metadata names,
/// given the release tag found in its body.
pub fn release_version_of(status: u16, tag: Option<String>) -> (r: Result<String, ExtensionError>)
    ensures
        resolved_view(r) == release_version(status, optional_string(tag)),
{
    if !is_success(status) {
        Err(
            ExtensionError::RemoteStatus {
                request: Request::LatestVersion,
                family: Family::PactLegacy,
                status,
            },
        )
    } else {
        match tag {
            Some(v) => Ok(v),
            None => Err(ExtensionError::VersionResolution),
        }
    }
}

/// The failed state, with the action that reports `error`.
fn fail(error: ExtensionError) -> (r: (InstallState, Action))
    ensures
        (r.0@, r.1@) == failed(error@),
{
    (InstallState::Failed, Action::Fail { error })
}

/// The registry with each of the records put under its name, in order.
pub fn register(registry: Registry, records: &Vec<ExtensionConfig>) -> (r: Registry)
    ensures
        r@ == with_records(registry@, records_view(records@)),
        r.keys() == order_with_records(registry.keys(), registry@, records_view(records@)),
{
    let mut registry = registry;
    let ghost initial = registry@;
    let ghost order = registry.keys();
    let ghost all = records_view(records@);
    let mut i: usize = 0;
    while i < records.len()
        invariant
            i <= records@.len(),
            all == records_view(records@),
            registry@ == with_records(initial, all.subrange(0, i as int)),
            registry.keys() == order_with_records(order, initial, all.subrange(0, i as int)),
        decreases records@.len() - i,
    {
        proof {
            let next = all.subrange(0, i + 1);
            assert(next.drop_last() == all.subrange(0, i as int));
            assert(next.last() == records@[i as int]@);
        }
        registry.insert(records[i].name.clone(), records[i].clone());
        i += 1;
    }
    proof {
        assert(all.subrange(0, records@.len() as int) == all);
    }
    registry
}

impl ExtensionManager {
    /// The version that the answer to a request for the latest version of
    /// the single-binary family names.
    pub fn get_latest_pactflow_ai_version(&self, status: u16, body: &str) -> (r: Result<
        String,
        ExtensionError,
    >)
        ensures
            resolved_view(r) == pactflow_ai_version(status, body@),
    {
        if is_success(status) {
            Ok(trim(body))
        } else {
            Err(
                ExtensionError::RemoteStatus {
                    request: Request::LatestVersion,
                    family: Family::PactflowAi,
                    status,
                },
            )
        }
    }

    /// The version that the answer to a request for the metadata of the
    /// latest release of the legacy bundle names: its member `tag_name`.
    pub fn get_latest_ruby_standalone_version(&self, status: u16, body: &str) -> (r: Result<
        String,
        ExtensionError,
    >)
        ensures
            resolved_view(r) == release_version(status, json_member_text(body@, "tag_name"@)),
    {
        release_version_of(status, json_string_member(body, "tag_name"))
    }

    /// The address that answers with the metadata of the latest release of
    /// the legacy bundle.
    pub fn get_ruby_standalone_latest_url(&self) -> (r: String)
        ensures
            r@ == legacy_latest_url(),
    {
        "https://api.github.com/repos/pact-foundation/pact-standalone/releases/latest".to_owned()
    }

    /// The address of the archive of the legacy bundle of the given version
    /// for this platform.
    pub fn get_ruby_standalone_download_url(&self, version: &str) -> (r: String)
        ensures
            r@ == legacy_artifact_url(self.platform.os@, self.platform.arch@, version@),
    {
        let mut url = join3(
            "https://github.com/pact-foundation/pact-standalone/releases/download/",
            version,
            "/pact-",
        );
        let bare = trim_leading(version, 'v');
        url.append(bare.as_str());
        url.append("-");
        let target = self.platform.get_ruby_standalone_target();
        url.append(target.as_str());
        url.append(".");
        url.append(self.platform.get_archive_extension());
        url
    }

    /// The action that extracts the archive at `archive_path` into the
    /// extraction directory, with the utility of the platform.
    pub fn extract_ruby_archive(&self, archive_path: &str) -> (r: Action)
        ensures
            r@ == (ActionView::Run {
                program: extract_program(self.platform.os@),
                args: extract_args(
                    self.platform.os@,
                    archive_path@,
                    extract_dir(self.extensions_home@),
                ),
            }),
    {
        let directory = self.extract_dir();
        let mut args: Vec<String> = Vec::new();
        if str_eq(self.platform.os.as_str(), "windows") {
            let mut command = join3("Expand-Archive -Path '", archive_path, "' -DestinationPath '");
            command.append(directory.as_str());
            command.append("' -Force");
            args.push("-Command".to_owned());
            args.push(command);
            assert(strings_view(args@) =~= extract_args(
                self.platform.os@,
                archive_path@,
                extract_dir(self.extensions_home@),
            ));
            Action::Run { program: "powershell".to_owned(), args }
        } else {
            args.push("-xzf".to_owned());
            args.push(archive_path.to_owned());
            args.push("-C".to_owned());
            args.push(directory);
            args.push("--strip-components=1".to_owned());
            assert(strings_view(args@) =~= extract_args(
                self.platform.os@,
                archive_path@,
                extract_dir(self.extensions_home@),
            ));
            Action::Run { program: "tar".to_owned(), args }
        }
    }

    /// The paths to ask about before bridging.
    pub fn survey_paths(&self) -> (r: Vec<String>)
        ensures
            strings_view(r@) == survey_paths(self.extensions_home@, self.platform.os@),
    {
        let mut paths: Vec<String> = Vec::new();
        let mut i: usize = 0;
        while i < LEGACY_TOOL_COUNT
            invariant
                i <= LEGACY_TOOL_COUNT,
                paths@.len() == i,
                forall|j: int|
                    0 <= j < i ==> paths@[j]@ == source_path(
                        self.extensions_home@,
                        self.platform.os@,
                        legacy_source(j),
                    ),
            decreases LEGACY_TOOL_COUNT - i,
        {
            paths.push(self.source_path(legacy_source_at(i)));
            i += 1;
        }
        paths.push(self.extract_dir());
        assert(strings_view(paths@) =~= survey_paths(self.extensions_home@, self.platform.os@));
        paths
    }

    /// The bridge from the legacy bundle to commands of their own.
    ///
    /// Given the paths that exist after the extraction, returns the aliases
    /// to create and the records to register: for each tool whose file is in
    /// the extracted bundle an alias and a record, and the master record
    /// that owns the extraction directory. The record of a tool points at
    /// its file inside the extraction directory; its alias is the command of
    /// the record's name. A tool that the bundle lacks is passed over.
    pub fn create_legacy_symlinks_with_version(&self, version: &str, present: &PathSet) -> (r: (
        Vec<Alias>,
        Vec<ExtensionConfig>,
    ))
        ensures
            aliases_view(r.0@) == bridge_aliases(
                self.extensions_home@,
                self.platform.os@,
                present@,
                LEGACY_TOOL_COUNT as int,
            ),
            records_view(r.1@) == bridge_records(
                self.extensions_home@,
                self.platform.os@,
                version@,
                present@,
                LEGACY_TOOL_COUNT as int,
            ),
    {
        let ghost home = self.extensions_home@;
        let ghost os = self.platform.os@;
        let mut aliases: Vec<Alias> = Vec::new();
        let mut records: Vec<ExtensionConfig> = Vec::new();
        let directory = self.extract_dir();
        let installed = present.contains(directory.as_str());
        records.push(
            ExtensionConfig {
                name: "pact-legacy".to_owned(),
                version: version.to_owned(),
                binary_path: directory,
                extension_type: ExtensionType::PactRubyStandalone,
                installed,
            },
        );
        assert(records_view(records@) =~= bridge_records(home, os, version@, present@, 0));
        assert(aliases_view(aliases@) =~= bridge_aliases(home, os, present@, 0));
        let mut i: usize = 0;
        while i < LEGACY_TOOL_COUNT
            invariant
                i <= LEGACY_TOOL_COUNT,
                home == self.extensions_home@,
                os == self.platform.os@,
                aliases_view(aliases@) == bridge_aliases(home, os, present@, i as int),
                records_view(records@) == bridge_records(home, os, version@, present@, i as int),
            decreases LEGACY_TOOL_COUNT - i,
        {
            let source = self.source_path(legacy_source_at(i));
            if present.contains(source.as_str()) {
                let target = self.tool_path(legacy_target_at(i));
                let ghost aliases_before = aliases_view(aliases@);
                let ghost records_before = records_view(records@);
                records.push(
                    ExtensionConfig {
                        name: legacy_target_at(i).to_owned(),
                        version: version.to_owned(),
                        binary_path: source.clone(),
                        extension_type: ExtensionType::PactRubyStandalone,
                        installed: true,
                    },
                );
                aliases.push(Alias { source, target });
                assert(aliases_view(aliases@) =~= aliases_before.push(tool_alias(home, os, i as int)));
                assert(records_view(records@) =~= records_before.push(
                    derived_record(home, os, version@, i as int),
                ));
            }
            i += 1;
        }
        (aliases, records)
    }

    /// The steps that both families share. Hands the state and the event
    /// back where the step depends on the family.
    fn shared_install_step(&self, state: InstallState, event: Event) -> (r: Result<
        (InstallState, Action),
        (InstallState, Event),
    >)
        ensures
            match r {
                Ok(step) => shared_step(
                    self.extensions_home@,
                    self.platform.os@,
                    self.platform.arch@,
                    state@,
                    event@,
                ) == Some((step.0@, step.1@)),
                Err(back) => shared_step(
                    self.extensions_home@,
                    self.platform.os@,
                    self.platform.arch@,
                    state@,
                    event@,
                ) is None && back.0@ == state@ && back.1@ == event@,
            },
    {
        match state {
            InstallState::Idle => match event {
                Event::Begin => if self.platform.is_supported() {
                    Ok((InstallState::PreparingHome, self.ensure_extensions_dir()))
                } else {
                    Ok(
                        fail(
                            ExtensionError::UnsupportedPlatform {
                                os: self.platform.os.clone(),
                                arch: self.platform.arch.clone(),
                            },
                        ),
                    )
                },
                _ => Ok(fail(ExtensionError::OutOfOrder)),
            },
            InstallState::PreparingHome => match event {
                Event::Done => Err((state, event)),
                Event::Failed { message } => Ok(fail(ExtensionError::Filesystem { message })),
                _ => Ok(fail(ExtensionError::OutOfOrder)),
            },
            InstallState::Resolving => match event {
                Event::Text { .. } => Err((state, event)),
                Event::Failed { message } => Ok(fail(ExtensionError::Network { message })),
                _ => Ok(fail(ExtensionError::OutOfOrder)),
            },
            InstallState::Downloading { .. } => match event {
                Event::Status { .. } => Err((state, event)),
                Event::Failed { message } => Ok(fail(ExtensionError::Network { message })),
                _ => Ok(fail(ExtensionError::OutOfOrder)),
            },
            InstallState::Loading { records } => match event {
                Event::Loaded { registry } => {
                    let registry = register(registry, &records);
                    Ok((InstallState::Saving, Action::SaveRegistry { registry }))
                },
                _ => Ok(fail(ExtensionError::OutOfOrder)),
            },
            InstallState::Saving => match event {
                Event::Done => Ok((InstallState::Finished, Action::Finish)),
                Event::Failed { message } => Ok(fail(ExtensionError::Filesystem { message })),
                _ => Ok(fail(ExtensionError::OutOfOrder)),
            },
            InstallState::Finished => Ok(fail(ExtensionError::OutOfOrder)),
            InstallState::Failed => Ok(fail(ExtensionError::OutOfOrder)),
            _ => Err((state, event)),
        }
    }

    /// The step that asks for the artifact of `version` of the single-binary
    /// family.
    fn download_pactflow_ai(&self, version: String) -> (r: (InstallState, Action))
        ensures
            (r.0@, r.1@) == download(
                version@,
                pactflow_ai_artifact_url(self.platform.os@, self.platform.arch@, version@),
            ),
    {
        let url = self.platform.get_pactflow_ai_download_url(version.as_str());
        (InstallState::Downloading { version }, Action::Download { url })
    }

    /// The step that asks for the archive of `version` of the legacy bundle.
    fn download_ruby_legacy(&self, version: String) -> (r: (InstallState, Action))
        ensures
            (r.0@, r.1@) == download(
                version@,
                legacy_artifact_url(self.platform.os@, self.platform.arch@, version@),
            ),
    {
        let url = self.get_ruby_standalone_download_url(version.as_str());
        (InstallState::Downloading { version }, Action::Download { url })
    }

    /// One step of the installation of the single-binary family.
    ///
    /// `version` is the version to install, or `None` for the latest. Start
    /// with [`InstallState::Idle`] and [`Event::Begin`]; hand each action's
    /// outcome back as the next event, with the state that came with the
    /// action. An unsupported platform fails at the first step, before
    /// anything is asked of the network or the disk.
    pub fn install_pactflow_ai(&self, version: Option<&str>, state: InstallState, event: Event) -> (r:
        (InstallState, Action))
        ensures
            (r.0@, r.1@) == pactflow_ai_step(
                self.extensions_home@,
                self.platform.os@,
                self.platform.arch@,
                optional_text(version),
                state@,
                event@,
            ),
    {
        let (state, event) = match self.shared_install_step(state, event) {
            Ok(step) => {
                return step;
            },
            Err(back) => back,
        };
        match state {
            InstallState::PreparingHome => match event {
                Event::Done => match version {
                    Some(v) => self.download_pactflow_ai(v.to_owned()),
                    None => (
                        InstallState::Resolving,
                        Action::FetchText {
                            url: self.platform.get_pactflow_ai_url(),
                            user_agent: "pact-cli".to_owned(),
                        },
                    ),
                },
                _ => fail(ExtensionError::OutOfOrder),
            },
            InstallState::Resolving => match event {
                Event::Text { status, body } => match self.get_latest_pactflow_ai_version(
                    status,
                    body.as_str(),
                ) {
                    Ok(v) => self.download_pactflow_ai(v),
                    Err(error) => fail(error),
                },
                _ => fail(ExtensionError::OutOfOrder),
            },
            InstallState::Downloading { version } => match event {
                Event::Status { status } => if is_success(status) {
                    (
                        InstallState::PreparingBin { version },
                        Action::CreateDir { path: self.bin_dir() },
                    )
                } else {
                    fail(
                        ExtensionError::RemoteStatus {
                            request: Request::Artifact,
                            family: Family::PactflowAi,
                            status,
                        },
                    )
                },
                _ => fail(ExtensionError::OutOfOrder),
            },
            InstallState::PreparingBin { version } => match event {
                Event::Done => (
                    InstallState::Storing { version },
                    Action::WriteBody { path: self.tool_path("pactflow-ai"), executable: true },
                ),
                Event::Failed { message } => fail(ExtensionError::Filesystem { message }),
                _ => fail(ExtensionError::OutOfOrder),
            },
            InstallState::Storing { version } => match event {
                Event::Done => {
                    let mut records: Vec<ExtensionConfig> = Vec::new();
                    records.push(
                        ExtensionConfig {
                            name: "pactflow-ai".to_owned(),
                            version,
                            binary_path: self.tool_path("pactflow-ai"),
                            extension_type: ExtensionType::PactflowAi,
                            installed: true,
                        },
                    );
                    assert(records_view(records@) =~= seq![
                        pactflow_ai_record(self.extensions_home@, self.platform.os@, version@),
                    ]);
                    (InstallState::Loading { records }, Action::LoadRegistry)
                },
                Event::Failed { message } => fail(ExtensionError::Filesystem { message }),
                _ => fail(ExtensionError::OutOfOrder),
            },
            _ => fail(ExtensionError::OutOfOrder),
        }
    }

    /// One step of the installation of the legacy bundle.
    ///
    /// `version` is the version to install, or `None` for the latest. Start
    /// with [`InstallState::Idle`] and [`Event::Begin`]; hand each action's
    /// outcome back as the next event, with the state that came with the
    /// action. An unsupported platform fails at the first step, before
    /// anything is asked of the network or the disk.
    pub fn install_ruby_legacy(&self, version: Option<&str>, state: InstallState, event: Event) -> (r:
        (InstallState, Action))
        ensures
            (r.0@, r.1@) == ruby_legacy_step(
                self.extensions_home@,
                self.platform.os@,
                self.platform.arch@,
                optional_text(version),
                state@,
                event@,
                event_tag(event@),
            ),
    {
        let (state, event) = match self.shared_install_step(state, event) {
            Ok(step) => {
                return step;
            },
            Err(back) => back,
        };
        match state {
            InstallState::PreparingHome => match event {
                Event::Done => match version {
                    Some(v) => self.download_ruby_legacy(v.to_owned()),
                    None => (
                        InstallState::Resolving,
                        Action::FetchText {
                            url: self.get_ruby_standalone_latest_url(),
                            user_agent: "pact-cli".to_owned(),
                        },
                    ),
                },
                _ => fail(ExtensionError::OutOfOrder),
            },
            InstallState::Resolving => match event {
                Event::Text { status, body } => match self.get_latest_ruby_standalone_version(
                    status,
                    body.as_str(),
                ) {
                    Ok(v) => self.download_ruby_legacy(v),
                    Err(error) => fail(error),
                },
                _ => fail(ExtensionError::OutOfOrder),
            },
            InstallState::Downloading { version } => match event {
                Event::Status { status } => if is_success(status) {
                    (
                        InstallState::Storing { version },
                        Action::WriteBody { path: self.archive_path(), executable: false },
                    )
                } else {
                    fail(
                        ExtensionError::RemoteStatus {
                            request: Request::Artifact,
                            family: Family::PactLegacy,
                            status,
                        },
                    )
                },
                _ => fail(ExtensionError::OutOfOrder),
            },
            InstallState::Storing { version } => match event {
                Event::Done => (
                    InstallState::PreparingExtract { version },
                    Action::CreateDir { path: self.extract_dir() },
                ),
                Event::Failed { message } => fail(ExtensionError::Filesystem { message }),
                _ => fail(ExtensionError::OutOfOrder),
            },
            InstallState::PreparingExtract { version } => match event {
                Event::Done => {
                    let archive = self.archive_path();
                    (InstallState::Extracting { version }, self.extract_ruby_archive(archive.as_str()))
                },
                Event::Failed { message } => fail(ExtensionError::Filesystem { message }),
                _ => fail(ExtensionError::OutOfOrder),
            },
            InstallState::Extracting { version } => match event {
                Event::Exit { success, code } => if success {
                    (
                        InstallState::PreparingBin { version },
                        Action::CreateDir { path: self.bin_dir() },
                    )
                } else {
                    fail(
                        ExtensionError::ArchiveExtraction {
                            zip: str_eq(self.platform.os.as_str(), "windows"),
                        },
                    )
                },
                Event::Failed { message } => fail(
                    ExtensionError::ArchiveExtraction {
                        zip: str_eq(self.platform.os.as_str(), "windows"),
                    },
                ),
                _ => fail(ExtensionError::OutOfOrder),
            },
            InstallState::PreparingBin { version } => match event {
                Event::Done => (
                    InstallState::Surveying { version },
                    Action::Probe { paths: self.survey_paths() },
                ),
                Event::Failed { message } => fail(ExtensionError::Filesystem { message }),
                _ => fail(ExtensionError::OutOfOrder),
            },
            InstallState::Surveying { version } => match event {
                Event::Present { paths } => {
                    let (aliases, records) = self.create_legacy_symlinks_with_version(
                        version.as_str(),
                        &paths,
                    );
                    (InstallState::Linking { records }, Action::Link { aliases })
                },
                _ => fail(ExtensionError::OutOfOrder),
            },
            InstallState::Linking { records } => match event {
                Event::Done => {
                    let mut files: Vec<String> = Vec::new();
                    files.push(self.archive_path());
                    let directories: Vec<String> = Vec::new();
                    assert(strings_view(files@) =~= seq![
                        archive_path(self.extensions_home@, self.platform.os@),
                    ]);
                    assert(strings_view(directories@) =~= Seq::<Seq<char>>::empty());
                    (InstallState::Cleaning { records }, Action::Remove { files, directories })
                },
                Event::Failed { message } => fail(ExtensionError::Filesystem { message }),
                _ => fail(ExtensionError::OutOfOrder),
            },
            InstallState::Cleaning { records } => match event {
                Event::Done => (InstallState::Loading { records }, Action::LoadRegistry),
                Event::Failed { message } => fail(ExtensionError::Filesystem { message }),
                _ => fail(ExtensionError::OutOfOrder),
            },
            _ => fail(ExtensionError::OutOfOrder),
        }
    }
}

} // verus!
