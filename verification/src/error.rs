//! The failures of lifecycle operations.

use crate::text::{decimal, join2, join3, to_decimal};
use vstd::prelude::*;
use vstd::string::*;

verus! {

/// The two families of extensions that can be installed.
#[derive(Debug, Clone, Copy, PartialEq, Eq, Structural)]
pub enum Family {
    /// The single-binary family.
    PactflowAi,
    /// The legacy bundle of several tools.
    PactLegacy,
}

/// The name under which a family is installed.
pub open spec fn family_name(family: Family) -> Seq<char> {
    match family {
        Family::PactflowAi => "pactflow-ai"@,
        Family::PactLegacy => "pact-legacy"@,
    }
}

impl Family {
    /// The name under which the family is installed.
    pub fn name(&self) -> (r: &'static str)
        ensures
            r@ == family_name(*self),
    {
        match self {
            Family::PactflowAi => "pactflow-ai",
            Family::PactLegacy => "pact-legacy",
        }
    }
}

/// What was asked of the remote side.
#[derive(Debug, Clone, Copy, PartialEq, Eq, Structural)]
pub enum Request {
    /// The latest version of a family.
    LatestVersion,
    /// The artifact of a family.
    Artifact,
}

/// Why a lifecycle operation failed.
#[derive(Debug)]
pub enum ExtensionError {
    /// The platform is outside the supported matrix.
    UnsupportedPlatform { os: String, arch: String },
    /// A request failed or timed out.
    Network { message: String },
    /// The remote side answered the request with a status that is not a
    /// success.
    RemoteStatus { request: Request, family: Family, status: u16 },
    /// The release metadata does not name a version.
    VersionResolution,
    /// The extraction utility failed.
    ArchiveExtraction { zip: bool },
    /// A file, directory or alias could not be written or removed.
    Filesystem { message: String },
    /// The name is registered but not installed: it has to be installed
    /// before it can be invoked or updated.
    NotInstalled { name: String },
    /// The name to remove is not registered.
    NotRegistered { name: String },
    /// The name is unknown to the registry and to the search path.
    NotFound { name: String },
    /// The name is not one of the installable families.
    UnknownExtension { name: String },
    /// Neither a name nor the request for all extensions was given.
    MissingTarget,
    /// All extensions were to be updated and none is installed.
    NothingInstalled,
    /// An event arrived that does not answer the action last asked for.
    OutOfOrder,
}

/// The mathematical value of an [`ExtensionError`].
pub enum ErrorView {
    UnsupportedPlatform { os: Seq<char>, arch: Seq<char> },
    Network { message: Seq<char> },
    RemoteStatus { request: Request, family: Family, status: u16 },
    VersionResolution,
    ArchiveExtraction { zip: bool },
    Filesystem { message: Seq<char> },
    NotInstalled { name: Seq<char> },
    NotRegistered { name: Seq<char> },
    NotFound { name: Seq<char> },
    UnknownExtension { name: Seq<char> },
    MissingTarget,
    NothingInstalled,
    OutOfOrder,
}

impl View for ExtensionError {
    type V = ErrorView;

    open spec fn view(&self) -> ErrorView {
        match self {
            ExtensionError::UnsupportedPlatform { os, arch } => ErrorView::UnsupportedPlatform {
                os: os@,
                arch: arch@,
            },
            ExtensionError::Network { message } => ErrorView::Network { message: message@ },
            ExtensionError::RemoteStatus { request, family, status } => ErrorView::RemoteStatus {
                request: *request,
                family: *family,
                status: *status,
            },
            ExtensionError::VersionResolution => ErrorView::VersionResolution,
            ExtensionError::ArchiveExtraction { zip } => ErrorView::ArchiveExtraction { zip: *zip },
            ExtensionError::Filesystem { message } => ErrorView::Filesystem { message: message@ },
            ExtensionError::NotInstalled { name } => ErrorView::NotInstalled { name: name@ },
            ExtensionError::NotRegistered { name } => ErrorView::NotRegistered { name: name@ },
            ExtensionError::NotFound { name } => ErrorView::NotFound { name: name@ },
            ExtensionError::UnknownExtension { name } => ErrorView::UnknownExtension { name: name@ },
            ExtensionError::MissingTarget => ErrorView::MissingTarget,
            ExtensionError::NothingInstalled => ErrorView::NothingInstalled,
            ExtensionError::OutOfOrder => ErrorView::OutOfOrder,
        }
    }
}

/// How the message for a status that is not a success begins: it names the
/// request that was refused.
pub open spec fn request_text(request: Request) -> Seq<char> {
    match request {
        Request::LatestVersion => "Failed to resolve the latest version of "@,
        Request::Artifact => "Failed to download "@,
    }
}

/// The message shown for a failure. It names the step that failed and, where
/// there is one, the command that remedies it.
pub open spec fn message_text(e: ErrorView) -> Seq<char> {
    match e {
        ErrorView::UnsupportedPlatform { os, arch } => "Unsupported platform: "@ + os + "-"@ + arch,
        ErrorView::Network { message } => "Network request failed: "@ + message,
        ErrorView::RemoteStatus { request, family, status } => request_text(request) + family_name(
            family,
        ) + ": HTTP "@ + decimal(status as nat),
        ErrorView::VersionResolution => "No tag_name found in release"@,
        ErrorView::ArchiveExtraction { zip } => if zip {
            "Failed to extract Windows archive"@
        } else {
            "Failed to extract tar archive"@
        },
        ErrorView::Filesystem { message } => "Filesystem operation failed: "@ + message,
        ErrorView::NotInstalled { name } => "Extension '"@ + name
            + "' is not installed. Run 'pact extension install "@ + name + "' first."@,
        ErrorView::NotRegistered { name } => "Extension '"@ + name + "' is not installed."@,
        ErrorView::NotFound { name } => "Extension '"@ + name
            + "' not found. Available extensions can be listed with 'pact extension list'."@,
        ErrorView::UnknownExtension { name } => "Unknown extension: "@ + name,
        ErrorView::MissingTarget => "Please specify an extension name or use --all flag"@,
        ErrorView::NothingInstalled => "No extensions installed"@,
        ErrorView::OutOfOrder => "Unexpected event for the current step"@,
    }
}

impl ExtensionError {
    /// The message shown for this failure.
    pub fn message(&self) -> (r: String)
        ensures
            r@ == message_text(self@),
    {
        match self {
            ExtensionError::UnsupportedPlatform { os, arch } => {
                let mut s = join3("Unsupported platform: ", os.as_str(), "-");
                s.append(arch.as_str());
                s
            },
            ExtensionError::Network { message } => join2(
                "Network request failed: ",
                message.as_str(),
            ),
            ExtensionError::RemoteStatus { request, family, status } => {
                let begin = match request {
                    Request::LatestVersion => "Failed to resolve the latest version of ",
                    Request::Artifact => "Failed to download ",
                };
                let mut s = join3(begin, family.name(), ": HTTP ");
                let code = to_decimal(*status as u32);
                s.append(code.as_str());
                s
            },
            ExtensionError::VersionResolution => "No tag_name found in release".to_owned(),
            ExtensionError::ArchiveExtraction { zip } => if *zip {
                "Failed to extract Windows archive".to_owned()
            } else {
                "Failed to extract tar archive".to_owned()
            },
            ExtensionError::Filesystem { message } => join2(
                "Filesystem operation failed: ",
                message.as_str(),
            ),
            ExtensionError::NotInstalled { name } => {
                let mut s = join3(
                    "Extension '",
                    name.as_str(),
                    "' is not installed. Run 'pact extension install ",
                );
                s.append(name.as_str());
                s.append("' first.");
                s
            },
            ExtensionError::NotRegistered { name } => join3(
                "Extension '",
                name.as_str(),
                "' is not installed.",
            ),
            ExtensionError::NotFound { name } => join3(
                "Extension '",
                name.as_str(),
                "' not found. Available extensions can be listed with 'pact extension list'.",
            ),
            ExtensionError::UnknownExtension { name } => join2("Unknown extension: ", name.as_str()),
            ExtensionError::MissingTarget => "Please specify an extension name or use --all flag"
                .to_owned(),
            ExtensionError::NothingInstalled => "No extensions installed".to_owned(),
            ExtensionError::OutOfOrder => "Unexpected event for the current step".to_owned(),
        }
    }
}

} // verus!
