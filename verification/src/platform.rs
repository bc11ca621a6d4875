//! Platform resolution: canonical labels for the operating system and the CPU
//! architecture, the matrix of supported pairs, and the artifact naming of
//! each extension family.
//!
//! The two families name their targets differently, so each has a table of
//! its own.

use crate::text::{join3, str_eq};
use vstd::prelude::*;
use vstd::string::*;

verus! {

/// The operating system and CPU architecture an extension is resolved for.
pub struct PlatformInfo {
    pub os: String,
    pub arch: String,
}

/// The canonical label of an operating system, given the label the host
/// reports. Labels that are not recognised pass through unchanged.
pub open spec fn canonical_os(raw: Seq<char>) -> Seq<char> {
    if raw == "macos"@ {
        "darwin"@
    } else {
        raw
    }
}

/// The matrix of supported platforms.
pub open spec fn supported_pair(os: Seq<char>, arch: Seq<char>) -> bool {
    (os == "darwin"@ || os == "windows"@ || os == "linux"@) && (arch == "aarch64"@ || arch
        == "x86_64"@)
}

/// The target name of the single-binary family for a platform. Pairs outside
/// the supported matrix fall back to the 64-bit Linux target.
pub open spec fn pactflow_ai_target(os: Seq<char>, arch: Seq<char>) -> Seq<char> {
    if os == "darwin"@ && arch == "aarch64"@ {
        "aarch64-apple-darwin"@
    } else if os == "darwin"@ && arch == "x86_64"@ {
        "x86_64-apple-darwin"@
    } else if os == "windows"@ && arch == "aarch64"@ {
        "aarch64-pc-windows-msvc"@
    } else if os == "windows"@ && arch == "x86_64"@ {
        "x86_64-pc-windows-msvc"@
    } else if os == "linux"@ && arch == "aarch64"@ {
        "aarch64-unknown-linux-gnu"@
    } else {
        "x86_64-unknown-linux-gnu"@
    }
}

/// The target name of the bundle family for a platform. Windows on ARM uses
/// the x86_64 bundle; pairs outside the supported matrix fall back to the
/// 64-bit Linux target.
pub open spec fn ruby_standalone_target(os: Seq<char>, arch: Seq<char>) -> Seq<char> {
    if os == "darwin"@ && arch == "aarch64"@ {
        "osx-arm64"@
    } else if os == "darwin"@ && arch == "x86_64"@ {
        "osx-x86_64"@
    } else if os == "windows"@ && (arch == "aarch64"@ || arch == "x86_64"@) {
        "windows-x86_64"@
    } else if os == "linux"@ && arch == "aarch64"@ {
        "linux-arm64"@
    } else {
        "linux-x86_64"@
    }
}

/// The suffix of executable files on an operating system.
pub open spec fn executable_extension(os: Seq<char>) -> Seq<char> {
    if os == "windows"@ {
        ".exe"@
    } else {
        ""@
    }
}

/// The file extension of the bundle archive on an operating system.
pub open spec fn archive_extension(os: Seq<char>) -> Seq<char> {
    if os == "windows"@ {
        "zip"@
    } else {
        "tar.gz"@
    }
}

/// Where the latest version of the single-binary family is published.
pub open spec fn pactflow_ai_latest_url(os: Seq<char>, arch: Seq<char>) -> Seq<char> {
    "https://download.pactflow.io/ai/dist/"@ + pactflow_ai_target(os, arch) + "/latest"@
}

/// Where version `version` of the single-binary family is published.
pub open spec fn pactflow_ai_artifact_url(
    os: Seq<char>,
    arch: Seq<char>,
    version: Seq<char>,
) -> Seq<char> {
    "https://download.pactflow.io/ai/dist/"@ + pactflow_ai_target(os, arch) + "/"@ + version
        + "/pactflow-ai"@
}

impl PlatformInfo {
    /// The platform with canonical labels, from the labels the host reports
    /// for its operating system and architecture.
    pub fn detect(os: &str, arch: &str) -> (r: Self)
        ensures
            r.os@ == canonical_os(os@),
            r.arch@ == arch@,
    {
        let os = if str_eq(os, "macos") {
            "darwin".to_owned()
        } else {
            os.to_owned()
        };
        PlatformInfo { os, arch: arch.to_owned() }
    }

    /// Whether the platform is in the supported matrix.
    pub fn is_supported(&self) -> (r: bool)
        ensures
            r == supported_pair(self.os@, self.arch@),
    {
        let os = self.os.as_str();
        let arch = self.arch.as_str();
        (str_eq(os, "darwin") || str_eq(os, "windows") || str_eq(os, "linux")) && (str_eq(
            arch,
            "aarch64",
        ) || str_eq(arch, "x86_64"))
    }

    /// The target name of the single-binary family.
    fn pactflow_ai_target(&self) -> (r: &'static str)
        ensures
            r@ == pactflow_ai_target(self.os@, self.arch@),
    {
        let os = self.os.as_str();
        let arch = self.arch.as_str();
        if str_eq(os, "darwin") && str_eq(arch, "aarch64") {
            "aarch64-apple-darwin"
        } else if str_eq(os, "darwin") && str_eq(arch, "x86_64") {
            "x86_64-apple-darwin"
        } else if str_eq(os, "windows") && str_eq(arch, "aarch64") {
            "aarch64-pc-windows-msvc"
        } else if str_eq(os, "windows") && str_eq(arch, "x86_64") {
            "x86_64-pc-windows-msvc"
        } else if str_eq(os, "linux") && str_eq(arch, "aarch64") {
            "aarch64-unknown-linux-gnu"
        } else {
            "x86_64-unknown-linux-gnu"
        }
    }

    /// The address that answers with the latest version of the single-binary
    /// family for this platform.
    pub fn get_pactflow_ai_url(&self) -> (r: String)
        ensures
            r@ == pactflow_ai_latest_url(self.os@, self.arch@),
    {
        join3("https://download.pactflow.io/ai/dist/", self.pactflow_ai_target(), "/latest")
    }

    /// The address of the single-binary artifact of the given version for
    /// this platform.
    pub fn get_pactflow_ai_download_url(&self, version: &str) -> (r: String)
        ensures
            r@ == pactflow_ai_artifact_url(self.os@, self.arch@, version@),
    {
        let mut url = join3("https://download.pactflow.io/ai/dist/", self.pactflow_ai_target(), "/");
        url.append(version);
        url.append("/pactflow-ai");
        url
    }

    /// The target name of the bundle family.
    pub fn get_ruby_standalone_target(&self) -> (r: String)
        ensures
            r@ == ruby_standalone_target(self.os@, self.arch@),
    {
        let os = self.os.as_str();
        let arch = self.arch.as_str();
        let target = if str_eq(os, "darwin") && str_eq(arch, "aarch64") {
            "osx-arm64"
        } else if str_eq(os, "darwin") && str_eq(arch, "x86_64") {
            "osx-x86_64"
        } else if str_eq(os, "windows") && (str_eq(arch, "aarch64") || str_eq(arch, "x86_64")) {
            "windows-x86_64"
        } else if str_eq(os, "linux") && str_eq(arch, "aarch64") {
            "linux-arm64"
        } else {
            "linux-x86_64"
        };
        target.to_owned()
    }

    /// The suffix of executable files on this platform.
    pub fn get_executable_extension(&self) -> (r: &str)
        ensures
            r@ == executable_extension(self.os@),
    {
        if str_eq(self.os.as_str(), "windows") {
            ".exe"
        } else {
            ""
        }
    }

    /// The file extension of the bundle archive on this platform.
    pub fn get_archive_extension(&self) -> (r: &str)
        ensures
            r@ == archive_extension(self.os@),
    {
        if str_eq(self.os.as_str(), "windows") {
            "zip"
        } else {
            "tar.gz"
        }
    }
}

/// Every pair of the supported matrix has a target of its own in the table
/// of the single-binary family: no two supported platforms share an artifact.
pub proof fn pactflow_ai_targets_distinct(
    os1: Seq<char>,
    arch1: Seq<char>,
    os2: Seq<char>,
    arch2: Seq<char>,
)
    requires
        supported_pair(os1, arch1),
        supported_pair(os2, arch2),
        pactflow_ai_target(os1, arch1) == pactflow_ai_target(os2, arch2),
    ensures
        os1 == os2,
        arch1 == arch2,
{
    reveal_strlit("darwin");
    reveal_strlit("windows");
    reveal_strlit("linux");
    reveal_strlit("aarch64");
    reveal_strlit("x86_64");
    reveal_strlit("aarch64-apple-darwin");
    reveal_strlit("x86_64-apple-darwin");
    reveal_strlit("aarch64-pc-windows-msvc");
    reveal_strlit("x86_64-pc-windows-msvc");
    reveal_strlit("aarch64-unknown-linux-gnu");
    reveal_strlit("x86_64-unknown-linux-gnu");
    // Equal targets have equal lengths and an equal first character: the
    // lengths tell the systems apart, the first character the architectures.
    let t1 = pactflow_ai_target(os1, arch1);
    let t2 = pactflow_ai_target(os2, arch2);
    assert(t1.len() == t2.len());
    assert(t1[0] == t2[0]);
}

} // verus!
