//! Matching the host platform against the set of prebuilt release archives.
//!
//! Prebuilt `wasm-bindgen` archives exist for a fixed set of platform
//! triples. The matcher maps the host's OS family and CPU architecture to
//! the triple naming the right archive, or reports that none exists, in
//! which case the download strategy must be skipped before any network
//! access is attempted.

use vstd::prelude::*;
use vstd::string::*;

verus! {

/// The operating-system family of the host, as far as release archives
/// distinguish it.
#[derive(Clone, Copy, PartialEq, Eq, Structural, Debug)]
pub enum TargetOs {
    Linux,
    MacOs,
    Windows,
    Other,
}

/// The CPU architecture of the host, as far as release archives
/// distinguish it.
#[derive(Clone, Copy, PartialEq, Eq, Structural, Debug)]
pub enum TargetArch {
    X86_64,
    Other,
}

/// A prebuilt archive exists exactly for 64-bit Linux, macOS and Windows.
pub open spec fn supported_platform(os: TargetOs, arch: TargetArch) -> bool {
    arch is X86_64 && (os is Linux || os is MacOs || os is Windows)
}

/// The platform triple that names the prebuilt archive for a supported
/// platform; the empty sequence for an unsupported one.
pub open spec fn spec_triple(os: TargetOs, arch: TargetArch) -> Seq<char> {
    if supported_platform(os, arch) {
        match os {
            TargetOs::Linux => "x86_64-unknown-linux-musl"@,
            TargetOs::MacOs => "x86_64-apple-darwin"@,
            TargetOs::Windows => "x86_64-pc-windows-msvc"@,
            TargetOs::Other => Seq::empty(),
        }
    } else {
        Seq::empty()
    }
}

/// The download URL of the prebuilt archive for a given version and triple:
/// a fixed releases base, the version, and an archive name built from the
/// tool name, the version and the triple.
pub open spec fn spec_prebuilt_url(version: Seq<char>, triple: Seq<char>) -> Seq<char> {
    "https://github.com/rustwasm/wasm-bindgen/releases/download/"@ + version + "/wasm-bindgen-"@
        + version + "-"@ + triple + ".tar.gz"@
}

/// Map the host platform to the triple of its prebuilt archive, or `None`
/// where no prebuilt archive is published for it.
pub fn prebuilt_triple(os: TargetOs, arch: TargetArch) -> (r: Option<&'static str>)
    ensures
        r is Some <==> supported_platform(os, arch),
        r matches Some(t) ==> t@ == spec_triple(os, arch) && t@.len() > 0,
{
    proof {
        reveal_strlit("x86_64-unknown-linux-musl");
        reveal_strlit("x86_64-apple-darwin");
        reveal_strlit("x86_64-pc-windows-msvc");
    }
    match (os, arch) {
        (TargetOs::Linux, TargetArch::X86_64) => Some("x86_64-unknown-linux-musl"),
        (TargetOs::MacOs, TargetArch::X86_64) => Some("x86_64-apple-darwin"),
        (TargetOs::Windows, TargetArch::X86_64) => Some("x86_64-pc-windows-msvc"),
        _ => None,
    }
}

/// Build the URL of the prebuilt archive for the required version on the
/// host platform, or `None` where the platform has no prebuilt archive.
/// Pure: deciding that no archive exists involves no network access.
pub fn prebuilt_url(version: &str, os: TargetOs, arch: TargetArch) -> (r: Option<String>)
    ensures
        r is Some <==> supported_platform(os, arch),
        r matches Some(u) ==> u@ == spec_prebuilt_url(version@, spec_triple(os, arch)),
{
    match prebuilt_triple(os, arch) {
        Some(triple) => {
            let mut url = "https://github.com/rustwasm/wasm-bindgen/releases/download/"
                .to_owned();
            url.append(version);
            url.append("/wasm-bindgen-");
            url.append(version);
            url.append("-");
            url.append(triple);
            url.append(".tar.gz");
            Some(url)
        },
        None => None,
    }
}

} // verus!
