//! Artifact location: mapping the platform's architecture name onto the
//! distribution's naming convention, and deriving the release-feed URL, the
//! download URL and the temporary download path.
//!
//! Resolving the running executable's own path is outside work; the
//! application asks the operating system and hands the result to the update
//! machine as a plain value.

use vstd::prelude::*;
use vstd::string::StringExecFns;

verus! {

/// The fixed distribution base: the repository the releases come from.
pub open spec fn spec_github_repo() -> Seq<char> {
    "ntfy-log/ntfy-log"@
}

/// The fixed release-feed endpoint.
pub open spec fn spec_releases_url() -> Seq<char> {
    "https://api.github.com/repos/"@ + spec_github_repo() + "/releases/latest"@
}

/// The URL of the "latest release" feed.
pub fn github_releases_url() -> (r: String)
    ensures
        r@ == spec_releases_url(),
{
    let mut s = "https://api.github.com/repos/".to_owned();
    s.append("ntfy-log/ntfy-log");
    s.append("/releases/latest");
    s
}

/// The download URL of the artifact for a release tag and an architecture.
pub open spec fn spec_download_url(tag: Seq<char>, arch: Seq<char>) -> Seq<char> {
    "https://github.com/"@ + spec_github_repo() + "/releases/download/"@ + tag + "/ntfy-log-"@
        + arch
}

/// Compose the artifact URL for one release tag and one architecture name.
pub fn github_download_url(tag_name: &str, arch: &str) -> (r: String)
    ensures
        r@ == spec_download_url(tag_name@, arch@),
{
    let mut s = "https://github.com/".to_owned();
    s.append("ntfy-log/ntfy-log");
    s.append("/releases/download/");
    s.append(tag_name);
    s.append("/ntfy-log-");
    s.append(arch);
    s
}

/// The well-known temporary path the artifact is downloaded to.
pub open spec fn spec_temp_download_path() -> Seq<char> {
    "/tmp/download-ntfy-log.bin"@
}

/// The well-known temporary download path.
pub fn temp_download_path() -> (r: String)
    ensures
        r@ == spec_temp_download_path(),
{
    "/tmp/download-ntfy-log.bin".to_owned()
}

/// The distribution's name for a platform architecture: exactly two
/// architectures are supported, anything else is refused.
pub open spec fn spec_arch_name(platform: Seq<char>) -> Option<Seq<char>> {
    if platform == "x86_64"@ {
        Some("x86_64"@)
    } else if platform == "aarch64"@ {
        Some("arm64"@)
    } else {
        None
    }
}

/// Error text for an unsupported architecture.
pub open spec fn spec_unsupported_arch_message(platform: Seq<char>) -> Seq<char> {
    "Unsupported CPU architecture: "@ + platform
}

/// Text equality of two string slices.
fn str_eq(a: &str, b: &str) -> (r: bool)
    ensures
        r == (a@ == b@),
{
    let left = a.to_owned();
    let right = b.to_owned();
    left == right
}

/// Map the platform's reported architecture onto the distribution's name:
/// the two supported architectures map across, any other value fails fast
/// with an explicit message rather than guessing.
pub fn get_arch(platform: &str) -> (r: Result<String, String>)
    ensures
        match spec_arch_name(platform@) {
            Some(name) => r matches Ok(a) && a@ == name,
            None => r matches Err(m) && m@ == spec_unsupported_arch_message(platform@),
        },
{
    if str_eq(platform, "x86_64") {
        Ok("x86_64".to_owned())
    } else if str_eq(platform, "aarch64") {
        Ok("arm64".to_owned())
    } else {
        let mut m = "Unsupported CPU architecture: ".to_owned();
        m.append(platform);
        Err(m)
    }
}

/// A download URL and the temporary local path the artifact lands at,
/// derived deterministically from the release tag and the architecture.
#[derive(Debug, Clone)]
pub struct DownloadTarget {
    pub url: String,
    pub tmp_path: String,
}

/// Derive where the artifact for `tag` on `arch` is fetched from and where
/// it lands locally.
pub fn resolve(tag_name: &str, arch: &str) -> (t: DownloadTarget)
    ensures
        t.url@ == spec_download_url(tag_name@, arch@),
        t.tmp_path@ == spec_temp_download_path(),
{
    DownloadTarget { url: github_download_url(tag_name, arch), tmp_path: temp_download_path() }
}

} // verus!
