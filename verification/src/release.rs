//! Where a release lives: the remote URLs it is fetched from and the local
//! paths it is installed under. All of it follows from the version and the
//! platform alone.

use vstd::prelude::*;
use vstd::string::StringExecFns;
use crate::exchange::headers_view;
use crate::platform::{arch_token, os_token, Architecture, Os};
use crate::text::{decimal_string, decimal_text};

verus! {

/// The version of the remote layout this library understands. It is part of
/// every remote path; raising it is the only way to follow a breaking change
/// of the hosting scheme.
pub const PROTOCOL_VERSION: u32 = 3;

/// The prefix shared by every remote path of this protocol version.
pub open spec fn remote_root_text() -> Seq<char> {
    "https://static.snyk.io/snyk-ls/"@ + decimal_text(PROTOCOL_VERSION as nat)
}

/// The URL of the document that names the latest release.
pub open spec fn metadata_url_text() -> Seq<char> {
    remote_root_text() + "/metadata.json"@
}

/// The URL of the executable of `version` for the given platform.
pub open spec fn download_url_text(version: Seq<char>, os: Os, arch: Architecture) -> Seq<char> {
    remote_root_text() + "/snyk-ls_"@ + version + "_"@ + os_token(os) + "_"@ + arch_token(arch)
}

/// The name of the directory that holds the installation of `version`.
pub open spec fn version_dir_text(version: Seq<char>) -> Seq<char> {
    "snyk-ls-"@ + version
}

/// The path of the executable of `version`, relative to the working directory.
pub open spec fn binary_path_text(version: Seq<char>) -> Seq<char> {
    version_dir_text(version) + "/snyk-ls"@
}

/// The name under which the executable is looked up on the search path.
pub open spec fn binary_name_text() -> Seq<char> {
    "snyk-ls"@
}

/// The headers the request for the metadata document is sent with: the
/// content type, and nothing else.
pub open spec fn metadata_headers_text() -> Seq<(Seq<char>, Seq<char>)> {
    seq![("Content-Type"@, "application/json"@)]
}

fn remote_root() -> (url: String)
    ensures
        url@ == remote_root_text(),
{
    let mut url = String::from_str("https://static.snyk.io/snyk-ls/");
    let number = decimal_string(PROTOCOL_VERSION);
    url.append(number.as_str());
    url
}

/// The name under which the executable is looked up on the search path.
pub fn binary_name() -> (name: String)
    ensures
        name@ == binary_name_text(),
{
    String::from_str("snyk-ls")
}

/// The headers the request for the metadata document is sent with.
pub fn metadata_headers() -> (headers: Vec<(String, String)>)
    ensures
        headers_view(headers@) == metadata_headers_text(),
{
    let mut headers: Vec<(String, String)> = Vec::new();
    headers.push((String::from_str("Content-Type"), String::from_str("application/json")));
    assert(headers_view(headers@) =~= metadata_headers_text());
    headers
}

/// The URL of the document that names the latest release.
pub fn metadata_url() -> (url: String)
    ensures
        url@ == metadata_url_text(),
{
    let mut url = remote_root();
    url.append("/metadata.json");
    url
}

/// The URL of the executable of `version` for the given platform.
pub fn download_url(version: &str, os: Os, arch: Architecture) -> (url: String)
    ensures
        url@ == download_url_text(version@, os, arch),
{
    let mut url = remote_root();
    url.append("/snyk-ls_");
    url.append(version);
    url.append("_");
    url.append(os.token());
    url.append("_");
    url.append(arch.token());
    url
}

/// The name of the directory that holds the installation of `version`.
pub fn version_dir(version: &str) -> (dir: String)
    ensures
        dir@ == version_dir_text(version@),
{
    let mut dir = String::from_str("snyk-ls-");
    dir.append(version);
    dir
}

/// The path of the executable of `version`, relative to the working directory.
pub fn binary_path(version: &str) -> (path: String)
    ensures
        path@ == binary_path_text(version@),
{
    let mut path = version_dir(version);
    path.append("/snyk-ls");
    path
}

/// The remote root of the current protocol version, spelled out.
pub proof fn lemma_remote_root()
    ensures
        remote_root_text() == "https://static.snyk.io/snyk-ls/3"@,
        metadata_url_text() == "https://static.snyk.io/snyk-ls/3/metadata.json"@,
{
    reveal_strlit("3");
    reveal_strlit("https://static.snyk.io/snyk-ls/");
    reveal_strlit("https://static.snyk.io/snyk-ls/3");
    reveal_strlit("/metadata.json");
    reveal_strlit("https://static.snyk.io/snyk-ls/3/metadata.json");
    assert(decimal_text(3) == "3"@);
    assert(remote_root_text() =~= "https://static.snyk.io/snyk-ls/3"@);
    assert(metadata_url_text() =~= "https://static.snyk.io/snyk-ls/3/metadata.json"@);
}

/// The remote URL and the local paths of a release are functions of the
/// version and the platform: the same inputs give the same text, always.
pub proof fn lemma_release_paths_determined(
    version: Seq<char>,
    os: Os,
    arch: Architecture,
    other_version: Seq<char>,
    other_os: Os,
    other_arch: Architecture,
)
    requires
        version == other_version,
        os == other_os,
        arch == other_arch,
    ensures
        download_url_text(version, os, arch) == download_url_text(
            other_version,
            other_os,
            other_arch,
        ),
        version_dir_text(version) == version_dir_text(other_version),
        binary_path_text(version) == binary_path_text(other_version),
{
}

/// Two versions never share a directory.
pub proof fn lemma_version_dir_injective(version: Seq<char>, other_version: Seq<char>)
    requires
        version_dir_text(version) == version_dir_text(other_version),
    ensures
        version == other_version,
{
    let prefix = "snyk-ls-"@;
    assert(version =~= (prefix + version).subrange(
        prefix.len() as int,
        (prefix + version).len() as int,
    ));
    assert(other_version =~= (prefix + other_version).subrange(
        prefix.len() as int,
        (prefix + other_version).len() as int,
    ));
}

/// The name of a version directory holds a path separator only if the
/// version does.
pub proof fn lemma_version_dir_plain(version: Seq<char>)
    requires
        !version.contains('/'),
    ensures
        !version_dir_text(version).contains('/'),
        version_dir_text(version).len() > 0,
{
    reveal_strlit("snyk-ls-");
    let dir = version_dir_text(version);
    assert forall|i: int| 0 <= i < dir.len() implies dir[i] != '/' by {
        if i >= 8 {
            assert(dir[i] == version[i - 8]);
            assert(version.contains(version[i - 8]));
        }
    }
}

} // verus!
