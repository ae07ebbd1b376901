//! The platforms a release is published for, and the tokens that name them
//! in the remote artifact layout.

use vstd::prelude::*;
use vstd::string::StringExecFns;

verus! {

/// An operating system the language server is published for.
#[derive(Clone, Copy, Debug, PartialEq, Eq, Structural)]
pub enum Os {
    Mac,
    Linux,
    Windows,
}

/// A processor architecture the language server is published for.
#[derive(Clone, Copy, Debug, PartialEq, Eq, Structural)]
pub enum Architecture {
    Aarch64,
    X86,
    X8664,
}

/// The operating-system token of the artifact layout.
pub open spec fn os_token(os: Os) -> Seq<char> {
    match os {
        Os::Mac => "darwin"@,
        Os::Linux => "linux"@,
        Os::Windows => "windows"@,
    }
}

/// The architecture token of the artifact layout.
pub open spec fn arch_token(arch: Architecture) -> Seq<char> {
    match arch {
        Architecture::Aarch64 => "arm64"@,
        Architecture::X86 => "386"@,
        Architecture::X8664 => "amd64"@,
    }
}

impl Os {
    /// The token under which artifacts for this operating system are published.
    pub fn token(self) -> (token: &'static str)
        ensures
            token@ == os_token(self),
    {
        match self {
            Os::Mac => "darwin",
            Os::Linux => "linux",
            Os::Windows => "windows",
        }
    }
}

impl Architecture {
    /// The token under which artifacts for this architecture are published.
    pub fn token(self) -> (token: &'static str)
        ensures
            token@ == arch_token(self),
    {
        match self {
            Architecture::Aarch64 => "arm64",
            Architecture::X86 => "386",
            Architecture::X8664 => "amd64",
        }
    }
}

/// Every supported platform has a token of its own: none is empty, and no
/// two operating systems or architectures share one, so that a URL built
/// from the tokens names the artifact of exactly one platform.
pub proof fn lemma_tokens_distinct(
    os: Os,
    other_os: Os,
    arch: Architecture,
    other_arch: Architecture,
)
    ensures
        os_token(os).len() > 0,
        arch_token(arch).len() > 0,
        os_token(os) == os_token(other_os) ==> os == other_os,
        arch_token(arch) == arch_token(other_arch) ==> arch == other_arch,
{
    reveal_strlit("darwin");
    reveal_strlit("linux");
    reveal_strlit("windows");
    reveal_strlit("arm64");
    reveal_strlit("386");
    reveal_strlit("amd64");
    assert("arm64"@[1] != "amd64"@[1]);
}

} // verus!
