//! The processor architectures for which releases are installed.

use crate::text::text_eq;
use vstd::prelude::*;

verus! {

/// A supported processor architecture.
#[derive(Clone, Copy, Debug, PartialEq, Eq, Structural)]
pub enum Arch {
    /// 64-bit x86, which hosts report as `x86_64`.
    Amd64,
    /// 64-bit ARM, which hosts report as `aarch64`.
    Arm64,
}

/// The architecture that a host's own name for it stands for, if supported.
pub open spec fn arch_of_host(host: Seq<char>) -> Option<Arch> {
    if host == "x86_64"@ {
        Some(Arch::Amd64)
    } else if host == "aarch64"@ {
        Some(Arch::Arm64)
    } else {
        None
    }
}

impl Arch {
    /// The name under which release catalogs list this architecture.
    pub open spec fn identifier_text(self) -> Seq<char> {
        match self {
            Arch::Amd64 => "amd64"@,
            Arch::Arm64 => "arm64"@,
        }
    }

    /// Maps the host's architecture name to a supported architecture.
    ///
    /// `x86_64` is `Amd64`, `aarch64` is `Arm64`, and every other name is
    /// unsupported.
    pub fn from_host(host: &str) -> (arch: Option<Arch>)
        ensures
            arch == arch_of_host(host@),
    {
        if text_eq(host, "x86_64") {
            Some(Arch::Amd64)
        } else if text_eq(host, "aarch64") {
            Some(Arch::Arm64)
        } else {
            None
        }
    }

    /// The name under which release catalogs list this architecture.
    pub fn identifier(self) -> (name: &'static str)
        ensures
            name@ == self.identifier_text(),
    {
        match self {
            Arch::Amd64 => "amd64",
            Arch::Arm64 => "arm64",
        }
    }
}

/// The two host names are supported and stand for different architectures,
/// which catalogs list under different names.
pub proof fn supported_hosts_are_distinct()
    ensures
        Arch::Amd64.identifier_text() != Arch::Arm64.identifier_text(),
        arch_of_host("x86_64"@) == Some(Arch::Amd64),
        arch_of_host("aarch64"@) == Some(Arch::Arm64),
{
    reveal_strlit("amd64");
    reveal_strlit("arm64");
    reveal_strlit("x86_64");
    reveal_strlit("aarch64");
    assert("amd64"@[1] != "arm64"@[1]);
    assert("x86_64"@.len() != "aarch64"@.len());
}

} // verus!
