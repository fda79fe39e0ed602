//! The ways in which a run can fail, and the text shown for each.

use vstd::prelude::*;
use vstd::string::StringExecFns;

verus! {

/// Why a run was abandoned.
#[derive(Debug, PartialEq, Eq)]
pub enum InstallError {
    /// The process was not started with raised privileges.
    Permission { install_root: String },
    /// The host's architecture is not one for which releases are installed.
    UnsupportedPlatform { arch: String },
    /// A request could not be sent or its answer could not be received.
    Network { detail: String },
    /// The catalog's text was not a list of releases.
    Parse { detail: String },
    /// No file of the catalog is built for the system and architecture.
    NotFound { os: String, arch: String },
    /// A file or directory could not be read, written or removed.
    Io { detail: String },
    /// The archive's digest is not the one the catalog names.
    Integrity { expected: String, computed: String },
    /// The archive could not be unpacked.
    Extraction { detail: String },
}

/// An [`InstallError`] as plain values.
pub enum ErrorModel {
    Permission { install_root: Seq<char> },
    UnsupportedPlatform { arch: Seq<char> },
    Network { detail: Seq<char> },
    Parse { detail: Seq<char> },
    NotFound { os: Seq<char>, arch: Seq<char> },
    Io { detail: Seq<char> },
    Integrity { expected: Seq<char>, computed: Seq<char> },
    Extraction { detail: Seq<char> },
}

impl View for InstallError {
    type V = ErrorModel;

    open spec fn view(&self) -> ErrorModel {
        match self {
            InstallError::Permission { install_root } => ErrorModel::Permission {
                install_root: install_root@,
            },
            InstallError::UnsupportedPlatform { arch } => ErrorModel::UnsupportedPlatform {
                arch: arch@,
            },
            InstallError::Network { detail } => ErrorModel::Network { detail: detail@ },
            InstallError::Parse { detail } => ErrorModel::Parse { detail: detail@ },
            InstallError::NotFound { os, arch } => ErrorModel::NotFound { os: os@, arch: arch@ },
            InstallError::Io { detail } => ErrorModel::Io { detail: detail@ },
            InstallError::Integrity { expected, computed } => ErrorModel::Integrity {
                expected: expected@,
                computed: computed@,
            },
            InstallError::Extraction { detail } => ErrorModel::Extraction { detail: detail@ },
        }
    }
}

impl ErrorModel {
    /// The text that describes the error to the user.
    pub open spec fn message(self) -> Seq<char> {
        match self {
            ErrorModel::Permission { install_root } => "This must be run with sudo to install Go in '"@
                + install_root + "'."@,
            ErrorModel::UnsupportedPlatform { arch } => "Unsupported architecture: "@ + arch,
            ErrorModel::Network { detail } => detail,
            ErrorModel::Parse { detail } => detail,
            ErrorModel::NotFound { os, arch } => "Could not find a stable Go release for "@ + os
                + "-"@ + arch,
            ErrorModel::Io { detail } => detail,
            ErrorModel::Integrity { expected, computed } => "Checksum mismatch!\n  Expected:   "@
                + expected + "\n  Calculated: "@ + computed,
            ErrorModel::Extraction { detail } => detail,
        }
    }
}

impl InstallError {
    /// The text that describes the error to the user.
    ///
    /// Failures of the network, the catalog's format, the filesystem and the
    /// archive are described by the detail they were reported with.
    pub fn message(&self) -> (text: String)
        ensures
            text@ == self@.message(),
    {
        match self {
            InstallError::Permission { install_root } => {
                let mut text = String::from_str("This must be run with sudo to install Go in '");
                text.append(install_root.as_str());
                text.append("'.");
                text
            },
            InstallError::UnsupportedPlatform { arch } => {
                let mut text = String::from_str("Unsupported architecture: ");
                text.append(arch.as_str());
                text
            },
            InstallError::Network { detail } => detail.clone(),
            InstallError::Parse { detail } => detail.clone(),
            InstallError::NotFound { os, arch } => {
                let mut text = String::from_str("Could not find a stable Go release for ");
                text.append(os.as_str());
                text.append("-");
                text.append(arch.as_str());
                text
            },
            InstallError::Io { detail } => detail.clone(),
            InstallError::Integrity { expected, computed } => {
                let mut text = String::from_str("Checksum mismatch!\n  Expected:   ");
                text.append(expected.as_str());
                text.append("\n  Calculated: ");
                text.append(computed.as_str());
                text
            },
            InstallError::Extraction { detail } => detail.clone(),
        }
    }
}

} // verus!
