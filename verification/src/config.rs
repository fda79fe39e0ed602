//! The fixed settings of an installation.

use vstd::prelude::*;
use vstd::string::StringExecFns;

verus! {

/// Address of the release catalog.
pub const METADATA_URL: &'static str = "https://go.dev/dl/?mode=json";

/// Address under which release files are fetched by name.
pub const DOWNLOAD_BASE: &'static str = "https://go.dev/dl/";

/// Directory into which archives are unpacked.
pub const INSTALL_ROOT: &'static str = "/usr/local";

/// Name of the directory that an archive unpacks to.
pub const TOOLCHAIN_DIR: &'static str = "go";

/// Operating system for which files are chosen.
pub const TARGET_OS: &'static str = "linux";

/// Kind of file that is chosen.
pub const ARCHIVE_KIND: &'static str = "archive";

/// Environment variable whose presence shows that privileges were raised.
pub const ELEVATION_VARIABLE: &'static str = "SUDO_USER";

/// The settings that every stage of a run works with.
#[derive(Debug, PartialEq, Eq)]
pub struct Config {
    /// Address of the release catalog.
    pub metadata_url: String,
    /// Address to which a file's name is appended to fetch it.
    pub download_base: String,
    /// Directory into which the archive is unpacked.
    pub install_root: String,
    /// Name, below the install root, of the directory that is replaced.
    pub toolchain_dir: String,
    /// Operating system a chosen file must name.
    pub os: String,
    /// Kind a chosen file must name.
    pub kind: String,
    /// Environment variable that signals raised privileges.
    pub elevation_variable: String,
}

/// A [`Config`] as plain values.
pub struct ConfigModel {
    pub metadata_url: Seq<char>,
    pub download_base: Seq<char>,
    pub install_root: Seq<char>,
    pub toolchain_dir: Seq<char>,
    pub os: Seq<char>,
    pub kind: Seq<char>,
    pub elevation_variable: Seq<char>,
}

impl View for Config {
    type V = ConfigModel;

    open spec fn view(&self) -> ConfigModel {
        ConfigModel {
            metadata_url: self.metadata_url@,
            download_base: self.download_base@,
            install_root: self.install_root@,
            toolchain_dir: self.toolchain_dir@,
            os: self.os@,
            kind: self.kind@,
            elevation_variable: self.elevation_variable@,
        }
    }
}

/// The settings of the standard installation.
pub open spec fn standard_settings() -> ConfigModel {
    ConfigModel {
        metadata_url: METADATA_URL@,
        download_base: DOWNLOAD_BASE@,
        install_root: INSTALL_ROOT@,
        toolchain_dir: TOOLCHAIN_DIR@,
        os: TARGET_OS@,
        kind: ARCHIVE_KIND@,
        elevation_variable: ELEVATION_VARIABLE@,
    }
}

impl Config {
    /// The settings of the standard installation, taken from the constants
    /// of this module.
    pub fn standard() -> (config: Config)
        ensures
            config@ == standard_settings(),
    {
        Config {
            metadata_url: String::from_str(METADATA_URL),
            download_base: String::from_str(DOWNLOAD_BASE),
            install_root: String::from_str(INSTALL_ROOT),
            toolchain_dir: String::from_str(TOOLCHAIN_DIR),
            os: String::from_str(TARGET_OS),
            kind: String::from_str(ARCHIVE_KIND),
            elevation_variable: String::from_str(ELEVATION_VARIABLE),
        }
    }
}

} // verus!
