use go_installer::config::Config;
use go_installer::platform::Arch;

#[test]
fn from_host_maps_the_two_supported_names() {
    assert_eq!(Arch::from_host("x86_64"), Some(Arch::Amd64));
    assert_eq!(Arch::from_host("aarch64"), Some(Arch::Arm64));
}

#[test]
fn from_host_rejects_every_other_name() {
    for host in ["", "x86", "X86_64", "amd64", "arm64", "arm", "riscv64", "x86_64 ", "aarch64\n"] {
        assert_eq!(Arch::from_host(host), None, "{host:?}");
    }
}

#[test]
fn identifier_is_the_catalog_name() {
    assert_eq!(Arch::Amd64.identifier(), "amd64");
    assert_eq!(Arch::Arm64.identifier(), "arm64");
}

#[test]
fn standard_config_holds_the_fixed_settings() {
    let config = Config::standard();
    assert_eq!(config.metadata_url, "https://go.dev/dl/?mode=json");
    assert_eq!(config.download_base, "https://go.dev/dl/");
    assert_eq!(config.install_root, "/usr/local");
    assert_eq!(config.toolchain_dir, "go");
    assert_eq!(config.os, "linux");
    assert_eq!(config.kind, "archive");
    assert_eq!(config.elevation_variable, "SUDO_USER");
}
