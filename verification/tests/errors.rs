use go_installer::error::InstallError;

fn text(s: &str) -> String {
    s.to_string()
}

#[test]
fn permission_message_names_the_install_root() {
    let error = InstallError::Permission { install_root: text("/usr/local") };
    assert_eq!(error.message(), "This must be run with sudo to install Go in '/usr/local'.");
}

#[test]
fn unsupported_platform_message_names_the_architecture() {
    let error = InstallError::UnsupportedPlatform { arch: text("riscv64") };
    assert_eq!(error.message(), "Unsupported architecture: riscv64");
}

#[test]
fn not_found_message_names_system_and_architecture() {
    let error = InstallError::NotFound { os: text("linux"), arch: text("arm64") };
    assert_eq!(error.message(), "Could not find a stable Go release for linux-arm64");
}

#[test]
fn integrity_message_shows_both_digests() {
    let error = InstallError::Integrity { expected: text("aa"), computed: text("bb") };
    assert_eq!(error.message(), "Checksum mismatch!\n  Expected:   aa\n  Calculated: bb");
}

#[test]
fn reported_failures_are_described_by_their_detail() {
    assert_eq!(InstallError::Network { detail: text("connection refused") }.message(), "connection refused");
    assert_eq!(InstallError::Parse { detail: text("expected value at line 1") }.message(), "expected value at line 1");
    assert_eq!(InstallError::Io { detail: text("disk full") }.message(), "disk full");
    assert_eq!(InstallError::Extraction { detail: text("unexpected end of file") }.message(), "unexpected end of file");
    assert_eq!(InstallError::Io { detail: String::new() }.message(), "");
}
