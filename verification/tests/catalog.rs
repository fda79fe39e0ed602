use go_installer::catalog::{select, Release, ReleaseFile};

fn file(name: &str, os: &str, arch: &str, kind: &str) -> ReleaseFile {
    ReleaseFile {
        filename: name.to_string(),
        os: os.to_string(),
        arch: arch.to_string(),
        version: "go1".to_string(),
        sha256: "a".repeat(64),
        size: 100,
        kind: kind.to_string(),
    }
}

fn release(files: Vec<ReleaseFile>) -> Release {
    Release { files }
}

#[test]
fn select_returns_first_release_on_tie() {
    let mut r1 = file("go1.r1.tar.gz", "linux", "amd64", "archive");
    r1.version = "go1.1".to_string();
    let mut r2 = file("go1.r2.tar.gz", "linux", "amd64", "archive");
    r2.version = "go1.99".to_string();
    let catalog = vec![release(vec![r1]), release(vec![r2])];
    let found = select(&catalog, "linux", "amd64", "archive").unwrap();
    assert_eq!(found.filename, "go1.r1.tar.gz");
    assert_eq!(found.size, 100);
    assert_eq!(found.sha256, "a".repeat(64));
    assert_eq!(found.version, "go1.1");
}

#[test]
fn select_ignores_versions() {
    let mut old = file("old.tar.gz", "linux", "amd64", "archive");
    old.version = "go0.1".to_string();
    let mut new = file("new.tar.gz", "linux", "amd64", "archive");
    new.version = "go9.9".to_string();
    let catalog = vec![release(vec![old, new])];
    assert_eq!(select(&catalog, "linux", "amd64", "archive").unwrap().filename, "old.tar.gz");
}

#[test]
fn select_returns_first_file_within_release() {
    let catalog = vec![release(vec![
        file("src.tar.gz", "", "", "source"),
        file("mac.tar.gz", "darwin", "amd64", "archive"),
        file("linux.msi", "linux", "amd64", "installer"),
        file("arm.tar.gz", "linux", "arm64", "archive"),
        file("first.tar.gz", "linux", "amd64", "archive"),
        file("second.tar.gz", "linux", "amd64", "archive"),
    ])];
    assert_eq!(select(&catalog, "linux", "amd64", "archive").unwrap().filename, "first.tar.gz");
    assert_eq!(select(&catalog, "linux", "arm64", "archive").unwrap().filename, "arm.tar.gz");
    assert_eq!(select(&catalog, "darwin", "amd64", "archive").unwrap().filename, "mac.tar.gz");
    assert_eq!(select(&catalog, "linux", "amd64", "installer").unwrap().filename, "linux.msi");
}

#[test]
fn select_goes_on_to_later_releases() {
    let catalog = vec![
        release(vec![file("a", "darwin", "amd64", "archive")]),
        release(vec![]),
        release(vec![file("b", "linux", "arm64", "archive"), file("c", "linux", "amd64", "archive")]),
        release(vec![file("d", "linux", "amd64", "archive")]),
    ];
    assert_eq!(select(&catalog, "linux", "amd64", "archive").unwrap().filename, "c");
}

#[test]
fn select_finds_nothing_when_no_file_suits() {
    let catalog = vec![
        release(vec![file("a", "darwin", "amd64", "archive")]),
        release(vec![file("b", "linux", "amd64", "source"), file("c", "linux", "386", "archive")]),
    ];
    assert_eq!(select(&catalog, "linux", "amd64", "archive"), None);
}

#[test]
fn select_finds_nothing_in_empty_catalog() {
    assert_eq!(select(&Vec::new(), "linux", "amd64", "archive"), None);
    assert_eq!(select(&vec![release(vec![]), release(vec![])], "linux", "amd64", "archive"), None);
}

#[test]
fn select_needs_all_three_to_match_exactly() {
    let catalog = vec![release(vec![file("a", "linux", "amd64", "archive")])];
    assert!(select(&catalog, "linux", "amd64", "archive").is_some());
    assert_eq!(select(&catalog, "Linux", "amd64", "archive"), None);
    assert_eq!(select(&catalog, "linux", "amd64 ", "archive"), None);
    assert_eq!(select(&catalog, "linux", "amd64", "archiv"), None);
    assert_eq!(select(&catalog, "", "", ""), None);
}

#[test]
fn release_file_clone_keeps_every_field() {
    let original = ReleaseFile {
        filename: "go1.22.0.linux-amd64.tar.gz".to_string(),
        os: "linux".to_string(),
        arch: "amd64".to_string(),
        version: "go1.22.0".to_string(),
        sha256: "f".repeat(64),
        size: 68_988_925,
        kind: "archive".to_string(),
    };
    assert_eq!(original.clone(), original);
}
