use go_installer::catalog::{Release, ReleaseFile};
use go_installer::config::Config;
use go_installer::error::InstallError;
use go_installer::pipeline::{check_archive, launch, resolve, step, Action, Event, Stage};
use go_installer::platform::Arch;

const ARCHIVE: &[u8] = b"archive bytes";
const ARCHIVE_DIGEST: &str = "cc9c340301ad4ba5e54aa24b442ff938d1ed84f7f32c4c5a73773c58af37bd1b";

fn text(s: &str) -> String {
    s.to_string()
}

fn artifact() -> ReleaseFile {
    ReleaseFile {
        filename: text("go1.22.0.linux-amd64.tar.gz"),
        os: text("linux"),
        arch: text("amd64"),
        version: text("go1.22.0"),
        sha256: text(ARCHIVE_DIGEST),
        size: 116_000_000,
        kind: text("archive"),
    }
}

fn other(name: &str, os: &str, arch: &str, kind: &str) -> ReleaseFile {
    ReleaseFile {
        filename: text(name),
        os: text(os),
        arch: text(arch),
        version: text("go1.22.0"),
        sha256: "0".repeat(64),
        size: 1,
        kind: text(kind),
    }
}

fn launched(elevation: Option<&str>, host: &str) -> Event {
    Event::Launched { elevation: elevation.map(text), host_arch: text(host) }
}

fn failed(error: InstallError) -> Event {
    Event::Failed { error }
}

fn network() -> InstallError {
    InstallError::Network { detail: text("connection reset") }
}

fn parse() -> InstallError {
    InstallError::Parse { detail: text("missing field `size`") }
}

fn io() -> InstallError {
    InstallError::Io { detail: text("permission denied") }
}

fn extraction() -> InstallError {
    InstallError::Extraction { detail: text("corrupt archive") }
}

fn abort(error: InstallError) -> Option<(Stage, Action)> {
    Some((Stage::Failed, Action::Abort { error }))
}

#[test]
fn launch_on_supported_architectures_requests_the_catalog() {
    let config = Config::standard();
    assert_eq!(
        step(&config, Stage::Start, launched(Some("alice"), "x86_64")),
        Some((
            Stage::Resolving { arch: Arch::Amd64 },
            Action::FetchCatalog { url: text("https://go.dev/dl/?mode=json") }
        ))
    );
    assert_eq!(
        step(&config, Stage::Start, launched(Some("alice"), "aarch64")),
        Some((
            Stage::Resolving { arch: Arch::Arm64 },
            Action::FetchCatalog { url: text("https://go.dev/dl/?mode=json") }
        ))
    );
}

#[test]
fn launch_on_unsupported_architecture_aborts_without_request() {
    let config = Config::standard();
    for host in ["riscv64", "arm", "amd64", ""] {
        assert_eq!(
            step(&config, Stage::Start, launched(Some("alice"), host)),
            abort(InstallError::UnsupportedPlatform { arch: text(host) })
        );
    }
}

#[test]
fn launch_without_elevation_aborts_first() {
    let config = Config::standard();
    let permission = InstallError::Permission { install_root: text("/usr/local") };
    assert_eq!(launch(&config, None, text("x86_64")), abort(permission).unwrap());
    let permission = InstallError::Permission { install_root: text("/usr/local") };
    assert_eq!(step(&config, Stage::Start, launched(None, "riscv64")), abort(permission));
}

#[test]
fn launch_accepts_an_empty_elevation_value() {
    let config = Config::standard();
    let (stage, _) = launch(&config, Some(String::new()), text("aarch64"));
    assert_eq!(stage, Stage::Resolving { arch: Arch::Arm64 });
}

#[test]
fn launch_uses_the_configured_addresses() {
    let mut config = Config::standard();
    config.metadata_url = text("http://localhost:8080/catalog");
    config.install_root = text("/opt");
    assert_eq!(
        launch(&config, Some(text("bob")), text("x86_64")).1,
        Action::FetchCatalog { url: text("http://localhost:8080/catalog") }
    );
    assert_eq!(
        launch(&config, None, text("x86_64")).1,
        Action::Abort { error: InstallError::Permission { install_root: text("/opt") } }
    );
}

#[test]
fn resolve_asks_for_the_first_suitable_file() {
    let config = Config::standard();
    let catalog = vec![
        Release {
            files: vec![
                other("go1.22.0.src.tar.gz", "", "", "source"),
                other("go1.22.0.darwin-amd64.tar.gz", "darwin", "amd64", "archive"),
                other("go1.22.0.linux-arm64.tar.gz", "linux", "arm64", "archive"),
                artifact(),
            ],
        },
        Release { files: vec![other("go1.21.7.linux-amd64.tar.gz", "linux", "amd64", "archive")] },
    ];
    assert_eq!(
        resolve(&config, Arch::Amd64, &catalog),
        (
            Stage::Downloading { artifact: artifact() },
            Action::Download {
                url: text("https://go.dev/dl/go1.22.0.linux-amd64.tar.gz"),
                file_name: text("go1.22.0.linux-amd64.tar.gz"),
                size: 116_000_000,
            }
        )
    );
    let (_, action) = resolve(&config, Arch::Arm64, &catalog);
    assert_eq!(
        action,
        Action::Download {
            url: text("https://go.dev/dl/go1.22.0.linux-arm64.tar.gz"),
            file_name: text("go1.22.0.linux-arm64.tar.gz"),
            size: 1,
        }
    );
}

#[test]
fn resolve_without_match_is_not_found() {
    let config = Config::standard();
    let catalog = vec![
        Release { files: vec![other("a", "darwin", "amd64", "archive")] },
        Release { files: vec![other("b", "linux", "amd64", "installer")] },
    ];
    assert_eq!(
        step(&config, Stage::Resolving { arch: Arch::Amd64 }, Event::CatalogFetched { catalog }),
        abort(InstallError::NotFound { os: text("linux"), arch: text("amd64") })
    );
    assert_eq!(
        step(&config, Stage::Resolving { arch: Arch::Arm64 }, Event::CatalogFetched { catalog: vec![] }),
        abort(InstallError::NotFound { os: text("linux"), arch: text("arm64") })
    );
}

#[test]
fn check_archive_passes_matching_content_on_to_installation() {
    let config = Config::standard();
    assert_eq!(
        check_archive(&config, artifact(), ARCHIVE),
        (
            Stage::Probing { artifact: artifact() },
            Action::ProbeTarget { root: text("/usr/local"), dir: text("go") }
        )
    );
    let mut upper = artifact();
    upper.sha256 = ARCHIVE_DIGEST.to_uppercase();
    let (stage, _) = check_archive(&config, upper, ARCHIVE);
    assert!(matches!(stage, Stage::Probing { .. }));
}

#[test]
fn check_archive_aborts_on_other_content() {
    let config = Config::standard();
    assert_eq!(
        check_archive(&config, artifact(), b"archive bytez"),
        abort(InstallError::Integrity {
            expected: text(ARCHIVE_DIGEST),
            computed: text("b9dcd768eaa7236a9fb37aab63d2130cfb5606f1e3ca249d30b1b1c84fa8969f"),
        })
        .unwrap()
    );
}

#[test]
fn announced_digest_of_other_content_is_reported_with_the_computed_one() {
    let config = Config::standard();
    let mut announced = artifact();
    announced.sha256 = "deadbeef".repeat(8);
    assert_eq!(
        step(&config, Stage::Verifying { artifact: announced }, Event::ArchiveRead { content: ARCHIVE.to_vec() }),
        abort(InstallError::Integrity { expected: "deadbeef".repeat(8), computed: text(ARCHIVE_DIGEST) })
    );
}

#[test]
fn present_target_is_removed_before_extraction() {
    let config = Config::standard();
    assert_eq!(
        step(&config, Stage::Probing { artifact: artifact() }, Event::TargetProbed { present: true }),
        Some((
            Stage::Removing { artifact: artifact() },
            Action::RemoveTarget { root: text("/usr/local"), dir: text("go") }
        ))
    );
    assert_eq!(
        step(&config, Stage::Removing { artifact: artifact() }, Event::TargetRemoved),
        Some((
            Stage::Extracting { artifact: artifact() },
            Action::Extract { file_name: text("go1.22.0.linux-amd64.tar.gz"), root: text("/usr/local") }
        ))
    );
}

#[test]
fn absent_target_leads_straight_to_extraction() {
    let config = Config::standard();
    assert_eq!(
        step(&config, Stage::Probing { artifact: artifact() }, Event::TargetProbed { present: false }),
        Some((
            Stage::Extracting { artifact: artifact() },
            Action::Extract { file_name: text("go1.22.0.linux-amd64.tar.gz"), root: text("/usr/local") }
        ))
    );
}

#[test]
fn second_installation_plans_the_same_extraction() {
    let config = Config::standard();
    let first = step(&config, Stage::Probing { artifact: artifact() }, Event::TargetProbed { present: false });
    let (removing, _) =
        step(&config, Stage::Probing { artifact: artifact() }, Event::TargetProbed { present: true }).unwrap();
    let second = step(&config, removing, Event::TargetRemoved);
    assert_eq!(first, second);
}

#[test]
fn failures_abort_with_the_reported_error() {
    let config = Config::standard();
    let a = artifact;
    assert_eq!(step(&config, Stage::Resolving { arch: Arch::Amd64 }, failed(network())), abort(network()));
    assert_eq!(step(&config, Stage::Resolving { arch: Arch::Amd64 }, failed(parse())), abort(parse()));
    assert_eq!(step(&config, Stage::Downloading { artifact: a() }, failed(network())), abort(network()));
    assert_eq!(step(&config, Stage::Downloading { artifact: a() }, failed(io())), abort(io()));
    assert_eq!(step(&config, Stage::Verifying { artifact: a() }, failed(io())), abort(io()));
    assert_eq!(step(&config, Stage::Removing { artifact: a() }, failed(io())), abort(io()));
    assert_eq!(step(&config, Stage::Extracting { artifact: a() }, failed(extraction())), abort(extraction()));
    assert_eq!(step(&config, Stage::Extracting { artifact: a() }, failed(io())), abort(io()));
    assert_eq!(step(&config, Stage::Cleaning, failed(io())), abort(io()));
}

#[test]
fn failures_of_another_stage_are_not_accepted() {
    let config = Config::standard();
    let a = artifact;
    assert_eq!(step(&config, Stage::Start, failed(io())), None);
    assert_eq!(step(&config, Stage::Resolving { arch: Arch::Amd64 }, failed(io())), None);
    assert_eq!(step(&config, Stage::Resolving { arch: Arch::Amd64 }, failed(extraction())), None);
    assert_eq!(step(&config, Stage::Downloading { artifact: a() }, failed(parse())), None);
    assert_eq!(step(&config, Stage::Verifying { artifact: a() }, failed(network())), None);
    assert_eq!(step(&config, Stage::Probing { artifact: a() }, failed(io())), None);
    assert_eq!(step(&config, Stage::Removing { artifact: a() }, failed(extraction())), None);
    assert_eq!(step(&config, Stage::Extracting { artifact: a() }, failed(network())), None);
    assert_eq!(step(&config, Stage::Cleaning, failed(extraction())), None);
    let permission = InstallError::Permission { install_root: text("/usr/local") };
    assert_eq!(step(&config, Stage::Cleaning, failed(permission)), None);
    let unsupported = InstallError::UnsupportedPlatform { arch: text("arm") };
    assert_eq!(step(&config, Stage::Downloading { artifact: a() }, failed(unsupported)), None);
    let not_found = InstallError::NotFound { os: text("linux"), arch: text("amd64") };
    assert_eq!(step(&config, Stage::Resolving { arch: Arch::Amd64 }, failed(not_found)), None);
    let integrity = InstallError::Integrity { expected: text("a"), computed: text("b") };
    assert_eq!(step(&config, Stage::Verifying { artifact: a() }, failed(integrity)), None);
}

#[test]
fn finished_runs_accept_nothing() {
    let config = Config::standard();
    assert_eq!(step(&config, Stage::Done, launched(Some("alice"), "x86_64")), None);
    assert_eq!(step(&config, Stage::Done, Event::ArchiveDeleted), None);
    assert_eq!(step(&config, Stage::Done, failed(io())), None);
    assert_eq!(step(&config, Stage::Failed, launched(Some("alice"), "x86_64")), None);
    assert_eq!(step(&config, Stage::Failed, Event::Downloaded), None);
    assert_eq!(step(&config, Stage::Failed, failed(io())), None);
}

#[test]
fn events_out_of_turn_are_not_accepted() {
    let config = Config::standard();
    let a = artifact;
    assert_eq!(step(&config, Stage::Start, Event::Downloaded), None);
    assert_eq!(step(&config, Stage::Start, Event::CatalogFetched { catalog: vec![] }), None);
    assert_eq!(step(&config, Stage::Resolving { arch: Arch::Amd64 }, launched(Some("a"), "x86_64")), None);
    assert_eq!(step(&config, Stage::Resolving { arch: Arch::Amd64 }, Event::Downloaded), None);
    assert_eq!(step(&config, Stage::Downloading { artifact: a() }, Event::Extracted), None);
    assert_eq!(step(&config, Stage::Downloading { artifact: a() }, Event::ArchiveRead { content: ARCHIVE.to_vec() }), None);
    assert_eq!(step(&config, Stage::Verifying { artifact: a() }, Event::Downloaded), None);
    assert_eq!(step(&config, Stage::Verifying { artifact: a() }, Event::TargetProbed { present: false }), None);
    assert_eq!(step(&config, Stage::Probing { artifact: a() }, Event::TargetRemoved), None);
    assert_eq!(step(&config, Stage::Probing { artifact: a() }, Event::Extracted), None);
    assert_eq!(step(&config, Stage::Removing { artifact: a() }, Event::Extracted), None);
    assert_eq!(step(&config, Stage::Removing { artifact: a() }, Event::TargetProbed { present: false }), None);
    assert_eq!(step(&config, Stage::Extracting { artifact: a() }, Event::TargetRemoved), None);
    assert_eq!(step(&config, Stage::Extracting { artifact: a() }, Event::ArchiveDeleted), None);
    assert_eq!(step(&config, Stage::Cleaning, Event::Extracted), None);
    assert_eq!(step(&config, Stage::Cleaning, launched(Some("a"), "x86_64")), None);
}

fn drive(config: &Config, events: Vec<Event>) -> (Stage, Vec<Action>) {
    let mut stage = Stage::Start;
    let mut actions = Vec::new();
    for event in events {
        let (next, action) = step(config, stage, event).unwrap();
        stage = next;
        actions.push(action);
    }
    (stage, actions)
}

#[test]
fn whole_run_on_x86_64_replaces_an_earlier_installation() {
    let config = Config::standard();
    let name = "go1.22.0.linux-amd64.tar.gz";
    let (stage, actions) = drive(
        &config,
        vec![
            launched(Some("alice"), "x86_64"),
            Event::CatalogFetched { catalog: vec![Release { files: vec![artifact()] }] },
            Event::Downloaded,
            Event::ArchiveRead { content: ARCHIVE.to_vec() },
            Event::TargetProbed { present: true },
            Event::TargetRemoved,
            Event::Extracted,
            Event::ArchiveDeleted,
        ],
    );
    assert_eq!(stage, Stage::Done);
    assert_eq!(
        actions,
        vec![
            Action::FetchCatalog { url: text("https://go.dev/dl/?mode=json") },
            Action::Download {
                url: text("https://go.dev/dl/go1.22.0.linux-amd64.tar.gz"),
                file_name: text(name),
                size: 116_000_000,
            },
            Action::ReadArchive { file_name: text(name) },
            Action::ProbeTarget { root: text("/usr/local"), dir: text("go") },
            Action::RemoveTarget { root: text("/usr/local"), dir: text("go") },
            Action::Extract { file_name: text(name), root: text("/usr/local") },
            Action::DeleteArchive { file_name: text(name) },
            Action::Finish,
        ]
    );
}

#[test]
fn whole_run_asks_for_the_catalog_exactly_once() {
    let config = Config::standard();
    let (_, actions) = drive(
        &config,
        vec![
            launched(Some("alice"), "aarch64"),
            Event::CatalogFetched {
                catalog: vec![Release { files: vec![other("go.tar.gz", "linux", "arm64", "archive")] }],
            },
            Event::Downloaded,
            Event::ArchiveRead { content: ARCHIVE.to_vec() },
        ],
    );
    let fetches = actions.iter().filter(|a| matches!(a, Action::FetchCatalog { .. })).count();
    let downloads = actions.iter().filter(|a| matches!(a, Action::Download { .. })).count();
    assert_eq!(fetches, 1);
    assert_eq!(downloads, 1);
    assert!(matches!(actions[0], Action::FetchCatalog { .. }));
    assert!(matches!(actions[3], Action::Abort { error: InstallError::Integrity { .. } }));
}

#[test]
fn whole_run_without_earlier_installation_skips_the_removal() {
    let config = Config::standard();
    let (stage, actions) = drive(
        &config,
        vec![
            launched(Some("alice"), "x86_64"),
            Event::CatalogFetched { catalog: vec![Release { files: vec![artifact()] }] },
            Event::Downloaded,
            Event::ArchiveRead { content: ARCHIVE.to_vec() },
            Event::TargetProbed { present: false },
            Event::Extracted,
            Event::ArchiveDeleted,
        ],
    );
    assert_eq!(stage, Stage::Done);
    assert_eq!(actions.len(), 7);
    assert!(!actions.iter().any(|a| matches!(a, Action::RemoveTarget { .. })));
    assert_eq!(actions[6], Action::Finish);
}
