//! The order of a run: which action follows which event.
//!
//! A run starts in [`Stage::Start`]. The caller reports an [`Event`], and
//! [`step`] answers with the next stage and the [`Action`] to perform; the
//! outcome of that action is the next event. A run ends with
//! [`Action::Finish`] or [`Action::Abort`].

use crate::catalog::{
    in_catalog, nothing_selected_iff_nothing_suits, select, selected, selected_file_suits, suits,
    FileModel, Release, ReleaseFile,
};
use crate::config::{Config, ConfigModel};
use crate::digest::{sha256, to_hex};
use crate::error::{ErrorModel, InstallError};
use crate::integrity::{digest_matches, verify};
use crate::platform::{arch_of_host, Arch};
use vstd::prelude::*;
use vstd::string::StringExecFns;

verus! {

/// How far a run has come.
#[derive(Debug, PartialEq, Eq)]
pub enum Stage {
    /// Nothing has been done yet.
    Start,
    /// The catalog has been asked for.
    Resolving { arch: Arch },
    /// The chosen file is being downloaded.
    Downloading { artifact: ReleaseFile },
    /// The downloaded archive is being read back for its digest.
    Verifying { artifact: ReleaseFile },
    /// The archive is verified; the target directory is being looked for.
    Probing { artifact: ReleaseFile },
    /// An earlier installation is being removed.
    Removing { artifact: ReleaseFile },
    /// The archive is being unpacked.
    Extracting { artifact: ReleaseFile },
    /// The downloaded archive is being deleted.
    Cleaning,
    /// The installation is complete.
    Done,
    /// The run was abandoned.
    Failed,
}

/// What the caller reports to the pipeline.
#[derive(Debug, PartialEq, Eq)]
pub enum Event {
    /// The process has started: the value of the elevation variable, if it
    /// is set, and the host's name for its architecture.
    Launched { elevation: Option<String>, host_arch: String },
    /// The catalog was fetched and read.
    CatalogFetched { catalog: Vec<Release> },
    /// The file was written to the temporary location.
    Downloaded,
    /// The bytes of the downloaded archive.
    ArchiveRead { content: Vec<u8> },
    /// Whether the target directory exists.
    TargetProbed { present: bool },
    /// The target directory was removed with all it held.
    TargetRemoved,
    /// The archive was unpacked into the install root.
    Extracted,
    /// The downloaded archive was deleted.
    ArchiveDeleted,
    /// The action could not be carried out.
    Failed { error: InstallError },
}

/// What the caller is to do next.
#[derive(Debug, PartialEq, Eq)]
pub enum Action {
    /// Fetch the catalog with one GET request and read it as JSON.
    FetchCatalog { url: String },
    /// Fetch `url` with one GET request into the temporary file `file_name`,
    /// which is expected to grow to `size` bytes.
    Download { url: String, file_name: String, size: u64 },
    /// Read the temporary file `file_name`.
    ReadArchive { file_name: String },
    /// Find out whether the directory `dir` exists below `root`.
    ProbeTarget { root: String, dir: String },
    /// Remove the directory `dir` below `root` with all it holds.
    RemoveTarget { root: String, dir: String },
    /// Unpack the temporary file `file_name` into `root`.
    Extract { file_name: String, root: String },
    /// Delete the temporary file `file_name`.
    DeleteArchive { file_name: String },
    /// Tell the user that the installation is complete.
    Finish,
    /// Show the error and end with a failure status.
    Abort { error: InstallError },
}

/// A [`Stage`] as plain values.
pub enum StageModel {
    Start,
    Resolving { arch: Arch },
    Downloading { artifact: FileModel },
    Verifying { artifact: FileModel },
    Probing { artifact: FileModel },
    Removing { artifact: FileModel },
    Extracting { artifact: FileModel },
    Cleaning,
    Done,
    Failed,
}

/// An [`Event`] as plain values.
pub enum EventModel {
    Launched { elevation: Option<Seq<char>>, host_arch: Seq<char> },
    CatalogFetched { catalog: Seq<Seq<FileModel>> },
    Downloaded,
    ArchiveRead { content: Seq<u8> },
    TargetProbed { present: bool },
    TargetRemoved,
    Extracted,
    ArchiveDeleted,
    Failed { error: ErrorModel },
}

/// An [`Action`] as plain values.
pub enum ActionModel {
    FetchCatalog { url: Seq<char> },
    Download { url: Seq<char>, file_name: Seq<char>, size: u64 },
    ReadArchive { file_name: Seq<char> },
    ProbeTarget { root: Seq<char>, dir: Seq<char> },
    RemoveTarget { root: Seq<char>, dir: Seq<char> },
    Extract { file_name: Seq<char>, root: Seq<char> },
    DeleteArchive { file_name: Seq<char> },
    Finish,
    Abort { error: ErrorModel },
}

impl View for Stage {
    type V = StageModel;

    open spec fn view(&self) -> StageModel {
        match self {
            Stage::Start => StageModel::Start,
            Stage::Resolving { arch } => StageModel::Resolving { arch: *arch },
            Stage::Downloading { artifact } => StageModel::Downloading { artifact: artifact@ },
            Stage::Verifying { artifact } => StageModel::Verifying { artifact: artifact@ },
            Stage::Probing { artifact } => StageModel::Probing { artifact: artifact@ },
            Stage::Removing { artifact } => StageModel::Removing { artifact: artifact@ },
            Stage::Extracting { artifact } => StageModel::Extracting { artifact: artifact@ },
            Stage::Cleaning => StageModel::Cleaning,
            Stage::Done => StageModel::Done,
            Stage::Failed => StageModel::Failed,
        }
    }
}

impl View for Event {
    type V = EventModel;

    open spec fn view(&self) -> EventModel {
        match self {
            Event::Launched { elevation, host_arch } => EventModel::Launched {
                elevation: match elevation {
                    Some(value) => Some(value@),
                    None => None,
                },
                host_arch: host_arch@,
            },
            Event::CatalogFetched { catalog } => EventModel::CatalogFetched {
                catalog: catalog.deep_view(),
            },
            Event::Downloaded => EventModel::Downloaded,
            Event::ArchiveRead { content } => EventModel::ArchiveRead { content: content@ },
            Event::TargetProbed { present } => EventModel::TargetProbed { present: *present },
            Event::TargetRemoved => EventModel::TargetRemoved,
            Event::Extracted => EventModel::Extracted,
            Event::ArchiveDeleted => EventModel::ArchiveDeleted,
            Event::Failed { error } => EventModel::Failed { error: error@ },
        }
    }
}

impl View for Action {
    type V = ActionModel;

    open spec fn view(&self) -> ActionModel {
        match self {
            Action::FetchCatalog { url } => ActionModel::FetchCatalog { url: url@ },
            Action::Download { url, file_name, size } => ActionModel::Download {
                url: url@,
                file_name: file_name@,
                size: *size,
            },
            Action::ReadArchive { file_name } => ActionModel::ReadArchive {
                file_name: file_name@,
            },
            Action::ProbeTarget { root, dir } => ActionModel::ProbeTarget {
                root: root@,
                dir: dir@,
            },
            Action::RemoveTarget { root, dir } => ActionModel::RemoveTarget {
                root: root@,
                dir: dir@,
            },
            Action::Extract { file_name, root } => ActionModel::Extract {
                file_name: file_name@,
                root: root@,
            },
            Action::DeleteArchive { file_name } => ActionModel::DeleteArchive {
                file_name: file_name@,
            },
            Action::Finish => ActionModel::Finish,
            Action::Abort { error } => ActionModel::Abort { error: error@ },
        }
    }
}

/// Whether `event` can be the outcome of the action that led to `stage`.
///
/// A failure is accepted only with an error that the stage's action can
/// end in; a finished run accepts nothing.
pub open spec fn accepts(stage: StageModel, event: EventModel) -> bool {
    match (stage, event) {
        (StageModel::Start, EventModel::Launched { .. }) => true,
        (StageModel::Resolving { .. }, EventModel::CatalogFetched { .. }) => true,
        (StageModel::Resolving { .. }, EventModel::Failed { error }) => error is Network
            || error is Parse,
        (StageModel::Downloading { .. }, EventModel::Downloaded) => true,
        (StageModel::Downloading { .. }, EventModel::Failed { error }) => error is Network
            || error is Io,
        (StageModel::Verifying { .. }, EventModel::ArchiveRead { .. }) => true,
        (StageModel::Verifying { .. }, EventModel::Failed { error }) => error is Io,
        (StageModel::Probing { .. }, EventModel::TargetProbed { .. }) => true,
        (StageModel::Removing { .. }, EventModel::TargetRemoved) => true,
        (StageModel::Removing { .. }, EventModel::Failed { error }) => error is Io,
        (StageModel::Extracting { .. }, EventModel::Extracted) => true,
        (StageModel::Extracting { .. }, EventModel::Failed { error }) => error is Extraction
            || error is Io,
        (StageModel::Cleaning, EventModel::ArchiveDeleted) => true,
        (StageModel::Cleaning, EventModel::Failed { error }) => error is Io,
        _ => false,
    }
}

/// What follows the report that the process has started.
pub open spec fn after_launch(
    config: ConfigModel,
    elevation: Option<Seq<char>>,
    host_arch: Seq<char>,
) -> (StageModel, ActionModel) {
    if elevation is None {
        (
            StageModel::Failed,
            ActionModel::Abort {
                error: ErrorModel::Permission { install_root: config.install_root },
            },
        )
    } else {
        match arch_of_host(host_arch) {
            Some(arch) => (
                StageModel::Resolving { arch },
                ActionModel::FetchCatalog { url: config.metadata_url },
            ),
            None => (
                StageModel::Failed,
                ActionModel::Abort { error: ErrorModel::UnsupportedPlatform { arch: host_arch } },
            ),
        }
    }
}

/// What follows the catalog.
pub open spec fn after_catalog(config: ConfigModel, arch: Arch, catalog: Seq<Seq<FileModel>>) -> (
    StageModel,
    ActionModel,
) {
    match selected(catalog, config.os, arch.identifier_text(), config.kind) {
        Some(artifact) => (
            StageModel::Downloading { artifact },
            ActionModel::Download {
                url: config.download_base + artifact.filename,
                file_name: artifact.filename,
                size: artifact.size,
            },
        ),
        None => (
            StageModel::Failed,
            ActionModel::Abort {
                error: ErrorModel::NotFound { os: config.os, arch: arch.identifier_text() },
            },
        ),
    }
}

/// What follows the archive's digest.
pub open spec fn after_digest(config: ConfigModel, artifact: FileModel, digest: Seq<u8>) -> (
    StageModel,
    ActionModel,
) {
    if digest_matches(artifact.sha256, digest) {
        (
            StageModel::Probing { artifact },
            ActionModel::ProbeTarget { root: config.install_root, dir: config.toolchain_dir },
        )
    } else {
        (
            StageModel::Failed,
            ActionModel::Abort {
                error: ErrorModel::Integrity {
                    expected: artifact.sha256,
                    computed: to_hex(digest),
                },
            },
        )
    }
}

/// The unpacking of the artifact's archive into the install root.
pub open spec fn extraction(config: ConfigModel, artifact: FileModel) -> (
    StageModel,
    ActionModel,
) {
    (
        StageModel::Extracting { artifact },
        ActionModel::Extract { file_name: artifact.filename, root: config.install_root },
    )
}

/// The next stage and the action to perform, for an event that the stage
/// accepts; `None` for any other.
pub open spec fn transition(config: ConfigModel, stage: StageModel, event: EventModel) -> Option<
    (StageModel, ActionModel),
> {
    match (stage, event) {
        (StageModel::Start, EventModel::Launched { elevation, host_arch }) => Some(
            after_launch(config, elevation, host_arch),
        ),
        (StageModel::Resolving { arch }, EventModel::CatalogFetched { catalog }) => Some(
            after_catalog(config, arch, catalog),
        ),
        (StageModel::Downloading { artifact }, EventModel::Downloaded) => Some(
            (
                StageModel::Verifying { artifact },
                ActionModel::ReadArchive { file_name: artifact.filename },
            ),
        ),
        (StageModel::Verifying { artifact }, EventModel::ArchiveRead { content }) => Some(
            after_digest(config, artifact, sha256(content)),
        ),
        (StageModel::Probing { artifact }, EventModel::TargetProbed { present }) => Some(
            if present {
                (
                    StageModel::Removing { artifact },
                    ActionModel::RemoveTarget {
                        root: config.install_root,
                        dir: config.toolchain_dir,
                    },
                )
            } else {
                extraction(config, artifact)
            },
        ),
        (StageModel::Removing { artifact }, EventModel::TargetRemoved) => Some(
            extraction(config, artifact),
        ),
        (StageModel::Extracting { artifact }, EventModel::Extracted) => Some(
            (StageModel::Cleaning, ActionModel::DeleteArchive { file_name: artifact.filename }),
        ),
        (StageModel::Cleaning, EventModel::ArchiveDeleted) => Some(
            (StageModel::Done, ActionModel::Finish),
        ),
        (_, EventModel::Failed { error }) => if accepts(stage, event) {
            Some((StageModel::Failed, ActionModel::Abort { error }))
        } else {
            None
        },
        _ => None,
    }
}

impl InstallError {
    /// Whether the action that leads to `stage` can end in this error.
    fn can_end(&self, stage: &Stage) -> (possible: bool)
        ensures
            possible == accepts(stage@, EventModel::Failed { error: self@ }),
    {
        match (stage, self) {
            (Stage::Resolving { .. }, InstallError::Network { .. }) => true,
            (Stage::Resolving { .. }, InstallError::Parse { .. }) => true,
            (Stage::Downloading { .. }, InstallError::Network { .. }) => true,
            (Stage::Downloading { .. }, InstallError::Io { .. }) => true,
            (Stage::Verifying { .. }, InstallError::Io { .. }) => true,
            (Stage::Removing { .. }, InstallError::Io { .. }) => true,
            (Stage::Extracting { .. }, InstallError::Extraction { .. }) => true,
            (Stage::Extracting { .. }, InstallError::Io { .. }) => true,
            (Stage::Cleaning, InstallError::Io { .. }) => true,
            _ => false,
        }
    }
}

/// Decides what follows the start of the process.
///
/// Without an elevation value the run is abandoned for want of privileges;
/// with one, an unsupported host architecture abandons it, and a supported
/// one leads to the request for the catalog.
pub fn launch(config: &Config, elevation: Option<String>, host_arch: String) -> (next: (
    Stage,
    Action,
))
    ensures
        (next.0@, next.1@) == after_launch(
            config@,
            match elevation {
                Some(value) => Some(value@),
                None => None,
            },
            host_arch@,
        ),
{
    if elevation.is_none() {
        return (
            Stage::Failed,
            Action::Abort {
                error: InstallError::Permission { install_root: config.install_root.clone() },
            },
        );
    }
    match Arch::from_host(host_arch.as_str()) {
        Some(arch) => (
            Stage::Resolving { arch },
            Action::FetchCatalog { url: config.metadata_url.clone() },
        ),
        None => (
            Stage::Failed,
            Action::Abort { error: InstallError::UnsupportedPlatform { arch: host_arch } },
        ),
    }
}

/// Chooses the file to install from the catalog and asks for its download,
/// or abandons the run when no file suits.
pub fn resolve(config: &Config, arch: Arch, catalog: &Vec<Release>) -> (next: (Stage, Action))
    ensures
        (next.0@, next.1@) == after_catalog(config@, arch, catalog.deep_view()),
{
    match select(catalog, config.os.as_str(), arch.identifier(), config.kind.as_str()) {
        Some(file) => {
            let mut url = config.download_base.clone();
            url.append(file.filename.as_str());
            let action = Action::Download {
                url,
                file_name: file.filename.clone(),
                size: file.size,
            };
            (Stage::Downloading { artifact: file.clone() }, action)
        },
        None => (
            Stage::Failed,
            Action::Abort {
                error: InstallError::NotFound {
                    os: config.os.clone(),
                    arch: String::from_str(arch.identifier()),
                },
            },
        ),
    }
}

/// Holds the archive's bytes against the artifact's digest: a match leads to
/// the installation, a mismatch abandons the run with both digests.
pub fn check_archive(config: &Config, artifact: ReleaseFile, content: &[u8]) -> (next: (
    Stage,
    Action,
))
    ensures
        (next.0@, next.1@) == after_digest(config@, artifact@, sha256(content@)),
{
    match verify(artifact.sha256.as_str(), content) {
        Ok(()) => (
            Stage::Probing { artifact },
            Action::ProbeTarget {
                root: config.install_root.clone(),
                dir: config.toolchain_dir.clone(),
            },
        ),
        Err(mismatch) => (
            Stage::Failed,
            Action::Abort {
                error: InstallError::Integrity {
                    expected: mismatch.expected,
                    computed: mismatch.computed,
                },
            },
        ),
    }
}

fn extract(config: &Config, artifact: ReleaseFile) -> (next: (Stage, Action))
    ensures
        (next.0@, next.1@) == extraction(config@, artifact@),
{
    let action = Action::Extract {
        file_name: artifact.filename.clone(),
        root: config.install_root.clone(),
    };
    (Stage::Extracting { artifact }, action)
}

/// Advances a run by one event.
///
/// For an event that the stage accepts, the result is the next stage and the
/// action to perform, as [`transition`] defines them; for any other event it
/// is `None`.
pub fn step(config: &Config, stage: Stage, event: Event) -> (next: Option<(Stage, Action)>)
    ensures
        match next {
            Some((stage_after, action)) => transition(config@, stage@, event@) == Some(
                (stage_after@, action@),
            ),
            None => transition(config@, stage@, event@) is None,
        },
{
    match (stage, event) {
        (Stage::Start, Event::Launched { elevation, host_arch }) => Some(
            launch(config, elevation, host_arch),
        ),
        (Stage::Resolving { arch }, Event::CatalogFetched { catalog }) => Some(
            resolve(config, arch, &catalog),
        ),
        (Stage::Downloading { artifact }, Event::Downloaded) => {
            let action = Action::ReadArchive { file_name: artifact.filename.clone() };
            Some((Stage::Verifying { artifact }, action))
        },
        (Stage::Verifying { artifact }, Event::ArchiveRead { content }) => Some(
            check_archive(config, artifact, content.as_slice()),
        ),
        (Stage::Probing { artifact }, Event::TargetProbed { present }) => {
            if present {
                Some(
                    (
                        Stage::Removing { artifact },
                        Action::RemoveTarget {
                            root: config.install_root.clone(),
                            dir: config.toolchain_dir.clone(),
                        },
                    ),
                )
            } else {
                Some(extract(config, artifact))
            }
        },
        (Stage::Removing { artifact }, Event::TargetRemoved) => Some(extract(config, artifact)),
        (Stage::Extracting { artifact }, Event::Extracted) => Some(
            (Stage::Cleaning, Action::DeleteArchive { file_name: artifact.filename }),
        ),
        (Stage::Cleaning, Event::ArchiveDeleted) => Some((Stage::Done, Action::Finish)),
        (stage, Event::Failed { error }) => {
            if error.can_end(&stage) {
                Some((Stage::Failed, Action::Abort { error }))
            } else {
                None
            }
        },
        _ => None,
    }
}

/// The place of a stage in the order of a run.
pub open spec fn rank(stage: StageModel) -> int {
    match stage {
        StageModel::Start => 0,
        StageModel::Resolving { .. } => 1,
        StageModel::Downloading { .. } => 2,
        StageModel::Verifying { .. } => 3,
        StageModel::Probing { .. } => 4,
        StageModel::Removing { .. } => 5,
        StageModel::Extracting { .. } => 6,
        StageModel::Cleaning => 7,
        StageModel::Done => 8,
        StageModel::Failed => 9,
    }
}

/// The actions of a run that starts in `stage` and is told `events` one
/// after the other; the run stops at the first event that is not accepted.
pub open spec fn actions_of(config: ConfigModel, stage: StageModel, events: Seq<EventModel>) -> Seq<
    ActionModel,
>
    decreases events.len(),
{
    if events.len() == 0 {
        Seq::empty()
    } else {
        match transition(config, stage, events[0]) {
            Some((next, action)) => seq![action] + actions_of(config, next, events.drop_first()),
            None => Seq::empty(),
        }
    }
}

/// An event is answered exactly when the stage accepts it.
pub proof fn answered_iff_accepted(config: ConfigModel, stage: StageModel, event: EventModel)
    ensures
        transition(config, stage, event) is Some <==> accepts(stage, event),
{
}

/// Stages follow each other strictly in sequence: a step leads to the stage
/// that comes next, skips the removal when there is nothing to remove, or
/// abandons the run. It never stays, goes back or starts again.
pub proof fn stages_follow_in_sequence(config: ConfigModel, stage: StageModel, event: EventModel)
    requires
        transition(config, stage, event) is Some,
    ensures
        transition(config, stage, event) matches Some((next, _)) && rank(next) > rank(stage) && (
        next is Failed || rank(next) == rank(stage) + 1 || (stage is Probing
            && next is Extracting)),
{
}

/// A finished run, complete or abandoned, accepts no event.
pub proof fn finished_run_accepts_nothing(config: ConfigModel, event: EventModel)
    ensures
        transition(config, StageModel::Done, event) is None,
        transition(config, StageModel::Failed, event) is None,
{
}

/// Every failure is final: an accepted failure abandons the run with the
/// error that was reported.
pub proof fn failure_ends_run(config: ConfigModel, stage: StageModel, error: ErrorModel)
    requires
        accepts(stage, EventModel::Failed { error }),
    ensures
        transition(config, stage, EventModel::Failed { error }) == Some(
            (StageModel::Failed, ActionModel::Abort { error }),
        ),
{
}

/// A step abandons the run exactly when its action is to abort.
pub proof fn abandoned_iff_aborted(config: ConfigModel, stage: StageModel, event: EventModel)
    ensures
        transition(config, stage, event) matches Some((next, action)) ==> (next is Failed
            <==> action is Abort),
{
}

/// On a supported architecture, with privileges raised, the launch asks for
/// the catalog at the configured address.
pub proof fn supported_launch_requests_catalog(
    config: ConfigModel,
    elevation: Seq<char>,
    host_arch: Seq<char>,
)
    requires
        arch_of_host(host_arch) is Some,
    ensures
        transition(
            config,
            StageModel::Start,
            EventModel::Launched { elevation: Some(elevation), host_arch },
        ) == Some(
            (
                StageModel::Resolving { arch: arch_of_host(host_arch)->0 },
                ActionModel::FetchCatalog { url: config.metadata_url },
            ),
        ),
{
}

/// On an unsupported architecture the launch abandons the run without any
/// request; with privileges raised, the error names the host's architecture.
pub proof fn unsupported_launch_requests_nothing(
    config: ConfigModel,
    elevation: Option<Seq<char>>,
    host_arch: Seq<char>,
)
    requires
        arch_of_host(host_arch) is None,
    ensures
        transition(config, StageModel::Start, EventModel::Launched { elevation, host_arch })
            matches Some((next, action)) && next is Failed && action is Abort,
        elevation is Some ==> transition(
            config,
            StageModel::Start,
            EventModel::Launched { elevation, host_arch },
        ) == Some(
            (
                StageModel::Failed,
                ActionModel::Abort { error: ErrorModel::UnsupportedPlatform { arch: host_arch } },
            ),
        ),
{
}

/// Without raised privileges the launch abandons the run, whatever the
/// architecture.
pub proof fn launch_needs_privileges(config: ConfigModel, host_arch: Seq<char>)
    ensures
        transition(
            config,
            StageModel::Start,
            EventModel::Launched { elevation: None, host_arch },
        ) == Some(
            (
                StageModel::Failed,
                ActionModel::Abort {
                    error: ErrorModel::Permission { install_root: config.install_root },
                },
            ),
        ),
{
}

/// The catalog is asked for only by the launch.
pub proof fn catalog_requested_by_launch_only(
    config: ConfigModel,
    stage: StageModel,
    event: EventModel,
)
    ensures
        transition(config, stage, event) matches Some((_, action)) ==> (action is FetchCatalog
            ==> stage is Start),
{
}

proof fn no_catalog_request_after_start(
    config: ConfigModel,
    stage: StageModel,
    events: Seq<EventModel>,
    i: int,
)
    requires
        !(stage is Start),
        0 <= i < actions_of(config, stage, events).len(),
    ensures
        !(actions_of(config, stage, events)[i] is FetchCatalog),
    decreases events.len(),
{
    let (next, action) = transition(config, stage, events[0])->0;
    stages_follow_in_sequence(config, stage, events[0]);
    if i > 0 {
        no_catalog_request_after_start(config, next, events.drop_first(), i - 1);
    }
}

/// In a whole run the catalog is asked for at most once, as the first
/// action, and exactly once when the run is launched with raised privileges
/// on a supported architecture.
pub proof fn catalog_requested_once(config: ConfigModel, events: Seq<EventModel>)
    ensures
        forall|i: int|
            0 < i < actions_of(config, StageModel::Start, events).len() ==> !(#[trigger] actions_of(
                config,
                StageModel::Start,
                events,
            )[i] is FetchCatalog),
        events.len() > 0 ==> (events[0] matches EventModel::Launched {
            elevation: Some(_),
            host_arch,
        } && arch_of_host(host_arch) is Some <==> actions_of(
            config,
            StageModel::Start,
            events,
        ).len() > 0 && actions_of(config, StageModel::Start, events)[0] is FetchCatalog),
{
    let all = actions_of(config, StageModel::Start, events);
    assert forall|i: int| 0 < i < all.len() implies !(#[trigger] all[i] is FetchCatalog) by {
        let (next, action) = transition(config, StageModel::Start, events[0])->0;
        stages_follow_in_sequence(config, StageModel::Start, events[0]);
        no_catalog_request_after_start(config, next, events.drop_first(), i - 1);
    }
}

/// A download is asked for only for a file of the catalog whose system,
/// architecture and kind are exactly the ones configured and detected, at
/// the download address followed by the file's name.
pub proof fn download_is_for_suitable_file(
    config: ConfigModel,
    arch: Arch,
    catalog: Seq<Seq<FileModel>>,
)
    ensures
        transition(
            config,
            StageModel::Resolving { arch },
            EventModel::CatalogFetched { catalog },
        ) matches Some((next, action)) && (action matches ActionModel::Download {
            url,
            file_name,
            size,
        } ==> {
            &&& next matches StageModel::Downloading { artifact }
            &&& artifact.os == config.os
            &&& artifact.arch == arch.identifier_text()
            &&& artifact.kind == config.kind
            &&& exists|r: int, i: int| in_catalog(catalog, r, i) && #[trigger] catalog[r][i] == artifact
            &&& url == config.download_base + artifact.filename
            &&& file_name == artifact.filename
            &&& size == artifact.size
        }),
{
    selected_file_suits(catalog, config.os, arch.identifier_text(), config.kind);
}

/// A catalog in which no file suits abandons the run with the error that
/// names the system and the architecture; any other catalog leads to a
/// download.
pub proof fn catalog_without_match_is_not_found(
    config: ConfigModel,
    arch: Arch,
    catalog: Seq<Seq<FileModel>>,
)
    ensures
        (forall|r: int, i: int|
            in_catalog(catalog, r, i) ==> !suits(
                #[trigger] catalog[r][i],
                config.os,
                arch.identifier_text(),
                config.kind,
            )) <==> transition(
            config,
            StageModel::Resolving { arch },
            EventModel::CatalogFetched { catalog },
        ) == Some(
            (
                StageModel::Failed,
                ActionModel::Abort {
                    error: ErrorModel::NotFound { os: config.os, arch: arch.identifier_text() },
                },
            ),
        ),
{
    nothing_selected_iff_nothing_suits(catalog, config.os, arch.identifier_text(), config.kind);
}

/// Installation proceeds only for an archive whose SHA-256 digest is the one
/// its catalog entry names: the probing stage is entered from verification
/// alone, and only on a match.
pub proof fn installation_needs_matching_digest(
    config: ConfigModel,
    stage: StageModel,
    event: EventModel,
)
    ensures
        transition(config, stage, event) matches Some((next, _)) ==> (next is Probing ==> {
            &&& stage matches StageModel::Verifying { artifact }
            &&& event matches EventModel::ArchiveRead { content }
            &&& digest_matches(artifact.sha256, sha256(content))
            &&& next == StageModel::Probing { artifact }
        }),
{
}

/// An archive with another digest abandons the run, and the error carries
/// the digest that was announced and the one that was computed.
pub proof fn mismatch_abandons_run(config: ConfigModel, artifact: FileModel, content: Seq<u8>)
    requires
        !digest_matches(artifact.sha256, sha256(content)),
    ensures
        transition(
            config,
            StageModel::Verifying { artifact },
            EventModel::ArchiveRead { content },
        ) == Some(
            (
                StageModel::Failed,
                ActionModel::Abort {
                    error: ErrorModel::Integrity {
                        expected: artifact.sha256,
                        computed: to_hex(sha256(content)),
                    },
                },
            ),
        ),
{
}

/// The archive is unpacked only where the target directory is known to be
/// absent: it was not found, or it has just been removed.
pub proof fn extraction_needs_absent_target(
    config: ConfigModel,
    stage: StageModel,
    event: EventModel,
)
    ensures
        transition(config, stage, event) matches Some((_, action)) ==> (action is Extract ==> (
        stage is Probing && event == EventModel::TargetProbed { present: false }) || (stage
            is Removing && event is TargetRemoved)),
{
}

/// A target directory that exists is removed before anything else, and the
/// run then goes on exactly as if it had never been there.
pub proof fn present_target_is_replaced(config: ConfigModel, artifact: FileModel)
    ensures
        transition(
            config,
            StageModel::Probing { artifact },
            EventModel::TargetProbed { present: true },
        ) == Some(
            (
                StageModel::Removing { artifact },
                ActionModel::RemoveTarget { root: config.install_root, dir: config.toolchain_dir },
            ),
        ),
        transition(config, StageModel::Removing { artifact }, EventModel::TargetRemoved)
            == transition(
            config,
            StageModel::Probing { artifact },
            EventModel::TargetProbed { present: false },
        ),
{
}

} // verus!
