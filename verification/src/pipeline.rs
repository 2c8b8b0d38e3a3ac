//! The build orchestrator: one sequential pipeline from the manifest to the
//! finished artifact, as a machine that decides and a driver that acts.
//!
//! The machine never touches the file system. In each state it makes one
//! request; the driver carries the request out and reports what came of it as
//! an event; the machine moves on. A local build and a deployment differ only
//! in their configuration.

use vstd::prelude::*;
use vstd::string::*;
use crate::entry::{
    plan,
    plan_entry,
    planned,
    ArchiveEntry,
    ArchiveEntryModel,
    SourceEntry,
    SourceEntryModel,
};
use crate::error::BuildError;
use crate::manifest::{manifest_of, read_manifest, ManifestModel, ModManifest};
use crate::path::{destination_of, destination_path};
use crate::text::text_view;

verus! {

/// What a path holds at the moment it is probed.
#[derive(Clone, Copy, Debug, PartialEq, Eq, Structural)]
pub enum PathKind {
    Absent,
    File,
    Directory,
    /// Something that is neither a regular file nor a directory.
    Other,
}

/// How the bytes of an entry are stored in the archive.
#[derive(Clone, Copy, Debug, PartialEq, Eq, Structural)]
pub enum Compression {
    Stored,
    Deflated,
}

/// Where a build puts its artifact and what follows it.
#[derive(Debug, PartialEq, Eq)]
pub struct BuildConfig {
    /// The directory that receives the artifact.
    pub destination_dir: String,
    /// The host's path separator.
    pub separator: char,
    /// What to hand to the launch capability after a successful build, if
    /// anything.
    pub launch: Option<String>,
}

/// What a `BuildConfig` stands for.
pub struct ConfigModel {
    pub destination_dir: Seq<char>,
    pub separator: char,
    pub launch: Option<Seq<char>>,
}

impl View for BuildConfig {
    type V = ConfigModel;

    open spec fn view(&self) -> ConfigModel {
        ConfigModel {
            destination_dir: self.destination_dir@,
            separator: self.separator,
            launch: text_view(self.launch),
        }
    }
}

/// The name of the manifest document, which lies in the project root.
pub open spec fn manifest_file_name() -> Seq<char> {
    seq!['i', 'n', 'f', 'o', '.', 'j', 's', 'o', 'n']
}

/// The local cache directory.
pub open spec fn cache_dir() -> Seq<char> {
    crate::filter::cache_dir_name()
}

/// The directory, below the user's home, that holds the application's data.
pub open spec fn application_dir() -> Seq<char> {
    seq!['.', 'f', 'a', 'c', 't', 'o', 'r', 'i', 'o']
}

/// The directory, below the application's, that holds its mods.
pub open spec fn plugin_dir() -> Seq<char> {
    seq!['m', 'o', 'd', 's']
}

/// The identifier by which the application is launched.
pub open spec fn application_uri() -> Seq<char> {
    seq!['s', 't', 'e', 'a', 'm', ':', '/', '/', 'r', 'u', 'n', '/', '4', '2', '7', '5', '2', '0']
}

/// The configuration of a local build.
pub open spec fn local_config(separator: char) -> ConfigModel {
    ConfigModel { destination_dir: cache_dir(), separator, launch: None }
}

/// The configuration of a deployment for the user whose home is `home`.
pub open spec fn deploy_config(home: Seq<char>, separator: char) -> ConfigModel {
    ConfigModel {
        destination_dir: destination_of(
            destination_of(home, application_dir(), separator),
            plugin_dir(),
            separator,
        ),
        separator,
        launch: Some(application_uri()),
    }
}

impl BuildConfig {
    /// A local build: the artifact goes to the cache directory below the
    /// project root, and nothing is launched.
    pub fn local(separator: char) -> (config: BuildConfig)
        ensures
            config@ == local_config(separator),
    {
        proof {
            reveal_strlit("build");
            assert("build"@ =~= cache_dir());
        }
        BuildConfig { destination_dir: "build".to_owned(), separator, launch: None }
    }

    /// A deployment: the artifact goes to the application's plugin directory
    /// below the user's home, and the application is launched afterwards.
    pub fn deploy(home: &str, separator: char) -> (config: BuildConfig)
        ensures
            config@ == deploy_config(home@, separator),
    {
        proof {
            reveal_strlit(".factorio");
            reveal_strlit("mods");
            reveal_strlit("steam://run/427520");
            assert(".factorio"@ =~= application_dir());
            assert("mods"@ =~= plugin_dir());
            assert("steam://run/427520"@ =~= application_uri());
        }
        let application = destination_path(home, ".factorio", separator);
        let plugins = destination_path(application.as_str(), "mods", separator);
        BuildConfig {
            destination_dir: plugins,
            separator,
            launch: Some("steam://run/427520".to_owned()),
        }
    }
}

impl Clone for BuildConfig {
    fn clone(&self) -> (copy: Self)
        ensures
            copy@ == self@,
    {
        let launch = match &self.launch {
            Some(identifier) => Some(identifier.clone()),
            None => None,
        };
        BuildConfig { destination_dir: self.destination_dir.clone(), separator: self.separator, launch }
    }
}

/// The artifact of a finished build: where it lies, and what lay there when
/// the destination was resolved.
#[derive(Debug, PartialEq, Eq)]
pub struct OutputArtifact {
    pub path: String,
    pub replaced: PathKind,
}

/// What an `OutputArtifact` stands for.
pub struct ArtifactModel {
    pub path: Seq<char>,
    pub replaced: PathKind,
}

impl View for OutputArtifact {
    type V = ArtifactModel;

    open spec fn view(&self) -> ArtifactModel {
        ArtifactModel { path: self.path@, replaced: self.replaced }
    }
}

impl Clone for OutputArtifact {
    fn clone(&self) -> (copy: Self)
        ensures
            copy@ == self@,
    {
        OutputArtifact { path: self.path.clone(), replaced: self.replaced }
    }
}

/// How a build ended. A failed launch is reported apart from a failed build:
/// the artifact is there all the same.
#[derive(Debug, PartialEq, Eq)]
pub enum BuildOutcome {
    Built(OutputArtifact),
    BuiltButNotLaunched(OutputArtifact),
    Failed(BuildError),
}

/// What a `BuildOutcome` stands for.
pub enum OutcomeModel {
    Built(ArtifactModel),
    BuiltButNotLaunched(ArtifactModel),
    Failed(BuildError),
}

impl View for BuildOutcome {
    type V = OutcomeModel;

    open spec fn view(&self) -> OutcomeModel {
        match self {
            BuildOutcome::Built(artifact) => OutcomeModel::Built(artifact@),
            BuildOutcome::BuiltButNotLaunched(artifact) => OutcomeModel::BuiltButNotLaunched(
                artifact@,
            ),
            BuildOutcome::Failed(error) => OutcomeModel::Failed(*error),
        }
    }
}

impl OutcomeModel {
    /// The failure that the outcome reports, if any.
    pub open spec fn error(self) -> Option<BuildError> {
        match self {
            OutcomeModel::Built(_) => None,
            OutcomeModel::BuiltButNotLaunched(_) => Some(BuildError::LaunchFailed),
            OutcomeModel::Failed(error) => Some(error),
        }
    }

    /// The artifact that the outcome leaves, if any.
    pub open spec fn artifact(self) -> Option<ArtifactModel> {
        match self {
            OutcomeModel::Built(artifact) => Some(artifact),
            OutcomeModel::BuiltButNotLaunched(artifact) => Some(artifact),
            OutcomeModel::Failed(_) => None,
        }
    }
}

impl BuildOutcome {
    /// The failure that the outcome reports, if any.
    pub fn error(&self) -> (error: Option<BuildError>)
        ensures
            error == self@.error(),
    {
        match self {
            BuildOutcome::Built(_) => None,
            BuildOutcome::BuiltButNotLaunched(_) => Some(BuildError::LaunchFailed),
            BuildOutcome::Failed(error) => Some(*error),
        }
    }

    /// The artifact that the outcome leaves, if any.
    pub fn artifact(&self) -> (artifact: Option<&OutputArtifact>)
        ensures
            match artifact {
                Some(a) => self@.artifact() == Some(a@),
                None => self@.artifact() is None,
            },
    {
        match self {
            BuildOutcome::Built(artifact) => Some(artifact),
            BuildOutcome::BuiltButNotLaunched(artifact) => Some(artifact),
            BuildOutcome::Failed(_) => None,
        }
    }
}

impl Clone for BuildOutcome {
    fn clone(&self) -> (copy: Self)
        ensures
            copy@ == self@,
    {
        match self {
            BuildOutcome::Built(artifact) => BuildOutcome::Built(artifact.clone()),
            BuildOutcome::BuiltButNotLaunched(artifact) => BuildOutcome::BuiltButNotLaunched(
                artifact.clone(),
            ),
            BuildOutcome::Failed(error) => BuildOutcome::Failed(*error),
        }
    }
}

/// What a build knows once the manifest is read.
#[derive(Debug, PartialEq, Eq)]
pub struct Job {
    pub config: BuildConfig,
    pub manifest: ModManifest,
    /// What the destination path held when it was probed; `Absent` before.
    pub replaced: PathKind,
}

/// What a `Job` stands for.
pub struct JobModel {
    pub config: ConfigModel,
    pub manifest: ManifestModel,
    pub replaced: PathKind,
}

impl View for Job {
    type V = JobModel;

    open spec fn view(&self) -> JobModel {
        JobModel { config: self.config@, manifest: self.manifest@, replaced: self.replaced }
    }
}

impl JobModel {
    /// The full path of the artifact.
    pub open spec fn destination(self) -> Seq<char> {
        destination_of(
            self.config.destination_dir,
            self.manifest.artifact_file_name(),
            self.config.separator,
        )
    }

    /// The artifact as a finished build reports it.
    pub open spec fn artifact(self) -> ArtifactModel {
        ArtifactModel { path: self.destination(), replaced: self.replaced }
    }
}

impl Job {
    /// The full path of the artifact.
    pub fn destination(&self) -> (path: String)
        ensures
            path@ == self@.destination(),
    {
        let file_name = self.manifest.artifact_file_name();
        destination_path(self.config.destination_dir.as_str(), file_name.as_str(), self.config.separator)
    }

    /// The artifact as a finished build reports it.
    pub fn artifact(&self) -> (artifact: OutputArtifact)
        ensures
            artifact@ == self@.artifact(),
    {
        OutputArtifact { path: self.destination(), replaced: self.replaced }
    }
}

/// What the driver reports to the machine.
#[derive(Debug, PartialEq, Eq)]
pub enum BuildEvent {
    /// The manifest document could not be opened.
    ManifestUnavailable,
    /// The manifest document was opened and could not be read to its end.
    ManifestUnreadable,
    /// The bytes of the manifest document.
    ManifestLoaded(Vec<u8>),
    /// What a probed path holds.
    Probed(PathKind),
    /// Whether the requested change, write or launch succeeded.
    Completed(bool),
    /// The next entry of the traversal.
    EntryFound(SourceEntry),
    /// The traversal has no further entry.
    WalkFinished,
    /// The traversal could not go on.
    WalkFailed,
}

/// What a `BuildEvent` stands for.
pub enum EventModel {
    ManifestUnavailable,
    ManifestUnreadable,
    ManifestLoaded(Seq<u8>),
    Probed(PathKind),
    Completed(bool),
    EntryFound(SourceEntryModel),
    WalkFinished,
    WalkFailed,
}

impl View for BuildEvent {
    type V = EventModel;

    open spec fn view(&self) -> EventModel {
        match self {
            BuildEvent::ManifestUnavailable => EventModel::ManifestUnavailable,
            BuildEvent::ManifestUnreadable => EventModel::ManifestUnreadable,
            BuildEvent::ManifestLoaded(bytes) => EventModel::ManifestLoaded(bytes@),
            BuildEvent::Probed(kind) => EventModel::Probed(*kind),
            BuildEvent::Completed(ok) => EventModel::Completed(*ok),
            BuildEvent::EntryFound(entry) => EventModel::EntryFound(entry@),
            BuildEvent::WalkFinished => EventModel::WalkFinished,
            BuildEvent::WalkFailed => EventModel::WalkFailed,
        }
    }
}

/// What the machine asks of the driver.
#[derive(Debug, PartialEq, Eq)]
pub enum BuildAction {
    /// Open the manifest document, which lies in the project root under a
    /// fixed name, and read its bytes.
    ReadManifest { path: String },
    /// Report what the destination directory's path holds.
    ProbeDirectory { path: String },
    /// Create the destination directory.
    CreateDirectory { path: String },
    /// Report what the artifact's path holds.
    ProbeArtifact { path: String },
    /// Remove the file at the artifact's path.
    RemoveFile { path: String },
    /// Remove the directory at the artifact's path.
    RemoveDirectory { path: String },
    /// Create the artifact file and open an archive in it.
    CreateArtifact { path: String },
    /// Report the next entry of a depth-first traversal that starts at
    /// `root` and does not descend into what the filter hides from the
    /// artifact named here.
    NextEntry { root: String, artifact_name: String },
    /// Put the entry into the archive: a file with the bytes at its source,
    /// a directory as a bare marker.
    WriteEntry { entry: ArchiveEntry, compression: Compression },
    /// Complete the archive and close the artifact file.
    Finalize,
    /// Start the application.
    Launch { identifier: String },
    /// Nothing is left to do.
    Finish { outcome: BuildOutcome },
}

/// What a `BuildAction` stands for.
pub enum ActionModel {
    ReadManifest { path: Seq<char> },
    ProbeDirectory { path: Seq<char> },
    CreateDirectory { path: Seq<char> },
    ProbeArtifact { path: Seq<char> },
    RemoveFile { path: Seq<char> },
    RemoveDirectory { path: Seq<char> },
    CreateArtifact { path: Seq<char> },
    NextEntry { root: Seq<char>, artifact_name: Seq<char> },
    WriteEntry { entry: ArchiveEntryModel, compression: Compression },
    Finalize,
    Launch { identifier: Seq<char> },
    Finish { outcome: OutcomeModel },
}

impl View for BuildAction {
    type V = ActionModel;

    open spec fn view(&self) -> ActionModel {
        match self {
            BuildAction::ReadManifest { path } => ActionModel::ReadManifest { path: path@ },
            BuildAction::ProbeDirectory { path } => ActionModel::ProbeDirectory { path: path@ },
            BuildAction::CreateDirectory { path } => ActionModel::CreateDirectory { path: path@ },
            BuildAction::ProbeArtifact { path } => ActionModel::ProbeArtifact { path: path@ },
            BuildAction::RemoveFile { path } => ActionModel::RemoveFile { path: path@ },
            BuildAction::RemoveDirectory { path } => ActionModel::RemoveDirectory { path: path@ },
            BuildAction::CreateArtifact { path } => ActionModel::CreateArtifact { path: path@ },
            BuildAction::NextEntry { root, artifact_name } => ActionModel::NextEntry {
                root: root@,
                artifact_name: artifact_name@,
            },
            BuildAction::WriteEntry { entry, compression } => ActionModel::WriteEntry {
                entry: entry@,
                compression: *compression,
            },
            BuildAction::Finalize => ActionModel::Finalize,
            BuildAction::Launch { identifier } => ActionModel::Launch { identifier: identifier@ },
            BuildAction::Finish { outcome } => ActionModel::Finish { outcome: outcome@ },
        }
    }
}

impl ActionModel {
    /// Whether carrying the request out creates, changes or removes anything
    /// on disk.
    pub open spec fn touches_disk(self) -> bool {
        self is CreateDirectory || self is RemoveFile || self is RemoveDirectory
            || self is CreateArtifact || self is WriteEntry || self is Finalize
    }
}

/// The states of a build. Each state but the last waits for the answer to
/// the one request that it makes.
#[derive(Debug, PartialEq, Eq)]
pub enum BuildState {
    ReadingManifest(BuildConfig),
    ProbingDirectory(Job),
    CreatingDirectory(Job),
    ProbingArtifact(Job),
    RemovingStale(Job),
    CreatingArtifact(Job),
    Walking(Job),
    Writing(Job, ArchiveEntry),
    Finalizing(Job),
    Launching(Job, String),
    Finished(BuildOutcome),
}

/// What a `BuildState` stands for.
pub enum StateModel {
    ReadingManifest(ConfigModel),
    ProbingDirectory(JobModel),
    CreatingDirectory(JobModel),
    ProbingArtifact(JobModel),
    RemovingStale(JobModel),
    CreatingArtifact(JobModel),
    Walking(JobModel),
    Writing(JobModel, ArchiveEntryModel),
    Finalizing(JobModel),
    Launching(JobModel, Seq<char>),
    Finished(OutcomeModel),
}

impl View for BuildState {
    type V = StateModel;

    open spec fn view(&self) -> StateModel {
        match self {
            BuildState::ReadingManifest(config) => StateModel::ReadingManifest(config@),
            BuildState::ProbingDirectory(job) => StateModel::ProbingDirectory(job@),
            BuildState::CreatingDirectory(job) => StateModel::CreatingDirectory(job@),
            BuildState::ProbingArtifact(job) => StateModel::ProbingArtifact(job@),
            BuildState::RemovingStale(job) => StateModel::RemovingStale(job@),
            BuildState::CreatingArtifact(job) => StateModel::CreatingArtifact(job@),
            BuildState::Walking(job) => StateModel::Walking(job@),
            BuildState::Writing(job, entry) => StateModel::Writing(job@, entry@),
            BuildState::Finalizing(job) => StateModel::Finalizing(job@),
            BuildState::Launching(job, identifier) => StateModel::Launching(job@, identifier@),
            BuildState::Finished(outcome) => StateModel::Finished(outcome@),
        }
    }
}

/// The state that ends a build in failure.
pub open spec fn failed(error: BuildError) -> StateModel {
    StateModel::Finished(OutcomeModel::Failed(error))
}

/// The state after a request that either succeeds and leads on, or fails
/// and ends the build.
pub open spec fn on_completion(
    state: StateModel,
    event: EventModel,
    next: StateModel,
    error: BuildError,
) -> StateModel {
    match event {
        EventModel::Completed(ok) => if ok {
            next
        } else {
            failed(error)
        },
        _ => state,
    }
}

/// The state in which a build starts.
pub open spec fn begin_spec(config: ConfigModel) -> StateModel {
    StateModel::ReadingManifest(config)
}

/// The request that a state makes.
pub open spec fn request_spec(state: StateModel) -> ActionModel {
    match state {
        StateModel::ReadingManifest(_) => ActionModel::ReadManifest { path: manifest_file_name() },
        StateModel::ProbingDirectory(job) => ActionModel::ProbeDirectory {
            path: job.config.destination_dir,
        },
        StateModel::CreatingDirectory(job) => ActionModel::CreateDirectory {
            path: job.config.destination_dir,
        },
        StateModel::ProbingArtifact(job) => ActionModel::ProbeArtifact { path: job.destination() },
        StateModel::RemovingStale(job) => if job.replaced is Directory {
            ActionModel::RemoveDirectory { path: job.destination() }
        } else {
            ActionModel::RemoveFile { path: job.destination() }
        },
        StateModel::CreatingArtifact(job) => ActionModel::CreateArtifact {
            path: job.destination(),
        },
        StateModel::Walking(job) => ActionModel::NextEntry {
            root: crate::filter::root_marker(),
            artifact_name: job.manifest.artifact_file_name(),
        },
        StateModel::Writing(_, entry) => ActionModel::WriteEntry {
            entry,
            compression: Compression::Deflated,
        },
        StateModel::Finalizing(_) => ActionModel::Finalize,
        StateModel::Launching(_, identifier) => ActionModel::Launch { identifier },
        StateModel::Finished(outcome) => ActionModel::Finish { outcome },
    }
}

/// The state that follows `state` on `event`. An event that does not answer
/// the state's request changes nothing.
pub open spec fn advance_spec(state: StateModel, event: EventModel) -> StateModel {
    match state {
        StateModel::ReadingManifest(config) => match event {
            EventModel::ManifestUnavailable => failed(BuildError::ManifestMissing),
            EventModel::ManifestUnreadable => failed(BuildError::ManifestMalformed),
            EventModel::ManifestLoaded(document) => match manifest_of(document) {
                Ok(manifest) => StateModel::ProbingDirectory(
                    JobModel { config, manifest, replaced: PathKind::Absent },
                ),
                Err(error) => failed(error),
            },
            _ => state,
        },
        StateModel::ProbingDirectory(job) => match event {
            EventModel::Probed(kind) => if kind is Absent {
                StateModel::CreatingDirectory(job)
            } else {
                StateModel::ProbingArtifact(job)
            },
            _ => state,
        },
        StateModel::CreatingDirectory(job) => on_completion(
            state,
            event,
            StateModel::ProbingArtifact(job),
            BuildError::DestinationUnwritable,
        ),
        StateModel::ProbingArtifact(job) => match event {
            EventModel::Probed(kind) => {
                let found = JobModel { replaced: kind, ..job };
                if kind is File || kind is Directory {
                    StateModel::RemovingStale(found)
                } else {
                    StateModel::CreatingArtifact(found)
                }
            },
            _ => state,
        },
        StateModel::RemovingStale(job) => on_completion(
            state,
            event,
            StateModel::CreatingArtifact(job),
            BuildError::StaleArtifactRemovalFailed,
        ),
        StateModel::CreatingArtifact(job) => on_completion(
            state,
            event,
            StateModel::Walking(job),
            BuildError::ArtifactCreateFailed,
        ),
        StateModel::Walking(job) => match event {
            EventModel::EntryFound(entry) => match planned(
                job.manifest,
                entry,
                job.config.separator,
            ) {
                Some(mapped) => StateModel::Writing(job, mapped),
                None => state,
            },
            EventModel::WalkFinished => StateModel::Finalizing(job),
            EventModel::WalkFailed => failed(BuildError::EntryWriteFailed),
            _ => state,
        },
        StateModel::Writing(job, _) => on_completion(
            state,
            event,
            StateModel::Walking(job),
            BuildError::EntryWriteFailed,
        ),
        StateModel::Finalizing(job) => on_completion(
            state,
            event,
            match job.config.launch {
                Some(identifier) => StateModel::Launching(job, identifier),
                None => StateModel::Finished(OutcomeModel::Built(job.artifact())),
            },
            BuildError::ArchiveFinalizeFailed,
        ),
        StateModel::Launching(job, _) => match event {
            EventModel::Completed(ok) => if ok {
                StateModel::Finished(OutcomeModel::Built(job.artifact()))
            } else {
                StateModel::Finished(OutcomeModel::BuiltButNotLaunched(job.artifact()))
            },
            _ => state,
        },
        StateModel::Finished(_) => state,
    }
}

/// Starts a build: the first thing asked for is the manifest.
pub fn begin(config: BuildConfig) -> (state: BuildState)
    ensures
        state@ == begin_spec(config@),
{
    BuildState::ReadingManifest(config)
}

/// Starts a build whose artifact goes to `destination_dir`, with nothing
/// launched after it.
pub fn build_mod(destination_dir: &str, separator: char) -> (state: BuildState)
    ensures
        state@ == begin_spec(
            ConfigModel { destination_dir: destination_dir@, separator, launch: None },
        ),
{
    begin(BuildConfig { destination_dir: destination_dir.to_owned(), separator, launch: None })
}

/// Starts a deployment for the user whose home directory is `home`: a build
/// into the application's plugin directory, and the application launched
/// after it.
pub fn run_mod(home: &str, separator: char) -> (state: BuildState)
    ensures
        state@ == begin_spec(deploy_config(home@, separator)),
{
    begin(BuildConfig::deploy(home, separator))
}

impl BuildState {
    /// The request that the machine makes in this state.
    pub fn request(&self) -> (action: BuildAction)
        ensures
            action@ == request_spec(self@),
    {
        proof {
            reveal_strlit("info.json");
            reveal_strlit(".");
            assert("info.json"@ =~= manifest_file_name());
            assert("."@ =~= crate::filter::root_marker());
        }
        match self {
            BuildState::ReadingManifest(_) => BuildAction::ReadManifest {
                path: "info.json".to_owned(),
            },
            BuildState::ProbingDirectory(job) => BuildAction::ProbeDirectory {
                path: job.config.destination_dir.clone(),
            },
            BuildState::CreatingDirectory(job) => BuildAction::CreateDirectory {
                path: job.config.destination_dir.clone(),
            },
            BuildState::ProbingArtifact(job) => BuildAction::ProbeArtifact {
                path: job.destination(),
            },
            BuildState::RemovingStale(job) => match job.replaced {
                PathKind::Directory => BuildAction::RemoveDirectory { path: job.destination() },
                _ => BuildAction::RemoveFile { path: job.destination() },
            },
            BuildState::CreatingArtifact(job) => BuildAction::CreateArtifact {
                path: job.destination(),
            },
            BuildState::Walking(job) => BuildAction::NextEntry {
                root: ".".to_owned(),
                artifact_name: job.manifest.artifact_file_name(),
            },
            BuildState::Writing(_, entry) => BuildAction::WriteEntry {
                entry: entry.clone(),
                compression: Compression::Deflated,
            },
            BuildState::Finalizing(_) => BuildAction::Finalize,
            BuildState::Launching(_, identifier) => BuildAction::Launch {
                identifier: identifier.clone(),
            },
            BuildState::Finished(outcome) => BuildAction::Finish { outcome: outcome.clone() },
        }
    }

    /// Whether the build has ended.
    pub fn is_finished(&self) -> (r: bool)
        ensures
            r == (self@ is Finished),
    {
        match self {
            BuildState::Finished(_) => true,
            _ => false,
        }
    }

    /// Takes the driver's report and moves to the next state.
    pub fn advance(self, event: BuildEvent) -> (next: BuildState)
        ensures
            next@ == advance_spec(self@, event@),
    {
        match self {
            BuildState::ReadingManifest(config) => match event {
                BuildEvent::ManifestUnavailable => BuildState::Finished(
                    BuildOutcome::Failed(BuildError::ManifestMissing),
                ),
                BuildEvent::ManifestUnreadable => BuildState::Finished(
                    BuildOutcome::Failed(BuildError::ManifestMalformed),
                ),
                BuildEvent::ManifestLoaded(document) => match read_manifest(document.as_slice()) {
                    Ok(manifest) => BuildState::ProbingDirectory(
                        Job { config, manifest, replaced: PathKind::Absent },
                    ),
                    Err(error) => BuildState::Finished(BuildOutcome::Failed(error)),
                },
                _ => BuildState::ReadingManifest(config),
            },
            BuildState::ProbingDirectory(job) => match event {
                BuildEvent::Probed(kind) => match kind {
                    PathKind::Absent => BuildState::CreatingDirectory(job),
                    _ => BuildState::ProbingArtifact(job),
                },
                _ => BuildState::ProbingDirectory(job),
            },
            BuildState::CreatingDirectory(job) => match event {
                BuildEvent::Completed(ok) => if ok {
                    BuildState::ProbingArtifact(job)
                } else {
                    BuildState::Finished(BuildOutcome::Failed(BuildError::DestinationUnwritable))
                },
                _ => BuildState::CreatingDirectory(job),
            },
            BuildState::ProbingArtifact(job) => match event {
                BuildEvent::Probed(kind) => {
                    let found = Job { config: job.config, manifest: job.manifest, replaced: kind };
                    match kind {
                        PathKind::File => BuildState::RemovingStale(found),
                        PathKind::Directory => BuildState::RemovingStale(found),
                        _ => BuildState::CreatingArtifact(found),
                    }
                },
                _ => BuildState::ProbingArtifact(job),
            },
            BuildState::RemovingStale(job) => match event {
                BuildEvent::Completed(ok) => if ok {
                    BuildState::CreatingArtifact(job)
                } else {
                    BuildState::Finished(
                        BuildOutcome::Failed(BuildError::StaleArtifactRemovalFailed),
                    )
                },
                _ => BuildState::RemovingStale(job),
            },
            BuildState::CreatingArtifact(job) => match event {
                BuildEvent::Completed(ok) => if ok {
                    BuildState::Walking(job)
                } else {
                    BuildState::Finished(BuildOutcome::Failed(BuildError::ArtifactCreateFailed))
                },
                _ => BuildState::CreatingArtifact(job),
            },
            BuildState::Walking(job) => match event {
                BuildEvent::EntryFound(entry) => match plan_entry(
                    &job.manifest,
                    &entry,
                    job.config.separator,
                ) {
                    Some(mapped) => BuildState::Writing(job, mapped),
                    None => BuildState::Walking(job),
                },
                BuildEvent::WalkFinished => BuildState::Finalizing(job),
                BuildEvent::WalkFailed => BuildState::Finished(
                    BuildOutcome::Failed(BuildError::EntryWriteFailed),
                ),
                _ => BuildState::Walking(job),
            },
            BuildState::Writing(job, entry) => match event {
                BuildEvent::Completed(ok) => if ok {
                    BuildState::Walking(job)
                } else {
                    BuildState::Finished(BuildOutcome::Failed(BuildError::EntryWriteFailed))
                },
                _ => BuildState::Writing(job, entry),
            },
            BuildState::Finalizing(job) => match event {
                BuildEvent::Completed(ok) => if ok {
                    let identifier = match &job.config.launch {
                        Some(identifier) => Some(identifier.clone()),
                        None => None,
                    };
                    match identifier {
                        Some(identifier) => BuildState::Launching(job, identifier),
                        None => BuildState::Finished(BuildOutcome::Built(job.artifact())),
                    }
                } else {
                    BuildState::Finished(BuildOutcome::Failed(BuildError::ArchiveFinalizeFailed))
                },
                _ => BuildState::Finalizing(job),
            },
            BuildState::Launching(job, identifier) => match event {
                BuildEvent::Completed(ok) => if ok {
                    BuildState::Finished(BuildOutcome::Built(job.artifact()))
                } else {
                    BuildState::Finished(BuildOutcome::BuiltButNotLaunched(job.artifact()))
                },
                _ => BuildState::Launching(job, identifier),
            },
            BuildState::Finished(outcome) => BuildState::Finished(outcome),
        }
    }
}

impl EventModel {
    /// Whether the event brings a manifest document that gives an identity.
    pub open spec fn carries_identity(self) -> bool {
        self matches EventModel::ManifestLoaded(document) && manifest_of(document) is Ok
    }
}

/// The state reached from `state` by a sequence of events.
pub open spec fn run(state: StateModel, events: Seq<EventModel>) -> StateModel
    decreases events.len(),
{
    if events.len() == 0 {
        state
    } else {
        advance_spec(run(state, events.drop_last()), events.last())
    }
}

/// A build fails fast on its manifest. Whatever the driver reports, as long
/// as no report brings a manifest that gives an identity, the build either
/// still waits for the manifest or has ended in one of the manifest failures,
/// and it has never asked for anything that touches the disk.
pub proof fn invalid_manifest_changes_nothing(config: ConfigModel, events: Seq<EventModel>)
    requires
        forall|i: int| 0 <= i < events.len() ==> !(#[trigger] events[i]).carries_identity(),
    ensures
        ({
            let end = run(begin_spec(config), events);
            &&& !request_spec(end).touches_disk()
            &&& end == begin_spec(config) || exists|error: BuildError|
                end == failed(error) && error.is_manifest_failure()
        }),
    decreases events.len(),
{
    if events.len() > 0 {
        let earlier = events.drop_last();
        assert forall|i: int| 0 <= i < earlier.len() implies !(#[trigger] earlier[i]).carries_identity() by {
            assert(earlier[i] == events[i]);
        }
        invalid_manifest_changes_nothing(config, earlier);
        let before = run(begin_spec(config), earlier);
        let end = run(begin_spec(config), events);
        assert(!events[events.len() - 1].carries_identity());
        if before == begin_spec(config) {
            if end != begin_spec(config) {
                let error = end->Finished_0->Failed_0;
                assert(end == failed(error) && error.is_manifest_failure());
            }
        }
    }
}

/// A missing or mistyped field is reported as such, at once: the manifest
/// document is the first thing a build asks for, and a document that lacks
/// `name` or `version` as a string ends the build in `ManifestFieldInvalid`.
pub proof fn missing_field_fails_first(config: ConfigModel, document: Seq<u8>)
    requires
        crate::manifest::json_document(document) matches Some(members) && (
        crate::manifest::member_text(members, crate::manifest::name_key()) is None
            || crate::manifest::member_text(members, crate::manifest::version_key()) is None),
    ensures
        request_spec(begin_spec(config)) == (ActionModel::ReadManifest { path: manifest_file_name() }),
        advance_spec(begin_spec(config), EventModel::ManifestLoaded(document)) == failed(
            BuildError::ManifestFieldInvalid,
        ),
{
}

/// What lies at the destination is removed before the artifact is created.
/// Where the probe finds a file or a directory at the artifact's path, the
/// next request is its removal; the artifact is created at that very path
/// once the removal has succeeded, and the build ends in
/// `StaleArtifactRemovalFailed` where it has not. Where the probe finds
/// nothing to remove, the artifact is created next.
pub proof fn stale_artifact_is_replaced(job: JobModel, kind: PathKind)
    ensures
        ({
            let probing = StateModel::ProbingArtifact(job);
            let probed = advance_spec(probing, EventModel::Probed(kind));
            let path = job.destination();
            let found = JobModel { replaced: kind, ..job };
            &&& request_spec(probing) == ActionModel::ProbeArtifact { path }
            &&& kind is File ==> request_spec(probed) == ActionModel::RemoveFile { path }
            &&& kind is Directory ==> request_spec(probed) == ActionModel::RemoveDirectory { path }
            &&& kind is File || kind is Directory ==> {
                &&& advance_spec(probed, EventModel::Completed(true))
                    == StateModel::CreatingArtifact(found)
                &&& advance_spec(probed, EventModel::Completed(false)) == failed(
                    BuildError::StaleArtifactRemovalFailed,
                )
            }
            &&& kind is Absent || kind is Other ==> probed == StateModel::CreatingArtifact(found)
            &&& request_spec(StateModel::CreatingArtifact(found)) == ActionModel::CreateArtifact {
                path,
            }
        }),
{
}

/// A build that is spared every failure comes to its traversal prepared:
/// the manifest has given the identity, the destination directory is there,
/// created if it was not, the artifact's path is free, freed if it was not,
/// and the artifact file is created. The build then waits for the first
/// entry, and remembers what it found at the artifact's path.
pub proof fn prepared_build_starts_walking(
    config: ConfigModel,
    document: Seq<u8>,
    directory: PathKind,
    artifact: PathKind,
)
    requires
        manifest_of(document) is Ok,
    ensures
        ({
            let manifest = manifest_of(document)->Ok_0;
            let read = advance_spec(begin_spec(config), EventModel::ManifestLoaded(document));
            let resolved = if directory is Absent {
                advance_spec(
                    advance_spec(read, EventModel::Probed(directory)),
                    EventModel::Completed(true),
                )
            } else {
                advance_spec(read, EventModel::Probed(directory))
            };
            let cleared = if artifact is File || artifact is Directory {
                advance_spec(
                    advance_spec(resolved, EventModel::Probed(artifact)),
                    EventModel::Completed(true),
                )
            } else {
                advance_spec(resolved, EventModel::Probed(artifact))
            };
            &&& request_spec(read) == ActionModel::ProbeDirectory { path: config.destination_dir }
            &&& directory is Absent ==> request_spec(
                advance_spec(read, EventModel::Probed(directory)),
            ) == ActionModel::CreateDirectory { path: config.destination_dir }
            &&& resolved == StateModel::ProbingArtifact(
                JobModel { config, manifest, replaced: PathKind::Absent },
            )
            &&& cleared == StateModel::CreatingArtifact(
                JobModel { config, manifest, replaced: artifact },
            )
            &&& advance_spec(cleared, EventModel::Completed(true)) == StateModel::Walking(
                JobModel { config, manifest, replaced: artifact },
            )
        }),
{
}

/// The step at which a build can fail with `error`: the manifest failures
/// come from reading the manifest, and every other failure from the one
/// request that it is named after. No step fails with `LaunchFailed`: a
/// launch that fails leaves a build that is done.
pub open spec fn fails_with(state: StateModel, error: BuildError) -> bool {
    match error {
        BuildError::ManifestMissing => state is ReadingManifest,
        BuildError::ManifestMalformed => state is ReadingManifest,
        BuildError::ManifestFieldInvalid => state is ReadingManifest,
        BuildError::DestinationUnwritable => state is CreatingDirectory,
        BuildError::StaleArtifactRemovalFailed => state is RemovingStale,
        BuildError::ArtifactCreateFailed => state is CreatingArtifact,
        BuildError::EntryWriteFailed => state is Walking || state is Writing,
        BuildError::ArchiveFinalizeFailed => state is Finalizing,
        BuildError::LaunchFailed => false,
    }
}

/// Every failure names the step that failed: a build that an event ends in
/// failure was at the step that the failure belongs to.
pub proof fn failure_names_its_step(state: StateModel, event: EventModel, error: BuildError)
    requires
        !(state is Finished),
        advance_spec(state, event) == failed(error),
    ensures
        fails_with(state, error),
{
}

/// Only a launch that fails ends a build with its artifact and a failure to
/// report, and the failure is then `LaunchFailed`.
pub proof fn artifact_with_failure_is_failed_launch(state: StateModel, event: EventModel)
    requires
        !(state is Finished),
        advance_spec(state, event) matches StateModel::Finished(outcome) && outcome.artifact()
            is Some && outcome.error() is Some,
    ensures
        state matches StateModel::Launching(job, _) && advance_spec(state, event)
            == StateModel::Finished(OutcomeModel::BuiltButNotLaunched(job.artifact())),
        event == EventModel::Completed(false),
{
}

/// A traversal as the machine sees it: the entries are reported one by one
/// to a build that waits for the next entry, and each write that the build
/// asks for is reported as done. The result is the state reached and the
/// entries that the build asked to write, in their order.
pub open spec fn walk(job: JobModel, entries: Seq<SourceEntryModel>) -> (StateModel, Seq<
    ArchiveEntryModel,
>)
    decreases entries.len(),
{
    if entries.len() == 0 {
        (StateModel::Walking(job), Seq::<ArchiveEntryModel>::empty())
    } else {
        let (before, written) = walk(job, entries.drop_last());
        let found = advance_spec(before, EventModel::EntryFound(entries.last()));
        match request_spec(found) {
            ActionModel::WriteEntry { entry, .. } => (
                advance_spec(found, EventModel::Completed(true)),
                written.push(entry),
            ),
            _ => (found, written),
        }
    }
}

/// Over a traversal a build asks to write exactly the plan of the entries
/// reported to it, in their order, and then waits for the next entry with
/// nothing else changed.
pub proof fn walk_writes_the_plan(job: JobModel, entries: Seq<SourceEntryModel>)
    ensures
        walk(job, entries) == (
            StateModel::Walking(job),
            plan(job.manifest, entries, job.config.separator),
        ),
    decreases entries.len(),
{
    if entries.len() > 0 {
        walk_writes_the_plan(job, entries.drop_last());
    }
}

/// A rebuild writes what the build wrote. Two builds of one identity, under
/// one separator, ask to write the same entries over the same traversal,
/// whatever either found at its destination and wherever its artifact goes:
/// nothing of an earlier artifact is carried over.
pub proof fn rebuild_writes_the_same(
    first: JobModel,
    second: JobModel,
    entries: Seq<SourceEntryModel>,
)
    requires
        first.manifest == second.manifest,
        first.config.separator == second.config.separator,
    ensures
        walk(first, entries).1 == walk(second, entries).1,
{
    walk_writes_the_plan(first, entries);
    walk_writes_the_plan(second, entries);
}

/// A build that is spared every failure ends with its artifact. After the
/// traversal the archive is completed; a local build then reports the
/// artifact at the destination path, with what it found there before; a
/// deployment launches the application first, and reports a failed launch
/// apart, with the artifact left as it is.
pub proof fn finished_walk_ends_built(job: JobModel, launched: bool)
    ensures
        ({
            let finalizing = advance_spec(StateModel::Walking(job), EventModel::WalkFinished);
            let done = advance_spec(finalizing, EventModel::Completed(true));
            &&& request_spec(finalizing) == ActionModel::Finalize
            &&& advance_spec(finalizing, EventModel::Completed(false)) == failed(
                BuildError::ArchiveFinalizeFailed,
            )
            &&& job.config.launch is None ==> done == StateModel::Finished(
                OutcomeModel::Built(job.artifact()),
            )
            &&& job.config.launch matches Some(identifier) ==> {
                &&& request_spec(done) == ActionModel::Launch { identifier }
                &&& advance_spec(done, EventModel::Completed(launched)) == StateModel::Finished(
                    if launched {
                        OutcomeModel::Built(job.artifact())
                    } else {
                        OutcomeModel::BuiltButNotLaunched(job.artifact())
                    },
                )
            }
        }),
{
}

/// A build that has ended stays as it is.
pub proof fn finished_is_final(outcome: OutcomeModel, events: Seq<EventModel>)
    ensures
        run(StateModel::Finished(outcome), events) == StateModel::Finished(outcome),
    decreases events.len(),
{
    if events.len() > 0 {
        finished_is_final(outcome, events.drop_last());
    }
}

} // verus!
