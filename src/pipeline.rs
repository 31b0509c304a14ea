use crate::error::{AppError, ErrorKind};
use crate::lifecycle::{aborted, claimed, committed, InstanceState, StateStore};
use crate::settings::{object_key, rendered_config, GameConfigUtil, SaveFileInfo, ServerSettings};
use vstd::prelude::*;

verus! {

/// Where the game server reads its configuration file.
pub const SERVER_CONFIG_PATH: &'static str = "/home/steam/7DaysToDieServer/serverconfig.xml";

/// Where downloaded save archives are kept until they are extracted.
pub const TEMP_DIR: &'static str = "/home/steam/game_master/tmp";

/// The save directory the game server loads its world from.
pub const SAVE_DIR: &'static str = "/home/steam/.local/share/7DaysToDie/Saves/Navezgane/MyGame";

/// The directory a save archive is extracted into; the archive's top-level
/// folder becomes `SAVE_DIR`.
pub const SAVE_PARENT_DIR: &'static str = "/home/steam/.local/share/7DaysToDie/Saves/Navezgane";

/// Which configuration and which save to start the game server with.
#[derive(Clone, Copy, Debug, PartialEq, Eq, Structural)]
pub struct ProvisionRequest {
    pub serverconfig_id: i32,
    pub save_file_id: i32,
}

/// The steps of a start, in the order they run.
#[derive(Clone, Copy, Debug, PartialEq, Eq, Structural)]
pub enum Stage {
    FetchSettings,
    WriteConfig,
    FetchDescriptor,
    Download,
    ClearSaveDir,
    Extract,
    Spawn,
}

/// The outside work a start asks its driver to do next.
#[derive(Debug)]
pub enum Action {
    FetchSettings { serverconfig_id: i32 },
    WriteConfig { path: String, text: String },
    FetchDescriptor { save_file_id: i32 },
    Download { host: String, bucket: String, key: String, path: String },
    ClearSaveDir { path: String },
    Extract { archive_path: String, dest: String },
    Spawn,
}

/// The values of an `Action`.
pub enum ActionView {
    FetchSettings { serverconfig_id: i32 },
    WriteConfig { path: Seq<char>, text: Seq<char> },
    FetchDescriptor { save_file_id: i32 },
    Download { host: Seq<char>, bucket: Seq<char>, key: Seq<char>, path: Seq<char> },
    ClearSaveDir { path: Seq<char> },
    Extract { archive_path: Seq<char>, dest: Seq<char> },
    Spawn,
}

impl View for Action {
    type V = ActionView;

    open spec fn view(&self) -> ActionView {
        match self {
            Action::FetchSettings { serverconfig_id } => ActionView::FetchSettings {
                serverconfig_id: *serverconfig_id,
            },
            Action::WriteConfig { path, text } => ActionView::WriteConfig {
                path: path@,
                text: text@,
            },
            Action::FetchDescriptor { save_file_id } => ActionView::FetchDescriptor {
                save_file_id: *save_file_id,
            },
            Action::Download { host, bucket, key, path } => ActionView::Download {
                host: host@,
                bucket: bucket@,
                key: key@,
                path: path@,
            },
            Action::ClearSaveDir { path } => ActionView::ClearSaveDir { path: path@ },
            Action::Extract { archive_path, dest } => ActionView::Extract {
                archive_path: archive_path@,
                dest: dest@,
            },
            Action::Spawn => ActionView::Spawn,
        }
    }
}

/// What came of the last action.
#[derive(Debug)]
pub enum Outcome {
    SettingsFetched(ServerSettings),
    ConfigWritten,
    DescriptorFetched(SaveFileInfo),
    Downloaded,
    SaveDirCleared,
    Extracted,
    Spawned(u32),
    Failed(String),
}

/// A start in progress: it holds the claim on the state store until it
/// commits or aborts.
#[derive(Debug)]
pub struct StartRun {
    stage: Stage,
    request: ProvisionRequest,
    archive_path: String,
}

/// The values of a `StartRun`.
pub struct RunView {
    pub stage: Stage,
    pub request: ProvisionRequest,
    pub archive_path: Seq<char>,
}

impl View for StartRun {
    type V = RunView;

    closed spec fn view(&self) -> RunView {
        RunView { stage: self.stage, request: self.request, archive_path: self.archive_path@ }
    }
}

/// Where a start stands after an outcome.
#[derive(Debug)]
pub enum Progress {
    /// Perform the action, then advance the run with its outcome.
    Next(StartRun, Action),
    /// The process runs under this pid and the store says so.
    Started(u32),
    /// The start failed and the claim was given up.
    Failed(AppError),
}

/// The error kind that a failure at each stage is reported as.
pub open spec fn stage_error_kind(stage: Stage) -> ErrorKind {
    match stage {
        Stage::FetchSettings => ErrorKind::ConfigFetchFailed,
        Stage::WriteConfig => ErrorKind::ConfigWriteFailed,
        Stage::FetchDescriptor => ErrorKind::DescriptorFetchFailed,
        Stage::Download => ErrorKind::DownloadFailed,
        Stage::ClearSaveDir => ErrorKind::ExtractFailed,
        Stage::Extract => ErrorKind::ExtractFailed,
        Stage::Spawn => ErrorKind::SpawnFailed,
    }
}

/// Whether `outcome` is the success of the action issued at `stage`.
pub open spec fn answers(stage: Stage, outcome: Outcome) -> bool {
    match stage {
        Stage::FetchSettings => outcome is SettingsFetched,
        Stage::WriteConfig => outcome is ConfigWritten,
        Stage::FetchDescriptor => outcome is DescriptorFetched,
        Stage::Download => outcome is Downloaded,
        Stage::ClearSaveDir => outcome is SaveDirCleared,
        Stage::Extract => outcome is Extracted,
        Stage::Spawn => outcome is Spawned,
    }
}

/// The local path a save archive named `name` is downloaded to.
pub open spec fn temp_archive_path(name: Seq<char>) -> Seq<char> {
    TEMP_DIR@ + "/"@ + name
}

/// `r` goes on at `stage` with action `action`, keeping the request and
/// recording `archive_path`.
pub open spec fn goes_on(
    r: Progress,
    request: ProvisionRequest,
    stage: Stage,
    archive_path: Seq<char>,
    action: ActionView,
) -> bool {
    r matches Progress::Next(run, a) && run@ == (RunView { stage, request, archive_path }) && a@
        == action
}

/// `r` is a failure of kind `kind`.
pub open spec fn fails_with(r: Progress, kind: ErrorKind) -> bool {
    r matches Progress::Failed(e) && e.spec_kind() == kind
}

fn temp_archive_path_of(name: &String) -> (r: String)
    ensures
        r@ == temp_archive_path(name@),
{
    let mut path = String::from_str(TEMP_DIR);
    path.append("/");
    path.append(name.as_str());
    path
}

fn stage_error(stage: Stage, message: String) -> (r: AppError)
    ensures
        r.spec_kind() == stage_error_kind(stage),
        r.spec_message() == message@,
{
    let kind = match stage {
        Stage::FetchSettings => ErrorKind::ConfigFetchFailed,
        Stage::WriteConfig => ErrorKind::ConfigWriteFailed,
        Stage::FetchDescriptor => ErrorKind::DescriptorFetchFailed,
        Stage::Download => ErrorKind::DownloadFailed,
        Stage::ClearSaveDir => ErrorKind::ExtractFailed,
        Stage::Extract => ErrorKind::ExtractFailed,
        Stage::Spawn => ErrorKind::SpawnFailed,
    };
    AppError::new(kind, message)
}

impl StartRun {
    /// The step whose outcome the run waits for.
    pub fn stage(&self) -> (r: Stage)
        ensures
            r == self@.stage,
    {
        self.stage
    }

    /// Claims the store for a start. An active instance makes it fail with
    /// `AlreadyRunning`, leaving the store as it was and asking for no work.
    pub fn begin(store: &mut StateStore, request: ProvisionRequest) -> (r: Result<
        (StartRun, Action),
        AppError,
    >)
        ensures
            r is Ok <==> old(store)@ is Idle,
            final(store)@ == claimed(old(store)@),
            r is Ok ==> r->Ok_0.0@ == (RunView {
                stage: Stage::FetchSettings,
                request,
                archive_path: Seq::empty(),
            }),
            r is Ok ==> r->Ok_0.1@ == (ActionView::FetchSettings {
                serverconfig_id: request.serverconfig_id,
            }),
            r is Err ==> r->Err_0.spec_kind() == ErrorKind::AlreadyRunning,
    {
        match store.claim() {
            Ok(()) => {
                let run = StartRun { stage: Stage::FetchSettings, request, archive_path: String::new() };
                Ok((run, Action::FetchSettings { serverconfig_id: request.serverconfig_id }))
            },
            Err(e) => Err(e),
        }
    }

    /// Takes the outcome of the last action. A failure, or an outcome that
    /// does not answer the current step, gives up the claim and reports the
    /// step's error kind. A success moves to the next step; the spawned
    /// process's pid is committed to the store.
    pub fn advance(self, store: &mut StateStore, outcome: Outcome) -> (r: Progress)
        requires
            old(store)@ is Provisioning,
        ensures
            !answers(self@.stage, outcome) ==> fails_with(r, stage_error_kind(self@.stage))
                && final(store)@ == aborted(old(store)@),
            outcome matches Outcome::Failed(m) ==> r matches Progress::Failed(e)
                && e.spec_message() == m@,
            self@.stage is FetchSettings ==> (outcome matches Outcome::SettingsFetched(s) ==> goes_on(
                r,
                self@.request,
                Stage::WriteConfig,
                self@.archive_path,
                ActionView::WriteConfig { path: SERVER_CONFIG_PATH@, text: rendered_config(s@) },
            ) && final(store)@ == old(store)@),
            self@.stage is WriteConfig && outcome is ConfigWritten ==> goes_on(
                r,
                self@.request,
                Stage::FetchDescriptor,
                self@.archive_path,
                ActionView::FetchDescriptor { save_file_id: self@.request.save_file_id },
            ) && final(store)@ == old(store)@,
            self@.stage is FetchDescriptor ==> (outcome matches Outcome::DescriptorFetched(info)
                ==> goes_on(
                r,
                self@.request,
                Stage::Download,
                temp_archive_path(info.name@),
                ActionView::Download {
                    host: info.host@,
                    bucket: info.bucket_name@,
                    key: object_key(&info),
                    path: temp_archive_path(info.name@),
                },
            ) && final(store)@ == old(store)@),
            self@.stage is Download && outcome is Downloaded ==> goes_on(
                r,
                self@.request,
                Stage::ClearSaveDir,
                self@.archive_path,
                ActionView::ClearSaveDir { path: SAVE_DIR@ },
            ) && final(store)@ == old(store)@,
            self@.stage is ClearSaveDir && outcome is SaveDirCleared ==> goes_on(
                r,
                self@.request,
                Stage::Extract,
                self@.archive_path,
                ActionView::Extract { archive_path: self@.archive_path, dest: SAVE_PARENT_DIR@ },
            ) && final(store)@ == old(store)@,
            self@.stage is Extract && outcome is Extracted ==> goes_on(
                r,
                self@.request,
                Stage::Spawn,
                self@.archive_path,
                ActionView::Spawn,
            ) && final(store)@ == old(store)@,
            self@.stage is Spawn ==> (outcome matches Outcome::Spawned(pid) ==> r
                == Progress::Started(pid) && final(store)@ == committed(old(store)@, pid)),
    {
        let stage = self.stage;
        let request = self.request;
        match outcome {
            Outcome::SettingsFetched(settings) if stage == Stage::FetchSettings => {
                match GameConfigUtil::new().render(&settings) {
                    Ok(text) => {
                        let run = StartRun { stage: Stage::WriteConfig, request, archive_path: self.archive_path };
                        let path = String::from_str(SERVER_CONFIG_PATH);
                        Progress::Next(run, Action::WriteConfig { path, text })
                    },
                    Err(e) => {
                        store.abort();
                        Progress::Failed(e)
                    },
                }
            },
            Outcome::ConfigWritten if stage == Stage::WriteConfig => {
                let run = StartRun { stage: Stage::FetchDescriptor, request, archive_path: self.archive_path };
                Progress::Next(run, Action::FetchDescriptor { save_file_id: request.save_file_id })
            },
            Outcome::DescriptorFetched(info) if stage == Stage::FetchDescriptor => {
                let path = temp_archive_path_of(&info.name);
                let key = info.object_key();
                let run = StartRun { stage: Stage::Download, request, archive_path: path.clone() };
                Progress::Next(
                    run,
                    Action::Download { host: info.host, bucket: info.bucket_name, key, path },
                )
            },
            Outcome::Downloaded if stage == Stage::Download => {
                let run = StartRun { stage: Stage::ClearSaveDir, request, archive_path: self.archive_path };
                Progress::Next(run, Action::ClearSaveDir { path: String::from_str(SAVE_DIR) })
            },
            Outcome::SaveDirCleared if stage == Stage::ClearSaveDir => {
                let archive_path = self.archive_path.clone();
                let run = StartRun { stage: Stage::Extract, request, archive_path: self.archive_path };
                let dest = String::from_str(SAVE_PARENT_DIR);
                Progress::Next(run, Action::Extract { archive_path, dest })
            },
            Outcome::Extracted if stage == Stage::Extract => {
                let run = StartRun { stage: Stage::Spawn, request, archive_path: self.archive_path };
                Progress::Next(run, Action::Spawn)
            },
            Outcome::Spawned(pid) if stage == Stage::Spawn => {
                store.commit(pid);
                Progress::Started(pid)
            },
            Outcome::Failed(message) => {
                store.abort();
                Progress::Failed(stage_error(stage, message))
            },
            _ => {
                store.abort();
                Progress::Failed(stage_error(stage, String::from_str("the outcome does not answer the current step")))
            },
        }
    }
}

} // verus!
