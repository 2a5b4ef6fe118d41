use vstd::prelude::*;
use crate::paths::{joined, join_path};

verus! {

/// Where the resolver of the tool's binary stands.
#[derive(PartialEq, Eq, Structural, Clone, Copy)]
pub enum ResolverPhase {
    /// Waiting for the platform's data directory.
    Locating,
    /// Waiting for the application directory to exist.
    CreatingDir,
    /// Waiting to learn whether the binary is on disk.
    Checking,
    /// Waiting for the first download of the binary.
    Downloading,
    /// Waiting for the downloaded binary to be made executable.
    SettingPermissions,
    /// Waiting for the binary's version query.
    Verifying,
    /// Waiting for a stale binary to be removed.
    Removing,
    /// Waiting for the one download that replaces a stale binary.
    Redownloading,
    /// Waiting for the replacement to be made executable.
    SettingPermissionsAgain,
    /// Done: the last action holds the outcome.
    Finished,
}

/// Resolves the path of the external tool's binary, kept in an
/// application-owned data directory. Each step takes what the previous action
/// found and names the next action to carry out.
pub struct BinaryResolver {
    pub phase: ResolverPhase,
    /// Whether the binary is a Windows one: it then has an `.exe` name and needs
    /// no permission bits.
    pub windows: bool,
    pub dir: String,
    pub binary: String,
    pub fetched: String,
}

pub struct ResolverModel {
    pub phase: ResolverPhase,
    pub windows: bool,
    pub dir: Seq<char>,
    pub binary: Seq<char>,
    pub fetched: Seq<char>,
}

impl View for BinaryResolver {
    type V = ResolverModel;

    open spec fn view(&self) -> ResolverModel {
        ResolverModel {
            phase: self.phase,
            windows: self.windows,
            dir: self.dir@,
            binary: self.binary@,
            fetched: self.fetched@,
        }
    }
}

/// What a carried-out action found.
pub enum ResolverEvent {
    /// The platform's data directory, if it has one.
    DataDir(Option<String>),
    /// The application directory exists now, or could not be made.
    DirReady(Result<(), String>),
    /// Whether the binary is on disk.
    Exists(bool),
    /// Where a download put the binary, or why it failed.
    Downloaded(Result<String, String>),
    /// Whether the binary was made executable.
    PermissionsSet(Result<(), PermissionFailure>),
    /// Whether the binary answered its version query with success.
    VersionOk(bool),
    /// The stale binary was removed, or the removal failed; either way the
    /// resolver goes on.
    Removed,
}

/// Which part of making the binary executable failed, with the system's text.
pub enum PermissionFailure {
    /// Reading the file's metadata.
    ReadMetadata(String),
    /// Writing its permission bits.
    SetMode(String),
}

/// What to do next.
pub enum ResolverAction {
    LocateDataDir,
    CreateDir(String),
    CheckExists(String),
    Download(String),
    SetExecutable(String),
    CheckVersion(String),
    RemoveBinary(String),
    /// The binary's path, or why none could be had.
    Done(Result<String, String>),
}

pub enum ActionModel {
    LocateDataDir,
    CreateDir(Seq<char>),
    CheckExists(Seq<char>),
    Download(Seq<char>),
    SetExecutable(Seq<char>),
    CheckVersion(Seq<char>),
    RemoveBinary(Seq<char>),
    Done(Result<Seq<char>, Seq<char>>),
}

impl View for ResolverAction {
    type V = ActionModel;

    open spec fn view(&self) -> ActionModel {
        match self {
            ResolverAction::LocateDataDir => ActionModel::LocateDataDir,
            ResolverAction::CreateDir(s) => ActionModel::CreateDir(s@),
            ResolverAction::CheckExists(s) => ActionModel::CheckExists(s@),
            ResolverAction::Download(s) => ActionModel::Download(s@),
            ResolverAction::SetExecutable(s) => ActionModel::SetExecutable(s@),
            ResolverAction::CheckVersion(s) => ActionModel::CheckVersion(s@),
            ResolverAction::RemoveBinary(s) => ActionModel::RemoveBinary(s@),
            ResolverAction::Done(Ok(s)) => ActionModel::Done(Ok(s@)),
            ResolverAction::Done(Err(s)) => ActionModel::Done(Err(s@)),
        }
    }
}

pub open spec fn app_dir_name() -> Seq<char> {
    "my-video-downloader"@
}

pub open spec fn binary_name(windows: bool) -> Seq<char> {
    if windows {
        "yt-dlp.exe"@
    } else {
        "yt-dlp"@
    }
}

pub open spec fn no_data_dir_message() -> Seq<char> {
    "アプリケーションデータディレクトリの取得に失敗しました"@
}

pub open spec fn create_dir_message(e: Seq<char>) -> Seq<char> {
    "ディレクトリの作成に失敗しました: "@ + e
}

pub open spec fn download_message(e: Seq<char>) -> Seq<char> {
    "yt-dlpバイナリのダウンロードに失敗しました: "@ + e
}

pub open spec fn permissions_message(f: PermissionFailure) -> Seq<char> {
    match f {
        PermissionFailure::ReadMetadata(e) => "メタデータの取得に失敗しました: "@ + e@,
        PermissionFailure::SetMode(e) => "権限の設定に失敗しました: "@ + e@,
    }
}

pub open spec fn finished_message() -> Seq<char> {
    "the resolver has already finished"@
}

pub open spec fn with_phase(m: ResolverModel, p: ResolverPhase) -> ResolverModel {
    ResolverModel { phase: p, ..m }
}

/// The resolver's rule: the next state and action, from the current state and
/// what the pending action found. A missing binary is downloaded once; a
/// present one that fails its version query is removed and downloaded once
/// more, and if that download fails the old path is handed back all the same.
/// Outside Windows a downloaded binary is made executable; a failure there
/// ends the first download in an error and is passed over after a replacement.
/// An event that does not answer the pending action changes nothing.
pub open spec fn resolver_next(m: ResolverModel, e: ResolverEvent) -> (ResolverModel, ActionModel) {
    match (m.phase, e) {
        (ResolverPhase::Locating, ResolverEvent::DataDir(None)) => (
            with_phase(m, ResolverPhase::Finished),
            ActionModel::Done(Err(no_data_dir_message())),
        ),
        (ResolverPhase::Locating, ResolverEvent::DataDir(Some(d))) => {
            let dir = joined(d@, app_dir_name(), m.windows);
            let binary = joined(dir, binary_name(m.windows), m.windows);
            (
                ResolverModel { phase: ResolverPhase::CreatingDir, dir, binary, ..m },
                ActionModel::CreateDir(dir),
            )
        },
        (ResolverPhase::CreatingDir, ResolverEvent::DirReady(Err(x))) => (
            with_phase(m, ResolverPhase::Finished),
            ActionModel::Done(Err(create_dir_message(x@))),
        ),
        (ResolverPhase::CreatingDir, ResolverEvent::DirReady(Ok(()))) => (
            with_phase(m, ResolverPhase::Checking),
            ActionModel::CheckExists(m.binary),
        ),
        (ResolverPhase::Checking, ResolverEvent::Exists(false)) => (
            with_phase(m, ResolverPhase::Downloading),
            ActionModel::Download(m.dir),
        ),
        (ResolverPhase::Checking, ResolverEvent::Exists(true)) => (
            with_phase(m, ResolverPhase::Verifying),
            ActionModel::CheckVersion(m.binary),
        ),
        (ResolverPhase::Downloading, ResolverEvent::Downloaded(Err(x))) => (
            with_phase(m, ResolverPhase::Finished),
            ActionModel::Done(Err(download_message(x@))),
        ),
        (ResolverPhase::Downloading, ResolverEvent::Downloaded(Ok(p))) => if m.windows {
            (
                ResolverModel { phase: ResolverPhase::Finished, fetched: p@, ..m },
                ActionModel::Done(Ok(p@)),
            )
        } else {
            (
                ResolverModel { phase: ResolverPhase::SettingPermissions, fetched: p@, ..m },
                ActionModel::SetExecutable(p@),
            )
        },
        (ResolverPhase::SettingPermissions, ResolverEvent::PermissionsSet(Err(x))) => (
            with_phase(m, ResolverPhase::Finished),
            ActionModel::Done(Err(permissions_message(x))),
        ),
        (ResolverPhase::SettingPermissions, ResolverEvent::PermissionsSet(Ok(()))) => (
            with_phase(m, ResolverPhase::Finished),
            ActionModel::Done(Ok(m.fetched)),
        ),
        (ResolverPhase::Verifying, ResolverEvent::VersionOk(true)) => (
            with_phase(m, ResolverPhase::Finished),
            ActionModel::Done(Ok(m.binary)),
        ),
        (ResolverPhase::Verifying, ResolverEvent::VersionOk(false)) => (
            with_phase(m, ResolverPhase::Removing),
            ActionModel::RemoveBinary(m.binary),
        ),
        (ResolverPhase::Removing, ResolverEvent::Removed) => (
            with_phase(m, ResolverPhase::Redownloading),
            ActionModel::Download(m.dir),
        ),
        (ResolverPhase::Redownloading, ResolverEvent::Downloaded(Err(_))) => (
            with_phase(m, ResolverPhase::Finished),
            ActionModel::Done(Ok(m.binary)),
        ),
        (ResolverPhase::Redownloading, ResolverEvent::Downloaded(Ok(p))) => if m.windows {
            (
                ResolverModel { phase: ResolverPhase::Finished, fetched: p@, ..m },
                ActionModel::Done(Ok(p@)),
            )
        } else {
            (
                ResolverModel { phase: ResolverPhase::SettingPermissionsAgain, fetched: p@, ..m },
                ActionModel::SetExecutable(p@),
            )
        },
        (ResolverPhase::SettingPermissionsAgain, ResolverEvent::PermissionsSet(_)) => (
            with_phase(m, ResolverPhase::Finished),
            ActionModel::Done(Ok(m.fetched)),
        ),
        _ => (m, pending_action(m)),
    }
}

/// The action that a state waits on; a finished resolver has none left and
/// answers any further event with an error.
pub open spec fn pending_action(m: ResolverModel) -> ActionModel {
    match m.phase {
        ResolverPhase::Locating => ActionModel::LocateDataDir,
        ResolverPhase::CreatingDir => ActionModel::CreateDir(m.dir),
        ResolverPhase::Checking => ActionModel::CheckExists(m.binary),
        ResolverPhase::Downloading => ActionModel::Download(m.dir),
        ResolverPhase::SettingPermissions => ActionModel::SetExecutable(m.fetched),
        ResolverPhase::Verifying => ActionModel::CheckVersion(m.binary),
        ResolverPhase::Removing => ActionModel::RemoveBinary(m.binary),
        ResolverPhase::Redownloading => ActionModel::Download(m.dir),
        ResolverPhase::SettingPermissionsAgain => ActionModel::SetExecutable(m.fetched),
        ResolverPhase::Finished => ActionModel::Done(Err(finished_message())),
    }
}

/// Once the replacement of a stale binary has been downloaded or has failed,
/// no further download is asked for, and the resolution ends with a path: the
/// replacement's, or the old one where the replacement failed.
pub proof fn lemma_single_replacement(m: ResolverModel, e: ResolverEvent)
    requires
        (m.phase == ResolverPhase::Redownloading && (e is Downloaded)) || m.phase
            == ResolverPhase::SettingPermissionsAgain,
    ensures
        !(resolver_next(m, e).1 is Download),
        resolver_next(m, e).0.phase == m.phase || resolver_next(m, e).0.phase
            == ResolverPhase::SettingPermissionsAgain || resolver_next(m, e).0.phase
            == ResolverPhase::Finished,
        resolver_next(m, e).1 is Done ==> resolver_next(m, e).1 matches ActionModel::Done(Ok(_)),
        (m.phase == ResolverPhase::Redownloading && (e matches ResolverEvent::Downloaded(Err(_))))
            ==> resolver_next(m, e).1 == ActionModel::Done(Ok(m.binary)),
{
}

fn concat_message(prefix: &str, detail: &String) -> (r: String)
    ensures
        r@ == prefix@ + detail@,
{
    String::from_str(prefix).concat(detail.as_str())
}

impl BinaryResolver {
    /// A resolver at its start, and its first action: look up the data directory.
    pub fn new(windows: bool) -> (r: (BinaryResolver, ResolverAction))
        ensures
            r.0@.phase == ResolverPhase::Locating,
            r.0@.windows == windows,
            r.1@ == ActionModel::LocateDataDir,
    {
        (
            BinaryResolver {
                phase: ResolverPhase::Locating,
                windows,
                dir: String::new(),
                binary: String::new(),
                fetched: String::new(),
            },
            ResolverAction::LocateDataDir,
        )
    }

    fn pending(&self) -> (r: ResolverAction)
        ensures
            r@ == pending_action(self@),
    {
        match self.phase {
            ResolverPhase::Locating => ResolverAction::LocateDataDir,
            ResolverPhase::CreatingDir => ResolverAction::CreateDir(self.dir.clone()),
            ResolverPhase::Checking => ResolverAction::CheckExists(self.binary.clone()),
            ResolverPhase::Downloading => ResolverAction::Download(self.dir.clone()),
            ResolverPhase::SettingPermissions => ResolverAction::SetExecutable(self.fetched.clone()),
            ResolverPhase::Verifying => ResolverAction::CheckVersion(self.binary.clone()),
            ResolverPhase::Removing => ResolverAction::RemoveBinary(self.binary.clone()),
            ResolverPhase::Redownloading => ResolverAction::Download(self.dir.clone()),
            ResolverPhase::SettingPermissionsAgain => ResolverAction::SetExecutable(
                self.fetched.clone(),
            ),
            ResolverPhase::Finished => ResolverAction::Done(
                Err(String::from_str("the resolver has already finished")),
            ),
        }
    }

    /// Takes what the pending action found and moves on by `resolver_next`.
    pub fn step(&mut self, event: ResolverEvent) -> (r: ResolverAction)
        ensures
            (final(self)@, r@) == resolver_next(old(self)@, event),
    {
        match (self.phase, event) {
            (ResolverPhase::Locating, ResolverEvent::DataDir(None)) => {
                self.phase = ResolverPhase::Finished;
                ResolverAction::Done(Err(String::from_str("アプリケーションデータディレクトリの取得に失敗しました")))
            },
            (ResolverPhase::Locating, ResolverEvent::DataDir(Some(d))) => {
                let dir = join_path(d.as_str(), "my-video-downloader", self.windows);
                let name = if self.windows {
                    "yt-dlp.exe"
                } else {
                    "yt-dlp"
                };
                let binary = join_path(dir.as_str(), name, self.windows);
                self.phase = ResolverPhase::CreatingDir;
                self.binary = binary;
                let a = ResolverAction::CreateDir(dir.clone());
                self.dir = dir;
                a
            },
            (ResolverPhase::CreatingDir, ResolverEvent::DirReady(Err(x))) => {
                self.phase = ResolverPhase::Finished;
                ResolverAction::Done(Err(concat_message("ディレクトリの作成に失敗しました: ", &x)))
            },
            (ResolverPhase::CreatingDir, ResolverEvent::DirReady(Ok(()))) => {
                self.phase = ResolverPhase::Checking;
                ResolverAction::CheckExists(self.binary.clone())
            },
            (ResolverPhase::Checking, ResolverEvent::Exists(false)) => {
                self.phase = ResolverPhase::Downloading;
                ResolverAction::Download(self.dir.clone())
            },
            (ResolverPhase::Checking, ResolverEvent::Exists(true)) => {
                self.phase = ResolverPhase::Verifying;
                ResolverAction::CheckVersion(self.binary.clone())
            },
            (ResolverPhase::Downloading, ResolverEvent::Downloaded(Err(x))) => {
                self.phase = ResolverPhase::Finished;
                ResolverAction::Done(Err(concat_message("yt-dlpバイナリのダウンロードに失敗しました: ", &x)))
            },
            (ResolverPhase::Downloading, ResolverEvent::Downloaded(Ok(p))) => {
                self.fetched = p.clone();
                if self.windows {
                    self.phase = ResolverPhase::Finished;
                    ResolverAction::Done(Ok(p))
                } else {
                    self.phase = ResolverPhase::SettingPermissions;
                    ResolverAction::SetExecutable(p)
                }
            },
            (ResolverPhase::SettingPermissions, ResolverEvent::PermissionsSet(Err(x))) => {
                self.phase = ResolverPhase::Finished;
                ResolverAction::Done(Err(match x {
                    PermissionFailure::ReadMetadata(e) => concat_message("メタデータの取得に失敗しました: ", &e),
                    PermissionFailure::SetMode(e) => concat_message("権限の設定に失敗しました: ", &e),
                }))
            },
            (ResolverPhase::SettingPermissions, ResolverEvent::PermissionsSet(Ok(()))) => {
                self.phase = ResolverPhase::Finished;
                ResolverAction::Done(Ok(self.fetched.clone()))
            },
            (ResolverPhase::Verifying, ResolverEvent::VersionOk(true)) => {
                self.phase = ResolverPhase::Finished;
                ResolverAction::Done(Ok(self.binary.clone()))
            },
            (ResolverPhase::Verifying, ResolverEvent::VersionOk(false)) => {
                self.phase = ResolverPhase::Removing;
                ResolverAction::RemoveBinary(self.binary.clone())
            },
            (ResolverPhase::Removing, ResolverEvent::Removed) => {
                self.phase = ResolverPhase::Redownloading;
                ResolverAction::Download(self.dir.clone())
            },
            (ResolverPhase::Redownloading, ResolverEvent::Downloaded(Err(_))) => {
                self.phase = ResolverPhase::Finished;
                ResolverAction::Done(Ok(self.binary.clone()))
            },
            (ResolverPhase::Redownloading, ResolverEvent::Downloaded(Ok(p))) => {
                self.fetched = p.clone();
                if self.windows {
                    self.phase = ResolverPhase::Finished;
                    ResolverAction::Done(Ok(p))
                } else {
                    self.phase = ResolverPhase::SettingPermissionsAgain;
                    ResolverAction::SetExecutable(p)
                }
            },
            (ResolverPhase::SettingPermissionsAgain, ResolverEvent::PermissionsSet(_)) => {
                self.phase = ResolverPhase::Finished;
                ResolverAction::Done(Ok(self.fetched.clone()))
            },
            _ => self.pending(),
        }
    }
}

} // verus!
