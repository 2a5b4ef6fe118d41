use vstd::prelude::*;
use crate::text::{is_blank, blank};
use crate::url::{url_shape, strip_timestamps, is_valid_url, strip_timestamp_param};
use crate::paths::{
    joined, safe_path, sanitized, media_extension, renamed_path, is_lower_hex, join_path,
    is_safe_path, sanitize_filename, extension_for, file_name_with_extension, renamed_for_collision,
    unique_token,
};
use crate::metadata::{MediaInfo, VideoMetadata, info_title, info_thumbnail, info_duration, opt_view, title_for_file, shape_metadata};
use crate::args::{word_views, metadata_words, download_words, metadata_args, download_args, lemma_audio_download_words};
use crate::text::{last_index, lemma_last_index_bounds};
use crate::paths::last_separator;

verus! {

/// A request to download one media URL.
pub struct DownloadRequest {
    pub url: String,
    pub audio_only: bool,
    /// The destination folder; blank or absent means the user's download folder.
    pub folder_path: Option<String>,
    pub best_quality: bool,
    pub download_subtitles: bool,
    /// The container for video; `mp4` when absent.
    pub preferred_format: Option<String>,
    /// The file name without extension; blank or absent means the media title.
    pub custom_filename: Option<String>,
}

/// The classes of failure of a request.
#[derive(PartialEq, Eq, Structural, Clone, Copy)]
pub enum ErrorKind {
    /// An invalid URL, or a given folder that is not an existing directory.
    Validation,
    /// The tool's binary could not be had.
    Provisioning,
    /// The tool failed to read the media's metadata.
    Extraction,
    /// The tool failed to download, or reported success without the file.
    Download,
    /// A destination that the safety check refuses, or that cannot be made.
    Path,
    /// An event that answered no pending action.
    OutOfOrder,
}

/// A failure, with a message for the user.
pub struct DownloadError {
    pub kind: ErrorKind,
    pub message: String,
}

impl DownloadError {
    /// The message shown to the user.
    pub fn to_message(&self) -> (r: String)
        ensures
            r@ == self.message@,
    {
        self.message.clone()
    }
}

/// Where a download request stands.
#[derive(PartialEq, Eq, Structural, Clone, Copy)]
pub enum FlowPhase {
    /// Waiting to learn whether the given folder is an existing directory.
    CheckingFolder,
    /// Waiting for the user's download folder.
    LocatingDefaultDir,
    /// Waiting to learn whether the download folder is an existing directory.
    CheckingDefaultDir,
    /// Waiting for the tool's binary.
    ResolvingBinary,
    /// Waiting for the media's metadata, to name the file after its title.
    FetchingTitle,
    /// Waiting to learn whether a file is already at the output path.
    CheckingCollision,
    /// Waiting for the tool's download run.
    Downloading,
    /// Waiting to learn whether the output file is on disk.
    Verifying,
    /// Done: the last action holds the outcome.
    Finished,
}

/// One download request on its way from validation to a verified file.
pub struct DownloadFlow {
    pub phase: FlowPhase,
    /// Whether paths follow Windows rules.
    pub windows: bool,
    pub request: DownloadRequest,
    /// The URL without playback timestamps.
    pub url: String,
    /// The destination directory.
    pub dir: String,
    pub binary: String,
    /// The output file name with its extension.
    pub file_name: String,
    pub output: String,
}

pub struct FlowModel {
    pub phase: FlowPhase,
    pub windows: bool,
    pub request: DownloadRequest,
    pub url: Seq<char>,
    pub dir: Seq<char>,
    pub binary: Seq<char>,
    pub file_name: Seq<char>,
    pub output: Seq<char>,
}

impl View for DownloadFlow {
    type V = FlowModel;

    open spec fn view(&self) -> FlowModel {
        FlowModel {
            phase: self.phase,
            windows: self.windows,
            request: self.request,
            url: self.url@,
            dir: self.dir@,
            binary: self.binary@,
            file_name: self.file_name@,
            output: self.output@,
        }
    }
}

/// What a carried-out action found.
pub enum FlowEvent {
    /// Whether the folder is an existing directory.
    FolderChecked(bool),
    /// The user's download folder, if the platform has one.
    DefaultDirFound(Option<String>),
    /// The tool's binary, or why it could not be had.
    BinaryResolved(Result<String, String>),
    /// The media's metadata, or the tool's error text.
    TitleFetched(Result<MediaInfo, String>),
    /// Whether a file is already at the output path.
    PathTaken(bool),
    /// How the tool's download run ended, with its error text on failure.
    ToolFinished(Result<(), String>),
    /// Whether the output file is on disk.
    OutputPresent(bool),
}

/// What to do next.
pub enum FlowAction {
    CheckFolder(String),
    LocateDefaultDir,
    ResolveBinary,
    /// Run the tool for metadata only.
    FetchTitle { url: String, binary: String, args: Vec<String> },
    CheckPath(String),
    /// Run the tool to download.
    RunTool { url: String, binary: String, args: Vec<String> },
    CheckOutput(String),
    /// The path of the downloaded file, or why the request failed.
    Done(Result<String, DownloadError>),
}

pub enum FlowActionModel {
    CheckFolder(Seq<char>),
    LocateDefaultDir,
    ResolveBinary,
    FetchTitle { url: Seq<char>, binary: Seq<char>, args: Seq<Seq<char>> },
    CheckPath(Seq<char>),
    RunTool { url: Seq<char>, binary: Seq<char>, args: Seq<Seq<char>> },
    CheckOutput(Seq<char>),
    Done(Result<Seq<char>, (ErrorKind, Seq<char>)>),
}

impl View for FlowAction {
    type V = FlowActionModel;

    open spec fn view(&self) -> FlowActionModel {
        match self {
            FlowAction::CheckFolder(s) => FlowActionModel::CheckFolder(s@),
            FlowAction::LocateDefaultDir => FlowActionModel::LocateDefaultDir,
            FlowAction::ResolveBinary => FlowActionModel::ResolveBinary,
            FlowAction::FetchTitle { url, binary, args } => FlowActionModel::FetchTitle {
                url: url@,
                binary: binary@,
                args: word_views(args@),
            },
            FlowAction::CheckPath(s) => FlowActionModel::CheckPath(s@),
            FlowAction::RunTool { url, binary, args } => FlowActionModel::RunTool {
                url: url@,
                binary: binary@,
                args: word_views(args@),
            },
            FlowAction::CheckOutput(s) => FlowActionModel::CheckOutput(s@),
            FlowAction::Done(Ok(s)) => FlowActionModel::Done(Ok(s@)),
            FlowAction::Done(Err(e)) => FlowActionModel::Done(Err((e.kind, e.message@))),
        }
    }
}

pub open spec fn fail(kind: ErrorKind, message: Seq<char>) -> FlowActionModel {
    FlowActionModel::Done(Err((kind, message)))
}

pub open spec fn invalid_url_message() -> Seq<char> {
    "有効なURLではありません"@
}

pub open spec fn bad_folder_message() -> Seq<char> {
    "指定されたパスが存在しないか、ディレクトリではありません"@
}

pub open spec fn no_download_dir_message() -> Seq<char> {
    "Error getting download directory"@
}

pub open spec fn bad_download_dir_message() -> Seq<char> {
    "ダウンロードディレクトリが存在しないか、ディレクトリではありません"@
}

/// The refusal of an unsafe output path: one text for a folder that the user
/// gave, another for the default download folder.
pub open spec fn unsafe_path_message(given: bool) -> Seq<char> {
    if given {
        "安全でないパスが指定されました"@
    } else {
        "安全でないパスが生成されました"@
    }
}

pub open spec fn title_failure_message(e: Seq<char>) -> Seq<char> {
    "動画情報の取得に失敗しました: "@ + e
}

pub open spec fn rename_failure_message() -> Seq<char> {
    "ファイル名から拡張子を取得できませんでした"@
}

pub open spec fn download_failure_message(e: Seq<char>) -> Seq<char> {
    "Error downloading video: "@ + e
}

pub open spec fn missing_file_message() -> Seq<char> {
    "ファイルのダウンロードに失敗しました"@
}

pub open spec fn out_of_order_message() -> Seq<char> {
    "an event answered no pending action"@
}

/// The given folder, where one is given and it is not blank.
pub open spec fn given_folder(r: DownloadRequest) -> Option<Seq<char>> {
    match r.folder_path {
        Some(p) => if is_blank(p@) {
            None
        } else {
            Some(p@)
        },
        None => None,
    }
}

/// The custom file name, where one is given and it is not blank.
pub open spec fn given_name(r: DownloadRequest) -> Option<Seq<char>> {
    match r.custom_filename {
        Some(n) => if is_blank(n@) {
            None
        } else {
            Some(n@)
        },
        None => None,
    }
}

/// The output file name: the base made safe, a dot, and the extension.
pub open spec fn output_name(r: DownloadRequest, base: Seq<char>) -> Seq<char> {
    sanitized(base) + seq!['.'] + media_extension(r.audio_only, r.preferred_format)
}

pub open spec fn with_phase(m: FlowModel, p: FlowPhase) -> FlowModel {
    FlowModel { phase: p, ..m }
}

pub open spec fn finish(m: FlowModel, a: FlowActionModel) -> (FlowModel, FlowActionModel) {
    (with_phase(m, FlowPhase::Finished), a)
}

/// The request's first state and action: an invalid URL fails at once;
/// otherwise timestamps leave the URL and the destination folder is checked
/// before anything runs.
pub open spec fn flow_start(r: DownloadRequest, windows: bool) -> (FlowModel, FlowActionModel) {
    let m = FlowModel {
        phase: FlowPhase::Finished,
        windows,
        request: r,
        url: Seq::empty(),
        dir: Seq::empty(),
        binary: Seq::empty(),
        file_name: Seq::empty(),
        output: Seq::empty(),
    };
    if !url_shape(r.url@) {
        (m, fail(ErrorKind::Validation, invalid_url_message()))
    } else {
        let m1 = FlowModel { url: strip_timestamps(r.url@), ..m };
        match given_folder(r) {
            Some(p) => (
                FlowModel { phase: FlowPhase::CheckingFolder, dir: p, ..m1 },
                FlowActionModel::CheckFolder(p),
            ),
            None => (with_phase(m1, FlowPhase::LocatingDefaultDir), FlowActionModel::LocateDefaultDir),
        }
    }
}

/// With the file name known: the path in the destination folder, refused
/// where unsafe, else checked for an existing file.
pub open spec fn place_file(m: FlowModel, name: Seq<char>) -> (FlowModel, FlowActionModel) {
    let full = joined(m.dir, name, m.windows);
    if !safe_path(full, m.windows) {
        finish(
            FlowModel { file_name: name, ..m },
            fail(ErrorKind::Path, unsafe_path_message(given_folder(m.request) is Some)),
        )
    } else {
        (
            FlowModel { phase: FlowPhase::CheckingCollision, file_name: name, output: full, ..m },
            FlowActionModel::CheckPath(full),
        )
    }
}

/// The download run for the output path `out`.
pub open spec fn run_tool(m: FlowModel, out: Seq<char>) -> (FlowModel, FlowActionModel) {
    (
        FlowModel { phase: FlowPhase::Downloading, output: out, ..m },
        FlowActionModel::RunTool {
            url: m.url,
            binary: m.binary,
            args: download_words(
                m.request.audio_only,
                m.request.best_quality,
                m.request.download_subtitles,
                m.request.preferred_format,
                out,
            ),
        },
    )
}

/// The request's rule: the next state and action from the current state and
/// what the pending action found; `token` is the fresh text that goes into the
/// file name when the output path is taken.
pub open spec fn flow_next(m: FlowModel, e: FlowEvent, token: Seq<char>) -> (
    FlowModel,
    FlowActionModel,
) {
    match (m.phase, e) {
        (FlowPhase::CheckingFolder, FlowEvent::FolderChecked(false)) => finish(
            m,
            fail(ErrorKind::Validation, bad_folder_message()),
        ),
        (FlowPhase::LocatingDefaultDir, FlowEvent::DefaultDirFound(None)) => finish(
            m,
            fail(ErrorKind::Path, no_download_dir_message()),
        ),
        (FlowPhase::LocatingDefaultDir, FlowEvent::DefaultDirFound(Some(d))) => (
            FlowModel { phase: FlowPhase::CheckingDefaultDir, dir: d@, ..m },
            FlowActionModel::CheckFolder(d@),
        ),
        (FlowPhase::CheckingDefaultDir, FlowEvent::FolderChecked(false)) => finish(
            m,
            fail(ErrorKind::Path, bad_download_dir_message()),
        ),
        (FlowPhase::CheckingFolder, FlowEvent::FolderChecked(true)) => (
            with_phase(m, FlowPhase::ResolvingBinary),
            FlowActionModel::ResolveBinary,
        ),
        (FlowPhase::CheckingDefaultDir, FlowEvent::FolderChecked(true)) => (
            with_phase(m, FlowPhase::ResolvingBinary),
            FlowActionModel::ResolveBinary,
        ),
        (FlowPhase::ResolvingBinary, FlowEvent::BinaryResolved(Err(x))) => finish(
            m,
            fail(ErrorKind::Provisioning, x@),
        ),
        (FlowPhase::ResolvingBinary, FlowEvent::BinaryResolved(Ok(b))) => {
            let m1 = FlowModel { binary: b@, ..m };
            match given_name(m.request) {
                Some(n) => place_file(m1, output_name(m.request, n)),
                None => (
                    with_phase(m1, FlowPhase::FetchingTitle),
                    FlowActionModel::FetchTitle { url: m.url, binary: b@, args: metadata_words() },
                ),
            }
        },
        (FlowPhase::FetchingTitle, FlowEvent::TitleFetched(Err(x))) => finish(
            m,
            fail(ErrorKind::Extraction, title_failure_message(x@)),
        ),
        (FlowPhase::FetchingTitle, FlowEvent::TitleFetched(Ok(info))) => place_file(
            m,
            output_name(m.request, info_title(info)),
        ),
        (FlowPhase::CheckingCollision, FlowEvent::PathTaken(false)) => run_tool(m, m.output),
        (FlowPhase::CheckingCollision, FlowEvent::PathTaken(true)) => match renamed_path(
            m.output,
            token,
            m.windows,
        ) {
            Some(q) => run_tool(m, q),
            None => finish(m, fail(ErrorKind::Path, rename_failure_message())),
        },
        (FlowPhase::Downloading, FlowEvent::ToolFinished(Err(x))) => finish(
            m,
            fail(ErrorKind::Download, download_failure_message(x@)),
        ),
        (FlowPhase::Downloading, FlowEvent::ToolFinished(Ok(()))) => (
            with_phase(m, FlowPhase::Verifying),
            FlowActionModel::CheckOutput(m.output),
        ),
        (FlowPhase::Verifying, FlowEvent::OutputPresent(true)) => finish(
            m,
            FlowActionModel::Done(Ok(m.output)),
        ),
        (FlowPhase::Verifying, FlowEvent::OutputPresent(false)) => finish(
            m,
            fail(ErrorKind::Download, missing_file_message()),
        ),
        _ => finish(m, fail(ErrorKind::OutOfOrder, out_of_order_message())),
    }
}

fn failure(kind: ErrorKind, message: &str) -> (r: FlowAction)
    ensures
        r@ == fail(kind, message@),
{
    FlowAction::Done(Err(DownloadError { kind, message: String::from_str(message) }))
}

fn failure_with(kind: ErrorKind, prefix: &str, detail: &String) -> (r: FlowAction)
    ensures
        r@ == fail(kind, prefix@ + detail@),
{
    FlowAction::Done(
        Err(DownloadError { kind, message: String::from_str(prefix).concat(detail.as_str()) }),
    )
}

fn given_text(o: &Option<String>) -> (r: Option<String>)
    ensures
        match r {
            Some(s) => *o is Some && s@ == o->0@ && !is_blank(s@),
            None => *o is None || is_blank(o->0@),
        },
{
    match o {
        Some(s) => if blank(s.as_str()) {
            None
        } else {
            Some(s.clone())
        },
        None => None,
    }
}

impl DownloadFlow {
    /// Starts a request by `flow_start`.
    pub fn start(request: DownloadRequest, windows: bool) -> (r: (DownloadFlow, FlowAction))
        ensures
            (r.0@, r.1@) == flow_start(request, windows),
    {
        let valid = is_valid_url(request.url.as_str());
        if !valid {
            let flow = DownloadFlow {
                phase: FlowPhase::Finished,
                windows,
                request,
                url: String::new(),
                dir: String::new(),
                binary: String::new(),
                file_name: String::new(),
                output: String::new(),
            };
            return (flow, failure(ErrorKind::Validation, "有効なURLではありません"));
        }
        let url = strip_timestamp_param(request.url.as_str());
        let folder = given_text(&request.folder_path);
        match folder {
            Some(p) => {
                let a = FlowAction::CheckFolder(p.clone());
                let flow = DownloadFlow {
                    phase: FlowPhase::CheckingFolder,
                    windows,
                    request,
                    url,
                    dir: p,
                    binary: String::new(),
                    file_name: String::new(),
                    output: String::new(),
                };
                (flow, a)
            },
            None => {
                let flow = DownloadFlow {
                    phase: FlowPhase::LocatingDefaultDir,
                    windows,
                    request,
                    url,
                    dir: String::new(),
                    binary: String::new(),
                    file_name: String::new(),
                    output: String::new(),
                };
                (flow, FlowAction::LocateDefaultDir)
            },
        }
    }

    fn output_name_for(&self, base: &str) -> (r: String)
        ensures
            r@ == output_name(self.request, base@),
    {
        let b = sanitize_filename(base);
        let ext = extension_for(self.request.audio_only, &self.request.preferred_format);
        file_name_with_extension(b.as_str(), ext.as_str())
    }

    fn place(&mut self, name: String) -> (r: FlowAction)
        ensures
            (final(self)@, r@) == place_file(old(self)@, name@),
    {
        let full = join_path(self.dir.as_str(), name.as_str(), self.windows);
        self.file_name = name;
        if !is_safe_path(full.as_str(), self.windows) {
            self.phase = FlowPhase::Finished;
            if given_text(&self.request.folder_path).is_some() {
                return failure(ErrorKind::Path, "安全でないパスが指定されました");
            } else {
                return failure(ErrorKind::Path, "安全でないパスが生成されました");
            }
        }
        self.phase = FlowPhase::CheckingCollision;
        let a = FlowAction::CheckPath(full.clone());
        self.output = full;
        a
    }

    fn run(&mut self, out: String) -> (r: FlowAction)
        ensures
            (final(self)@, r@) == run_tool(old(self)@, out@),
    {
        let args = download_args(
            self.request.audio_only,
            self.request.best_quality,
            self.request.download_subtitles,
            &self.request.preferred_format,
            out.as_str(),
        );
        self.phase = FlowPhase::Downloading;
        self.output = out;
        FlowAction::RunTool { url: self.url.clone(), binary: self.binary.clone(), args }
    }

    fn end(&mut self, a: FlowAction) -> (r: FlowAction)
        ensures
            (final(self)@, r@) == finish(old(self)@, a@),
    {
        self.phase = FlowPhase::Finished;
        a
    }

    /// Takes what the pending action found and moves on by `flow_next`, with
    /// `token` as the text that renames a taken output path.
    pub fn step_with_token(&mut self, event: FlowEvent, token: &str) -> (r: FlowAction)
        ensures
            (final(self)@, r@) == flow_next(old(self)@, event, token@),
    {
        match (self.phase, event) {
            (FlowPhase::CheckingFolder, FlowEvent::FolderChecked(false)) => self.end(
                failure(ErrorKind::Validation, "指定されたパスが存在しないか、ディレクトリではありません"),
            ),
            (FlowPhase::LocatingDefaultDir, FlowEvent::DefaultDirFound(None)) => self.end(
                failure(ErrorKind::Path, "Error getting download directory"),
            ),
            (FlowPhase::LocatingDefaultDir, FlowEvent::DefaultDirFound(Some(d))) => {
                self.phase = FlowPhase::CheckingDefaultDir;
                let a = FlowAction::CheckFolder(d.clone());
                self.dir = d;
                a
            },
            (FlowPhase::CheckingDefaultDir, FlowEvent::FolderChecked(false)) => self.end(
                failure(
                    ErrorKind::Path,
                    "ダウンロードディレクトリが存在しないか、ディレクトリではありません",
                ),
            ),
            (FlowPhase::CheckingFolder, FlowEvent::FolderChecked(true)) => {
                self.phase = FlowPhase::ResolvingBinary;
                FlowAction::ResolveBinary
            },
            (FlowPhase::CheckingDefaultDir, FlowEvent::FolderChecked(true)) => {
                self.phase = FlowPhase::ResolvingBinary;
                FlowAction::ResolveBinary
            },
            (FlowPhase::ResolvingBinary, FlowEvent::BinaryResolved(Err(x))) => {
                self.phase = FlowPhase::Finished;
                FlowAction::Done(Err(DownloadError { kind: ErrorKind::Provisioning, message: x }))
            },
            (FlowPhase::ResolvingBinary, FlowEvent::BinaryResolved(Ok(b))) => {
                self.binary = b;
                match given_text(&self.request.custom_filename) {
                    Some(n) => {
                        let name = self.output_name_for(n.as_str());
                        self.place(name)
                    },
                    None => {
                        self.phase = FlowPhase::FetchingTitle;
                        FlowAction::FetchTitle {
                            url: self.url.clone(),
                            binary: self.binary.clone(),
                            args: metadata_args(),
                        }
                    },
                }
            },
            (FlowPhase::FetchingTitle, FlowEvent::TitleFetched(Err(x))) => self.end(
                failure_with(ErrorKind::Extraction, "動画情報の取得に失敗しました: ", &x),
            ),
            (FlowPhase::FetchingTitle, FlowEvent::TitleFetched(Ok(info))) => {
                let base = title_for_file(&info);
                let ext = extension_for(self.request.audio_only, &self.request.preferred_format);
                let name = file_name_with_extension(base.as_str(), ext.as_str());
                self.place(name)
            },
            (FlowPhase::CheckingCollision, FlowEvent::PathTaken(false)) => {
                let out = self.output.clone();
                self.run(out)
            },
            (FlowPhase::CheckingCollision, FlowEvent::PathTaken(true)) => {
                match renamed_for_collision(self.output.as_str(), token, self.windows) {
                    Some(q) => self.run(q),
                    None => self.end(failure(ErrorKind::Path, "ファイル名から拡張子を取得できませんでした")),
                }
            },
            (FlowPhase::Downloading, FlowEvent::ToolFinished(Err(x))) => self.end(
                failure_with(ErrorKind::Download, "Error downloading video: ", &x),
            ),
            (FlowPhase::Downloading, FlowEvent::ToolFinished(Ok(()))) => {
                self.phase = FlowPhase::Verifying;
                FlowAction::CheckOutput(self.output.clone())
            },
            (FlowPhase::Verifying, FlowEvent::OutputPresent(true)) => {
                let a = FlowAction::Done(Ok(self.output.clone()));
                self.end(a)
            },
            (FlowPhase::Verifying, FlowEvent::OutputPresent(false)) => self.end(
                failure(ErrorKind::Download, "ファイルのダウンロードに失敗しました"),
            ),
            _ => self.end(failure(ErrorKind::OutOfOrder, "an event answered no pending action")),
        }
    }

    /// Takes what the pending action found and moves on by `flow_next`; a taken
    /// output path is renamed with a fresh random token of eight lowercase hex
    /// digits.
    pub fn step(&mut self, event: FlowEvent) -> (r: FlowAction)
        ensures
            exists|t: Seq<char>|
                t.len() == 8 && (forall|i: int| 0 <= i < 8 ==> is_lower_hex(#[trigger] t[i]))
                    && (final(self)@, r@) == flow_next(old(self)@, event, t),
    {
        let token = unique_token();
        self.step_with_token(event, token.as_str())
    }
}

/// The URL to query for metadata: refused where it is not an HTTP(S) URL,
/// else stripped of playback timestamps.
pub fn metadata_url(url: &str) -> (r: Result<String, DownloadError>)
    ensures
        url_shape(url@) <==> r is Ok,
        r matches Ok(u) ==> u@ == strip_timestamps(url@),
        r matches Err(e) ==> e.kind == ErrorKind::Validation && e.message@ == invalid_url_message(),
{
    if !is_valid_url(url) {
        return Err(DownloadError { kind: ErrorKind::Validation, message: String::from_str("有効なURLではありません") });
    }
    Ok(strip_timestamp_param(url))
}

/// The metadata for the front-end from the tool's answer: its error text as
/// is, or the shaped metadata.
pub fn metadata_result(answer: Result<MediaInfo, String>) -> (r: Result<VideoMetadata, DownloadError>)
    ensures
        answer is Ok <==> r is Ok,
        r matches Ok(m) ==> m.title@ == info_title(answer->Ok_0) && opt_view(m.thumbnail)
            == info_thumbnail(answer->Ok_0) && opt_view(m.duration) == info_duration(answer->Ok_0),
        r matches Err(e) ==> e.kind == ErrorKind::Extraction && e.message@ == answer->Err_0@,
{
    match answer {
        Ok(info) => Ok(shape_metadata(&info)),
        Err(x) => Err(DownloadError { kind: ErrorKind::Extraction, message: x }),
    }
}

/// A request whose given folder is not an existing directory fails with a
/// validation error at that step, before the tool's binary is resolved or any
/// run of the tool is asked for.
pub proof fn lemma_missing_folder_fails_first(r: DownloadRequest, windows: bool, token: Seq<char>)
    requires
        url_shape(r.url@),
        given_folder(r) is Some,
    ensures
        flow_start(r, windows).1 == FlowActionModel::CheckFolder(given_folder(r)->0),
        flow_start(r, windows).0.phase == FlowPhase::CheckingFolder,
        flow_next(flow_start(r, windows).0, FlowEvent::FolderChecked(false), token).1 == fail(
            ErrorKind::Validation,
            bad_folder_message(),
        ),
        flow_next(flow_start(r, windows).0, FlowEvent::FolderChecked(false), token).0.phase
            == FlowPhase::Finished,
{
}

/// A download that the tool reports as successful, with no file at the output
/// path, ends in a download failure and never in success.
pub proof fn lemma_missing_output_is_failure(m: FlowModel, token: Seq<char>)
    requires
        m.phase == FlowPhase::Verifying,
    ensures
        flow_next(m, FlowEvent::OutputPresent(false), token).1 == fail(
            ErrorKind::Download,
            missing_file_message(),
        ),
        flow_next(m, FlowEvent::OutputPresent(true), token).1 == FlowActionModel::Done(
            Ok(m.output),
        ),
{
}

/// Success is only ever reported from the verifying step, after the tool's run
/// ended well and the output file was seen on disk.
pub proof fn lemma_success_only_after_file_seen(m: FlowModel, e: FlowEvent, token: Seq<char>)
    requires
        flow_next(m, e, token).1 matches FlowActionModel::Done(Ok(_)),
    ensures
        m.phase == FlowPhase::Verifying,
        e == FlowEvent::OutputPresent(true),
{
}

pub open spec fn ends_with(s: Seq<char>, t: Seq<char>) -> bool {
    s.len() >= t.len() && s.skip(s.len() - t.len()) == t
}

pub open spec fn mp3_suffix() -> Seq<char> {
    seq!['.', 'm', 'p', '3']
}

/// For an audio-only request, once an output path is chosen it ends in `.mp3`.
pub open spec fn audio_output_named(m: FlowModel) -> bool {
    (m.request.audio_only && (m.phase == FlowPhase::CheckingCollision || m.phase
        == FlowPhase::Downloading || m.phase == FlowPhase::Verifying)) ==> ends_with(
        m.output,
        mp3_suffix(),
    )
}

/// What an audio-only download run asks of the tool: audio extraction, no
/// video format words before the output path, and `-o` followed by a path that
/// ends in `.mp3`.
pub open spec fn audio_run_words(args: Seq<Seq<char>>) -> bool {
    &&& args.len() >= 2
    &&& args.contains("--extract-audio"@)
    &&& args[args.len() - 2] == "-o"@
    &&& ends_with(args.last(), mp3_suffix())
    &&& forall|i: int|
        0 <= i < args.len() - 1 ==> #[trigger] args[i] != "--merge-output-format"@ && args[i]
            != "--format"@ && args[i] != "bestvideo+bestaudio/best"@
}

proof fn lemma_ends_with_append(a: Seq<char>, b: Seq<char>, t: Seq<char>)
    requires
        ends_with(b, t),
    ensures
        ends_with(a + b, t),
{
    assert((a + b).skip((a + b).len() - t.len()) =~= b.skip(b.len() - t.len()));
}

proof fn lemma_joined_keeps_suffix(dir: Seq<char>, name: Seq<char>, windows: bool, t: Seq<char>)
    requires
        ends_with(name, t),
    ensures
        ends_with(joined(dir, name, windows), t),
{
    if !crate::paths::is_absolute(name, windows) {
        if dir.len() == 0 || crate::paths::is_separator(dir.last(), windows) || (windows
            && crate::paths::bare_drive(dir)) {
            lemma_ends_with_append(dir, name, t);
        } else {
            lemma_ends_with_append(dir + seq![crate::paths::main_separator(windows)], name, t);
            assert(dir + seq![crate::paths::main_separator(windows)] + name =~= (dir + seq![
                crate::paths::main_separator(windows),
            ]) + name);
        }
    }
}

/// A character that is not in the last `t.len()` places of `s` has its last
/// occurrence before them.
proof fn lemma_last_index_before_suffix(s: Seq<char>, t: Seq<char>, c: char)
    requires
        ends_with(s, t),
        forall|j: int| 0 <= j < t.len() ==> t[j] != c,
    ensures
        last_index(s, c) < s.len() - t.len(),
{
    lemma_last_index_bounds(s, c);
    let k = last_index(s, c);
    if k >= s.len() - t.len() {
        assert(s[k] == s.skip(s.len() - t.len())[k - (s.len() - t.len())]);
    }
}

/// Renaming a path that ends in `.mp3` keeps that ending.
proof fn lemma_rename_keeps_mp3(p: Seq<char>, token: Seq<char>, windows: bool)
    requires
        ends_with(p, mp3_suffix()),
        renamed_path(p, token, windows) is Some,
    ensures
        ends_with(renamed_path(p, token, windows)->0, mp3_suffix()),
{
    let t = mp3_suffix();
    lemma_last_index_before_suffix(p, t, '/');
    lemma_last_index_before_suffix(p, t, '\\');
    let s = last_separator(p, windows) + 1;
    lemma_last_index_bounds(p, '/');
    let name = p.skip(s);
    assert(ends_with(name, t)) by {
        assert(name.skip(name.len() - 4) =~= p.skip(p.len() - 4));
    }
    let d = last_index(name, '.');
    lemma_last_index_bounds(name, '.');
    assert(name[name.len() - 4] == name.skip(name.len() - 4)[0]);
    assert(d == name.len() - 4) by {
        if d < name.len() - 4 {
            assert(name[name.len() - 4] != '.');
        }
        if d > name.len() - 4 {
            assert(name[d] == name.skip(name.len() - 4)[d - (name.len() - 4)]);
        }
    }
    assert(name.skip(d) == t);
    assert(t.skip(0) =~= t);
    lemma_ends_with_append(p.take(s) + name.take(d) + seq!['_'] + token, name.skip(d), t);
}

/// An audio-only request names its file with the `.mp3` extension, whatever
/// the base name and preferred container.
pub proof fn lemma_audio_request_file_name(r: DownloadRequest, base: Seq<char>)
    requires
        r.audio_only,
    ensures
        ends_with(output_name(r, base), mp3_suffix()),
{
    reveal_strlit("mp3");
    let n = output_name(r, base);
    assert(n.skip(n.len() - 4) =~= mp3_suffix());
}

/// An audio-only request starts with no output path chosen yet.
pub proof fn lemma_audio_start(r: DownloadRequest, windows: bool)
    ensures
        audio_output_named(flow_start(r, windows).0),
{
}

/// Every step of an audio-only request keeps its output path ending in
/// `.mp3`, and every download run it asks for extracts audio, holds no video
/// format words, and writes to a path ending in `.mp3`, also after a taken
/// path was renamed.
pub proof fn lemma_audio_flow_step(m: FlowModel, e: FlowEvent, token: Seq<char>)
    requires
        m.request.audio_only,
        audio_output_named(m),
    ensures
        audio_output_named(flow_next(m, e, token).0),
        flow_next(m, e, token).1 matches FlowActionModel::RunTool { args, .. } ==> audio_run_words(
            args,
        ),
{
    let r = m.request;
    match (m.phase, e) {
        (FlowPhase::ResolvingBinary, FlowEvent::BinaryResolved(Ok(b))) => {
            match given_name(r) {
                Some(n) => {
                    lemma_audio_request_file_name(r, n);
                    lemma_joined_keeps_suffix(m.dir, output_name(r, n), m.windows, mp3_suffix());
                },
                None => {},
            }
        },
        (FlowPhase::FetchingTitle, FlowEvent::TitleFetched(Ok(info))) => {
            lemma_audio_request_file_name(r, info_title(info));
            lemma_joined_keeps_suffix(m.dir, output_name(r, info_title(info)), m.windows, mp3_suffix());
        },
        (FlowPhase::CheckingCollision, FlowEvent::PathTaken(taken)) => {
            let out = if taken {
                renamed_path(m.output, token, m.windows)
            } else {
                Some(m.output)
            };
            if out is Some {
                let o = out->0;
                if taken {
                    lemma_rename_keeps_mp3(m.output, token, m.windows);
                }
                lemma_audio_download_words(r.best_quality, r.download_subtitles, r.preferred_format, o);
                let w = download_words(true, r.best_quality, r.download_subtitles, r.preferred_format, o);
                assert(w.last() == o);
            }
        },
        _ => {},
    }
}

} // verus!
