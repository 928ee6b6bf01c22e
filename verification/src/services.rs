//! Looking for updates and fetching them: the order of versions, the
//! decision whether a release is offered, and the life of a transfer.

use vstd::prelude::*;
use vstd::string::StringExecFns;
use crate::config::{config_document, AppConfig, ConfigView, UpdateView};
use crate::json::pretty_json;
use crate::config_manager::ConfigManager;
use crate::http::{is_success, is_success_status};
use crate::models::{FileInfo, StorageInfo};
use crate::text::{
    chars_of, optional_text, split, split_bounds, substring,
};
use crate::utils::{format_size, format_size_spec};
use crate::version::{compare_versions_spec, VersionTuple};

verus! {

/// The name under which an installer is stored when its address names
/// none: when nothing follows its last slash.
pub const DEFAULT_INSTALLER_NAME: &'static str = "FilmTrack-Setup.exe";

/// What the update feed says of the latest release.
#[derive(Clone, Debug, PartialEq, Eq)]
pub struct UpdateInfo {
    pub version: String,
    pub download_url: String,
    pub release_notes: String,
    pub publish_date: String,
}

/// `UpdateInfo`, as mathematics sees it.
pub struct UpdateInfoView {
    pub version: Seq<char>,
    pub download_url: Seq<char>,
    pub release_notes: Seq<char>,
    pub publish_date: Seq<char>,
}

impl View for UpdateInfo {
    type V = UpdateInfoView;

    open spec fn view(&self) -> UpdateInfoView {
        UpdateInfoView {
            version: self.version@,
            download_url: self.download_url@,
            release_notes: self.release_notes@,
            publish_date: self.publish_date@,
        }
    }
}

/// Whether a release is offered to the user, and which.
#[derive(Clone, Debug, PartialEq, Eq)]
pub struct UpdateCheckResult {
    pub has_update: bool,
    pub version: Option<String>,
    pub download_url: Option<String>,
    pub release_notes: Option<String>,
    pub publish_date: Option<String>,
}

/// `UpdateCheckResult`, as mathematics sees it.
pub struct UpdateCheckView {
    pub has_update: bool,
    pub version: Option<Seq<char>>,
    pub download_url: Option<Seq<char>>,
    pub release_notes: Option<Seq<char>>,
    pub publish_date: Option<Seq<char>>,
}

impl View for UpdateCheckResult {
    type V = UpdateCheckView;

    open spec fn view(&self) -> UpdateCheckView {
        UpdateCheckView {
            has_update: self.has_update,
            version: optional_text(self.version),
            download_url: optional_text(self.download_url),
            release_notes: optional_text(self.release_notes),
            publish_date: optional_text(self.publish_date),
        }
    }
}

/// The release `remote` is later than the running version `local`.
pub open spec fn has_update(remote: Seq<char>, local: Seq<char>) -> bool {
    compare_versions_spec(remote, local) > 0
}

/// The user has set the release `remote` aside: it is, letter for letter,
/// the version that they chose to ignore.
pub open spec fn is_ignored(remote: Seq<char>, ignored: Option<Seq<char>>) -> bool {
    match ignored {
        Some(v) => remote == v,
        None => false,
    }
}

/// The answer that offers nothing.
pub open spec fn no_update() -> UpdateCheckView {
    UpdateCheckView {
        has_update: false,
        version: None,
        download_url: None,
        release_notes: None,
        publish_date: None,
    }
}

/// The answer to a check: the release of the feed is offered where it is
/// later than the running version and the user has not set it aside;
/// nothing is offered otherwise.
pub open spec fn update_decision(
    info: UpdateInfoView,
    current: Seq<char>,
    ignored: Option<Seq<char>>,
) -> UpdateCheckView {
    if has_update(info.version, current) && !is_ignored(info.version, ignored) {
        UpdateCheckView {
            has_update: true,
            version: Some(info.version),
            download_url: Some(info.download_url),
            release_notes: Some(info.release_notes),
            publish_date: Some(info.publish_date),
        }
    } else {
        no_update()
    }
}

/// The file name of the installer behind `url`: what follows the last
/// slash of the address, and the stand-in name where nothing follows it.
pub open spec fn installer_filename(url: Seq<char>) -> Seq<char> {
    let pieces = split(url, '/');
    if pieces.len() > 0 && pieces.last().len() > 0 {
        pieces.last()
    } else {
        DEFAULT_INSTALLER_NAME@
    }
}

/// Where a transfer stands.
#[derive(Clone, Copy, Debug, PartialEq, Eq, Structural)]
pub enum TransferState {
    /// No transfer was asked for yet.
    Idle,
    /// A transfer is under way.
    Running,
    /// The file is there, fetched now or found in place.
    Completed,
    /// The transfer broke off on an error.
    Failed,
    /// The transfer was called off.
    Cancelled,
}

/// Why a transfer broke off.
#[derive(Clone, Copy, Debug, PartialEq, Eq, Structural)]
pub enum TransferError {
    /// The server answered with a status that is no success.
    Status(u16),
    /// A chunk could not be received.
    Transport,
}

/// How far a transfer has come.
#[derive(Clone, Debug, PartialEq, Eq)]
pub struct DownloadProgress {
    /// Bytes received so far.
    pub downloaded: u64,
    /// Bytes in all, 0 where the server did not say.
    pub total: u64,
    /// Whole percent received, 0 where the total is unknown.
    pub percentage: u64,
    /// The average rate since the start, for display.
    pub speed: String,
}

/// `DownloadProgress`, as mathematics sees it.
pub struct ProgressView {
    pub downloaded: u64,
    pub total: u64,
    pub percentage: u64,
    pub speed: Seq<char>,
}

impl View for DownloadProgress {
    type V = ProgressView;

    open spec fn view(&self) -> ProgressView {
        ProgressView {
            downloaded: self.downloaded,
            total: self.total,
            percentage: self.percentage,
            speed: self.speed@,
        }
    }
}

/// What the caller is to do after an event.
#[derive(Clone, Debug, PartialEq, Eq)]
pub enum TransferAction {
    /// Hand out the file that is already in place. Nothing is fetched.
    UseExisting,
    /// Send the request for the file.
    SendRequest,
    /// Create the destination file and start reading the body.
    CreateFile,
    /// Write the chunk to the file, then report the progress.
    WriteChunk(DownloadProgress),
    /// Delete the partly written file and report the cancellation.
    RemovePartial,
    /// Report the error. The file stays as it is.
    Fail(TransferError),
    /// Hand out the finished file.
    Finish,
    /// Nothing: the event does not belong to the state.
    Ignore,
}

/// `TransferAction`, as mathematics sees it.
pub enum ActionView {
    UseExisting,
    SendRequest,
    CreateFile,
    WriteChunk(ProgressView),
    RemovePartial,
    Fail(TransferError),
    Finish,
    Ignore,
}

impl View for TransferAction {
    type V = ActionView;

    open spec fn view(&self) -> ActionView {
        match self {
            TransferAction::UseExisting => ActionView::UseExisting,
            TransferAction::SendRequest => ActionView::SendRequest,
            TransferAction::CreateFile => ActionView::CreateFile,
            TransferAction::WriteChunk(p) => ActionView::WriteChunk(p@),
            TransferAction::RemovePartial => ActionView::RemovePartial,
            TransferAction::Fail(e) => ActionView::Fail(*e),
            TransferAction::Finish => ActionView::Finish,
            TransferAction::Ignore => ActionView::Ignore,
        }
    }
}

/// The one transfer of the application.
#[derive(Clone, Debug, PartialEq, Eq)]
pub struct TransferJob {
    pub state: TransferState,
    /// The address that the file is fetched from.
    pub url: String,
    /// The file name of the destination, which follows from the address.
    pub filename: String,
    /// Bytes received so far.
    pub downloaded: u64,
    /// Bytes in all, 0 where the server did not say.
    pub total: u64,
    /// Set by `cancel_download`; looked at before each chunk is written.
    pub cancelled: bool,
}

/// `TransferJob`, as mathematics sees it.
pub struct JobView {
    pub state: TransferState,
    pub url: Seq<char>,
    pub filename: Seq<char>,
    pub downloaded: u64,
    pub total: u64,
    pub cancelled: bool,
}

impl View for TransferJob {
    type V = JobView;

    open spec fn view(&self) -> JobView {
        JobView {
            state: self.state,
            url: self.url@,
            filename: self.filename@,
            downloaded: self.downloaded,
            total: self.total,
            cancelled: self.cancelled,
        }
    }
}

/// Whole percent of `total` that `downloaded` is, rounded down: 0 where
/// `total` is 0, and at most the largest 64-bit number.
pub open spec fn percentage_of(downloaded: u64, total: u64) -> nat {
    if total == 0 {
        0
    } else {
        let percent = (downloaded as nat * 100) / (total as nat);
        if percent > u64::MAX {
            u64::MAX as nat
        } else {
            percent
        }
    }
}

/// The average rate in bytes per second after `downloaded` bytes in
/// `elapsed_nanos` nanoseconds: 0 where no time has passed, and at most the
/// largest 64-bit number.
pub open spec fn transfer_rate(downloaded: u64, elapsed_nanos: u128) -> nat {
    if elapsed_nanos == 0 {
        0
    } else {
        let rate = (downloaded as nat * 1_000_000_000) / (elapsed_nanos as nat);
        if rate > u64::MAX {
            u64::MAX as nat
        } else {
            rate
        }
    }
}

/// The progress after `downloaded` of `total` bytes in `elapsed_nanos`
/// nanoseconds.
pub open spec fn progress_of(downloaded: u64, total: u64, elapsed_nanos: u128) -> ProgressView {
    ProgressView {
        downloaded,
        total,
        percentage: percentage_of(downloaded, total) as u64,
        speed: format_size_spec(transfer_rate(downloaded, elapsed_nanos)) + "/s"@,
    }
}

/// The part of `num / den` that fits 64 bits.
fn bounded_quotient(num: u128, den: u128) -> (r: u64)
    requires
        den > 0,
    ensures
        r == (if num as nat / den as nat > u64::MAX {
            u64::MAX as nat
        } else {
            num as nat / den as nat
        }),
{
    let q: u128 = num / den;
    if q > u64::MAX as u128 {
        u64::MAX
    } else {
        q as u64
    }
}

impl DownloadProgress {
    /// The progress after `downloaded` of `total` bytes in `elapsed_nanos`
    /// nanoseconds since the start of the transfer.
    pub fn new(downloaded: u64, total: u64, elapsed_nanos: u128) -> (r: DownloadProgress)
        ensures
            r@ == progress_of(downloaded, total, elapsed_nanos),
    {
        let percentage: u64 = if total == 0 {
            0
        } else {
            bounded_quotient(downloaded as u128 * 100, total as u128)
        };
        let rate: u64 = if elapsed_nanos == 0 {
            0
        } else {
            bounded_quotient(downloaded as u128 * 1_000_000_000, elapsed_nanos)
        };
        let mut speed = format_size(rate);
        speed.append("/s");
        DownloadProgress { downloaded, total, percentage, speed }
    }
}

/// What happens to a transfer.
#[derive(Clone, Debug, PartialEq, Eq)]
pub enum TransferEvent {
    /// The file behind `url` is asked for; `already_present` says whether a
    /// file stands at the destination.
    Requested { url: String, already_present: bool },
    /// The head of the server's answer arrived: its status code and the
    /// length of the body where the server says it.
    Responded { status: u16, content_length: Option<u64> },
    /// The next item of the body arrived: a chunk of `len` bytes, or
    /// nothing where receiving it failed. `elapsed_nanos` is the time since
    /// the start of the transfer.
    Chunk { len: Option<u64>, elapsed_nanos: u128 },
    /// The caller's own work failed: the request could not be sent, or the
    /// file could not be created or written.
    Broken,
    /// The body came to its end.
    Ended,
}

/// `TransferEvent`, as mathematics sees it.
pub enum EventView {
    Requested { url: Seq<char>, already_present: bool },
    Responded { status: u16, content_length: Option<u64> },
    Chunk { len: Option<u64>, elapsed_nanos: u128 },
    Broken,
    Ended,
}

impl View for TransferEvent {
    type V = EventView;

    open spec fn view(&self) -> EventView {
        match self {
            TransferEvent::Requested { url, already_present } => EventView::Requested {
                url: url@,
                already_present: *already_present,
            },
            TransferEvent::Responded { status, content_length } => EventView::Responded {
                status: *status,
                content_length: *content_length,
            },
            TransferEvent::Chunk { len, elapsed_nanos } => EventView::Chunk {
                len: *len,
                elapsed_nanos: *elapsed_nanos,
            },
            TransferEvent::Broken => EventView::Broken,
            TransferEvent::Ended => EventView::Ended,
        }
    }
}

/// The length that a server's answer gives, 0 where it gives none.
pub open spec fn known_length(content_length: Option<u64>) -> u64 {
    match content_length {
        Some(n) => n,
        None => 0,
    }
}

/// The job after an event.
///
/// A request starts the job anew, whatever came before: the cancellation
/// flag is cleared and nothing is counted; with the file in place the job
/// is complete at once, else it runs. Every other event bears on a running
/// job only. The head of the answer fails the job where its status is no
/// success, and else sets the total. A chunk cancels the job where the
/// flag is set, whatever arrived; else a failed chunk fails the job, and
/// one that arrived is counted. A failure of the caller's work fails the
/// job, and the end of the body completes it.
pub open spec fn next_job(job: JobView, event: EventView) -> JobView {
    match event {
        EventView::Requested { url, already_present } => JobView {
            state: if already_present {
                TransferState::Completed
            } else {
                TransferState::Running
            },
            url,
            filename: installer_filename(url),
            downloaded: 0,
            total: 0,
            cancelled: false,
        },
        _ => if job.state != TransferState::Running {
            job
        } else {
            match event {
                EventView::Responded { status, content_length } => if is_success_status(status) {
                    JobView { total: known_length(content_length), downloaded: 0, ..job }
                } else {
                    JobView { state: TransferState::Failed, ..job }
                },
                EventView::Chunk { len, elapsed_nanos } => if job.cancelled {
                    JobView { state: TransferState::Cancelled, ..job }
                } else {
                    match len {
                        Some(n) => JobView { downloaded: (job.downloaded + n) as u64, ..job },
                        None => JobView { state: TransferState::Failed, ..job },
                    }
                },
                EventView::Broken => JobView { state: TransferState::Failed, ..job },
                _ => JobView { state: TransferState::Completed, ..job },
            }
        },
    }
}

/// What the caller is to do after an event.
///
/// On a request: hand out the file that is in place, or send the request.
/// On any other event, nothing unless the job is running. On the head of
/// the answer: report the status that is no success, or create the file. On
/// a chunk: delete the partly written file where the job is cancelled; else
/// report the failure, or write the chunk and report the progress. On a
/// failure of the caller's own work, nothing more. On the end of the body:
/// hand out the file.
pub open spec fn next_action(job: JobView, event: EventView) -> ActionView {
    match event {
        EventView::Requested { url, already_present } => if already_present {
            ActionView::UseExisting
        } else {
            ActionView::SendRequest
        },
        _ => if job.state != TransferState::Running {
            ActionView::Ignore
        } else {
            match event {
                EventView::Responded { status, content_length } => if is_success_status(status) {
                    ActionView::CreateFile
                } else {
                    ActionView::Fail(TransferError::Status(status))
                },
                EventView::Chunk { len, elapsed_nanos } => if job.cancelled {
                    ActionView::RemovePartial
                } else {
                    match len {
                        Some(n) => ActionView::WriteChunk(
                            progress_of((job.downloaded + n) as u64, job.total, elapsed_nanos),
                        ),
                        None => ActionView::Fail(TransferError::Transport),
                    }
                },
                EventView::Broken => ActionView::Ignore,
                _ => ActionView::Finish,
            }
        },
    }
}

/// The count of a job stays within 64 bits after the event.
pub open spec fn countable(job: JobView, event: EventView) -> bool {
    event matches EventView::Chunk { len: Some(n), .. } ==> job.downloaded + n <= u64::MAX
}

impl TransferJob {
    /// A job that has not been asked for anything yet.
    pub fn new() -> (r: TransferJob)
        ensures
            r@ == (JobView {
                state: TransferState::Idle,
                url: Seq::empty(),
                filename: Seq::empty(),
                downloaded: 0,
                total: 0,
                cancelled: false,
            }),
    {
        TransferJob {
            state: TransferState::Idle,
            url: String::new(),
            filename: String::new(),
            downloaded: 0,
            total: 0,
            cancelled: false,
        }
    }

    /// Takes in an event: moves the job on and says what the caller is to
    /// do.
    pub fn advance(&mut self, event: TransferEvent) -> (action: TransferAction)
        requires
            countable(old(self)@, event@),
        ensures
            final(self)@ == next_job(old(self)@, event@),
            action@ == next_action(old(self)@, event@),
    {
        match event {
            TransferEvent::Requested { url, already_present } => self.request(
                url.as_str(),
                already_present,
            ),
            TransferEvent::Responded { status, content_length } => self.on_response(
                status,
                content_length,
            ),
            TransferEvent::Chunk { len, elapsed_nanos } => self.on_chunk(len, elapsed_nanos),
            TransferEvent::Broken => {
                self.on_failure();
                TransferAction::Ignore
            },
            TransferEvent::Ended => self.on_end(),
        }
    }

    /// Starts a job for the file behind `url`. `already_present` says
    /// whether a file stands at the destination.
    ///
    /// Whatever came before, the job starts with the cancellation flag
    /// cleared and nothing counted. Where the file is in place the job is
    /// complete at once and nothing is to be fetched; the file is not
    /// compared with the remote one. Otherwise the job runs, and the
    /// request is to be sent.
    pub fn request(&mut self, url: &str, already_present: bool) -> (action: TransferAction)
        ensures
            final(self)@ == next_job(
                old(self)@,
                EventView::Requested { url: url@, already_present },
            ),
            action@ == next_action(
                old(self)@,
                EventView::Requested { url: url@, already_present },
            ),
    {
        self.cancelled = false;
        self.url = String::from_str(url);
        self.filename = UpdateService::get_installer_filename(url);
        self.downloaded = 0;
        self.total = 0;
        if already_present {
            self.state = TransferState::Completed;
            TransferAction::UseExisting
        } else {
            self.state = TransferState::Running;
            TransferAction::SendRequest
        }
    }

    /// Takes in the head of the server's answer: its status code and the
    /// length of the body where the server says it.
    ///
    /// A running job fails on a status that is no success, and the status
    /// is to be reported. On a success the total is noted, 0 standing for
    /// an unknown length, and the file is to be created. A job that is not
    /// running is left alone.
    pub fn on_response(&mut self, status: u16, content_length: Option<u64>) -> (action:
        TransferAction)
        ensures
            final(self)@ == next_job(
                old(self)@,
                EventView::Responded { status, content_length },
            ),
            action@ == next_action(old(self)@, EventView::Responded { status, content_length }),
    {
        if self.state != TransferState::Running {
            return TransferAction::Ignore;
        }
        if !is_success(status) {
            self.state = TransferState::Failed;
            return TransferAction::Fail(TransferError::Status(status));
        }
        self.total = match content_length {
            Some(n) => n,
            None => 0,
        };
        self.downloaded = 0;
        TransferAction::CreateFile
    }

    /// Takes in the next item of the body: a chunk of `len` bytes, or
    /// nothing where receiving it failed. `elapsed_nanos` is the time since
    /// the start of the transfer.
    ///
    /// The cancellation flag is looked at first: where it is set, the job
    /// is cancelled and the partly written file is to be deleted, whatever
    /// was received. Else a failed chunk fails the job. Else the chunk is
    /// counted and is to be written, and the progress is to be shown. A
    /// job that is not running is left alone.
    pub fn on_chunk(&mut self, len: Option<u64>, elapsed_nanos: u128) -> (action: TransferAction)
        requires
            countable(old(self)@, EventView::Chunk { len, elapsed_nanos }),
        ensures
            final(self)@ == next_job(old(self)@, EventView::Chunk { len, elapsed_nanos }),
            action@ == next_action(old(self)@, EventView::Chunk { len, elapsed_nanos }),
    {
        if self.state != TransferState::Running {
            return TransferAction::Ignore;
        }
        if self.cancelled {
            self.state = TransferState::Cancelled;
            return TransferAction::RemovePartial;
        }
        match len {
            None => {
                self.state = TransferState::Failed;
                TransferAction::Fail(TransferError::Transport)
            },
            Some(n) => {
                self.downloaded = self.downloaded + n;
                TransferAction::WriteChunk(
                    DownloadProgress::new(self.downloaded, self.total, elapsed_nanos),
                )
            },
        }
    }

    /// Takes in a failure of the caller's own work on a running job: the
    /// request could not be sent, or the file could not be created or
    /// written. The job fails; a job that is not running is left alone.
    pub fn on_failure(&mut self)
        ensures
            final(self)@ == next_job(old(self)@, EventView::Broken),
    {
        if self.state == TransferState::Running {
            self.state = TransferState::Failed;
        }
    }

    /// Takes in the end of the body. A running job is complete. The
    /// cancellation flag is not looked at any more: it is tested only
    /// before a chunk is written.
    pub fn on_end(&mut self) -> (action: TransferAction)
        ensures
            final(self)@ == next_job(old(self)@, EventView::Ended),
            action@ == next_action(old(self)@, EventView::Ended),
    {
        if self.state != TransferState::Running {
            return TransferAction::Ignore;
        }
        self.state = TransferState::Completed;
        TransferAction::Finish
    }
}

/// A request for a file that is already in place completes the job at
/// once, with nothing counted, and asks for nothing to be fetched.
pub proof fn lemma_existing_file_completes(job: JobView, url: Seq<char>)
    ensures
        next_job(job, EventView::Requested { url, already_present: true }).state
            == TransferState::Completed,
        next_job(job, EventView::Requested { url, already_present: true }).downloaded == 0,
        next_action(job, EventView::Requested { url, already_present: true })
            == ActionView::UseExisting,
{
}

/// A running job whose cancellation flag is set ends as cancelled at the
/// next chunk, whatever arrived: nothing is written and the partly written
/// file is to be deleted.
pub proof fn lemma_cancelled_job_is_torn_down(job: JobView, len: Option<u64>, elapsed_nanos: u128)
    requires
        job.state == TransferState::Running,
        job.cancelled,
    ensures
        next_job(job, EventView::Chunk { len, elapsed_nanos }) == (JobView {
            state: TransferState::Cancelled,
            ..job
        }),
        next_action(job, EventView::Chunk { len, elapsed_nanos }) == ActionView::RemovePartial,
{
}

/// Every request leaves the cancellation flag cleared: a cancellation
/// never reaches a later job.
pub proof fn lemma_request_clears_cancellation(job: JobView, url: Seq<char>, already_present: bool)
    ensures
        !next_job(job, EventView::Requested { url, already_present }).cancelled,
{
}

/// A job that is not running is moved by a request only: any other event
/// leaves it as it is and asks for nothing.
pub proof fn lemma_only_a_request_starts(job: JobView, event: EventView)
    requires
        job.state != TransferState::Running,
        !(event is Requested),
    ensures
        next_job(job, event) == job,
        next_action(job, event) == ActionView::Ignore,
{
}

/// A job moves along `Idle`, `Running` and the three final states only:
/// an event other than a request leaves a running job running or ends it,
/// and never makes it idle.
pub proof fn lemma_states_follow_the_machine(job: JobView, event: EventView)
    ensures
        next_job(job, event).state != job.state ==> {
            ||| event is Requested
            ||| job.state == TransferState::Running && next_job(job, event).state
                != TransferState::Idle
        },
        event is Requested ==> next_job(job, event).state == TransferState::Running || next_job(
            job,
            event,
        ).state == TransferState::Completed,
{
}

/// While a job runs, its count only grows, and it grows by the length of
/// each chunk that is to be written.
pub proof fn lemma_count_grows(job: JobView, event: EventView)
    requires
        job.state == TransferState::Running,
        next_job(job, event).state == TransferState::Running,
        !(event is Requested),
        !(event is Responded),
        countable(job, event),
    ensures
        next_job(job, event).downloaded >= job.downloaded,
        event matches EventView::Chunk { len: Some(n), .. } ==> next_job(job, event).downloaded
            == job.downloaded + n,
{
}

/// Looks for updates and fetches them.
pub struct UpdateService;

impl UpdateService {
    /// Decides what a check for updates answers, given the configuration
    /// and what the update feed says of the latest release.
    pub fn check_for_update(config: &AppConfig, info: UpdateInfo) -> (r: UpdateCheckResult)
        ensures
            r@ == update_decision(info@, config@.version, config@.update.ignored_version),
    {
        let newer = Self::compare_versions(info.version.as_str(), config.app.version.as_str()) > 0;
        let ignored = match &config.update.ignored_version {
            Some(v) => info.version == *v,
            None => false,
        };
        if newer && !ignored {
            UpdateCheckResult {
                has_update: true,
                version: Some(info.version),
                download_url: Some(info.download_url),
                release_notes: Some(info.release_notes),
                publish_date: Some(info.publish_date),
            }
        } else {
            UpdateCheckResult {
                has_update: false,
                version: None,
                download_url: None,
                release_notes: None,
                publish_date: None,
            }
        }
    }

    /// Sets the release `version` aside: it is not offered again. The
    /// version is recorded in the configuration, and the text to store is
    /// given.
    pub fn ignore_version(config: &mut ConfigManager, version: String) -> (r: Result<
        String,
        String,
    >)
        ensures
            final(config)@ == (ConfigView {
                update: UpdateView { ignored_version: Some(version@), ..old(config)@.update },
                ..old(config)@
            }),
            r matches Ok(text) ==> pretty_json(config_document(final(config)@)) == Some(text@),
            r is Err ==> pretty_json(config_document(final(config)@)) is None,
    {
        config.update_ignored_version(version)
    }

    /// Orders two dotted version strings by their three leading numbers:
    /// 1 where `version1` is the later one, -1 where `version2` is, 0 where
    /// they are equal. A piece that is missing or is no number counts as 0.
    pub fn compare_versions(version1: &str, version2: &str) -> (r: i32)
        ensures
            r == compare_versions_spec(version1@, version2@),
    {
        let v1 = VersionTuple::parse(version1);
        let v2 = VersionTuple::parse(version2);
        v1.compare(&v2)
    }

    /// The file name under which the installer behind `url` is stored.
    pub fn get_installer_filename(url: &str) -> (name: String)
        ensures
            name@ == installer_filename(url@),
    {
        let v = chars_of(url);
        let pieces = split_bounds(&v, '/');
        let last = pieces[pieces.len() - 1];
        if last.1 > last.0 {
            substring(url, last.0, last.1)
        } else {
            String::from_str(DEFAULT_INSTALLER_NAME)
        }
    }

    /// What the head of the server's answer says of the file: its size
    /// where the server gives it, else 0. An answer that is no success
    /// gives the error with its status.
    pub fn get_file_info(status: u16, content_length: Option<u64>) -> (r: Result<
        FileInfo,
        TransferError,
    >)
        ensures
            is_success_status(status) ==> (r matches Ok(info) && info.size == (match content_length {
                Some(n) => n,
                None => 0,
            })),
            !is_success_status(status) ==> r == Err::<FileInfo, TransferError>(
                TransferError::Status(status),
            ),
    {
        if !is_success(status) {
            return Err(TransferError::Status(status));
        }
        Ok(
            FileInfo {
                size: match content_length {
                    Some(n) => n,
                    None => 0,
                },
            },
        )
    }

    /// Asks the running transfer to stop. The flag is only set here; the
    /// job ends when the next chunk arrives. With no transfer running the
    /// call changes nothing but the flag, which the next request clears.
    pub fn cancel_download(job: &mut TransferJob) -> (r: Result<(), String>)
        ensures
            r is Ok,
            final(job)@ == (JobView { cancelled: true, ..old(job)@ }),
    {
        job.cancelled = true;
        Ok(())
    }
}

/// A release that is, letter for letter, the version that the user chose to
/// ignore is not offered, however much later it is than the running one.
pub proof fn lemma_ignored_version_suppresses(
    info: UpdateInfoView,
    current: Seq<char>,
    ignored: Option<Seq<char>>,
)
    requires
        ignored == Some(info.version),
    ensures
        update_decision(info, current, ignored) == no_update(),
{
}

/// A later release that is not, letter for letter, the ignored version is
/// offered: ignoring one spelling of a version does not ignore another.
pub proof fn lemma_other_version_offered(
    info: UpdateInfoView,
    current: Seq<char>,
    ignored: Option<Seq<char>>,
)
    requires
        has_update(info.version, current),
        ignored != Some(info.version),
    ensures
        update_decision(info, current, ignored).has_update,
        update_decision(info, current, ignored).version == Some(info.version),
        update_decision(info, current, ignored).download_url == Some(info.download_url),
{
}

/// No release is offered unless it is later than the running version.
pub proof fn lemma_offer_is_later(
    info: UpdateInfoView,
    current: Seq<char>,
    ignored: Option<Seq<char>>,
)
    ensures
        update_decision(info, current, ignored).has_update ==> compare_versions_spec(
            info.version,
            current,
        ) == 1,
{
}

/// Reports the space that the application's data takes.
pub struct StorageService;

impl StorageService {
    /// The report for a cache of `cache_size_bytes` bytes and a database of
    /// `database_size_bytes` bytes: both sizes as they are, and for
    /// display.
    pub fn get_storage_info(cache_size_bytes: u64, database_size_bytes: u64) -> (info: StorageInfo)
        ensures
            info.cache_size_bytes == cache_size_bytes,
            info.database_size_bytes == database_size_bytes,
            info.cache_size@ == format_size_spec(cache_size_bytes as nat),
            info.database_size@ == format_size_spec(database_size_bytes as nat),
    {
        StorageInfo {
            cache_size: format_size(cache_size_bytes),
            database_size: format_size(database_size_bytes),
            cache_size_bytes,
            database_size_bytes,
        }
    }
}

} // verus!
