//! One request of a chat user, from the first status message to the upload,
//! as a state machine: the caller performs each action and reports its outcome
//! as the next event.
use vstd::prelude::*;
use crate::download::DownloadError;
use crate::links::{extract_filename_from_url, filename_spec, law_filename_is_plain};
use crate::naming::{
    direct_temp_name, direct_temp_spec, is_uuid_text, random_uuid_text, tiktok_temp_name,
    tiktok_temp_spec,
};
use crate::settings::MAX_TELEGRAM_FILE_SIZE;
use crate::tikwm::{FetchError, VideoInfo};

verus! {

/// Where a job's video comes from.
#[derive(Clone, Copy, Debug, PartialEq, Eq, Structural)]
pub enum Source {
    /// A TikTok link, resolved through the TikWM API.
    TikTok,
    /// A direct link to a video file.
    Direct,
}

/// Why a job failed.
#[derive(Debug)]
pub enum JobError {
    /// No download slot could be had.
    PermitClosed,
    /// The first status message could not be sent (the reason).
    Status(String),
    /// The video could not be resolved.
    Fetch(FetchError),
    /// The video is known to be larger than Telegram accepts (its size in bytes).
    TooLarge(u64),
    /// Downloading or storing the video failed.
    Download(DownloadError),
    /// Uploading the video failed (the reason).
    Upload(String),
}

/// A text shown to the user.
#[derive(Clone, Copy, Debug, PartialEq, Eq, Structural)]
pub enum Notice {
    /// The TikTok link is being resolved.
    FetchingInfo,
    /// The direct link is being checked.
    CheckingLink,
    /// The video is being downloaded.
    Downloading,
    /// The video is being uploaded.
    Uploading,
    /// The job's error.
    Failure,
}

/// What the caller does next.
#[derive(Clone, Copy, Debug, PartialEq, Eq, Structural)]
pub enum Action {
    /// Wait for a download slot.
    AcquirePermit,
    /// Send a status message in reply to the user's message.
    SendStatus(Notice),
    /// Ask the TikWM API about the job's link.
    FetchInfo,
    /// Ask the server of the job's link for the video's size.
    ProbeSize,
    /// Replace the text of the status message.
    EditStatus(Notice),
    /// Download the job's download URL over HTTP, at most the upload limit.
    FetchHttp,
    /// Download the job's download URL with the fallback tool.
    RunTool,
    /// Store the downloaded bytes in the job's temporary file.
    WriteTempFile,
    /// Remove the job's temporary file, if it exists.
    RemoveTempFile,
    /// Upload the temporary file as a video, under the job's upload name and caption.
    SendVideo,
    /// Delete the status message.
    DeleteStatus,
    /// Send a message in reply to the chat.
    SendReply(Notice),
    /// The job is over; its result is `Job::error`.
    Finish,
    /// Nothing to do: the event did not fit the job's state.
    Idle,
}

/// The outcome of the previous action.
#[derive(Debug)]
pub enum Event {
    /// Start the job.
    Begin,
    /// A download slot was granted.
    PermitGranted,
    /// No slot can be granted any more.
    PermitClosed,
    /// The status message was sent.
    StatusSent,
    /// The status message could not be sent (the reason).
    StatusFailed(String),
    /// The TikWM API answered.
    InfoFetched(Result<VideoInfo, FetchError>),
    /// The size probe answered with a size, or without one.
    Probed(Option<u64>),
    /// A download attempt ended.
    Downloaded(Result<(), DownloadError>),
    /// Storing the bytes ended (on failure, the reason).
    Written(Result<(), String>),
    /// The upload ended (on failure, the reason).
    VideoSent(Result<(), String>),
    /// An action whose outcome does not matter has ended.
    Done,
}

/// Where a job stands.
#[derive(Clone, Copy, Debug, PartialEq, Eq, Structural)]
pub enum Phase {
    Start,
    AwaitPermit,
    AwaitStatus,
    AwaitInfo,
    AwaitProbe,
    ShowFailure,
    ShowDownloading,
    AwaitHttp,
    AwaitTool,
    AwaitWrite,
    CleanAfterFailure,
    ShowUploading,
    AwaitSend,
    CleanAfterSend,
    AwaitDelete,
    ReportFailure,
    Finished,
}

/// A request being served.
#[derive(Debug)]
pub struct Job {
    /// Where the video comes from.
    pub source: Source,
    /// The link the user sent.
    pub link: String,
    /// The name of the temporary file in the temporary directory.
    pub temp_file: String,
    /// The file name the video is uploaded under.
    pub upload_name: String,
    /// The URL the video is downloaded from.
    pub download_url: String,
    /// The caption of the uploaded video.
    pub caption: String,
    /// The size the video is known to have before downloading, if any.
    pub known_size: Option<u64>,
    /// Why the job failed, once it has.
    pub error: Option<JobError>,
    /// Where the job stands.
    pub phase: Phase,
}

/// A size known to exceed the upload limit.
pub open spec fn over_limit(size: Option<u64>) -> bool {
    size matches Some(s) && s > MAX_TELEGRAM_FILE_SIZE
}

/// The caption of a TikTok video with the given title.
pub open spec fn caption_for(title: Seq<char>) -> Seq<char> {
    if title.len() == 0 {
        "Downloaded via TikTok Bot"@
    } else {
        title
    }
}

/// `n` is `j` in phase `p`.
pub open spec fn moved_to(j: Job, n: Job, p: Phase) -> bool {
    n == Job { phase: p, ..j }
}

/// One step of a job: from `j`, on event `e`, the job becomes `n` and the
/// caller is told to perform `a`.  Events that do not fit the phase change
/// nothing.
pub open spec fn transition(j: Job, e: Event, n: Job, a: Action) -> bool {
    match (j.phase, e) {
        (Phase::Start, Event::Begin) => moved_to(j, n, Phase::AwaitPermit) && a
            == Action::AcquirePermit,
        (Phase::AwaitPermit, Event::PermitGranted) => moved_to(j, n, Phase::AwaitStatus) && a
            == Action::SendStatus(
            if j.source == Source::TikTok {
                Notice::FetchingInfo
            } else {
                Notice::CheckingLink
            },
        ),
        (Phase::AwaitPermit, Event::PermitClosed) => n == Job {
            phase: Phase::Finished,
            error: Some(JobError::PermitClosed),
            ..j
        } && a == Action::Finish,
        (Phase::AwaitStatus, Event::StatusSent) => if j.source == Source::TikTok {
            moved_to(j, n, Phase::AwaitInfo) && a == Action::FetchInfo
        } else {
            moved_to(j, n, Phase::AwaitProbe) && a == Action::ProbeSize
        },
        (Phase::AwaitStatus, Event::StatusFailed(reason)) => n == Job {
            phase: Phase::Finished,
            error: Some(JobError::Status(reason)),
            ..j
        } && a == Action::Finish,
        (Phase::AwaitInfo, Event::InfoFetched(Err(err))) => n == Job {
            phase: Phase::ShowFailure,
            error: Some(JobError::Fetch(err)),
            ..j
        } && a == Action::EditStatus(Notice::Failure),
        (Phase::AwaitInfo, Event::InfoFetched(Ok(info))) => if over_limit(info.size_bytes) {
            n == Job {
                phase: Phase::ShowFailure,
                known_size: info.size_bytes,
                error: Some(JobError::TooLarge(info.size_bytes->0)),
                ..j
            } && a == Action::EditStatus(Notice::Failure)
        } else {
            &&& n.phase == Phase::ShowDownloading
            &&& n.download_url == info.download_url
            &&& n.caption@ == caption_for(info.title@)
            &&& n.known_size == info.size_bytes
            &&& n.source == j.source && n.link == j.link && n.temp_file == j.temp_file
            &&& n.upload_name == j.upload_name && n.error == j.error
            &&& a == Action::EditStatus(Notice::Downloading)
        },
        (Phase::AwaitProbe, Event::Probed(size)) => if over_limit(size) {
            n == Job {
                phase: Phase::ShowFailure,
                known_size: size,
                error: Some(JobError::TooLarge(size->0)),
                ..j
            } && a == Action::EditStatus(Notice::Failure)
        } else {
            n == Job { phase: Phase::ShowDownloading, known_size: size, ..j } && a
                == Action::EditStatus(Notice::Downloading)
        },
        (Phase::ShowFailure, Event::Done) => moved_to(j, n, Phase::Finished) && a == Action::Finish,
        (Phase::ShowDownloading, Event::Done) => moved_to(j, n, Phase::AwaitHttp) && a
            == Action::FetchHttp,
        (Phase::AwaitHttp, Event::Downloaded(Ok(()))) => moved_to(j, n, Phase::AwaitWrite) && a
            == Action::WriteTempFile,
        (Phase::AwaitHttp, Event::Downloaded(Err(_))) => moved_to(j, n, Phase::AwaitTool) && a
            == Action::RunTool,
        (Phase::AwaitTool, Event::Downloaded(Ok(()))) => moved_to(j, n, Phase::AwaitWrite) && a
            == Action::WriteTempFile,
        (Phase::AwaitTool, Event::Downloaded(Err(err))) => n == Job {
            phase: Phase::CleanAfterFailure,
            error: Some(JobError::Download(err)),
            ..j
        } && a == Action::RemoveTempFile,
        (Phase::AwaitWrite, Event::Written(Ok(()))) => moved_to(j, n, Phase::ShowUploading) && a
            == Action::EditStatus(Notice::Uploading),
        (Phase::AwaitWrite, Event::Written(Err(reason))) => n == Job {
            phase: Phase::CleanAfterFailure,
            error: Some(JobError::Download(DownloadError::Io(reason))),
            ..j
        } && a == Action::RemoveTempFile,
        (Phase::CleanAfterFailure, Event::Done) => moved_to(j, n, Phase::ShowFailure) && a
            == Action::EditStatus(Notice::Failure),
        (Phase::ShowUploading, Event::Done) => moved_to(j, n, Phase::AwaitSend) && a
            == Action::SendVideo,
        (Phase::AwaitSend, Event::VideoSent(Ok(()))) => moved_to(j, n, Phase::CleanAfterSend) && a
            == Action::RemoveTempFile,
        (Phase::AwaitSend, Event::VideoSent(Err(reason))) => n == Job {
            phase: Phase::CleanAfterSend,
            error: Some(JobError::Upload(reason)),
            ..j
        } && a == Action::RemoveTempFile,
        (Phase::CleanAfterSend, Event::Done) => moved_to(j, n, Phase::AwaitDelete) && a
            == Action::DeleteStatus,
        (Phase::AwaitDelete, Event::Done) => if j.error is Some {
            moved_to(j, n, Phase::ReportFailure) && a == Action::SendReply(Notice::Failure)
        } else {
            moved_to(j, n, Phase::Finished) && a == Action::Finish
        },
        (Phase::ReportFailure, Event::Done) => moved_to(j, n, Phase::Finished) && a
            == Action::Finish,
        _ => n == j && a == Action::Idle,
    }
}

/// A temporary file may exist: storing it was asked for and removing it was not yet.
pub open spec fn temp_file_live(p: Phase) -> bool {
    p == Phase::AwaitWrite || p == Phase::ShowUploading || p == Phase::AwaitSend
}

/// How far along a phase is; every step that does something moves forward.
pub open spec fn rank(p: Phase) -> nat {
    match p {
        Phase::Start => 0,
        Phase::AwaitPermit => 1,
        Phase::AwaitStatus => 2,
        Phase::AwaitInfo => 3,
        Phase::AwaitProbe => 3,
        Phase::ShowDownloading => 4,
        Phase::AwaitHttp => 5,
        Phase::AwaitTool => 6,
        Phase::AwaitWrite => 7,
        Phase::CleanAfterFailure => 8,
        Phase::ShowUploading => 8,
        Phase::AwaitSend => 9,
        Phase::CleanAfterSend => 10,
        Phase::AwaitDelete => 11,
        Phase::ReportFailure => 12,
        Phase::ShowFailure => 13,
        Phase::Finished => 14,
    }
}

/// The phases in which a download is under way or done.
pub open spec fn past_size_check(p: Phase) -> bool {
    rank(p) >= 4 && p != Phase::ShowFailure && p != Phase::Finished && p != Phase::ReportFailure
        && p != Phase::CleanAfterFailure
}

/// What holds of every job: once past the size check, no size over the limit
/// is known; and a job that reports a failure has an error.
pub open spec fn job_inv(j: Job) -> bool {
    &&& past_size_check(j.phase) ==> !over_limit(j.known_size)
    &&& (j.phase == Phase::ShowFailure || j.phase == Phase::ReportFailure || j.phase
        == Phase::CleanAfterFailure) ==> j.error is Some
}

/// A new job satisfies the job invariant.
pub proof fn law_new_job_inv(j: Job)
    requires
        j.phase == Phase::Start,
    ensures
        job_inv(j),
{
}

/// Law (cleanup, one step): a temporary file becomes live exactly when it is
/// stored and stays live until it is removed; a job never finishes while its
/// temporary file is live.
pub proof fn law_step_temp_file(j: Job, e: Event, n: Job, a: Action)
    requires
        transition(j, e, n, a),
    ensures
        temp_file_live(n.phase) == (a == Action::WriteTempFile || (temp_file_live(j.phase) && a
            != Action::RemoveTempFile)),
        a == Action::Finish ==> !temp_file_live(j.phase) && !temp_file_live(n.phase),
{
}

/// Law (progress): a step either does nothing and changes nothing, or moves the
/// job strictly forward; so a job ends after at most 14 actions.
pub proof fn law_step_progress(j: Job, e: Event, n: Job, a: Action)
    requires
        transition(j, e, n, a),
    ensures
        a == Action::Idle ==> n == j,
        a != Action::Idle ==> rank(n.phase) > rank(j.phase),
        rank(n.phase) <= 14,
{
}

/// Law (finishing): `Finish` leaves the job finished, and a finished job ignores every event.
pub proof fn law_step_finish(j: Job, e: Event, n: Job, a: Action)
    requires
        transition(j, e, n, a),
    ensures
        a == Action::Finish ==> n.phase == Phase::Finished,
        j.phase == Phase::Finished ==> n == j && a == Action::Idle,
{
}

/// Law (size limit and outcome, one step): steps keep the job invariant; no
/// download is started for a video known to exceed the upload limit; a video is
/// only uploaded after its bytes were stored; and a job only finishes without
/// error after the upload, the cleanup and the removal of the status message.
pub proof fn law_step_size_limit(j: Job, e: Event, n: Job, a: Action)
    requires
        transition(j, e, n, a),
        job_inv(j),
    ensures
        job_inv(n),
        a == Action::FetchHttp ==> !over_limit(n.known_size) && !over_limit(j.known_size),
        a == Action::SendVideo ==> j.phase == Phase::ShowUploading,
        n.phase == Phase::ShowUploading && j.phase != Phase::ShowUploading ==> j.phase
            == Phase::AwaitWrite && e matches Event::Written(Ok(())),
        a == Action::Finish && n.error is None ==> j.phase == Phase::AwaitDelete,
{
}

/// Law: the temporary file names of jobs never hold a `/`, so every temporary
/// file lies directly in the temporary directory.
pub proof fn law_temp_names_are_plain(id: Seq<char>, link: Seq<char>)
    requires
        is_uuid_text(id),
    ensures
        !tiktok_temp_spec(id).contains('/'),
        !direct_temp_spec(id, filename_spec(link)).contains('/'),
{
    reveal_strlit("tiktok_");
    reveal_strlit(".mp4");
    reveal_strlit("direct_");
    reveal_strlit("_");
    law_filename_is_plain(link);
    let f = filename_spec(link);
    let t = tiktok_temp_spec(id);
    assert forall|k: int| 0 <= k < t.len() implies t[k] != '/' by {
        if k >= 7 && k < 43 {
            assert(t[k] == id[k - 7]);
        }
    }
    let d = direct_temp_spec(id, f);
    assert forall|k: int| 0 <= k < d.len() implies d[k] != '/' by {
        if k >= 7 && k < 43 {
            assert(d[k] == id[k - 7]);
        } else if k >= 44 {
            assert(d[k] == f[k - 44]);
        }
    }
}

/// Law (fallback): whatever the job's source, a failed HTTP download is retried
/// with the fallback tool; nothing else about the job changes.
pub proof fn law_http_failure_runs_tool(j: Job, e: Event, n: Job, a: Action)
    requires
        transition(j, e, n, a),
        j.phase == Phase::AwaitHttp,
        (e matches Event::Downloaded(Err(_))),
    ensures
        n == (Job { phase: Phase::AwaitTool, ..j }),
        a == Action::RunTool,
{
}

/// Law (fallback): whatever the job's source, a successful download, by HTTP or
/// by the fallback tool, is stored next.
pub proof fn law_download_success_is_stored(j: Job, e: Event, n: Job, a: Action)
    requires
        transition(j, e, n, a),
        j.phase == Phase::AwaitHttp || j.phase == Phase::AwaitTool,
        (e matches Event::Downloaded(Ok(()))),
    ensures
        n == (Job { phase: Phase::AwaitWrite, ..j }),
        a == Action::WriteTempFile,
{
}

/// Law (fallback): a download error is recorded only when the fallback tool
/// failed too, or when storing the bytes failed.
pub proof fn law_download_error_only_after_tool(j: Job, e: Event, n: Job, a: Action)
    requires
        transition(j, e, n, a),
        (n.error matches Some(JobError::Download(_))),
        !(j.error matches Some(JobError::Download(_))),
    ensures
        (j.phase == Phase::AwaitTool && (e matches Event::Downloaded(Err(_)))) || (j.phase
            == Phase::AwaitWrite && (e matches Event::Written(Err(_)))),
{
}

/// Law (fallback): once the size is checked, every job starts with the HTTP
/// download, whatever its source.
pub proof fn law_download_starts_with_http(j: Job, e: Event, n: Job, a: Action)
    requires
        transition(j, e, n, a),
        j.phase == Phase::ShowDownloading,
        (e matches Event::Done),
    ensures
        n == (Job { phase: Phase::AwaitHttp, ..j }),
        a == Action::FetchHttp,
{
}

/// Law (first steps): once a slot is granted the user is told what happens
/// (resolving a TikTok link, or checking a direct one); once that message is
/// out, a TikTok link is looked up and a direct link's size is probed.
pub proof fn law_first_steps(j: Job, e: Event, n: Job, a: Action)
    requires
        transition(j, e, n, a),
    ensures
        j.phase == Phase::AwaitPermit && e == Event::PermitGranted ==> n.phase
            == Phase::AwaitStatus && a == Action::SendStatus(
            if j.source == Source::TikTok {
                Notice::FetchingInfo
            } else {
                Notice::CheckingLink
            },
        ),
        j.phase == Phase::AwaitStatus && e == Event::StatusSent ==> (if j.source
            == Source::TikTok {
            a == Action::FetchInfo
        } else {
            a == Action::ProbeSize
        }),
        j.phase == Phase::AwaitPermit && e == Event::PermitClosed ==> a == Action::Finish
            && (n.error matches Some(JobError::PermitClosed)),
{
}

/// Law (size limit, TikTok): a size over 50 MB learnt from the API ends the job
/// with that size as its error; any other answer leads to the download, with
/// the error unchanged.
pub proof fn law_size_limit_info(j: Job, info: VideoInfo, n: Job, a: Action)
    requires
        transition(j, Event::InfoFetched(Ok(info)), n, a),
        j.phase == Phase::AwaitInfo,
    ensures
        (info.size_bytes matches Some(s) && s > 52428800) ==> a == Action::EditStatus(Notice::Failure)
            && n.phase == Phase::ShowFailure && n.error == Some(
            JobError::TooLarge(info.size_bytes->0),
        ),
        !(info.size_bytes matches Some(s) && s > 52428800) ==> a == Action::EditStatus(
            Notice::Downloading,
        ) && n.phase == Phase::ShowDownloading && n.error == j.error && n.known_size
            == info.size_bytes,
{
}

/// Law (size limit, direct links): a probed size over 50 MB ends the job with
/// that size as its error; any other answer leads to the download, with the
/// error unchanged.
pub proof fn law_size_limit_probe(j: Job, size: Option<u64>, n: Job, a: Action)
    requires
        transition(j, Event::Probed(size), n, a),
        j.phase == Phase::AwaitProbe,
    ensures
        (size matches Some(s) && s > 52428800) ==> a == Action::EditStatus(Notice::Failure) && n.phase
            == Phase::ShowFailure && n.error == Some(JobError::TooLarge(size->0)),
        !(size matches Some(s) && s > 52428800) ==> a == Action::EditStatus(Notice::Downloading)
            && n.phase == Phase::ShowDownloading && n.error == j.error && n.known_size == size,
{
}

/// Law (TikTok videos): a resolved TikTok video is downloaded from the link the
/// API gave and captioned with its title, or `Downloaded via TikTok Bot` when
/// the title is empty.
pub proof fn law_tiktok_download_and_caption(j: Job, info: VideoInfo, n: Job, a: Action)
    requires
        transition(j, Event::InfoFetched(Ok(info)), n, a),
        j.phase == Phase::AwaitInfo,
        n.phase == Phase::ShowDownloading,
    ensures
        n.download_url == info.download_url,
        info.title@.len() == 0 ==> n.caption@ == "Downloaded via TikTok Bot"@,
        info.title@.len() > 0 ==> n.caption@ == info.title@,
        n.temp_file == j.temp_file && n.upload_name == j.upload_name && n.link == j.link,
{
}

/// Law (failures): a failed lookup becomes the job's error and is shown.
pub proof fn law_fetch_failure_recorded(j: Job, err: FetchError, n: Job, a: Action)
    requires
        transition(j, Event::InfoFetched(Err(err)), n, a),
        j.phase == Phase::AwaitInfo,
    ensures
        n.error == Some(JobError::Fetch(err)),
        a == Action::EditStatus(Notice::Failure),
{
}

/// Law (failures): a failed upload becomes the job's error, a successful one
/// keeps the error as it was; either way the temporary file is removed next.
pub proof fn law_upload_outcome(j: Job, r: Result<(), String>, n: Job, a: Action)
    requires
        transition(j, Event::VideoSent(r), n, a),
        j.phase == Phase::AwaitSend,
    ensures
        r is Err ==> n.error == Some(JobError::Upload(r->Err_0)),
        r is Ok ==> n.error == j.error,
        a == Action::RemoveTempFile,
{
}

/// Law (failures): after the cleanup a job with an error tells the user, and a
/// job without one just finishes; a shown failure ends the job.
pub proof fn law_end_of_job(j: Job, n: Job, a: Action)
    requires
        transition(j, Event::Done, n, a),
    ensures
        j.phase == Phase::AwaitDelete && j.error is Some ==> a == Action::SendReply(Notice::Failure),
        j.phase == Phase::AwaitDelete && j.error is None ==> a == Action::Finish,
        j.phase == Phase::ShowFailure ==> a == Action::Finish,
{
}

/// `jobs[0]` steps through `events`, telling the caller `acts`.
pub open spec fn is_run(jobs: Seq<Job>, events: Seq<Event>, acts: Seq<Action>) -> bool {
    &&& jobs.len() == events.len() + 1
    &&& acts.len() == events.len()
    &&& forall|i: int|
        0 <= i < events.len() ==> transition(
            #[trigger] jobs[i],
            events[i],
            jobs[i + 1],
            acts[i],
        )
}

proof fn lemma_live_until_removed(jobs: Seq<Job>, events: Seq<Event>, acts: Seq<Action>, i: int, m: int)
    requires
        is_run(jobs, events, acts),
        0 <= i < m <= events.len(),
        acts[i] == Action::WriteTempFile,
        forall|t: int| i < t < m ==> acts[t] != Action::RemoveTempFile,
    ensures
        temp_file_live(jobs[m].phase),
    decreases m - i,
{
    if m == i + 1 {
        law_step_temp_file(jobs[i], events[i], jobs[i + 1], acts[i]);
    } else {
        lemma_live_until_removed(jobs, events, acts, i, m - 1);
        law_step_temp_file(jobs[m - 1], events[m - 1], jobs[m], acts[m - 1]);
    }
}

/// Law (cleanup): in every run, a temporary file that is stored is removed
/// again before the job finishes.
pub proof fn law_temp_file_removed_before_finish(
    jobs: Seq<Job>,
    events: Seq<Event>,
    acts: Seq<Action>,
    i: int,
    k: int,
)
    requires
        is_run(jobs, events, acts),
        0 <= i < k < acts.len(),
        acts[i] == Action::WriteTempFile,
        acts[k] == Action::Finish,
    ensures
        exists|m: int| i < m < k && acts[m] == Action::RemoveTempFile,
{
    if forall|t: int| i < t < k ==> acts[t] != Action::RemoveTempFile {
        lemma_live_until_removed(jobs, events, acts, i, k);
        law_step_temp_file(jobs[k], events[k], jobs[k + 1], acts[k]);
    }
}

proof fn lemma_finished_stays(jobs: Seq<Job>, events: Seq<Event>, acts: Seq<Action>, k: int, m: int)
    requires
        is_run(jobs, events, acts),
        0 <= k < m <= events.len(),
        acts[k] == Action::Finish,
    ensures
        jobs[m].phase == Phase::Finished,
        m < events.len() ==> acts[m] == Action::Idle,
    decreases m - k,
{
    if m == k + 1 {
        law_step_finish(jobs[k], events[k], jobs[k + 1], acts[k]);
    } else {
        lemma_finished_stays(jobs, events, acts, k, m - 1);
        law_step_finish(jobs[m - 1], events[m - 1], jobs[m], acts[m - 1]);
    }
    if m < events.len() {
        law_step_finish(jobs[m], events[m], jobs[m + 1], acts[m]);
    }
}

/// Law (finishing): in every run, after `Finish` the caller is told nothing more.
pub proof fn law_nothing_after_finish(
    jobs: Seq<Job>,
    events: Seq<Event>,
    acts: Seq<Action>,
    k: int,
    m: int,
)
    requires
        is_run(jobs, events, acts),
        0 <= k < m < acts.len(),
        acts[k] == Action::Finish,
    ensures
        acts[m] == Action::Idle,
{
    lemma_finished_stays(jobs, events, acts, k, m);
}

impl Job {
    /// A TikTok job for `link`, with temporary files named after `id`.
    pub fn tiktok_with_id(link: String, id: &str) -> (j: Job)
        ensures
            j.source == Source::TikTok,
            j.link == link,
            j.temp_file@ == tiktok_temp_spec(id@),
            j.upload_name@ == "tiktok_video.mp4"@,
            j.download_url@ == Seq::<char>::empty(),
            j.caption@ == Seq::<char>::empty(),
            j.known_size is None,
            j.error is None,
            j.phase == Phase::Start,
    {
        Job {
            source: Source::TikTok,
            link,
            temp_file: tiktok_temp_name(id),
            upload_name: String::from_str("tiktok_video.mp4"),
            download_url: String::new(),
            caption: String::new(),
            known_size: None,
            error: None,
            phase: Phase::Start,
        }
    }

    /// A direct-link job for `link`, with temporary files named after `id`.
    pub fn direct_with_id(link: String, id: &str) -> (j: Job)
        ensures
            j.source == Source::Direct,
            j.link == link,
            j.temp_file@ == direct_temp_spec(id@, filename_spec(link@)),
            j.upload_name@ == filename_spec(link@),
            j.download_url@ == link@,
            j.caption@ == "Downloaded via Uploader Bot"@,
            j.known_size is None,
            j.error is None,
            j.phase == Phase::Start,
    {
        let filename = extract_filename_from_url(link.as_str());
        let temp_file = direct_temp_name(id, filename.as_str());
        let download_url = link.clone();
        Job {
            source: Source::Direct,
            link,
            temp_file,
            upload_name: filename,
            download_url,
            caption: String::from_str("Downloaded via Uploader Bot"),
            known_size: None,
            error: None,
            phase: Phase::Start,
        }
    }

    /// A TikTok job for `link`, under a fresh random identifier.
    pub fn tiktok(link: String) -> (j: Job)
        ensures
            j.source == Source::TikTok,
            j.link == link,
            exists|id: Seq<char>| is_uuid_text(id) && j.temp_file@ == tiktok_temp_spec(id),
            j.upload_name@ == "tiktok_video.mp4"@,
            j.download_url@ == Seq::<char>::empty(),
            j.caption@ == Seq::<char>::empty(),
            j.known_size is None,
            j.error is None,
            j.phase == Phase::Start,
    {
        let id = random_uuid_text();
        Job::tiktok_with_id(link, id.as_str())
    }

    /// A direct-link job for `link`, under a fresh random identifier.
    pub fn direct(link: String) -> (j: Job)
        ensures
            j.source == Source::Direct,
            j.link == link,
            exists|id: Seq<char>|
                is_uuid_text(id) && j.temp_file@ == direct_temp_spec(id, filename_spec(link@)),
            j.upload_name@ == filename_spec(link@),
            j.download_url@ == link@,
            j.caption@ == "Downloaded via Uploader Bot"@,
            j.known_size is None,
            j.error is None,
            j.phase == Phase::Start,
    {
        let id = random_uuid_text();
        Job::direct_with_id(link, id.as_str())
    }

    /// Advances the job by one event.
    pub fn step(self, event: Event) -> (r: (Job, Action))
        ensures
            transition(self, event, r.0, r.1),
    {
        let j = self;
        match (j.phase, event) {
            (Phase::Start, Event::Begin) => (Job { phase: Phase::AwaitPermit, ..j }, Action::AcquirePermit),
            (Phase::AwaitPermit, Event::PermitGranted) => {
                let notice = match j.source {
                    Source::TikTok => Notice::FetchingInfo,
                    Source::Direct => Notice::CheckingLink,
                };
                (Job { phase: Phase::AwaitStatus, ..j }, Action::SendStatus(notice))
            },
            (Phase::AwaitPermit, Event::PermitClosed) => (
                Job { phase: Phase::Finished, error: Some(JobError::PermitClosed), ..j },
                Action::Finish,
            ),
            (Phase::AwaitStatus, Event::StatusSent) => match j.source {
                Source::TikTok => (Job { phase: Phase::AwaitInfo, ..j }, Action::FetchInfo),
                Source::Direct => (Job { phase: Phase::AwaitProbe, ..j }, Action::ProbeSize),
            },
            (Phase::AwaitStatus, Event::StatusFailed(reason)) => (
                Job { phase: Phase::Finished, error: Some(JobError::Status(reason)), ..j },
                Action::Finish,
            ),
            (Phase::AwaitInfo, Event::InfoFetched(Err(err))) => (
                Job { phase: Phase::ShowFailure, error: Some(JobError::Fetch(err)), ..j },
                Action::EditStatus(Notice::Failure),
            ),
            (Phase::AwaitInfo, Event::InfoFetched(Ok(info))) => {
                match info.size_bytes {
                    Some(size) => {
                        if size > MAX_TELEGRAM_FILE_SIZE {
                            return (
                                Job {
                                    phase: Phase::ShowFailure,
                                    known_size: info.size_bytes,
                                    error: Some(JobError::TooLarge(size)),
                                    ..j
                                },
                                Action::EditStatus(Notice::Failure),
                            );
                        }
                    },
                    None => {},
                }
                let caption = if info.title.as_str().is_empty() {
                    String::from_str("Downloaded via TikTok Bot")
                } else {
                    info.title
                };
                (
                    Job {
                        phase: Phase::ShowDownloading,
                        download_url: info.download_url,
                        caption,
                        known_size: info.size_bytes,
                        ..j
                    },
                    Action::EditStatus(Notice::Downloading),
                )
            },
            (Phase::AwaitProbe, Event::Probed(size)) => {
                match size {
                    Some(s) => {
                        if s > MAX_TELEGRAM_FILE_SIZE {
                            return (
                                Job {
                                    phase: Phase::ShowFailure,
                                    known_size: size,
                                    error: Some(JobError::TooLarge(s)),
                                    ..j
                                },
                                Action::EditStatus(Notice::Failure),
                            );
                        }
                    },
                    None => {},
                }
                (
                    Job { phase: Phase::ShowDownloading, known_size: size, ..j },
                    Action::EditStatus(Notice::Downloading),
                )
            },
            (Phase::ShowFailure, Event::Done) => (Job { phase: Phase::Finished, ..j }, Action::Finish),
            (Phase::ShowDownloading, Event::Done) => (Job { phase: Phase::AwaitHttp, ..j }, Action::FetchHttp),
            (Phase::AwaitHttp, Event::Downloaded(Ok(()))) => (
                Job { phase: Phase::AwaitWrite, ..j },
                Action::WriteTempFile,
            ),
            (Phase::AwaitHttp, Event::Downloaded(Err(_))) => (Job { phase: Phase::AwaitTool, ..j }, Action::RunTool),
            (Phase::AwaitTool, Event::Downloaded(Ok(()))) => (
                Job { phase: Phase::AwaitWrite, ..j },
                Action::WriteTempFile,
            ),
            (Phase::AwaitTool, Event::Downloaded(Err(err))) => (
                Job {
                    phase: Phase::CleanAfterFailure,
                    error: Some(JobError::Download(err)),
                    ..j
                },
                Action::RemoveTempFile,
            ),
            (Phase::AwaitWrite, Event::Written(Ok(()))) => (
                Job { phase: Phase::ShowUploading, ..j },
                Action::EditStatus(Notice::Uploading),
            ),
            (Phase::AwaitWrite, Event::Written(Err(reason))) => (
                Job {
                    phase: Phase::CleanAfterFailure,
                    error: Some(JobError::Download(DownloadError::Io(reason))),
                    ..j
                },
                Action::RemoveTempFile,
            ),
            (Phase::CleanAfterFailure, Event::Done) => (
                Job { phase: Phase::ShowFailure, ..j },
                Action::EditStatus(Notice::Failure),
            ),
            (Phase::ShowUploading, Event::Done) => (Job { phase: Phase::AwaitSend, ..j }, Action::SendVideo),
            (Phase::AwaitSend, Event::VideoSent(Ok(()))) => (
                Job { phase: Phase::CleanAfterSend, ..j },
                Action::RemoveTempFile,
            ),
            (Phase::AwaitSend, Event::VideoSent(Err(reason))) => (
                Job { phase: Phase::CleanAfterSend, error: Some(JobError::Upload(reason)), ..j },
                Action::RemoveTempFile,
            ),
            (Phase::CleanAfterSend, Event::Done) => (Job { phase: Phase::AwaitDelete, ..j }, Action::DeleteStatus),
            (Phase::AwaitDelete, Event::Done) => {
                if j.error.is_some() {
                    (Job { phase: Phase::ReportFailure, ..j }, Action::SendReply(Notice::Failure))
                } else {
                    (Job { phase: Phase::Finished, ..j }, Action::Finish)
                }
            },
            (Phase::ReportFailure, Event::Done) => (Job { phase: Phase::Finished, ..j }, Action::Finish),
            _ => (j, Action::Idle),
        }
    }
}

} // verus!
