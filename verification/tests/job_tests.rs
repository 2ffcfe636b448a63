use uploader::download::DownloadError;
use uploader::job::{Action, Event, Job, JobError, Notice, Phase, Source};
use uploader::naming::{direct_temp_name, tiktok_temp_name};
use uploader::tikwm::{FetchError, VideoInfo};

fn run(mut job: Job, events: Vec<Event>) -> (Job, Vec<Action>) {
    let mut acts = Vec::new();
    for e in events {
        let (j, a) = job.step(e);
        job = j;
        acts.push(a);
    }
    (job, acts)
}

fn info(size: Option<u64>, title: &str) -> VideoInfo {
    VideoInfo { title: title.to_string(), download_url: "https://v/hd.mp4".to_string(), size_bytes: size }
}

#[test]
fn tiktok_happy_path() {
    let job = Job::tiktok_with_id("https://www.tiktok.com/@a/video/1".to_string(), "id");
    assert_eq!(job.temp_file, "tiktok_id.mp4");
    assert_eq!(job.upload_name, "tiktok_video.mp4");
    let (job, acts) = run(
        job,
        vec![
            Event::Begin,
            Event::PermitGranted,
            Event::StatusSent,
            Event::InfoFetched(Ok(info(Some(1000), ""))),
            Event::Done,
            Event::Downloaded(Ok(())),
            Event::Written(Ok(())),
            Event::Done,
            Event::VideoSent(Ok(())),
            Event::Done,
            Event::Done,
        ],
    );
    assert_eq!(
        acts,
        vec![
            Action::AcquirePermit,
            Action::SendStatus(Notice::FetchingInfo),
            Action::FetchInfo,
            Action::EditStatus(Notice::Downloading),
            Action::FetchHttp,
            Action::WriteTempFile,
            Action::EditStatus(Notice::Uploading),
            Action::SendVideo,
            Action::RemoveTempFile,
            Action::DeleteStatus,
            Action::Finish,
        ]
    );
    assert_eq!(job.phase, Phase::Finished);
    assert!(job.error.is_none());
    assert_eq!(job.caption, "Downloaded via TikTok Bot");
    assert_eq!(job.download_url, "https://v/hd.mp4");
}

#[test]
fn tiktok_title_becomes_caption() {
    let job = Job::tiktok_with_id("t".to_string(), "id");
    let (job, _) = run(
        job,
        vec![Event::Begin, Event::PermitGranted, Event::StatusSent, Event::InfoFetched(Ok(info(None, "My clip")))],
    );
    assert_eq!(job.caption, "My clip");
    assert_eq!(job.phase, Phase::ShowDownloading);
}

#[test]
fn tiktok_too_large_is_refused_before_download() {
    let job = Job::tiktok_with_id("t".to_string(), "id");
    let (job, acts) = run(
        job,
        vec![
            Event::Begin,
            Event::PermitGranted,
            Event::StatusSent,
            Event::InfoFetched(Ok(info(Some(50 * 1024 * 1024 + 1), "x"))),
            Event::Done,
        ],
    );
    assert_eq!(acts[3], Action::EditStatus(Notice::Failure));
    assert_eq!(acts[4], Action::Finish);
    assert!(matches!(job.error, Some(JobError::TooLarge(52428801))));
    assert!(!acts.contains(&Action::FetchHttp));
}

#[test]
fn exactly_the_limit_is_allowed() {
    let job = Job::tiktok_with_id("t".to_string(), "id");
    let (_, acts) = run(
        job,
        vec![Event::Begin, Event::PermitGranted, Event::StatusSent, Event::InfoFetched(Ok(info(Some(50 * 1024 * 1024), "x")))],
    );
    assert_eq!(acts[3], Action::EditStatus(Notice::Downloading));
}

#[test]
fn fetch_error_is_reported() {
    let job = Job::tiktok_with_id("t".to_string(), "id");
    let (job, acts) = run(
        job,
        vec![Event::Begin, Event::PermitGranted, Event::StatusSent, Event::InfoFetched(Err(FetchError::NoData)), Event::Done],
    );
    assert_eq!(acts[3..].to_vec(), vec![Action::EditStatus(Notice::Failure), Action::Finish]);
    assert!(matches!(job.error, Some(JobError::Fetch(FetchError::NoData))));
}

#[test]
fn direct_job_fields() {
    let url = "https://jilhub.org/contents/videos/11000/11058/11058.mp4";
    let job = Job::direct_with_id(url.to_string(), "u1");
    assert_eq!(job.source, Source::Direct);
    assert_eq!(job.temp_file, "direct_u1_11058.mp4");
    assert_eq!(job.temp_file, direct_temp_name("u1", "11058.mp4"));
    assert_eq!(job.upload_name, "11058.mp4");
    assert_eq!(job.download_url, url);
    assert_eq!(job.caption, "Downloaded via Uploader Bot");
}

#[test]
fn direct_fallback_then_store_failure_cleans_up() {
    let job = Job::direct_with_id("https://a.com/v.mp4".to_string(), "u");
    let (job, acts) = run(
        job,
        vec![
            Event::Begin,
            Event::PermitGranted,
            Event::StatusSent,
            Event::Probed(None),
            Event::Done,
            Event::Downloaded(Err(DownloadError::Status("403 Forbidden".to_string()))),
            Event::Downloaded(Ok(())),
            Event::Written(Err("disk full".to_string())),
            Event::Done,
            Event::Done,
        ],
    );
    assert_eq!(
        acts,
        vec![
            Action::AcquirePermit,
            Action::SendStatus(Notice::CheckingLink),
            Action::ProbeSize,
            Action::EditStatus(Notice::Downloading),
            Action::FetchHttp,
            Action::RunTool,
            Action::WriteTempFile,
            Action::RemoveTempFile,
            Action::EditStatus(Notice::Failure),
            Action::Finish,
        ]
    );
    match job.error {
        Some(JobError::Download(DownloadError::Io(e))) => assert_eq!(e, "disk full"),
        other => panic!("unexpected {:?}", other),
    }
}

#[test]
fn direct_probe_too_large() {
    let job = Job::direct_with_id("https://a.com/v.mp4".to_string(), "u");
    let (job, acts) = run(
        job,
        vec![Event::Begin, Event::PermitGranted, Event::StatusSent, Event::Probed(Some(60 * 1024 * 1024)), Event::Done],
    );
    assert_eq!(acts[3..].to_vec(), vec![Action::EditStatus(Notice::Failure), Action::Finish]);
    assert!(matches!(job.error, Some(JobError::TooLarge(_))));
}

#[test]
fn both_downloads_fail() {
    let job = Job::direct_with_id("https://a.com/v.mp4".to_string(), "u");
    let (job, acts) = run(
        job,
        vec![
            Event::Begin,
            Event::PermitGranted,
            Event::StatusSent,
            Event::Probed(Some(10)),
            Event::Done,
            Event::Downloaded(Err(DownloadError::TimedOut)),
            Event::Downloaded(Err(DownloadError::ToolTimedOut)),
            Event::Done,
            Event::Done,
        ],
    );
    assert_eq!(acts[5..].to_vec(), vec![Action::RunTool, Action::RemoveTempFile, Action::EditStatus(Notice::Failure), Action::Finish]);
    assert!(matches!(job.error, Some(JobError::Download(DownloadError::ToolTimedOut))));
}

#[test]
fn upload_failure_is_reported_after_cleanup() {
    let job = Job::tiktok_with_id("t".to_string(), "id");
    let (job, acts) = run(
        job,
        vec![
            Event::Begin,
            Event::PermitGranted,
            Event::StatusSent,
            Event::InfoFetched(Ok(info(None, "x"))),
            Event::Done,
            Event::Downloaded(Ok(())),
            Event::Written(Ok(())),
            Event::Done,
            Event::VideoSent(Err("too big".to_string())),
            Event::Done,
            Event::Done,
            Event::Done,
        ],
    );
    assert_eq!(
        acts[8..].to_vec(),
        vec![Action::RemoveTempFile, Action::DeleteStatus, Action::SendReply(Notice::Failure), Action::Finish]
    );
    assert!(matches!(job.error, Some(JobError::Upload(_))));
}

#[test]
fn permit_and_status_failures() {
    let (job, acts) = run(Job::tiktok_with_id("t".to_string(), "id"), vec![Event::Begin, Event::PermitClosed]);
    assert_eq!(acts, vec![Action::AcquirePermit, Action::Finish]);
    assert!(matches!(job.error, Some(JobError::PermitClosed)));
    let (job, acts) = run(
        Job::tiktok_with_id("t".to_string(), "id"),
        vec![Event::Begin, Event::PermitGranted, Event::StatusFailed("blocked".to_string())],
    );
    assert_eq!(acts[2], Action::Finish);
    assert!(matches!(job.error, Some(JobError::Status(_))));
}

#[test]
fn mismatched_events_change_nothing_and_finished_jobs_stay_finished() {
    let (job, acts) = run(Job::tiktok_with_id("t".to_string(), "id"), vec![Event::Done, Event::StatusSent]);
    assert_eq!(acts, vec![Action::Idle, Action::Idle]);
    assert_eq!(job.phase, Phase::Start);
    let (job, acts) = run(job, vec![Event::Begin, Event::PermitClosed, Event::Begin, Event::Done]);
    assert_eq!(acts[2..].to_vec(), vec![Action::Idle, Action::Idle]);
    assert_eq!(job.phase, Phase::Finished);
}

#[test]
fn random_names_are_fresh() {
    let a = Job::tiktok("t".to_string());
    let b = Job::tiktok("t".to_string());
    assert_ne!(a.temp_file, b.temp_file);
    assert!(a.temp_file.starts_with("tiktok_") && a.temp_file.ends_with(".mp4"));
    assert_eq!(a.temp_file.len(), "tiktok_".len() + 36 + ".mp4".len());
    assert!(!a.temp_file.contains('/'));
    let d = Job::direct("https://a.com/dir/clip.webm?x=1".to_string());
    assert!(d.temp_file.starts_with("direct_") && d.temp_file.ends_with("_clip.webm"));
    assert_eq!(tiktok_temp_name("q"), "tiktok_q.mp4");
}

#[test]
fn every_job_ends_within_fourteen_actions() {
    let mut job = Job::direct_with_id("https://a.com/v.mp4".to_string(), "u");
    let events = vec![
        Event::Begin,
        Event::PermitGranted,
        Event::StatusSent,
        Event::Probed(Some(5)),
        Event::Done,
        Event::Downloaded(Err(DownloadError::Empty)),
        Event::Downloaded(Ok(())),
        Event::Written(Ok(())),
        Event::Done,
        Event::VideoSent(Err("x".to_string())),
        Event::Done,
        Event::Done,
        Event::Done,
    ];
    let mut busy = 0;
    let mut live = false;
    for e in events {
        let (j, a) = job.step(e);
        job = j;
        if a != Action::Idle {
            busy += 1;
        }
        if a == Action::WriteTempFile {
            live = true;
        }
        if a == Action::RemoveTempFile {
            live = false;
        }
        if a == Action::Finish {
            assert!(!live);
        }
    }
    assert_eq!(job.phase, Phase::Finished);
    assert!(busy <= 14);
}
