use uploader::download::DownloadError;
use uploader::job::{JobError, Notice};
use uploader::messages::{
    download_error_text, fetch_error_text, job_error_text, notice_text, signed_decimal,
};
use uploader::tikwm::FetchError;

#[test]
fn signed_numbers() {
    for n in [0i32, 7, -1, -2147483648, 2147483647, 1234] {
        assert_eq!(signed_decimal(n), n.to_string());
    }
}

#[test]
fn fetch_texts() {
    assert_eq!(fetch_error_text(&FetchError::TimedOut), "Request to TikWM API timed out after 60 seconds");
    assert_eq!(
        fetch_error_text(&FetchError::Api { code: -1, msg: "bad".to_string() }),
        "TikWM API error (code -1): bad"
    );
    assert_eq!(
        fetch_error_text(&FetchError::Status("404 Not Found".to_string())),
        "TikWM API returned HTTP status 404 Not Found"
    );
    assert_eq!(fetch_error_text(&FetchError::NoData), "TikWM API returned no data payload");
    assert_eq!(fetch_error_text(&FetchError::NoVideoUrl), "No video download URL found in API response");
    assert_eq!(fetch_error_text(&FetchError::Decode("eof".to_string())), "eof");
}

#[test]
fn download_texts() {
    assert_eq!(download_error_text(&DownloadError::Status("403 Forbidden".into())).unwrap(), "HTTP 403 Forbidden");
    assert_eq!(download_error_text(&DownloadError::ToolTimedOut).unwrap(), "yt-dlp timed out after 180 seconds");
    assert_eq!(
        download_error_text(&DownloadError::ToolFailed { stdout: "o".into(), stderr: "e".into() }).unwrap(),
        "yt-dlp failed: o e"
    );
    assert_eq!(
        download_error_text(&DownloadError::ToolNotStarted("not found".into())).unwrap(),
        "Failed to start yt-dlp: not found. Is yt-dlp installed?"
    );
    assert_eq!(download_error_text(&DownloadError::Empty).unwrap(), "Downloaded file is empty");
    assert!(download_error_text(&DownloadError::TooLarge(1)).is_none());
    assert!(download_error_text(&DownloadError::DeclaredTooLarge(1)).is_none());
}

#[test]
fn job_and_notice_texts() {
    assert_eq!(job_error_text(&JobError::PermitClosed).unwrap(), "Semaphore closed");
    assert!(job_error_text(&JobError::TooLarge(5)).is_none());
    assert_eq!(notice_text(Notice::Downloading, &None).unwrap(), "📥 Downloading video...");
    assert_eq!(notice_text(Notice::FetchingInfo, &None).unwrap(), "⏳ Fetching TikTok video info...");
    assert_eq!(
        notice_text(Notice::Failure, &Some(JobError::Fetch(FetchError::NoData))).unwrap(),
        "❌ Error: TikWM API returned no data payload"
    );
    assert_eq!(
        notice_text(Notice::Failure, &Some(JobError::Download(DownloadError::Empty))).unwrap(),
        "❌ Download failed: Downloaded file is empty"
    );
    assert_eq!(
        notice_text(Notice::Failure, &Some(JobError::Upload("x".into()))).unwrap(),
        "❌ Failed to send video: x"
    );
    assert!(notice_text(Notice::Failure, &Some(JobError::TooLarge(9))).is_none());
}
