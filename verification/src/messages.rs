//! The texts shown to users and returned as errors.  Texts that state a size
//! in megabytes are not built here (they need a fractional number); the
//! functions answer `None` for them.
use vstd::prelude::*;
use crate::download::{opt_view, DownloadError};
use crate::job::{JobError, Notice};
use crate::settings::{HTTP_TIMEOUT_SECS, TOOL_TIMEOUT_SECS};
use crate::text::{decimal, decimal_spec};
use crate::tikwm::FetchError;

verus! {

/// The decimal representation of `n`, with a leading `-` when negative.
pub open spec fn signed_decimal_spec(n: int) -> Seq<char> {
    if n < 0 {
        "-"@ + decimal_spec((-n) as nat)
    } else {
        decimal_spec(n as nat)
    }
}

/// The decimal representation of `n` (as `n.to_string()`).
pub fn signed_decimal(n: i32) -> (r: String)
    ensures
        r@ == signed_decimal_spec(n as int),
{
    if n < 0 {
        let m: u64 = (-(n as i64)) as u64;
        let mut s = String::from_str("-");
        let d = decimal(m);
        s.append(d.as_str());
        s
    } else {
        decimal(n as u64)
    }
}

/// The text of a fetch error.
pub open spec fn fetch_error_spec(e: FetchError) -> Seq<char> {
    match e {
        FetchError::TimedOut => "Request to TikWM API timed out after "@ + decimal_spec(
            HTTP_TIMEOUT_SECS as nat,
        ) + " seconds"@,
        FetchError::Request(s) => s@,
        FetchError::Status(s) => "TikWM API returned HTTP status "@ + s@,
        FetchError::Decode(s) => s@,
        FetchError::Api { code, msg } => "TikWM API error (code "@ + signed_decimal_spec(
            code as int,
        ) + "): "@ + msg@,
        FetchError::NoData => "TikWM API returned no data payload"@,
        FetchError::NoVideoUrl => "No video download URL found in API response"@,
    }
}

/// The text of a fetch error.
pub fn fetch_error_text(e: &FetchError) -> (r: String)
    ensures
        r@ == fetch_error_spec(*e),
{
    match e {
        FetchError::TimedOut => {
            let mut s = String::from_str("Request to TikWM API timed out after ");
            let d = decimal(HTTP_TIMEOUT_SECS);
            s.append(d.as_str());
            s.append(" seconds");
            s
        },
        FetchError::Request(m) => m.clone(),
        FetchError::Status(m) => {
            let mut s = String::from_str("TikWM API returned HTTP status ");
            s.append(m.as_str());
            s
        },
        FetchError::Decode(m) => m.clone(),
        FetchError::Api { code, msg } => {
            let mut s = String::from_str("TikWM API error (code ");
            let d = signed_decimal(*code);
            s.append(d.as_str());
            s.append("): ");
            s.append(msg.as_str());
            s
        },
        FetchError::NoData => String::from_str("TikWM API returned no data payload"),
        FetchError::NoVideoUrl => String::from_str("No video download URL found in API response"),
    }
}

/// The text of a download error, except for the errors that state a size.
pub open spec fn download_error_spec(e: DownloadError) -> Option<Seq<char>> {
    match e {
        DownloadError::TimedOut => Some(
            "Video download timed out after "@ + decimal_spec(HTTP_TIMEOUT_SECS as nat)
                + " seconds"@,
        ),
        DownloadError::Request(s) => Some(s@),
        DownloadError::Status(s) => Some("HTTP "@ + s@),
        DownloadError::DeclaredTooLarge(_) => None,
        DownloadError::TooLarge(_) => None,
        DownloadError::Empty => Some("Downloaded file is empty"@),
        DownloadError::ToolTimedOut => Some(
            "yt-dlp timed out after "@ + decimal_spec(TOOL_TIMEOUT_SECS as nat) + " seconds"@,
        ),
        DownloadError::ToolNotStarted(s) => Some(
            "Failed to start yt-dlp: "@ + s@ + ". Is yt-dlp installed?"@,
        ),
        DownloadError::ToolFailed { stdout, stderr } => Some(
            "yt-dlp failed: "@ + stdout@ + " "@ + stderr@,
        ),
        DownloadError::ToolOutputMissing(s) => Some(
            "yt-dlp finished but output file not found. stderr: "@ + s@,
        ),
        DownloadError::ToolEmpty => Some("yt-dlp returned empty file"@),
        DownloadError::Io(s) => Some(s@),
    }
}

/// The text of a download error; `None` for the errors that state a size.
pub fn download_error_text(e: &DownloadError) -> (r: Option<String>)
    ensures
        opt_view(r) == download_error_spec(*e),
{
    match e {
        DownloadError::TimedOut => {
            let mut s = String::from_str("Video download timed out after ");
            let d = decimal(HTTP_TIMEOUT_SECS);
            s.append(d.as_str());
            s.append(" seconds");
            Some(s)
        },
        DownloadError::Request(m) => Some(m.clone()),
        DownloadError::Status(m) => {
            let mut s = String::from_str("HTTP ");
            s.append(m.as_str());
            Some(s)
        },
        DownloadError::DeclaredTooLarge(_) => None,
        DownloadError::TooLarge(_) => None,
        DownloadError::Empty => Some(String::from_str("Downloaded file is empty")),
        DownloadError::ToolTimedOut => {
            let mut s = String::from_str("yt-dlp timed out after ");
            let d = decimal(TOOL_TIMEOUT_SECS);
            s.append(d.as_str());
            s.append(" seconds");
            Some(s)
        },
        DownloadError::ToolNotStarted(m) => {
            let mut s = String::from_str("Failed to start yt-dlp: ");
            s.append(m.as_str());
            s.append(". Is yt-dlp installed?");
            Some(s)
        },
        DownloadError::ToolFailed { stdout, stderr } => {
            let mut s = String::from_str("yt-dlp failed: ");
            s.append(stdout.as_str());
            s.append(" ");
            s.append(stderr.as_str());
            Some(s)
        },
        DownloadError::ToolOutputMissing(m) => {
            let mut s = String::from_str("yt-dlp finished but output file not found. stderr: ");
            s.append(m.as_str());
            Some(s)
        },
        DownloadError::ToolEmpty => Some(String::from_str("yt-dlp returned empty file")),
        DownloadError::Io(m) => Some(m.clone()),
    }
}

/// The error a failed job returns, except for the errors that state a size.
pub open spec fn job_error_spec(e: JobError) -> Option<Seq<char>> {
    match e {
        JobError::PermitClosed => Some("Semaphore closed"@),
        JobError::Status(s) => Some(s@),
        JobError::Fetch(f) => Some(fetch_error_spec(f)),
        JobError::TooLarge(_) => None,
        JobError::Download(d) => download_error_spec(d),
        JobError::Upload(s) => Some(s@),
    }
}

/// The error a failed job returns; `None` for the errors that state a size.
pub fn job_error_text(e: &JobError) -> (r: Option<String>)
    ensures
        opt_view(r) == job_error_spec(*e),
{
    match e {
        JobError::PermitClosed => Some(String::from_str("Semaphore closed")),
        JobError::Status(s) => Some(s.clone()),
        JobError::Fetch(f) => Some(fetch_error_text(f)),
        JobError::TooLarge(_) => None,
        JobError::Download(d) => download_error_text(d),
        JobError::Upload(s) => Some(s.clone()),
    }
}

/// `prefix` before an optional text.
pub open spec fn prefixed(prefix: Seq<char>, t: Option<Seq<char>>) -> Option<Seq<char>> {
    match t {
        Some(x) => Some(prefix + x),
        None => None,
    }
}

/// The text of a notice, given the job's error; `None` when it states a size.
pub open spec fn notice_spec(n: Notice, error: Option<JobError>) -> Option<Seq<char>> {
    match n {
        Notice::FetchingInfo => Some("⏳ Fetching TikTok video info..."@),
        Notice::CheckingLink => Some("⏳ Checking direct video URL..."@),
        Notice::Downloading => Some("📥 Downloading video..."@),
        Notice::Uploading => Some("📤 Uploading to Telegram..."@),
        Notice::Failure => match error {
            Some(JobError::Download(d)) => prefixed("❌ Download failed: "@, download_error_spec(d)),
            Some(JobError::Upload(s)) => Some("❌ Failed to send video: "@ + s@),
            Some(JobError::TooLarge(_)) => None,
            Some(e) => prefixed("❌ Error: "@, job_error_spec(e)),
            None => Some("❌ Error"@),
        },
    }
}

fn prefix_text(prefix: &str, t: Option<String>) -> (r: Option<String>)
    ensures
        opt_view(r) == prefixed(prefix@, opt_view(t)),
{
    match t {
        Some(x) => {
            let mut s = String::from_str(prefix);
            s.append(x.as_str());
            Some(s)
        },
        None => None,
    }
}

/// The text of a notice, given the job's error; `None` when it states a size.
pub fn notice_text(n: Notice, error: &Option<JobError>) -> (r: Option<String>)
    ensures
        opt_view(r) == notice_spec(n, *error),
{
    match n {
        Notice::FetchingInfo => Some(String::from_str("⏳ Fetching TikTok video info...")),
        Notice::CheckingLink => Some(String::from_str("⏳ Checking direct video URL...")),
        Notice::Downloading => Some(String::from_str("📥 Downloading video...")),
        Notice::Uploading => Some(String::from_str("📤 Uploading to Telegram...")),
        Notice::Failure => match error {
            Some(JobError::Download(d)) => prefix_text("❌ Download failed: ", download_error_text(d)),
            Some(JobError::Upload(s)) => {
                let mut t = String::from_str("❌ Failed to send video: ");
                t.append(s.as_str());
                Some(t)
            },
            Some(JobError::TooLarge(_)) => None,
            Some(e) => prefix_text("❌ Error: ", job_error_text(e)),
            None => Some(String::from_str("❌ Error")),
        },
    }
}

} // verus!
