//! The TikWM API: its response model and how a response becomes a download.
use vstd::prelude::*;
use crate::download::{is_success, is_success_spec};
use crate::settings::TIKWM_BASE_URL;

verus! {

/// The JSON body that the TikWM API answers with.
#[derive(Debug)]
pub struct TikWmResponse {
    pub code: i32,
    pub msg: Option<String>,
    pub data: Option<TikWmData>,
}

/// The `data` payload of a TikWM answer.
#[derive(Debug)]
pub struct TikWmData {
    pub id: Option<String>,
    pub title: Option<String>,
    pub play: Option<String>,
    pub hdplay: Option<String>,
    pub size: Option<u64>,
}

/// What the bot needs to know to download and caption a video.
#[derive(Debug, Clone)]
pub struct VideoInfo {
    pub title: String,
    pub download_url: String,
    pub size_bytes: Option<u64>,
}


/// Why the TikWM API gave no usable video.
#[derive(Debug)]
pub enum FetchError {
    /// The request did not finish in time.
    TimedOut,
    /// The HTTP client failed (its message).
    Request(String),
    /// The API answered with a non-success HTTP status (its text).
    Status(String),
    /// The body was not the expected JSON (the decoder's message).
    Decode(String),
    /// The API reported an error code, with its message.
    Api { code: i32, msg: String },
    /// The answer had no `data` payload.
    NoData,
    /// The payload named no video URL.
    NoVideoUrl,
}

/// The form the TikWM API is asked with: the link, and a request for HD.
pub fn tikwm_form(tiktok_url: &str) -> (r: Vec<(String, String)>)
    ensures
        r@.len() == 2,
        r@[0].0@ == "url"@ && r@[0].1@ == tiktok_url@,
        r@[1].0@ == "hd"@ && r@[1].1@ == "1"@,
{
    let mut v: Vec<(String, String)> = Vec::new();
    v.push((String::from_str("url"), String::from_str(tiktok_url)));
    v.push((String::from_str("hd"), String::from_str("1")));
    v
}

/// Whether the API's HTTP status lets its body be read.
pub fn check_api_status(status: u16, status_text: String) -> (r: Result<(), FetchError>)
    ensures
        is_success_spec(status) ==> r is Ok,
        !is_success_spec(status) ==> (r matches Err(FetchError::Status(t)) && t@ == status_text@),
{
    if is_success(status) {
        Ok(())
    } else {
        Err(FetchError::Status(status_text))
    }
}

/// The link the payload offers: the HD link unless it is missing or empty, else the plain one.
pub open spec fn chosen_link(d: TikWmData) -> Option<Seq<char>> {
    match d.hdplay {
        Some(h) if h@.len() > 0 => Some(h@),
        _ => match d.play {
            Some(p) => Some(p@),
            None => None,
        },
    }
}

/// A link as the downloader fetches it: paths starting with `/` are resolved against TikWM.
pub open spec fn absolute_link(raw: Seq<char>) -> Seq<char> {
    if raw.len() > 0 && raw[0] == '/' {
        TIKWM_BASE_URL@ + raw
    } else {
        raw
    }
}

/// Law: the HD link is taken when it is present and not empty; otherwise the
/// plain link, whether the HD link is absent or empty; and there is a link
/// exactly when one of these holds.
pub proof fn law_link_choice(d: TikWmData)
    ensures
        d.hdplay is Some && d.hdplay->0@.len() > 0 ==> chosen_link(d) == Some(d.hdplay->0@),
        !(d.hdplay is Some && d.hdplay->0@.len() > 0) && d.play is Some ==> chosen_link(d) == Some(
            d.play->0@,
        ),
        chosen_link(d) is Some <==> (d.hdplay is Some && d.hdplay->0@.len() > 0) || d.play is Some,
{
}

/// Law: a link starting with `/` is resolved against `https://www.tikwm.com`;
/// any other link is used as it is.
pub proof fn law_absolute_link(raw: Seq<char>)
    ensures
        raw.len() > 0 && raw[0] == '/' ==> absolute_link(raw) == "https://www.tikwm.com"@ + raw,
        !(raw.len() > 0 && raw[0] == '/') ==> absolute_link(raw) == raw,
{
}

/// The title a video is captioned with: the payload's, or `TikTok Video` when absent.
pub open spec fn title_of(d: TikWmData) -> Seq<char> {
    match d.title {
        Some(t) => t@,
        None => "TikTok Video"@,
    }
}

/// The message of an API error: the API's, or `Unknown API error` when absent.
pub open spec fn api_message(msg: Option<String>) -> Seq<char> {
    match msg {
        Some(m) => m@,
        None => "Unknown API error"@,
    }
}

/// Law: the caption title and the API error message fall back to fixed texts
/// only when the API gave none.
pub proof fn law_defaults(d: TikWmData, msg: Option<String>)
    ensures
        d.title is Some ==> title_of(d) == d.title->0@,
        d.title is None ==> title_of(d) == "TikTok Video"@,
        msg is Some ==> api_message(msg) == msg->0@,
        msg is None ==> api_message(msg) == "Unknown API error"@,
{
}

/// The video a TikWM answer describes, or why it describes none.
pub fn video_info_from_response(resp: TikWmResponse) -> (r: Result<VideoInfo, FetchError>)
    ensures
        resp.code != 0 ==> (r matches Err(FetchError::Api { code, msg }) && code == resp.code
            && msg@ == api_message(resp.msg)),
        resp.code == 0 && resp.data is None ==> r matches Err(FetchError::NoData),
        resp.code == 0 && resp.data is Some && chosen_link(resp.data->0) is None ==> r matches Err(
            FetchError::NoVideoUrl,
        ),
        resp.code == 0 && resp.data is Some && chosen_link(resp.data->0) is Some ==> (r matches Ok(
            info,
        ) && info.download_url@ == absolute_link(chosen_link(resp.data->0)->0) && info.title@
            == title_of(resp.data->0) && info.size_bytes == resp.data->0.size),
{
    if resp.code != 0 {
        let msg = match resp.msg {
            Some(m) => m,
            None => String::from_str("Unknown API error"),
        };
        return Err(FetchError::Api { code: resp.code, msg });
    }
    let data = match resp.data {
        Some(d) => d,
        None => {
            return Err(FetchError::NoData);
        },
    };
    let raw = match data.hdplay {
        Some(h) if !h.as_str().is_empty() => h,
        _ => match data.play {
            Some(p) => p,
            None => {
                return Err(FetchError::NoVideoUrl);
            },
        },
    };
    let starts_with_slash = {
        let s = raw.as_str();
        if s.is_empty() {
            false
        } else {
            s.get_char(0) == '/'
        }
    };
    let download_url = if starts_with_slash {
        let mut u = String::from_str(TIKWM_BASE_URL);
        u.append(raw.as_str());
        u
    } else {
        raw
    };
    let title = match data.title {
        Some(t) => t,
        None => String::from_str("TikTok Video"),
    };
    Ok(VideoInfo { title, download_url, size_bytes: data.size })
}

} // verus!
