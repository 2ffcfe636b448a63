//! Fixed limits and endpoints of the bot.
use vstd::prelude::*;

verus! {

/// Telegram's upload limit for bots: 50 MB.
pub const MAX_TELEGRAM_FILE_SIZE: u64 = 50 * 1024 * 1024;

/// How many downloads may run at the same time.
pub const MAX_CONCURRENT_JOBS: usize = 2;

/// Timeout of every HTTP operation, in seconds.
pub const HTTP_TIMEOUT_SECS: u64 = 60;

/// Timeout for establishing a connection, in seconds.
pub const CONNECT_TIMEOUT_SECS: u64 = 20;

/// How many redirects a request may follow.
pub const MAX_REDIRECTS: usize = 10;

/// Idle connections kept per host.
pub const MAX_IDLE_PER_HOST: usize = 2;

/// Timeout of the yt-dlp fallback, in seconds.
pub const TOOL_TIMEOUT_SECS: u64 = 180;

/// The User-Agent the HTTP client sends.
pub const USER_AGENT: &'static str =
    "Mozilla/5.0 (Windows NT 10.0; Win64; x64) AppleWebKit/537.36 (KHTML, like Gecko) Chrome/122.0.0.0 Safari/537.36";

/// The TikWM endpoint that resolves TikTok links.
pub const TIKWM_API_URL: &'static str = "https://www.tikwm.com/api/";

/// The origin that relative TikWM download paths are resolved against.
pub const TIKWM_BASE_URL: &'static str = "https://www.tikwm.com";

} // verus!
