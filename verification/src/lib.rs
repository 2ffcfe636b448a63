//! Verified core of a Telegram bot that fetches TikTok and direct video links.
pub mod download;
pub mod job;
pub mod links;
pub mod messages;
pub mod naming;
pub mod settings;
pub mod text;
pub mod tikwm;
pub mod ytdlp;
