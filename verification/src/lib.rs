//! The decision logic of the BrioschenBot Telegram/TeamSpeak bot: how
//! messages are classified into commands, how automatic replies are chosen,
//! how TeamSpeak commands are planned, and the text formatting they rely on.
pub mod text;
pub mod pattern;
pub mod reply;
pub mod commands;
pub mod teamspeak;
pub mod chance;
pub mod users;
pub mod config;
pub mod relay;
