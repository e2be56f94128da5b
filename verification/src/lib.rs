//! Fred: a Discord bot that keeps notebook entries and reminders on schedule,
//! counts boops and plays rock-paper-scissors.
//!
//! This crate holds the bot's decisions and the text it sends; the Discord and
//! database plumbing lives in the application around it.

pub mod time;
pub mod text;
pub mod ids;
pub mod db;
pub mod fred_db;
pub mod commands;
pub mod robotevents;
pub mod events;
