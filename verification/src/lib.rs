//! Game rules of a Discord "grow your length" bot: cooldowns, daily rewards,
//! streaks, global events, battles, gifts, prestige and leaderboard text.
//!
//! Everything here is plain data in, plain data out; storage and the chat
//! platform live in the application around it.

pub mod board;
pub mod clock;
pub mod commands;
pub mod daily;
pub mod dotd;
pub mod dice;
pub mod events;
pub mod gift;
pub mod grow;
pub mod member;
pub mod prestige;
pub mod pvp;
pub mod streak;
pub mod text;
pub mod time;
pub mod viagra;
