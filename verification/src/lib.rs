//! Verified core of a Discord moderation and utility bot for Roblox
//! community servers: reply texts, embeds, lookups and scanning plans,
//! with the bot's I/O left to the application around it.

pub mod text;
pub mod time;
pub mod scanner;
pub mod config;
pub mod models;
pub mod lookup;
pub mod roblox;
pub mod ip_intel;
pub mod sysinfo;
pub mod commands;
