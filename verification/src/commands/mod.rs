//! What each slash command answers, computed from the values the
//! application fetched for it.

pub mod embed;
pub mod identity;
pub mod moderation;
pub mod network;
pub mod player_stats;
pub mod time_date;
pub mod system;
