//! The records that the bot keeps.

pub mod clock;
pub mod guilds;
