//! Database access layer of the guild bot: the connection handshake, the
//! statement executor, the schema migration check and the guild repository,
//! written so that every decision is made here and only the network round
//! trips are left to the caller.

pub mod db;
pub mod models;
