//! Verified core of the `teams auth` command group.

pub mod claims;
pub mod command;
pub mod consent;
pub mod encoding;
pub mod conversation;
pub mod course;
pub mod error;
pub mod report;
pub mod session;
pub mod text;
pub mod time;
pub mod token;
pub mod views;
