//! Text payloads for a terminal-style portfolio page.

pub mod art;
pub mod fetch;
pub mod formats;
pub mod laws;
pub mod memo;
pub mod portfolio;
pub mod strings;
pub mod structs;
pub mod texts;
