//! Verified core of a QA capture tool: the data model of sessions, bugs and
//! captures, the rules for naming and exporting them, prompt construction for
//! AI descriptions, hotkey configuration, QA profiles and ticketing helpers.
pub mod text;
pub mod models;
pub mod claude_cli;
pub mod hotkey;
pub mod profile;
pub mod ticketing;
pub mod platform;
pub mod capture;
pub mod export;
pub mod tray;
pub mod session;
pub mod summary;
pub mod queries;
pub mod template;
pub mod annotation;
pub mod image;
pub mod json;
pub mod session_json;
