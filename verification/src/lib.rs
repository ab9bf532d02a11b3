//! Scanning a chat platform's message search for one author's messages,
//! and counting them by hour of day.
//!
//! The crate holds the decisions of the scan: which request comes next, how an
//! answer is read, how pages are merged, when the scan ends. Whoever uses it
//! sends the requests, draws the screen and reads the keyboard.
//!
//! - [`discord`]: accounts, channels, guilds and messages.
//! - [`search`]: the address of a page, and reading what the server answers.
//! - [`activity`]: the histogram of messages by hour of day.
//! - [`scan`]: the scan as a state machine, one event at a time.
//! - [`trace`]: what holds of whole scans.
//! - [`app`]: the session of the operator around the scan.
//! - [`text`]: numbers and text.

pub mod text;
pub mod discord;
pub mod search;
pub mod activity;
pub mod scan;
pub mod trace;
pub mod app;
