//! A web-scraping and browser-automation engine: jobs name a page and the
//! actions to run on it, a scheduler runs them with bounded concurrency and
//! retries failures as a healing policy decides, and results are kept as JSON.
//!
//! The library holds the engine's decisions; the caller performs the I/O
//! (HTTP, the browser driver, files, timers) and reports back.

pub mod actions;
pub mod browser;
pub mod captcha;
pub mod codec;
pub mod error;
pub mod healing;
pub mod job;
pub mod json;
pub mod output;
pub mod parser;
pub mod scheduler;
pub mod scripts;
pub mod storage;
pub mod text;
pub mod timeouts;
pub mod wait;
