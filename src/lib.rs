//! An environment-configured logging engine.
//!
//! A configuration text such as `all=info,net=debug` is parsed into a
//! [`FilterConfig`]: a global default severity and a severity per target.
//! A [`Logger`] holds the active configuration, decides for each log call
//! whether it is enabled, and renders enabled calls into one text line.
//! The process-wide lock, the environment and the output stream belong to
//! the program around the library.
pub mod severity;
pub mod text;
pub mod filter;
pub mod logger;
pub mod laws;

pub use severity::Severity;
pub use text::{decimal_text, pad_right, split_on};
pub use filter::{level_from_token, FilterConfig, TargetLevel};
pub use logger::{format_record, init, layout_line, thread_number, Logger};
