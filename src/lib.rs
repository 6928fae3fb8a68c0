//! A compact, styled layout for log lines: an optional timestamp, the level
//! with an optional emoji, the module path padded to the widest one seen so
//! far, and the message, which an installed formatter may write instead.
//!
//! The settings live in a `StyleConfig` value owned by the caller; `format`
//! lays out one line as styled segments for the output sink to paint.
pub mod config;
pub mod laws;
pub mod level;
pub mod line;

pub use config::{
    get_set_max_module_len, set_arg_formatter, set_timestamp_precision, show_emoji, show_module,
    StyleConfig, TimestampPrecision,
};
pub use level::Level;
pub use line::{plain_text, LogRecord, Segment};
