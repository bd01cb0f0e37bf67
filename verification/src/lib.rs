//! A small presentation library for command-line programs: it formats status
//! messages (error, info, success, warning) with icons, colors, and an
//! optional highlighted suffix, and renders the lines that a file sink
//! appends to a log file.
//!
//! A caller builds a `LoggerOptions` record (default or customized), obtains
//! a `Logger` bound to it, and asks the logger to render or print a message.
//! A message is split on its first `:`; the part before it is the head, the
//! remainder the tail, and the tail may be highlighted with the severity's
//! background color. Colors are active only when both standard streams are
//! interactive terminals; otherwise every palette entry is the empty string.

pub mod message;
pub mod palette;
pub mod options;
pub mod render;
pub mod logger;
pub mod standalone;
pub mod laws;

pub use crate::message::Severity;
pub use crate::message::Sink;
pub use crate::palette::Colors;
pub use crate::options::LoggerOptions;
pub use crate::logger::Logger;
pub use crate::logger::echo_requested;
