//! A structured console logger: a message and optional context become one
//! formatted, optionally coloured, optionally timestamped line, gated by a
//! severity threshold and handed to a sink.
//!
//! The library computes; the caller supplies what the process holds (the
//! environment's threshold override, whether it runs on a serverless host,
//! the local time) and passes each line that is due to its sink.
pub mod border;
pub mod clock;
pub mod colour;
pub mod global;
pub mod laws;
pub mod level;
pub mod logger;
pub mod pretty;
pub mod term;
pub mod text;

pub use border::{Border, BorderCharSet};
pub use clock::{LocalTime, Timestamp};
pub use colour::{default_colour_for, Colour, CustomColour};
pub use global::GlobalLog;
pub use level::{LogLevel, ParseLogLevelError};
pub use logger::{Log, LogrsBuilder, AWS_LAMBDA_ENV_VAR_NAME, LOG_LEVEL_ENV_VAR_NAME};
pub use pretty::pretty;
pub use term::Printer;
