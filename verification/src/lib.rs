//! A small greeting library: it resolves a display name from a command-line
//! argument list, rejects invocations with more than one positional argument,
//! and renders either the greeting line or a diagnostic error line.

pub mod greet;
pub mod laws;
pub mod text;

pub use greet::greeting;
pub use greet::parseNameFromArgs;
pub use greet::run;
pub use greet::InvalidArgumentsError;
pub use text::str_is_blank;
