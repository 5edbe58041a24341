//! Position control for a hobby servo driven by a PWM signal generator.
//!
//! The crate turns a commanded angle into the pulse width that encodes it,
//! keeps track of the last commanded angle, and says which requests the
//! signal generator has to carry out for each operation. It never touches
//! the generator itself: every operation hands back the requests, in the
//! order in which they are to be performed.

pub mod builder;
pub mod command;
pub mod pulse;
pub mod servo;
pub mod time;

pub use builder::{ConfigError, ServoPioBuilder};
pub use command::PwmCommand;
pub use servo::Servo;
