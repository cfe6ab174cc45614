//! A command line output library: leveled, optionally coloured messages
//! for the end user of a command line tool, filtered by one threshold that is
//! configured once at startup.
//!
//! The library decides; the caller writes. Configuration is gathered in a
//! [`Builder`], installed into an output slot ([`Builder::done`]), and every
//! message is turned by [`emit`] into the exact sequence of operations that a
//! coloured writer has to perform for it (or into nothing, when the message is
//! filtered out).

pub mod builder;
pub mod color;
pub mod laws;
pub mod level;
pub mod output;

pub use builder::{init, Builder};
pub use color::UseColor;
pub use level::{Fg, Level, Style};
pub use output::{emit, shutdown, Clout, CloutError, Op, Output};
