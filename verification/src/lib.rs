//! A speedcubing practice timer: scrambles, a block-letter stopwatch and a
//! running session average, as a verified core that a terminal front end
//! drives.
//!
//! The core decides and describes; it never touches the terminal. A front
//! end reads the keyboard and the clock, hands what it found to a
//! [`Session`], and carries out the frames of [`Command`]s that come back.

pub mod clock;
pub mod cube;
pub mod glyph;
pub mod scramble;
pub mod screen;
pub mod session;

pub use clock::format_seconds;
pub use cube::{Face, Mod, Move};
pub use scramble::{generate_scramble, generate_scramble_with, is_valid_scramble};
pub use screen::{
    clock_screen, init_screen, ready_screen, render_time, summary_screen, Color, Command, Screen,
};
pub use session::{average, timer, AverageError, Input, Phase, Session};
