//! The command interpretation core of a small interactive shell.
//!
//! A line of text is cut into tokens by the lexer, the tokens are built into a
//! [`runner::command::Runnable`] by the parser, and the runner decides, one step
//! at a time, what the operating system is to be asked next and which exit
//! status the line ends with.

pub mod parser;
pub mod runner;
pub mod util;
