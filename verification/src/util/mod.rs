//! What stands around the runner: numbers as text, and the prompt.

pub mod decimal;
pub mod prompt;
pub mod text;
