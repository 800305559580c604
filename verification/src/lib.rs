//! The decision core of an interactive command loop: tokenizing a line,
//! classifying the command, planning built-ins, and rendering the prompt.
//!
//! Nothing here touches the process: the driver reads lines, changes the
//! working directory and spawns children, and reports back what happened.

pub mod command;
pub mod diagnostic;
pub mod laws;
pub mod paint;
pub mod prompt;
pub mod session;
pub mod shell;
pub mod text;
pub mod tokens;
pub mod whitespace;
