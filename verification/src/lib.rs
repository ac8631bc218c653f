//! Decision logic of a screen-aware, conservative resume assistant for the
//! Codex CLI: argument handling, command planning, path conversion, reading
//! model replies and deciding what (if anything) may run.

pub mod text;
pub mod number;
pub mod json;
pub mod reply;
pub mod args;
pub mod decision;
pub mod request;
pub mod command;
pub mod paths;
pub mod window;
pub mod clock;
pub mod run;
pub mod laws;
