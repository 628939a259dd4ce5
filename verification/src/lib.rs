//! Decision logic of the UMOD Codex launcher: proxy start-up, program
//! lookup, command composition and the state of the launcher window.

pub mod text;
pub mod clock;
pub mod ui;
pub mod proxy;
pub mod lookup;
pub mod codex;
pub mod app;
pub mod laws;
