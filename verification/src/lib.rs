//! The logic of better-answer: a global shortcut that rewrites the selected text with a language
//! model and puts the result back.

pub mod text;
pub mod hotkey;
pub mod config;
pub mod json;
pub mod llm;
pub mod hook;
pub mod win;
pub mod window;
pub mod tray;
pub mod shortcuts;
pub mod icon;
pub mod app;
pub mod cli;
pub mod laws;
pub mod journeys;
