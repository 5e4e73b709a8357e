//! Template-based task planning: recurring task templates, week generation,
//! daytime blocks and the rules that turn user input into Linear requests.

pub mod api;
pub mod calendar;
pub mod commands;
pub mod config;
pub mod display;
pub mod models;
pub mod templates;
pub mod text;
