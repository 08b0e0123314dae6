//! The logic of sicth, an inline file navigator: settings, listings, the navigator's
//! state machine, what is drawn, how files are opened, and the shell integration.
pub mod text;
pub mod settings;
pub mod model;
pub mod app;
pub mod app_laws;
pub mod setup;
pub mod terminal;
pub mod open;
pub mod render;
pub mod help;
pub mod quit;
pub mod settings_laws;
pub mod setup_laws;
