//! GTK UI
pub mod app;
pub mod logic;
