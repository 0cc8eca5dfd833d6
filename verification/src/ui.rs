//! The GTK user interface: its decisions on buttons and on its connection
//! to the server.
pub mod gtk_ui;
