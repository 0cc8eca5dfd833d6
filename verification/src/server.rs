//! The server: device connections, audio, the UI connection and the message
//! routing between them.
pub mod audio;
pub mod device;
pub mod message_router;
pub mod ui;
pub mod utils;
