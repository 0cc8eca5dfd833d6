use vstd::prelude::*;

pub mod byte_order;
pub mod client;
pub mod bytes_buffer;
pub mod config;
pub mod errors;
pub mod logic;
pub mod server;
pub mod settings;
pub mod ui;
pub mod utils;

verus! {

} // verus!
