//! The program logic: the server loop that runs beside the UI.
pub mod server;

use vstd::prelude::*;

verus! {

/// Events from the server logic to the UI.
#[derive(Debug)]
pub enum Event {
    InitStart,
    InitError,
    InitEnd,
    Message(String),
    CloseProgram,
}

} // verus!
