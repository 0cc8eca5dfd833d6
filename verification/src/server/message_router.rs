//! Message router for sending messages between components.
use crate::server::audio::AudioEvent;
use crate::server::device::DeviceManagerEvent;
use crate::server::ui::UiEvent;
use vstd::prelude::*;

verus! {

/// Events for the router itself.
#[derive(Debug, PartialEq, Eq, Structural)]
pub enum RouterEvent {
    SendQuitRequest,
}

/// A message to one component. `H` is the audio send handle carried by
/// audio events.
#[derive(Debug)]
pub enum RouterMessage<H> {
    AudioServer(AudioEvent<H>),
    DeviceManager(DeviceManagerEvent),
    Ui(UiEvent),
    Router(RouterEvent),
}

/// Where the router delivers a message.
#[derive(Debug)]
pub enum Route<H> {
    /// Deliver to the audio manager.
    Audio(AudioEvent<H>),
    /// Deliver to the device manager.
    DeviceManager(DeviceManagerEvent),
    /// Deliver to the UI connection task.
    Ui(UiEvent),
    /// A message for the router itself; nothing is delivered.
    Keep(RouterEvent),
}

/// Each message is delivered, unchanged, to the component that it names;
/// messages for the router itself are delivered nowhere.
pub fn route<H>(message: RouterMessage<H>) -> (r: Route<H>)
    ensures
        message matches RouterMessage::AudioServer(e) ==> r == Route::Audio(e),
        message matches RouterMessage::DeviceManager(e) ==> r == Route::<H>::DeviceManager(e),
        message matches RouterMessage::Ui(e) ==> r == Route::<H>::Ui(e),
        message matches RouterMessage::Router(e) ==> r == Route::<H>::Keep(e),
{
    match message {
        RouterMessage::AudioServer(e) => Route::Audio(e),
        RouterMessage::DeviceManager(e) => Route::DeviceManager(e),
        RouterMessage::Ui(e) => Route::Ui(e),
        RouterMessage::Router(e) => Route::Keep(e),
    }
}

} // verus!
