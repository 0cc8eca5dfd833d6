use vstd::prelude::*;

verus! {

/// Capacity of the bounded event channels between components.
pub const EVENT_CHANNEL_SIZE: usize = 32;

} // verus!
