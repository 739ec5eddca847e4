//! Events that an application hands to the elements it hosts.

use vstd::prelude::*;

verus! {

/// An event, by its name.
pub struct Event<'a>(pub &'a str);

/// Something that takes events.
pub trait HandleEvent {
    fn handle_event(&mut self, event: Event);
}

} // verus!
