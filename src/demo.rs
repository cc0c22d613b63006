//! The demo's input and lifecycle state: whether it keeps running, and how
//! it answers the window's events.
use vstd::prelude::*;

verus! {

/// Events that the demo queues for itself.
pub enum Event {
    /// The demo is to stop.
    Exit,
}

/// A key as the demo tells keys apart.
#[derive(PartialEq, Eq, Structural, Clone, Copy, Debug)]
pub enum Key {
    Escape,
    Other,
}

/// The demo's state between frames.
pub struct Demo {
    pub events: Vec<Event>,
    pub running: bool,
}

impl Demo {
    /// A running demo with no queued events.
    pub fn new() -> (r: Demo)
        ensures
            r.running,
            r.events@.len() == 0,
    {
        Demo { events: Vec::new(), running: true }
    }

    /// Whether the demo agrees to close when the window asks; it always does.
    pub fn close(&mut self) -> (r: bool)
        ensures
            r,
            *final(self) == *old(self),
    {
        true
    }

    /// The cursor entered the window: nothing changes.
    pub fn on_cursor_entered(&mut self)
        ensures
            *final(self) == *old(self),
    {
    }

    /// The cursor left the window: nothing changes.
    pub fn on_cursor_left(&mut self)
        ensures
            *final(self) == *old(self),
    {
    }

    /// A device button changed state: nothing changes.
    pub fn on_button(&mut self, button: u32, pressed: bool)
        ensures
            *final(self) == *old(self),
    {
    }

    /// A key changed state: pressing Escape stops the demo, any other key
    /// changes nothing.
    pub fn on_key(&mut self, key: Key, pressed: bool)
        ensures
            final(self).running == (old(self).running && !(key == Key::Escape && pressed)),
            final(self).events == old(self).events,
    {
        if key == Key::Escape && pressed {
            self.running = false;
        }
    }
}

} // verus!
