//! Neutral logical touch frames, what the classifier consumes.
//!
//! They carry native pad units and pad ticks, and are independent of any wire format.
use vstd::prelude::*;

verus! {

/// One finger in contact with the pad, as reported by the touch controller.
#[derive(Clone, Copy, Debug, PartialEq, Eq, Structural)]
pub struct TouchContact {
    /// Controller-assigned finger id, stable while the finger stays down.
    pub finger_id: u8,
    /// X in native pad units, growing to the right.
    pub x: u16,
    /// Y in native pad units, growing downwards.
    pub y: u16,
}

/// One logical touch frame: every finger touching the pad at one sampling instant.
#[derive(Debug, PartialEq, Eq)]
pub struct TouchFrame {
    /// Running frame timestamp in pad ticks. Wraps; two timestamps are only ever compared through
    /// wrapping subtraction.
    pub timestamp: u16,
    /// The fingers in contact this frame.
    pub contacts: Vec<TouchContact>,
}

impl Clone for TouchFrame {
    fn clone(&self) -> (copy: Self)
        ensures
            copy.timestamp == self.timestamp,
            copy.contacts@ == self.contacts@,
    {
        TouchFrame { timestamp: self.timestamp, contacts: copy_contacts(&self.contacts) }
    }
}

/// Copies a list of contacts.
pub(crate) fn copy_contacts(contacts: &Vec<TouchContact>) -> (copy: Vec<TouchContact>)
    ensures
        copy@ == contacts@,
{
    let mut copy: Vec<TouchContact> = Vec::new();
    let mut i: usize = 0;
    while i < contacts.len()
        invariant
            i <= contacts@.len(),
            copy@ == contacts@.take(i as int),
        decreases contacts@.len() - i,
    {
        copy.push(contacts[i]);
        i = i + 1;
    }
    copy
}

impl Default for TouchFrame {
    fn default() -> (frame: Self)
        ensures
            frame.timestamp == 0,
            frame.contacts@.len() == 0,
    {
        TouchFrame { timestamp: 0, contacts: Vec::new() }
    }
}

} // verus!
