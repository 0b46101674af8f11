//! Identities of capture sessions and of the presses they admit.
use vstd::prelude::*;
use vstd::string::StringExecFns;

use crate::table::Key;

verus! {

/// One incarnation of a device's capture session.
///
/// The epoch tells incarnations apart, so that state keyed by session is never inherited by a
/// replacement.
#[derive(Debug, PartialEq, Eq, Hash)]
pub struct HidppSessionId {
    device_key: String,
    epoch: u64,
}

/// Which session an id names.
pub struct SessionName {
    pub device_key: Seq<char>,
    pub epoch: u64,
}

impl View for HidppSessionId {
    type V = SessionName;

    closed spec fn view(&self) -> SessionName {
        SessionName { device_key: self.device_key@, epoch: self.epoch }
    }
}

impl HidppSessionId {
    /// The session of a device under an epoch.
    pub fn with_epoch(device_key: &str, epoch: u64) -> (session: Self)
        ensures
            session@ == (SessionName { device_key: device_key@, epoch }),
    {
        HidppSessionId { device_key: String::from_str(device_key), epoch }
    }

    /// The device's configuration key.
    pub fn device_key(&self) -> (key: &str)
        ensures
            key@ == self@.device_key,
    {
        self.device_key.as_str()
    }

    /// The incarnation.
    pub fn epoch(&self) -> (epoch: u64)
        ensures
            epoch == self@.epoch,
    {
        self.epoch
    }
}

impl Key for HidppSessionId {
    fn same(&self, other: &Self) -> (same: bool) {
        self.epoch == other.epoch && self.device_key == other.device_key
    }

    fn duplicate(&self) -> (copy: Self) {
        HidppSessionId { device_key: self.device_key.clone(), epoch: self.epoch }
    }
}

impl Clone for HidppSessionId {
    fn clone(&self) -> (copy: Self)
        ensures
            copy@ == self@,
    {
        self.duplicate()
    }
}

/// A physical press admitted by the button runtime, which alone knows whether it is still active.
#[derive(Clone, Copy, Debug, PartialEq, Eq, Hash, Structural)]
pub struct PressToken {
    pub id: u64,
}

} // verus!
