use vstd::prelude::*;

verus! {

/// The cache of a connected device: the latest message of every kind.
pub trait MessageContainer {
    /// What the device class sends.
    type Message;

    /// What the host has to do once a message has been stored.
    type Notice;

    /// Whether the device has told what it is and how it is set: both its
    /// configuration and its setup frame have arrived.
    spec fn has_device_info(&self) -> bool;

    /// Stores `message` in the slot of its kind. What a device has once told
    /// of itself is never lost.
    fn cache_message(&mut self, message: Self::Message) -> (notice: Self::Notice)
        ensures
            old(self).has_device_info() ==> final(self).has_device_info(),
    ;

    /// Whether a wait for the device's first frames is over.
    fn wait_for_device_info(&self) -> (ready: bool)
        ensures
            ready == self.has_device_info(),
    ;
}

} // verus!
