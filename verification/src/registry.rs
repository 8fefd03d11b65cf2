//! The peer membership registry, seen as a narrow capability.
//!
//! The adapter never iterates the registry; it only asks for one peer to be
//! removed when a send to that peer fails hard. The capability is injected at
//! construction, so a recording double can stand in for the real registry and
//! every removal the adapter performs is observable.

use vstd::prelude::*;
use crate::addr::NetAddr;

verus! {

/// The remove-peer capability of a membership registry.
///
/// `removed()` is the sequence of addresses handed to `remove_peer` so far,
/// in call order; the contract of `remove_peer` pins each call to exactly one
/// appended address. Removal is fire-and-forget: it is safe to call for an
/// address that is not present.
pub trait PeerRegistry: Sized {
    spec fn removed(&self) -> Seq<NetAddr>;

    fn remove_peer(&mut self, peer: NetAddr)
        ensures
            final(self).removed() == old(self).removed().push(peer),
    ;
}

/// A registry double that records every removal, in order.
pub struct RecordingRegistry {
    log: Vec<NetAddr>,
}

impl RecordingRegistry {
    pub fn new() -> (r: RecordingRegistry)
        ensures
            r.removed() == Seq::<NetAddr>::empty(),
    {
        RecordingRegistry { log: Vec::new() }
    }

    /// How many removals have been recorded.
    pub fn removal_count(&self) -> (n: usize)
        ensures
            n == self.removed().len(),
    {
        self.log.len()
    }

    /// The address of the `i`th removal.
    pub fn removal_at(&self, i: usize) -> (a: NetAddr)
        requires
            i < self.removed().len(),
        ensures
            a == self.removed()[i as int],
    {
        self.log[i]
    }
}

impl PeerRegistry for RecordingRegistry {
    closed spec fn removed(&self) -> Seq<NetAddr> {
        self.log@
    }

    fn remove_peer(&mut self, peer: NetAddr) {
        self.log.push(peer);
    }
}

} // verus!
