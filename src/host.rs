use vstd::prelude::*;
use crate::event::{Publication, PublicationView};
use crate::value::{copy_address, Address};

verus! {

/// The host context of one invocation: the executing contract's identity, the
/// ledger clock, and the log of what was published, in order.
pub struct Host {
    contract: Address,
    timestamp: u64,
    published: Vec<Publication>,
}

/// The mathematical content of a [`Host`].
pub struct HostView {
    pub contract: Address,
    pub timestamp: u64,
    pub log: Seq<PublicationView>,
}

impl View for Host {
    type V = HostView;

    closed spec fn view(&self) -> HostView {
        HostView {
            contract: self.contract,
            timestamp: self.timestamp,
            log: self.published@.map_values(|p: Publication| p@),
        }
    }
}

impl Host {
    /// A host for `contract` whose clock reads `timestamp`, with nothing published.
    pub fn new(contract: Address, timestamp: u64) -> (r: Host)
        ensures
            r@.contract == contract,
            r@.timestamp == timestamp,
            r@.log == Seq::<PublicationView>::empty(),
    {
        let r = Host { contract, timestamp, published: Vec::new() };
        assert(r@.log =~= Seq::<PublicationView>::empty());
        r
    }

    /// The executing contract's own identity.
    pub fn self_identity(&self) -> (r: Address)
        ensures
            r == self@.contract,
    {
        copy_address(&self.contract)
    }

    /// The ledger clock.
    pub fn now(&self) -> (r: u64)
        ensures
            r == self@.timestamp,
    {
        self.timestamp
    }

    /// Moves the clock forward to `timestamp`.
    pub fn advance_clock(&mut self, timestamp: u64)
        requires
            old(self)@.timestamp <= timestamp,
        ensures
            final(self)@ == (HostView { timestamp, ..old(self)@ }),
    {
        self.timestamp = timestamp;
    }

    /// Appends `p` to the log.
    pub fn publish(&mut self, p: Publication)
        ensures
            final(self)@ == (HostView { log: old(self)@.log.push(p@), ..old(self)@ }),
    {
        let ghost prev = self@;
        self.published.push(p);
        assert(self@.log =~= prev.log.push(p@));
    }

    /// What was published, in order.
    pub fn published(&self) -> (r: &Vec<Publication>)
        ensures
            r@.map_values(|p: Publication| p@) == self@.log,
    {
        &self.published
    }

    /// Hands out what was published, in order, and empties the log.
    pub fn take_published(&mut self) -> (r: Vec<Publication>)
        ensures
            r@.map_values(|p: Publication| p@) == old(self)@.log,
            final(self)@ == (HostView { log: Seq::<PublicationView>::empty(), ..old(self)@ }),
    {
        let mut r: Vec<Publication> = Vec::new();
        core::mem::swap(&mut r, &mut self.published);
        assert(self@.log =~= Seq::<PublicationView>::empty());
        r
    }
}

} // verus!
