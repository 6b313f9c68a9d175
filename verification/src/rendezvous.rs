//! The two-party startup rendezvous between the environment-setup side and
//! the client execution side. Both participants must arrive before the run
//! may proceed; each side arrives exactly once, and the rendezvous serves
//! only the single startup handshake.

use vstd::prelude::*;

verus! {

/// The one-shot two-party rendezvous. It is complete once both the setup
/// side and the client side have arrived; no traffic may be dispatched
/// before that.
#[derive(Clone, Copy, PartialEq, Eq, Structural, Debug)]
pub struct Rendezvous {
    pub setup_arrived: bool,
    pub client_arrived: bool,
}

impl Rendezvous {
    /// A fresh rendezvous: nobody has arrived.
    pub fn new() -> (r: Self)
        ensures
            !r.setup_arrived,
            !r.client_arrived,
    {
        Rendezvous { setup_arrived: false, client_arrived: false }
    }

    /// Both participants have arrived: the run may proceed.
    pub open spec fn complete(self) -> bool {
        self.setup_arrived && self.client_arrived
    }

    /// The setup side arrives, once, after all resources the workloads need
    /// are ready.
    pub fn arrive_setup(&mut self)
        requires
            !old(self).setup_arrived,
        ensures
            final(self).setup_arrived,
            final(self).client_arrived == old(self).client_arrived,
    {
        self.setup_arrived = true;
    }

    /// The client execution side arrives, once.
    pub fn arrive_client(&mut self)
        requires
            !old(self).client_arrived,
        ensures
            final(self).client_arrived,
            final(self).setup_arrived == old(self).setup_arrived,
    {
        self.client_arrived = true;
    }

    /// Whether both participants have arrived.
    pub fn is_complete(&self) -> (r: bool)
        ensures
            r == self.complete(),
    {
        self.setup_arrived && self.client_arrived
    }
}

} // verus!
