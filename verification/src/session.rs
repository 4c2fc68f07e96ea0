//! Count of connected remotes, which decides when the connect and
//! disconnect commands of the configuration run.
use vstd::prelude::*;

verus! {

/// The number of remotes being handled.
pub struct ConnectionCounter {
    count: u32,
}

impl ConnectionCounter {
    pub closed spec fn connected(&self) -> nat {
        self.count as nat
    }

    pub fn new() -> (r: ConnectionCounter)
        ensures
            r.connected() == 0,
    {
        ConnectionCounter { count: 0 }
    }

    /// A remote connected. Returns whether it is the first one, in which
    /// case the connect command runs.
    pub fn connect(&mut self) -> (first: bool)
        requires
            old(self).connected() < u32::MAX,
        ensures
            first == (old(self).connected() == 0),
            final(self).connected() == old(self).connected() + 1,
    {
        let first = self.count == 0;
        self.count = self.count + 1;
        first
    }

    /// A remote disconnected. Returns whether it was the last one, in which
    /// case the disconnect command runs.
    pub fn disconnect(&mut self) -> (last: bool)
        requires
            old(self).connected() > 0,
        ensures
            final(self).connected() == old(self).connected() - 1,
            last == (final(self).connected() == 0),
    {
        self.count = self.count - 1;
        self.count == 0
    }

    /// Whether the disconnect command runs when the program is stopped:
    /// when some remote is still connected.
    pub fn any_connected(&self) -> (r: bool)
        ensures
            r == (self.connected() > 0),
    {
        self.count > 0
    }

    pub fn count(&self) -> (r: u32)
        ensures
            r == self.connected(),
    {
        self.count
    }
}

} // verus!
