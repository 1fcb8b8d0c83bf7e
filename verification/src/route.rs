//! A route object: a remote object that owns the channel it talks through.

use vstd::prelude::*;

verus! {

/// A route, holding the channel of the remote object it stands for.
pub struct Route<C> {
    channel: C,
}

impl<C> Route<C> {
    /// The channel that the route holds.
    pub closed spec fn held(&self) -> C {
        self.channel
    }

    pub fn new(channel: C) -> (r: Self)
        ensures
            r.held() == channel,
    {
        Route { channel }
    }

    pub fn channel(&self) -> (r: &C)
        ensures
            *r == self.held(),
    {
        &self.channel
    }

    /// The channel, for changing it in place: what is written through the
    /// reference is what the route then holds.
    pub fn channel_mut(&mut self) -> (r: &mut C)
        ensures
            *r == old(self).held(),
            final(self).held() == *final(r),
    {
        &mut self.channel
    }
}

} // verus!
