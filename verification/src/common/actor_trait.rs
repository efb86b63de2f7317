//! The channel pair through which actors are reached.

use vstd::prelude::*;

verus! {

/// A pair of channel ends: a sender (the microphone, for commands to an
/// actor) and a receiver (the earpiece, for events from it). Either end may
/// be absent, to allow flexible set-up and handing over of ownership.
#[derive(Debug)]
pub struct ChannelPair<S, R> {
    /// Sends commands or data to the actor.
    pub tx: Option<S>,
    /// Receives events or data from the actor.
    pub rx: Option<R>,
}

impl<S, R> ChannelPair<S, R> {
    /// The pair of the given ends.
    pub fn new(tx: Option<S>, rx: Option<R>) -> (r: Self)
        ensures
            r.tx == tx,
            r.rx == rx,
    {
        ChannelPair { tx, rx }
    }
}

impl<S, R> Default for ChannelPair<S, R> {
    /// A pair with neither end.
    fn default() -> (r: Self)
        ensures
            r.tx is None,
            r.rx is None,
    {
        ChannelPair { tx: None, rx: None }
    }
}

} // verus!
