use vstd::prelude::*;

use crate::channel::ChannelView;
use crate::channel::LatestFrameChannel;

verus! {

/// What one accept attempt of the listening server produced.
pub enum AcceptEvent {
    /// A client connection was accepted.
    Connected,
    /// This accept attempt failed; the next connection may still succeed.
    Failed,
}

/// What the accept loop does next.
pub enum AcceptAction {
    /// Hand the new connection its own concurrent handler, holding the
    /// producer handle just cloned for it.
    SpawnHandler,
    /// Skip this attempt and keep accepting: one failed accept never
    /// terminates the loop.
    Skip,
}

/// One iteration of the accept loop. An accepted connection gets a handler
/// of its own with a freshly cloned producer handle, so reads on one
/// connection never block progress on another; a failed accept is recovered
/// locally by skipping it, leaving the channel untouched.
pub fn accept_step(channel: &mut LatestFrameChannel, event: &AcceptEvent) -> (action: AcceptAction)
    requires
        old(channel)@.producers > 0,
        old(channel)@.producers < usize::MAX,
    ensures
        (event is Connected ==> {
            &&& action is SpawnHandler
            &&& final(channel)@ == (ChannelView {
                producers: old(channel)@.producers + 1,
                ..old(channel)@
            })
        }),
        (event is Failed ==> {
            &&& action is Skip
            &&& final(channel)@ == old(channel)@
        }),
{
    match event {
        AcceptEvent::Connected => {
            channel.clone_producer();
            AcceptAction::SpawnHandler
        },
        AcceptEvent::Failed => AcceptAction::Skip,
    }
}

} // verus!
