use vstd::prelude::*;

use crate::channel::ChannelClosedError;
use crate::channel::LatestFrameChannel;
use crate::channel::send_result;
use crate::decoder::decode_frame;
use crate::decoder::decoded;

verus! {

/// What one blocking read of a full fixed-size frame produced for a
/// connection handler.
pub enum ReadEvent {
    /// Exactly one full frame's worth of bytes arrived.
    Bytes(Vec<u8>),
    /// The read failed: peer closed, a short read mid-frame, or any other
    /// I/O error. The protocol has no framing markers, so a partial read is
    /// unrecoverable and the connection must be dropped.
    Failed,
}

/// One iteration of the per-connection read–decode–deliver loop.
///
/// On a full read the buffer is decoded and the frame delivered to the
/// shared channel; the handler keeps going exactly when the delivery
/// succeeded. On a failed read, or when the consumer side is gone, the
/// handler stops and the channel is left unchanged — in particular a short
/// read never delivers any frame.
pub fn handler_step(channel: &mut LatestFrameChannel, event: ReadEvent) -> (keep_going: bool)
    requires
        old(channel)@.producers > 0,
    ensures
        (event matches ReadEvent::Bytes(buffer) ==> {
            &&& final(channel)@ == send_result(old(channel)@, decoded(buffer@))
            &&& keep_going == old(channel)@.consumer_open
        }),
        (event is Failed ==> {
            &&& final(channel)@ == old(channel)@
            &&& !keep_going
        }),
{
    match event {
        ReadEvent::Bytes(buffer) => {
            let frame = decode_frame(buffer.as_slice());
            match channel.send(frame) {
                Ok(()) => true,
                Err(ChannelClosedError) => false,
            }
        },
        ReadEvent::Failed => false,
    }
}

} // verus!
