use vstd::prelude::*;

use crate::color::Color;

verus! {

/// Error returned by `send` when the consumer side of the channel has been
/// permanently closed: the frame can no longer reach anyone.
#[derive(Clone, Copy, Debug, PartialEq, Eq, Structural)]
pub struct ChannelClosedError;

/// What one consumer poll yields.
pub enum PollOutcome {
    /// The newest frame delivered so far.
    Ready(Vec<Color>),
    /// No frame has ever been delivered, but producer handles remain: a real
    /// consumer waits here until a frame arrives rather than taking a
    /// default value.
    WouldBlock,
    /// No frame is buffered and every producer handle is gone: no frame can
    /// ever arrive.
    Disconnected,
}

/// The abstract state of a latest-wins channel: the single retained slot,
/// whether the consumer side is still open, and how many producer handles
/// are live.
pub struct ChannelView {
    pub latest: Option<Seq<Color>>,
    pub consumer_open: bool,
    pub producers: nat,
}

/// The state a send leaves behind: with an open consumer the new frame
/// overwrites whatever the slot held (latest write wins); with a closed
/// consumer nothing changes.
pub open spec fn send_result(s: ChannelView, frame: Seq<Color>) -> ChannelView {
    if s.consumer_open {
        ChannelView { latest: Some(frame), consumer_open: s.consumer_open, producers: s.producers }
    } else {
        s
    }
}

/// The state left after sending each frame of `frames` in order.
pub open spec fn send_all(s: ChannelView, frames: Seq<Seq<Color>>) -> ChannelView
    decreases frames.len(),
{
    if frames.len() == 0 {
        s
    } else {
        send_all(send_result(s, frames.first()), frames.drop_first())
    }
}

/// Law (latest write wins): while the consumer stays open, a run of sends
/// leaves exactly the newest frame in the slot, so a consumer polling only
/// after all of them sees the last frame sent and never an earlier one.
pub proof fn lemma_latest_wins(s: ChannelView, frames: Seq<Seq<Color>>)
    requires
        s.consumer_open,
        frames.len() > 0,
    ensures
        send_all(s, frames).latest == Some(frames.last()),
        send_all(s, frames).consumer_open,
        send_all(s, frames).producers == s.producers,
    decreases frames.len(),
{
    let stepped = send_result(s, frames.first());
    if frames.len() == 1 {
        assert(frames.drop_first().len() == 0);
        assert(frames.first() == frames.last());
    } else {
        lemma_latest_wins(stepped, frames.drop_first());
        assert(frames.drop_first().last() == frames.last());
    }
}

/// A single-slot, latest-wins handoff from many producers to one consumer.
///
/// This is the channel's state and transition logic: a mailbox of capacity
/// one where a new frame overwrites any unread prior one, so no backlog ever
/// builds up and the consumer always observes the newest delivered frame.
/// The blocking, locking and thread handles of a running system live outside
/// this crate; they call these methods to decide and record what happens.
pub struct LatestFrameChannel {
    latest: Option<Vec<Color>>,
    consumer_open: bool,
    producers: usize,
}

impl View for LatestFrameChannel {
    type V = ChannelView;

    closed spec fn view(&self) -> ChannelView {
        ChannelView {
            latest: match self.latest {
                Some(frame) => Some(frame@),
                None => None,
            },
            consumer_open: self.consumer_open,
            producers: self.producers as nat,
        }
    }
}

impl LatestFrameChannel {
    /// A fresh channel: empty slot, open consumer, and one producer handle
    /// (the one the accept loop will clone for each connection).
    pub fn new() -> (c: LatestFrameChannel)
        ensures
            c@.latest is None,
            c@.consumer_open,
            c@.producers == 1,
    {
        LatestFrameChannel { latest: None, consumer_open: true, producers: 1 }
    }

    /// Number of live producer handles.
    pub fn producer_count(&self) -> (n: usize)
        ensures
            n == self@.producers,
    {
        self.producers
    }

    /// Whether the consumer side is still open.
    pub fn is_consumer_open(&self) -> (open_: bool)
        ensures
            open_ == self@.consumer_open,
    {
        self.consumer_open
    }

    /// Record the cloning of a producer handle for a new connection.
    pub fn clone_producer(&mut self)
        requires
            old(self)@.producers > 0,
            old(self)@.producers < usize::MAX,
        ensures
            final(self)@ == (ChannelView { producers: old(self)@.producers + 1, ..old(self)@ }),
    {
        self.producers = self.producers + 1;
    }

    /// Record that a producer handle was dropped (its connection ended).
    pub fn drop_producer(&mut self)
        requires
            old(self)@.producers > 0,
        ensures
            final(self)@ == (ChannelView {
                producers: (old(self)@.producers - 1) as nat,
                ..old(self)@
            }),
    {
        self.producers = self.producers - 1;
    }

    /// Record that the consumer's only reader handle was dropped. The slot is
    /// emptied — a buffered frame can no longer be observed — and every later
    /// send fails.
    pub fn close_consumer(&mut self)
        ensures
            final(self)@ == (ChannelView {
                latest: None,
                consumer_open: false,
                producers: old(self)@.producers,
            }),
    {
        self.latest = None;
        self.consumer_open = false;
    }

    /// Producer-side delivery. Never waits on consumer readiness: with an
    /// open consumer the frame overwrites the slot (latest write wins) and
    /// the send succeeds; with a closed consumer the channel is unchanged and
    /// the send fails with `ChannelClosedError` — exactly then.
    pub fn send(&mut self, frame: Vec<Color>) -> (r: Result<(), ChannelClosedError>)
        requires
            old(self)@.producers > 0,
        ensures
            final(self)@ == send_result(old(self)@, frame@),
            r is Ok <==> old(self)@.consumer_open,
    {
        if self.consumer_open {
            self.latest = Some(frame);
            Ok(())
        } else {
            Err(ChannelClosedError)
        }
    }

    /// Consumer-side poll: yields the newest delivered frame, without
    /// consuming it, so a repeated poll legitimately yields the same frame
    /// again until a newer one overwrites it. When nothing has ever been
    /// delivered it yields no frame — `WouldBlock` while producers remain
    /// (a real consumer blocks there), `Disconnected` once all are gone.
    pub fn poll_latest(&self) -> (r: PollOutcome)
        requires
            self@.consumer_open,
        ensures
            (r matches PollOutcome::Ready(frame) ==> self@.latest == Some(frame@)),
            self@.latest is Some ==> r is Ready,
            r is WouldBlock <==> (self@.latest is None && self@.producers > 0),
            r is Disconnected <==> (self@.latest is None && self@.producers == 0),
    {
        match &self.latest {
            Some(frame) => PollOutcome::Ready(clone_frame(frame)),
            None => {
                if self.producers > 0 {
                    PollOutcome::WouldBlock
                } else {
                    PollOutcome::Disconnected
                }
            },
        }
    }
}

/// An element-for-element copy of a frame, so a poll can hand the buffered
/// frame out while the slot keeps it.
fn clone_frame(frame: &Vec<Color>) -> (copy: Vec<Color>)
    ensures
        copy@ == frame@,
{
    let mut copy: Vec<Color> = Vec::new();
    let mut i: usize = 0;
    while i < frame.len()
        invariant
            i <= frame@.len(),
            copy@ == frame@.take(i as int),
        decreases frame@.len() - i,
    {
        copy.push(frame[i]);
        proof {
            assert(copy@ =~= frame@.take(i + 1 as int));
        }
        i = i + 1;
    }
    proof {
        assert(copy@ =~= frame@);
    }
    copy
}

} // verus!
