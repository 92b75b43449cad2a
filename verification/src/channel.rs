//! The bounded, drop-tolerant frame conduit between the pipeline's
//! media thread and the consumer.
//!
//! Sending never blocks: a frame offered to a full channel is dropped
//! (the newest one loses; whatever is buffered stays, in order).
//! Receiving is non-blocking too: an empty open channel asks the
//! consumer to wait, and once the producer has closed the channel the
//! consumer drains what is buffered and then sees the closure.

use vstd::prelude::*;

verus! {

/// One decoded image: an immutable byte buffer in a 32-bit, four
/// channel pixel format, so it holds exactly four bytes per pixel.
#[derive(PartialEq, Eq)]
pub struct Frame {
    pub width: u32,
    pub height: u32,
    pub data: Vec<u8>,
}

impl Frame {
    /// The buffer holds exactly four bytes per pixel.
    pub open spec fn wf(self) -> bool {
        self.data@.len() == (self.width as int) * (self.height as int) * 4
    }

    /// Wraps a byte buffer as a frame of the given dimensions; refused
    /// when the buffer is not exactly four bytes per pixel.
    pub fn new(width: u32, height: u32, data: Vec<u8>) -> (r: Option<Frame>)
        ensures
            match r {
                Some(f) => f == (Frame { width, height, data }) && f.wf(),
                None => data@.len() != (width as int) * (height as int) * 4,
            },
    {
        proof {
            vstd::arithmetic::mul::lemma_mul_upper_bound(
                width as int,
                0xffff_ffff,
                height as int,
                0xffff_ffff,
            );
            vstd::arithmetic::mul::lemma_mul_nonnegative(width as int, height as int);
        }
        let expected: u128 = (width as u128) * (height as u128) * 4u128;
        if (data.len() as u128) == expected {
            Some(Frame { width, height, data })
        } else {
            None
        }
    }
}

/// The mathematical content of a frame channel: the buffered frames in
/// production order, the fixed capacity, and whether the producer has
/// closed it.
#[verifier::ext_equal]
pub ghost struct ChannelModel {
    pub frames: Seq<Frame>,
    pub capacity: nat,
    pub closed: bool,
}

/// What one non-blocking send does: a frame offered to a closed or
/// full channel is dropped — the newest frame loses and the buffer is
/// left exactly as it was — and otherwise it is appended.
pub open spec fn spec_send(m: ChannelModel, f: Frame) -> (ChannelModel, bool) {
    if m.closed || m.frames.len() >= m.capacity {
        (m, false)
    } else {
        (ChannelModel { frames: m.frames.push(f), ..m }, true)
    }
}

/// What the consumer sees when it asks for the next frame.
#[derive(PartialEq, Eq)]
pub enum RecvResult {
    /// The oldest buffered frame.
    Frame(Frame),
    /// Nothing buffered yet, producer still alive: suspend and retry.
    Empty,
    /// Nothing buffered and the producer is gone: the sequence ends.
    Closed,
}

/// What one receive does: frames leave in production order; closure is
/// reported only once the buffer is drained.
pub open spec fn spec_recv(m: ChannelModel) -> (ChannelModel, RecvResult) {
    if m.frames.len() > 0 {
        (ChannelModel { frames: m.frames.drop_first(), ..m }, RecvResult::Frame(m.frames[0]))
    } else if m.closed {
        (m, RecvResult::Closed)
    } else {
        (m, RecvResult::Empty)
    }
}

/// A bounded single-producer frame channel.
pub struct FrameChannel {
    queue: Vec<Frame>,
    capacity: usize,
    closed: bool,
}

impl View for FrameChannel {
    type V = ChannelModel;

    closed spec fn view(&self) -> ChannelModel {
        ChannelModel { frames: self.queue@, capacity: self.capacity as nat, closed: self.closed }
    }
}

impl FrameChannel {
    /// An open, empty channel of the given fixed capacity.
    pub fn new(capacity: usize) -> (ch: FrameChannel)
        ensures
            ch@ == (ChannelModel {
                frames: Seq::<Frame>::empty(),
                capacity: capacity as nat,
                closed: false,
            }),
    {
        let ch = FrameChannel { queue: Vec::new(), capacity, closed: false };
        proof {
            assert(ch@ =~= ChannelModel {
                frames: Seq::<Frame>::empty(),
                capacity: capacity as nat,
                closed: false,
            });
        }
        ch
    }

    /// Offers a frame without ever blocking the producer.  Returns
    /// whether the frame was buffered; a refused frame is dropped.
    pub fn try_send(&mut self, f: Frame) -> (accepted: bool)
        ensures
            (final(self)@, accepted) == spec_send(old(self)@, f),
    {
        if self.closed || self.queue.len() >= self.capacity {
            false
        } else {
            self.queue.push(f);
            true
        }
    }

    /// Hands out the next frame, in production order, without ever
    /// blocking the consumer.
    pub fn try_recv(&mut self) -> (r: RecvResult)
        ensures
            (final(self)@, r) == spec_recv(old(self)@),
    {
        if self.queue.len() > 0 {
            let f = self.queue.remove(0);
            proof {
                assert(old(self)@.frames.remove(0) =~= old(self)@.frames.drop_first());
            }
            RecvResult::Frame(f)
        } else if self.closed {
            RecvResult::Closed
        } else {
            RecvResult::Empty
        }
    }

    /// Closes the channel: the producer is gone; what is buffered can
    /// still be drained.
    pub fn close(&mut self)
        ensures
            final(self)@ == (ChannelModel { closed: true, ..old(self)@ }),
    {
        self.closed = true;
    }

    /// How many frames are buffered.
    pub fn len(&self) -> (n: usize)
        ensures
            n == self@.frames.len(),
    {
        self.queue.len()
    }

    /// The channel's fixed capacity.
    pub fn capacity(&self) -> (c: usize)
        ensures
            c == self@.capacity,
    {
        self.capacity
    }

    /// Whether the producer has closed the channel.
    pub fn is_closed(&self) -> (b: bool)
        ensures
            b == self@.closed,
    {
        self.closed
    }

    /// Receives until the channel reports closure, collecting every
    /// frame that was buffered, in production order.
    pub fn drain(&mut self) -> (frames: Vec<Frame>)
        requires
            old(self)@.closed,
        ensures
            frames@ == old(self)@.frames,
            final(self)@ == (ChannelModel { frames: Seq::<Frame>::empty(), ..old(self)@ }),
    {
        let mut frames: Vec<Frame> = Vec::new();
        loop
            invariant
                self@.closed,
                old(self)@.closed,
                self@.capacity == old(self)@.capacity,
                frames@ + self@.frames == old(self)@.frames,
            decreases self@.frames.len(),
        {
            match self.try_recv() {
                RecvResult::Frame(f) => {
                    frames.push(f);
                    proof {
                        assert(frames@ + self@.frames =~= old(self)@.frames);
                    }
                },
                RecvResult::Empty => {
                    proof {
                        assert(false);
                    }
                },
                RecvResult::Closed => {
                    proof {
                        assert(self@.frames =~= Seq::<Frame>::empty());
                        assert(frames@ + self@.frames =~= frames@);
                        assert(self@ =~= (ChannelModel {
                            frames: Seq::<Frame>::empty(),
                            ..old(self)@
                        }));
                    }
                    return frames;
                },
            }
        }
    }
}

/// A send into a full channel drops the newest frame and leaves the
/// buffered frames unchanged, in order.
pub proof fn lemma_full_channel_drops_newest(m: ChannelModel, f: Frame)
    requires
        m.frames.len() >= m.capacity,
    ensures
        spec_send(m, f) == (m, false),
{
}

/// An accepted send appends the frame behind everything already
/// buffered: frames leave in production order, and a receive right
/// after a send still hands out the oldest buffered frame.
pub proof fn lemma_send_keeps_order(m: ChannelModel, f: Frame)
    requires
        spec_send(m, f).1,
    ensures
        spec_send(m, f).0.frames == m.frames.push(f),
        m.frames.len() > 0 ==> spec_recv(spec_send(m, f).0).1 == RecvResult::Frame(m.frames[0]),
{
    if m.frames.len() > 0 {
        assert(m.frames.push(f)[0] == m.frames[0]);
    }
}

/// What repeatedly receiving from a channel yields until it reports
/// closure or asks the consumer to wait: the buffered frames, in order.
pub open spec fn spec_drained(m: ChannelModel) -> Seq<Frame>
    decreases m.frames.len(),
{
    if m.frames.len() > 0 {
        seq![m.frames[0]] + spec_drained(spec_recv(m).0)
    } else {
        Seq::empty()
    }
}

/// Draining after the producer has closed the channel yields exactly
/// the buffered frames, in order, and then the closure — never a wait.
pub proof fn lemma_drain_after_close(m: ChannelModel)
    requires
        m.closed,
    ensures
        spec_drained(m) == m.frames,
        spec_recv(ChannelModel { frames: Seq::<Frame>::empty(), ..m }).1 == RecvResult::Closed,
    decreases m.frames.len(),
{
    if m.frames.len() > 0 {
        lemma_drain_after_close(spec_recv(m).0);
        assert(seq![m.frames[0]] + m.frames.drop_first() =~= m.frames);
    } else {
        assert(spec_drained(m) =~= m.frames);
    }
}

} // verus!
