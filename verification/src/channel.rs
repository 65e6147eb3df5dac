use vstd::prelude::*;

verus! {

/// Number of frames the bounded frame channel holds before it pushes
/// back on the producer.
pub const BUFFERED_FRAMES: usize = 30;

/// The bounded FIFO frame buffer between the acquisition loop and the
/// caller.
///
/// Frames enter at the back and leave at the front, so delivery order
/// is production order. A full buffer refuses the frame and hands it
/// back: the producer must wait for the consumer instead of dropping
/// frames or growing without bound.
pub struct FrameChannel {
    frames: Vec<Vec<u8>>,
}

/// Outcome of offering a frame to the channel.
pub enum SendOutcome {
    /// The frame was queued at the back.
    Accepted,
    /// The channel already holds `BUFFERED_FRAMES` frames; the frame
    /// comes back untouched and the producer must retry after the
    /// consumer drains.
    Full(Vec<u8>),
}

impl View for FrameChannel {
    type V = Seq<Seq<u8>>;

    closed spec fn view(&self) -> Seq<Seq<u8>> {
        self.frames.deep_view()
    }
}

/// What one send does to the channel's contents: append at the back
/// when there is room, change nothing when full.
pub open spec fn send_model(s: Seq<Seq<u8>>, f: Seq<u8>) -> Seq<Seq<u8>> {
    if s.len() < BUFFERED_FRAMES {
        s.push(f)
    } else {
        s
    }
}

/// The channel contents after sending `frames` in order into an empty
/// channel.
pub open spec fn after_sends(frames: Seq<Seq<u8>>) -> Seq<Seq<u8>>
    decreases frames.len(),
{
    if frames.len() == 0 {
        Seq::empty()
    } else {
        send_model(after_sends(frames.drop_last()), frames.last())
    }
}

impl FrameChannel {
    /// A channel starts empty.
    pub fn new() -> (c: FrameChannel)
        ensures
            c@ == Seq::<Seq<u8>>::empty(),
    {
        FrameChannel { frames: Vec::new() }
    }

    /// How many frames are queued.
    pub fn len(&self) -> (n: usize)
        ensures
            n == self@.len(),
    {
        self.frames.len()
    }

    /// Offer a frame: queued at the back while there is room; handed
    /// back untouched once `BUFFERED_FRAMES` frames are waiting.
    pub fn send(&mut self, frame: Vec<u8>) -> (r: SendOutcome)
        ensures
            final(self)@ == send_model(old(self)@, frame@),
            old(self)@.len() < BUFFERED_FRAMES ==> r is Accepted,
            old(self)@.len() >= BUFFERED_FRAMES ==> (r matches SendOutcome::Full(f) && f
                == frame),
    {
        if self.frames.len() < BUFFERED_FRAMES {
            self.frames.push(frame);
            proof {
                assert(self@ =~~= old(self)@.push(frame@));
            }
            SendOutcome::Accepted
        } else {
            SendOutcome::Full(frame)
        }
    }

    /// Take the oldest queued frame, if any.
    pub fn recv(&mut self) -> (r: Option<Vec<u8>>)
        ensures
            old(self)@.len() == 0 ==> r is None && final(self)@ == old(self)@,
            old(self)@.len() > 0 ==> (r matches Some(f) && f@ == old(self)@[0]) && final(self)@
                == old(self)@.skip(1),
    {
        if self.frames.len() == 0 {
            None
        } else {
            let f = self.frames.remove(0);
            proof {
                assert(self@ =~~= old(self)@.skip(1));
            }
            Some(f)
        }
    }
}

/// Ordering law: frames pushed in sequence into an empty channel are
/// queued in exactly that sequence, so the `k + 1`-th receive returns
/// the `k + 1`-th frame sent.
pub proof fn lemma_fifo_delivery(frames: Seq<Seq<u8>>, k: int)
    requires
        frames.len() <= BUFFERED_FRAMES,
        0 <= k < frames.len(),
    ensures
        after_sends(frames) == frames,
        after_sends(frames).skip(k)[0] == frames[k],
    decreases frames.len(),
{
    if frames.len() > 0 {
        if frames.len() == 1 {
            let e = frames.drop_last();
            assert(after_sends(e) == Seq::<Seq<u8>>::empty());
            assert(after_sends(frames) =~= frames);
        } else {
            lemma_fifo_delivery(frames.drop_last(), 0);
            assert(after_sends(frames) =~= frames);
        }
    }
}

/// Backpressure law: a channel holding `BUFFERED_FRAMES` frames
/// refuses every further send and keeps exactly the frames it had.
pub proof fn lemma_backpressure(s: Seq<Seq<u8>>, f: Seq<u8>)
    requires
        s.len() >= BUFFERED_FRAMES,
    ensures
        send_model(s, f) == s,
{
}

} // verus!
