use vstd::prelude::*;
use crate::err::RError;
use crate::frame::views;

verus! {

/// How many decoded frames may wait between the decode side and the output
/// callback. Kept small to bound latency.
pub const HANDOFF_CAPACITY: usize = 2;

/// An output buffer after a frame has been copied to its front: as many
/// samples as both hold, and behind them what the buffer held before.
pub open spec fn filled<T>(out: Seq<T>, frame: Seq<T>) -> Seq<T> {
    if frame.len() <= out.len() {
        frame + out.skip(frame.len() as int)
    } else {
        frame.take(out.len() as int)
    }
}

/// Copies `frame` to the front of `out`, as far as both reach. What lies
/// behind the copied samples is not touched. Returns the number of samples
/// copied.
pub fn fill_output<T: Copy>(out: &mut [T], frame: &[T]) -> (written: usize)
    ensures
        final(out)@ == filled(old(out)@, frame@),
        written == if frame@.len() <= old(out)@.len() {
            frame@.len()
        } else {
            old(out)@.len()
        },
{
    let ghost before = out@;
    let n: usize = if frame.len() <= out.len() {
        frame.len()
    } else {
        out.len()
    };
    let mut i: usize = 0;
    while i < n
        invariant
            i <= n,
            n <= frame@.len(),
            n <= before.len(),
            out@.len() == before.len(),
            forall|k: int| 0 <= k < i ==> out@[k] == frame@[k],
            forall|k: int| i <= k < before.len() ==> out@[k] == before[k],
        decreases n - i,
    {
        out[i] = frame[i];
        i += 1;
    }
    assert(out@ == filled(before, frame@));
    n
}

/// What became of a frame handed to `Playback::submit`.
#[derive(Debug)]
pub enum Submit<T> {
    /// The frame waits for the output callback.
    Accepted,
    /// No room: the frame comes back, to be handed in again once the
    /// callback has taken one.
    Full(Vec<T>),
}

/// The handoff between the decode side and the output callback: a short
/// queue of decoded frames, oldest first.
#[derive(Debug)]
pub struct Playback<T> {
    queue: Vec<Vec<T>>,
    closed: bool,
}

impl<T> Playback<T> {
    #[verifier::type_invariant]
    spec fn bounded(self) -> bool {
        &&& self.queue@.len() <= HANDOFF_CAPACITY
        &&& self.closed ==> self.queue@.len() == 0
    }

    /// The frames that wait for the callback, oldest first.
    pub closed spec fn pending(&self) -> Seq<Seq<T>> {
        views(self.queue@)
    }

    /// Whether the handoff has been closed.
    pub closed spec fn spec_is_closed(&self) -> bool {
        self.closed
    }

    /// An open handoff with nothing waiting.
    pub fn new() -> (p: Self)
        ensures
            p.pending() == Seq::<Seq<T>>::empty(),
            !p.spec_is_closed(),
    {
        Playback { queue: Vec::new(), closed: false }
    }

    /// Whether the handoff has been closed.
    #[verifier::when_used_as_spec(spec_is_closed)]
    pub fn is_closed(&self) -> (r: bool)
        ensures
            r == self.spec_is_closed(),
    {
        self.closed
    }

    /// The number of frames that wait for the callback.
    pub fn waiting(&self) -> (n: usize)
        ensures
            n == self.pending().len(),
            n <= HANDOFF_CAPACITY,
            self.spec_is_closed() ==> n == 0,
    {
        proof {
            use_type_invariant(self);
        }
        self.queue.len()
    }

    /// Hands one decoded frame to the output side. A closed handoff takes
    /// nothing. A full one gives the frame back; the caller waits until the
    /// callback has taken a frame and hands it in again.
    pub fn submit(&mut self, frame: Vec<T>) -> (r: Result<Submit<T>, RError>)
        ensures
            final(self).spec_is_closed() == old(self).spec_is_closed(),
            match r {
                Err(e) => {
                    &&& old(self).spec_is_closed()
                    &&& e is ChannelClosed
                    &&& final(self).pending() == old(self).pending()
                },
                Ok(Submit::Full(back)) => {
                    &&& !old(self).spec_is_closed()
                    &&& old(self).pending().len() == HANDOFF_CAPACITY
                    &&& back == frame
                    &&& final(self).pending() == old(self).pending()
                },
                Ok(Submit::Accepted) => {
                    &&& !old(self).spec_is_closed()
                    &&& old(self).pending().len() < HANDOFF_CAPACITY
                    &&& final(self).pending() == old(self).pending().push(frame@)
                },
            },
    {
        proof {
            use_type_invariant(&*self);
        }
        if self.closed {
            return Err(RError::ChannelClosed);
        }
        if self.queue.len() >= HANDOFF_CAPACITY {
            return Ok(Submit::Full(frame));
        }
        let mut queue: Vec<Vec<T>> = Vec::new();
        core::mem::swap(&mut queue, &mut self.queue);
        queue.push(frame);
        core::mem::swap(&mut queue, &mut self.queue);
        assert(views(self.queue@) == views(old(self).queue@).push(frame@));
        Ok(Submit::Accepted)
    }

    /// One turn of the output callback: takes the oldest waiting frame and
    /// copies it to the front of `out`. With nothing waiting, `out` is left
    /// as it is. Never waits. Returns the number of samples written.
    pub fn render(&mut self, out: &mut [T]) -> (written: usize) where T: Copy
        ensures
            final(self).spec_is_closed() == old(self).spec_is_closed(),
            old(self).pending().len() == 0 ==> {
                &&& written == 0
                &&& final(out)@ == old(out)@
                &&& final(self).pending() == old(self).pending()
            },
            old(self).pending().len() > 0 ==> {
                &&& final(out)@ == filled(old(out)@, old(self).pending()[0])
                &&& written == if old(self).pending()[0].len() <= old(out)@.len() {
                    old(self).pending()[0].len()
                } else {
                    old(out)@.len()
                }
                &&& final(self).pending() == old(self).pending().drop_first()
            },
    {
        proof {
            use_type_invariant(&*self);
        }
        if self.queue.len() == 0 {
            return 0;
        }
        let mut queue: Vec<Vec<T>> = Vec::new();
        core::mem::swap(&mut queue, &mut self.queue);
        let frame: Vec<T> = queue.remove(0);
        core::mem::swap(&mut queue, &mut self.queue);
        assert(views(self.queue@) == views(old(self).queue@).drop_first());
        fill_output(out, frame.as_slice())
    }

    /// Closes the handoff. Frames still waiting are dropped: from now on the
    /// callback gets nothing and `submit` refuses. Closing twice is closing
    /// once.
    pub fn close(&mut self)
        ensures
            final(self).spec_is_closed(),
            final(self).pending() == Seq::<Seq<T>>::empty(),
    {
        self.queue = Vec::new();
        self.closed = true;
        assert(views(self.queue@) == Seq::<Seq<T>>::empty());
    }
}

} // verus!
