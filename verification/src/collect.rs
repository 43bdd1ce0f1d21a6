//! Draining a whole stream into one buffer and its trailers.

use crate::frame::{Frame, Outcome};
use vstd::prelude::*;

verus! {

/// What a stream held: the bytes of all its data frames, in the order they
/// were produced, and the trailers it produced last, if any.
#[derive(Debug, PartialEq, Eq)]
pub struct Collected<T> {
    bytes: Vec<u8>,
    trailers: Option<T>,
}

impl<T> Collected<T> {
    /// The bytes gathered so far.
    pub closed spec fn data(&self) -> Seq<u8> {
        self.bytes@
    }

    /// The trailers seen last, if any were.
    pub closed spec fn last_trailers(&self) -> Option<T> {
        self.trailers
    }

    /// Nothing gathered, no trailers.
    pub fn new() -> (r: Self)
        ensures
            r.data() == Seq::<u8>::empty(),
            r.last_trailers() == None::<T>,
    {
        Collected { bytes: Vec::new(), trailers: None }
    }

    /// Takes in one frame: the payload of a data frame goes to the end of
    /// the buffer; trailers replace those held before.
    pub fn push_frame(&mut self, frame: Frame<Vec<u8>, T>)
        ensures
            final(self).data() == old(self).data() + payload(frame),
            final(self).last_trailers() == (match frame {
                Frame::Data(_) => old(self).last_trailers(),
                Frame::Trailers(t) => Some(t),
            }),
    {
        match frame {
            Frame::Data(mut d) => {
                self.bytes.append(&mut d);
            },
            Frame::Trailers(t) => {
                self.trailers = Some(t);
                assert(self.bytes@ + Seq::<u8>::empty() =~= self.bytes@);
            },
        }
    }

    /// The trailers seen last, if any were.
    pub fn trailers(&self) -> (r: Option<&T>)
        ensures
            r matches Some(t) ==> self.last_trailers() == Some(*t),
            r is None <==> self.last_trailers() is None,
    {
        self.trailers.as_ref()
    }

    /// The gathered bytes as one buffer.
    pub fn to_bytes(self) -> (r: Vec<u8>)
        ensures
            r@ == self.data(),
    {
        self.bytes
    }

    /// The gathered bytes and the trailers.
    pub fn into_parts(self) -> (r: (Vec<u8>, Option<T>))
        ensures
            r.0@ == self.data(),
            r.1 == self.last_trailers(),
    {
        (self.bytes, self.trailers)
    }
}

/// The bytes that a frame adds to the buffer: its payload, or nothing.
pub open spec fn payload<T>(frame: Frame<Vec<u8>, T>) -> Seq<u8> {
    match frame {
        Frame::Data(d) => d@,
        Frame::Trailers(_) => Seq::empty(),
    }
}

/// The bytes of all data frames among `frames`, in order.
pub open spec fn all_payloads<T>(frames: Seq<Frame<Vec<u8>, T>>) -> Seq<u8>
    decreases frames.len(),
{
    if frames.len() == 0 {
        Seq::empty()
    } else {
        all_payloads(frames.drop_last()) + payload(frames.last())
    }
}

/// The trailers of the last trailers frame among `frames`, if there is one.
pub open spec fn final_trailers<T>(frames: Seq<Frame<Vec<u8>, T>>) -> Option<T>
    decreases frames.len(),
{
    if frames.len() == 0 {
        None
    } else {
        match frames.last() {
            Frame::Trailers(t) => Some(t),
            Frame::Data(_) => final_trailers(frames.drop_last()),
        }
    }
}

/// What the driver of a collection does after one poll of the source.
#[derive(Debug, PartialEq, Eq)]
pub enum Collecting<T, E> {
    /// The source was not ready: hand control back and poll again on wake-up.
    Suspend,
    /// A frame was taken in: poll the source again.
    Again,
    /// The source ended: here is all it held.
    Finished(Collected<T>),
    /// The source failed: what had been gathered is gone.
    Failed(E),
}

/// What a collection has taken in: the frames since it started (or since
/// it last finished or failed), and what they add up to.
struct Gathered<T> {
    collected: Collected<T>,
    seen: Ghost<Seq<Frame<Vec<u8>, T>>>,
}

impl<T> Gathered<T> {
    /// What is held is what the frames taken in add up to.
    #[verifier::type_invariant]
    closed spec fn well_formed(&self) -> bool {
        &&& self.collected.data() == all_payloads(self.seen@)
        &&& self.collected.last_trailers() == final_trailers(self.seen@)
    }

    closed spec fn frames(&self) -> Seq<Frame<Vec<u8>, T>> {
        self.seen@
    }

    fn new() -> (r: Self)
        ensures
            r.frames() == Seq::<Frame<Vec<u8>, T>>::empty(),
    {
        Gathered { collected: Collected::new(), seen: Ghost(Seq::empty()) }
    }

    fn take_in(self, frame: Frame<Vec<u8>, T>) -> (r: Self)
        ensures
            r.frames() == self.frames().push(frame),
    {
        proof {
            use_type_invariant(&self);
            assert(self.seen@.push(frame).drop_last() =~= self.seen@);
        }
        let Gathered { mut collected, seen } = self;
        collected.push_frame(frame);
        Gathered { collected, seen: Ghost(seen@.push(frame)) }
    }

    fn give_up(self) -> (all: Collected<T>)
        ensures
            all.data() == all_payloads(self.frames()),
            all.last_trailers() == final_trailers(self.frames()),
    {
        proof {
            use_type_invariant(&self);
        }
        self.collected
    }
}

/// Drains a source to its end. It owns the source and what was gathered,
/// and keeps the frames it has taken in since it started (or since it last
/// finished or failed) as its history.
pub struct Collect<B, T> {
    rest: B,
    gathered: Gathered<T>,
}

impl<B, T> Collect<B, T> {
    /// The wrapped source.
    pub closed spec fn source(&self) -> B {
        self.rest
    }

    /// The frames taken in so far.
    pub closed spec fn history(&self) -> Seq<Frame<Vec<u8>, T>> {
        self.gathered.frames()
    }

    /// Starts a collection over `body`, with nothing gathered.
    pub fn new(body: B) -> (r: Self)
        ensures
            r.source() == body,
            r.history() == Seq::<Frame<Vec<u8>, T>>::empty(),
    {
        Collect { rest: body, gathered: Gathered::new() }
    }

    /// Get a reference to the inner body
    pub fn get_ref(&self) -> (r: &B)
        ensures
            *r == self.source(),
    {
        &self.rest
    }

    /// Get a mutable reference to the inner body
    pub fn get_mut(&mut self) -> (r: &mut B)
        ensures
            *r == old(self).source(),
            final(self).source() == *final(r),
            final(self).history() == old(self).history(),
    {
        &mut self.rest
    }

    /// Takes in what one poll of the source returned and says how to go on.
    /// `Pending` suspends. A frame joins the history. `Ended` finishes with
    /// the bytes of all data frames of the history, in order, and its last
    /// trailers. `Failed` fails with that error. After finishing or failing
    /// the history is empty again: nothing partial is kept.
    pub fn poll<E>(&mut self, polled: Outcome<Vec<u8>, T, E>) -> (r: Collecting<T, E>)
        ensures
            final(self).source() == old(self).source(),
            match polled {
                Outcome::Pending => {
                    &&& r == Collecting::<T, E>::Suspend
                    &&& final(self).history() == old(self).history()
                },
                Outcome::Done(frame) => {
                    &&& r == Collecting::<T, E>::Again
                    &&& final(self).history() == old(self).history().push(frame)
                },
                Outcome::Failed(err) => {
                    &&& r == Collecting::<T, E>::Failed(err)
                    &&& final(self).history().len() == 0
                },
                Outcome::Ended => {
                    &&& r matches Collecting::Finished(all)
                    &&& all.data() == all_payloads(old(self).history())
                    &&& all.last_trailers() == final_trailers(old(self).history())
                    &&& final(self).history().len() == 0
                },
            },
    {
        match polled {
            Outcome::Pending => Collecting::Suspend,
            Outcome::Done(frame) => {
                let mut gathered = Gathered::new();
                core::mem::swap(&mut self.gathered, &mut gathered);
                self.gathered = gathered.take_in(frame);
                Collecting::Again
            },
            Outcome::Failed(err) => {
                self.gathered = Gathered::new();
                Collecting::Failed(err)
            },
            Outcome::Ended => {
                let mut gathered = Gathered::new();
                core::mem::swap(&mut self.gathered, &mut gathered);
                Collecting::Finished(gathered.give_up())
            },
        }
    }
}

} // verus!
