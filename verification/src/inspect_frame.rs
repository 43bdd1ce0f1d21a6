//! A combinator that shows every produced frame to a callback.

use crate::frame::{Frame, Outcome, SizeHint};
use vstd::prelude::*;

verus! {

/// Wraps a source and a callback; every outcome of the source passes through
/// unchanged, and the callback sees each produced frame on its way.
#[derive(Clone, Copy)]
pub struct InspectFrame<B, F> {
    inner: B,
    f: F,
}

/// How the outcome `returned` by an observing combinator with callback `f`
/// relates to the outcome `polled` from its source: it is the same, and
/// where it holds a frame, `f` has run on that frame.
pub open spec fn shows_to<D, T, E, F: FnMut(&Frame<D, T>)>(
    f: F,
    polled: Outcome<D, T, E>,
    returned: Outcome<D, T, E>,
) -> bool {
    &&& returned == polled
    &&& polled matches Outcome::Done(frame) ==> call_ensures(f, (&frame,), ())
}

impl<B, F> InspectFrame<B, F> {
    /// The wrapped source.
    pub closed spec fn source(&self) -> B {
        self.inner
    }

    /// The callback.
    pub closed spec fn callback(&self) -> F {
        self.f
    }

    /// Wraps `body`; `f` will be shown each frame that `body` produces.
    pub fn new(body: B, f: F) -> (r: Self)
        ensures
            r.source() == body,
            r.callback() == f,
    {
        Self { inner: body, f }
    }

    /// Get a reference to the inner body
    pub fn get_ref(&self) -> (r: &B)
        ensures
            *r == self.source(),
    {
        &self.inner
    }

    /// Get a mutable reference to the inner body
    pub fn get_mut(&mut self) -> (r: &mut B)
        ensures
            *r == old(self).source(),
            final(self).source() == *final(r),
            final(self).callback() == old(self).callback(),
    {
        &mut self.inner
    }

    /// Consume `self`, returning the inner body
    pub fn into_inner(self) -> (r: B)
        ensures
            r == self.source(),
    {
        self.inner
    }

    /// Decides what a poll of this combinator returns, given what the poll
    /// of the wrapped source returned: the same outcome. A produced frame is
    /// first shown to the callback, by reference. The callback is asked to
    /// accept produced frames only, so it is called for nothing else.
    pub fn poll_frame<D, T, E>(&mut self, polled: Outcome<D, T, E>) -> (r: Outcome<D, T, E>) where
        F: FnMut(&Frame<D, T>),

        requires
            polled matches Outcome::Done(frame) ==> call_requires(old(self).callback(), (&frame,)),
        ensures
            r == polled,
            shows_to(old(self).callback(), polled, r),
            final(self).source() == old(self).source(),
            final(self).callback() == old(self).callback(),
    {
        match polled {
            Outcome::Pending => Outcome::Pending,
            Outcome::Ended => Outcome::Ended,
            Outcome::Failed(err) => Outcome::Failed(err),
            Outcome::Done(frame) => {
                (self.f)(&frame);
                Outcome::Done(frame)
            },
        }
    }

    /// The size hint of this combinator, given that of the wrapped source:
    /// the same, since no frame is added, dropped or changed.
    pub fn size_hint(&self, inner: SizeHint) -> (r: SizeHint)
        ensures
            r == inner,
    {
        inner
    }

    /// Whether this combinator has ended, given whether the wrapped source
    /// has: it has exactly when the source has.
    pub fn is_end_stream(&self, inner_ended: bool) -> (r: bool)
        ensures
            r == inner_ended,
    {
        inner_ended
    }
}

/// Draining a source through an observing combinator gives the outcomes of
/// the source itself, and the callback has run on every frame among them:
/// where each returned outcome relates to the polled one as `poll_frame`
/// ensures, the two sequences are the same.
pub proof fn law_inspect_is_transparent<D, T, E, F: FnMut(&Frame<D, T>)>(
    f: F,
    polled: Seq<Outcome<D, T, E>>,
    returned: Seq<Outcome<D, T, E>>,
)
    requires
        returned.len() == polled.len(),
        forall|i: int| 0 <= i < polled.len() ==> shows_to(f, polled[i], #[trigger] returned[i]),
    ensures
        returned == polled,
        forall|i: int|
            0 <= i < returned.len() ==> (#[trigger] returned[i] matches Outcome::Done(frame)
                ==> call_ensures(f, (&frame,), ())),
{
    assert forall|i: int| 0 <= i < polled.len() implies returned[i] == polled[i] by {
        assert(shows_to(f, polled[i], returned[i]));
    }
    assert(returned =~= polled);
    assert forall|i: int| 0 <= i < returned.len() implies (#[trigger] returned[i] matches Outcome::Done(
        frame,
    ) ==> call_ensures(f, (&frame,), ())) by {
        assert(shows_to(f, polled[i], returned[i]));
    }
}

} // verus!
