//! A combinator that transforms the error of a failed poll.

use crate::frame::{Outcome, SizeHint};
use vstd::prelude::*;

verus! {

/// Wraps a source and a transform of errors; an error of the source is
/// replaced by what the transform makes of it, everything else passes
/// through unchanged.
pub struct MapErr<B, F> {
    inner: B,
    f: F,
}

/// How the outcome `returned` by an error-mapping combinator with transform
/// `f` relates to the outcome `polled` from its source: an error has gone
/// through `f`; frames, `Pending` and `Ended` are the same.
pub open spec fn maps_err_to<D, T, E, E2, F: FnMut(E) -> E2>(
    f: F,
    polled: Outcome<D, T, E>,
    returned: Outcome<D, T, E2>,
) -> bool {
    match polled {
        Outcome::Pending => returned == Outcome::<D, T, E2>::Pending,
        Outcome::Ended => returned == Outcome::<D, T, E2>::Ended,
        Outcome::Done(frame) => returned == Outcome::<D, T, E2>::Done(frame),
        Outcome::Failed(err) => returned matches Outcome::Failed(err2) && call_ensures(
            f,
            (err,),
            err2,
        ),
    }
}

impl<B, F> MapErr<B, F> {
    /// The wrapped source.
    pub closed spec fn source(&self) -> B {
        self.inner
    }

    /// The transform.
    pub closed spec fn transform(&self) -> F {
        self.f
    }

    /// Wraps `body`; `f` will be applied to each error of `body`.
    pub fn new(body: B, f: F) -> (r: Self)
        ensures
            r.source() == body,
            r.transform() == f,
    {
        Self { inner: body, f }
    }

    /// Get a reference to the inner body
    pub fn get_ref(&self) -> (r: &B)
        ensures
            *r == self.source(),
    {
        &self.inner
    }

    /// Get a mutable reference to the inner body
    pub fn get_mut(&mut self) -> (r: &mut B)
        ensures
            *r == old(self).source(),
            final(self).source() == *final(r),
            final(self).transform() == old(self).transform(),
    {
        &mut self.inner
    }

    /// Consume `self`, returning the inner body
    pub fn into_inner(self) -> (r: B)
        ensures
            r == self.source(),
    {
        self.inner
    }

    /// Decides what a poll of this combinator returns, given what the poll
    /// of the wrapped source returned: a failure whose error is the
    /// transform of the polled error, or else the polled outcome itself.
    pub fn poll_frame<D, T, E, E2>(&mut self, polled: Outcome<D, T, E>) -> (r: Outcome<
        D,
        T,
        E2,
    >) where F: FnMut(E) -> E2
        requires
            polled matches Outcome::Failed(err) ==> call_requires(old(self).transform(), (err,)),
        ensures
            maps_err_to(old(self).transform(), polled, r),
            final(self).source() == old(self).source(),
            final(self).transform() == old(self).transform(),
    {
        match polled {
            Outcome::Pending => Outcome::Pending,
            Outcome::Ended => Outcome::Ended,
            Outcome::Done(frame) => Outcome::Done(frame),
            Outcome::Failed(err) => {
                let err2 = (self.f)(err);
                Outcome::Failed(err2)
            },
        }
    }

    /// The size hint of this combinator, given that of the wrapped source:
    /// the same, since no frame is added, dropped or changed.
    pub fn size_hint(&self, inner: SizeHint) -> (r: SizeHint)
        ensures
            r == inner,
    {
        inner
    }

    /// Whether this combinator has ended, given whether the wrapped source
    /// has: it has exactly when the source has.
    pub fn is_end_stream(&self, inner_ended: bool) -> (r: bool)
        ensures
            r == inner_ended,
    {
        inner_ended
    }
}

} // verus!
