//! A combinator that shows every error to a callback.

use crate::frame::{Outcome, SizeHint};
use vstd::prelude::*;

verus! {

/// Wraps a source and a callback; every outcome of the source passes through
/// unchanged, and the callback sees each error on its way.
pub struct InspectErr<B, F> {
    inner: B,
    f: F,
}

impl<B, F> InspectErr<B, F> {
    /// The wrapped source.
    pub closed spec fn source(&self) -> B {
        self.inner
    }

    /// The callback.
    pub closed spec fn callback(&self) -> F {
        self.f
    }

    /// Wraps `body`; `f` will be shown each error of `body`.
    pub fn new(body: B, f: F) -> (r: Self)
        ensures
            r.source() == body,
            r.callback() == f,
    {
        Self { inner: body, f }
    }

    /// Get a reference to the inner body
    pub fn get_ref(&self) -> (r: &B)
        ensures
            *r == self.source(),
    {
        &self.inner
    }

    /// Get a mutable reference to the inner body
    pub fn get_mut(&mut self) -> (r: &mut B)
        ensures
            *r == old(self).source(),
            final(self).source() == *final(r),
            final(self).callback() == old(self).callback(),
    {
        &mut self.inner
    }

    /// Consume `self`, returning the inner body
    pub fn into_inner(self) -> (r: B)
        ensures
            r == self.source(),
    {
        self.inner
    }

    /// Decides what a poll of this combinator returns, given what the poll
    /// of the wrapped source returned: the same outcome. An error is first
    /// shown to the callback, by reference. The callback is asked to accept
    /// errors only, so it is called for nothing else.
    pub fn poll_frame<D, T, E>(&mut self, polled: Outcome<D, T, E>) -> (r: Outcome<D, T, E>) where
        F: FnMut(&E),

        requires
            polled matches Outcome::Failed(err) ==> call_requires(old(self).callback(), (&err,)),
        ensures
            r == polled,
            polled matches Outcome::Failed(err) ==> call_ensures(
                old(self).callback(),
                (&err,),
                (),
            ),
            final(self).source() == old(self).source(),
            final(self).callback() == old(self).callback(),
    {
        match polled {
            Outcome::Pending => Outcome::Pending,
            Outcome::Ended => Outcome::Ended,
            Outcome::Done(frame) => Outcome::Done(frame),
            Outcome::Failed(err) => {
                (self.f)(&err);
                Outcome::Failed(err)
            },
        }
    }

    /// The size hint of this combinator, given that of the wrapped source:
    /// the same, since no frame is added, dropped or changed.
    pub fn size_hint(&self, inner: SizeHint) -> (r: SizeHint)
        ensures
            r == inner,
    {
        inner
    }

    /// Whether this combinator has ended, given whether the wrapped source
    /// has: it has exactly when the source has.
    pub fn is_end_stream(&self, inner_ended: bool) -> (r: bool)
        ensures
            r == inner_ended,
    {
        inner_ended
    }
}

} // verus!
