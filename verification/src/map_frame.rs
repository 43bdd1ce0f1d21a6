//! A combinator that transforms the payload of every data frame.

use crate::frame::{Frame, Outcome};
use vstd::prelude::*;

verus! {

/// Wraps a source and a transform; data payloads are replaced by what the
/// transform makes of them, everything else passes through unchanged.
pub struct MapFrame<B, F> {
    inner: B,
    f: F,
}

/// How the outcome `returned` by a mapping combinator with transform `f`
/// relates to the outcome `polled` from its source: a data payload has gone
/// through `f`; trailers, errors, `Pending` and `Ended` are the same.
pub open spec fn maps_to<D, D2, T, E, F: FnMut(D) -> D2>(
    f: F,
    polled: Outcome<D, T, E>,
    returned: Outcome<D2, T, E>,
) -> bool {
    match polled {
        Outcome::Pending => returned == Outcome::<D2, T, E>::Pending,
        Outcome::Ended => returned == Outcome::<D2, T, E>::Ended,
        Outcome::Failed(err) => returned == Outcome::<D2, T, E>::Failed(err),
        Outcome::Done(Frame::Trailers(t)) => returned == Outcome::<D2, T, E>::Done(
            Frame::Trailers(t),
        ),
        Outcome::Done(Frame::Data(d)) => returned matches Outcome::Done(Frame::Data(d2))
            && call_ensures(f, (d,), d2),
    }
}

/// The outcome that a mapping combinator returns for `polled` where its
/// transform computes the function `g`.
pub open spec fn mapped<D, D2, T, E>(g: spec_fn(D) -> D2, polled: Outcome<D, T, E>) -> Outcome<
    D2,
    T,
    E,
> {
    match polled {
        Outcome::Pending => Outcome::Pending,
        Outcome::Ended => Outcome::Ended,
        Outcome::Failed(err) => Outcome::Failed(err),
        Outcome::Done(Frame::Trailers(t)) => Outcome::Done(Frame::Trailers(t)),
        Outcome::Done(Frame::Data(d)) => Outcome::Done(Frame::Data(g(d))),
    }
}

impl<B, F> MapFrame<B, F> {
    /// The wrapped source.
    pub closed spec fn source(&self) -> B {
        self.inner
    }

    /// The transform.
    pub closed spec fn transform(&self) -> F {
        self.f
    }

    /// Wraps `body`; `f` will be applied to each data payload of `body`.
    pub fn new(body: B, f: F) -> (r: Self)
        ensures
            r.source() == body,
            r.transform() == f,
    {
        Self { inner: body, f }
    }

    /// Get a reference to the inner body
    pub fn get_ref(&self) -> (r: &B)
        ensures
            *r == self.source(),
    {
        &self.inner
    }

    /// Get a mutable reference to the inner body
    pub fn get_mut(&mut self) -> (r: &mut B)
        ensures
            *r == old(self).source(),
            final(self).source() == *final(r),
            final(self).transform() == old(self).transform(),
    {
        &mut self.inner
    }

    /// Consume `self`, returning the inner body
    pub fn into_inner(self) -> (r: B)
        ensures
            r == self.source(),
    {
        self.inner
    }

    /// Decides what a poll of this combinator returns, given what the poll
    /// of the wrapped source returned: a data frame whose payload is the
    /// transform of the polled payload, or else the polled outcome itself.
    pub fn poll_frame<D, D2, T, E>(&mut self, polled: Outcome<D, T, E>) -> (r: Outcome<
        D2,
        T,
        E,
    >) where F: FnMut(D) -> D2
        requires
            polled matches Outcome::Done(Frame::Data(d)) ==> call_requires(
                old(self).transform(),
                (d,),
            ),
        ensures
            maps_to(old(self).transform(), polled, r),
            final(self).source() == old(self).source(),
            final(self).transform() == old(self).transform(),
    {
        match polled {
            Outcome::Pending => Outcome::Pending,
            Outcome::Ended => Outcome::Ended,
            Outcome::Failed(err) => Outcome::Failed(err),
            Outcome::Done(Frame::Trailers(t)) => Outcome::Done(Frame::Trailers(t)),
            Outcome::Done(Frame::Data(d)) => {
                let d2 = (self.f)(d);
                Outcome::Done(Frame::Data(d2))
            },
        }
    }

    /// Whether this combinator has ended, given whether the wrapped source
    /// has: it has exactly when the source has.
    pub fn is_end_stream(&self, inner_ended: bool) -> (r: bool)
        ensures
            r == inner_ended,
    {
        inner_ended
    }
}

/// Draining a source through a mapping combinator gives the outcomes of the
/// source with the transform applied to each data payload: where the
/// transform computes `g`, and each returned outcome relates to the polled
/// one as `poll_frame` ensures, the returned sequence is the polled one
/// mapped pointwise.
pub proof fn law_map_is_pointwise<D, D2, T, E, F: FnMut(D) -> D2>(
    f: F,
    g: spec_fn(D) -> D2,
    polled: Seq<Outcome<D, T, E>>,
    returned: Seq<Outcome<D2, T, E>>,
)
    requires
        forall|d: D, d2: D2| call_ensures(f, (d,), d2) ==> d2 == g(d),
        returned.len() == polled.len(),
        forall|i: int| 0 <= i < polled.len() ==> maps_to(f, polled[i], #[trigger] returned[i]),
    ensures
        returned == polled.map_values(|o: Outcome<D, T, E>| mapped(g, o)),
{
    let expected = polled.map_values(|o: Outcome<D, T, E>| mapped(g, o));
    assert forall|i: int| 0 <= i < polled.len() implies returned[i] == expected[i] by {
        assert(maps_to(f, polled[i], returned[i]));
    }
    assert(returned =~= expected);
}

/// With a transform that hands each payload back unchanged, draining through
/// the mapping combinator gives the outcomes of the source itself.
pub proof fn law_map_identity_is_transparent<D, T, E, F: FnMut(D) -> D>(
    f: F,
    polled: Seq<Outcome<D, T, E>>,
    returned: Seq<Outcome<D, T, E>>,
)
    requires
        forall|d: D, d2: D| call_ensures(f, (d,), d2) ==> d2 == d,
        returned.len() == polled.len(),
        forall|i: int| 0 <= i < polled.len() ==> maps_to(f, polled[i], #[trigger] returned[i]),
    ensures
        returned == polled,
{
    assert forall|i: int| 0 <= i < polled.len() implies returned[i] == polled[i] by {
        assert(maps_to(f, polled[i], returned[i]));
    }
    assert(returned =~= polled);
}

} // verus!
