//! A combinator that ends a stream with trailers from elsewhere.

use crate::frame::{Frame, Outcome, SizeHint};
use vstd::prelude::*;

verus! {

/// Where a trailer-attaching combinator stands.
#[derive(Clone, Debug, PartialEq, Eq)]
pub enum Phase<T> {
    /// The source is being forwarded; these trailers, if any, are held for
    /// its end.
    Holding(Option<T>),
    /// The source is being forwarded; the trailers are still being computed
    /// and will be asked for when the source ends.
    Deferred,
    /// The source has ended; the computed trailers are awaited.
    Awaiting,
    /// The stream is over.
    Finished,
}

/// Wraps a source and trailers to attach, given at once or computed later.
/// Frames of the source pass through unchanged. Where the source ends
/// without having produced trailers of its own, the attached trailers follow
/// as one more frame before the end. Where the source does produce trailers,
/// those stand and the attached ones are dropped: the stream never carries
/// trailers from both.
#[derive(Debug)]
pub struct WithTrailers<B, T> {
    inner: B,
    phase: Phase<T>,
}

/// One poll of the source as a function: from the phase and what the source
/// returned, to the next phase and what the combinator returns. While the
/// computed trailers are awaited nothing is ready, whatever `polled` is.
pub open spec fn attach_step<D, T, E>(phase: Phase<T>, polled: Outcome<D, T, E>) -> (
    Phase<T>,
    Outcome<D, T, E>,
) {
    match phase {
        Phase::Finished => (Phase::Finished, Outcome::Ended),
        Phase::Awaiting => (Phase::Awaiting, Outcome::Pending),
        Phase::Holding(extra) => match polled {
            Outcome::Done(Frame::Trailers(_)) => (Phase::Holding(None), polled),
            Outcome::Ended => match extra {
                Some(t) => (Phase::Finished, Outcome::Done(Frame::Trailers(t))),
                None => (Phase::Finished, Outcome::Ended),
            },
            _ => (phase, polled),
        },
        Phase::Deferred => match polled {
            Outcome::Done(Frame::Trailers(_)) => (Phase::Holding(None), polled),
            Outcome::Ended => (Phase::Awaiting, Outcome::Pending),
            _ => (phase, polled),
        },
    }
}

/// The arrival of the computed trailers as a function: from the phase and
/// what the computation gave, to the next phase and what the combinator
/// returns. Only where they are awaited do they count.
pub open spec fn resolve_step<D, T, E>(phase: Phase<T>, computed: Option<Result<T, E>>) -> (
    Phase<T>,
    Outcome<D, T, E>,
) {
    match phase {
        Phase::Awaiting => match computed {
            Some(Ok(t)) => (Phase::Finished, Outcome::Done(Frame::Trailers(t))),
            Some(Err(err)) => (Phase::Finished, Outcome::Failed(err)),
            None => (Phase::Finished, Outcome::Ended),
        },
        Phase::Finished => (Phase::Finished, Outcome::Ended),
        _ => (phase, Outcome::Pending),
    }
}

/// What a trailer-attaching combinator returns, poll by poll, where the
/// source returns the outcomes `polled`.
pub open spec fn attach_run<D, T, E>(phase: Phase<T>, polled: Seq<Outcome<D, T, E>>) -> Seq<
    Outcome<D, T, E>,
>
    decreases polled.len(),
{
    if polled.len() == 0 {
        Seq::empty()
    } else {
        let (next, out) = attach_step(phase, polled[0]);
        seq![out] + attach_run(next, polled.skip(1))
    }
}

impl<B, T> WithTrailers<B, T> {
    /// The wrapped source.
    pub closed spec fn source(&self) -> B {
        self.inner
    }

    /// Where the combinator stands.
    pub closed spec fn phase(&self) -> Phase<T> {
        self.phase
    }

    /// Wraps `body`, with `trailers` to attach at its end; `None` attaches
    /// nothing.
    pub fn new(body: B, trailers: Option<T>) -> (r: Self)
        ensures
            r.source() == body,
            r.phase() == Phase::Holding(trailers),
    {
        WithTrailers { inner: body, phase: Phase::Holding(trailers) }
    }

    /// Wraps `body`, with trailers that are computed elsewhere and handed to
    /// `resolve` once the source has ended.
    pub fn deferred(body: B) -> (r: Self)
        ensures
            r.source() == body,
            r.phase() == Phase::<T>::Deferred,
    {
        WithTrailers { inner: body, phase: Phase::Deferred }
    }

    /// Get a reference to the inner body
    pub fn get_ref(&self) -> (r: &B)
        ensures
            *r == self.source(),
    {
        &self.inner
    }

    /// Get a mutable reference to the inner body
    pub fn get_mut(&mut self) -> (r: &mut B)
        ensures
            *r == old(self).source(),
            final(self).source() == *final(r),
            final(self).phase() == old(self).phase(),
    {
        &mut self.inner
    }

    /// Consume `self`, returning the inner body
    pub fn into_inner(self) -> (r: B)
        ensures
            r == self.source(),
    {
        self.inner
    }

    /// Whether the stream has finished: if so, the source need not be
    /// polled again.
    pub fn is_finished(&self) -> (r: bool)
        ensures
            r == (self.phase() is Finished),
    {
        match &self.phase {
            Phase::Finished => true,
            _ => false,
        }
    }

    /// Whether the computed trailers are awaited: if so, the next thing to
    /// hand over is what the computation gave, not a poll of the source.
    pub fn awaits_trailers(&self) -> (r: bool)
        ensures
            r == (self.phase() is Awaiting),
    {
        match &self.phase {
            Phase::Awaiting => true,
            _ => false,
        }
    }

    /// Decides what a poll of this combinator returns, given what the poll
    /// of the wrapped source returned. Once finished it returns `Ended`.
    /// Before that: `Pending`, data frames and errors are returned as
    /// polled; trailers of the source are returned as polled, and the
    /// attached ones are dropped; at `Ended` the held trailers, if any are
    /// left, are returned as a frame, else `Ended`, and the stream has
    /// finished; where the trailers are still being computed, `Ended` makes
    /// the combinator await them and return `Pending`.
    pub fn poll_frame<D, E>(&mut self, polled: Outcome<D, T, E>) -> (r: Outcome<D, T, E>)
        ensures
            (final(self).phase(), r) == attach_step(old(self).phase(), polled),
            final(self).source() == old(self).source(),
    {
        let mut phase = Phase::Finished;
        core::mem::swap(&mut self.phase, &mut phase);
        match phase {
            Phase::Finished => Outcome::Ended,
            Phase::Awaiting => {
                self.phase = Phase::Awaiting;
                Outcome::Pending
            },
            Phase::Holding(extra) => match polled {
                Outcome::Done(Frame::Trailers(t)) => {
                    self.phase = Phase::Holding(None);
                    Outcome::Done(Frame::Trailers(t))
                },
                Outcome::Ended => match extra {
                    Some(t) => Outcome::Done(Frame::Trailers(t)),
                    None => Outcome::Ended,
                },
                other => {
                    self.phase = Phase::Holding(extra);
                    other
                },
            },
            Phase::Deferred => match polled {
                Outcome::Done(Frame::Trailers(t)) => {
                    self.phase = Phase::Holding(None);
                    Outcome::Done(Frame::Trailers(t))
                },
                Outcome::Ended => {
                    self.phase = Phase::Awaiting;
                    Outcome::Pending
                },
                other => {
                    self.phase = Phase::Deferred;
                    other
                },
            },
        }
    }

    /// Takes in what the computation of the trailers gave and decides what
    /// the poll returns. Where the trailers are awaited the stream finishes:
    /// with the trailers as a frame, with the error of the computation, or
    /// with `Ended` where it gave nothing. Once finished it returns `Ended`.
    /// While the source is still being forwarded nothing is awaited: the
    /// call changes nothing and returns `Pending`.
    pub fn resolve<D, E>(&mut self, computed: Option<Result<T, E>>) -> (r: Outcome<D, T, E>)
        ensures
            (final(self).phase(), r) == resolve_step::<D, T, E>(old(self).phase(), computed),
            final(self).source() == old(self).source(),
    {
        if self.is_finished() {
            return Outcome::Ended;
        }
        if !self.awaits_trailers() {
            return Outcome::Pending;
        }
        self.phase = Phase::Finished;
        match computed {
            Some(Ok(t)) => Outcome::Done(Frame::Trailers(t)),
            Some(Err(err)) => Outcome::Failed(err),
            None => Outcome::Ended,
        }
    }

    /// The size hint of this combinator, given that of the wrapped source:
    /// exactly nothing once the source has ended, the source's hint before,
    /// since trailers add no data.
    pub fn size_hint(&self, inner: SizeHint) -> (r: SizeHint)
        ensures
            r == (if self.phase() is Finished || self.phase() is Awaiting {
                SizeHint { lower: 0, upper: Some(0) }
            } else {
                inner
            }),
    {
        if self.is_finished() || self.awaits_trailers() {
            SizeHint::with_exact(0)
        } else {
            inner
        }
    }

    /// Whether this combinator has ended, given whether the wrapped source
    /// has: once finished it has, and before that only when the source has
    /// and no trailers are held for its end.
    pub fn is_end_stream(&self, inner_ended: bool) -> (r: bool)
        ensures
            r == (self.phase() is Finished || (inner_ended && self.phase() == Phase::<T>::Holding(
                None,
            ))),
    {
        match &self.phase {
            Phase::Finished => true,
            Phase::Holding(None) => inner_ended,
            _ => false,
        }
    }
}

/// A run returns one outcome for each poll.
pub proof fn lemma_attach_run_len<D, T, E>(phase: Phase<T>, polled: Seq<Outcome<D, T, E>>)
    ensures
        attach_run(phase, polled).len() == polled.len(),
    decreases polled.len(),
{
    if polled.len() > 0 {
        let (next, out) = attach_step(phase, polled[0]);
        lemma_attach_run_len(next, polled.skip(1));
    }
}

/// A finished combinator returns `Ended` at every poll.
pub proof fn lemma_attach_finished_stays_ended<D, T, E>(polled: Seq<Outcome<D, T, E>>, k: int)
    requires
        0 <= k < polled.len(),
    ensures
        attach_run(Phase::<T>::Finished, polled).len() == polled.len(),
        attach_run(Phase::<T>::Finished, polled)[k] is Ended,
    decreases polled.len(),
{
    lemma_attach_run_len(Phase::<T>::Finished, polled);
    lemma_attach_run_len(Phase::<T>::Finished, polled.skip(1));
    if k > 0 {
        lemma_attach_finished_stays_ended::<D, T, E>(polled.skip(1), k - 1);
    }
}

/// Nothing follows the end: where the trailers were given at once, every
/// poll after the one at which the source ended, the poll that may return
/// the attached trailers, returns `Ended`. So the attached trailers come at
/// most once, and after all the data.
pub proof fn law_attach_nothing_follows_the_end<D, T, E>(
    phase: Phase<T>,
    polled: Seq<Outcome<D, T, E>>,
    i: int,
    j: int,
)
    requires
        phase is Holding || phase is Finished,
        0 <= i < j < polled.len(),
        polled[i] is Ended,
    ensures
        attach_run(phase, polled).len() == polled.len(),
        attach_run(phase, polled)[j] is Ended,
    decreases polled.len(),
{
    lemma_attach_run_len(phase, polled);
    let (next, out) = attach_step(phase, polled[0]);
    let rest = polled.skip(1);
    lemma_attach_run_len(next, rest);
    if i == 0 {
        assert(next is Finished);
        lemma_attach_finished_stays_ended::<D, T, E>(rest, j - 1);
    } else {
        law_attach_nothing_follows_the_end(next, rest, i - 1, j - 1);
    }
}

/// Until the source ends, a combinator that forwards it returns what the
/// source returns, frame for frame and in the same order.
pub proof fn law_attach_forwards_until_the_end<D, T, E>(
    phase: Phase<T>,
    polled: Seq<Outcome<D, T, E>>,
    j: int,
)
    requires
        phase is Holding || phase is Deferred,
        0 <= j < polled.len(),
        forall|i: int| 0 <= i <= j ==> !(#[trigger] polled[i] is Ended),
    ensures
        attach_run(phase, polled).len() == polled.len(),
        attach_run(phase, polled)[j] == polled[j],
    decreases polled.len(),
{
    lemma_attach_run_len(phase, polled);
    let (next, out) = attach_step(phase, polled[0]);
    let rest = polled.skip(1);
    lemma_attach_run_len(next, rest);
    assert(!(polled[0] is Ended));
    if j > 0 {
        assert forall|i: int| 0 <= i <= j - 1 implies !(#[trigger] rest[i] is Ended) by {
            assert(rest[i] == polled[i + 1]);
        }
        law_attach_forwards_until_the_end(next, rest, j - 1);
    }
}

/// The attached trailers come exactly once where the source has none: a
/// source that ends without trailers of its own is followed by the held
/// trailers as one frame, and by `Ended` at the poll after that.
pub proof fn law_attached_trailers_come_once<D, T, E>(
    trailers: T,
    polled: Outcome<D, T, E>,
    later: Outcome<D, T, E>,
)
    requires
        polled is Ended,
    ensures
        ({
            let (next, first) = attach_step(Phase::Holding(Some(trailers)), polled);
            let (last, second) = attach_step(next, later);
            &&& first == Outcome::<D, T, E>::Done(Frame::Trailers(trailers))
            &&& second == Outcome::<D, T, E>::Ended
            &&& next is Finished
            &&& last is Finished
        }),
{
}

} // verus!
