//! A combinator that keeps a stream ended once it has ended.

use crate::frame::{Outcome, SizeHint};
use vstd::prelude::*;

verus! {

/// Wraps a source that may go on producing after it has signalled its end.
/// Once terminated, the combinator answers every poll with `Ended` and has
/// no more use for the source.
#[derive(Debug)]
pub struct Fuse<B> {
    inner: B,
    on_failure: bool,
    terminated: bool,
}

/// One poll of a fusing combinator as a function: from whether it was
/// terminated, its policy and what the source returned (or would have), to
/// whether it is terminated afterwards and what it returns.
pub open spec fn fuse_step<D, T, E>(
    terminated: bool,
    on_failure: bool,
    polled: Outcome<D, T, E>,
) -> (bool, Outcome<D, T, E>) {
    if terminated {
        (true, Outcome::Ended)
    } else {
        (polled is Ended || (on_failure && polled is Failed), polled)
    }
}

/// What a fusing combinator returns, poll by poll, where the source returns
/// (or would return) the outcomes `polled`.
pub open spec fn fuse_run<D, T, E>(
    terminated: bool,
    on_failure: bool,
    polled: Seq<Outcome<D, T, E>>,
) -> Seq<Outcome<D, T, E>>
    decreases polled.len(),
{
    if polled.len() == 0 {
        Seq::empty()
    } else {
        let (next, out) = fuse_step(terminated, on_failure, polled[0]);
        seq![out] + fuse_run(next, on_failure, polled.skip(1))
    }
}

impl<B> Fuse<B> {
    /// The wrapped source.
    pub closed spec fn source(&self) -> B {
        self.inner
    }

    /// Whether the stream has terminated.
    pub closed spec fn terminated(&self) -> bool {
        self.terminated
    }

    /// Whether an error of the source terminates the stream too.
    pub closed spec fn ends_on_failure(&self) -> bool {
        self.on_failure
    }

    /// Wraps `body`; the stream terminates when the source first ends.
    pub fn new(body: B) -> (r: Self)
        ensures
            r.source() == body,
            !r.terminated(),
            !r.ends_on_failure(),
    {
        Fuse { inner: body, on_failure: false, terminated: false }
    }

    /// Wraps `body`; the stream terminates when the source first ends or
    /// first fails.
    pub fn ending_on_failure(body: B) -> (r: Self)
        ensures
            r.source() == body,
            !r.terminated(),
            r.ends_on_failure(),
    {
        Fuse { inner: body, on_failure: true, terminated: false }
    }

    /// Get a reference to the inner body
    pub fn get_ref(&self) -> (r: &B)
        ensures
            *r == self.source(),
    {
        &self.inner
    }

    /// Get a mutable reference to the inner body
    pub fn get_mut(&mut self) -> (r: &mut B)
        ensures
            *r == old(self).source(),
            final(self).source() == *final(r),
            final(self).terminated() == old(self).terminated(),
            final(self).ends_on_failure() == old(self).ends_on_failure(),
    {
        &mut self.inner
    }

    /// Consume `self`, returning the inner body
    pub fn into_inner(self) -> (r: B)
        ensures
            r == self.source(),
    {
        self.inner
    }

    /// Whether the stream has terminated: if so, the source need not be
    /// polled again.
    pub fn is_terminated(&self) -> (r: bool)
        ensures
            r == self.terminated(),
    {
        self.terminated
    }

    /// Decides what a poll of this combinator returns, given what the poll
    /// of the wrapped source returned. Once terminated it returns `Ended`
    /// whatever `polled` is. Before that it returns `polled`, and terminates
    /// where `polled` is `Ended` or, under that policy, `Failed`.
    pub fn poll_frame<D, T, E>(&mut self, polled: Outcome<D, T, E>) -> (r: Outcome<D, T, E>)
        ensures
            (final(self).terminated(), r) == fuse_step(
                old(self).terminated(),
                old(self).ends_on_failure(),
                polled,
            ),
            final(self).source() == old(self).source(),
            final(self).ends_on_failure() == old(self).ends_on_failure(),
    {
        if self.terminated {
            return Outcome::Ended;
        }
        match polled {
            Outcome::Ended => {
                self.terminated = true;
                Outcome::Ended
            },
            Outcome::Failed(err) => {
                if self.on_failure {
                    self.terminated = true;
                }
                Outcome::Failed(err)
            },
            other => other,
        }
    }

    /// The size hint of this combinator, given that of the wrapped source:
    /// exactly nothing once terminated, the source's hint before.
    pub fn size_hint(&self, inner: SizeHint) -> (r: SizeHint)
        ensures
            r == (if self.terminated() {
                SizeHint { lower: 0, upper: Some(0) }
            } else {
                inner
            }),
    {
        if self.terminated {
            SizeHint::with_exact(0)
        } else {
            inner
        }
    }

    /// Whether this combinator has ended, given whether the wrapped source
    /// has: once terminated it has, and before that when the source has.
    pub fn is_end_stream(&self, inner_ended: bool) -> (r: bool)
        ensures
            r == (self.terminated() || inner_ended),
    {
        self.terminated || inner_ended
    }
}

/// A run returns one outcome for each poll.
pub proof fn lemma_fuse_run_len<D, T, E>(
    terminated: bool,
    on_failure: bool,
    polled: Seq<Outcome<D, T, E>>,
)
    ensures
        fuse_run(terminated, on_failure, polled).len() == polled.len(),
    decreases polled.len(),
{
    if polled.len() > 0 {
        let (next, out) = fuse_step(terminated, on_failure, polled[0]);
        lemma_fuse_run_len(next, on_failure, polled.skip(1));
    }
}

/// A terminated combinator returns `Ended` at every poll.
pub proof fn lemma_fuse_terminated_stays_ended<D, T, E>(
    on_failure: bool,
    polled: Seq<Outcome<D, T, E>>,
    k: int,
)
    requires
        0 <= k < polled.len(),
    ensures
        fuse_run(true, on_failure, polled).len() == polled.len(),
        fuse_run(true, on_failure, polled)[k] is Ended,
    decreases polled.len(),
{
    lemma_fuse_run_len(true, on_failure, polled);
    lemma_fuse_run_len(true, on_failure, polled.skip(1));
    if k > 0 {
        lemma_fuse_terminated_stays_ended(on_failure, polled.skip(1), k - 1);
    }
}

/// Once a poll has returned `Ended`, every later poll of the same
/// combinator returns `Ended`, whatever the source returns or would return.
pub proof fn law_fuse_ended_is_final<D, T, E>(
    terminated: bool,
    on_failure: bool,
    polled: Seq<Outcome<D, T, E>>,
    i: int,
    j: int,
)
    requires
        0 <= i <= j < polled.len(),
        fuse_run(terminated, on_failure, polled)[i] is Ended,
    ensures
        fuse_run(terminated, on_failure, polled).len() == polled.len(),
        fuse_run(terminated, on_failure, polled)[j] is Ended,
    decreases polled.len(),
{
    lemma_fuse_run_len(terminated, on_failure, polled);
    let (next, out) = fuse_step(terminated, on_failure, polled[0]);
    let rest = polled.skip(1);
    lemma_fuse_run_len(next, on_failure, rest);
    if i == 0 {
        if j > 0 {
            assert(next);
            lemma_fuse_terminated_stays_ended(on_failure, rest, j - 1);
        }
    } else {
        law_fuse_ended_is_final(next, on_failure, rest, i - 1, j - 1);
    }
}

/// Until it terminates, a fresh combinator returns what the source returns,
/// outcome for outcome: the poll that ends the stream, or fails it under
/// that policy, is still returned as polled.
pub proof fn law_fuse_forwards_until_the_end<D, T, E>(
    on_failure: bool,
    polled: Seq<Outcome<D, T, E>>,
    j: int,
)
    requires
        0 <= j < polled.len(),
        forall|i: int|
            0 <= i < j ==> !(#[trigger] polled[i] is Ended) && !(on_failure && polled[i] is Failed),
    ensures
        fuse_run(false, on_failure, polled).len() == polled.len(),
        fuse_run(false, on_failure, polled)[j] == polled[j],
    decreases polled.len(),
{
    lemma_fuse_run_len(false, on_failure, polled);
    let (next, out) = fuse_step(false, on_failure, polled[0]);
    let rest = polled.skip(1);
    lemma_fuse_run_len(next, on_failure, rest);
    if j > 0 {
        assert(!(polled[0] is Ended) && !(on_failure && polled[0] is Failed));
        assert forall|i: int| 0 <= i < j - 1 implies !(#[trigger] rest[i] is Ended) && !(on_failure
            && rest[i] is Failed) by {
            assert(rest[i] == polled[i + 1]);
        }
        law_fuse_forwards_until_the_end(on_failure, rest, j - 1);
    }
}

} // verus!
