//! The values that pass between a source and the combinators around it.

use vstd::prelude::*;

verus! {

/// One unit of a stream: a data payload, or the metadata that trails the data.
#[derive(Clone, Debug, PartialEq, Eq)]
pub enum Frame<D, T> {
    Data(D),
    Trailers(T),
}

/// What one poll of a source returns.
#[derive(Clone, Debug, PartialEq, Eq)]
pub enum Outcome<D, T, E> {
    /// Nothing is ready yet; the source will wake its caller.
    Pending,
    /// One frame was produced.
    Done(Frame<D, T>),
    /// Producing a frame failed.
    Failed(E),
    /// The stream has ended for good.
    Ended,
}

impl<D, T> Frame<D, T> {
    /// Whether this frame carries a data payload.
    pub fn is_data(&self) -> (r: bool)
        ensures
            r == (*self is Data),
    {
        match self {
            Frame::Data(_) => true,
            Frame::Trailers(_) => false,
        }
    }

    /// Whether this frame carries trailers.
    pub fn is_trailers(&self) -> (r: bool)
        ensures
            r == (*self is Trailers),
    {
        match self {
            Frame::Data(_) => false,
            Frame::Trailers(_) => true,
        }
    }
}

/// An estimate of how many bytes of data a stream has still to produce.
#[derive(Clone, Copy, Debug, PartialEq, Eq)]
pub struct SizeHint {
    /// At least this many bytes remain.
    pub lower: u64,
    /// At most this many bytes remain, where a bound is known.
    pub upper: Option<u64>,
}

impl SizeHint {
    /// The upper bound, where there is one, is not below the lower bound.
    pub open spec fn well_formed(&self) -> bool {
        self.upper matches Some(u) ==> self.lower <= u
    }

    /// The hint that knows nothing: at least zero bytes, no upper bound.
    pub fn new() -> (r: Self)
        ensures
            r == (SizeHint { lower: 0, upper: None }),
            r.well_formed(),
    {
        SizeHint { lower: 0, upper: None }
    }

    /// The hint of a stream with exactly `value` bytes left.
    pub fn with_exact(value: u64) -> (r: Self)
        ensures
            r == (SizeHint { lower: value, upper: Some(value) }),
            r.well_formed(),
    {
        SizeHint { lower: value, upper: Some(value) }
    }

    /// The exact number of bytes left, where both bounds agree.
    pub fn exact(&self) -> (r: Option<u64>)
        ensures
            r == (if self.upper == Some(self.lower) {
                Some(self.lower)
            } else {
                None
            }),
    {
        match self.upper {
            Some(u) => if u == self.lower {
                Some(u)
            } else {
                None
            },
            None => None,
        }
    }
}

} // verus!
