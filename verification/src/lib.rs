//! Combinators over pull-based frame streams.
//!
//! A source is polled by its owner; each combinator here owns the wrapped
//! source, is handed what one poll of it returned, and decides what its own
//! poll returns. The decisions are stated as contracts over the plain
//! values `Frame`, `Outcome` and `SizeHint`.

pub mod collect;
pub mod frame;
pub mod fuse;
pub mod inspect_err;
pub mod inspect_frame;
pub mod map_err;
pub mod map_frame;
pub mod with_trailers;

pub use crate::collect::{Collect, Collected, Collecting};
pub use crate::frame::{Frame, Outcome, SizeHint};
pub use crate::fuse::Fuse;
pub use crate::inspect_err::InspectErr;
pub use crate::inspect_frame::InspectFrame;
pub use crate::map_err::MapErr;
pub use crate::map_frame::MapFrame;
pub use crate::with_trailers::{Phase, WithTrailers};
