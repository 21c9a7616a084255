//! Composable adapters over a primitive unit of asynchronous computation:
//! a value that, when repeatedly polled, eventually produces a result
//! without blocking the calling thread.
//!
//! The polling contract is captured by the [`Computation`] trait, whose
//! `poll` method carries the specification every combinator is verified
//! against: a pending poll keeps the computation pollable and can only
//! narrow the set of values it may still produce, and a ready poll
//! delivers one of those values exactly once.  Sequence-producing
//! adapters follow the analogous [`StreamSource`] contract.
//!
//! Each combinator is an explicit state machine that wraps one or two
//! inner computations and steps through a small closed set of states on
//! every poll.  The one concurrency-bearing component is [`Shared`],
//! which lets many cloneable handles, possibly on different threads,
//! drive a single underlying computation at most once and each observe
//! a clone of its single result.

mod computation;
mod either;
mod ext;
mod flatten;
mod flatten_stream;
mod fuse;
mod inspect;
mod into_stream;
mod leaf;
mod laws;
mod map;
mod map_into;
mod shared;
mod stream;
mod then;

pub use computation::Computation;
pub use computation::Poll;
pub use either::Either;
pub use ext::ComputationExt;
pub use flatten::Flatten;
pub use flatten_stream::FlattenStream;
pub use fuse::Fuse;
pub use inspect::Inspect;
pub use into_stream::IntoStream;
pub use laws::lemma_completed_map_into_rejects;
pub use laws::lemma_completed_map_rejects;
pub use laws::lemma_either_left_transparent;
pub use laws::lemma_either_right_transparent;
pub use laws::lemma_map_map_composes;
pub use laws::lemma_shared_single_result;
pub use leaf::Delayed;
pub use leaf::Immediate;
pub use leaf::Items;
pub use map::Mapped;
pub use map_into::MapInto;
pub use shared::clones_of;
pub use shared::Shared;
pub use shared::State;
pub use stream::StreamSource;
pub use then::Then;
