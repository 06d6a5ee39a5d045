//! A single-item lookahead adapter for pull-based streams.
//!
//! A [`Peekable`](peek::Peekable) wraps a stream and lets a consumer inspect
//! the next item without consuming it, through a one-slot cache, while
//! preserving the stream's exactly-once production and end-of-sequence
//! semantics. The underlying stream is guarded by a [`Fuse`](fuse::Fuse)
//! decorator, so polling after the end of the sequence stays safe, and the
//! adapter satisfies the [`Stream`](stream::Stream) capability itself, so it
//! composes transparently with anything that expects a stream. The
//! [`laws`] module states the adapter's cache protocol as a small state
//! machine and proves its governing properties once and for all.

pub mod fuse;
pub mod laws;
pub mod peek;
pub mod scripted;
pub mod stream;

pub use fuse::Fuse;
pub use peek::Peekable;
pub use scripted::ScriptedStream;
pub use stream::PollNext;
pub use stream::Stream;
