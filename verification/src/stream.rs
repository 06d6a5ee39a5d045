use vstd::prelude::*;

verus! {

/// The outcome of polling a stream once: no progress yet, the next item of
/// the sequence, or the end of the sequence.
#[derive(Clone, Debug, PartialEq, Eq)]
pub enum PollNext<T> {
    /// The stream could not make progress. The stream itself is responsible
    /// for arranging to be polled again; the caller just tries again later.
    Pending,
    /// The next item of the sequence.
    Item(T),
    /// The sequence is over.
    End,
}

/// A pull-based, possibly-suspending sequence of items.
///
/// Each call to [`Stream::poll_next`] yields [`PollNext::Pending`], the next
/// item, or [`PollNext::End`]. The items surface in a fixed order, recorded
/// by the `emitted` history, and the sequence terminates at most once: once
/// `ended` holds, nothing further is promised of a poll — the stream may
/// hand back anything. The [`Fuse`](crate::fuse::Fuse) decorator makes
/// polling after the end determinate again.
pub trait Stream: Sized {
    /// The type of the items the stream produces.
    type Item;

    /// The items this stream has produced so far, in order.
    spec fn emitted(&self) -> Seq<Self::Item>;

    /// Whether this stream has reported the end of its sequence.
    spec fn ended(&self) -> bool;

    /// Try to produce the next item.
    ///
    /// Before the end of the sequence: `Pending` and `End` leave the
    /// emitted history unchanged; an item is appended to it; and `ended`
    /// holds after the call exactly when the call reported `End`.
    fn poll_next(&mut self) -> (r: PollNext<Self::Item>)
        ensures
            !old(self).ended() ==> match r {
                PollNext::Pending => {
                    &&& final(self).emitted() == old(self).emitted()
                    &&& !final(self).ended()
                },
                PollNext::Item(item) => {
                    &&& final(self).emitted() == old(self).emitted().push(item)
                    &&& !final(self).ended()
                },
                PollNext::End => {
                    &&& final(self).emitted() == old(self).emitted()
                    &&& final(self).ended()
                },
            },
    ;
}

} // verus!
