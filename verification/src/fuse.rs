use vstd::prelude::*;

use crate::stream::PollNext;
use crate::stream::Stream;

verus! {

/// A terminal-state guard around a stream.
///
/// A bare [`Stream`] promises nothing of a poll made after it has reported
/// the end of its sequence. `Fuse` makes the end determinate: it forwards
/// polls until the stream first reports the end, and from then on reports
/// the end itself, without touching the stream again. Whether that has
/// happened is recorded by [`Fuse::done`], and once it holds it never
/// stops holding: the end is absorbing.
pub struct Fuse<St: Stream> {
    stream: St,
    done: bool,
}

impl<St: Stream> Fuse<St> {
    /// Whether the fuse has reported the end of the sequence. From then on
    /// every poll reports `End` and changes nothing.
    pub closed spec fn done(&self) -> bool {
        self.done
    }

    /// Guard a stream.
    pub fn new(stream: St) -> (fused: Fuse<St>)
        ensures
            !fused.done(),
            fused.emitted() == stream.emitted(),
            fused.ended() == stream.ended(),
    {
        Fuse { stream, done: false }
    }
}

impl<St: Stream> Stream for Fuse<St> {
    type Item = St::Item;

    /// The items the guarded stream has produced so far, in order.
    closed spec fn emitted(&self) -> Seq<St::Item> {
        self.stream.emitted()
    }

    /// Whether the end of the sequence has been reported, by the fuse or by
    /// the guarded stream itself.
    closed spec fn ended(&self) -> bool {
        self.done || self.stream.ended()
    }

    /// Try to produce the next item, deterministically even after the end.
    ///
    /// Once the fuse has reported the end of the sequence, it reports `End`
    /// again without polling the stream, and nothing changes; before that
    /// it forwards one poll of the stream, and `done` comes to hold exactly
    /// when that poll reported the end.
    fn poll_next(&mut self) -> (r: PollNext<St::Item>)
        ensures
            old(self).done() ==> r is End && *final(self) == *old(self),
            final(self).done() == (old(self).done() || r is End),
    {
        if self.done {
            return PollNext::End;
        }
        match self.stream.poll_next() {
            PollNext::Pending => PollNext::Pending,
            PollNext::Item(item) => PollNext::Item(item),
            PollNext::End => {
                self.done = true;
                PollNext::End
            },
        }
    }
}

} // verus!
