use vstd::prelude::*;

use crate::fuse::Fuse;
use crate::laws::adapter_state;
use crate::laws::deref_poll;
use crate::laws::peek_step;
use crate::laws::produce_step;
use crate::laws::CacheState;
use crate::stream::PollNext;
use crate::stream::Stream;

verus! {

/// A stream with a `peek` method: a one-slot lookahead cache over a fused
/// stream.
///
/// [`Peekable::peek`] retrieves a reference to the next item of the stream
/// without consuming it; a later call to [`Stream::poll_next`] returns the
/// owned item. The wrapped stream is guarded by a [`Fuse`], so once it
/// reports the end of its sequence, every later call reports the end again.
///
/// `Peekable` itself satisfies the [`Stream`] capability — its production
/// operation is the stream one — so it composes transparently with anything
/// that expects a stream.
pub struct Peekable<St: Stream> {
    stream: Fuse<St>,
    peeked: Option<St::Item>,
    yielded: Ghost<Seq<St::Item>>,
}

impl<St: Stream> Peekable<St> {
    /// The items the underlying stream has produced so far, in order,
    /// including a still-cached one.
    pub closed spec fn upstream_emitted(&self) -> Seq<St::Item> {
        self.stream.emitted()
    }

    /// The item held in the one-slot cache, if any. A cached item has been
    /// produced by the underlying stream but not yet handed to the
    /// consumer.
    pub closed spec fn cache(&self) -> Option<St::Item> {
        self.peeked
    }

    /// Well-formedness, established by [`Peekable::new`] and preserved by
    /// every operation: the fuse guard is in step with its stream; the
    /// underlying emission history is exactly the items already handed to
    /// the consumer, followed by the cached item, if any; and in the
    /// terminal state the cache is empty.
    pub closed spec fn wf(&self) -> bool {
        &&& self.stream.ended() == self.stream.done()
        &&& match self.peeked {
            Some(item) => self.stream.emitted() == self.emitted().push(item),
            None => self.stream.emitted() == self.emitted(),
        }
        &&& (self.peeked is Some ==> !self.stream.done())
    }

    /// Wrap a stream. The stream is put behind a [`Fuse`] and the cache
    /// starts empty.
    pub fn new(stream: St) -> (peekable: Peekable<St>)
        ensures
            peekable.cache() is None,
            !peekable.ended(),
            peekable.emitted() == stream.emitted(),
            peekable.upstream_emitted() == stream.emitted(),
            !stream.ended() ==> peekable.wf(),
    {
        let fused = Fuse::new(stream);
        let ghost handed_out = fused.emitted();
        Peekable { stream: fused, peeked: None, yielded: Ghost(handed_out) }
    }

    /// Retrieve a reference to the next item of the stream without
    /// consuming it.
    ///
    /// If the cache is filled, this returns a reference to the cached item
    /// immediately, touching nothing else; repeated calls without an
    /// intervening [`Stream::poll_next`] return the same item, and the
    /// underlying stream is polled at most once across such a run. If the
    /// cache is empty, the underlying stream is polled once: `Pending` is
    /// propagated verbatim, an item is cached and a reference to it
    /// returned, and the end of the sequence is reported as `End`. A peek
    /// never consumes an item: what the consumer has been handed stays
    /// unchanged.
    pub fn peek(&mut self) -> (r: PollNext<&St::Item>)
        ensures
            final(self).emitted() == old(self).emitted(),
            old(self).wf() ==> final(self).wf(),
            old(self).wf() ==> (old(self).cache() matches Some(item) ==> {
                &&& r matches PollNext::Item(peeked) && *peeked == item
                &&& *final(self) == *old(self)
            }),
            old(self).wf() ==> (old(self).ended() ==> r is End && *final(self) == *old(self)),
            old(self).wf() ==> match r {
                PollNext::Pending => {
                    &&& old(self).cache() is None
                    &&& !old(self).ended()
                    &&& final(self).cache() is None
                    &&& !final(self).ended()
                    &&& final(self).upstream_emitted() == old(self).upstream_emitted()
                },
                PollNext::Item(peeked) => {
                    &&& final(self).cache() == Some(*peeked)
                    &&& !final(self).ended()
                    &&& (old(self).cache() is None ==> final(self).upstream_emitted()
                        == old(self).upstream_emitted().push(*peeked))
                },
                PollNext::End => {
                    &&& old(self).cache() is None
                    &&& final(self).cache() is None
                    &&& final(self).ended()
                    &&& final(self).upstream_emitted() == old(self).upstream_emitted()
                },
            },
            old(self).wf() ==> exists|up: PollNext<St::Item>| (
                adapter_state(final(self)),
                deref_poll(r),
            ) == #[trigger] peek_step(adapter_state(old(self)), up),
    {
        if self.peeked.is_none() {
            match self.stream.poll_next() {
                PollNext::Pending => {
                    proof {
                        assert(peek_step(adapter_state(old(self)), PollNext::<St::Item>::Pending).0
                            == CacheState::<St::Item>::Empty);
                    }
                    return PollNext::Pending;
                },
                PollNext::End => {
                    proof {
                        assert(peek_step(adapter_state(old(self)), PollNext::<St::Item>::End).0
                            == CacheState::<St::Item>::Terminal);
                    }
                    return PollNext::End;
                },
                PollNext::Item(item) => {
                    let ghost produced = item;
                    self.peeked = Some(item);
                    proof {
                        assert(peek_step(adapter_state(old(self)), PollNext::Item(produced)).0
                            == CacheState::Filled(produced));
                    }
                },
            }
        } else {
            proof {
                assert(peek_step(adapter_state(old(self)), PollNext::<St::Item>::Pending).0
                    == adapter_state(old(self)));
            }
        }
        match &self.peeked {
            Some(item) => PollNext::Item(item),
            None => PollNext::End,
        }
    }

    /// Order preservation: in every well-formed adapter state, the
    /// underlying stream's emission history is exactly the items the
    /// adapter has handed to its consumer, in order, followed by the cached
    /// item, if any. Items therefore surface once each, in emission order,
    /// and once the stream has ended the consumer has been handed every
    /// emitted item.
    pub proof fn lemma_order_preservation(&self)
        requires
            self.wf(),
        ensures
            self.cache() matches Some(item) ==> self.upstream_emitted() == self.emitted().push(
                item,
            ),
            self.cache() is None ==> self.upstream_emitted() == self.emitted(),
            self.emitted() == self.upstream_emitted().take(self.emitted().len() as int),
            self.ended() ==> self.emitted() == self.upstream_emitted(),
    {
        assert(self.emitted() =~= self.upstream_emitted().take(self.emitted().len() as int));
    }
}

impl<St: Stream> Stream for Peekable<St> {
    type Item = St::Item;

    /// The items the adapter has handed to its consumer, in order. The
    /// history starts at whatever the wrapped stream had already emitted.
    closed spec fn emitted(&self) -> Seq<St::Item> {
        self.yielded@
    }

    /// Whether the underlying stream has reported the end of its sequence.
    /// Once this holds the adapter is in its terminal state: the cache is
    /// empty, and every later call reports the end again.
    closed spec fn ended(&self) -> bool {
        self.stream.done()
    }

    /// Produce the next item of the stream: the standard stream production
    /// operation.
    ///
    /// If the cache is filled, this drains it and returns the cached item,
    /// without polling the underlying stream. If the cache is empty, it
    /// delegates to the underlying (fused) stream and forwards the result
    /// unchanged: `Pending` verbatim, an item as taken, the end of the
    /// sequence as `End`. Either way the cache is empty afterwards, and
    /// each returned item extends what the consumer has been handed, in
    /// emission order.
    fn poll_next(&mut self) -> (r: PollNext<St::Item>)
        ensures
            final(self).cache() is None,
            old(self).wf() ==> final(self).wf(),
            old(self).wf() ==> (old(self).cache() matches Some(item) ==> {
                &&& r == PollNext::Item(item)
                &&& final(self).upstream_emitted() == old(self).upstream_emitted()
                &&& !final(self).ended()
            }),
            old(self).wf() ==> (old(self).ended() ==> r is End && *final(self) == *old(self)),
            old(self).wf() ==> match r {
                PollNext::Pending => {
                    &&& old(self).cache() is None
                    &&& !old(self).ended()
                    &&& !final(self).ended()
                    &&& final(self).upstream_emitted() == old(self).upstream_emitted()
                    &&& final(self).emitted() == old(self).emitted()
                },
                PollNext::Item(item) => {
                    &&& final(self).emitted() == old(self).emitted().push(item)
                    &&& !final(self).ended()
                    &&& (old(self).cache() is None ==> final(self).upstream_emitted()
                        == old(self).upstream_emitted().push(item))
                },
                PollNext::End => {
                    &&& old(self).cache() is None
                    &&& final(self).ended()
                    &&& final(self).upstream_emitted() == old(self).upstream_emitted()
                    &&& final(self).emitted() == old(self).emitted()
                },
            },
            old(self).wf() ==> exists|up: PollNext<St::Item>| (adapter_state(final(self)), r)
                == #[trigger] produce_step(adapter_state(old(self)), up),
    {
        match self.peeked.take() {
            Some(item) => {
                self.yielded = Ghost(self.yielded@.push(item));
                proof {
                    assert(produce_step(adapter_state(old(self)), PollNext::<St::Item>::Pending).0
                        == CacheState::<St::Item>::Empty);
                }
                PollNext::Item(item)
            },
            None => {
                let polled = self.stream.poll_next();
                let out = match polled {
                    PollNext::Pending => PollNext::Pending,
                    PollNext::Item(item) => {
                        self.yielded = Ghost(self.yielded@.push(item));
                        PollNext::Item(item)
                    },
                    PollNext::End => PollNext::End,
                };
                proof {
                    assert(produce_step(adapter_state(old(self)), out).1 == out);
                }
                out
            },
        }
    }
}

} // verus!
