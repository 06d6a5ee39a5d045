use vstd::prelude::*;

use crate::stream::PollNext;
use crate::stream::Stream;

verus! {

/// A stream that replays a fixed script of poll outcomes, in order.
///
/// Each [`Stream::poll_next`] plays the next scripted outcome; once the
/// script is exhausted the stream reports `Pending` forever. A script that
/// should terminate therefore ends with [`PollNext::End`]; one that goes on
/// past an `End` models a stream that misbehaves after the end of its
/// sequence, which a [`Fuse`](crate::fuse::Fuse) guards against. This is
/// the library's own stream implementation, used to exercise the adapters.
pub struct ScriptedStream<T> {
    /// The outcomes still to play, in reverse order: the next one is last.
    events: Vec<PollNext<T>>,
    /// The items played so far, in order.
    hist: Ghost<Seq<T>>,
    /// Whether `End` has been played.
    done: bool,
}

impl<T> ScriptedStream<T> {
    /// The poll outcomes still to play, in the order they will surface.
    pub closed spec fn script(&self) -> Seq<PollNext<T>> {
        Seq::new(self.events@.len(), |i: int| self.events@[self.events@.len() - 1 - i])
    }

    /// Build a stream that plays back `events` in order.
    pub fn new(events: Vec<PollNext<T>>) -> (stream: ScriptedStream<T>)
        ensures
            stream.emitted() == Seq::<T>::empty(),
            !stream.ended(),
            stream.script() == events@,
    {
        let ghost full = events@;
        let mut rest = events;
        let mut reversed: Vec<PollNext<T>> = Vec::new();
        proof {
            assert(full.take(rest@.len() as int) =~= full);
        }
        while rest.len() > 0
            invariant
                rest@ == full.take(rest@.len() as int),
                reversed@.len() + rest@.len() == full.len(),
                forall|i: int| 0 <= i < reversed@.len() ==> reversed@[i] == full[full.len() - 1
                    - i],
            decreases rest.len(),
        {
            let ghost len = rest@.len() as int;
            match rest.pop() {
                Some(event) => {
                    proof {
                        assert(full.take(len)[len - 1] == full[len - 1]);
                        assert(full.take(len).subrange(0, len - 1) =~= full.take(len - 1));
                    }
                    reversed.push(event);
                },
                None => {},
            }
        }
        let stream = ScriptedStream { events: reversed, hist: Ghost(Seq::empty()), done: false };
        proof {
            assert(stream.script() =~= full);
        }
        stream
    }
}

impl<T> Stream for ScriptedStream<T> {
    type Item = T;

    /// The items played so far, in order.
    closed spec fn emitted(&self) -> Seq<T> {
        self.hist@
    }

    /// Whether `End` has been played.
    closed spec fn ended(&self) -> bool {
        self.done
    }

    /// Play the next scripted outcome: exactly the head of the script, or
    /// `Pending` once the script is exhausted.
    fn poll_next(&mut self) -> (r: PollNext<T>)
        ensures
            old(self).script().len() == 0 ==> r is Pending && final(self).script()
                == old(self).script(),
            old(self).script().len() > 0 ==> r == old(self).script()[0] && final(self).script()
                == old(self).script().drop_first(),
    {
        match self.events.pop() {
            None => PollNext::Pending,
            Some(PollNext::Pending) => PollNext::Pending,
            Some(PollNext::Item(item)) => {
                self.hist = Ghost(self.hist@.push(item));
                PollNext::Item(item)
            },
            Some(PollNext::End) => {
                self.done = true;
                PollNext::End
            },
        }
    }
}

} // verus!
