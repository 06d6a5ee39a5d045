use vstd::prelude::*;

use crate::peek::Peekable;
use crate::stream::PollNext;
use crate::stream::Stream;

verus! {

/// The cache dimension of a [`Peekable`]'s state: the one-slot cache is
/// empty, the cache holds an item, or the stream has ended (the absorbing
/// terminal state).
pub enum CacheState<T> {
    Empty,
    Filled(T),
    Terminal,
}

/// The cache state a [`Peekable`] is in.
pub open spec fn adapter_state<St: Stream>(peekable: &Peekable<St>) -> CacheState<St::Item> {
    match peekable.cache() {
        Some(item) => CacheState::Filled(item),
        None => if peekable.ended() {
            CacheState::Terminal
        } else {
            CacheState::Empty
        },
    }
}

/// A peeked poll outcome with the reference to the cached item replaced by
/// the item itself.
pub open spec fn deref_poll<T>(r: PollNext<&T>) -> PollNext<T> {
    match r {
        PollNext::Pending => PollNext::Pending,
        PollNext::Item(item) => PollNext::Item(*item),
        PollNext::End => PollNext::End,
    }
}

/// One [`Peekable::peek`] call as a transition of the cache state machine.
///
/// `up` is the outcome the underlying fused stream would hand back if it
/// were consulted; the result is the state after the call, paired with the
/// call's outcome. With a filled cache, and in the terminal state, the
/// transition does not depend on `up`: the stream is not consulted.
pub open spec fn peek_step<T>(s: CacheState<T>, up: PollNext<T>) -> (CacheState<T>, PollNext<T>) {
    match s {
        CacheState::Filled(item) => (CacheState::Filled(item), PollNext::Item(item)),
        CacheState::Terminal => (CacheState::Terminal, PollNext::End),
        CacheState::Empty => match up {
            PollNext::Pending => (CacheState::Empty, PollNext::Pending),
            PollNext::Item(item) => (CacheState::Filled(item), PollNext::Item(item)),
            PollNext::End => (CacheState::Terminal, PollNext::End),
        },
    }
}

/// One [`Peekable::poll_next`] (production) call as a transition of the
/// cache state machine, with `up` as in [`peek_step`]. With a filled cache,
/// and in the terminal state, the transition does not depend on `up`: the
/// stream is not consulted.
pub open spec fn produce_step<T>(s: CacheState<T>, up: PollNext<T>) -> (
    CacheState<T>,
    PollNext<T>,
) {
    match s {
        CacheState::Filled(item) => (CacheState::Empty, PollNext::Item(item)),
        CacheState::Terminal => (CacheState::Terminal, PollNext::End),
        CacheState::Empty => match up {
            PollNext::Pending => (CacheState::Empty, PollNext::Pending),
            PollNext::Item(item) => (CacheState::Empty, PollNext::Item(item)),
            PollNext::End => (CacheState::Terminal, PollNext::End),
        },
    }
}

/// Idempotent peek: a peek that surfaces an item leaves the cache filled
/// with exactly that item, and from a filled cache every further peek
/// returns the same item and changes nothing, whatever the underlying
/// stream would do (it is not consulted). A run of consecutive peeks
/// therefore returns the first surfaced item over and over, and consults
/// the underlying stream at most once, on the first peek.
pub proof fn lemma_peek_idempotent<T>(s: CacheState<T>, item: T, up: PollNext<T>, again: PollNext<
    T,
>)
    requires
        peek_step(s, up).1 == PollNext::Item(item),
    ensures
        peek_step(s, up).0 == CacheState::Filled(item),
        peek_step(CacheState::Filled(item), again) == (
            CacheState::Filled(item),
            PollNext::Item(item),
        ),
{
}

/// Drain before repoll: a peek that fills the cache, followed immediately
/// by a production call, yields the cached item and empties the cache, and
/// the production call does not consult the underlying stream (its
/// transition does not depend on `up`).
pub proof fn lemma_drain_before_repoll<T>(item: T, up: PollNext<T>)
    ensures
        peek_step(CacheState::Empty, PollNext::Item(item)).0 == CacheState::Filled(item),
        produce_step(CacheState::Filled(item), up) == (
            CacheState::<T>::Empty,
            PollNext::Item(item),
        ),
{
}

/// Pass-through when empty: with an empty cache, a production call's
/// outcome is exactly what the underlying fused stream returned, for each
/// of the three outcomes.
pub proof fn lemma_pass_through_when_empty<T>(up: PollNext<T>)
    ensures
        produce_step(CacheState::Empty, up).1 == up,
{
}

/// Which of the two operations a consumer calls.
pub enum Call {
    Peek,
    Produce,
}

/// One call, of either operation, as a transition of the cache state
/// machine.
pub open spec fn step<T>(call: Call, s: CacheState<T>, up: PollNext<T>) -> (
    CacheState<T>,
    PollNext<T>,
) {
    match call {
        Call::Peek => peek_step(s, up),
        Call::Produce => produce_step(s, up),
    }
}

/// The state after a sequence of calls, each paired with the outcome the
/// underlying fused stream would hand back if consulted.
pub open spec fn run_state<T>(s: CacheState<T>, calls: Seq<(Call, PollNext<T>)>) -> CacheState<T>
    decreases calls.len(),
{
    if calls.len() == 0 {
        s
    } else {
        run_state(step(calls[0].0, s, calls[0].1).0, calls.drop_first())
    }
}

/// The outcomes of a sequence of calls, in order.
pub open spec fn run_outputs<T>(s: CacheState<T>, calls: Seq<(Call, PollNext<T>)>) -> Seq<
    PollNext<T>,
>
    decreases calls.len(),
{
    if calls.len() == 0 {
        Seq::empty()
    } else {
        seq![step(calls[0].0, s, calls[0].1).1] + run_outputs(
            step(calls[0].0, s, calls[0].1).0,
            calls.drop_first(),
        )
    }
}

/// A run of calls has exactly one outcome per call.
pub proof fn lemma_run_outputs_len<T>(s: CacheState<T>, calls: Seq<(Call, PollNext<T>)>)
    ensures
        run_outputs(s, calls).len() == calls.len(),
    decreases calls.len(),
{
    if calls.len() > 0 {
        lemma_run_outputs_len(step(calls[0].0, s, calls[0].1).0, calls.drop_first());
    }
}

/// A run of consecutive peeks: if the first peek of the run surfaces an
/// item, every peek of the run returns that same item and the machine ends
/// up, and stays, in the filled state — whatever the underlying stream
/// would have handed back later (only the first peek can consult it).
pub proof fn lemma_peek_run<T>(s: CacheState<T>, calls: Seq<(Call, PollNext<T>)>, item: T)
    requires
        calls.len() > 0,
        forall|i: int| 0 <= i < calls.len() ==> (#[trigger] calls[i]).0 == Call::Peek,
        peek_step(s, calls[0].1).1 == PollNext::Item(item),
    ensures
        run_state(s, calls) == CacheState::Filled(item),
        forall|i: int| 0 <= i < calls.len() ==> run_outputs(s, calls)[i] == PollNext::Item(item),
    decreases calls.len(),
{
    let s1 = step(calls[0].0, s, calls[0].1).0;
    let tail = calls.drop_first();
    assert(s1 == CacheState::Filled(item));
    lemma_run_outputs_len(s1, tail);
    if tail.len() > 0 {
        assert forall|i: int| 0 <= i < tail.len() implies (#[trigger] tail[i]).0 == Call::Peek by {
            assert(tail[i] == calls[i + 1]);
        }
        lemma_peek_run(s1, tail, item);
    }
    assert forall|i: int| 0 <= i < calls.len() implies run_outputs(s, calls)[i] == PollNext::Item(
        item,
    ) by {
        if i > 0 {
            assert(run_outputs(s, calls)[i] == run_outputs(s1, tail)[i - 1]);
        }
    }
}

/// End absorption: a call of either operation yields `End` exactly when it
/// leaves the machine in the terminal state, and from the terminal state
/// every later call, whatever the interleaving of peeks and production
/// calls, yields `End` again and stays terminal.
pub proof fn lemma_end_absorption<T>(calls: Seq<(Call, PollNext<T>)>)
    ensures
        forall|call: Call, s: CacheState<T>, up: PollNext<T>| (#[trigger] step(call, s, up)).1
            == PollNext::<T>::End <==> step(call, s, up).0 == CacheState::<T>::Terminal,
        run_state(CacheState::<T>::Terminal, calls) == CacheState::<T>::Terminal,
        forall|i: int| 0 <= i < calls.len() ==> run_outputs(CacheState::<T>::Terminal, calls)[i]
            == PollNext::<T>::End,
    decreases calls.len(),
{
    if calls.len() > 0 {
        let tail = calls.drop_first();
        let out0 = step(calls[0].0, CacheState::<T>::Terminal, calls[0].1).1;
        assert(step(calls[0].0, CacheState::<T>::Terminal, calls[0].1).0
            == CacheState::<T>::Terminal);
        lemma_end_absorption::<T>(tail);
        lemma_run_outputs_len(CacheState::<T>::Terminal, tail);
        assert(run_outputs(CacheState::<T>::Terminal, calls) == seq![out0] + run_outputs(
            CacheState::<T>::Terminal,
            tail,
        ));
        assert forall|i: int| 0 <= i < calls.len() implies run_outputs(
            CacheState::<T>::Terminal,
            calls,
        )[i] == PollNext::<T>::End by {
            if i > 0 {
                assert(run_outputs(CacheState::<T>::Terminal, calls)[i] == run_outputs(
                    CacheState::<T>::Terminal,
                    tail,
                )[i - 1]);
            }
        }
    }
}

} // verus!
