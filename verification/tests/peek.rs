use peekable_stream::Fuse;
use peekable_stream::Peekable;
use peekable_stream::PollNext;
use peekable_stream::ScriptedStream;
use peekable_stream::Stream;

fn wrap(script: Vec<PollNext<i32>>) -> Peekable<ScriptedStream<i32>> {
    Peekable::new(ScriptedStream::new(script))
}

#[test]
fn scenario_pending_then_two_items() {
    let mut p = wrap(vec![
        PollNext::Pending,
        PollNext::Item(1),
        PollNext::Item(2),
        PollNext::End,
    ]);
    assert_eq!(p.peek(), PollNext::Pending);
    assert_eq!(p.peek(), PollNext::Item(&1));
    assert_eq!(p.poll_next(), PollNext::Item(1));
    assert_eq!(p.peek(), PollNext::Item(&2));
    assert_eq!(p.poll_next(), PollNext::Item(2));
    assert_eq!(p.poll_next(), PollNext::End);
    assert_eq!(p.poll_next(), PollNext::End);
}

#[test]
fn peek_is_idempotent() {
    // A second item stands ready in the script: a peek that wrongly polled
    // again would surface it.
    let mut p = wrap(vec![PollNext::Item(7), PollNext::Item(8), PollNext::End]);
    assert_eq!(p.peek(), PollNext::Item(&7));
    assert_eq!(p.peek(), PollNext::Item(&7));
    assert_eq!(p.peek(), PollNext::Item(&7));
    assert_eq!(p.poll_next(), PollNext::Item(7));
}

#[test]
fn produce_drains_cache_first() {
    let mut p = wrap(vec![PollNext::Item(1), PollNext::Item(2), PollNext::End]);
    assert_eq!(p.peek(), PollNext::Item(&1));
    assert_eq!(p.poll_next(), PollNext::Item(1));
    assert_eq!(p.poll_next(), PollNext::Item(2));
    assert_eq!(p.poll_next(), PollNext::End);
}

#[test]
fn produce_passes_through_when_empty() {
    let script = vec![PollNext::Pending, PollNext::Item(5), PollNext::End];
    let mut direct = ScriptedStream::new(script.clone());
    let mut p = Peekable::new(ScriptedStream::new(script));
    for _ in 0..3 {
        assert_eq!(direct.poll_next(), p.poll_next());
    }
}

#[test]
fn end_is_absorbing() {
    let mut p = wrap(vec![PollNext::Item(3), PollNext::End]);
    assert_eq!(p.poll_next(), PollNext::Item(3));
    assert_eq!(p.poll_next(), PollNext::End);
    assert_eq!(p.peek(), PollNext::End);
    assert_eq!(p.poll_next(), PollNext::End);
    assert_eq!(p.peek(), PollNext::End);
}

#[test]
fn peek_after_end_stays_end() {
    let mut p = wrap(vec![PollNext::End]);
    assert_eq!(p.peek(), PollNext::End);
    assert_eq!(p.peek(), PollNext::End);
    assert_eq!(p.poll_next(), PollNext::End);
}

#[test]
fn order_preserved_under_mixed_calls() {
    let mut p = wrap(vec![
        PollNext::Pending,
        PollNext::Item(10),
        PollNext::Item(20),
        PollNext::Pending,
        PollNext::Item(30),
        PollNext::End,
    ]);
    let mut got: Vec<i32> = Vec::new();
    for round in 0..20 {
        // Peek on every other round: peeking must never reorder or drop.
        if round % 2 == 0 {
            let _ = p.peek();
        }
        match p.poll_next() {
            PollNext::Pending => {}
            PollNext::Item(x) => got.push(x),
            PollNext::End => break,
        }
    }
    assert_eq!(got, vec![10, 20, 30]);
}

#[test]
fn empty_script_is_pending() {
    let mut p = wrap(Vec::new());
    assert_eq!(p.peek(), PollNext::Pending);
    assert_eq!(p.poll_next(), PollNext::Pending);
}

#[test]
fn errors_in_items_pass_through_untouched() {
    let script: Vec<PollNext<Result<i32, String>>> = vec![
        PollNext::Item(Ok(1)),
        PollNext::Item(Err(String::from("boom"))),
        PollNext::End,
    ];
    let mut p = Peekable::new(ScriptedStream::new(script));
    assert_eq!(p.peek(), PollNext::Item(&Ok(1)));
    assert_eq!(p.poll_next(), PollNext::Item(Ok(1)));
    assert_eq!(p.poll_next(), PollNext::Item(Err(String::from("boom"))));
    assert_eq!(p.poll_next(), PollNext::End);
}

#[test]
fn peekable_composes_as_a_stream() {
    let inner = Peekable::new(ScriptedStream::new(vec![
        PollNext::Item(1),
        PollNext::Pending,
        PollNext::Item(2),
        PollNext::End,
    ]));
    let mut outer = Peekable::new(inner);
    assert_eq!(outer.peek(), PollNext::Item(&1));
    assert_eq!(outer.poll_next(), PollNext::Item(1));
    assert_eq!(outer.poll_next(), PollNext::Pending);
    assert_eq!(outer.peek(), PollNext::Item(&2));
    assert_eq!(outer.poll_next(), PollNext::Item(2));
    assert_eq!(outer.poll_next(), PollNext::End);
    assert_eq!(outer.poll_next(), PollNext::End);
}

#[test]
fn fuse_reports_end_without_repolling() {
    // An item stands in the script after the end: a fuse that wrongly kept
    // polling would surface it.
    let mut f = Fuse::new(ScriptedStream::new(vec![PollNext::End, PollNext::Item(9)]));
    assert_eq!(f.poll_next(), PollNext::End);
    assert_eq!(f.poll_next(), PollNext::End);
    assert_eq!(f.poll_next(), PollNext::End);
}

#[test]
fn fuse_forwards_until_end() {
    let mut f = Fuse::new(ScriptedStream::new(vec![PollNext::Pending, PollNext::Item(4)]));
    assert_eq!(f.poll_next(), PollNext::Pending);
    assert_eq!(f.poll_next(), PollNext::Item(4));
    // The script is exhausted without an end: the stream stays pending.
    assert_eq!(f.poll_next(), PollNext::Pending);
}

#[test]
fn scripted_replays_in_order() {
    let mut s = ScriptedStream::new(vec![
        PollNext::Item(1),
        PollNext::Pending,
        PollNext::Item(2),
        PollNext::End,
    ]);
    assert_eq!(s.poll_next(), PollNext::Item(1));
    assert_eq!(s.poll_next(), PollNext::Pending);
    assert_eq!(s.poll_next(), PollNext::Item(2));
    assert_eq!(s.poll_next(), PollNext::End);
}
