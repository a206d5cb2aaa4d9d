//! The forwarding policy of one direction of a connection.
//!
//! A forwarder copies bytes from one readable half to one writable
//! half.  Each turn of its loop races the next read against a short
//! flush timer: if the timer fires first, pending output is flushed
//! before the read is awaited, batching bursts of small writes while
//! bounding the added latency.  A zero-length read is end-of-stream:
//! the forwarder flushes once more and stops, without error.
//!
//! The policy itself is a pure function from what was read to what must
//! be written; the sockets and the timer live outside the library.  The
//! two directions of a connection are two independent runs of this
//! policy: what one direction writes is a function of what that
//! direction read alone, so neither direction can delay or change the
//! bytes of the other, and one direction reaching end-of-stream does
//! not end the other.

use vstd::prelude::*;

verus! {

/// The outcome of one turn of the forwarding loop: whether the flush
/// timer fired before the read completed, and the bytes the read then
/// yielded.  Empty bytes mean the readable half reached end-of-stream.
pub struct ReadEvent {
    /// The flush timer fired while the read was still pending.
    pub timer_fired: bool,
    /// The bytes the read yielded; empty at end-of-stream.
    pub data: Vec<u8>,
}

/// One output action of the forwarding policy.
pub enum IoAction {
    /// Write these bytes, in full, to the writable half.
    Write(Vec<u8>),
    /// Flush the writable half.
    Flush,
    /// This direction is finished; nothing follows.
    Stop,
}

/// The bytes a run of the policy must put on the wire: the data of the
/// events before the first end-of-stream, concatenated in order.
pub open spec fn payload_of(events: Seq<ReadEvent>) -> Seq<u8>
    decreases events.len(),
{
    if events.len() == 0 {
        Seq::empty()
    } else if events[0].data@.len() == 0 {
        Seq::empty()
    } else {
        events[0].data@ + payload_of(events.skip(1))
    }
}

/// The bytes a sequence of actions writes, concatenated in order.
pub open spec fn written_of(actions: Seq<IoAction>) -> Seq<u8>
    decreases actions.len(),
{
    if actions.len() == 0 {
        Seq::empty()
    } else {
        (match actions[0] {
            IoAction::Write(chunk) => chunk@,
            _ => Seq::empty(),
        }) + written_of(actions.skip(1))
    }
}

/// Whether some event of the run reports end-of-stream.
pub open spec fn has_eof(events: Seq<ReadEvent>) -> bool {
    exists|i: int| 0 <= i < events.len() && (#[trigger] events[i]).data@.len() == 0
}

/// The number of write actions in a sequence of actions.
pub open spec fn write_count(actions: Seq<IoAction>) -> nat
    decreases actions.len(),
{
    if actions.len() == 0 {
        0
    } else {
        (if actions[0] is Write {
            1 as nat
        } else {
            0 as nat
        }) + write_count(actions.skip(1))
    }
}

/// The number of chunks a run carries: its events with data, before the
/// first end-of-stream.
pub open spec fn chunk_count(events: Seq<ReadEvent>) -> nat
    decreases events.len(),
{
    if events.len() == 0 {
        0
    } else if events[0].data@.len() == 0 {
        0
    } else {
        1 + chunk_count(events.skip(1))
    }
}

/// The actions one turn of the loop takes, except for stopping: a flush
/// when the timer fired, then the chunk written in full — or a final
/// flush at end-of-stream.
pub fn forward_step(event: ReadEvent) -> (actions: Vec<IoAction>)
    ensures
        event.data@.len() == 0 && !event.timer_fired ==> actions@ =~= seq![IoAction::Flush],
        event.data@.len() == 0 && event.timer_fired ==> actions@ =~= seq![
            IoAction::Flush,
            IoAction::Flush,
        ],
        event.data@.len() > 0 ==> {
            &&& actions@.len() == (if event.timer_fired {
                2int
            } else {
                1int
            })
            &&& (actions@.last() matches IoAction::Write(chunk) && chunk@ == event.data@)
            &&& (event.timer_fired ==> actions@[0] == IoAction::Flush)
        },
        actions@.len() >= 1,
        written_of(actions@) == (if event.data@.len() == 0 {
            Seq::<u8>::empty()
        } else {
            event.data@
        }),
        write_count(actions@) == (if event.data@.len() == 0 {
            0nat
        } else {
            1nat
        }),
        forall|i: int| 0 <= i < actions@.len() ==> !((#[trigger] actions@[i]) is Stop),
{
    let mut actions: Vec<IoAction> = Vec::new();
    if event.timer_fired {
        actions.push(IoAction::Flush);
    }
    if event.data.is_empty() {
        actions.push(IoAction::Flush);
    } else {
        actions.push(IoAction::Write(event.data));
    }
    proof {
        reveal_with_fuel(written_of, 3);
        reveal_with_fuel(write_count, 3);
        if actions@.len() == 2 {
            assert(actions@.skip(1) =~= seq![actions@[1]]);
            assert(actions@.skip(1).skip(1) =~= Seq::<IoAction>::empty());
        } else {
            assert(actions@.skip(1) =~= Seq::<IoAction>::empty());
        }
        assert(written_of(actions@) =~= (if event.data@.len() == 0 {
            Seq::<u8>::empty()
        } else {
            event.data@
        }));
    }
    actions
}

/// Runs the whole policy over the recorded outcomes of one direction's
/// reads.
///
/// The written bytes are exactly the payload: every chunk read before
/// end-of-stream, in order, unmodified, whatever the timer did.  When
/// an event reports end-of-stream the run ends with a last flush and a
/// stop, without error, and later events are not consumed; without one
/// the direction stays open and no stop is emitted.
pub fn forward_run(mut events: Vec<ReadEvent>) -> (actions: Vec<IoAction>)
    ensures
        written_of(actions@) == payload_of(events@),
        write_count(actions@) == chunk_count(events@),
        has_eof(events@) ==> actions@.len() >= 2 && actions@.last() == IoAction::Stop
            && actions@[actions@.len() - 2] == IoAction::Flush,
        !has_eof(events@) ==> forall|i: int|
            0 <= i < actions@.len() ==> !((#[trigger] actions@[i]) is Stop),
    decreases events@.len(),
{
    let ghost all = events@;
    if events.len() == 0 {
        let actions: Vec<IoAction> = Vec::new();
        return actions;
    }
    let event = events.remove(0);
    let ghost ev_data = event.data@;
    proof {
        assert(events@ =~= all.skip(1));
        assert(all[0] == event);
    }
    let eof = event.data.is_empty();
    let mut actions = forward_step(event);
    if eof {
        let ghost step = actions@;
        actions.push(IoAction::Stop);
        proof {
            assert(actions@.drop_last() =~= step);
            lemma_written_of_push_non_write(step, IoAction::Stop);
            lemma_write_count_push_non_write(step, IoAction::Stop);
            assert(payload_of(all) =~= Seq::<u8>::empty());
            assert(actions@[actions@.len() - 2] == step.last());
        }
        return actions;
    }
    let mut tail = forward_run(events);
    let ghost step = actions@;
    let ghost rest = tail@;
    actions.append(&mut tail);
    proof {
        assert(actions@ =~= step + rest);
        lemma_written_of_append(step, rest);
        lemma_write_count_append(step, rest);
        assert(written_of(actions@) =~= payload_of(all));
        if has_eof(all) {
            let i = choose|i: int| 0 <= i < all.len() && all[i].data@.len() == 0;
            assert(all.skip(1)[i - 1].data@.len() == 0);
            assert(has_eof(all.skip(1)));
            assert(actions@.last() == rest.last());
            assert(actions@[actions@.len() - 2] == rest[rest.len() - 2]);
        } else {
            assert(!has_eof(all.skip(1))) by {
                if has_eof(all.skip(1)) {
                    let i = choose|i: int|
                        0 <= i < all.skip(1).len() && all.skip(1)[i].data@.len() == 0;
                    assert(all[i + 1].data@.len() == 0);
                }
            }
            assert(forall|i: int| 0 <= i < actions@.len() ==> !((#[trigger] actions@[i]) is Stop))
                by {
                assert(forall|i: int|
                    0 <= i < step.len() ==> actions@[i] == (#[trigger] step[i]));
                assert(forall|i: int|
                    step.len() <= i < actions@.len() ==> actions@[i] == (#[trigger] rest[i
                        - step.len()]));
            }
        }
    }
    actions
}

/// Concatenating action sequences concatenates what they write.
proof fn lemma_written_of_append(a: Seq<IoAction>, b: Seq<IoAction>)
    ensures
        written_of(a + b) == written_of(a) + written_of(b),
    decreases a.len(),
{
    if a.len() == 0 {
        assert(a + b =~= b);
        assert(written_of(a) + written_of(b) =~= written_of(b));
    } else {
        assert((a + b).skip(1) =~= a.skip(1) + b);
        lemma_written_of_append(a.skip(1), b);
        assert((a + b)[0] == a[0]);
        assert(written_of(a + b) =~= written_of(a) + written_of(b));
    }
}

/// Concatenating action sequences adds their write counts.
proof fn lemma_write_count_append(a: Seq<IoAction>, b: Seq<IoAction>)
    ensures
        write_count(a + b) == write_count(a) + write_count(b),
    decreases a.len(),
{
    if a.len() == 0 {
        assert(a + b =~= b);
    } else {
        assert((a + b).skip(1) =~= a.skip(1) + b);
        lemma_write_count_append(a.skip(1), b);
        assert((a + b)[0] == a[0]);
    }
}

/// A flush or a stop at the end writes nothing.
proof fn lemma_written_of_push_non_write(a: Seq<IoAction>, act: IoAction)
    requires
        !(act is Write),
    ensures
        written_of(a.push(act)) == written_of(a),
{
    assert(a.push(act) =~= a + seq![act]);
    lemma_written_of_append(a, seq![act]);
    assert(written_of(seq![act]) =~= Seq::<u8>::empty()) by {
        reveal_with_fuel(written_of, 2);
        assert(seq![act].skip(1) =~= Seq::<IoAction>::empty());
    }
    assert(written_of(a) + Seq::<u8>::empty() =~= written_of(a));
}

/// A flush or a stop at the end is not a write.
proof fn lemma_write_count_push_non_write(a: Seq<IoAction>, act: IoAction)
    requires
        !(act is Write),
    ensures
        write_count(a.push(act)) == write_count(a),
{
    assert(a.push(act) =~= a + seq![act]);
    lemma_write_count_append(a, seq![act]);
    assert(write_count(seq![act]) == 0) by {
        reveal_with_fuel(write_count, 2);
        assert(seq![act].skip(1) =~= Seq::<IoAction>::empty());
    }
}

/// The payload of a run depends on the bytes read alone, never on the
/// flush timer: two runs whose reads yield the same bytes carry the
/// same payload, however differently the timer fired.  The timer can
/// only move flushes; content and order of the forwarded bytes are
/// preserved.
pub proof fn lemma_payload_ignores_timer(a: Seq<ReadEvent>, b: Seq<ReadEvent>)
    requires
        a.len() == b.len(),
        forall|i: int| 0 <= i < a.len() ==> (#[trigger] a[i]).data@ == b[i].data@,
    ensures
        payload_of(a) == payload_of(b),
    decreases a.len(),
{
    if a.len() > 0 && a[0].data@.len() > 0 {
        assert(forall|i: int|
            0 <= i < a.skip(1).len() ==> (#[trigger] a.skip(1)[i]).data@ == b.skip(1)[i].data@);
        lemma_payload_ignores_timer(a.skip(1), b.skip(1));
    }
}

/// End-of-stream ends a direction cleanly: nothing read after the
/// first zero-length read is part of the payload, so the direction's
/// output is complete at that point.
pub proof fn lemma_eof_ends_payload(events: Seq<ReadEvent>, i: int)
    requires
        0 <= i < events.len(),
        events[i].data@.len() == 0,
    ensures
        payload_of(events) == payload_of(events.take(i)),
    decreases i,
{
    if events.len() > 0 && events[0].data@.len() > 0 {
        assert(i > 0);
        assert(events.skip(1)[i - 1].data@.len() == 0);
        lemma_eof_ends_payload(events.skip(1), i - 1);
        assert(events.take(i).skip(1) =~= events.skip(1).take(i - 1));
        assert(events.take(i)[0] == events[0]);
    } else if events.len() > 0 {
        if i > 0 {
            assert(events.take(i)[0] == events[0]);
        }
        assert(payload_of(events.take(i)) =~= Seq::<u8>::empty());
    }
}

} // verus!
