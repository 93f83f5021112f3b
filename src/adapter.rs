//! What the runner exchanges with an event store: connection parameters,
//! events to write, read requests and the events read back.

use vstd::prelude::*;

use std::collections::HashMap;

use crate::decimal::{decimal_digits, push_decimal};

verus! {

/// Where and how clients reach a store.
#[derive(Debug, Clone)]
pub struct ConnectionParams {
    pub uri: String,
    pub options: HashMap<String, String>,
}

/// One event to append.
#[derive(Debug, Clone)]
pub struct EventData {
    pub stream: String,
    pub event_type: String,
    pub payload: Vec<u8>,
    pub tags: Vec<String>,
}

/// A read of one stream: events at or after `from_offset`, at most `limit`.
#[derive(Debug, Clone)]
pub struct ReadRequest {
    pub stream: String,
    pub from_offset: Option<u64>,
    pub limit: Option<u64>,
}

/// One event read back from a store.
#[derive(Debug, Clone)]
pub struct ReadEvent {
    pub offset: u64,
    pub event_type: String,
    pub payload: Vec<u8>,
    pub timestamp_ms: u64,
}

pub open spec fn stream_prefix() -> Seq<char> {
    seq!['s', 't', 'r', 'e', 'a', 'm', '-']
}

/// The name of stream `idx`: `"stream-"` and `idx` in decimal.
pub open spec fn stream_name_of(idx: nat) -> Seq<char> {
    stream_prefix() + decimal_digits(idx)
}

/// The name of stream `idx`: `"stream-"` and `idx` in decimal.
pub fn stream_name(idx: u64) -> (r: String)
    ensures
        r@ == stream_name_of(idx as nat),
{
    let mut s = String::from_str("stream-");
    proof {
        reveal_strlit("stream-");
        assert("stream-"@ =~= stream_prefix());
    }
    push_decimal(&mut s, idx);
    s
}

pub open spec fn test_event_type() -> Seq<char> {
    seq!['t', 'e', 's', 't']
}

/// `n` zero bytes.
pub open spec fn zeros(n: nat) -> Seq<u8> {
    Seq::new(n, |i: int| 0u8)
}

/// Whether `e` is the event that load generation appends to stream `idx`:
/// type `"test"`, `size` zero bytes of payload, no tags.
pub open spec fn is_load_event(e: EventData, idx: nat, size: nat) -> bool {
    &&& e.stream@ == stream_name_of(idx)
    &&& e.event_type@ == test_event_type()
    &&& e.payload@ == zeros(size)
    &&& e.tags@.len() == 0
}

/// The event that load generation appends to stream `idx`.
pub fn load_event(idx: u64, size: usize) -> (e: EventData)
    ensures
        is_load_event(e, idx as nat, size as nat),
{
    let payload: Vec<u8> = vec![0u8; size];
    proof {
        reveal_strlit("test");
        assert("test"@ =~= test_event_type());
    }
    assert(payload@ =~= zeros(size as nat));
    EventData {
        stream: stream_name(idx),
        event_type: String::from_str("test"),
        payload,
        tags: Vec::new(),
    }
}

/// How many events one read of the load asks for.
pub const READ_BATCH: u64 = 100;

/// Whether `r` is the read that load generation issues for stream `idx`:
/// from the start, at most `READ_BATCH` events.
pub open spec fn is_load_read(r: ReadRequest, idx: nat) -> bool {
    &&& r.stream@ == stream_name_of(idx)
    &&& r.from_offset is None
    &&& r.limit == Some(READ_BATCH)
}

/// The read that load generation issues for stream `idx`.
pub fn load_read(idx: u64) -> (r: ReadRequest)
    ensures
        is_load_read(r, idx as nat),
{
    ReadRequest { stream: stream_name(idx), from_offset: None, limit: Some(READ_BATCH) }
}

/// Whether an event at `offset` is at or after `from`.
pub open spec fn at_or_after(from: Option<u64>, offset: u64) -> bool {
    match from {
        Some(f) => offset >= f,
        None => true,
    }
}

/// The events of `s` at or after `from`, in order.
pub open spec fn events_from(s: Seq<ReadEvent>, from: Option<u64>) -> Seq<ReadEvent>
    decreases s.len(),
{
    if s.len() == 0 {
        s
    } else if at_or_after(from, s.last().offset) {
        events_from(s.drop_last(), from).push(s.last())
    } else {
        events_from(s.drop_last(), from)
    }
}

/// What a read returns of the events `s` of a stream, in store order: those
/// at or after `from_offset`, at most `limit` of them.
pub open spec fn read_window(s: Seq<ReadEvent>, from: Option<u64>, limit: Option<u64>) -> Seq<
    ReadEvent,
> {
    let kept = events_from(s, from);
    match limit {
        Some(l) => if l < kept.len() {
            kept.take(l as int)
        } else {
            kept
        },
        None => kept,
    }
}

proof fn lemma_events_from_len(s: Seq<ReadEvent>, from: Option<u64>)
    ensures
        events_from(s, from).len() <= s.len(),
    decreases s.len(),
{
    if s.len() > 0 {
        lemma_events_from_len(s.drop_last(), from);
    }
}

proof fn lemma_events_from_append(a: Seq<ReadEvent>, e: ReadEvent, from: Option<u64>)
    ensures
        events_from(a.push(e), from) == if at_or_after(from, e.offset) {
            events_from(a, from).push(e)
        } else {
            events_from(a, from)
        },
{
    assert(a.push(e).drop_last() =~= a);
}

/// Applies a read request to the events of a stream in store order: keeps
/// those at or after `from_offset` and at most `limit` of them.
pub fn apply_read_request(events: Vec<ReadEvent>, req: &ReadRequest) -> (r: Vec<ReadEvent>)
    ensures
        r@ == read_window(events@, req.from_offset, req.limit),
{
    let mut rest = events;
    let mut kept: Vec<ReadEvent> = Vec::new();
    let ghost all = rest@;
    let ghost mut seen: Seq<ReadEvent> = Seq::empty();
    while rest.len() > 0
        invariant
            all == seen + rest@,
            all == events@,
            kept@ == read_window(seen, req.from_offset, req.limit),
        decreases rest@.len(),
    {
        let full = match req.limit {
            Some(l) => kept.len() as u64 >= l,
            None => false,
        };
        if full {
            proof {
                lemma_window_full(seen, rest@, req.from_offset, req.limit);
            }
            return kept;
        }
        let e = rest.remove(0);
        proof {
            lemma_events_from_append(seen, e, req.from_offset);
            lemma_events_from_len(seen, req.from_offset);
            seen = seen.push(e);
            assert(all =~= seen + rest@);
        }
        if match req.from_offset {
            Some(f) => e.offset >= f,
            None => true,
        } {
            kept.push(e);
        }
    }
    assert(seen =~= all);
    kept
}

proof fn lemma_events_from_prefix(a: Seq<ReadEvent>, b: Seq<ReadEvent>, from: Option<u64>)
    ensures
        events_from(a + b, from).take(events_from(a, from).len() as int) == events_from(a, from),
        events_from(a + b, from).len() >= events_from(a, from).len(),
    decreases b.len(),
{
    if b.len() == 0 {
        assert(a + b =~= a);
        assert(events_from(a, from).take(events_from(a, from).len() as int) =~= events_from(a, from));
    } else {
        let b0 = b.drop_last();
        lemma_events_from_prefix(a, b0, from);
        assert((a + b).drop_last() =~= a + b0);
        let k = events_from(a, from).len() as int;
        let longer = events_from(a + b, from);
        let shorter = events_from(a + b0, from);
        if at_or_after(from, b.last().offset) {
            assert(longer == shorter.push(b.last()));
            assert(longer.take(k) =~= shorter.take(k));
        } else {
            assert(longer == shorter);
        }
    }
}

proof fn lemma_window_full(
    seen: Seq<ReadEvent>,
    rest: Seq<ReadEvent>,
    from: Option<u64>,
    limit: Option<u64>,
)
    requires
        limit is Some,
        read_window(seen, from, limit).len() >= limit->0,
    ensures
        read_window(seen + rest, from, limit) == read_window(seen, from, limit),
{
    let l = limit->0;
    lemma_events_from_prefix(seen, rest, from);
    let a = events_from(seen, from);
    let b = events_from(seen + rest, from);
    assert(a.len() >= l);
    assert(b.take(l as int) =~= a.take(l as int));
    if l == a.len() {
        assert(a.take(l as int) =~= a);
    }
}

} // verus!
