//! The event-queue handle and the poll cycle that drives it.
//!
//! A queue handle pairs the server-issued queue id with the client-held
//! cursor, the highest event id already observed.  One poll cycle hands
//! the raw response text to [`Queue::apply_poll`], which advances the
//! cursor from the raw event ids it sees — success or failure alike, so
//! no observed event is ever requested twice — and yields the decoded
//! message batch only when the envelope reports success.

use vstd::prelude::*;
use crate::errors::ZulipApiError;
use crate::envelope::{decode_envelope, spec_envelope};
use crate::json::{get_arr, get_int, get_arr_field, get_int_field, json_of, parse_json, JsonValue};
use crate::message::{decode_events, message_views, spec_decode_events, MessageView, Message};

verus! {

/// A registered event queue: the server's id for it and the cursor.
/// The cursor never decreases over the handle's lifetime.
#[derive(Debug, PartialEq, Eq)]
pub struct Queue {
    pub id: String,
    pub last_event_id: i64,
}

/// The highest integer `id` found among `items`, but never below
/// `floor`.  An entry without an integer `id` contributes nothing.
pub open spec fn spec_max_id(items: Seq<JsonValue>, floor: i64) -> i64
    decreases items.len(),
{
    if items.len() == 0 {
        floor
    } else {
        let rest = spec_max_id(items.drop_last(), floor);
        match get_int(items.last(), "id"@) {
            Some(id) => if id > rest {
                id
            } else {
                rest
            },
            None => rest,
        }
    }
}

/// The cursor after one poll cycle on response tree `v`, starting from
/// cursor `c`: the maximum of `c` and every event id in the response.
pub open spec fn spec_new_cursor(v: JsonValue, c: i64) -> i64 {
    match get_arr(v, "events"@) {
        Some(items) => spec_max_id(items, c),
        None => c,
    }
}

/// The message batch a successful poll response yields: the messages
/// of its events, in response order.  `None` where the envelope does
/// not report success or the events do not decode.
pub open spec fn spec_poll_messages(v: JsonValue) -> Option<Seq<MessageView>> {
    if spec_envelope(v) matches Some(p) && p.0 {
        match get_arr(v, "events"@) {
            Some(items) => match spec_decode_events(items) {
                Some(evs) => Some(Seq::new(evs.len(), |i: int| evs[i].message)),
                None => None,
            },
            None => None,
        }
    } else {
        None
    }
}

/// The cursor never regresses: the new cursor is at least the old one.
pub proof fn lemma_max_id_at_least_floor(items: Seq<JsonValue>, floor: i64)
    ensures
        spec_max_id(items, floor) >= floor,
    decreases items.len(),
{
    if items.len() > 0 {
        lemma_max_id_at_least_floor(items.drop_last(), floor);
    }
}

/// The post-poll cursor is exactly the maximum of the old cursor and
/// the event ids of the response: it is an upper bound of them all,
/// and it is one of them or the old cursor itself.
pub proof fn lemma_max_id_is_max(items: Seq<JsonValue>, floor: i64)
    ensures
        spec_max_id(items, floor) >= floor,
        forall|i: int| 0 <= i < items.len() ==> match #[trigger] get_int(items[i], "id"@) {
            Some(id) => spec_max_id(items, floor) >= id,
            None => true,
        },
        spec_max_id(items, floor) == floor || exists|i: int|
            0 <= i < items.len() && get_int(items[i], "id"@) == Some(spec_max_id(items, floor)),
    decreases items.len(),
{
    lemma_max_id_at_least_floor(items, floor);
    if items.len() > 0 {
        lemma_max_id_is_max(items.drop_last(), floor);
        let last = items[items.len() - 1];
        assert(items.last() == last);
        assert(forall|i: int| 0 <= i < items.len() - 1 ==> items.drop_last()[i] == items[i]);
        let m = spec_max_id(items, floor);
        let rest = spec_max_id(items.drop_last(), floor);
        if m != floor {
            if m == rest {
                let i = choose|i: int|
                    0 <= i < items.drop_last().len() && get_int(items.drop_last()[i], "id"@)
                        == Some(rest);
                assert(get_int(items[i], "id"@) == Some(m));
            } else {
                assert(get_int(items[items.len() - 1], "id"@) == Some(m));
            }
        }
    }
}

proof fn lemma_max_id_take_step(items: Seq<JsonValue>, floor: i64, i: int)
    requires
        0 <= i < items.len(),
    ensures
        spec_max_id(items.take(i + 1), floor) == {
            let rest = spec_max_id(items.take(i), floor);
            match get_int(items[i], "id"@) {
                Some(id) => if id > rest {
                    id
                } else {
                    rest
                },
                None => rest,
            }
        },
{
    assert(items.take(i + 1).drop_last() =~= items.take(i));
    assert(items.take(i + 1).last() == items[i]);
}

/// An idle long-poll is a no-op: a response whose event list is empty
/// leaves the cursor where it was, and when its envelope reports
/// success it yields the empty batch.
pub proof fn lemma_idle_poll_is_noop(v: JsonValue, c: i64)
    requires
        get_arr(v, "events"@) == Some(Seq::<JsonValue>::empty()),
    ensures
        spec_new_cursor(v, c) == c,
        (spec_envelope(v) matches Some(p) && p.0) ==> spec_poll_messages(v) == Some(
            Seq::<MessageView>::empty(),
        ),
{
    if spec_envelope(v) matches Some(p) && p.0 {
        assert(spec_poll_messages(v) matches Some(s) && s =~= Seq::<MessageView>::empty());
    }
}

/// A non-success envelope decides the outcome alone: it never yields a
/// batch, and any two responses whose envelopes agree on a failing
/// result are decoded alike, whatever payload fields they carry — even
/// ones that would satisfy the success payload shape.
pub proof fn lemma_failure_ignores_payload(v1: JsonValue, v2: JsonValue)
    requires
        spec_envelope(v1) matches Some(p) && !p.0,
        spec_envelope(v1) == spec_envelope(v2),
    ensures
        spec_poll_messages(v1) is None,
        spec_poll_messages(v1) == spec_poll_messages(v2),
{
}

/// The cursor after a whole sequence of poll cycles, applied in order.
pub open spec fn cursor_after(c: i64, vs: Seq<JsonValue>) -> i64
    decreases vs.len(),
{
    if vs.len() == 0 {
        c
    } else {
        spec_new_cursor(vs.last(), cursor_after(c, vs.drop_last()))
    }
}

/// Over every sequence of poll cycles on one handle the cursor is
/// non-decreasing: each prefix's cursor is at most the whole sequence's.
pub proof fn lemma_cursor_monotone(c: i64, vs: Seq<JsonValue>)
    ensures
        cursor_after(c, vs) >= c,
        forall|i: int| 0 <= i <= vs.len() ==> cursor_after(c, vs) >= #[trigger] cursor_after(
            c,
            vs.take(i),
        ),
    decreases vs.len(),
{
    if vs.len() == 0 {
        assert(forall|i: int| 0 <= i <= vs.len() ==> vs.take(i) =~= vs);
    } else {
        lemma_cursor_monotone(c, vs.drop_last());
        let prev = cursor_after(c, vs.drop_last());
        match get_arr(vs.last(), "events"@) {
            Some(items) => lemma_max_id_at_least_floor(items, prev),
            None => {},
        }
        assert(cursor_after(c, vs) >= prev);
        assert forall|i: int| 0 <= i <= vs.len() implies cursor_after(c, vs) >= #[trigger] cursor_after(
            c,
            vs.take(i),
        ) by {
            if i == vs.len() {
                assert(vs.take(i) =~= vs);
            } else {
                assert(vs.take(i) =~= vs.drop_last().take(i));
            }
        }
    }
}

impl Queue {
    /// One poll cycle, given the raw text of the poll response.
    ///
    /// On any parseable response the cursor advances to the maximum of
    /// its old value and every event id seen — even when the envelope
    /// reports failure, so already-observed events are never requested
    /// again.  The queue id never changes.  The batch of messages is
    /// yielded only on a success envelope whose events decode; a
    /// failure envelope yields the server's message instead, and
    /// anything unreadable is a protocol violation.
    pub fn apply_poll(&mut self, body: &str) -> (r: Result<Vec<Message>, ZulipApiError>)
        ensures
            final(self).id == old(self).id,
            final(self).last_event_id >= old(self).last_event_id,
            match json_of(body@) {
                None => final(self).last_event_id == old(self).last_event_id && r == Err::<
                    Vec<Message>,
                    _,
                >(ZulipApiError::ProtocolViolation),
                Some(v) => {
                    &&& final(self).last_event_id == spec_new_cursor(v, old(self).last_event_id)
                    &&& match spec_envelope(v) {
                        None => r == Err::<Vec<Message>, _>(ZulipApiError::ProtocolViolation),
                        Some(p) => if !p.0 {
                            r matches Err(ZulipApiError::ZulipError { message }) && message@ == p.1
                        } else {
                            match spec_poll_messages(v) {
                                Some(views) => r matches Ok(ms) && message_views(ms@) == views,
                                None => r == Err::<Vec<Message>, _>(
                                    ZulipApiError::ProtocolViolation,
                                ),
                            }
                        },
                    }
                },
            },
    {
        let v = match parse_json(body) {
            Some(v) => v,
            None => {
                return Err(ZulipApiError::ProtocolViolation);
            },
        };
        let ghost old_cursor = self.last_event_id;
        match get_arr_field(&v, "events") {
            Some(items) => {
                let n = items.len();
                let mut cur = self.last_event_id;
                let mut i: usize = 0;
                while i < n
                    invariant
                        i <= n,
                        n == items@.len(),
                        cur == spec_max_id(items@.take(i as int), old_cursor),
                    decreases n - i,
                {
                    proof {
                        lemma_max_id_take_step(items@, old_cursor, i as int);
                    }
                    match get_int_field(&items[i], "id") {
                        Some(id) => {
                            if id > cur {
                                cur = id;
                            }
                        },
                        None => {},
                    }
                    i += 1;
                }
                proof {
                    assert(items@.take(n as int) =~= items@);
                }
                self.last_event_id = cur;
            },
            None => {},
        }
        proof {
            match get_arr(v, "events"@) {
                Some(items) => lemma_max_id_at_least_floor(items, old_cursor),
                None => {},
            }
        }
        let env = match decode_envelope(&v) {
            Ok(env) => env,
            Err(e) => {
                return Err(e);
            },
        };
        if !env.success {
            return Err(ZulipApiError::ZulipError { message: env.msg });
        }
        let items = match get_arr_field(&v, "events") {
            Some(items) => items,
            None => {
                return Err(ZulipApiError::ProtocolViolation);
            },
        };
        let evs = match decode_events(items) {
            Some(evs) => evs,
            None => {
                return Err(ZulipApiError::ProtocolViolation);
            },
        };
        let n = evs.len();
        let mut ms: Vec<Message> = Vec::new();
        let mut i: usize = 0;
        while i < n
            invariant
                i <= n,
                n == evs@.len(),
                ms@.len() == i,
                forall|j: int| 0 <= j < i ==> ms@[j] == evs@[j].message,
            decreases n - i,
        {
            let ev = &evs[i];
            ms.push(
                Message {
                    content: ev.message.content.clone(),
                    content_type: ev.message.content_type.clone(),
                    id: ev.message.id,
                    sender_email: ev.message.sender_email.clone(),
                    sender_full_name: ev.message.sender_full_name.clone(),
                    sender_id: ev.message.sender_id,
                    stream_id: ev.message.stream_id,
                    subject: ev.message.subject.clone(),
                    timestamp: ev.message.timestamp,
                },
            );
            i += 1;
        }
        proof {
            assert(message_views(ms@) =~= spec_poll_messages(v).unwrap());
        }
        Ok(ms)
    }
}

} // verus!
