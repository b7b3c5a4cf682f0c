//! The message data model and the typed payload decoders.
//!
//! A message is an immutable snapshot of a server-side entity; the core
//! treats its content as opaque payload.  The decoders here read a
//! message, an event, or a whole history payload out of a parsed
//! response tree, and their contracts say exactly which trees decode
//! and to what.

use vstd::prelude::*;
use crate::json::{get_arr, get_bool, get_field, get_int, get_str, get_arr_field, get_bool_field, get_int_field, get_str_field, lookup, JsonValue};

verus! {

/// One chat message, as the server reports it.
#[derive(Debug, PartialEq, Eq)]
pub struct Message {
    pub content: String,
    pub content_type: String,
    pub id: i64,
    pub sender_email: String,
    pub sender_full_name: String,
    pub sender_id: i64,
    pub stream_id: i64,
    pub subject: String,
    pub timestamp: u64,
}

/// The mathematical content of a [`Message`].
pub struct MessageView {
    pub content: Seq<char>,
    pub content_type: Seq<char>,
    pub id: i64,
    pub sender_email: Seq<char>,
    pub sender_full_name: Seq<char>,
    pub sender_id: i64,
    pub stream_id: i64,
    pub subject: Seq<char>,
    pub timestamp: u64,
}

impl View for Message {
    type V = MessageView;

    open spec fn view(&self) -> MessageView {
        MessageView {
            content: self.content@,
            content_type: self.content_type@,
            id: self.id,
            sender_email: self.sender_email@,
            sender_full_name: self.sender_full_name@,
            sender_id: self.sender_id,
            stream_id: self.stream_id,
            subject: self.subject@,
            timestamp: self.timestamp,
        }
    }
}

/// One entry of a poll response: the event id and the message it carries.
#[derive(Debug, PartialEq, Eq)]
pub struct MessageEvent {
    pub id: i64,
    pub message: Message,
}

/// The mathematical content of a [`MessageEvent`].
pub struct MessageEventView {
    pub id: i64,
    pub message: MessageView,
}

impl View for MessageEvent {
    type V = MessageEventView;

    open spec fn view(&self) -> MessageEventView {
        MessageEventView { id: self.id, message: self.message@ }
    }
}

/// The typed result of a history query.
#[derive(Debug, PartialEq, Eq)]
pub struct MessagesResponse {
    pub anchor: Option<i64>,
    pub found_newest: Option<bool>,
    pub found_oldest: Option<bool>,
    pub found_anchor: Option<bool>,
    pub messages: Vec<Message>,
}

/// The result of posting a message: the id the server assigned it.
#[derive(Debug, PartialEq, Eq)]
pub struct PostResponse {
    pub id: i64,
}

/// The views of a sequence of messages, element for element.
pub open spec fn message_views(s: Seq<Message>) -> Seq<MessageView> {
    Seq::new(s.len(), |i: int| s[i]@)
}

/// Whether `v` holds every field a message requires, each with its
/// right type, with a non-negative timestamp.
pub open spec fn message_fields_present(v: JsonValue) -> bool {
    &&& get_str(v, "content"@) is Some
    &&& get_str(v, "content_type"@) is Some
    &&& get_int(v, "id"@) is Some
    &&& get_str(v, "sender_email"@) is Some
    &&& get_str(v, "sender_full_name"@) is Some
    &&& get_int(v, "sender_id"@) is Some
    &&& get_int(v, "stream_id"@) is Some
    &&& get_str(v, "subject"@) is Some
    &&& get_int(v, "timestamp"@) is Some
    &&& get_int(v, "timestamp"@).unwrap() >= 0
}

/// The message `v` decodes to, when every required field is present.
pub open spec fn spec_decode_message(v: JsonValue) -> Option<MessageView> {
    if message_fields_present(v) {
        Some(
            MessageView {
                content: get_str(v, "content"@).unwrap(),
                content_type: get_str(v, "content_type"@).unwrap(),
                id: get_int(v, "id"@).unwrap(),
                sender_email: get_str(v, "sender_email"@).unwrap(),
                sender_full_name: get_str(v, "sender_full_name"@).unwrap(),
                sender_id: get_int(v, "sender_id"@).unwrap(),
                stream_id: get_int(v, "stream_id"@).unwrap(),
                subject: get_str(v, "subject"@).unwrap(),
                timestamp: get_int(v, "timestamp"@).unwrap() as u64,
            },
        )
    } else {
        None
    }
}

/// The event `v` decodes to: its integer `id` and the message under
/// its `message` field.
pub open spec fn spec_decode_event(v: JsonValue) -> Option<MessageEventView> {
    match get_int(v, "id"@) {
        Some(id) => match get_field(v, "message"@) {
            Some(m) => match spec_decode_message(m) {
                Some(mv) => Some(MessageEventView { id, message: mv }),
                None => None,
            },
            None => None,
        },
        None => None,
    }
}

/// The events a whole list decodes to, in order; `None` as soon as one
/// entry does not decode.
pub open spec fn spec_decode_events(items: Seq<JsonValue>) -> Option<Seq<MessageEventView>>
    decreases items.len(),
{
    if items.len() == 0 {
        Some(Seq::empty())
    } else {
        match (spec_decode_events(items.drop_last()), spec_decode_event(items.last())) {
            (Some(rest), Some(e)) => Some(rest.push(e)),
            _ => None,
        }
    }
}

/// The messages a whole list decodes to, in order; `None` as soon as
/// one entry does not decode.
pub open spec fn spec_decode_message_list(items: Seq<JsonValue>) -> Option<Seq<MessageView>>
    decreases items.len(),
{
    if items.len() == 0 {
        Some(Seq::empty())
    } else {
        match (spec_decode_message_list(items.drop_last()), spec_decode_message(items.last())) {
            (Some(rest), Some(m)) => Some(rest.push(m)),
            _ => None,
        }
    }
}

/// Reads one message out of `v`.
pub fn decode_message(v: &JsonValue) -> (r: Option<Message>)
    ensures
        match r {
            Some(m) => spec_decode_message(*v) == Some(m@),
            None => spec_decode_message(*v) is None,
        },
{
    let content = get_str_field(v, "content");
    let content_type = get_str_field(v, "content_type");
    let id = get_int_field(v, "id");
    let sender_email = get_str_field(v, "sender_email");
    let sender_full_name = get_str_field(v, "sender_full_name");
    let sender_id = get_int_field(v, "sender_id");
    let stream_id = get_int_field(v, "stream_id");
    let subject = get_str_field(v, "subject");
    let timestamp = get_int_field(v, "timestamp");
    if content.is_some() && content_type.is_some() && id.is_some() && sender_email.is_some()
        && sender_full_name.is_some() && sender_id.is_some() && stream_id.is_some()
        && subject.is_some() && timestamp.is_some() {
        let ts = timestamp.unwrap();
        if ts >= 0 {
            Some(
                Message {
                    content: content.unwrap(),
                    content_type: content_type.unwrap(),
                    id: id.unwrap(),
                    sender_email: sender_email.unwrap(),
                    sender_full_name: sender_full_name.unwrap(),
                    sender_id: sender_id.unwrap(),
                    stream_id: stream_id.unwrap(),
                    subject: subject.unwrap(),
                    timestamp: ts as u64,
                },
            )
        } else {
            None
        }
    } else {
        None
    }
}

/// Reads one event out of `v`.
pub fn decode_event(v: &JsonValue) -> (r: Option<MessageEvent>)
    ensures
        match r {
            Some(e) => spec_decode_event(*v) == Some(e@),
            None => spec_decode_event(*v) is None,
        },
{
    let id = match get_int_field(v, "id") {
        Some(id) => id,
        None => {
            return None;
        },
    };
    let m = match lookup(v, "message") {
        Some(m) => m,
        None => {
            return None;
        },
    };
    match decode_message(m) {
        Some(message) => Some(MessageEvent { id, message }),
        None => None,
    }
}

proof fn lemma_decode_events_take_step(items: Seq<JsonValue>, i: int)
    requires
        0 <= i < items.len(),
    ensures
        spec_decode_events(items.take(i + 1)) == match (
            spec_decode_events(items.take(i)),
            spec_decode_event(items[i]),
        ) {
            (Some(rest), Some(e)) => Some(rest.push(e)),
            _ => None::<Seq<MessageEventView>>,
        },
{
    assert(items.take(i + 1).drop_last() =~= items.take(i));
    assert(items.take(i + 1).last() == items[i]);
}

proof fn lemma_decode_events_fail(items: Seq<JsonValue>, i: int)
    requires
        0 <= i < items.len(),
        spec_decode_event(items[i]) is None,
    ensures
        spec_decode_events(items) is None,
    decreases items.len(),
{
    if i == items.len() - 1 {
        assert(items.last() == items[i]);
    } else {
        assert(items.drop_last()[i] == items[i]);
        lemma_decode_events_fail(items.drop_last(), i);
    }
}

proof fn lemma_decode_message_list_take_step(items: Seq<JsonValue>, i: int)
    requires
        0 <= i < items.len(),
    ensures
        spec_decode_message_list(items.take(i + 1)) == match (
            spec_decode_message_list(items.take(i)),
            spec_decode_message(items[i]),
        ) {
            (Some(rest), Some(m)) => Some(rest.push(m)),
            _ => None::<Seq<MessageView>>,
        },
{
    assert(items.take(i + 1).drop_last() =~= items.take(i));
    assert(items.take(i + 1).last() == items[i]);
}

proof fn lemma_decode_message_list_fail(items: Seq<JsonValue>, i: int)
    requires
        0 <= i < items.len(),
        spec_decode_message(items[i]) is None,
    ensures
        spec_decode_message_list(items) is None,
    decreases items.len(),
{
    if i == items.len() - 1 {
        assert(items.last() == items[i]);
    } else {
        assert(items.drop_last()[i] == items[i]);
        lemma_decode_message_list_fail(items.drop_last(), i);
    }
}

/// Reads a whole event list out of `items`, or reports which cannot be.
pub fn decode_events(items: &Vec<JsonValue>) -> (r: Option<Vec<MessageEvent>>)
    ensures
        match r {
            Some(evs) => {
                &&& spec_decode_events(items@) matches Some(s)
                &&& s.len() == evs@.len()
                &&& forall|j: int| 0 <= j < evs@.len() ==> s[j] == evs@[j]@
            },
            None => spec_decode_events(items@) is None,
        },
{
    let n = items.len();
    let mut evs: Vec<MessageEvent> = Vec::new();
    let mut i: usize = 0;
    while i < n
        invariant
            i <= n,
            n == items@.len(),
            evs@.len() == i,
            spec_decode_events(items@.take(i as int)) matches Some(s) && s.len() == i
                && (forall|j: int| 0 <= j < i ==> s[j] == evs@[j]@),
        decreases n - i,
    {
        proof {
            lemma_decode_events_take_step(items@, i as int);
        }
        match decode_event(&items[i]) {
            Some(e) => evs.push(e),
            None => {
                proof {
                    lemma_decode_events_fail(items@, i as int);
                }
                return None;
            },
        }
        i += 1;
    }
    proof {
        assert(items@.take(n as int) =~= items@);
    }
    Some(evs)
}

/// Reads a whole message list out of `items`, or reports which cannot be.
pub fn decode_message_list(items: &Vec<JsonValue>) -> (r: Option<Vec<Message>>)
    ensures
        match r {
            Some(ms) => {
                &&& spec_decode_message_list(items@) matches Some(s)
                &&& s.len() == ms@.len()
                &&& forall|j: int| 0 <= j < ms@.len() ==> s[j] == ms@[j]@
            },
            None => spec_decode_message_list(items@) is None,
        },
{
    let n = items.len();
    let mut ms: Vec<Message> = Vec::new();
    let mut i: usize = 0;
    while i < n
        invariant
            i <= n,
            n == items@.len(),
            ms@.len() == i,
            spec_decode_message_list(items@.take(i as int)) matches Some(s) && s.len() == i
                && (forall|j: int| 0 <= j < i ==> s[j] == ms@[j]@),
        decreases n - i,
    {
        proof {
            lemma_decode_message_list_take_step(items@, i as int);
        }
        match decode_message(&items[i]) {
            Some(m) => ms.push(m),
            None => {
                proof {
                    lemma_decode_message_list_fail(items@, i as int);
                }
                return None;
            },
        }
        i += 1;
    }
    proof {
        assert(items@.take(n as int) =~= items@);
    }
    Some(ms)
}

} // verus!
