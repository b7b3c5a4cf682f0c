//! The eight operations, split at the transport boundary.
//!
//! For each operation the library provides the two computations around
//! the round trip: a request builder whose contract pins every field
//! sent, and a response decoder whose contract says exactly which
//! responses succeed, which are server rejections, and which violate
//! the protocol.  The embedding application performs the round trip in
//! between.

use vstd::prelude::*;
use vstd::string::*;
use crate::envelope::{decode_envelope, spec_envelope, Envelope};
use crate::errors::ZulipApiError;
use crate::json::{obj_get, get_arr, get_int, get_str, get_arr_field, get_int_field, json_of, json_text_of, opt_bool, opt_bool_field, opt_int, opt_int_field, parse_json, to_json_text, JsonValue};
use crate::message::{decode_message_list, message_views, spec_decode_message_list, MessageView, MessagesResponse, PostResponse};
use crate::narrow::{narrows_encoding, narrows_wire, Narrow};
use crate::queue::Queue;
use crate::request::{dec_int, i64_to_dec, ApiRequest, HttpMethod};

verus! {

/// The views of a sequence of filters, element for element.
pub open spec fn narrow_views(ns: Seq<Narrow>) -> Seq<crate::narrow::NarrowView> {
    ns.map_values(|n: Narrow| n@)
}

/// Whether `t` is exactly the `subscriptions` parameter of a stream
/// creation: one object of two fields, in this order, carrying the
/// stream's name and an empty description.
pub open spec fn subscriptions_encoding(t: JsonValue, name: Seq<char>) -> bool {
    &&& t matches JsonValue::Array(items)
    &&& items@.len() == 1
    &&& (items@[0] matches JsonValue::Object(fs) && fs@.len() == 2 && fs@[0].0@ == "name"@ && (
    fs@[0].1 matches JsonValue::Str(s) && s@ == name) && fs@[1].0@ == "description"@ && (
    fs@[1].1 matches JsonValue::Str(s) && s@ == Seq::<char>::empty()))
    &&& get_str(items@[0], "name"@) == Some(name)
    &&& get_str(items@[0], "description"@) == Some(Seq::<char>::empty())
}

/// The history request: window size, the anchor rule, and the filters.
/// Exactly one of `anchor` and `use_first_unread_anchor` is sent.
pub fn messages_request(
    num_before: u32,
    num_after: u32,
    anchor: Option<i64>,
    narrows: &Vec<Narrow>,
) -> (r: ApiRequest)
    ensures
        r.method == HttpMethod::Get,
        r.path@ == "api/v1/messages"@,
        r.form@.len() == 0,
        r.query@.len() == 4,
        r.query@[0].0@ == "num_before"@ && r.query@[0].1@ == dec_int(num_before as int),
        r.query@[1].0@ == "num_after"@ && r.query@[1].1@ == dec_int(num_after as int),
        match anchor {
            Some(a) => r.query@[2].0@ == "anchor"@ && r.query@[2].1@ == dec_int(a as int),
            None => r.query@[2].0@ == "use_first_unread_anchor"@ && r.query@[2].1@ == "true"@,
        },
        r.query@[3].0@ == "narrow"@,
        exists|t: JsonValue|
            narrows_encoding(t, narrow_views(narrows@)) && r.query@[3].1@ == #[trigger] json_text_of(t),
{
    let narrow_text = narrows_wire(narrows);
    let ghost narrow_view = narrow_text@;
    let mut query: Vec<(String, String)> = Vec::new();
    query.push(("num_before".to_owned(), i64_to_dec(num_before as i64)));
    query.push(("num_after".to_owned(), i64_to_dec(num_after as i64)));
    match anchor {
        Some(a) => query.push(("anchor".to_owned(), i64_to_dec(a))),
        None => query.push(("use_first_unread_anchor".to_owned(), "true".to_owned())),
    }
    query.push(("narrow".to_owned(), narrow_text));
    let r = ApiRequest {
        method: HttpMethod::Get,
        path: String::from_str("api/v1/messages"),
        query,
        form: Vec::new(),
    };
    proof {
        let t = choose|t: JsonValue|
            narrows_encoding(t, narrow_views(narrows@)) && narrow_view == #[trigger] json_text_of(t);
        assert(narrows_encoding(t, narrow_views(narrows@)) && r.query@[3].1@ == json_text_of(t));
    }
    r
}

/// The post request: a stream message with its topic and content.
pub fn post_message_request(stream: &str, topic: &str, message: &str) -> (r: ApiRequest)
    ensures
        r.method == HttpMethod::Post,
        r.path@ == "api/v1/messages"@,
        r.query@.len() == 0,
        r.form@.len() == 4,
        r.form@[0].0@ == "type"@ && r.form@[0].1@ == "stream"@,
        r.form@[1].0@ == "to"@ && r.form@[1].1@ == stream@,
        r.form@[2].0@ == "subject"@ && r.form@[2].1@ == topic@,
        r.form@[3].0@ == "content"@ && r.form@[3].1@ == message@,
{
    let mut form: Vec<(String, String)> = Vec::new();
    form.push(("type".to_owned(), "stream".to_owned()));
    form.push(("to".to_owned(), String::from_str(stream)));
    form.push(("subject".to_owned(), String::from_str(topic)));
    form.push(("content".to_owned(), String::from_str(message)));
    ApiRequest {
        method: HttpMethod::Post,
        path: String::from_str("api/v1/messages"),
        query: Vec::new(),
        form,
    }
}

/// The mute request: adds the topic to the account's muted topics.
pub fn mute_request(stream: &str, topic: &str) -> (r: ApiRequest)
    ensures
        r.method == HttpMethod::Patch,
        r.path@ == "api/v1/users/me/subscriptions/muted_topics"@,
        r.query@.len() == 0,
        r.form@.len() == 3,
        r.form@[0].0@ == "stream"@ && r.form@[0].1@ == stream@,
        r.form@[1].0@ == "topic"@ && r.form@[1].1@ == topic@,
        r.form@[2].0@ == "op"@ && r.form@[2].1@ == "add"@,
{
    let mut form: Vec<(String, String)> = Vec::new();
    form.push(("stream".to_owned(), String::from_str(stream)));
    form.push(("topic".to_owned(), String::from_str(topic)));
    form.push(("op".to_owned(), "add".to_owned()));
    ApiRequest {
        method: HttpMethod::Patch,
        path: String::from_str("api/v1/users/me/subscriptions/muted_topics"),
        query: Vec::new(),
        form,
    }
}

/// The queue registration request: message events only, the broadcast
/// flag, and the filters.
pub fn register_request(all_public_streams: bool, narrows: &Vec<Narrow>) -> (r: ApiRequest)
    ensures
        r.method == HttpMethod::Post,
        r.path@ == "api/v1/register"@,
        r.query@.len() == 0,
        r.form@.len() == 3,
        r.form@[0].0@ == "event_types"@ && r.form@[0].1@ == "[\"message\"]"@,
        r.form@[1].0@ == "all_public_streams"@ && r.form@[1].1@ == (if all_public_streams {
            "true"@
        } else {
            "false"@
        }),
        r.form@[2].0@ == "narrow"@,
        exists|t: JsonValue|
            narrows_encoding(t, narrow_views(narrows@)) && r.form@[2].1@ == #[trigger] json_text_of(t),
{
    let narrow_text = narrows_wire(narrows);
    let ghost narrow_view = narrow_text@;
    let mut form: Vec<(String, String)> = Vec::new();
    form.push(("event_types".to_owned(), "[\"message\"]".to_owned()));
    let flag = if all_public_streams {
        "true".to_owned()
    } else {
        "false".to_owned()
    };
    form.push(("all_public_streams".to_owned(), flag));
    form.push(("narrow".to_owned(), narrow_text));
    let r = ApiRequest {
        method: HttpMethod::Post,
        path: String::from_str("api/v1/register"),
        query: Vec::new(),
        form,
    };
    proof {
        let t = choose|t: JsonValue|
            narrows_encoding(t, narrow_views(narrows@)) && narrow_view == #[trigger] json_text_of(t);
        assert(narrows_encoding(t, narrow_views(narrows@)) && r.form@[2].1@ == json_text_of(t));
    }
    r
}

/// The poll request for a queue: its id and the current cursor.
pub fn events_request(queue: &Queue) -> (r: ApiRequest)
    ensures
        r.method == HttpMethod::Get,
        r.path@ == "api/v1/events"@,
        r.form@.len() == 0,
        r.query@.len() == 2,
        r.query@[0].0@ == "queue_id"@ && r.query@[0].1@ == queue.id@,
        r.query@[1].0@ == "last_event_id"@ && r.query@[1].1@ == dec_int(
            queue.last_event_id as int,
        ),
{
    let mut query: Vec<(String, String)> = Vec::new();
    query.push(("queue_id".to_owned(), queue.id.clone()));
    query.push(("last_event_id".to_owned(), i64_to_dec(queue.last_event_id)));
    ApiRequest {
        method: HttpMethod::Get,
        path: String::from_str("api/v1/events"),
        query,
        form: Vec::new(),
    }
}

/// The stream creation request: one subscription with the stream's
/// name and an empty description, and the announce flag.
pub fn create_stream_request(name: &str, announce: bool) -> (r: ApiRequest)
    ensures
        r.method == HttpMethod::Post,
        r.path@ == "api/v1/users/me/subscriptions"@,
        r.query@.len() == 0,
        r.form@.len() == 2,
        r.form@[0].0@ == "subscriptions"@,
        exists|t: JsonValue|
            subscriptions_encoding(t, name@) && r.form@[0].1@ == #[trigger] json_text_of(t),
        r.form@[1].0@ == "announce"@ && r.form@[1].1@ == (if announce {
            "true"@
        } else {
            "false"@
        }),
{
    let mut sub_fields: Vec<(String, JsonValue)> = Vec::new();
    sub_fields.push(("name".to_owned(), JsonValue::Str(String::from_str(name))));
    sub_fields.push(("description".to_owned(), JsonValue::Str(String::new())));
    let mut subs: Vec<JsonValue> = Vec::new();
    subs.push(JsonValue::Object(sub_fields));
    let t = JsonValue::Array(subs);
    proof {
        reveal_strlit("name");
        reveal_strlit("description");
        reveal_with_fuel(obj_get, 3);
        assert("name"@.len() == 4);
        assert("description"@.len() == 11);
        assert(subscriptions_encoding(t, name@));
    }
    let sub_text = to_json_text(&t);
    let mut form: Vec<(String, String)> = Vec::new();
    form.push(("subscriptions".to_owned(), sub_text));
    let flag = if announce {
        "true".to_owned()
    } else {
        "false".to_owned()
    };
    form.push(("announce".to_owned(), flag));
    ApiRequest {
        method: HttpMethod::Post,
        path: String::from_str("api/v1/users/me/subscriptions"),
        query: Vec::new(),
        form,
    }
}

/// The name-to-id resolution request for a stream.
pub fn get_stream_id_request(stream: &str) -> (r: ApiRequest)
    ensures
        r.method == HttpMethod::Get,
        r.path@ == "api/v1/get_stream_id"@,
        r.form@.len() == 0,
        r.query@.len() == 1,
        r.query@[0].0@ == "stream"@ && r.query@[0].1@ == stream@,
{
    let mut query: Vec<(String, String)> = Vec::new();
    query.push(("stream".to_owned(), String::from_str(stream)));
    ApiRequest {
        method: HttpMethod::Get,
        path: String::from_str("api/v1/get_stream_id"),
        query,
        form: Vec::new(),
    }
}

/// The stream deletion request: the stream's id stands in the path.
pub fn delete_stream_request(stream_id: i64) -> (r: ApiRequest)
    ensures
        r.method == HttpMethod::Delete,
        r.path@ == "api/v1/streams/"@ + dec_int(stream_id as int),
        r.query@.len() == 0,
        r.form@.len() == 0,
{
    let id_text = i64_to_dec(stream_id);
    ApiRequest {
        method: HttpMethod::Delete,
        path: String::from_str("api/v1/streams/").concat(id_text.as_str()),
        query: Vec::new(),
        form: Vec::new(),
    }
}

fn parse_envelope(body: &str) -> (r: Result<(JsonValue, Envelope), ZulipApiError>)
    ensures
        match r {
            Ok(p) => json_of(body@) == Some(p.0) && spec_envelope(p.0) == Some(
                (p.1.success, p.1.msg@),
            ),
            Err(e) => e == ZulipApiError::ProtocolViolation && match json_of(body@) {
                None => true,
                Some(v) => spec_envelope(v) is None,
            },
        },
{
    match parse_json(body) {
        Some(v) => match decode_envelope(&v) {
            Ok(env) => Ok((v, env)),
            Err(e) => Err(e),
        },
        None => Err(ZulipApiError::ProtocolViolation),
    }
}

/// Decodes the response to a post: the id the server assigned.
pub fn decode_post_response(body: &str) -> (r: Result<PostResponse, ZulipApiError>)
    ensures
        match json_of(body@) {
            None => r == Err::<PostResponse, ZulipApiError>(ZulipApiError::ProtocolViolation),
            Some(v) => match spec_envelope(v) {
                None => r == Err::<PostResponse, ZulipApiError>(ZulipApiError::ProtocolViolation),
                Some(p) => if !p.0 {
                    r matches Err(ZulipApiError::ZulipError { message }) && message@ == p.1
                } else {
                    match get_int(v, "id"@) {
                        Some(id) => r matches Ok(pr) && pr.id == id,
                        None => r == Err::<PostResponse, ZulipApiError>(
                            ZulipApiError::ProtocolViolation,
                        ),
                    }
                },
            },
        },
{
    let (v, env) = match parse_envelope(body) {
        Ok(p) => p,
        Err(e) => {
            return Err(e);
        },
    };
    if !env.success {
        return Err(ZulipApiError::ZulipError { message: env.msg });
    }
    match get_int_field(&v, "id") {
        Some(id) => Ok(PostResponse { id }),
        None => Err(ZulipApiError::ProtocolViolation),
    }
}

/// Decodes the response to a queue registration: the queue handle,
/// with its cursor at the server's reported last event id.
pub fn decode_register_response(body: &str) -> (r: Result<Queue, ZulipApiError>)
    ensures
        match json_of(body@) {
            None => r == Err::<Queue, ZulipApiError>(ZulipApiError::ProtocolViolation),
            Some(v) => match spec_envelope(v) {
                None => r == Err::<Queue, ZulipApiError>(ZulipApiError::ProtocolViolation),
                Some(p) => if !p.0 {
                    r matches Err(ZulipApiError::ZulipError { message }) && message@ == p.1
                } else {
                    match (get_str(v, "queue_id"@), get_int(v, "last_event_id"@)) {
                        (Some(qid), Some(leid)) => r matches Ok(q) && q.id@ == qid
                            && q.last_event_id == leid,
                        _ => r == Err::<Queue, ZulipApiError>(ZulipApiError::ProtocolViolation),
                    }
                },
            },
        },
{
    let (v, env) = match parse_envelope(body) {
        Ok(p) => p,
        Err(e) => {
            return Err(e);
        },
    };
    if !env.success {
        return Err(ZulipApiError::ZulipError { message: env.msg });
    }
    let qid = crate::json::get_str_field(&v, "queue_id");
    let leid = get_int_field(&v, "last_event_id");
    match (qid, leid) {
        (Some(id), Some(last_event_id)) => Ok(Queue { id, last_event_id }),
        _ => Err(ZulipApiError::ProtocolViolation),
    }
}

/// Decodes the response to a name-to-id resolution: the stream's id.
pub fn decode_stream_id_response(body: &str) -> (r: Result<i64, ZulipApiError>)
    ensures
        match json_of(body@) {
            None => r == Err::<i64, ZulipApiError>(ZulipApiError::ProtocolViolation),
            Some(v) => match spec_envelope(v) {
                None => r == Err::<i64, ZulipApiError>(ZulipApiError::ProtocolViolation),
                Some(p) => if !p.0 {
                    r matches Err(ZulipApiError::ZulipError { message }) && message@ == p.1
                } else {
                    match get_int(v, "stream_id"@) {
                        Some(id) => r == Ok::<i64, ZulipApiError>(id),
                        None => r == Err::<i64, ZulipApiError>(ZulipApiError::ProtocolViolation),
                    }
                },
            },
        },
{
    let (v, env) = match parse_envelope(body) {
        Ok(p) => p,
        Err(e) => {
            return Err(e);
        },
    };
    if !env.success {
        return Err(ZulipApiError::ZulipError { message: env.msg });
    }
    match get_int_field(&v, "stream_id") {
        Some(id) => Ok(id),
        None => Err(ZulipApiError::ProtocolViolation),
    }
}

/// Decodes a response that carries no payload beyond the envelope:
/// muting a topic, creating a stream, deleting a stream.
pub fn decode_unit_response(body: &str) -> (r: Result<(), ZulipApiError>)
    ensures
        match json_of(body@) {
            None => r == Err::<(), ZulipApiError>(ZulipApiError::ProtocolViolation),
            Some(v) => match spec_envelope(v) {
                None => r == Err::<(), ZulipApiError>(ZulipApiError::ProtocolViolation),
                Some(p) => if !p.0 {
                    r matches Err(ZulipApiError::ZulipError { message }) && message@ == p.1
                } else {
                    r == Ok::<(), ZulipApiError>(())
                },
            },
        },
{
    let (_v, env) = match parse_envelope(body) {
        Ok(p) => p,
        Err(e) => {
            return Err(e);
        },
    };
    if !env.success {
        return Err(ZulipApiError::ZulipError { message: env.msg });
    }
    Ok(())
}

/// The typed payload of a successful history response: the decoded
/// message list — required — and the strictly read optional anchor and
/// found flags.  `None` is a protocol violation: the message list
/// missing, mistyped or undecodable, or an optional field present but
/// mistyped.
pub open spec fn spec_history_payload(v: JsonValue) -> Option<
    (Seq<MessageView>, Option<i64>, Option<bool>, Option<bool>, Option<bool>),
> {
    match get_arr(v, "messages"@) {
        Some(items) => match (
            spec_decode_message_list(items),
            opt_int(v, "anchor"@),
            opt_bool(v, "found_newest"@),
            opt_bool(v, "found_oldest"@),
            opt_bool(v, "found_anchor"@),
        ) {
            (Some(s), Some(a), Some(fnw), Some(fol), Some(fan)) => Some((s, a, fnw, fol, fan)),
            _ => None,
        },
        None => None,
    }
}

/// Decodes the response to a history query.  A success envelope must
/// carry its message list; the anchor and the found flags are optional
/// but must have their right types where present.
pub fn decode_messages_response(body: &str) -> (r: Result<MessagesResponse, ZulipApiError>)
    ensures
        match json_of(body@) {
            None => r == Err::<MessagesResponse, ZulipApiError>(ZulipApiError::ProtocolViolation),
            Some(v) => match spec_envelope(v) {
                None => r == Err::<MessagesResponse, ZulipApiError>(
                    ZulipApiError::ProtocolViolation,
                ),
                Some(p) => if !p.0 {
                    r matches Err(ZulipApiError::ZulipError { message }) && message@ == p.1
                } else {
                    match spec_history_payload(v) {
                        Some(pl) => r matches Ok(m) && message_views(m.messages@) == pl.0
                            && m.anchor == pl.1 && m.found_newest == pl.2 && m.found_oldest
                            == pl.3 && m.found_anchor == pl.4,
                        None => r == Err::<MessagesResponse, ZulipApiError>(
                            ZulipApiError::ProtocolViolation,
                        ),
                    }
                },
            },
        },
{
    let (v, env) = match parse_envelope(body) {
        Ok(p) => p,
        Err(e) => {
            return Err(e);
        },
    };
    if !env.success {
        return Err(ZulipApiError::ZulipError { message: env.msg });
    }
    let items = match get_arr_field(&v, "messages") {
        Some(items) => items,
        None => {
            return Err(ZulipApiError::ProtocolViolation);
        },
    };
    let messages = match decode_message_list(items) {
        Some(ms) => ms,
        None => {
            return Err(ZulipApiError::ProtocolViolation);
        },
    };
    let anchor = match opt_int_field(&v, "anchor") {
        Some(a) => a,
        None => {
            return Err(ZulipApiError::ProtocolViolation);
        },
    };
    let found_newest = match opt_bool_field(&v, "found_newest") {
        Some(b) => b,
        None => {
            return Err(ZulipApiError::ProtocolViolation);
        },
    };
    let found_oldest = match opt_bool_field(&v, "found_oldest") {
        Some(b) => b,
        None => {
            return Err(ZulipApiError::ProtocolViolation);
        },
    };
    let found_anchor = match opt_bool_field(&v, "found_anchor") {
        Some(b) => b,
        None => {
            return Err(ZulipApiError::ProtocolViolation);
        },
    };
    proof {
        assert(message_views(messages@) =~= spec_history_payload(v).unwrap().0);
    }
    Ok(MessagesResponse { anchor, found_newest, found_oldest, found_anchor, messages })
}

} // verus!
