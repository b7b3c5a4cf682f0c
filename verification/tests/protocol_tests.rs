use zulip_rs::errors::ZulipApiError;
use zulip_rs::narrow::Narrow;
use zulip_rs::ops::{
    decode_messages_response, decode_post_response, decode_register_response,
    decode_stream_id_response, decode_unit_response, delete_stream_request, events_request,
    messages_request, post_message_request,
};
use zulip_rs::queue::Queue;
use zulip_rs::request::{build_url, HttpMethod};

fn message_json(id: i64, content: &str) -> String {
    format!(
        "{{\"content\":\"{}\",\"content_type\":\"text/x-markdown\",\"id\":{},\
         \"sender_email\":\"ada@example.com\",\"sender_full_name\":\"Ada\",\
         \"sender_id\":7,\"stream_id\":3,\"subject\":\"general\",\"timestamp\":1500000000}}",
        content, id
    )
}

#[test]
fn register_success_yields_handle_at_reported_cursor() {
    let body = "{\"result\":\"success\",\"msg\":\"\",\"queue_id\":\"q1\",\"last_event_id\":0}";
    let queue = decode_register_response(body).expect("registration must succeed");
    assert_eq!(queue.id, "q1");
    assert_eq!(queue.last_event_id, 0);
}

#[test]
fn register_failure_surfaces_the_server_message() {
    let body = "{\"result\":\"error\",\"msg\":\"Invalid API key\"}";
    match decode_register_response(body) {
        Err(ZulipApiError::ZulipError { message }) => assert_eq!(message, "Invalid API key"),
        other => panic!("expected a server rejection, got {:?}", other),
    }
}

#[test]
fn poll_yields_one_message_and_advances_cursor() {
    let mut queue = Queue { id: "q1".to_string(), last_event_id: 0 };
    let body = format!(
        "{{\"result\":\"success\",\"msg\":\"\",\"events\":[{{\"id\":5,\"message\":{}}}]}}",
        message_json(41, "hello")
    );
    let batch = queue.apply_poll(&body).expect("poll must succeed");
    assert_eq!(batch.len(), 1);
    assert_eq!(batch[0].content, "hello");
    assert_eq!(batch[0].id, 41);
    assert_eq!(queue.last_event_id, 5);
}

#[test]
fn idle_poll_is_an_empty_batch_and_a_noop() {
    let mut queue = Queue { id: "q1".to_string(), last_event_id: 5 };
    let body = "{\"result\":\"success\",\"msg\":\"\",\"events\":[]}";
    let first = queue.apply_poll(body).expect("idle poll must succeed");
    assert!(first.is_empty());
    assert_eq!(queue.last_event_id, 5);
    let second = queue.apply_poll(body).expect("a repeated idle poll must succeed");
    assert!(second.is_empty());
    assert_eq!(queue.last_event_id, 5);
}

#[test]
fn failed_poll_still_advances_the_cursor() {
    let mut queue = Queue { id: "q1".to_string(), last_event_id: 5 };
    let body = format!(
        "{{\"result\":\"error\",\"msg\":\"Bad event queue id\",\
         \"events\":[{{\"id\":6,\"message\":{}}}]}}",
        message_json(42, "late")
    );
    match queue.apply_poll(&body) {
        Err(ZulipApiError::ZulipError { message }) => assert_eq!(message, "Bad event queue id"),
        other => panic!("expected a server rejection, got {:?}", other),
    }
    assert_eq!(queue.last_event_id, 6);
}

#[test]
fn cursor_never_regresses_below_its_floor() {
    let mut queue = Queue { id: "q1".to_string(), last_event_id: 5 };
    let body = format!(
        "{{\"result\":\"success\",\"msg\":\"\",\"events\":[{{\"id\":3,\"message\":{}}}]}}",
        message_json(40, "old")
    );
    let batch = queue.apply_poll(&body).expect("poll must succeed");
    assert_eq!(batch.len(), 1);
    assert_eq!(queue.last_event_id, 5);
}

#[test]
fn cursor_is_the_maximum_of_all_event_ids() {
    let mut queue = Queue { id: "q1".to_string(), last_event_id: 1 };
    let body = format!(
        "{{\"result\":\"success\",\"msg\":\"\",\"events\":[\
         {{\"id\":9,\"message\":{}}},{{\"id\":4,\"message\":{}}}]}}",
        message_json(50, "a"),
        message_json(51, "b")
    );
    let batch = queue.apply_poll(&body).expect("poll must succeed");
    assert_eq!(batch.len(), 2);
    assert_eq!(batch[0].content, "a");
    assert_eq!(batch[1].content, "b");
    assert_eq!(queue.last_event_id, 9);
}

#[test]
fn unparseable_poll_leaves_the_cursor_alone() {
    let mut queue = Queue { id: "q1".to_string(), last_event_id: 5 };
    match queue.apply_poll("not json at all") {
        Err(ZulipApiError::ProtocolViolation) => {}
        other => panic!("expected a protocol violation, got {:?}", other),
    }
    assert_eq!(queue.last_event_id, 5);
}

#[test]
fn malformed_event_is_a_violation_but_its_id_still_counts() {
    let mut queue = Queue { id: "q1".to_string(), last_event_id: 2 };
    let body = "{\"result\":\"success\",\"msg\":\"\",\"events\":[{\"id\":9,\"message\":{}}]}";
    match queue.apply_poll(body) {
        Err(ZulipApiError::ProtocolViolation) => {}
        other => panic!("expected a protocol violation, got {:?}", other),
    }
    assert_eq!(queue.last_event_id, 9);
}

#[test]
fn failure_envelope_wins_even_over_a_valid_payload() {
    let body = "{\"result\":\"failure\",\"msg\":\"nope\",\"id\":42}";
    match decode_post_response(body) {
        Err(ZulipApiError::ZulipError { message }) => assert_eq!(message, "nope"),
        other => panic!("expected a server rejection, got {:?}", other),
    }
}

#[test]
fn any_non_success_token_is_a_rejection() {
    let body = "{\"result\":\"partial\",\"msg\":\"odd\",\"stream_id\":12}";
    match decode_stream_id_response(body) {
        Err(ZulipApiError::ZulipError { message }) => assert_eq!(message, "odd"),
        other => panic!("expected a server rejection, got {:?}", other),
    }
}

#[test]
fn missing_envelope_is_a_protocol_violation() {
    match decode_unit_response("{\"msg\":\"no result field\"}") {
        Err(ZulipApiError::ProtocolViolation) => {}
        other => panic!("expected a protocol violation, got {:?}", other),
    }
    match decode_unit_response("{\"result\":\"success\"}") {
        Err(ZulipApiError::ProtocolViolation) => {}
        other => panic!("expected a protocol violation, got {:?}", other),
    }
}

#[test]
fn success_without_required_payload_is_a_protocol_violation() {
    let body = "{\"result\":\"success\",\"msg\":\"\"}";
    match decode_post_response(body) {
        Err(ZulipApiError::ProtocolViolation) => {}
        other => panic!("expected a protocol violation, got {:?}", other),
    }
    match decode_register_response(body) {
        Err(ZulipApiError::ProtocolViolation) => {}
        other => panic!("expected a protocol violation, got {:?}", other),
    }
}

#[test]
fn post_then_history_anchored_at_the_posted_id() {
    let posted = decode_post_response("{\"result\":\"success\",\"msg\":\"\",\"id\":77}")
        .expect("post must succeed");
    assert_eq!(posted.id, 77);

    let narrows = vec![Narrow::stream("general".to_string(), false)];
    let req = messages_request(1, 1, Some(posted.id), &narrows);
    assert_eq!(req.method, HttpMethod::Get);
    assert_eq!(req.path, "api/v1/messages");
    assert_eq!(req.query[0], ("num_before".to_string(), "1".to_string()));
    assert_eq!(req.query[1], ("num_after".to_string(), "1".to_string()));
    assert_eq!(req.query[2], ("anchor".to_string(), "77".to_string()));

    let body = format!(
        "{{\"result\":\"success\",\"msg\":\"\",\"anchor\":77,\"found_anchor\":true,\
         \"messages\":[{}]}}",
        message_json(77, "the posted message")
    );
    let history = decode_messages_response(&body).expect("history must decode");
    assert!(history.messages.iter().any(|m| m.id == posted.id));
    assert_eq!(history.anchor, Some(77));
    assert_eq!(history.found_anchor, Some(true));
}

#[test]
fn history_without_anchor_asks_for_first_unread() {
    let req = messages_request(2, 0, None, &Vec::new());
    assert_eq!(req.query[2], ("use_first_unread_anchor".to_string(), "true".to_string()));
}

#[test]
fn history_success_must_carry_its_message_list() {
    match decode_messages_response("{\"result\":\"success\",\"msg\":\"\"}") {
        Err(ZulipApiError::ProtocolViolation) => {}
        other => panic!("expected a protocol violation, got {:?}", other),
    }
}

#[test]
fn history_with_an_empty_message_list_is_empty() {
    let history = decode_messages_response("{\"result\":\"success\",\"msg\":\"\",\"messages\":[]}")
        .expect("history must decode");
    assert!(history.messages.is_empty());
    assert_eq!(history.anchor, None);
    assert_eq!(history.found_newest, None);
}

#[test]
fn history_with_a_mistyped_anchor_is_a_violation() {
    let body = "{\"result\":\"success\",\"msg\":\"\",\"messages\":[],\"anchor\":\"five\"}";
    match decode_messages_response(body) {
        Err(ZulipApiError::ProtocolViolation) => {}
        other => panic!("expected a protocol violation, got {:?}", other),
    }
}

#[test]
fn history_with_a_malformed_message_is_a_violation() {
    let body = "{\"result\":\"success\",\"msg\":\"\",\"messages\":[{\"id\":1}]}";
    match decode_messages_response(body) {
        Err(ZulipApiError::ProtocolViolation) => {}
        other => panic!("expected a protocol violation, got {:?}", other),
    }
}

#[test]
fn poll_request_carries_the_cursor_in_decimal() {
    let queue = Queue { id: "q9".to_string(), last_event_id: 560 };
    let req = events_request(&queue);
    assert_eq!(req.method, HttpMethod::Get);
    assert_eq!(req.path, "api/v1/events");
    assert_eq!(req.query[0], ("queue_id".to_string(), "q9".to_string()));
    assert_eq!(req.query[1], ("last_event_id".to_string(), "560".to_string()));
}

#[test]
fn negative_anchors_render_with_a_minus_sign() {
    let req = messages_request(0, 0, Some(-7), &Vec::new());
    assert_eq!(req.query[2], ("anchor".to_string(), "-7".to_string()));
}

#[test]
fn delete_request_puts_the_id_in_the_path() {
    let req = delete_stream_request(31);
    assert_eq!(req.method, HttpMethod::Delete);
    assert_eq!(req.path, "api/v1/streams/31");
}

#[test]
fn post_request_fields() {
    let req = post_message_request("general", "greetings", "hello there");
    assert_eq!(req.method, HttpMethod::Post);
    assert_eq!(req.path, "api/v1/messages");
    assert_eq!(req.form[0], ("type".to_string(), "stream".to_string()));
    assert_eq!(req.form[1], ("to".to_string(), "general".to_string()));
    assert_eq!(req.form[2], ("subject".to_string(), "greetings".to_string()));
    assert_eq!(req.form[3], ("content".to_string(), "hello there".to_string()));
}

#[test]
fn url_join_normalizes_to_one_slash() {
    assert_eq!(build_url("https://chat.example.com", "api/v1/events"),
        "https://chat.example.com/api/v1/events");
    assert_eq!(build_url("https://chat.example.com/", "api/v1/events"),
        "https://chat.example.com/api/v1/events");
}

#[test]
fn stream_id_resolves_on_success() {
    let id = decode_stream_id_response("{\"result\":\"success\",\"msg\":\"\",\"stream_id\":12}")
        .expect("resolution must succeed");
    assert_eq!(id, 12);
}

#[test]
fn error_descriptions_name_their_kind() {
    let rejected = ZulipApiError::ZulipError { message: "busy".to_string() };
    assert_eq!(rejected.describe(), "server rejected the request: busy");
    assert_eq!(ZulipApiError::ProtocolViolation.describe(), "response violated the protocol");
    assert_eq!(ZulipApiError::TransportFailure.describe(), "transport failure");
}
