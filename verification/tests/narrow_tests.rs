use zulip_rs::narrow::{HasWords, IsWords, Narrow};
use zulip_rs::ops::{create_stream_request, mute_request, register_request};

fn round_trips(n: Narrow) {
    let encoded = n.encode();
    let decoded = Narrow::decode(&encoded).expect("a freshly encoded filter must decode");
    assert_eq!(decoded, n);
}

#[test]
fn sender_round_trip() {
    round_trips(Narrow::sender("ada@example.com".to_string(), false));
    round_trips(Narrow::sender("ada@example.com".to_string(), true));
}

#[test]
fn stream_round_trip() {
    round_trips(Narrow::stream("general".to_string(), false));
    round_trips(Narrow::stream("general".to_string(), true));
}

#[test]
fn search_round_trip() {
    round_trips(Narrow::search("release notes".to_string(), false));
}

#[test]
fn pm_with_round_trip() {
    round_trips(Narrow::pm_with(vec!["a@x.org".to_string(), "b@x.org".to_string()], false));
}

#[test]
fn near_round_trip() {
    round_trips(Narrow::near("12345".to_string()));
}

#[test]
fn id_round_trip() {
    round_trips(Narrow::id("77".to_string(), true));
}

#[test]
fn public_streams_round_trip() {
    round_trips(Narrow::public_streams(false));
}

#[test]
fn is_round_trip() {
    round_trips(Narrow::is(IsWords::ALERTED, false));
    round_trips(Narrow::is(IsWords::MENTIONED, false));
    round_trips(Narrow::is(IsWords::STARRED, true));
    round_trips(Narrow::is(IsWords::UNREAD, false));
    round_trips(Narrow::is(IsWords::PRIVATE, false));
}

#[test]
fn has_round_trip() {
    round_trips(Narrow::has(HasWords::LINK, false));
    round_trips(Narrow::has(HasWords::IMAGE, true));
    round_trips(Narrow::has(HasWords::ATTACHMENT, false));
}

#[test]
fn group_pm_with_round_trip() {
    round_trips(Narrow::group_pm_with(vec!["a@x.org".to_string(), "b@x.org".to_string()], true));
}

#[test]
fn pm_with_joins_operands_with_commas() {
    let n = Narrow::pm_with(vec!["a@x.org".to_string(), "b@x.org".to_string()], false);
    let v = n.encode();
    let text = zulip_rs::json::get_str_field(&v, "operand").expect("operand must be present");
    assert_eq!(text, "a@x.org,b@x.org");
}

#[test]
fn narrow_wire_text_is_the_filter_object() {
    let req = register_request(false, &vec![Narrow::stream("x".to_string(), false)]);
    let (key, value) = &req.form[2];
    assert_eq!(key, "narrow");
    assert_eq!(value, "[{\"negated\":false,\"operand\":\"x\",\"operator\":\"stream\"}]");
}

#[test]
fn empty_narrow_list_is_an_empty_array() {
    let req = register_request(true, &Vec::new());
    assert_eq!(req.form[0], ("event_types".to_string(), "[\"message\"]".to_string()));
    assert_eq!(req.form[1], ("all_public_streams".to_string(), "true".to_string()));
    assert_eq!(req.form[2], ("narrow".to_string(), "[]".to_string()));
}

#[test]
fn mute_sends_the_add_operation() {
    let req = mute_request("general", "noise");
    assert_eq!(req.form[0], ("stream".to_string(), "general".to_string()));
    assert_eq!(req.form[1], ("topic".to_string(), "noise".to_string()));
    assert_eq!(req.form[2], ("op".to_string(), "add".to_string()));
}

#[test]
fn create_stream_encodes_one_subscription() {
    let req = create_stream_request("announcements", true);
    assert_eq!(req.form[0].0, "subscriptions");
    assert_eq!(req.form[0].1, "[{\"description\":\"\",\"name\":\"announcements\"}]");
    assert_eq!(req.form[1], ("announce".to_string(), "true".to_string()));
}
