//! Narrow filters: immutable predicates restricting which messages a
//! query or an event queue matches.
//!
//! A filter travels on the wire as the object `{operator, operand, negated}`.
//! [`Narrow::encode`] produces that object and guarantees that decoding it
//! yields the same triple back; [`Narrow::decode`] is the inverse reading.

use vstd::prelude::*;
use vstd::string::*;
use crate::json::{obj_get, get_bool, get_str, get_str_field, get_bool_field, json_text_of, to_json_text, JsonValue};

verus! {

/// A message filter: one operator, its operand, and a negation flag.
#[derive(Debug, Clone, PartialEq, Eq)]
pub struct Narrow {
    operator: String,
    operand: String,
    negated: bool,
}

/// The mathematical content of a [`Narrow`].
pub struct NarrowView {
    pub operator: Seq<char>,
    pub operand: Seq<char>,
    pub negated: bool,
}

impl View for Narrow {
    type V = NarrowView;

    closed spec fn view(&self) -> NarrowView {
        NarrowView { operator: self.operator@, operand: self.operand@, negated: self.negated }
    }
}

/// The closed vocabulary of the `is` operator.
#[derive(Debug, Clone, Copy, PartialEq, Eq)]
#[allow(non_camel_case_types)]
pub enum IsWords {
    ALERTED,
    MENTIONED,
    STARRED,
    UNREAD,
    PRIVATE,
}

/// The closed vocabulary of the `has` operator.
#[derive(Debug, Clone, Copy, PartialEq, Eq)]
#[allow(non_camel_case_types)]
pub enum HasWords {
    LINK,
    IMAGE,
    ATTACHMENT,
}

/// The fixed lowercase wire token of an `is` word.
pub open spec fn is_token(w: IsWords) -> Seq<char> {
    match w {
        IsWords::ALERTED => "alerted"@,
        IsWords::MENTIONED => "mentioned"@,
        IsWords::STARRED => "starred"@,
        IsWords::UNREAD => "unread"@,
        IsWords::PRIVATE => "private"@,
    }
}

/// The fixed lowercase wire token of a `has` word.
pub open spec fn has_token(w: HasWords) -> Seq<char> {
    match w {
        HasWords::LINK => "link"@,
        HasWords::IMAGE => "image"@,
        HasWords::ATTACHMENT => "attachment"@,
    }
}

/// Participant identifiers joined with a comma separator.
pub open spec fn join_comma(parts: Seq<Seq<char>>) -> Seq<char>
    decreases parts.len(),
{
    if parts.len() == 0 {
        Seq::empty()
    } else if parts.len() == 1 {
        parts[0]
    } else {
        join_comma(parts.drop_last()) + ","@ + parts.last()
    }
}

proof fn lemma_join_comma_step(parts: Seq<Seq<char>>, i: int)
    requires
        0 <= i < parts.len(),
    ensures
        join_comma(parts.take(i + 1)) == if i == 0 {
            parts[0]
        } else {
            join_comma(parts.take(i)) + ","@ + parts[i]
        },
{
    assert(parts.take(i + 1).drop_last() =~= parts.take(i));
    assert(parts.take(i + 1).last() == parts[i]);
    if i == 0 {
        assert(parts.take(1)[0] == parts[0]);
    }
}

fn join_comma_exec(parts: &Vec<String>) -> (r: String)
    ensures
        r@ == join_comma(parts.deep_view()),
{
    let n = parts.len();
    let mut r = String::new();
    let mut i: usize = 0;
    while i < n
        invariant
            i <= n,
            n == parts@.len(),
            parts.deep_view().len() == n,
            forall|j: int| 0 <= j < n ==> parts.deep_view()[j] == parts@[j]@,
            r@ == join_comma(parts.deep_view().take(i as int)),
        decreases n - i,
    {
        if i > 0 {
            r.append(",");
        }
        r.append(parts[i].as_str());
        proof {
            lemma_join_comma_step(parts.deep_view(), i as int);
        }
        i += 1;
    }
    proof {
        assert(parts.deep_view().take(n as int) =~= parts.deep_view());
    }
    r
}

/// The triple a wire object decodes to: its `operator` and `operand`
/// strings and its `negated` flag, when all three are present.
pub open spec fn spec_decode_narrow(v: JsonValue) -> Option<NarrowView> {
    match (get_str(v, "operator"@), get_str(v, "operand"@), get_bool(v, "negated"@)) {
        (Some(op), Some(od), Some(neg)) => Some(
            NarrowView { operator: op, operand: od, negated: neg },
        ),
        _ => None,
    }
}

impl Narrow {
    /// A filter for messages from one sender.
    pub fn sender(user: String, negated: bool) -> (r: Narrow)
        ensures
            r@ == (NarrowView { operator: "sender"@, operand: user@, negated }),
    {
        Narrow { operator: "sender".to_owned(), operand: user, negated }
    }

    /// A filter for messages in one stream.
    pub fn stream(stream: String, negated: bool) -> (r: Narrow)
        ensures
            r@ == (NarrowView { operator: "stream"@, operand: stream@, negated }),
    {
        Narrow { operator: "stream".to_owned(), operand: stream, negated }
    }

    /// A filter for messages matching a search keyword.
    pub fn search(keyword: String, negated: bool) -> (r: Narrow)
        ensures
            r@ == (NarrowView { operator: "search"@, operand: keyword@, negated }),
    {
        Narrow { operator: "search".to_owned(), operand: keyword, negated }
    }

    /// A filter for direct messages with the given participants.
    pub fn pm_with(users: Vec<String>, negated: bool) -> (r: Narrow)
        ensures
            r@ == (NarrowView {
                operator: "pm-with"@,
                operand: join_comma(users.deep_view()),
                negated,
            }),
    {
        Narrow { operator: "pm-with".to_owned(), operand: join_comma_exec(&users), negated }
    }

    /// A filter for messages near the given message id.
    pub fn near(id: String) -> (r: Narrow)
        ensures
            r@ == (NarrowView { operator: "near"@, operand: id@, negated: false }),
    {
        Narrow { operator: "near".to_owned(), operand: id, negated: false }
    }

    /// A filter for the message with the given id.
    pub fn id(id: String, negated: bool) -> (r: Narrow)
        ensures
            r@ == (NarrowView { operator: "id"@, operand: id@, negated }),
    {
        Narrow { operator: "id".to_owned(), operand: id, negated }
    }

    /// A filter for messages in public streams.
    pub fn public_streams(negated: bool) -> (r: Narrow)
        ensures
            r@ == (NarrowView { operator: "streams"@, operand: "public"@, negated }),
    {
        Narrow { operator: "streams".to_owned(), operand: "public".to_owned(), negated }
    }

    /// A filter for messages in one of the `is` states.
    pub fn is(word: IsWords, negated: bool) -> (r: Narrow)
        ensures
            r@ == (NarrowView { operator: "is"@, operand: is_token(word), negated }),
    {
        let operand = match word {
            IsWords::ALERTED => "alerted".to_owned(),
            IsWords::MENTIONED => "mentioned".to_owned(),
            IsWords::STARRED => "starred".to_owned(),
            IsWords::UNREAD => "unread".to_owned(),
            IsWords::PRIVATE => "private".to_owned(),
        };
        Narrow { operator: "is".to_owned(), operand, negated }
    }

    /// A filter for messages carrying one of the `has` attachments.
    pub fn has(word: HasWords, negated: bool) -> (r: Narrow)
        ensures
            r@ == (NarrowView { operator: "has"@, operand: has_token(word), negated }),
    {
        let operand = match word {
            HasWords::ATTACHMENT => "attachment".to_owned(),
            HasWords::LINK => "link".to_owned(),
            HasWords::IMAGE => "image".to_owned(),
        };
        Narrow { operator: "has".to_owned(), operand, negated }
    }

    /// A filter for group direct messages with the given participants.
    pub fn group_pm_with(users: Vec<String>, negated: bool) -> (r: Narrow)
        ensures
            r@ == (NarrowView {
                operator: "group-pm-with"@,
                operand: join_comma(users.deep_view()),
                negated,
            }),
    {
        Narrow { operator: "group-pm-with".to_owned(), operand: join_comma_exec(&users), negated }
    }

    /// The wire object `{operator, operand, negated}` of this filter.
    /// Decoding the result yields this filter's triple back.
    pub fn encode(&self) -> (r: JsonValue)
        ensures
            spec_decode_narrow(r) == Some(self@),
            narrow_obj_exact(r, self@),
    {
        let mut fields: Vec<(String, JsonValue)> = Vec::new();
        fields.push(("operator".to_owned(), JsonValue::Str(self.operator.clone())));
        fields.push(("operand".to_owned(), JsonValue::Str(self.operand.clone())));
        fields.push(("negated".to_owned(), JsonValue::Bool(self.negated)));
        let r = JsonValue::Object(fields);
        proof {
            reveal_strlit("operator");
            reveal_strlit("operand");
            reveal_strlit("negated");
            reveal_with_fuel(obj_get, 4);
            assert("operator"@.len() == 8);
            assert("operand"@.len() == 7);
            assert("negated"@.len() == 7);
            assert("operand"@[0] == 'o');
            assert("negated"@[0] == 'n');
            assert("operator"@ != "operand"@);
            assert("operator"@ != "negated"@);
            assert("operand"@ != "negated"@);
        }
        r
    }

    /// Reads a filter back out of a wire object, if the three fields
    /// are present with their right types.
    pub fn decode(v: &JsonValue) -> (r: Option<Narrow>)
        ensures
            match r {
                Some(n) => spec_decode_narrow(*v) == Some(n@),
                None => spec_decode_narrow(*v) is None,
            },
    {
        let op = get_str_field(v, "operator");
        let od = get_str_field(v, "operand");
        let neg = get_bool_field(v, "negated");
        match (op, od, neg) {
            (Some(operator), Some(operand), Some(negated)) => Some(
                Narrow { operator, operand, negated },
            ),
            _ => None,
        }
    }
}

/// Whether `item` is exactly the wire object a filter encodes to:
/// the three fields, in this order, holding the filter's triple.
pub open spec fn narrow_obj_exact(item: JsonValue, n: NarrowView) -> bool {
    &&& item matches JsonValue::Object(fs)
    &&& fs@.len() == 3
    &&& fs@[0].0@ == "operator"@
    &&& (fs@[0].1 matches JsonValue::Str(s) && s@ == n.operator)
    &&& fs@[1].0@ == "operand"@
    &&& (fs@[1].1 matches JsonValue::Str(s) && s@ == n.operand)
    &&& fs@[2].0@ == "negated"@
    &&& fs@[2].1 == JsonValue::Bool(n.negated)
}

/// Whether `t` is an array holding, in order, exactly the wire object
/// of each filter triple in `ns` — each of which decodes back to its
/// triple.
pub open spec fn narrows_encoding(t: JsonValue, ns: Seq<NarrowView>) -> bool {
    &&& t matches JsonValue::Array(items)
    &&& items@.len() == ns.len()
    &&& forall|i: int| 0 <= i < ns.len() ==> spec_decode_narrow(items@[i]) == Some(ns[i])
    &&& forall|i: int| 0 <= i < ns.len() ==> #[trigger] narrow_obj_exact(items@[i], ns[i])
}

/// The `narrow` request parameter: a JSON array of filter objects.
pub fn narrows_wire(narrows: &Vec<Narrow>) -> (r: String)
    ensures
        exists|t: JsonValue|
            narrows_encoding(t, narrows@.map_values(|n: Narrow| n@)) && r@ == #[trigger] json_text_of(t),
{
    let n = narrows.len();
    let mut items: Vec<JsonValue> = Vec::new();
    let mut i: usize = 0;
    while i < n
        invariant
            i <= n,
            n == narrows@.len(),
            items@.len() == i,
            forall|j: int| 0 <= j < i ==> spec_decode_narrow(items@[j]) == Some(narrows@[j]@),
            forall|j: int| 0 <= j < i ==> #[trigger] narrow_obj_exact(items@[j], narrows@[j]@),
        decreases n - i,
    {
        items.push(narrows[i].encode());
        i += 1;
    }
    let t = JsonValue::Array(items);
    let r = to_json_text(&t);
    proof {
        assert(narrows_encoding(t, narrows@.map_values(|n: Narrow| n@)));
        assert(r@ == json_text_of(t));
    }
    r
}

} // verus!
