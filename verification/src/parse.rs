//! From JSON text to a [`Json`] document.
//!
//! The text is parsed by `serde_json`; its tree is then copied, node by node,
//! into a [`Json`]. Only the parser call and the look at one node of its tree
//! are taken on trust.

use vstd::prelude::*;
use crate::json::{Json, JsonNumber, JsonValue, members_model};

verus! {

/// `serde_json::Value`, the tree that the parser builds. Nothing is known of
/// what is inside a value but through [`value_model`].
#[verifier::external_type_specification]
#[verifier::external_body]
pub struct ExValue(serde_json::Value);

/// The document that a `serde_json::Value` holds.
pub uninterp spec fn value_model(value: serde_json::Value) -> JsonValue;

/// The document that `serde_json::from_str` reads from a text, `None` where it
/// rejects the text.
pub uninterp spec fn parsed_json(text: Seq<char>) -> Option<JsonValue>;

/// One node of a `serde_json::Value`, with its children not yet looked at.
enum Node<'a> {
    Null,
    Bool(bool),
    /// What `Number::as_u64` and `Number::as_i64` say of the number.
    Number(Option<u64>, Option<i64>),
    Text(&'a String),
    Array(&'a Vec<serde_json::Value>),
    Object(Vec<(&'a String, &'a serde_json::Value)>),
}

/// The number that the two integer readings of a number stand for.
spec fn number_model(unsigned: Option<u64>, signed: Option<i64>) -> JsonNumber {
    match (unsigned, signed) {
        (Some(u), _) => JsonNumber::PosInt(u),
        (None, Some(i)) => JsonNumber::NegInt(i),
        (None, None) => JsonNumber::Float,
    }
}

/// The map that the first `n` entries of an object node stand for.
spec fn entries_model(
    entries: Seq<(&String, &serde_json::Value)>,
    n: nat,
) -> Map<Seq<char>, JsonValue>
    decreases n,
{
    if n == 0 || n > entries.len() {
        Map::empty()
    } else {
        entries_model(entries, (n - 1) as nat).insert(
            entries[n - 1].0@,
            value_model(*entries[n - 1].1),
        )
    }
}

impl<'a> Node<'a> {
    /// No two entries of an object node have the same name.
    spec fn distinct_names(self) -> bool {
        self matches Node::Object(entries) ==> forall|i: int, j: int|
            0 <= i < j < entries@.len() ==> (#[trigger] entries@[i]).0@ != (#[trigger] entries@[j]).0@
    }

    /// The document that the node stands for, its children taken by
    /// [`value_model`].
    spec fn model(self) -> JsonValue {
        match self {
            Node::Null => JsonValue::Null,
            Node::Bool(b) => JsonValue::Bool(b),
            Node::Number(unsigned, signed) => JsonValue::Number(number_model(unsigned, signed)),
            Node::Text(s) => JsonValue::Text(s@),
            Node::Array(items) => JsonValue::Array(
                Seq::new(items@.len(), |i: int| value_model(items@[i])),
            ),
            Node::Object(entries) => JsonValue::Object(entries_model(entries@, entries@.len())),
        }
    }
}

/// `serde_json::from_str` at the type `serde_json::Value`. The call returns a
/// value exactly on the texts that it accepts, and what the value holds depends
/// on the text alone.
#[verifier::external_body]
fn parse_value(text: &str) -> (r: Option<serde_json::Value>)
    ensures
        match r {
            Some(value) => parsed_json(text@) == Some(value_model(value)),
            None => parsed_json(text@) is None,
        },
{
    serde_json::from_str::<serde_json::Value>(text).ok()
}

/// The top node of a `serde_json::Value`: one arm for each variant of the enum,
/// a number read by `Number::as_u64` and `Number::as_i64`, the entries of an
/// object as `Map::iter` yields them. A `serde_json::Map` holds each name once.
#[verifier::external_body]
fn top_node(value: &serde_json::Value) -> (node: Node<'_>)
    ensures
        node.model() == value_model(*value),
        node.distinct_names(),
{
    match value {
        serde_json::Value::Null => Node::Null,
        serde_json::Value::Bool(b) => Node::Bool(*b),
        serde_json::Value::Number(n) => Node::Number(n.as_u64(), n.as_i64()),
        serde_json::Value::String(s) => Node::Text(s),
        serde_json::Value::Array(items) => Node::Array(items),
        serde_json::Value::Object(map) => Node::Object(map.iter().collect()),
    }
}

/// The number of a node, from its two integer readings.
fn number_of(unsigned: Option<u64>, signed: Option<i64>) -> (n: JsonNumber)
    ensures
        n == number_model(unsigned, signed),
{
    match unsigned {
        Some(u) => JsonNumber::PosInt(u),
        None => match signed {
            Some(i) => JsonNumber::NegInt(i),
            None => JsonNumber::Float,
        },
    }
}

/// Copies the tree of a parsed value into a [`Json`].
///
/// The copy goes as deep as the tree, and the parser builds no tree deeper
/// than its nesting limit.
fn json_of_value(value: &serde_json::Value) -> (json: Json)
    ensures
        json@ == value_model(*value),
    decreases value_model(*value),
{
    match top_node(value) {
        Node::Null => Json::Null,
        Node::Bool(b) => Json::Bool(b),
        Node::Number(unsigned, signed) => Json::Number(number_of(unsigned, signed)),
        Node::Text(s) => Json::Text(s.clone()),
        Node::Array(items) => {
            let ghost children = Seq::new(items@.len(), |i: int| value_model(items@[i]));
            let mut out: Vec<Json> = Vec::new();
            let mut k: usize = 0;
            while k < items.len()
                invariant
                    k <= items.len(),
                    out.len() == k,
                    children == Seq::new(items@.len(), |i: int| value_model(items@[i])),
                    value_model(*value) == JsonValue::Array(children),
                    forall|i: int| 0 <= i < k ==> (#[trigger] out@[i])@ == value_model(items@[i]),
                decreases items.len() - k,
            {
                proof {
                    // the child is an item of the array that the value holds
                    assert(decreases_to!(value_model(*value) => value_model(*value)->Array_0));
                    assert(decreases_to!(children => children[k as int]));
                }
                let child = json_of_value(&items[k]);
                out.push(child);
                k += 1;
            }
            let json = Json::Array(out);
            assert(json@->Array_0 =~= children);
            json
        },
        Node::Object(entries) => {
            let mut out: Vec<(String, Json)> = Vec::new();
            let mut k: usize = 0;
            while k < entries.len()
                invariant
                    k <= entries.len(),
                    out.len() == k,
                    value_model(*value) == JsonValue::Object(entries_model(entries@, entries@.len())),
                    forall|i: int, j: int|
                        0 <= i < j < entries@.len() ==> (#[trigger] entries@[i]).0@ != (
                        #[trigger] entries@[j]).0@,
                    members_model(out@, k as nat) == entries_model(entries@, k as nat),
                decreases entries.len() - k,
            {
                let entry = &entries[k];
                proof {
                    // the child is a member of the object that the value holds
                    assert(decreases_to!(value_model(*value) => value_model(*value)->Object_0));
                    lemma_entry_decreases(entries@, entries@.len(), k as int);
                }
                let child = json_of_value(entry.1);
                let ghost before = out@;
                out.push((entry.0.clone(), child));
                proof {
                    lemma_members_model_prefix(before, out@, k as nat);
                }
                k += 1;
            }
            Json::Object(out)
        },
    }
}

/// A longer member list stands for the same map on a prefix that it shares.
proof fn lemma_members_model_prefix(a: Seq<(String, Json)>, b: Seq<(String, Json)>, n: nat)
    requires
        n <= a.len() <= b.len(),
        forall|i: int| 0 <= i < n ==> a[i] == b[i],
    ensures
        members_model(a, n) == members_model(b, n),
    decreases n,
{
    if n > 0 {
        lemma_members_model_prefix(a, b, (n - 1) as nat);
    }
}

/// The document of an entry is among the values of the map that the entries
/// stand for, and so is smaller than the map.
proof fn lemma_entry_decreases(entries: Seq<(&String, &serde_json::Value)>, n: nat, k: int)
    requires
        0 <= k < n <= entries.len(),
        forall|i: int, j: int|
            0 <= i < j < entries.len() ==> (#[trigger] entries[i]).0@ != (#[trigger] entries[j]).0@,
    ensures
        decreases_to!(entries_model(entries, n) => value_model(*entries[k].1)),
{
    let m = entries_model(entries, n);
    lemma_entries_model_finite(entries, n);
    lemma_entry_in_model(entries, n, k);
    assert(decreases_to!(m => m[entries[k].0@]));
}

/// Where names are distinct, each entry is a member of the map.
proof fn lemma_entry_in_model(entries: Seq<(&String, &serde_json::Value)>, n: nat, k: int)
    requires
        0 <= k < n <= entries.len(),
        forall|i: int, j: int|
            0 <= i < j < entries.len() ==> (#[trigger] entries[i]).0@ != (#[trigger] entries[j]).0@,
    ensures
        entries_model(entries, n).dom().contains(entries[k].0@),
        entries_model(entries, n)[entries[k].0@] == value_model(*entries[k].1),
    decreases n,
{
    if k < n - 1 {
        lemma_entry_in_model(entries, (n - 1) as nat, k);
        assert(entries[k].0@ != entries[n - 1].0@);
    }
}

/// The entries stand for a finite map.
proof fn lemma_entries_model_finite(entries: Seq<(&String, &serde_json::Value)>, n: nat)
    ensures
        entries_model(entries, n).dom().finite(),
    decreases n,
{
    if n > 0 && n <= entries.len() {
        lemma_entries_model_finite(entries, (n - 1) as nat);
    }
}

/// Parses a text as JSON.
///
/// Returns the document that the text holds, `None` where the text is not
/// JSON.
pub fn parse_json(text: &str) -> (r: Option<Json>)
    ensures
        match r {
            Some(json) => parsed_json(text@) == Some(json@),
            None => parsed_json(text@) is None,
        },
{
    match parse_value(text) {
        Some(value) => Some(json_of_value(&value)),
        None => None,
    }
}

} // verus!
