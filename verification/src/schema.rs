//! What the payload shapes have in common.

use vstd::prelude::*;
use crate::json::{Json, JsonValue};

verus! {

/// A payload shape: a record type together with the rule that says which JSON
/// documents describe such a record.
///
/// A document that does not describe one is no error: it is the ordinary answer
/// when another shape is being probed.
pub trait Schema: DeepView + Sized {
    /// The record that a document describes, if it describes one: all required
    /// members are there and every member that is read has the right type.
    /// Members that the shape does not name are passed over.
    spec fn matching(json: JsonValue) -> Option<Self::V>;

    /// Reads the record out of a document.
    fn from_json(json: &Json) -> (r: Option<Self>)
        ensures
            r.deep_view() == Self::matching(json@),
    ;
}

/// The records that the items of an array describe, if each item describes one.
pub open spec fn matching_all<T: Schema>(items: Seq<JsonValue>) -> Option<Seq<T::V>> {
    if forall|i: int| 0 <= i < items.len() ==> (#[trigger] T::matching(items[i])) is Some {
        Some(Seq::new(items.len(), |i: int| T::matching(items[i])->Some_0))
    } else {
        None
    }
}

/// The record that a required member describes.
pub open spec fn matching_at<T: Schema>(json: JsonValue, name: Seq<char>) -> Option<T::V> {
    match json.member(name) {
        Some(v) => T::matching(v),
        None => None,
    }
}

/// The records that a required member holds as an array.
pub open spec fn matching_all_at<T: Schema>(json: JsonValue, name: Seq<char>) -> Option<Seq<T::V>> {
    match json.member(name) {
        Some(JsonValue::Array(items)) => matching_all::<T>(items),
        _ => None,
    }
}

/// Reads the record that a required member describes.
pub fn record_at<T: Schema>(json: &Json, name: &str) -> (r: Option<T>)
    ensures
        r.deep_view() == matching_at::<T>(json@, name@),
{
    match json.member(name) {
        Some(v) => T::from_json(v),
        None => None,
    }
}

/// Reads the records that a required member holds as an array. One item that
/// describes no record makes the whole member a mismatch.
pub fn records_at<T: Schema>(json: &Json, name: &str) -> (r: Option<Vec<T>>)
    ensures
        r.deep_view() == matching_all_at::<T>(json@, name@),
{
    let items = match json.member(name) {
        Some(v) => match v.as_array() {
            Some(items) => items,
            None => { return None; },
        },
        None => { return None; },
    };
    let ghost models = items.deep_view();
    let mut out: Vec<T> = Vec::new();
    let mut k: usize = 0;
    while k < items.len()
        invariant
            k <= items.len(),
            out.len() == k,
            models.len() == items@.len(),
            forall|i: int| 0 <= i < items@.len() ==> models[i] == (#[trigger] items@[i])@,
            json@.member(name@) == Some(JsonValue::Array(models)),
            forall|i: int| 0 <= i < k ==> T::matching(models[i]) == Some((#[trigger] out@[i]).deep_view()),
        decreases items.len() - k,
    {
        match T::from_json(&items[k]) {
            Some(record) => {
                out.push(record);
            },
            None => {
                return None;
            },
        }
        k += 1;
    }
    proof {
        assert forall|i: int| 0 <= i < models.len() implies (#[trigger] T::matching(models[i]))
            == Some(out.deep_view()[i]) by {
            assert(T::matching(models[i]) == Some(out@[i].deep_view()));
        }
        assert(out.deep_view() =~= matching_all::<T>(models)->Some_0);
    }
    Some(out)
}

} // verus!
