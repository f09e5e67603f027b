use crate::json::{lemma_items_view, Json, JsonModel, Number, NumberModel};
use vstd::prelude::*;

verus! {

/// A type whose values can be read from a JSON document.
pub trait Decode: DeepView + Sized {
    /// The value that a document stands for, if it stands for one.
    spec fn decoded(doc: JsonModel) -> Option<Self::V>;

    /// Reads a value from a document.
    ///
    /// Returns `None` exactly where the document stands for no value.
    fn from_json(doc: &Json) -> (r: Option<Self>)
        ensures
            r.deep_view() == Self::decoded(doc@),
    ;
}

/// The value that must be there under `key`.
pub open spec fn required<T: Decode>(doc: JsonModel, key: Seq<char>) -> Option<T::V> {
    match doc.member(key) {
        Some(value) => T::decoded(value),
        None => None,
    }
}

/// The value that may be there under `key`: `Some(None)` where the member is
/// missing or `null`, `None` where it stands for no value.
pub open spec fn optional<T: Decode>(doc: JsonModel, key: Seq<char>) -> Option<Option<T::V>> {
    match doc.optional(key) {
        None => Some(None),
        Some(value) => match T::decoded(value) {
            Some(x) => Some(Some(x)),
            None => None,
        },
    }
}

/// The values that a list of documents stands for, if each stands for one.
pub open spec fn decoded_all<T: Decode>(items: Seq<JsonModel>) -> Option<Seq<T::V>> {
    if forall|i: int| 0 <= i < items.len() ==> (#[trigger] T::decoded(items[i])) is Some {
        Some(Seq::new(items.len(), |i: int| T::decoded(items[i]).unwrap()))
    } else {
        None
    }
}

/// The list of values that must be there under `key`, as an array.
pub open spec fn required_list<T: Decode>(doc: JsonModel, key: Seq<char>) -> Option<Seq<T::V>> {
    match doc.member(key) {
        Some(JsonModel::Array(items)) => decoded_all::<T>(items),
        _ => None,
    }
}

/// Reads the value that must be there under `key`.
pub fn read<T: Decode>(doc: &Json, key: &str) -> (r: Option<T>)
    ensures
        r.deep_view() == required::<T>(doc@, key@),
{
    match doc.get(key) {
        Some(value) => T::from_json(value),
        None => None,
    }
}

/// Reads the value that may be there under `key`.
pub fn read_optional<T: Decode>(doc: &Json, key: &str) -> (r: Option<Option<T>>)
    ensures
        r.deep_view() == optional::<T>(doc@, key@),
{
    match doc.optional(key) {
        None => Some(None),
        Some(value) => match T::from_json(value) {
            Some(x) => Some(Some(x)),
            None => None,
        },
    }
}

/// Reads the values that a list of documents stands for.
fn read_all<T: Decode>(items: &Vec<Json>) -> (r: Option<Vec<T>>)
    ensures
        r.deep_view() == decoded_all::<T>(crate::json::items_view(items@)),
{
    let ghost models = crate::json::items_view(items@);
    proof {
        lemma_items_view(items@);
    }
    let mut out: Vec<T> = Vec::new();
    let mut i: usize = 0;
    while i < items.len()
        invariant
            i <= items.len(),
            models == crate::json::items_view(items@),
            models.len() == items.len(),
            forall|k: int| 0 <= k < items.len() ==> #[trigger] models[k] == items[k]@,
            out.len() == i,
            forall|k: int| 0 <= k < i ==> (#[trigger] T::decoded(models[k])) == Some(out[k].deep_view()),
        decreases items.len() - i,
    {
        match T::from_json(&items[i]) {
            Some(x) => {
                out.push(x);
            },
            None => {
                assert(T::decoded(models[i as int]) is None);
                return None;
            },
        }
        i = i + 1;
    }
    assert(out.deep_view() =~= decoded_all::<T>(models).unwrap());
    Some(out)
}

/// Reads the list of values that must be there under `key`.
pub fn read_list<T: Decode>(doc: &Json, key: &str) -> (r: Option<Vec<T>>)
    ensures
        r.deep_view() == required_list::<T>(doc@, key@),
{
    match doc.get(key) {
        Some(Json::Array(items)) => read_all::<T>(items),
        _ => None,
    }
}

impl<T: Decode> Decode for Vec<T> {
    /// The list that a document stands for: an array in which every item
    /// stands for a value.
    open spec fn decoded(doc: JsonModel) -> Option<Seq<T::V>> {
        match doc {
            JsonModel::Array(items) => decoded_all::<T>(items),
            _ => None,
        }
    }

    fn from_json(doc: &Json) -> (r: Option<Vec<T>>) {
        match doc {
            Json::Array(items) => read_all::<T>(items),
            _ => None,
        }
    }
}

impl Decode for String {
    /// The text that a document stands for: a string.
    open spec fn decoded(doc: JsonModel) -> Option<Seq<char>> {
        doc.as_text()
    }

    fn from_json(doc: &Json) -> (r: Option<String>) {
        match doc.as_str() {
            Some(text) => Some(text.to_owned()),
            None => None,
        }
    }
}

impl Decode for u64 {
    /// The number that a document stands for: an integer from zero to
    /// `u64::MAX`.
    open spec fn decoded(doc: JsonModel) -> Option<u64> {
        doc.as_u64()
    }

    fn from_json(doc: &Json) -> (r: Option<u64>) {
        doc.as_u64()
    }
}

impl Decode for usize {
    /// The index that a document stands for: an integer from zero to
    /// `usize::MAX`.
    open spec fn decoded(doc: JsonModel) -> Option<usize> {
        doc.as_usize()
    }

    fn from_json(doc: &Json) -> (r: Option<usize>) {
        doc.as_usize()
    }
}

impl Decode for bool {
    /// The truth value that a document stands for: `true` or `false`.
    open spec fn decoded(doc: JsonModel) -> Option<bool> {
        doc.as_bool()
    }

    fn from_json(doc: &Json) -> (r: Option<bool>) {
        doc.as_bool()
    }
}

impl Decode for Number {
    /// The number that a document stands for: any JSON number.
    open spec fn decoded(doc: JsonModel) -> Option<NumberModel> {
        doc.as_number()
    }

    fn from_json(doc: &Json) -> (r: Option<Number>) {
        match doc {
            Json::Number(n) => Some(n.copy()),
            _ => None,
        }
    }
}

impl Decode for Json {
    /// Every document stands for itself.
    open spec fn decoded(doc: JsonModel) -> Option<JsonModel> {
        Some(doc)
    }

    fn from_json(doc: &Json) -> (r: Option<Json>) {
        Some(doc.copy())
    }
}

} // verus!
