//! How values are written as JSON documents and read back.
//!
//! Each type that travels over the wire states, over its mathematical
//! value, the document that stands for it and the value that a document
//! stands for, and proves that reading undoes writing.

use vstd::prelude::*;
use crate::json::{
    entry, json_document, json_text, lemma_member_at, parse, record, render, Json, JsonView,
};

verus! {

/// A type with a JSON form.
pub trait Wire: DeepView + Sized {
    /// The document that stands for a value.
    spec fn encoded(value: Self::V) -> JsonView;

    /// The value that a document stands for; `None` where the document has
    /// not the shape of one.
    spec fn decoded(doc: JsonView) -> Option<Self::V>;

    /// Reading what was written gives the value back.
    proof fn round_trip(value: Self::V)
        ensures
            Self::decoded(Self::encoded(value)) == Some(value),
    ;

    /// Writes a value as a document.
    fn to_json(&self) -> (doc: Json)
        ensures
            doc.deep_view() == Self::encoded(self.deep_view()),
    ;

    /// Reads a value from a document.
    fn from_json(doc: &Json) -> (r: Option<Self>)
        ensures
            r.deep_view() == Self::decoded(doc.deep_view()),
    ;
}

/// The documents that stand for the values of a sequence, in order.
pub open spec fn encoded_items<T: Wire>(values: Seq<T::V>) -> Seq<JsonView> {
    Seq::new(values.len(), |i: int| T::encoded(values[i]))
}

/// The array that stands for a sequence of values.
pub open spec fn encoded_list<T: Wire>(values: Seq<T::V>) -> JsonView {
    JsonView::List(encoded_items::<T>(values))
}

/// The array that stands for a sequence of values, or `null` for none.
pub open spec fn encoded_optional_list<T: Wire>(values: Option<Seq<T::V>>) -> JsonView {
    match values {
        Some(vs) => encoded_list::<T>(vs),
        None => JsonView::Null,
    }
}

/// The values that the documents of a sequence stand for, if each stands
/// for one.
pub open spec fn decoded_items<T: Wire>(docs: Seq<JsonView>) -> Option<Seq<T::V>> {
    if forall|i: int| 0 <= i < docs.len() ==> (#[trigger] T::decoded(docs[i])) is Some {
        Some(Seq::new(docs.len(), |i: int| T::decoded(docs[i])->0))
    } else {
        None
    }
}

/// The values that an array stands for, if it is an array and each item
/// stands for a value.
pub open spec fn decoded_list<T: Wire>(doc: JsonView) -> Option<Seq<T::V>> {
    match doc {
        JsonView::List(docs) => decoded_items::<T>(docs),
        _ => None,
    }
}

/// Reading an array of written values gives the values back.
pub proof fn lemma_list_round_trip<T: Wire>(values: Seq<T::V>)
    ensures
        decoded_list::<T>(encoded_list::<T>(values)) == Some(values),
{
    let docs = encoded_items::<T>(values);
    assert forall|i: int| 0 <= i < docs.len() implies (#[trigger] T::decoded(docs[i])) == Some(
        values[i],
    ) by {
        T::round_trip(values[i]);
    }
    assert(decoded_items::<T>(docs)->0 =~= values);
}

/// Writes a slice of values as an array.
pub fn list_to_json<T: Wire>(values: &[T]) -> (doc: Json)
    ensures
        doc.deep_view() == encoded_list::<T>(values.deep_view()),
{
    let mut docs: Vec<Json> = Vec::new();
    let mut i: usize = 0;
    while i < values.len()
        invariant
            i <= values.len(),
            docs.len() == i,
            forall|k: int| 0 <= k < i ==> (#[trigger] docs@[k]).deep_view() == T::encoded(
                values@[k].deep_view(),
            ),
        decreases values.len() - i,
    {
        docs.push(values[i].to_json());
        i = i + 1;
    }
    let doc = Json::List(docs);
    assert(doc.deep_view()->List_0 =~= encoded_items::<T>(values.deep_view()));
    doc
}

/// Writes a list of values as an array, or `null` for no list.
pub fn optional_list_to_json<T: Wire>(values: &Option<Vec<T>>) -> (doc: Json)
    ensures
        doc.deep_view() == encoded_optional_list::<T>(values.deep_view()),
{
    match values {
        Some(vs) => {
            let slice = vs.as_slice();
            assert(slice.deep_view() =~= vs.deep_view());
            list_to_json(slice)
        },
        None => Json::Null,
    }
}

/// Reads the values of an array.
pub fn list_from_json<T: Wire>(doc: &Json) -> (r: Option<Vec<T>>)
    ensures
        r.deep_view() == decoded_list::<T>(doc.deep_view()),
{
    match doc.items() {
        None => None,
        Some(docs) => {
            let ghost views = doc.deep_view()->List_0;
            let mut out: Vec<T> = Vec::new();
            let mut i: usize = 0;
            while i < docs.len()
                invariant
                    i <= docs.len(),
                    out.len() == i,
                    views == docs.deep_view(),
                    doc.deep_view() == JsonView::List(views),
                    forall|k: int|
                        0 <= k < i ==> T::decoded(#[trigger] views[k]) == Some(
                            out@[k].deep_view(),
                        ),
                decreases docs.len() - i,
            {
                assert(views[i as int] == docs@[i as int].deep_view());
                match T::from_json(&docs[i]) {
                    None => {
                        assert(T::decoded(views[i as int]) is None);
                        return None;
                    },
                    Some(value) => {
                        out.push(value);
                    },
                }
                i = i + 1;
            }
            assert(decoded_items::<T>(views)->0 =~= out.deep_view());
            Some(out)
        },
    }
}

/// The values of a member that may be missing: no member, or one that
/// holds `null`, stands for no list; any other must be an array of values.
pub open spec fn decoded_optional_list<T: Wire>(doc: Option<JsonView>) -> Option<
    Option<Seq<T::V>>,
> {
    match doc {
        None => Some(None),
        Some(JsonView::Null) => Some(None),
        Some(d) => match decoded_list::<T>(d) {
            Some(values) => Some(Some(values)),
            None => None,
        },
    }
}

/// The integer of a member that may be missing: no member, or one that
/// holds `null`, stands for no integer; any other must be an integer.
pub open spec fn decoded_optional_int(doc: Option<JsonView>) -> Option<Option<i64>> {
    match doc {
        None => Some(None),
        Some(JsonView::Null) => Some(None),
        Some(JsonView::Int(i)) => Some(Some(i)),
        Some(_) => None,
    }
}

/// The text of a member that must be there and hold a string.
pub open spec fn decoded_text(doc: Option<JsonView>) -> Option<Seq<char>> {
    match doc {
        Some(JsonView::Text(s)) => Some(s),
        _ => None,
    }
}

/// The integer of a member that must be there and hold an integer.
pub open spec fn decoded_int(doc: Option<JsonView>) -> Option<i64> {
    match doc {
        Some(JsonView::Int(i)) => Some(i),
        _ => None,
    }
}

/// Reads the list of a member that may be missing.
pub fn optional_list_from_json<T: Wire>(doc: Option<&Json>) -> (r: Option<Option<Vec<T>>>)
    ensures
        r.deep_view() == decoded_optional_list::<T>(doc.deep_view()),
{
    match doc {
        None => Some(None),
        Some(Json::Null) => Some(None),
        Some(d) => match list_from_json::<T>(d) {
            Some(values) => Some(Some(values)),
            None => None,
        },
    }
}

/// Reads the integer of a member that may be missing.
pub fn optional_int_from_json(doc: Option<&Json>) -> (r: Option<Option<i64>>)
    ensures
        r == decoded_optional_int(doc.deep_view()),
{
    match doc {
        None => Some(None),
        Some(Json::Null) => Some(None),
        Some(Json::Int(i)) => Some(Some(*i)),
        Some(_) => None,
    }
}

/// Reads the text of a member that must be there.
pub fn text_from_json(doc: Option<&Json>) -> (r: Option<String>)
    ensures
        r.deep_view() == decoded_text(doc.deep_view()),
{
    match doc {
        Some(Json::Text(s)) => Some(s.clone()),
        _ => None,
    }
}

/// Reads the integer of a member that must be there.
pub fn int_from_json(doc: Option<&Json>) -> (r: Option<i64>)
    ensures
        r == decoded_int(doc.deep_view()),
{
    match doc {
        Some(Json::Int(i)) => Some(*i),
        _ => None,
    }
}

/// The value of a member that must be there.
pub open spec fn decoded_member<T: Wire>(doc: Option<JsonView>) -> Option<T::V> {
    match doc {
        Some(d) => T::decoded(d),
        None => None,
    }
}

/// Reads the value of a member that must be there.
pub fn member_from_json<T: Wire>(doc: Option<&Json>) -> (r: Option<T>)
    ensures
        r.deep_view() == decoded_member::<T>(doc.deep_view()),
{
    match doc {
        Some(d) => T::from_json(d),
        None => None,
    }
}

impl<T: Wire> Wire for Vec<T> {
    open spec fn encoded(value: Seq<T::V>) -> JsonView {
        encoded_list::<T>(value)
    }

    open spec fn decoded(doc: JsonView) -> Option<Seq<T::V>> {
        decoded_list::<T>(doc)
    }

    proof fn round_trip(value: Seq<T::V>) {
        lemma_list_round_trip::<T>(value);
    }

    fn to_json(&self) -> (doc: Json) {
        let slice = self.as_slice();
        assert(slice.deep_view() =~= self.deep_view());
        list_to_json(slice)
    }

    fn from_json(doc: &Json) -> (r: Option<Self>) {
        list_from_json::<T>(doc)
    }
}

/// The envelope of a value: the object whose one member, called `key`,
/// holds the document of the value.
pub open spec fn envelope<T: Wire>(key: Seq<char>, value: T::V) -> JsonView {
    JsonView::Record(seq![(key, T::encoded(value))])
}

/// The value in an envelope: what the member called `key` stands for.
pub open spec fn unwrapped<T: Wire>(key: Seq<char>, doc: JsonView) -> Option<T::V> {
    decoded_member::<T>(doc.member(key))
}

/// Taking a value out of its envelope gives the value back.
pub proof fn lemma_envelope_round_trip<T: Wire>(key: Seq<char>, value: T::V)
    ensures
        unwrapped::<T>(key, envelope::<T>(key, value)) == Some(value),
{
    lemma_member_at(seq![(key, T::encoded(value))], key, 0);
    T::round_trip(value);
}

/// Puts a value into its envelope.
pub fn to_envelope<T: Wire>(key: &str, value: &T) -> (doc: Json)
    ensures
        doc.deep_view() == envelope::<T>(key@, value.deep_view()),
{
    let mut members: Vec<(String, Json)> = Vec::new();
    members.push(entry(key, value.to_json()));
    assert(members.deep_view() =~= seq![(key@, T::encoded(value.deep_view()))]);
    record(members)
}

/// Takes a value out of its envelope.
pub fn from_envelope<T: Wire>(key: &str, doc: &Json) -> (r: Option<T>)
    ensures
        r.deep_view() == unwrapped::<T>(key@, doc.deep_view()),
{
    member_from_json::<T>(doc.member(key))
}

/// The value that a JSON text stands for: what its document stands for.
/// `None` for a text that is no JSON, or whose document stands for no
/// value.
pub open spec fn value_of_text<T: Wire>(text: Seq<char>) -> Option<T::V> {
    match json_document(text) {
        Some(doc) => T::decoded(doc),
        None => None,
    }
}

/// Reads a value from JSON text.
pub fn from_text<T: Wire>(text: &str) -> (r: Option<T>)
    ensures
        r.deep_view() == value_of_text::<T>(text@),
{
    match parse(text) {
        Some(doc) => T::from_json(&doc),
        None => None,
    }
}

/// Writes a value as JSON text. `None` where the document of the value
/// cannot be written.
pub fn to_text<T: Wire>(value: &T) -> (text: Option<String>)
    ensures
        text.deep_view() == json_text(T::encoded(value.deep_view())),
{
    render(&value.to_json())
}

/// Reads a value from the JSON text of its envelope.
pub fn from_envelope_text<T: Wire>(key: &str, text: &str) -> (r: Option<T>)
    ensures
        r.deep_view() == match json_document(text@) {
            Some(doc) => unwrapped::<T>(key@, doc),
            None => None,
        },
{
    match parse(text) {
        Some(doc) => from_envelope::<T>(key, &doc),
        None => None,
    }
}

/// Writes the envelope of a value as JSON text.
pub fn to_envelope_text<T: Wire>(key: &str, value: &T) -> (text: Option<String>)
    ensures
        text.deep_view() == json_text(envelope::<T>(key@, value.deep_view())),
{
    render(&to_envelope(key, value))
}

} // verus!
