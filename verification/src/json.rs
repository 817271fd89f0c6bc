//! The JSON documents that travel between this client and the tracking
//! server.
//!
//! A document is held as a [`Json`] value, which verified code can take
//! apart and build. Reading a document from text and writing it as text is
//! the work of `serde_json`; the functions that call it are trusted.

use vstd::prelude::*;
use crate::text::same;

verus! {

#[verifier::external_type_specification]
#[verifier::external_body]
pub struct ExValue(serde_json::Value);

#[verifier::external_type_specification]
#[verifier::external_body]
pub struct ExNumber(serde_json::Number);

/// A JSON document.
///
/// A number that is an integer of the 64-bit signed range is held as
/// [`Json::Int`]. Any other number (a fraction, or an integer beyond that
/// range) is carried as `serde_json` holds it, in [`Json::Real`].
/// The members of an object keep their order.
#[derive(Debug)]
pub enum Json {
    Null,
    Bool(bool),
    Int(i64),
    Real(serde_json::Number),
    Text(String),
    List(Vec<Json>),
    Record(Vec<(String, Json)>),
}

/// The mathematical value of a [`Json`] document.
pub enum JsonView {
    Null,
    Bool(bool),
    Int(i64),
    Real(serde_json::Number),
    Text(Seq<char>),
    List(Seq<JsonView>),
    Record(Seq<(Seq<char>, JsonView)>),
}

/// The mathematical value of a document.
pub open spec fn json_view(doc: Json) -> JsonView
    decreases doc,
{
    match doc {
        Json::Null => JsonView::Null,
        Json::Bool(b) => JsonView::Bool(b),
        Json::Int(i) => JsonView::Int(i),
        Json::Real(n) => JsonView::Real(n),
        Json::Text(s) => JsonView::Text(s@),
        Json::List(items) => JsonView::List(
            Seq::new(
                items@.len(),
                |i: int|
                    if 0 <= i < items@.len() {
                        json_view(items@[i])
                    } else {
                        JsonView::Null
                    },
            ),
        ),
        Json::Record(members) => JsonView::Record(
            Seq::new(
                members@.len(),
                |i: int|
                    if 0 <= i < members@.len() {
                        (members@[i].0@, json_view(members@[i].1))
                    } else {
                        (Seq::<char>::empty(), JsonView::Null)
                    },
            ),
        ),
    }
}

impl DeepView for Json {
    type V = JsonView;

    open spec fn deep_view(&self) -> JsonView {
        json_view(*self)
    }
}

impl View for Json {
    type V = JsonView;

    open spec fn view(&self) -> JsonView {
        self.deep_view()
    }
}

/// The value of the first member called `name` at or after position `from`.
pub open spec fn lookup(members: Seq<(Seq<char>, JsonView)>, name: Seq<char>, from: int) -> Option<
    JsonView,
>
    decreases members.len() - from,
{
    if from < 0 || from >= members.len() {
        None
    } else if members[from].0 == name {
        Some(members[from].1)
    } else {
        lookup(members, name, from + 1)
    }
}

impl JsonView {
    /// The member called `name` of an object: its first, where several have
    /// that name. `None` for a document that is no object or has no such
    /// member.
    pub open spec fn member(self, name: Seq<char>) -> Option<JsonView> {
        match self {
            JsonView::Record(members) => lookup(members, name, 0),
            _ => None,
        }
    }

    /// The member called `name`, where a member that holds `null` counts as
    /// absent.
    pub open spec fn present(self, name: Seq<char>) -> Option<JsonView> {
        match self.member(name) {
            Some(JsonView::Null) => None,
            other => other,
        }
    }

    /// The text of a string document.
    pub open spec fn text(self) -> Option<Seq<char>> {
        match self {
            JsonView::Text(s) => Some(s),
            _ => None,
        }
    }

    /// The number of an integer document.
    pub open spec fn integer(self) -> Option<i64> {
        match self {
            JsonView::Int(i) => Some(i),
            _ => None,
        }
    }

    /// The items of an array document.
    pub open spec fn items(self) -> Option<Seq<JsonView>> {
        match self {
            JsonView::List(items) => Some(items),
            _ => None,
        }
    }
}

/// The document that `serde_json::from_str` reads from a text, converted
/// to [`Json`] member by member; `None` where it reports an error.
pub uninterp spec fn json_document(text: Seq<char>) -> Option<JsonView>;

/// The text that `serde_json::to_string` writes for a document; `None`
/// where it reports an error.
pub uninterp spec fn json_text(doc: JsonView) -> Option<Seq<char>>;

/// The number that `serde_json::Number::from` makes of an integer.
pub uninterp spec fn integer_number(i: i64) -> serde_json::Number;

/// `Clone::clone` of `serde_json::Number`, which the crate derives: the
/// copy is the number itself.
pub assume_specification[ <serde_json::Number as Clone>::clone ](
    n: &serde_json::Number,
) -> (r: serde_json::Number)
    ensures
        r == *n,
;

/// `serde_json::Number::from` on an `i64`. The contract only names the
/// result.
#[verifier::external_body]
pub(crate) fn number_of(i: i64) -> (n: serde_json::Number)
    ensures
        n == integer_number(i),
{
    serde_json::Number::from(i)
}

/// Turns a `serde_json::Value` into a [`Json`], variant by variant. Of a
/// number it asks `Number::as_i64`, which tells an integer of the 64-bit
/// signed range from any other number.
#[verifier::external_body]
fn from_value(value: serde_json::Value) -> Json {
    match value {
        serde_json::Value::Null => Json::Null,
        serde_json::Value::Bool(b) => Json::Bool(b),
        serde_json::Value::Number(n) => match n.as_i64() {
            Some(i) => Json::Int(i),
            None => Json::Real(n),
        },
        serde_json::Value::String(s) => Json::Text(s),
        serde_json::Value::Array(a) => Json::List(a.into_iter().map(from_value).collect()),
        serde_json::Value::Object(m) => Json::Record(
            m.into_iter().map(|(k, v)| (k, from_value(v))).collect(),
        ),
    }
}

/// Turns a [`Json`] into a `serde_json::Value`, variant by variant.
#[verifier::external_body]
fn to_value(doc: &Json) -> serde_json::Value {
    match doc {
        Json::Null => serde_json::Value::Null,
        Json::Bool(b) => serde_json::Value::Bool(*b),
        Json::Int(i) => serde_json::Value::from(*i),
        Json::Real(n) => serde_json::Value::Number(n.clone()),
        Json::Text(s) => serde_json::Value::String(s.clone()),
        Json::List(a) => serde_json::Value::Array(a.iter().map(to_value).collect()),
        Json::Record(m) => serde_json::Value::Object(
            m.iter().map(|(k, v)| (k.clone(), to_value(v))).collect(),
        ),
    }
}

/// `serde_json::from_str` to a `serde_json::Value`. The contract only
/// names the result: the same text always gives the same document.
#[verifier::external_body]
pub(crate) fn parse(text: &str) -> (doc: Option<Json>)
    ensures
        doc.deep_view() == json_document(text@),
{
    match serde_json::from_str::<serde_json::Value>(text) {
        Ok(value) => Some(from_value(value)),
        Err(_) => None,
    }
}

/// `serde_json::to_string` of a `serde_json::Value`. The contract only
/// names the result: the same document always gives the same text.
#[verifier::external_body]
pub(crate) fn render(doc: &Json) -> (text: Option<String>)
    ensures
        text.deep_view() == json_text(doc.deep_view()),
{
    match serde_json::to_string(&to_value(doc)) {
        Ok(text) => Some(text),
        Err(_) => None,
    }
}

impl Json {
    /// The member called `name` of an object.
    pub fn member(&self, name: &str) -> (r: Option<&Json>)
        ensures
            r.deep_view() == self.deep_view().member(name@),
    {
        match self {
            Json::Record(members) => {
                let ghost all = self.deep_view()->Record_0;
                let mut i: usize = 0;
                while i < members.len()
                    invariant
                        i <= members.len(),
                        self.deep_view() == JsonView::Record(all),
                        all.len() == members@.len(),
                        forall|k: int|
                            0 <= k < members@.len() ==> all[k] == (
                                members@[k].0@,
                                members@[k].1.deep_view(),
                            ),
                        lookup(all, name@, 0) == lookup(all, name@, i as int),
                    decreases members.len() - i,
                {
                    assert(all[i as int] == (
                        members@[i as int].0@,
                        members@[i as int].1.deep_view(),
                    ));
                    if same(members[i].0.as_str(), name) {
                        return Some(&members[i].1);
                    }
                    i = i + 1;
                }
                None
            },
            _ => None,
        }
    }

    /// The member called `name`, where one that holds `null` counts as
    /// absent.
    pub fn present(&self, name: &str) -> (r: Option<&Json>)
        ensures
            r.deep_view() == self.deep_view().present(name@),
    {
        match self.member(name) {
            Some(Json::Null) => None,
            other => other,
        }
    }

    /// The text of a string document.
    pub fn text(&self) -> (r: Option<&String>)
        ensures
            r.deep_view() == self.deep_view().text(),
    {
        match self {
            Json::Text(s) => Some(s),
            _ => None,
        }
    }

    /// The number of an integer document.
    pub fn integer(&self) -> (r: Option<i64>)
        ensures
            r == self.deep_view().integer(),
    {
        match self {
            Json::Int(i) => Some(*i),
            _ => None,
        }
    }

    /// The items of an array document.
    pub fn items(&self) -> (r: Option<&Vec<Json>>)
        ensures
            r.deep_view() == self.deep_view().items(),
    {
        match self {
            Json::List(items) => {
                assert(items.deep_view() =~= self.deep_view()->List_0);
                Some(items)
            },
            _ => None,
        }
    }

    /// A string document.
    pub fn of_text(s: &str) -> (doc: Json)
        ensures
            doc.deep_view() == JsonView::Text(s@),
    {
        Json::Text(s.to_owned())
    }

    /// A string document, or `null` for no string.
    pub fn of_optional_text(s: Option<&str>) -> (doc: Json)
        ensures
            doc.deep_view() == match s {
                Some(t) => JsonView::Text(t@),
                None => JsonView::Null,
            },
    {
        match s {
            Some(t) => Json::Text(t.to_owned()),
            None => Json::Null,
        }
    }

    /// An integer document, or `null` for no integer.
    pub fn of_optional_int(i: Option<i64>) -> (doc: Json)
        ensures
            doc.deep_view() == match i {
                Some(v) => JsonView::Int(v),
                None => JsonView::Null,
            },
    {
        match i {
            Some(v) => Json::Int(v),
            None => Json::Null,
        }
    }
}

/// One member of an object: a name and the document under it.
pub fn entry(name: &str, value: Json) -> (r: (String, Json))
    ensures
        r.deep_view() == (name@, value.deep_view()),
{
    (name.to_owned(), value)
}

/// The object with the given members, in their order.
pub fn record(members: Vec<(String, Json)>) -> (doc: Json)
    ensures
        doc.deep_view() == JsonView::Record(members.deep_view()),
{
    let doc = Json::Record(members);
    assert(doc.deep_view()->Record_0 =~= members.deep_view());
    doc
}

/// A member is found under its name if no earlier member has that name.
pub proof fn lemma_member_at(members: Seq<(Seq<char>, JsonView)>, name: Seq<char>, k: int)
    requires
        0 <= k < members.len(),
        members[k].0 == name,
        forall|j: int| 0 <= j < k ==> (#[trigger] members[j]).0 != name,
    ensures
        JsonView::Record(members).member(name) == Some(members[k].1),
{
    lemma_lookup_from(members, name, k, 0);
}

proof fn lemma_lookup_from(members: Seq<(Seq<char>, JsonView)>, name: Seq<char>, k: int, from: int)
    requires
        0 <= from <= k < members.len(),
        members[k].0 == name,
        forall|j: int| 0 <= j < k ==> (#[trigger] members[j]).0 != name,
    ensures
        lookup(members, name, from) == Some(members[k].1),
    decreases k - from,
{
    if from < k {
        assert(members[from].0 != name);
        lemma_lookup_from(members, name, k, from + 1);
    }
}

/// No member is found under a name that none has.
pub proof fn lemma_member_absent(members: Seq<(Seq<char>, JsonView)>, name: Seq<char>)
    requires
        forall|j: int| 0 <= j < members.len() ==> (#[trigger] members[j]).0 != name,
    ensures
        JsonView::Record(members).member(name) is None,
{
    lemma_lookup_none(members, name, 0);
}

proof fn lemma_lookup_none(members: Seq<(Seq<char>, JsonView)>, name: Seq<char>, from: int)
    requires
        0 <= from <= members.len(),
        forall|j: int| 0 <= j < members.len() ==> (#[trigger] members[j]).0 != name,
    ensures
        lookup(members, name, from) is None,
    decreases members.len() - from,
{
    if from < members.len() {
        assert(members[from].0 != name);
        lemma_lookup_none(members, name, from + 1);
    }
}

} // verus!
