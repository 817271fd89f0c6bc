//! Identifiers: opaque text, compared by value.

use vstd::prelude::*;
use vstd::std_specs::convert::FromSpecImpl;
use crate::json::{Json, JsonView};
use crate::wire::Wire;

verus! {

/// The identifier of an experiment.
#[derive(Debug, Clone, PartialEq, Eq)]
pub struct ExperimentId(String);

impl View for ExperimentId {
    type V = Seq<char>;

    closed spec fn view(&self) -> Seq<char> {
        self.0@
    }
}

impl DeepView for ExperimentId {
    type V = Seq<char>;

    open spec fn deep_view(&self) -> Seq<char> {
        self@
    }
}

impl ExperimentId {
    /// The text of the identifier.
    pub fn as_ref(&self) -> (r: &str)
        ensures
            r@ == self@,
    {
        self.0.as_str()
    }

    /// A copy of the identifier.
    pub fn duplicate(&self) -> (r: Self)
        ensures
            r@ == self@,
    {
        ExperimentId(self.0.clone())
    }

    /// The identifier with the given text.
    pub fn new(id: String) -> (r: Self)
        ensures
            r@ == id@,
    {
        ExperimentId(id)
    }
}

impl From<String> for ExperimentId {
    fn from(id: String) -> (r: Self)
        ensures
            r@ == id@,
    {
        ExperimentId(id)
    }
}

/// `from` wraps the string as it is.
impl FromSpecImpl<String> for ExperimentId {
    open spec fn obeys_from_spec() -> bool {
        true
    }

    closed spec fn from_spec(id: String) -> Self {
        ExperimentId(id)
    }
}

impl<'a> From<&'a str> for ExperimentId {
    fn from(id: &'a str) -> (r: Self)
        ensures
            r@ == id@,
    {
        ExperimentId(id.to_owned())
    }
}

/// What `from` makes of a string slice is stated on `from` itself.
impl<'a> FromSpecImpl<&'a str> for ExperimentId {
    open spec fn obeys_from_spec() -> bool {
        false
    }

    closed spec fn from_spec(id: &'a str) -> Self {
        arbitrary()
    }
}

impl Wire for ExperimentId {
    open spec fn encoded(value: Seq<char>) -> JsonView {
        JsonView::Text(value)
    }

    open spec fn decoded(doc: JsonView) -> Option<Seq<char>> {
        doc.text()
    }

    proof fn round_trip(value: Seq<char>) {
    }

    fn to_json(&self) -> (doc: Json) {
        Json::of_text(self.as_ref())
    }

    fn from_json(doc: &Json) -> (r: Option<Self>) {
        match doc.text() {
            Some(s) => Some(ExperimentId(s.clone())),
            None => None,
        }
    }
}

/// The identifier of a run.
#[derive(Debug, Clone, PartialEq, Eq)]
pub struct RunId(String);

impl View for RunId {
    type V = Seq<char>;

    closed spec fn view(&self) -> Seq<char> {
        self.0@
    }
}

impl DeepView for RunId {
    type V = Seq<char>;

    open spec fn deep_view(&self) -> Seq<char> {
        self@
    }
}

impl RunId {
    /// The text of the identifier.
    pub fn as_ref(&self) -> (r: &str)
        ensures
            r@ == self@,
    {
        self.0.as_str()
    }

    /// A copy of the identifier.
    pub fn duplicate(&self) -> (r: Self)
        ensures
            r@ == self@,
    {
        RunId(self.0.clone())
    }

    /// The identifier with the given text.
    pub fn new(id: String) -> (r: Self)
        ensures
            r@ == id@,
    {
        RunId(id)
    }
}

impl From<String> for RunId {
    fn from(id: String) -> (r: Self)
        ensures
            r@ == id@,
    {
        RunId(id)
    }
}

/// `from` wraps the string as it is.
impl FromSpecImpl<String> for RunId {
    open spec fn obeys_from_spec() -> bool {
        true
    }

    closed spec fn from_spec(id: String) -> Self {
        RunId(id)
    }
}

impl<'a> From<&'a str> for RunId {
    fn from(id: &'a str) -> (r: Self)
        ensures
            r@ == id@,
    {
        RunId(id.to_owned())
    }
}

/// What `from` makes of a string slice is stated on `from` itself.
impl<'a> FromSpecImpl<&'a str> for RunId {
    open spec fn obeys_from_spec() -> bool {
        false
    }

    closed spec fn from_spec(id: &'a str) -> Self {
        arbitrary()
    }
}

impl Wire for RunId {
    open spec fn encoded(value: Seq<char>) -> JsonView {
        JsonView::Text(value)
    }

    open spec fn decoded(doc: JsonView) -> Option<Seq<char>> {
        doc.text()
    }

    proof fn round_trip(value: Seq<char>) {
    }

    fn to_json(&self) -> (doc: Json) {
        Json::of_text(self.as_ref())
    }

    fn from_json(doc: &Json) -> (r: Option<Self>) {
        match doc.text() {
            Some(s) => Some(RunId(s.clone())),
            None => None,
        }
    }
}

} // verus!
