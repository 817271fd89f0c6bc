//! Searches for runs, page by page.

use vstd::prelude::*;
use vstd::std_specs::convert::FromSpecImpl;
use crate::api::run::{Run, RunInfo, RunInfoView, RunView};
use crate::json::{entry, lemma_member_at, record, Json, JsonView};
use crate::wire::{
    decoded_list, decoded_member, encoded_list, lemma_list_round_trip, list_from_json,
    list_to_json, member_from_json, Wire,
};

verus! {

/// A token that names the next page of a search.
#[derive(Debug, Clone, PartialEq, Eq)]
pub struct PageToken(String);

impl View for PageToken {
    type V = Seq<char>;

    closed spec fn view(&self) -> Seq<char> {
        self.0@
    }
}

impl DeepView for PageToken {
    type V = Seq<char>;

    open spec fn deep_view(&self) -> Seq<char> {
        self@
    }
}

impl PageToken {
    /// The text of the token.
    pub fn as_ref(&self) -> (r: &str)
        ensures
            r@ == self@,
    {
        self.0.as_str()
    }

    /// A copy of the token.
    pub fn duplicate(&self) -> (r: Self)
        ensures
            r@ == self@,
    {
        PageToken(self.0.clone())
    }

    /// The token with the given text.
    pub fn new(id: String) -> (r: Self)
        ensures
            r@ == id@,
    {
        PageToken(id)
    }
}

impl From<String> for PageToken {
    fn from(id: String) -> (r: Self)
        ensures
            r@ == id@,
    {
        PageToken(id)
    }
}

/// `from` wraps the string as it is.
impl FromSpecImpl<String> for PageToken {
    open spec fn obeys_from_spec() -> bool {
        true
    }

    closed spec fn from_spec(id: String) -> Self {
        PageToken(id)
    }
}

impl<'a> From<&'a str> for PageToken {
    fn from(id: &'a str) -> (r: Self)
        ensures
            r@ == id@,
    {
        PageToken(id.to_owned())
    }
}

/// What `from` makes of a string slice is stated on `from` itself.
impl<'a> FromSpecImpl<&'a str> for PageToken {
    open spec fn obeys_from_spec() -> bool {
        false
    }

    closed spec fn from_spec(id: &'a str) -> Self {
        arbitrary()
    }
}

impl Wire for PageToken {
    open spec fn encoded(value: Seq<char>) -> JsonView {
        JsonView::Text(value)
    }

    open spec fn decoded(doc: JsonView) -> Option<Seq<char>> {
        doc.text()
    }

    proof fn round_trip(value: Seq<char>) {
    }

    fn to_json(&self) -> (doc: Json) {
        Json::of_text(self.as_ref())
    }

    fn from_json(doc: &Json) -> (r: Option<Self>) {
        match doc.text() {
            Some(s) => Some(PageToken(s.clone())),
            None => None,
        }
    }
}

/// One page of a search for runs.
#[derive(Debug, Clone, PartialEq)]
pub struct Search {
    pub runs: Vec<Run>,
    pub next_page_token: PageToken,
}

/// The mathematical value of a [`Search`].
pub struct SearchView {
    pub runs: Seq<RunView>,
    pub next_page_token: Seq<char>,
}

impl DeepView for Search {
    type V = SearchView;

    open spec fn deep_view(&self) -> SearchView {
        SearchView { runs: self.runs.deep_view(), next_page_token: self.next_page_token@ }
    }
}

impl View for Search {
    type V = SearchView;

    open spec fn view(&self) -> SearchView {
        self.deep_view()
    }
}

/// The values of a member that must be there and hold an array of values.
pub open spec fn decoded_required_list<T: Wire>(doc: Option<JsonView>) -> Option<Seq<T::V>> {
    match doc {
        Some(d) => decoded_list::<T>(d),
        None => None,
    }
}

/// Reads the list of a member that must be there.
pub fn required_list_from_json<T: Wire>(doc: Option<&Json>) -> (r: Option<Vec<T>>)
    ensures
        r.deep_view() == decoded_required_list::<T>(doc.deep_view()),
{
    match doc {
        Some(d) => list_from_json::<T>(d),
        None => None,
    }
}

/// The members of the object that stands for one page of a search.
pub open spec fn search_members(value: SearchView) -> Seq<(Seq<char>, JsonView)> {
    seq![
        ("runs"@, encoded_list::<Run>(value.runs)),
        ("next_page_token"@, JsonView::Text(value.next_page_token)),
    ]
}

impl Wire for Search {
    open spec fn encoded(value: SearchView) -> JsonView {
        JsonView::Record(search_members(value))
    }

    open spec fn decoded(doc: JsonView) -> Option<SearchView> {
        match (
            decoded_required_list::<Run>(doc.member("runs"@)),
            decoded_member::<PageToken>(doc.member("next_page_token"@)),
        ) {
            (Some(runs), Some(next_page_token)) => Some(SearchView { runs, next_page_token }),
            _ => None,
        }
    }

    proof fn round_trip(value: SearchView) {
        reveal_strlit("runs");
        reveal_strlit("next_page_token");
        assert("runs"@.len() == 4);
        assert("next_page_token"@.len() == 15);
        let members = search_members(value);
        lemma_member_at(members, "runs"@, 0);
        lemma_member_at(members, "next_page_token"@, 1);
        lemma_list_round_trip::<Run>(value.runs);
    }

    fn to_json(&self) -> (doc: Json) {
        let mut members: Vec<(String, Json)> = Vec::new();
        let runs = self.runs.as_slice();
        assert(runs.deep_view() =~= self.runs.deep_view());
        members.push(entry("runs", list_to_json(runs)));
        members.push(entry("next_page_token", self.next_page_token.to_json()));
        assert(members.deep_view() =~= search_members(self.deep_view()));
        record(members)
    }

    fn from_json(doc: &Json) -> (r: Option<Self>) {
        let runs = required_list_from_json::<Run>(doc.member("runs"));
        let next_page_token = member_from_json::<PageToken>(doc.member("next_page_token"));
        match (runs, next_page_token) {
            (Some(runs), Some(next_page_token)) => Some(Search { runs, next_page_token }),
            _ => None,
        }
    }
}

/// One page of a search, with only what the server knows of each run.
#[derive(Debug, Clone, PartialEq, Eq)]
pub struct RunList {
    pub runs: Vec<RunInfo>,
    pub page_token: PageToken,
}

/// The mathematical value of a [`RunList`].
pub struct RunListView {
    pub runs: Seq<RunInfoView>,
    pub page_token: Seq<char>,
}

impl DeepView for RunList {
    type V = RunListView;

    open spec fn deep_view(&self) -> RunListView {
        RunListView { runs: self.runs.deep_view(), page_token: self.page_token@ }
    }
}

impl View for RunList {
    type V = RunListView;

    open spec fn view(&self) -> RunListView {
        self.deep_view()
    }
}

/// The members of the object that stands for a run of which only what the
/// server knows is kept.
pub open spec fn info_members(value: RunInfoView) -> Seq<(Seq<char>, JsonView)> {
    seq![("info"@, RunInfo::encoded(value))]
}

/// A run of which only what the server knows is read: what was logged
/// under it is passed over.
#[derive(Debug, Clone, PartialEq, Eq)]
pub struct InfoOnly(pub RunInfo);

impl DeepView for InfoOnly {
    type V = RunInfoView;

    open spec fn deep_view(&self) -> RunInfoView {
        self.0.deep_view()
    }
}

impl Wire for InfoOnly {
    open spec fn encoded(value: RunInfoView) -> JsonView {
        JsonView::Record(info_members(value))
    }

    open spec fn decoded(doc: JsonView) -> Option<RunInfoView> {
        decoded_member::<RunInfo>(doc.member("info"@))
    }

    proof fn round_trip(value: RunInfoView) {
        lemma_member_at(info_members(value), "info"@, 0);
        RunInfo::round_trip(value);
    }

    fn to_json(&self) -> (doc: Json) {
        let mut members: Vec<(String, Json)> = Vec::new();
        members.push(entry("info", self.0.to_json()));
        assert(members.deep_view() =~= info_members(self.deep_view()));
        record(members)
    }

    fn from_json(doc: &Json) -> (r: Option<Self>) {
        match member_from_json::<RunInfo>(doc.member("info")) {
            Some(info) => Some(InfoOnly(info)),
            None => None,
        }
    }
}

/// The members of the object that stands for a page of run infos.
pub open spec fn run_list_members(value: RunListView) -> Seq<(Seq<char>, JsonView)> {
    seq![
        ("runs"@, encoded_list::<InfoOnly>(value.runs)),
        ("next_page_token"@, JsonView::Text(value.page_token)),
    ]
}

fn unwrap_infos(runs: Vec<InfoOnly>) -> (out: Vec<RunInfo>)
    ensures
        out.deep_view() == runs.deep_view(),
{
    let mut runs = runs;
    let ghost all = runs.deep_view();
    let mut reversed: Vec<RunInfo> = Vec::new();
    while runs.len() > 0
        invariant
            reversed.len() + runs.len() == all.len(),
            forall|k: int| 0 <= k < runs.len() ==> (#[trigger] runs@[k]).deep_view() == all[k],
            forall|k: int|
                0 <= k < reversed.len() ==> (#[trigger] reversed@[k]).deep_view() == all[all.len()
                    - 1 - k],
        decreases runs.len(),
    {
        if let Some(InfoOnly(info)) = runs.pop() {
            reversed.push(info);
        }
    }
    let mut out: Vec<RunInfo> = Vec::new();
    while reversed.len() > 0
        invariant
            out.len() + reversed.len() == all.len(),
            forall|k: int|
                0 <= k < reversed.len() ==> (#[trigger] reversed@[k]).deep_view() == all[all.len()
                    - 1 - k],
            forall|k: int| 0 <= k < out.len() ==> (#[trigger] out@[k]).deep_view() == all[k],
        decreases reversed.len(),
    {
        if let Some(info) = reversed.pop() {
            out.push(info);
        }
    }
    assert(out.deep_view() =~= all);
    out
}

impl Wire for RunList {
    open spec fn encoded(value: RunListView) -> JsonView {
        JsonView::Record(run_list_members(value))
    }

    open spec fn decoded(doc: JsonView) -> Option<RunListView> {
        match (
            decoded_required_list::<InfoOnly>(doc.member("runs"@)),
            decoded_member::<PageToken>(doc.member("next_page_token"@)),
        ) {
            (Some(runs), Some(page_token)) => Some(RunListView { runs, page_token }),
            _ => None,
        }
    }

    proof fn round_trip(value: RunListView) {
        reveal_strlit("runs");
        reveal_strlit("next_page_token");
        assert("runs"@.len() == 4);
        assert("next_page_token"@.len() == 15);
        let members = run_list_members(value);
        lemma_member_at(members, "runs"@, 0);
        lemma_member_at(members, "next_page_token"@, 1);
        lemma_list_round_trip::<InfoOnly>(value.runs);
    }

    fn to_json(&self) -> (doc: Json) {
        let mut docs: Vec<Json> = Vec::new();
        let mut i: usize = 0;
        while i < self.runs.len()
            invariant
                i <= self.runs.len(),
                docs.len() == i,
                forall|k: int|
                    0 <= k < i ==> (#[trigger] docs@[k]).deep_view() == InfoOnly::encoded(
                        self.runs@[k].deep_view(),
                    ),
            decreases self.runs.len() - i,
        {
            let mut members: Vec<(String, Json)> = Vec::new();
            members.push(entry("info", self.runs[i].to_json()));
            assert(members.deep_view() =~= info_members(self.runs@[i as int].deep_view()));
            docs.push(record(members));
            i = i + 1;
        }
        let runs = Json::List(docs);
        assert(runs.deep_view()->List_0 =~= crate::wire::encoded_items::<InfoOnly>(
            self.runs.deep_view(),
        ));
        let mut members: Vec<(String, Json)> = Vec::new();
        members.push(entry("runs", runs));
        members.push(entry("next_page_token", self.page_token.to_json()));
        assert(members.deep_view() =~= run_list_members(self.deep_view()));
        record(members)
    }

    fn from_json(doc: &Json) -> (r: Option<Self>) {
        let runs = required_list_from_json::<InfoOnly>(doc.member("runs"));
        let page_token = member_from_json::<PageToken>(doc.member("next_page_token"));
        match (runs, page_token) {
            (Some(runs), Some(page_token)) => Some(
                RunList { runs: unwrap_infos(runs), page_token },
            ),
            _ => None,
        }
    }
}

} // verus!
