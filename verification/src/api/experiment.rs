//! Experiments: named groups of runs.

use vstd::prelude::*;
use crate::api::id::ExperimentId;
use crate::api::run::{lemma_pair_round_trip, pair_members, pair_to_json};
use crate::json::{entry, json_document, json_text, lemma_member_at, record, Json, JsonView};
use crate::wire::{
    decoded_optional_int, decoded_optional_list, decoded_text, encoded_optional_list, envelope,
    lemma_envelope_round_trip, lemma_list_round_trip, optional_int_from_json,
    optional_list_from_json, optional_list_to_json, text_from_json, unwrapped, Wire,
};

verus! {

/// A tag of an experiment: a key with its value.
#[derive(Debug, Clone, PartialEq, Eq)]
pub struct ExperimentTag {
    pub key: String,
    pub value: String,
}

/// The mathematical value of an [`ExperimentTag`].
pub struct ExperimentTagView {
    pub key: Seq<char>,
    pub value: Seq<char>,
}

impl DeepView for ExperimentTag {
    type V = ExperimentTagView;

    open spec fn deep_view(&self) -> ExperimentTagView {
        ExperimentTagView { key: self.key@, value: self.value@ }
    }
}

impl View for ExperimentTag {
    type V = ExperimentTagView;

    open spec fn view(&self) -> ExperimentTagView {
        self.deep_view()
    }
}

impl Wire for ExperimentTag {
    open spec fn encoded(value: ExperimentTagView) -> JsonView {
        JsonView::Record(pair_members(value.key, value.value))
    }

    open spec fn decoded(doc: JsonView) -> Option<ExperimentTagView> {
        match (decoded_text(doc.member("key"@)), decoded_text(doc.member("value"@))) {
            (Some(key), Some(value)) => Some(ExperimentTagView { key, value }),
            _ => None,
        }
    }

    proof fn round_trip(value: ExperimentTagView) {
        lemma_pair_round_trip(value.key, value.value);
    }

    fn to_json(&self) -> (doc: Json) {
        pair_to_json(self.key.as_str(), self.value.as_str())
    }

    fn from_json(doc: &Json) -> (r: Option<Self>) {
        let key = text_from_json(doc.member("key"));
        let value = text_from_json(doc.member("value"));
        match (key, value) {
            (Some(key), Some(value)) => Some(ExperimentTag { key, value }),
            _ => None,
        }
    }
}

/// An experiment as the server describes it: a snapshot that the client
/// does not change.
#[derive(Debug, Clone, PartialEq, Eq)]
pub struct Experiment {
    pub experiment_id: ExperimentId,
    pub name: String,
    pub artifact_location: String,
    pub lifecycle_stage: String,
    pub last_update_time: Option<i64>,
    pub creation_time: Option<i64>,
    pub tags: Option<Vec<ExperimentTag>>,
}

/// The mathematical value of an [`Experiment`].
pub struct ExperimentView {
    pub experiment_id: Seq<char>,
    pub name: Seq<char>,
    pub artifact_location: Seq<char>,
    pub lifecycle_stage: Seq<char>,
    pub last_update_time: Option<i64>,
    pub creation_time: Option<i64>,
    pub tags: Option<Seq<ExperimentTagView>>,
}

impl DeepView for Experiment {
    type V = ExperimentView;

    open spec fn deep_view(&self) -> ExperimentView {
        ExperimentView {
            experiment_id: self.experiment_id@,
            name: self.name@,
            artifact_location: self.artifact_location@,
            lifecycle_stage: self.lifecycle_stage@,
            last_update_time: self.last_update_time,
            creation_time: self.creation_time,
            tags: self.tags.deep_view(),
        }
    }
}

impl View for Experiment {
    type V = ExperimentView;

    open spec fn view(&self) -> ExperimentView {
        self.deep_view()
    }
}

/// An integer that may be missing: the integer, or `null`.
pub open spec fn encoded_optional_int(value: Option<i64>) -> JsonView {
    match value {
        Some(i) => JsonView::Int(i),
        None => JsonView::Null,
    }
}

/// The members of the object that stands for an experiment.
pub open spec fn experiment_members(value: ExperimentView) -> Seq<(Seq<char>, JsonView)> {
    seq![
        ("experiment_id"@, JsonView::Text(value.experiment_id)),
        ("name"@, JsonView::Text(value.name)),
        ("artifact_location"@, JsonView::Text(value.artifact_location)),
        ("lifecycle_stage"@, JsonView::Text(value.lifecycle_stage)),
        ("last_update_time"@, encoded_optional_int(value.last_update_time)),
        ("creation_time"@, encoded_optional_int(value.creation_time)),
        ("tags"@, encoded_optional_list::<ExperimentTag>(value.tags)),
    ]
}

impl Wire for Experiment {
    open spec fn encoded(value: ExperimentView) -> JsonView {
        JsonView::Record(experiment_members(value))
    }

    open spec fn decoded(doc: JsonView) -> Option<ExperimentView> {
        match (
            decoded_text(doc.member("experiment_id"@)),
            decoded_text(doc.member("name"@)),
            decoded_text(doc.member("artifact_location"@)),
            decoded_text(doc.member("lifecycle_stage"@)),
            decoded_optional_int(doc.member("last_update_time"@)),
            decoded_optional_int(doc.member("creation_time"@)),
            decoded_optional_list::<ExperimentTag>(doc.member("tags"@)),
        ) {
            (
                Some(experiment_id),
                Some(name),
                Some(artifact_location),
                Some(lifecycle_stage),
                Some(last_update_time),
                Some(creation_time),
                Some(tags),
            ) => Some(
                ExperimentView {
                    experiment_id,
                    name,
                    artifact_location,
                    lifecycle_stage,
                    last_update_time,
                    creation_time,
                    tags,
                },
            ),
            _ => None,
        }
    }

    proof fn round_trip(value: ExperimentView) {
        reveal_strlit("experiment_id");
        reveal_strlit("name");
        reveal_strlit("artifact_location");
        reveal_strlit("lifecycle_stage");
        reveal_strlit("last_update_time");
        reveal_strlit("creation_time");
        reveal_strlit("tags");
        assert("experiment_id"@.len() == 13 && "experiment_id"@[0] == 'e');
        assert("name"@.len() == 4 && "name"@[0] == 'n');
        assert("artifact_location"@.len() == 17);
        assert("lifecycle_stage"@.len() == 15);
        assert("last_update_time"@.len() == 16);
        assert("creation_time"@.len() == 13 && "creation_time"@[0] == 'c');
        assert("tags"@.len() == 4 && "tags"@[0] == 't');
        let members = experiment_members(value);
        lemma_member_at(members, "experiment_id"@, 0);
        lemma_member_at(members, "name"@, 1);
        lemma_member_at(members, "artifact_location"@, 2);
        lemma_member_at(members, "lifecycle_stage"@, 3);
        lemma_member_at(members, "last_update_time"@, 4);
        lemma_member_at(members, "creation_time"@, 5);
        lemma_member_at(members, "tags"@, 6);
        if let Some(tags) = value.tags {
            lemma_list_round_trip::<ExperimentTag>(tags);
        }
    }

    fn to_json(&self) -> (doc: Json) {
        let mut members: Vec<(String, Json)> = Vec::new();
        members.push(entry("experiment_id", Json::of_text(self.experiment_id.as_ref())));
        members.push(entry("name", Json::of_text(self.name.as_str())));
        members.push(entry("artifact_location", Json::of_text(self.artifact_location.as_str())));
        members.push(entry("lifecycle_stage", Json::of_text(self.lifecycle_stage.as_str())));
        members.push(entry("last_update_time", Json::of_optional_int(self.last_update_time)));
        members.push(entry("creation_time", Json::of_optional_int(self.creation_time)));
        members.push(entry("tags", optional_list_to_json(&self.tags)));
        assert(members.deep_view() =~= experiment_members(self.deep_view()));
        record(members)
    }

    fn from_json(doc: &Json) -> (r: Option<Self>) {
        let experiment_id = text_from_json(doc.member("experiment_id"));
        let name = text_from_json(doc.member("name"));
        let artifact_location = text_from_json(doc.member("artifact_location"));
        let lifecycle_stage = text_from_json(doc.member("lifecycle_stage"));
        let last_update_time = optional_int_from_json(doc.member("last_update_time"));
        let creation_time = optional_int_from_json(doc.member("creation_time"));
        let tags = optional_list_from_json::<ExperimentTag>(doc.member("tags"));
        match (
            experiment_id,
            name,
            artifact_location,
            lifecycle_stage,
            last_update_time,
            creation_time,
            tags,
        ) {
            (
                Some(experiment_id),
                Some(name),
                Some(artifact_location),
                Some(lifecycle_stage),
                Some(last_update_time),
                Some(creation_time),
                Some(tags),
            ) => Some(
                Experiment {
                    experiment_id: ExperimentId::new(experiment_id),
                    name,
                    artifact_location,
                    lifecycle_stage,
                    last_update_time,
                    creation_time,
                    tags,
                },
            ),
            _ => None,
        }
    }
}

/// The envelope in which the server sends one experiment: an object whose
/// member `experiment` holds it.
pub open spec fn experiment_envelope(value: ExperimentView) -> JsonView {
    envelope::<Experiment>("experiment"@, value)
}

/// The experiment in an envelope, if the document is the envelope of one.
pub open spec fn experiment_in(doc: JsonView) -> Option<ExperimentView> {
    unwrapped::<Experiment>("experiment"@, doc)
}

/// An experiment that was read from an envelope, written into an envelope
/// again and read once more is the experiment that was read first.
pub proof fn lemma_experiment_round_trip(doc: JsonView)
    requires
        experiment_in(doc) is Some,
    ensures
        experiment_in(experiment_envelope(experiment_in(doc)->0)) == experiment_in(doc),
{
    lemma_envelope_round_trip::<Experiment>("experiment"@, experiment_in(doc)->0);
}

/// Every experiment is read back from its own envelope.
pub proof fn lemma_experiment_envelope(value: ExperimentView)
    ensures
        experiment_in(experiment_envelope(value)) == Some(value),
{
    lemma_envelope_round_trip::<Experiment>("experiment"@, value);
}

/// The same over text, as far as it rests on this library: where the text
/// that is written for the envelope of an experiment is read back as that
/// envelope, the experiment is read back from the text.
pub proof fn lemma_experiment_text_round_trip(value: ExperimentView, text: Seq<char>)
    ensures
        json_text(experiment_envelope(value)) == Some(text) && json_document(text) == Some(
            experiment_envelope(value),
        ) ==> experiment_in(json_document(text)->0) == Some(value),
{
    lemma_experiment_envelope(value);
}

} // verus!
