//! Runs and what is logged under them.

use vstd::prelude::*;
use crate::api::id::{ExperimentId, RunId};
use crate::json::{
    entry, integer_number, lemma_member_at, number_of, record, Json, JsonView,
};
use crate::text::{int_text, int_to_text, lemma_i64_text_round_trip, same, text_i64, text_to_int};
use crate::wire::{
    decoded_int, decoded_member, decoded_optional_list, decoded_text, encoded_optional_list,
    int_from_json, lemma_list_round_trip, member_from_json, optional_list_from_json,
    optional_list_to_json, text_from_json, Wire,
};

verus! {

/// A parameter of a run: a key with its value.
#[derive(Debug, Clone, PartialEq, Eq)]
pub struct Param {
    pub key: String,
    pub value: String,
}

/// The mathematical value of a [`Param`].
pub struct ParamView {
    pub key: Seq<char>,
    pub value: Seq<char>,
}

impl DeepView for Param {
    type V = ParamView;

    open spec fn deep_view(&self) -> ParamView {
        ParamView { key: self.key@, value: self.value@ }
    }
}

impl View for Param {
    type V = ParamView;

    open spec fn view(&self) -> ParamView {
        self.deep_view()
    }
}

/// The members of the object that stands for a key with its value.
pub open spec fn pair_members(key: Seq<char>, value: Seq<char>) -> Seq<(Seq<char>, JsonView)> {
    seq![("key"@, JsonView::Text(key)), ("value"@, JsonView::Text(value))]
}

/// Reading the object of a key with its value gives both back.
pub proof fn lemma_pair_round_trip(key: Seq<char>, value: Seq<char>)
    ensures
        JsonView::Record(pair_members(key, value)).member("key"@) == Some(JsonView::Text(key)),
        JsonView::Record(pair_members(key, value)).member("value"@) == Some(JsonView::Text(value)),
{
    reveal_strlit("key");
    reveal_strlit("value");
    let members = pair_members(key, value);
    assert("key"@.len() != "value"@.len());
    lemma_member_at(members, "key"@, 0);
    lemma_member_at(members, "value"@, 1);
}

/// Writes a key with its value as an object.
pub fn pair_to_json(key: &str, value: &str) -> (doc: Json)
    ensures
        doc.deep_view() == JsonView::Record(pair_members(key@, value@)),
{
    let mut members: Vec<(String, Json)> = Vec::new();
    members.push(entry("key", Json::of_text(key)));
    members.push(entry("value", Json::of_text(value)));
    assert(members.deep_view() =~= pair_members(key@, value@));
    record(members)
}

impl Wire for Param {
    open spec fn encoded(value: ParamView) -> JsonView {
        JsonView::Record(pair_members(value.key, value.value))
    }

    open spec fn decoded(doc: JsonView) -> Option<ParamView> {
        match (decoded_text(doc.member("key"@)), decoded_text(doc.member("value"@))) {
            (Some(key), Some(value)) => Some(ParamView { key, value }),
            _ => None,
        }
    }

    proof fn round_trip(value: ParamView) {
        lemma_pair_round_trip(value.key, value.value);
    }

    fn to_json(&self) -> (doc: Json) {
        pair_to_json(self.key.as_str(), self.value.as_str())
    }

    fn from_json(doc: &Json) -> (r: Option<Self>) {
        let key = text_from_json(doc.member("key"));
        let value = text_from_json(doc.member("value"));
        match (key, value) {
            (Some(key), Some(value)) => Some(Param { key, value }),
            _ => None,
        }
    }
}

/// A tag of a run: a key with its value.
#[derive(Debug, Clone, PartialEq, Eq)]
pub struct RunTag {
    pub key: String,
    pub value: String,
}

/// The mathematical value of a [`RunTag`].
pub struct RunTagView {
    pub key: Seq<char>,
    pub value: Seq<char>,
}

impl DeepView for RunTag {
    type V = RunTagView;

    open spec fn deep_view(&self) -> RunTagView {
        RunTagView { key: self.key@, value: self.value@ }
    }
}

impl View for RunTag {
    type V = RunTagView;

    open spec fn view(&self) -> RunTagView {
        self.deep_view()
    }
}

impl Wire for RunTag {
    open spec fn encoded(value: RunTagView) -> JsonView {
        JsonView::Record(pair_members(value.key, value.value))
    }

    open spec fn decoded(doc: JsonView) -> Option<RunTagView> {
        match (decoded_text(doc.member("key"@)), decoded_text(doc.member("value"@))) {
            (Some(key), Some(value)) => Some(RunTagView { key, value }),
            _ => None,
        }
    }

    proof fn round_trip(value: RunTagView) {
        lemma_pair_round_trip(value.key, value.value);
    }

    fn to_json(&self) -> (doc: Json) {
        pair_to_json(self.key.as_str(), self.value.as_str())
    }

    fn from_json(doc: &Json) -> (r: Option<Self>) {
        let key = text_from_json(doc.member("key"));
        let value = text_from_json(doc.member("value"));
        match (key, value) {
            (Some(key), Some(value)) => Some(RunTag { key, value }),
            _ => None,
        }
    }
}

/// One point of a metric: the value that a key had at a time and a step.
///
/// The value is a JSON number, held as `serde_json` holds it; this library
/// carries it and never computes with it.
#[derive(Debug, Clone, PartialEq)]
pub struct Metric {
    pub key: String,
    pub value: serde_json::Number,
    pub timestamp: i64,
    pub step: i64,
}

/// The mathematical value of a [`Metric`].
pub struct MetricView {
    pub key: Seq<char>,
    pub value: serde_json::Number,
    pub timestamp: i64,
    pub step: i64,
}

impl DeepView for Metric {
    type V = MetricView;

    open spec fn deep_view(&self) -> MetricView {
        MetricView {
            key: self.key@,
            value: self.value,
            timestamp: self.timestamp,
            step: self.step,
        }
    }
}

impl View for Metric {
    type V = MetricView;

    open spec fn view(&self) -> MetricView {
        self.deep_view()
    }
}

/// The number that a member holds: a number that is no 64-bit integer as
/// it stands, a 64-bit integer as the number that `serde_json` makes of it.
pub open spec fn decoded_number(doc: Option<JsonView>) -> Option<serde_json::Number> {
    match doc {
        Some(JsonView::Real(n)) => Some(n),
        Some(JsonView::Int(i)) => Some(integer_number(i)),
        _ => None,
    }
}

/// Reads the number of a member that must be there.
pub fn number_from_json(doc: Option<&Json>) -> (r: Option<serde_json::Number>)
    ensures
        r == decoded_number(doc.deep_view()),
{
    match doc {
        Some(Json::Real(n)) => Some(n.clone()),
        Some(Json::Int(i)) => Some(number_of(*i)),
        _ => None,
    }
}

/// The members of the object that stands for a metric.
pub open spec fn metric_members(value: MetricView) -> Seq<(Seq<char>, JsonView)> {
    seq![
        ("key"@, JsonView::Text(value.key)),
        ("value"@, JsonView::Real(value.value)),
        ("timestamp"@, JsonView::Int(value.timestamp)),
        ("step"@, JsonView::Int(value.step)),
    ]
}

impl Wire for Metric {
    open spec fn encoded(value: MetricView) -> JsonView {
        JsonView::Record(metric_members(value))
    }

    open spec fn decoded(doc: JsonView) -> Option<MetricView> {
        match (
            decoded_text(doc.member("key"@)),
            decoded_number(doc.member("value"@)),
            decoded_int(doc.member("timestamp"@)),
            decoded_int(doc.member("step"@)),
        ) {
            (Some(key), Some(value), Some(timestamp), Some(step)) => Some(
                MetricView { key, value, timestamp, step },
            ),
            _ => None,
        }
    }

    proof fn round_trip(value: MetricView) {
        reveal_strlit("key");
        reveal_strlit("value");
        reveal_strlit("timestamp");
        reveal_strlit("step");
        assert("key"@.len() == 3);
        assert("value"@.len() == 5);
        assert("timestamp"@.len() == 9);
        assert("step"@.len() == 4);
        let members = metric_members(value);
        lemma_member_at(members, "key"@, 0);
        lemma_member_at(members, "value"@, 1);
        lemma_member_at(members, "timestamp"@, 2);
        lemma_member_at(members, "step"@, 3);
    }

    fn to_json(&self) -> (doc: Json) {
        let mut members: Vec<(String, Json)> = Vec::new();
        members.push(entry("key", Json::of_text(self.key.as_str())));
        members.push(entry("value", Json::Real(self.value.clone())));
        members.push(entry("timestamp", Json::Int(self.timestamp)));
        members.push(entry("step", Json::Int(self.step)));
        assert(members.deep_view() =~= metric_members(self.deep_view()));
        record(members)
    }

    fn from_json(doc: &Json) -> (r: Option<Self>) {
        let key = text_from_json(doc.member("key"));
        let value = number_from_json(doc.member("value"));
        let timestamp = int_from_json(doc.member("timestamp"));
        let step = int_from_json(doc.member("step"));
        match (key, value, timestamp, step) {
            (Some(key), Some(value), Some(timestamp), Some(step)) => Some(
                Metric { key, value, timestamp, step },
            ),
            _ => None,
        }
    }
}

/// The state of a run.
#[derive(Debug, Copy, Clone, PartialEq, Eq, Structural)]
pub enum RunStatus {
    Running,
    Scheduled,
    Finished,
    Failed,
    Killed,
}

impl DeepView for RunStatus {
    type V = RunStatus;

    open spec fn deep_view(&self) -> RunStatus {
        *self
    }
}

impl View for RunStatus {
    type V = RunStatus;

    open spec fn view(&self) -> RunStatus {
        *self
    }
}

impl RunStatus {
    /// The word that stands for a status on the wire.
    pub open spec fn token(self) -> Seq<char> {
        match self {
            RunStatus::Running => "RUNNING"@,
            RunStatus::Scheduled => "SCHEDULED"@,
            RunStatus::Finished => "FINISHED"@,
            RunStatus::Failed => "FAILED"@,
            RunStatus::Killed => "KILLED"@,
        }
    }

    /// The status that a word stands for; `None` for any other word.
    pub open spec fn of_token(word: Seq<char>) -> Option<RunStatus> {
        if word == "RUNNING"@ {
            Some(RunStatus::Running)
        } else if word == "SCHEDULED"@ {
            Some(RunStatus::Scheduled)
        } else if word == "FINISHED"@ {
            Some(RunStatus::Finished)
        } else if word == "FAILED"@ {
            Some(RunStatus::Failed)
        } else if word == "KILLED"@ {
            Some(RunStatus::Killed)
        } else {
            None
        }
    }

    /// Each status is read back from its own word.
    pub proof fn lemma_token_round_trip(self)
        ensures
            Self::of_token(self.token()) == Some(self),
    {
        reveal_strlit("RUNNING");
        reveal_strlit("SCHEDULED");
        reveal_strlit("FINISHED");
        reveal_strlit("FAILED");
        reveal_strlit("KILLED");
        assert("RUNNING"@.len() == 7);
        assert("SCHEDULED"@.len() == 9);
        assert("FINISHED"@.len() == 8);
        assert("FAILED"@[0] == 'F');
        assert("KILLED"@[0] == 'K');
    }

    /// The word that stands for this status on the wire.
    pub fn as_str(&self) -> (r: &'static str)
        ensures
            r@ == self.token(),
    {
        match self {
            RunStatus::Running => "RUNNING",
            RunStatus::Scheduled => "SCHEDULED",
            RunStatus::Finished => "FINISHED",
            RunStatus::Failed => "FAILED",
            RunStatus::Killed => "KILLED",
        }
    }

    /// Reads a status from its word.
    pub fn parse(word: &str) -> (r: Option<RunStatus>)
        ensures
            r == Self::of_token(word@),
    {
        if same(word, "RUNNING") {
            Some(RunStatus::Running)
        } else if same(word, "SCHEDULED") {
            Some(RunStatus::Scheduled)
        } else if same(word, "FINISHED") {
            Some(RunStatus::Finished)
        } else if same(word, "FAILED") {
            Some(RunStatus::Failed)
        } else if same(word, "KILLED") {
            Some(RunStatus::Killed)
        } else {
            None
        }
    }
}

impl Wire for RunStatus {
    open spec fn encoded(value: RunStatus) -> JsonView {
        JsonView::Text(value.token())
    }

    open spec fn decoded(doc: JsonView) -> Option<RunStatus> {
        match doc {
            JsonView::Text(word) => RunStatus::of_token(word),
            _ => None,
        }
    }

    proof fn round_trip(value: RunStatus) {
        value.lemma_token_round_trip();
    }

    fn to_json(&self) -> (doc: Json) {
        Json::of_text(self.as_str())
    }

    fn from_json(doc: &Json) -> (r: Option<Self>) {
        match doc {
            Json::Text(word) => RunStatus::parse(word.as_str()),
            _ => None,
        }
    }
}

/// A time written as the text of its decimal notation.
pub open spec fn encoded_time(time: i64) -> JsonView {
    JsonView::Text(int_text(time as int))
}

/// A time that may be missing: its decimal notation, or `null`.
pub open spec fn encoded_optional_time(time: Option<i64>) -> JsonView {
    match time {
        Some(t) => encoded_time(t),
        None => JsonView::Null,
    }
}

/// The time of a member that must be there and hold the decimal notation
/// of a 64-bit integer.
pub open spec fn decoded_time(doc: Option<JsonView>) -> Option<i64> {
    match doc {
        Some(JsonView::Text(s)) => text_i64(s),
        _ => None,
    }
}

/// The time of a member that may be missing: no member, or one that holds
/// `null`, stands for no time; any other must hold the decimal notation of
/// a 64-bit integer.
pub open spec fn decoded_optional_time(doc: Option<JsonView>) -> Option<Option<i64>> {
    match doc {
        None => Some(None),
        Some(JsonView::Null) => Some(None),
        Some(JsonView::Text(s)) => match text_i64(s) {
            Some(t) => Some(Some(t)),
            None => None,
        },
        Some(_) => None,
    }
}

/// Writes a time as the text of its decimal notation.
pub fn time_to_json(time: i64) -> (doc: Json)
    ensures
        doc.deep_view() == encoded_time(time),
{
    Json::Text(int_to_text(time))
}

/// Writes a time that may be missing.
pub fn optional_time_to_json(time: Option<i64>) -> (doc: Json)
    ensures
        doc.deep_view() == encoded_optional_time(time),
{
    match time {
        Some(t) => time_to_json(t),
        None => Json::Null,
    }
}

/// Reads the time of a member that must be there.
pub fn time_from_json(doc: Option<&Json>) -> (r: Option<i64>)
    ensures
        r == decoded_time(doc.deep_view()),
{
    match doc {
        Some(Json::Text(s)) => text_to_int(s.as_str()),
        _ => None,
    }
}

/// Reads the time of a member that may be missing.
pub fn optional_time_from_json(doc: Option<&Json>) -> (r: Option<Option<i64>>)
    ensures
        r == decoded_optional_time(doc.deep_view()),
{
    match doc {
        None => Some(None),
        Some(Json::Null) => Some(None),
        Some(Json::Text(s)) => match text_to_int(s.as_str()) {
            Some(t) => Some(Some(t)),
            None => None,
        },
        Some(_) => None,
    }
}

/// What the server knows of a run besides what was logged under it.
#[derive(Debug, Clone, PartialEq, Eq)]
pub struct RunInfo {
    pub run_id: RunId,
    pub run_uuid: String,
    pub experiment_id: ExperimentId,
    pub user_id: String,
    pub status: RunStatus,
    pub start_time: i64,
    pub end_time: Option<i64>,
    pub artifact_uri: String,
    pub lifecycle_stage: String,
}

/// The mathematical value of a [`RunInfo`].
pub struct RunInfoView {
    pub run_id: Seq<char>,
    pub run_uuid: Seq<char>,
    pub experiment_id: Seq<char>,
    pub user_id: Seq<char>,
    pub status: RunStatus,
    pub start_time: i64,
    pub end_time: Option<i64>,
    pub artifact_uri: Seq<char>,
    pub lifecycle_stage: Seq<char>,
}

impl DeepView for RunInfo {
    type V = RunInfoView;

    open spec fn deep_view(&self) -> RunInfoView {
        RunInfoView {
            run_id: self.run_id@,
            run_uuid: self.run_uuid@,
            experiment_id: self.experiment_id@,
            user_id: self.user_id@,
            status: self.status,
            start_time: self.start_time,
            end_time: self.end_time,
            artifact_uri: self.artifact_uri@,
            lifecycle_stage: self.lifecycle_stage@,
        }
    }
}

impl View for RunInfo {
    type V = RunInfoView;

    open spec fn view(&self) -> RunInfoView {
        self.deep_view()
    }
}

/// The members of the object that stands for what is known of a run.
/// Both times are written as text.
pub open spec fn run_info_members(value: RunInfoView) -> Seq<(Seq<char>, JsonView)> {
    seq![
        ("run_id"@, JsonView::Text(value.run_id)),
        ("run_uuid"@, JsonView::Text(value.run_uuid)),
        ("experiment_id"@, JsonView::Text(value.experiment_id)),
        ("user_id"@, JsonView::Text(value.user_id)),
        ("status"@, JsonView::Text(value.status.token())),
        ("start_time"@, encoded_time(value.start_time)),
        ("end_time"@, encoded_optional_time(value.end_time)),
        ("artifact_uri"@, JsonView::Text(value.artifact_uri)),
        ("lifecycle_stage"@, JsonView::Text(value.lifecycle_stage)),
    ]
}

impl Wire for RunInfo {
    open spec fn encoded(value: RunInfoView) -> JsonView {
        JsonView::Record(run_info_members(value))
    }

    open spec fn decoded(doc: JsonView) -> Option<RunInfoView> {
        match (
            decoded_text(doc.member("run_id"@)),
            decoded_text(doc.member("run_uuid"@)),
            decoded_text(doc.member("experiment_id"@)),
            decoded_text(doc.member("user_id"@)),
            decoded_member::<RunStatus>(doc.member("status"@)),
            decoded_time(doc.member("start_time"@)),
            decoded_optional_time(doc.member("end_time"@)),
            decoded_text(doc.member("artifact_uri"@)),
            decoded_text(doc.member("lifecycle_stage"@)),
        ) {
            (
                Some(run_id),
                Some(run_uuid),
                Some(experiment_id),
                Some(user_id),
                Some(status),
                Some(start_time),
                Some(end_time),
                Some(artifact_uri),
                Some(lifecycle_stage),
            ) => Some(
                RunInfoView {
                    run_id,
                    run_uuid,
                    experiment_id,
                    user_id,
                    status,
                    start_time,
                    end_time,
                    artifact_uri,
                    lifecycle_stage,
                },
            ),
            _ => None,
        }
    }

    proof fn round_trip(value: RunInfoView) {
        reveal_strlit("run_id");
        reveal_strlit("run_uuid");
        reveal_strlit("experiment_id");
        reveal_strlit("user_id");
        reveal_strlit("status");
        reveal_strlit("start_time");
        reveal_strlit("end_time");
        reveal_strlit("artifact_uri");
        reveal_strlit("lifecycle_stage");
        assert("run_id"@.len() == 6 && "run_id"@[0] == 'r');
        assert("run_uuid"@.len() == 8 && "run_uuid"@[0] == 'r');
        assert("experiment_id"@.len() == 13);
        assert("user_id"@.len() == 7);
        assert("status"@.len() == 6 && "status"@[0] == 's');
        assert("start_time"@.len() == 10);
        assert("end_time"@.len() == 8 && "end_time"@[0] == 'e');
        assert("artifact_uri"@.len() == 12);
        assert("lifecycle_stage"@.len() == 15);
        let members = run_info_members(value);
        lemma_member_at(members, "run_id"@, 0);
        lemma_member_at(members, "run_uuid"@, 1);
        lemma_member_at(members, "experiment_id"@, 2);
        lemma_member_at(members, "user_id"@, 3);
        lemma_member_at(members, "status"@, 4);
        lemma_member_at(members, "start_time"@, 5);
        lemma_member_at(members, "end_time"@, 6);
        lemma_member_at(members, "artifact_uri"@, 7);
        lemma_member_at(members, "lifecycle_stage"@, 8);
        value.status.lemma_token_round_trip();
        lemma_i64_text_round_trip(value.start_time);
        if let Some(t) = value.end_time {
            lemma_i64_text_round_trip(t);
        }
    }

    fn to_json(&self) -> (doc: Json) {
        let mut members: Vec<(String, Json)> = Vec::new();
        members.push(entry("run_id", Json::of_text(self.run_id.as_ref())));
        members.push(entry("run_uuid", Json::of_text(self.run_uuid.as_str())));
        members.push(entry("experiment_id", Json::of_text(self.experiment_id.as_ref())));
        members.push(entry("user_id", Json::of_text(self.user_id.as_str())));
        members.push(entry("status", Json::of_text(self.status.as_str())));
        members.push(entry("start_time", time_to_json(self.start_time)));
        members.push(entry("end_time", optional_time_to_json(self.end_time)));
        members.push(entry("artifact_uri", Json::of_text(self.artifact_uri.as_str())));
        members.push(entry("lifecycle_stage", Json::of_text(self.lifecycle_stage.as_str())));
        assert(members.deep_view() =~= run_info_members(self.deep_view()));
        record(members)
    }

    fn from_json(doc: &Json) -> (r: Option<Self>) {
        let run_id = text_from_json(doc.member("run_id"));
        let run_uuid = text_from_json(doc.member("run_uuid"));
        let experiment_id = text_from_json(doc.member("experiment_id"));
        let user_id = text_from_json(doc.member("user_id"));
        let status = member_from_json::<RunStatus>(doc.member("status"));
        let start_time = time_from_json(doc.member("start_time"));
        let end_time = optional_time_from_json(doc.member("end_time"));
        let artifact_uri = text_from_json(doc.member("artifact_uri"));
        let lifecycle_stage = text_from_json(doc.member("lifecycle_stage"));
        match (
            run_id,
            run_uuid,
            experiment_id,
            user_id,
            status,
            start_time,
            end_time,
            artifact_uri,
            lifecycle_stage,
        ) {
            (
                Some(run_id),
                Some(run_uuid),
                Some(experiment_id),
                Some(user_id),
                Some(status),
                Some(start_time),
                Some(end_time),
                Some(artifact_uri),
                Some(lifecycle_stage),
            ) => Some(
                RunInfo {
                    run_id: RunId::new(run_id),
                    run_uuid,
                    experiment_id: ExperimentId::new(experiment_id),
                    user_id,
                    status,
                    start_time,
                    end_time,
                    artifact_uri,
                    lifecycle_stage,
                },
            ),
            _ => None,
        }
    }
}

/// What was logged under a run. A collection is `None` until something
/// was logged to it.
#[derive(Debug, Clone, PartialEq)]
pub struct RunData {
    pub metrics: Option<Vec<Metric>>,
    pub params: Option<Vec<Param>>,
    pub tags: Option<Vec<RunTag>>,
}

/// The mathematical value of a [`RunData`].
pub struct RunDataView {
    pub metrics: Option<Seq<MetricView>>,
    pub params: Option<Seq<ParamView>>,
    pub tags: Option<Seq<RunTagView>>,
}

impl DeepView for RunData {
    type V = RunDataView;

    open spec fn deep_view(&self) -> RunDataView {
        RunDataView {
            metrics: self.metrics.deep_view(),
            params: self.params.deep_view(),
            tags: self.tags.deep_view(),
        }
    }
}

impl View for RunData {
    type V = RunDataView;

    open spec fn view(&self) -> RunDataView {
        self.deep_view()
    }
}

/// The members of the object that stands for what was logged under a run.
pub open spec fn run_data_members(value: RunDataView) -> Seq<(Seq<char>, JsonView)> {
    seq![
        ("metrics"@, encoded_optional_list::<Metric>(value.metrics)),
        ("params"@, encoded_optional_list::<Param>(value.params)),
        ("tags"@, encoded_optional_list::<RunTag>(value.tags)),
    ]
}

impl Wire for RunData {
    open spec fn encoded(value: RunDataView) -> JsonView {
        JsonView::Record(run_data_members(value))
    }

    open spec fn decoded(doc: JsonView) -> Option<RunDataView> {
        match (
            decoded_optional_list::<Metric>(doc.member("metrics"@)),
            decoded_optional_list::<Param>(doc.member("params"@)),
            decoded_optional_list::<RunTag>(doc.member("tags"@)),
        ) {
            (Some(metrics), Some(params), Some(tags)) => Some(
                RunDataView { metrics, params, tags },
            ),
            _ => None,
        }
    }

    proof fn round_trip(value: RunDataView) {
        reveal_strlit("metrics");
        reveal_strlit("params");
        reveal_strlit("tags");
        assert("metrics"@.len() == 7);
        assert("params"@.len() == 6);
        assert("tags"@.len() == 4);
        let members = run_data_members(value);
        lemma_member_at(members, "metrics"@, 0);
        lemma_member_at(members, "params"@, 1);
        lemma_member_at(members, "tags"@, 2);
        if let Some(metrics) = value.metrics {
            lemma_list_round_trip::<Metric>(metrics);
        }
        if let Some(params) = value.params {
            lemma_list_round_trip::<Param>(params);
        }
        if let Some(tags) = value.tags {
            lemma_list_round_trip::<RunTag>(tags);
        }
    }

    fn to_json(&self) -> (doc: Json) {
        let mut members: Vec<(String, Json)> = Vec::new();
        members.push(entry("metrics", optional_list_to_json(&self.metrics)));
        members.push(entry("params", optional_list_to_json(&self.params)));
        members.push(entry("tags", optional_list_to_json(&self.tags)));
        assert(members.deep_view() =~= run_data_members(self.deep_view()));
        record(members)
    }

    fn from_json(doc: &Json) -> (r: Option<Self>) {
        let metrics = optional_list_from_json::<Metric>(doc.member("metrics"));
        let params = optional_list_from_json::<Param>(doc.member("params"));
        let tags = optional_list_from_json::<RunTag>(doc.member("tags"));
        match (metrics, params, tags) {
            (Some(metrics), Some(params), Some(tags)) => Some(RunData { metrics, params, tags }),
            _ => None,
        }
    }
}

/// A run: what the server knows of it, and what was logged under it.
#[derive(Debug, Clone, PartialEq)]
pub struct Run {
    pub info: RunInfo,
    pub data: RunData,
}

/// The mathematical value of a [`Run`].
pub struct RunView {
    pub info: RunInfoView,
    pub data: RunDataView,
}

impl DeepView for Run {
    type V = RunView;

    open spec fn deep_view(&self) -> RunView {
        RunView { info: self.info.deep_view(), data: self.data.deep_view() }
    }
}

impl View for Run {
    type V = RunView;

    open spec fn view(&self) -> RunView {
        self.deep_view()
    }
}

/// The members of the object that stands for a run.
pub open spec fn run_members(value: RunView) -> Seq<(Seq<char>, JsonView)> {
    seq![("info"@, RunInfo::encoded(value.info)), ("data"@, RunData::encoded(value.data))]
}

impl Wire for Run {
    open spec fn encoded(value: RunView) -> JsonView {
        JsonView::Record(run_members(value))
    }

    open spec fn decoded(doc: JsonView) -> Option<RunView> {
        match (
            decoded_member::<RunInfo>(doc.member("info"@)),
            decoded_member::<RunData>(doc.member("data"@)),
        ) {
            (Some(info), Some(data)) => Some(RunView { info, data }),
            _ => None,
        }
    }

    proof fn round_trip(value: RunView) {
        reveal_strlit("info");
        reveal_strlit("data");
        assert("info"@[0] == 'i');
        assert("data"@[0] == 'd');
        let members = run_members(value);
        lemma_member_at(members, "info"@, 0);
        lemma_member_at(members, "data"@, 1);
        RunInfo::round_trip(value.info);
        RunData::round_trip(value.data);
    }

    fn to_json(&self) -> (doc: Json) {
        let mut members: Vec<(String, Json)> = Vec::new();
        members.push(entry("info", self.info.to_json()));
        members.push(entry("data", self.data.to_json()));
        assert(members.deep_view() =~= run_members(self.deep_view()));
        record(members)
    }

    fn from_json(doc: &Json) -> (r: Option<Self>) {
        let info = member_from_json::<RunInfo>(doc.member("info"));
        let data = member_from_json::<RunData>(doc.member("data"));
        match (info, data) {
            (Some(info), Some(data)) => Some(Run { info, data }),
            _ => None,
        }
    }
}

} // verus!
