//! What each operation sends: the fields of a query string for a `GET`
//! request, the document of a body for a `POST` request.

use vstd::prelude::*;
use crate::api::client::{Call, ViewType};
use crate::api::id::{ExperimentId, RunId};
use crate::api::run::{Metric, MetricView, Param, ParamView, RunStatus, RunTag, RunTagView};
use crate::json::{entry, json_text, record, Json, JsonView};
use crate::query::query_text;
use crate::wire::{encoded_list, list_to_json};

verus! {

/// What a request carries: the fields of a query string, or the document
/// of a body.
#[derive(Debug)]
pub enum Payload {
    Query(Vec<(String, String)>),
    Body(Json),
}

/// The mathematical value of a [`Payload`].
pub enum PayloadView {
    Query(Seq<(Seq<char>, Seq<char>)>),
    Body(JsonView),
}

impl DeepView for Payload {
    type V = PayloadView;

    open spec fn deep_view(&self) -> PayloadView {
        match self {
            Payload::Query(fields) => PayloadView::Query(fields.deep_view()),
            Payload::Body(doc) => PayloadView::Body(doc.deep_view()),
        }
    }
}

impl PayloadView {
    /// The text of a payload: the query string of its fields, or its
    /// document as JSON. `None` where it cannot be written.
    pub open spec fn written(self) -> Option<Seq<char>> {
        match self {
            PayloadView::Query(fields) => query_text(fields),
            PayloadView::Body(doc) => json_text(doc),
        }
    }
}

/// A string, or `null` for none.
pub open spec fn optional_text(value: Option<Seq<char>>) -> JsonView {
    match value {
        Some(text) => JsonView::Text(text),
        None => JsonView::Null,
    }
}

/// The array of the given identifiers, each as a string.
pub open spec fn id_list(ids: Seq<Seq<char>>) -> JsonView {
    JsonView::List(Seq::new(ids.len(), |i: int| JsonView::Text(ids[i])))
}

impl PayloadView {
    /// What creating the experiment `name` sends: the name, and no place for
    /// artifacts, which leaves the choice to the server.
    pub open spec fn create_experiment(name: Seq<char>) -> PayloadView {
        PayloadView::Body(
            JsonView::Record(
                seq![("name"@, JsonView::Text(name)), ("artifact_location"@, JsonView::Null)],
            ),
        )
    }

    /// What listing the experiments sends: the word of the view type.
    pub open spec fn list_experiments(view_type: ViewType) -> PayloadView {
        PayloadView::Query(seq![("view_type"@, view_type.token())])
    }

    /// What fetching an experiment by its identifier sends.
    pub open spec fn get_experiment(id: Seq<char>) -> PayloadView {
        PayloadView::Query(seq![("experiment_id"@, id)])
    }

    /// What fetching an experiment by its name sends.
    pub open spec fn get_experiment_by_name(name: Seq<char>) -> PayloadView {
        PayloadView::Query(seq![("experiment_name"@, name)])
    }

    /// What deleting an experiment sends.
    pub open spec fn delete_experiment(id: Seq<char>) -> PayloadView {
        PayloadView::Body(JsonView::Record(seq![("experiment_id"@, JsonView::Text(id))]))
    }

    /// What renaming an experiment sends: the identifier, and the new name or
    /// `null`.
    pub open spec fn update_experiment(id: Seq<char>, new_name: Option<Seq<char>>) -> PayloadView {
        PayloadView::Body(
            JsonView::Record(
                seq![
                    ("experiment_id"@, JsonView::Text(id)),
                    ("new_name"@, optional_text(new_name)),
                ],
            ),
        )
    }

    /// What creating a run sends: the experiment, the start time as a number,
    /// and the tags.
    pub open spec fn create_run(
        experiment: Seq<char>,
        start_time: i64,
        tags: Seq<RunTagView>,
    ) -> PayloadView {
        PayloadView::Body(
            JsonView::Record(
                seq![
                    ("experiment_id"@, JsonView::Text(experiment)),
                    ("start_time"@, JsonView::Int(start_time)),
                    ("tags"@, encoded_list::<RunTag>(tags)),
                ],
            ),
        )
    }

    /// What deleting a run sends.
    pub open spec fn delete_run(id: Seq<char>) -> PayloadView {
        PayloadView::Body(JsonView::Record(seq![("run_id"@, JsonView::Text(id))]))
    }

    /// What fetching a run sends.
    pub open spec fn get_run(id: Seq<char>) -> PayloadView {
        PayloadView::Query(seq![("run_id"@, id)])
    }

    /// What updating a run sends: the run, the word of the status, and the
    /// end time as a number.
    pub open spec fn update_run(id: Seq<char>, status: RunStatus, end_time: i64) -> PayloadView {
        PayloadView::Body(
            JsonView::Record(
                seq![
                    ("run_id"@, JsonView::Text(id)),
                    ("status"@, JsonView::Text(status.token())),
                    ("end_time"@, JsonView::Int(end_time)),
                ],
            ),
        )
    }

    /// What a search for runs sends. The order and the page token are `null`
    /// where none is given.
    pub open spec fn search_runs(
        experiment_ids: Seq<Seq<char>>,
        filter: Seq<char>,
        run_view_type: ViewType,
        max_results: i32,
        order_by: Option<Seq<char>>,
        page_token: Option<Seq<char>>,
    ) -> PayloadView {
        PayloadView::Body(
            JsonView::Record(
                seq![
                    ("experiment_ids"@, id_list(experiment_ids)),
                    ("filter"@, JsonView::Text(filter)),
                    ("run_view_type"@, JsonView::Text(run_view_type.token())),
                    ("max_results"@, JsonView::Int(max_results as i64)),
                    ("order_by"@, optional_text(order_by)),
                    ("page_token"@, optional_text(page_token)),
                ],
            ),
        )
    }

    /// What fetching the history of a metric sends.
    pub open spec fn get_metric_history(run: Seq<char>, metric: Seq<char>) -> PayloadView {
        PayloadView::Query(seq![("run_id"@, run), ("metric_key"@, metric)])
    }

    /// What logging a parameter sends.
    pub open spec fn log_param(run: Seq<char>, key: Seq<char>, value: Seq<char>) -> PayloadView {
        PayloadView::Body(
            JsonView::Record(
                seq![
                    ("run_id"@, JsonView::Text(run)),
                    ("key"@, JsonView::Text(key)),
                    ("value"@, JsonView::Text(value)),
                ],
            ),
        )
    }

    /// What logging a point of a metric sends: the value as the JSON number
    /// it is, the time and the step as numbers.
    pub open spec fn log_metric(
        run: Seq<char>,
        key: Seq<char>,
        value: serde_json::Number,
        timestamp: i64,
        step: i64,
    ) -> PayloadView {
        PayloadView::Body(
            JsonView::Record(
                seq![
                    ("run_id"@, JsonView::Text(run)),
                    ("key"@, JsonView::Text(key)),
                    ("value"@, JsonView::Real(value)),
                    ("timestamp"@, JsonView::Int(timestamp)),
                    ("step"@, JsonView::Int(step)),
                ],
            ),
        )
    }

    /// What logging a batch sends: the run, and the metrics, the parameters
    /// and the tags, each as an array.
    pub open spec fn log_batch(
        run: Seq<char>,
        metrics: Seq<MetricView>,
        params: Seq<ParamView>,
        tags: Seq<RunTagView>,
    ) -> PayloadView {
        PayloadView::Body(
            JsonView::Record(
                seq![
                    ("run_id"@, JsonView::Text(run)),
                    ("metrics"@, encoded_list::<Metric>(metrics)),
                    ("params"@, encoded_list::<Param>(params)),
                    ("tags"@, encoded_list::<RunTag>(tags)),
                ],
            ),
        )
    }

    /// What a call sends. Listing the run infos of one experiment sends a
    /// search of that experiment without a filter.
    pub open spec fn of_call(call: Call) -> PayloadView {
        match call {
            Call::CreateExperiment { name } => Self::create_experiment(name),
            Call::ListExperiments { view_type } => Self::list_experiments(view_type),
            Call::GetExperiment { id } => Self::get_experiment(id),
            Call::GetExperimentByName { name } => Self::get_experiment_by_name(name),
            Call::DeleteExperiment { id } => Self::delete_experiment(id),
            Call::UpdateExperiment { id, new_name } => Self::update_experiment(id, new_name),
            Call::CreateRun { experiment, start_time, tags } => Self::create_run(
                experiment,
                start_time,
                tags,
            ),
            Call::DeleteRun { id } => Self::delete_run(id),
            Call::GetRun { id } => Self::get_run(id),
            Call::UpdateRun { id, status, end_time } => Self::update_run(id, status, end_time),
            Call::SearchRuns {
                experiment_ids,
                filter,
                run_view_type,
                max_results,
                order_by,
                page_token,
            } => Self::search_runs(
                experiment_ids,
                filter,
                run_view_type,
                max_results,
                order_by,
                page_token,
            ),
            Call::ListRunInfos { experiment, run_view_type, max_results, order_by, page_token } => {
                Self::search_runs(
                    seq![experiment],
                    Seq::<char>::empty(),
                    run_view_type,
                    max_results,
                    order_by,
                    page_token,
                )
            },
            Call::GetMetricHistory { run, metric } => Self::get_metric_history(run, metric),
            Call::LogParam { run, key, value } => Self::log_param(run, key, value),
            Call::LogMetric { run, key, value, timestamp, step } => Self::log_metric(
                run,
                key,
                value,
                timestamp,
                step,
            ),
            Call::LogBatch { run, metrics, params, tags } => Self::log_batch(
                run,
                metrics,
                params,
                tags,
            ),
        }
    }
}

fn field(name: &str, value: &str) -> (r: (String, String))
    ensures
        r.deep_view() == (name@, value@),
{
    (name.to_owned(), value.to_owned())
}

fn query(fields: Vec<(String, String)>) -> (p: Payload)
    ensures
        p.deep_view() == PayloadView::Query(fields.deep_view()),
{
    Payload::Query(fields)
}

fn body(members: Vec<(String, Json)>) -> (p: Payload)
    ensures
        p.deep_view() == PayloadView::Body(JsonView::Record(members.deep_view())),
{
    Payload::Body(record(members))
}

fn ids_to_json(ids: &[&ExperimentId]) -> (doc: Json)
    ensures
        doc.deep_view() == id_list(ids.deep_view()),
{
    let mut docs: Vec<Json> = Vec::new();
    let mut i: usize = 0;
    while i < ids.len()
        invariant
            i <= ids.len(),
            docs.len() == i,
            forall|k: int|
                0 <= k < i ==> (#[trigger] docs@[k]).deep_view() == JsonView::Text(ids@[k]@),
        decreases ids.len() - i,
    {
        docs.push(Json::of_text(ids[i].as_ref()));
        i = i + 1;
    }
    let doc = Json::List(docs);
    assert(doc.deep_view()->List_0 =~= id_list(ids.deep_view())->List_0);
    doc
}

impl Payload {
    /// Builds what creating the experiment `name` sends.
    pub fn create_experiment(name: &str) -> (p: Payload)
        ensures
            p.deep_view() == PayloadView::create_experiment(name@),
    {
        let mut members: Vec<(String, Json)> = Vec::new();
        members.push(entry("name", Json::of_text(name)));
        members.push(entry("artifact_location", Json::Null));
        assert(members.deep_view() =~= PayloadView::create_experiment(name@)->Body_0->Record_0);
        body(members)
    }

    /// Builds what listing the experiments sends.
    pub fn list_experiments(view_type: ViewType) -> (p: Payload)
        ensures
            p.deep_view() == PayloadView::list_experiments(view_type),
    {
        let mut fields: Vec<(String, String)> = Vec::new();
        fields.push(field("view_type", view_type.as_str()));
        assert(fields.deep_view() =~= PayloadView::list_experiments(view_type)->Query_0);
        query(fields)
    }

    /// Builds what fetching an experiment by its identifier sends.
    pub fn get_experiment(id: &ExperimentId) -> (p: Payload)
        ensures
            p.deep_view() == PayloadView::get_experiment(id@),
    {
        let mut fields: Vec<(String, String)> = Vec::new();
        fields.push(field("experiment_id", id.as_ref()));
        assert(fields.deep_view() =~= PayloadView::get_experiment(id@)->Query_0);
        query(fields)
    }

    /// Builds what fetching an experiment by its name sends.
    pub fn get_experiment_by_name(name: &str) -> (p: Payload)
        ensures
            p.deep_view() == PayloadView::get_experiment_by_name(name@),
    {
        let mut fields: Vec<(String, String)> = Vec::new();
        fields.push(field("experiment_name", name));
        assert(fields.deep_view() =~= PayloadView::get_experiment_by_name(name@)->Query_0);
        query(fields)
    }

    /// Builds what deleting an experiment sends.
    pub fn delete_experiment(id: &ExperimentId) -> (p: Payload)
        ensures
            p.deep_view() == PayloadView::delete_experiment(id@),
    {
        let mut members: Vec<(String, Json)> = Vec::new();
        members.push(entry("experiment_id", Json::of_text(id.as_ref())));
        assert(members.deep_view() =~= PayloadView::delete_experiment(id@)->Body_0->Record_0);
        body(members)
    }

    /// Builds what renaming an experiment sends.
    pub fn update_experiment(id: &ExperimentId, new_name: Option<&str>) -> (p: Payload)
        ensures
            p.deep_view() == PayloadView::update_experiment(id@, new_name.deep_view()),
    {
        let mut members: Vec<(String, Json)> = Vec::new();
        members.push(entry("experiment_id", Json::of_text(id.as_ref())));
        members.push(entry("new_name", Json::of_optional_text(new_name)));
        assert(members.deep_view() =~= PayloadView::update_experiment(
            id@,
            new_name.deep_view(),
        )->Body_0->Record_0);
        body(members)
    }

    /// Builds what creating a run sends.
    pub fn create_run(experiment: &ExperimentId, start_time: i64, tags: &[RunTag]) -> (p: Payload)
        ensures
            p.deep_view() == PayloadView::create_run(experiment@, start_time, tags.deep_view()),
    {
        let mut members: Vec<(String, Json)> = Vec::new();
        members.push(entry("experiment_id", Json::of_text(experiment.as_ref())));
        members.push(entry("start_time", Json::Int(start_time)));
        members.push(entry("tags", list_to_json(tags)));
        assert(members.deep_view() =~= PayloadView::create_run(
            experiment@,
            start_time,
            tags.deep_view(),
        )->Body_0->Record_0);
        body(members)
    }

    /// Builds what deleting a run sends.
    pub fn delete_run(id: &RunId) -> (p: Payload)
        ensures
            p.deep_view() == PayloadView::delete_run(id@),
    {
        let mut members: Vec<(String, Json)> = Vec::new();
        members.push(entry("run_id", Json::of_text(id.as_ref())));
        assert(members.deep_view() =~= PayloadView::delete_run(id@)->Body_0->Record_0);
        body(members)
    }

    /// Builds what fetching a run sends.
    pub fn get_run(id: &RunId) -> (p: Payload)
        ensures
            p.deep_view() == PayloadView::get_run(id@),
    {
        let mut fields: Vec<(String, String)> = Vec::new();
        fields.push(field("run_id", id.as_ref()));
        assert(fields.deep_view() =~= PayloadView::get_run(id@)->Query_0);
        query(fields)
    }

    /// Builds what updating a run sends.
    pub fn update_run(id: &RunId, status: RunStatus, end_time: i64) -> (p: Payload)
        ensures
            p.deep_view() == PayloadView::update_run(id@, status, end_time),
    {
        let mut members: Vec<(String, Json)> = Vec::new();
        members.push(entry("run_id", Json::of_text(id.as_ref())));
        members.push(entry("status", Json::of_text(status.as_str())));
        members.push(entry("end_time", Json::Int(end_time)));
        assert(members.deep_view() =~= PayloadView::update_run(
            id@,
            status,
            end_time,
        )->Body_0->Record_0);
        body(members)
    }

    /// Builds what a search for runs sends.
    pub fn search_runs(
        experiment_ids: &[&ExperimentId],
        filter: &str,
        run_view_type: ViewType,
        max_results: i32,
        order_by: Option<&str>,
        page_token: Option<&str>,
    ) -> (p: Payload)
        ensures
            p.deep_view() == PayloadView::search_runs(
                experiment_ids.deep_view(),
                filter@,
                run_view_type,
                max_results,
                order_by.deep_view(),
                page_token.deep_view(),
            ),
    {
        let mut members: Vec<(String, Json)> = Vec::new();
        members.push(entry("experiment_ids", ids_to_json(experiment_ids)));
        members.push(entry("filter", Json::of_text(filter)));
        members.push(entry("run_view_type", Json::of_text(run_view_type.as_str())));
        members.push(entry("max_results", Json::Int(max_results as i64)));
        members.push(entry("order_by", Json::of_optional_text(order_by)));
        members.push(entry("page_token", Json::of_optional_text(page_token)));
        assert(members.deep_view() =~= PayloadView::search_runs(
            experiment_ids.deep_view(),
            filter@,
            run_view_type,
            max_results,
            order_by.deep_view(),
            page_token.deep_view(),
        )->Body_0->Record_0);
        body(members)
    }

    /// Builds what fetching the history of a metric sends.
    pub fn get_metric_history(run: &RunId, metric: &str) -> (p: Payload)
        ensures
            p.deep_view() == PayloadView::get_metric_history(run@, metric@),
    {
        let mut fields: Vec<(String, String)> = Vec::new();
        fields.push(field("run_id", run.as_ref()));
        fields.push(field("metric_key", metric));
        assert(fields.deep_view() =~= PayloadView::get_metric_history(run@, metric@)->Query_0);
        query(fields)
    }

    /// Builds what logging a parameter sends.
    pub fn log_param(run: &RunId, key: &str, value: &str) -> (p: Payload)
        ensures
            p.deep_view() == PayloadView::log_param(run@, key@, value@),
    {
        let mut members: Vec<(String, Json)> = Vec::new();
        members.push(entry("run_id", Json::of_text(run.as_ref())));
        members.push(entry("key", Json::of_text(key)));
        members.push(entry("value", Json::of_text(value)));
        assert(members.deep_view() =~= PayloadView::log_param(
            run@,
            key@,
            value@,
        )->Body_0->Record_0);
        body(members)
    }

    /// Builds what logging a point of a metric sends.
    pub fn log_metric(
        run: &RunId,
        key: &str,
        value: serde_json::Number,
        timestamp: i64,
        step: i64,
    ) -> (p: Payload)
        ensures
            p.deep_view() == PayloadView::log_metric(run@, key@, value, timestamp, step),
    {
        let mut members: Vec<(String, Json)> = Vec::new();
        members.push(entry("run_id", Json::of_text(run.as_ref())));
        members.push(entry("key", Json::of_text(key)));
        members.push(entry("value", Json::Real(value)));
        members.push(entry("timestamp", Json::Int(timestamp)));
        members.push(entry("step", Json::Int(step)));
        assert(members.deep_view() =~= PayloadView::log_metric(
            run@,
            key@,
            value,
            timestamp,
            step,
        )->Body_0->Record_0);
        body(members)
    }

    /// Builds what logging a batch sends.
    pub fn log_batch(run: &RunId, metrics: &[Metric], params: &[Param], tags: &[RunTag]) -> (p:
        Payload)
        ensures
            p.deep_view() == PayloadView::log_batch(
                run@,
                metrics.deep_view(),
                params.deep_view(),
                tags.deep_view(),
            ),
    {
        let mut members: Vec<(String, Json)> = Vec::new();
        members.push(entry("run_id", Json::of_text(run.as_ref())));
        members.push(entry("metrics", list_to_json(metrics)));
        members.push(entry("params", list_to_json(params)));
        members.push(entry("tags", list_to_json(tags)));
        assert(members.deep_view() =~= PayloadView::log_batch(
            run@,
            metrics.deep_view(),
            params.deep_view(),
            tags.deep_view(),
        )->Body_0->Record_0);
        body(members)
    }
}

} // verus!
