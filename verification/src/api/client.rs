//! The interface of a tracking client, and the words that choose what a
//! listing shows.

use vstd::prelude::*;
use crate::api::error::{BatchError, CreateError, DeleteError, GetError, StorageError, UpdateError};
use crate::api::experiment::Experiment;
use crate::api::id::{ExperimentId, RunId};
use crate::api::run::{
    Metric, MetricView, Param, ParamView, Run, RunInfo, RunStatus, RunTag, RunTagView,
};
use crate::api::search::{RunList, Search};
use crate::json::{Json, JsonView};
use crate::text::same;
use crate::wire::Wire;

verus! {

/// Which experiments or runs a listing shows.
#[derive(Debug, Clone, Copy, PartialEq, Eq, Structural)]
pub enum ViewType {
    Active,
    Deleted,
    All,
}

impl DeepView for ViewType {
    type V = ViewType;

    open spec fn deep_view(&self) -> ViewType {
        *self
    }
}

impl View for ViewType {
    type V = ViewType;

    open spec fn view(&self) -> ViewType {
        *self
    }
}

impl ViewType {
    /// The word that stands for a view type on the wire.
    pub open spec fn token(self) -> Seq<char> {
        match self {
            ViewType::Active => "ACTIVE_ONLY"@,
            ViewType::Deleted => "DELETED_ONLY"@,
            ViewType::All => "ALL"@,
        }
    }

    /// The view type that a word stands for; `None` for any other word.
    pub open spec fn of_token(word: Seq<char>) -> Option<ViewType> {
        if word == "ACTIVE_ONLY"@ {
            Some(ViewType::Active)
        } else if word == "DELETED_ONLY"@ {
            Some(ViewType::Deleted)
        } else if word == "ALL"@ {
            Some(ViewType::All)
        } else {
            None
        }
    }

    /// Each view type is read back from its own word.
    pub proof fn lemma_token_round_trip(self)
        ensures
            Self::of_token(self.token()) == Some(self),
    {
        reveal_strlit("ACTIVE_ONLY");
        reveal_strlit("DELETED_ONLY");
        reveal_strlit("ALL");
        assert("ACTIVE_ONLY"@.len() == 11);
        assert("DELETED_ONLY"@.len() == 12);
        assert("ALL"@.len() == 3);
    }

    /// The word that stands for this view type on the wire.
    pub fn as_str(&self) -> (r: &'static str)
        ensures
            r@ == self.token(),
    {
        match self {
            ViewType::Active => "ACTIVE_ONLY",
            ViewType::Deleted => "DELETED_ONLY",
            ViewType::All => "ALL",
        }
    }

    /// Reads a view type from its word.
    pub fn parse(word: &str) -> (r: Option<ViewType>)
        ensures
            r == Self::of_token(word@),
    {
        if same(word, "ACTIVE_ONLY") {
            Some(ViewType::Active)
        } else if same(word, "DELETED_ONLY") {
            Some(ViewType::Deleted)
        } else if same(word, "ALL") {
            Some(ViewType::All)
        } else {
            None
        }
    }
}

impl Wire for ViewType {
    open spec fn encoded(value: ViewType) -> JsonView {
        JsonView::Text(value.token())
    }

    open spec fn decoded(doc: JsonView) -> Option<ViewType> {
        match doc {
            JsonView::Text(word) => ViewType::of_token(word),
            _ => None,
        }
    }

    proof fn round_trip(value: ViewType) {
        value.lemma_token_round_trip();
    }

    fn to_json(&self) -> (doc: Json) {
        Json::of_text(self.as_str())
    }

    fn from_json(doc: &Json) -> (r: Option<Self>) {
        match doc {
            Json::Text(word) => ViewType::parse(word.as_str()),
            _ => None,
        }
    }
}

/// Whether an experiment or a run is in use or was deleted.
#[derive(Debug, Clone, Copy, PartialEq, Eq, Structural)]
pub enum LifecycleStage {
    Active,
    Deleted,
}

impl DeepView for LifecycleStage {
    type V = LifecycleStage;

    open spec fn deep_view(&self) -> LifecycleStage {
        *self
    }
}

impl View for LifecycleStage {
    type V = LifecycleStage;

    open spec fn view(&self) -> LifecycleStage {
        *self
    }
}

impl LifecycleStage {
    /// The word that stands for a stage on the wire.
    pub open spec fn token(self) -> Seq<char> {
        match self {
            LifecycleStage::Active => "active"@,
            LifecycleStage::Deleted => "deleted"@,
        }
    }

    /// The stage that a word stands for; `None` for any other word.
    pub open spec fn of_token(word: Seq<char>) -> Option<LifecycleStage> {
        if word == "active"@ {
            Some(LifecycleStage::Active)
        } else if word == "deleted"@ {
            Some(LifecycleStage::Deleted)
        } else {
            None
        }
    }

    /// Each stage is read back from its own word.
    pub proof fn lemma_token_round_trip(self)
        ensures
            Self::of_token(self.token()) == Some(self),
    {
        reveal_strlit("active");
        reveal_strlit("deleted");
        assert("active"@.len() == 6);
        assert("deleted"@.len() == 7);
    }

    /// The word that stands for this stage on the wire.
    pub fn as_str(&self) -> (r: &'static str)
        ensures
            r@ == self.token(),
    {
        match self {
            LifecycleStage::Active => "active",
            LifecycleStage::Deleted => "deleted",
        }
    }

    /// Reads a stage from its word.
    pub fn parse(word: &str) -> (r: Option<LifecycleStage>)
        ensures
            r == Self::of_token(word@),
    {
        if same(word, "active") {
            Some(LifecycleStage::Active)
        } else if same(word, "deleted") {
            Some(LifecycleStage::Deleted)
        } else {
            None
        }
    }
}

impl Wire for LifecycleStage {
    open spec fn encoded(value: LifecycleStage) -> JsonView {
        JsonView::Text(value.token())
    }

    open spec fn decoded(doc: JsonView) -> Option<LifecycleStage> {
        match doc {
            JsonView::Text(word) => LifecycleStage::of_token(word),
            _ => None,
        }
    }

    proof fn round_trip(value: LifecycleStage) {
        value.lemma_token_round_trip();
    }

    fn to_json(&self) -> (doc: Json) {
        Json::of_text(self.as_str())
    }

    fn from_json(doc: &Json) -> (r: Option<Self>) {
        match doc {
            Json::Text(word) => LifecycleStage::parse(word.as_str()),
            _ => None,
        }
    }
}

/// One operation asked of a client, with the values it was given.
#[allow(inconsistent_fields)]
pub enum Call {
    CreateExperiment { name: Seq<char> },
    ListExperiments { view_type: ViewType },
    GetExperiment { id: Seq<char> },
    GetExperimentByName { name: Seq<char> },
    DeleteExperiment { id: Seq<char> },
    UpdateExperiment { id: Seq<char>, new_name: Option<Seq<char>> },
    CreateRun { experiment: Seq<char>, start_time: i64, tags: Seq<RunTagView> },
    DeleteRun { id: Seq<char> },
    GetRun { id: Seq<char> },
    UpdateRun { id: Seq<char>, status: RunStatus, end_time: i64 },
    SearchRuns {
        experiment_ids: Seq<Seq<char>>,
        filter: Seq<char>,
        run_view_type: ViewType,
        max_results: i32,
        order_by: Option<Seq<char>>,
        page_token: Option<Seq<char>>,
    },
    ListRunInfos {
        experiment: Seq<char>,
        run_view_type: ViewType,
        max_results: i32,
        order_by: Option<Seq<char>>,
        page_token: Option<Seq<char>>,
    },
    GetMetricHistory { run: Seq<char>, metric: Seq<char> },
    LogParam { run: Seq<char>, key: Seq<char>, value: Seq<char> },
    LogMetric {
        run: Seq<char>,
        key: Seq<char>,
        value: serde_json::Number,
        timestamp: i64,
        step: i64,
    },
    LogBatch {
        run: Seq<char>,
        metrics: Seq<MetricView>,
        params: Seq<ParamView>,
        tags: Seq<RunTagView>,
    },
}

/// One call that a client has answered: what was asked of it, and whether
/// it succeeded.
pub struct Answered {
    pub call: Call,
    pub ok: bool,
}

/// A client of a tracking server.
///
/// Every operation blocks until the server has answered or the exchange
/// has failed. A client keeps, as a ghost value, the calls that it has
/// answered, in order: each method adds its own call, with whether it
/// succeeded. What an operation returns is decided by the server behind
/// the client.
pub trait Client {
    /// The calls that this client has answered so far, oldest first.
    ///
    /// A client that is verified states its own history. The history given
    /// here, which is always empty, is one that no method can keep: it only
    /// spares a client that is not verified the need to state one.
    open spec fn calls(&self) -> Seq<Answered> {
        Seq::empty()
    }

    /// Creates an experiment called `name` and returns its identifier.
    fn create_experiment(&mut self, name: &str) -> (r: Result<ExperimentId, CreateError>)
        ensures
            final(self).calls() == old(self).calls().push(
                Answered {
                    call: Call::CreateExperiment { name: name@ },
                    ok: r is Ok,
                },
            ),
    ;

    /// Lists the experiments that `view_type` selects.
    fn list_experiments(
        &mut self,
        view_type: ViewType,
    ) -> (r: Result<Vec<Experiment>, StorageError>)
        ensures
            final(self).calls() == old(self).calls().push(
                Answered {
                    call: Call::ListExperiments { view_type },
                    ok: r is Ok,
                },
            ),
    ;

    /// Fetches the experiment with the identifier `id`.
    fn get_experiment(&mut self, id: &ExperimentId) -> (r: Result<Experiment, GetError>)
        ensures
            final(self).calls() == old(self).calls().push(
                Answered {
                    call: Call::GetExperiment { id: id@ },
                    ok: r is Ok,
                },
            ),
    ;

    /// Fetches the experiment called `name`.
    fn get_experiment_by_name(&mut self, name: &str) -> (r: Result<Experiment, GetError>)
        ensures
            final(self).calls() == old(self).calls().push(
                Answered {
                    call: Call::GetExperimentByName { name: name@ },
                    ok: r is Ok,
                },
            ),
    ;

    /// Deletes the experiment with the identifier `id`.
    fn delete_experiment(&mut self, id: &ExperimentId) -> (r: Result<(), DeleteError>)
        ensures
            final(self).calls() == old(self).calls().push(
                Answered {
                    call: Call::DeleteExperiment { id: id@ },
                    ok: r is Ok,
                },
            ),
    ;

    /// Gives the experiment a new name, if one is given. Returns nothing:
    /// fetch the experiment again to see the change.
    fn update_experiment(
        &mut self,
        id: &ExperimentId,
        new_name: Option<&str>,
    ) -> (r: Result<(), StorageError>)
        ensures
            final(self).calls() == old(self).calls().push(
                Answered {
                    call: Call::UpdateExperiment {
                        id: id@,
                        new_name: new_name.deep_view(),
                    },
                    ok: r is Ok,
                },
            ),
    ;

    /// Creates a run under an experiment. The run is running from its
    /// creation.
    fn create_run(
        &mut self,
        experiment: &ExperimentId,
        start_time: i64,
        tags: &[RunTag],
    ) -> (r: Result<Run, StorageError>)
        ensures
            final(self).calls() == old(self).calls().push(
                Answered {
                    call: Call::CreateRun {
                        experiment: experiment@,
                        start_time,
                        tags: tags.deep_view(),
                    },
                    ok: r is Ok,
                },
            ),
    ;

    /// Deletes the run with the identifier `id`.
    fn delete_run(&mut self, id: &RunId) -> (r: Result<(), DeleteError>)
        ensures
            final(self).calls() == old(self).calls().push(
                Answered {
                    call: Call::DeleteRun { id: id@ },
                    ok: r is Ok,
                },
            ),
    ;

    /// Fetches the run with the identifier `id`.
    fn get_run(&mut self, id: &RunId) -> (r: Result<Run, GetError>)
        ensures
            final(self).calls() == old(self).calls().push(
                Answered {
                    call: Call::GetRun { id: id@ },
                    ok: r is Ok,
                },
            ),
    ;

    /// Sets the status and the end time of a run, and returns what the
    /// server then knows of it.
    fn update_run(
        &mut self,
        id: &RunId,
        status: RunStatus,
        end_time: i64,
    ) -> (r: Result<RunInfo, UpdateError>)
        ensures
            final(self).calls() == old(self).calls().push(
                Answered {
                    call: Call::UpdateRun { id: id@, status, end_time },
                    ok: r is Ok,
                },
            ),
    ;

    /// Searches the runs of some experiments, one page at a time.
    fn search_runs(
        &mut self,
        experiment_ids: &[&ExperimentId],
        filter: &str,
        run_view_type: ViewType,
        max_results: i32,
        order_by: Option<&str>,
        page_token: Option<&str>,
    ) -> (r: Result<Search, StorageError>)
        ensures
            final(self).calls() == old(self).calls().push(
                Answered {
                    call: Call::SearchRuns {
                        experiment_ids: experiment_ids.deep_view(),
                        filter: filter@,
                        run_view_type,
                        max_results,
                        order_by: order_by.deep_view(),
                        page_token: page_token.deep_view(),
                    },
                    ok: r is Ok,
                },
            ),
    ;

    /// Lists what the server knows of the runs of one experiment, one page
    /// at a time. It is a search without a filter, of which only the run
    /// infos are kept.
    fn list_run_infos(
        &mut self,
        experiment: &ExperimentId,
        run_view_type: ViewType,
        max_results: i32,
        order_by: Option<&str>,
        page_token: Option<&str>,
    ) -> (r: Result<RunList, StorageError>)
        ensures
            final(self).calls() == old(self).calls().push(
                Answered {
                    call: Call::ListRunInfos {
                        experiment: experiment@,
                        run_view_type,
                        max_results,
                        order_by: order_by.deep_view(),
                        page_token: page_token.deep_view(),
                    },
                    ok: r is Ok,
                },
            ),
    ;

    /// Fetches every point that was logged of one metric of a run.
    fn get_metric_history(
        &mut self,
        run: &RunId,
        metric: &str,
    ) -> (r: Result<Vec<Metric>, GetError>)
        ensures
            final(self).calls() == old(self).calls().push(
                Answered {
                    call: Call::GetMetricHistory { run: run@, metric: metric@ },
                    ok: r is Ok,
                },
            ),
    ;

    /// Logs one parameter of a run.
    fn log_param(&mut self, run: &RunId, key: &str, value: &str) -> (r: Result<(), StorageError>)
        ensures
            final(self).calls() == old(self).calls().push(
                Answered {
                    call: Call::LogParam { run: run@, key: key@, value: value@ },
                    ok: r is Ok,
                },
            ),
    ;

    /// Logs one point of a metric of a run.
    fn log_metric(
        &mut self,
        run: &RunId,
        key: &str,
        value: serde_json::Number,
        timestamp: i64,
        step: i64,
    ) -> (r: Result<(), StorageError>)
        ensures
            final(self).calls() == old(self).calls().push(
                Answered {
                    call: Call::LogMetric { run: run@, key: key@, value, timestamp, step },
                    ok: r is Ok,
                },
            ),
    ;

    /// Logs metrics, parameters and tags of a run in one request. A batch
    /// that is over a limit is refused before anything is sent.
    fn log_batch(
        &mut self,
        run: &RunId,
        metrics: &[Metric],
        params: &[Param],
        tags: &[RunTag],
    ) -> (r: Result<(), BatchError>)
        ensures
            final(self).calls() == old(self).calls().push(
                Answered {
                    call: Call::LogBatch {
                        run: run@,
                        metrics: metrics.deep_view(),
                        params: params.deep_view(),
                        tags: tags.deep_view(),
                    },
                    ok: r is Ok,
                },
            ),
    ;
}

} // verus!
