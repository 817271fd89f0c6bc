//! A run that is gathered on the client and sent in batches.

use vstd::prelude::*;
use crate::api::client::{Answered, Call, Client};
use crate::api::error::StorageError;
use crate::api::id::ExperimentId;
use crate::api::limits::{BATCH_METRICS, BATCH_PARAMS, BATCH_TAGS};
use crate::api::run::{
    Metric, MetricView, Param, ParamView, Run, RunInfo, RunStatus, RunTag, RunTagView, RunView,
};
use crate::timestamp;

verus! {

/// The metrics of a run cut into batches, in order: each batch but the
/// last holds as many metrics as one request may carry, and the last holds
/// the rest. A run without metrics has one empty batch.
pub open spec fn batches(metrics: Seq<MetricView>) -> Seq<Seq<MetricView>>
    decreases metrics.len(),
{
    if metrics.len() <= BATCH_METRICS {
        seq![metrics]
    } else {
        seq![metrics.take(BATCH_METRICS as int)] + batches(metrics.skip(BATCH_METRICS as int))
    }
}

/// The number of batches, and the size of each: every batch but the last
/// is full, the last is not over the limit, and only the batch of a run
/// without metrics is empty.
pub proof fn lemma_batches_shape(metrics: Seq<MetricView>)
    ensures
        batches(metrics).len() >= 1,
        batches(metrics).len() == if metrics.len() == 0 {
            1int
        } else {
            (metrics.len() + BATCH_METRICS - 1) / (BATCH_METRICS as int)
        },
        forall|i: int|
            0 <= i < batches(metrics).len() - 1 ==> (#[trigger] batches(metrics)[i]).len()
                == BATCH_METRICS,
        batches(metrics).last().len() == metrics.len() - BATCH_METRICS * (batches(metrics).len()
            - 1),
        batches(metrics).last().len() <= BATCH_METRICS,
        metrics.len() > 0 ==> batches(metrics).last().len() >= 1,
    decreases metrics.len(),
{
    if metrics.len() <= BATCH_METRICS {
    } else {
        let head = metrics.take(BATCH_METRICS as int);
        let rest = metrics.skip(BATCH_METRICS as int);
        lemma_batches_shape(rest);
        let all = batches(metrics);
        let tail = batches(rest);
        assert(all == seq![head] + tail);
        assert(all.len() == 1 + tail.len());
        assert forall|i: int| 0 <= i < all.len() - 1 implies (#[trigger] all[i]).len()
            == BATCH_METRICS by {
            if i > 0 {
                assert(all[i] == tail[i - 1]);
            }
        }
        assert(all.last() == tail.last());
    }
}

/// Nothing is dropped and nothing changes place: the metric at position
/// `k` of the run is the metric at position `k % 1000` of batch
/// `k / 1000`.
pub proof fn lemma_batches_keep_order(metrics: Seq<MetricView>, k: int)
    requires
        0 <= k < metrics.len(),
    ensures
        k / (BATCH_METRICS as int) < batches(metrics).len(),
        k % (BATCH_METRICS as int) < batches(metrics)[k / (BATCH_METRICS as int)].len(),
        batches(metrics)[k / (BATCH_METRICS as int)][k % (BATCH_METRICS as int)] == metrics[k],
    decreases metrics.len(),
{
    lemma_batches_shape(metrics);
    if metrics.len() <= BATCH_METRICS {
        if k == BATCH_METRICS {
        }
    } else {
        let head = metrics.take(BATCH_METRICS as int);
        let rest = metrics.skip(BATCH_METRICS as int);
        let all = batches(metrics);
        let tail = batches(rest);
        assert(all == seq![head] + tail);
        if k < BATCH_METRICS {
            assert(all[0] == head);
        } else {
            lemma_batches_keep_order(rest, k - BATCH_METRICS);
            let j = k - BATCH_METRICS;
            assert(k / (BATCH_METRICS as int) == j / (BATCH_METRICS as int) + 1);
            assert(k % (BATCH_METRICS as int) == j % (BATCH_METRICS as int));
            assert(all[k / (BATCH_METRICS as int)] == tail[j / (BATCH_METRICS as int)]);
        }
    }
}

/// The batches of a run to which one metric is added: the metric joins
/// the last batch if there is room, and else opens a new batch.
pub proof fn lemma_batches_push(metrics: Seq<MetricView>, metric: MetricView)
    ensures
        batches(metrics).len() >= 1,
        batches(metrics.push(metric)) == if batches(metrics).last().len() < BATCH_METRICS {
            batches(metrics).drop_last().push(batches(metrics).last().push(metric))
        } else {
            batches(metrics).push(seq![metric])
        },
    decreases metrics.len(),
{
    lemma_batches_shape(metrics);
    let more = metrics.push(metric);
    if metrics.len() < BATCH_METRICS {
        assert(batches(metrics).drop_last().push(metrics.push(metric)) =~= seq![more]);
    } else if metrics.len() == BATCH_METRICS {
        assert(more.take(BATCH_METRICS as int) =~= metrics);
        assert(more.skip(BATCH_METRICS as int) =~= seq![metric]);
        assert(batches(seq![metric]) == seq![seq![metric]]);
        assert(seq![metrics] + seq![seq![metric]] =~= seq![metrics].push(seq![metric]));
    } else {
        let head = metrics.take(BATCH_METRICS as int);
        let rest = metrics.skip(BATCH_METRICS as int);
        lemma_batches_push(rest, metric);
        lemma_batches_shape(rest);
        assert(more.take(BATCH_METRICS as int) =~= head);
        assert(more.skip(BATCH_METRICS as int) =~= rest.push(metric));
        let tail = batches(rest);
        let all = batches(metrics);
        assert(all == seq![head] + tail);
        assert(all.last() == tail.last());
        if tail.last().len() < BATCH_METRICS {
            assert(seq![head] + tail.drop_last().push(tail.last().push(metric))
                =~= all.drop_last().push(all.last().push(metric)));
        } else {
            assert(seq![head] + tail.push(seq![metric]) =~= all.push(seq![metric]));
        }
    }
}

/// The mathematical value of a [`TrackingRun`]: when it started, and what
/// was logged to it, in the order of logging.
pub struct TrackingRunView {
    pub start_time: i64,
    pub params: Seq<ParamView>,
    pub tags: Seq<RunTagView>,
    pub metrics: Seq<MetricView>,
}

/// A run that is gathered on the client: parameters, tags and metrics are
/// kept until the run is submitted, and then go to the server in few
/// requests.
///
/// The metrics are kept as the batches in which they travel, see
/// [`batches`].
pub struct TrackingRun {
    start_time: i64,
    param_buffer: Vec<Param>,
    tag_buffer: Vec<RunTag>,
    metric_buffer: Vec<Vec<Metric>>,
    logged: Ghost<Seq<MetricView>>,
}

impl View for TrackingRun {
    type V = TrackingRunView;

    closed spec fn view(&self) -> TrackingRunView {
        TrackingRunView {
            start_time: self.start_time,
            params: self.param_buffer.deep_view(),
            tags: self.tag_buffer.deep_view(),
            metrics: self.logged@,
        }
    }
}

/// The calls of a submission that come before the run is set to
/// finished.
pub open spec fn submission_body(run: TrackingRunView, experiment: Seq<char>, id: Seq<char>) -> Seq<
    Call,
> {
    seq![
        Call::CreateRun {
            experiment,
            start_time: run.start_time,
            tags: Seq::<RunTagView>::empty(),
        },
        Call::LogBatch {
            run: id,
            metrics: Seq::<MetricView>::empty(),
            params: run.params,
            tags: run.tags,
        },
    ] + Seq::new(
        batches(run.metrics).len(),
        |i: int|
            Call::LogBatch {
                run: id,
                metrics: batches(run.metrics)[i],
                params: Seq::<ParamView>::empty(),
                tags: Seq::<RunTagView>::empty(),
            },
    )
}

/// The calls that submitting a run makes if none of them fails: the run
/// is created; its parameters and tags are logged in one batch; each batch
/// of its metrics is logged, in order; the run is set to finished.
pub open spec fn submission(
    run: TrackingRunView,
    experiment: Seq<char>,
    id: Seq<char>,
    end_time: i64,
) -> Seq<Call> {
    submission_body(run, experiment, id).push(
        Call::UpdateRun { id, status: RunStatus::Finished, end_time },
    )
}

/// The calls of a submission, one by one: the run is created first; the
/// parameters and tags go in the second call, without metrics; then comes
/// one call for each batch of metrics, in order, without parameters and
/// tags; setting the run to finished is the last call.
pub proof fn lemma_submission_shape(
    run: TrackingRunView,
    experiment: Seq<char>,
    id: Seq<char>,
    end_time: i64,
)
    ensures
        submission(run, experiment, id, end_time).len() == batches(run.metrics).len() + 3,
        submission(run, experiment, id, end_time)[0] == (Call::CreateRun {
            experiment,
            start_time: run.start_time,
            tags: Seq::<RunTagView>::empty(),
        }),
        submission(run, experiment, id, end_time)[1] == (Call::LogBatch {
            run: id,
            metrics: Seq::<MetricView>::empty(),
            params: run.params,
            tags: run.tags,
        }),
        forall|i: int|
            0 <= i < batches(run.metrics).len() ==> #[trigger] submission(
                run,
                experiment,
                id,
                end_time,
            )[i + 2] == (Call::LogBatch {
                run: id,
                metrics: batches(run.metrics)[i],
                params: Seq::<ParamView>::empty(),
                tags: Seq::<RunTagView>::empty(),
            }),
        submission(run, experiment, id, end_time).last() == (Call::UpdateRun {
            id,
            status: RunStatus::Finished,
            end_time,
        }),
{
}

/// The given calls as a client has answered them if each succeeded but
/// the last, and the last succeeded if `last_ok`.
pub open spec fn answered(calls: Seq<Call>, last_ok: bool) -> Seq<Answered> {
    Seq::new(
        calls.len(),
        |k: int| Answered { call: calls[k], ok: k < calls.len() - 1 || last_ok },
    )
}

/// Whether going from the calls `before` to the calls `after` was the
/// submission of `run` to `experiment`: the calls that were added are the
/// calls of the submission, in order, up to the first that failed, and all
/// of them if none failed. The submission succeeded if every call of it
/// was made and succeeded. The run is always asked to be created.
pub open spec fn submitted(
    before: Seq<Answered>,
    after: Seq<Answered>,
    run: TrackingRunView,
    experiment: Seq<char>,
    succeeded: bool,
) -> bool {
    exists|id: Seq<char>, end_time: i64, made: int|
        #![trigger answered(submission(run, experiment, id, end_time).take(made), succeeded)]
        {
            &&& 1 <= made <= submission(run, experiment, id, end_time).len()
            &&& after == before + answered(
                submission(run, experiment, id, end_time).take(made),
                succeeded,
            )
            &&& succeeded ==> made == submission(run, experiment, id, end_time).len()
        }
}

/// The run that a submission returns: the run as it was created, with
/// what the server knew of it after it was set to finished.
pub fn finished(created: Run, info: RunInfo) -> (run: Run)
    ensures
        run.deep_view() == (RunView { info: info.deep_view(), data: created.deep_view().data }),
{
    Run { info, data: created.data }
}

impl TrackingRun {
    /// Whether the buffers are as the methods of this type leave them:
    /// within the limits of a batch, and the metrics in their batches.
    pub closed spec fn wf(&self) -> bool {
        &&& self.param_buffer@.len() <= BATCH_PARAMS
        &&& self.tag_buffer@.len() <= BATCH_TAGS
        &&& self.metric_buffer.deep_view() == batches(self.logged@)
    }

    /// A run that started at `start_time` and to which nothing was logged
    /// yet.
    pub fn started_at(start_time: i64) -> (run: Self)
        ensures
            run.wf(),
            run@ == (TrackingRunView {
                start_time,
                params: Seq::<ParamView>::empty(),
                tags: Seq::<RunTagView>::empty(),
                metrics: Seq::<MetricView>::empty(),
            }),
    {
        let mut chunks: Vec<Vec<Metric>> = Vec::new();
        chunks.push(Vec::new());
        let run = TrackingRun {
            start_time,
            param_buffer: Vec::new(),
            tag_buffer: Vec::new(),
            metric_buffer: chunks,
            logged: Ghost(Seq::empty()),
        };
        assert(run.metric_buffer@[0].deep_view() =~= Seq::<MetricView>::empty());
        assert(run.metric_buffer.deep_view() =~= seq![Seq::<MetricView>::empty()]);
        assert(run.param_buffer.deep_view() =~= Seq::<ParamView>::empty());
        assert(run.tag_buffer.deep_view() =~= Seq::<RunTagView>::empty());
        run
    }

    /// A run that starts now and to which nothing was logged yet.
    pub fn new() -> (run: Self)
        ensures
            run.wf(),
            run@.start_time >= 0,
            run@.params == Seq::<ParamView>::empty(),
            run@.tags == Seq::<RunTagView>::empty(),
            run@.metrics == Seq::<MetricView>::empty(),
    {
        Self::started_at(timestamp())
    }

    /// The number of parameters logged so far.
    pub fn param_count(&self) -> (n: usize)
        requires
            self.wf(),
        ensures
            n == self@.params.len(),
            n <= BATCH_PARAMS,
    {
        self.param_buffer.len()
    }

    /// The number of tags logged so far.
    pub fn tag_count(&self) -> (n: usize)
        requires
            self.wf(),
        ensures
            n == self@.tags.len(),
            n <= BATCH_TAGS,
    {
        self.tag_buffer.len()
    }

    /// Logs a parameter. A run holds at most as many parameters as one
    /// batch may carry.
    pub fn log_param(&mut self, key: &str, value: &str)
        requires
            old(self).wf(),
            old(self)@.params.len() < BATCH_PARAMS,
        ensures
            final(self).wf(),
            final(self)@ == (TrackingRunView {
                params: old(self)@.params.push(ParamView { key: key@, value: value@ }),
                ..old(self)@
            }),
    {
        let param = Param { key: key.to_owned(), value: value.to_owned() };
        self.param_buffer.push(param);
        assert(self.param_buffer.deep_view() =~= old(self).param_buffer.deep_view().push(
            ParamView { key: key@, value: value@ },
        ));
    }

    /// Logs a tag. A run holds at most as many tags as one batch may
    /// carry.
    pub fn log_tag(&mut self, key: &str, value: &str)
        requires
            old(self).wf(),
            old(self)@.tags.len() < BATCH_TAGS,
        ensures
            final(self).wf(),
            final(self)@ == (TrackingRunView {
                tags: old(self)@.tags.push(RunTagView { key: key@, value: value@ }),
                ..old(self)@
            }),
    {
        let tag = RunTag { key: key.to_owned(), value: value.to_owned() };
        self.tag_buffer.push(tag);
        assert(self.tag_buffer.deep_view() =~= old(self).tag_buffer.deep_view().push(
            RunTagView { key: key@, value: value@ },
        ));
    }

    /// Logs a point of a metric that was measured at `timestamp`. There is
    /// no limit on the number of metrics of a run.
    pub fn log_metric_at(&mut self, key: &str, value: serde_json::Number, timestamp: i64, step: i64)
        requires
            old(self).wf(),
        ensures
            final(self).wf(),
            final(self)@ == (TrackingRunView {
                metrics: old(self)@.metrics.push(
                    MetricView { key: key@, value, timestamp, step },
                ),
                ..old(self)@
            }),
    {
        let metric = Metric { key: key.to_owned(), value, timestamp, step };
        let ghost point = metric.deep_view();
        let ghost before = self.metric_buffer.deep_view();
        proof {
            lemma_batches_push(self.logged@, point);
            lemma_batches_shape(self.logged@);
        }
        assert(before.len() == self.metric_buffer@.len());
        match self.metric_buffer.pop() {
            None => {
                assert(false);
            },
            Some(chunk) => {
                let mut chunk = chunk;
                assert(chunk.deep_view() == before.last());
                assert(self.metric_buffer.deep_view() =~= before.drop_last());
                if chunk.len() == BATCH_METRICS {
                    self.metric_buffer.push(chunk);
                    let mut opened: Vec<Metric> = Vec::new();
                    opened.push(metric);
                    assert(opened.deep_view() =~= seq![point]);
                    self.metric_buffer.push(opened);
                    assert(self.metric_buffer.deep_view() =~= before.push(seq![point]));
                } else {
                    chunk.push(metric);
                    assert(chunk.deep_view() =~= before.last().push(point));
                    self.metric_buffer.push(chunk);
                    assert(self.metric_buffer.deep_view() =~= before.drop_last().push(
                        before.last().push(point),
                    ));
                }
            },
        }
        proof {
            self.logged@ = self.logged@.push(point);
        }
    }

    /// Logs a point of a metric that is measured now.
    pub fn log_metric(&mut self, key: &str, value: serde_json::Number, step: i64)
        requires
            old(self).wf(),
        ensures
            final(self).wf(),
            final(self)@.metrics.len() == old(self)@.metrics.len() + 1,
            final(self)@ == (TrackingRunView {
                metrics: old(self)@.metrics.push(
                    MetricView {
                        key: key@,
                        value,
                        timestamp: final(self)@.metrics.last().timestamp,
                        step,
                    },
                ),
                ..old(self)@
            }),
            final(self)@.metrics.last().timestamp >= 0,
    {
        self.log_metric_at(key, value, timestamp(), step);
    }

    /// Sends the run to the server, under `experiment`: creates the run,
    /// logs its parameters and tags in one batch, logs its metrics batch
    /// by batch, and sets the run to finished. The first call that fails
    /// ends the submission with its error; what was sent before stays on
    /// the server.
    ///
    /// Returns the run as the server created it, with what the server
    /// knew of it after it was set to finished, see [`finished`].
    pub fn submit<C: Client>(self, client: &mut C, experiment: &ExperimentId) -> (r: Result<
        Run,
        StorageError,
    >)
        requires
            self.wf(),
        ensures
            submitted(old(client).calls(), final(client).calls(), self@, experiment@, r is Ok),
    {
        let ghost base = client.calls();
        let ghost chunks = batches(self@.metrics);
        let empty_metrics: Vec<Metric> = Vec::new();
        let empty_params: Vec<Param> = Vec::new();
        let empty_tags: Vec<RunTag> = Vec::new();
        let no_metrics = empty_metrics.as_slice();
        let no_params = empty_params.as_slice();
        let no_tags = empty_tags.as_slice();
        let params = self.param_buffer.as_slice();
        let tags = self.tag_buffer.as_slice();
        assert(no_metrics.deep_view() =~= Seq::<MetricView>::empty());
        assert(no_params.deep_view() =~= Seq::<ParamView>::empty());
        assert(no_tags.deep_view() =~= Seq::<RunTagView>::empty());
        assert(params.deep_view() =~= self@.params);
        assert(tags.deep_view() =~= self@.tags);
        proof {
            lemma_batches_shape(self@.metrics);
        }
        let created = match client.create_run(experiment, self.start_time, no_tags) {
            Ok(run) => run,
            Err(error) => {
                proof {
                    let plan = submission(self@, experiment@, Seq::<char>::empty(), 0);
                    assert(client.calls() =~= base + answered(plan.take(1), false));
                }
                return Err(error);
            },
        };
        let id = created.info.run_id.duplicate();
        let ghost body = submission_body(self@, experiment@, id@);
        let ghost plan = submission(self@, experiment@, id@, 0);
        assert(client.calls() =~= base + answered(body.take(1), true));
        match client.log_batch(&id, no_metrics, params, tags) {
            Ok(()) => {},
            Err(error) => {
                proof {
                    assert(plan.take(2) =~= body.take(2));
                    assert(client.calls() =~= base + answered(plan.take(2), false));
                }
                return Err(StorageError::of_batch(error));
            },
        }
        assert(client.calls() =~= base + answered(body.take(2), true));
        let mut i: usize = 0;
        while i < self.metric_buffer.len()
            invariant
                i <= self.metric_buffer.len(),
                self.wf(),
                base == old(client).calls(),
                chunks == batches(self@.metrics),
                self.metric_buffer.deep_view() == chunks,
                body == submission_body(self@, experiment@, id@),
                body.len() == 2 + chunks.len(),
                client.calls() == base + answered(body.take(2 + i), true),
                no_params.deep_view() == Seq::<ParamView>::empty(),
                no_tags.deep_view() == Seq::<RunTagView>::empty(),
            decreases self.metric_buffer.len() - i,
        {
            let chunk = self.metric_buffer[i].as_slice();
            assert(chunk.deep_view() =~= chunks[i as int]);
            match client.log_batch(&id, chunk, no_params, no_tags) {
                Ok(()) => {},
                Err(error) => {
                    proof {
                        let plan = submission(self@, experiment@, id@, 0);
                        assert(plan.take(3 + i) =~= body.take(3 + i));
                        assert(client.calls() =~= base + answered(plan.take(3 + i), false));
                    }
                    return Err(StorageError::of_batch(error));
                },
            }
            assert(client.calls() =~= base + answered(body.take(3 + i), true));
            i = i + 1;
        }
        assert(body.take(body.len() as int) =~= body);
        let end_time = timestamp();
        let ghost plan = submission(self@, experiment@, id@, end_time);
        let outcome = client.update_run(&id, RunStatus::Finished, end_time);
        assert(plan.take(plan.len() as int) =~= plan);
        assert(client.calls() =~= base + answered(plan, outcome is Ok));
        match outcome {
            Ok(info) => Ok(finished(created, info)),
            Err(error) => Err(StorageError::of_get(error)),
        }
    }
}

} // verus!
