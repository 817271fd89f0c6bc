use mlflow::api::client::{Client, ViewType};
use mlflow::api::error::{
    BatchError, CreateError, DeleteError, GetError, Limit, StorageError, UpdateError,
};
use mlflow::api::experiment::Experiment;
use mlflow::api::id::{ExperimentId, RunId};
use mlflow::api::run::{Metric, Param, Run, RunData, RunInfo, RunStatus, RunTag};
use mlflow::api::search::{PageToken, RunList, Search};
use mlflow::tracking::run::finished;
use mlflow::tracking::TrackingRun;
use mlflow::{timestamp, timestamp_at};

/// What was asked of the recording client.
#[derive(Debug, Clone, PartialEq)]
enum Asked {
    CreateRun { experiment: String, start_time: i64, tags: Vec<RunTag> },
    LogBatch { run: String, metrics: Vec<Metric>, params: Vec<Param>, tags: Vec<RunTag> },
    UpdateRun { run: String, status: RunStatus, end_time: i64 },
    Other,
}

/// A client in memory: it keeps what it was asked, and fails the call
/// whose number is `fail_at`, if there is one.
struct Recorder {
    asked: Vec<Asked>,
    fail_at: Option<usize>,
}

impl Recorder {
    fn new() -> Self {
        Recorder { asked: Vec::new(), fail_at: None }
    }

    fn failing_at(call: usize) -> Self {
        Recorder { asked: Vec::new(), fail_at: Some(call) }
    }

    fn record(&mut self, asked: Asked) -> bool {
        self.asked.push(asked);
        self.fail_at != Some(self.asked.len() - 1)
    }
}

fn info(status: RunStatus, end_time: Option<i64>) -> RunInfo {
    RunInfo {
        run_id: RunId::from("run-1"),
        run_uuid: "run-1".to_string(),
        experiment_id: ExperimentId::from("7"),
        user_id: "me".to_string(),
        status,
        start_time: 5,
        end_time,
        artifact_uri: "a".to_string(),
        lifecycle_stage: "active".to_string(),
    }
}

fn data() -> RunData {
    RunData { metrics: None, params: None, tags: Some(vec![]) }
}

fn unused() -> StorageError {
    StorageError::Missing("unused".to_string())
}

impl Client for Recorder {
    fn create_experiment(&mut self, _name: &str) -> Result<ExperimentId, CreateError> {
        self.record(Asked::Other);
        Err(CreateError::Storage(unused()))
    }

    fn list_experiments(&mut self, _view_type: ViewType) -> Result<Vec<Experiment>, StorageError> {
        self.record(Asked::Other);
        Ok(Vec::new())
    }

    fn get_experiment(&mut self, _id: &ExperimentId) -> Result<Experiment, GetError> {
        self.record(Asked::Other);
        Err(GetError::Storage(unused()))
    }

    fn get_experiment_by_name(&mut self, name: &str) -> Result<Experiment, GetError> {
        self.record(Asked::Other);
        Err(GetError::DoesNotExist(name.to_string()))
    }

    fn delete_experiment(&mut self, _id: &ExperimentId) -> Result<(), DeleteError> {
        self.record(Asked::Other);
        Ok(())
    }

    fn update_experiment(&mut self, _id: &ExperimentId, _new_name: Option<&str>) -> Result<(), StorageError> {
        self.record(Asked::Other);
        Ok(())
    }

    fn create_run(
        &mut self,
        experiment: &ExperimentId,
        start_time: i64,
        tags: &[RunTag],
    ) -> Result<Run, StorageError> {
        let asked = Asked::CreateRun {
            experiment: experiment.as_ref().to_string(),
            start_time,
            tags: tags.to_vec(),
        };
        if self.record(asked) {
            Ok(Run { info: info(RunStatus::Running, None), data: data() })
        } else {
            Err(StorageError::Unreadable)
        }
    }

    fn delete_run(&mut self, _id: &RunId) -> Result<(), DeleteError> {
        self.record(Asked::Other);
        Ok(())
    }

    fn get_run(&mut self, id: &RunId) -> Result<Run, GetError> {
        self.record(Asked::Other);
        Err(GetError::DoesNotExist(id.as_ref().to_string()))
    }

    fn update_run(&mut self, id: &RunId, status: RunStatus, end_time: i64) -> Result<RunInfo, UpdateError> {
        let asked = Asked::UpdateRun { run: id.as_ref().to_string(), status, end_time };
        if self.record(asked) {
            Ok(info(status, Some(end_time)))
        } else {
            Err(GetError::DoesNotExist(id.as_ref().to_string()))
        }
    }

    fn search_runs(
        &mut self,
        _experiment_ids: &[&ExperimentId],
        _filter: &str,
        _run_view_type: ViewType,
        _max_results: i32,
        _order_by: Option<&str>,
        _page_token: Option<&str>,
    ) -> Result<Search, StorageError> {
        self.record(Asked::Other);
        Ok(Search { runs: Vec::new(), next_page_token: PageToken::from("") })
    }

    fn list_run_infos(
        &mut self,
        _experiment: &ExperimentId,
        _run_view_type: ViewType,
        _max_results: i32,
        _order_by: Option<&str>,
        _page_token: Option<&str>,
    ) -> Result<RunList, StorageError> {
        self.record(Asked::Other);
        Ok(RunList { runs: Vec::new(), page_token: PageToken::from("") })
    }

    fn get_metric_history(&mut self, _run: &RunId, _metric: &str) -> Result<Vec<Metric>, GetError> {
        self.record(Asked::Other);
        Ok(Vec::new())
    }

    fn log_param(&mut self, _run: &RunId, _key: &str, _value: &str) -> Result<(), StorageError> {
        self.record(Asked::Other);
        Ok(())
    }

    fn log_metric(
        &mut self,
        _run: &RunId,
        _key: &str,
        _value: serde_json::Number,
        _timestamp: i64,
        _step: i64,
    ) -> Result<(), StorageError> {
        self.record(Asked::Other);
        Ok(())
    }

    fn log_batch(
        &mut self,
        run: &RunId,
        metrics: &[Metric],
        params: &[Param],
        tags: &[RunTag],
    ) -> Result<(), BatchError> {
        let asked = Asked::LogBatch {
            run: run.as_ref().to_string(),
            metrics: metrics.to_vec(),
            params: params.to_vec(),
            tags: tags.to_vec(),
        };
        if self.record(asked) {
            Ok(())
        } else {
            Err(BatchError::TooManyItems(1001))
        }
    }
}

fn metric(i: usize) -> Metric {
    Metric {
        key: format!("m{}", i % 3),
        value: serde_json::Number::from_f64(i as f64 / 8.0).unwrap(),
        timestamp: 1000 + i as i64,
        step: i as i64,
    }
}

fn run_with_metrics(count: usize) -> TrackingRun {
    let mut run = TrackingRun::started_at(77);
    for i in 0..count {
        let m = metric(i);
        run.log_metric_at(&m.key, m.value, m.timestamp, m.step);
    }
    run
}

fn batch_sizes(asked: &[Asked]) -> Vec<usize> {
    asked
        .iter()
        .filter_map(|call| match call {
            Asked::LogBatch { metrics, .. } => Some(metrics.len()),
            _ => None,
        })
        .collect()
}

#[test]
fn a_run_of_2500_metrics_is_sent_in_three_batches() {
    let mut run = run_with_metrics(2500);
    run.log_param("lr", "0.1");
    run.log_param("depth", "3");
    run.log_tag("team", "a");
    let mut client = Recorder::new();
    let before = timestamp();
    let result = run.submit(&mut client, &ExperimentId::from("7")).unwrap();
    let after = timestamp();

    assert_eq!(client.asked.len(), 6);
    assert_eq!(
        client.asked[0],
        Asked::CreateRun { experiment: "7".to_string(), start_time: 77, tags: vec![] }
    );
    assert_eq!(
        client.asked[1],
        Asked::LogBatch {
            run: "run-1".to_string(),
            metrics: vec![],
            params: vec![
                Param { key: "lr".to_string(), value: "0.1".to_string() },
                Param { key: "depth".to_string(), value: "3".to_string() },
            ],
            tags: vec![RunTag { key: "team".to_string(), value: "a".to_string() }],
        }
    );
    let expected: Vec<Metric> = (0..2500).map(metric).collect();
    for (call, range) in [(2usize, 0..1000usize), (3, 1000..2000), (4, 2000..2500)] {
        assert_eq!(
            client.asked[call],
            Asked::LogBatch {
                run: "run-1".to_string(),
                metrics: expected[range].to_vec(),
                params: vec![],
                tags: vec![],
            }
        );
    }
    match &client.asked[5] {
        Asked::UpdateRun { run, status, end_time } => {
            assert_eq!(run, "run-1");
            assert_eq!(*status, RunStatus::Finished);
            assert!(before <= *end_time && *end_time <= after);
            assert_eq!(result.info, info(RunStatus::Finished, Some(*end_time)));
        },
        other => panic!("the last call was {:?}", other),
    }
    assert_eq!(result.data, data());
}

#[test]
fn a_run_without_metrics_sends_one_empty_batch() {
    let run = TrackingRun::started_at(1);
    let mut client = Recorder::new();
    run.submit(&mut client, &ExperimentId::from("7")).unwrap();
    assert_eq!(client.asked.len(), 4);
    assert_eq!(batch_sizes(&client.asked), vec![0, 0]);
    assert_eq!(
        client.asked[1],
        Asked::LogBatch { run: "run-1".to_string(), metrics: vec![], params: vec![], tags: vec![] }
    );
}

#[test]
fn batches_are_full_before_a_new_one_is_opened() {
    for (count, sizes) in [
        (1usize, vec![0usize, 1]),
        (999, vec![0, 999]),
        (1000, vec![0, 1000]),
        (1001, vec![0, 1000, 1]),
        (2000, vec![0, 1000, 1000]),
        (2001, vec![0, 1000, 1000, 1]),
        (3000, vec![0, 1000, 1000, 1000]),
    ] {
        let run = run_with_metrics(count);
        let mut client = Recorder::new();
        run.submit(&mut client, &ExperimentId::from("7")).unwrap();
        assert_eq!(batch_sizes(&client.asked), sizes, "{} metrics", count);
        let mut sent: Vec<Metric> = Vec::new();
        for call in &client.asked {
            if let Asked::LogBatch { metrics, .. } = call {
                sent.extend(metrics.iter().cloned());
            }
        }
        let expected: Vec<Metric> = (0..count).map(metric).collect();
        assert_eq!(sent, expected);
    }
}

#[test]
fn a_failing_call_ends_the_submission() {
    let run = run_with_metrics(1500);
    let mut client = Recorder::failing_at(0);
    assert_eq!(run.submit(&mut client, &ExperimentId::from("7")), Err(StorageError::Unreadable));
    assert_eq!(client.asked.len(), 1);

    let run = run_with_metrics(1500);
    let mut client = Recorder::failing_at(1);
    assert_eq!(
        run.submit(&mut client, &ExperimentId::from("7")),
        Err(StorageError::TooMany(Limit::Items, 1001))
    );
    assert_eq!(client.asked.len(), 2);

    let run = run_with_metrics(1500);
    let mut client = Recorder::failing_at(2);
    assert_eq!(
        run.submit(&mut client, &ExperimentId::from("7")),
        Err(StorageError::TooMany(Limit::Items, 1001))
    );
    assert_eq!(client.asked.len(), 3);
    assert_eq!(batch_sizes(&client.asked), vec![0, 1000]);

    let run = run_with_metrics(1500);
    let mut client = Recorder::failing_at(4);
    assert_eq!(
        run.submit(&mut client, &ExperimentId::from("7")),
        Err(StorageError::Missing("run-1".to_string()))
    );
    assert_eq!(client.asked.len(), 5);
    assert!(matches!(client.asked[4], Asked::UpdateRun { .. }));
}

#[test]
fn a_run_holds_a_hundred_params_and_tags() {
    let mut run = TrackingRun::new();
    assert_eq!(run.param_count(), 0);
    assert_eq!(run.tag_count(), 0);
    for i in 0..100 {
        run.log_param(&format!("p{}", i), "v");
        run.log_tag(&format!("t{}", i), "w");
    }
    assert_eq!(run.param_count(), 100);
    assert_eq!(run.tag_count(), 100);
    let mut client = Recorder::new();
    run.submit(&mut client, &ExperimentId::from("7")).unwrap();
    match &client.asked[1] {
        Asked::LogBatch { params, tags, metrics, .. } => {
            assert_eq!(params.len(), 100);
            assert_eq!(tags.len(), 100);
            assert_eq!(metrics.len(), 0);
            assert_eq!(params[99], Param { key: "p99".to_string(), value: "v".to_string() });
            assert_eq!(tags[0], RunTag { key: "t0".to_string(), value: "w".to_string() });
        },
        other => panic!("the second call was {:?}", other),
    }
}

#[test]
fn a_metric_logged_now_carries_the_time_of_logging() {
    let before = timestamp();
    let mut run = TrackingRun::new();
    run.log_metric("loss", serde_json::Number::from_f64(0.5).unwrap(), 3);
    let after = timestamp();
    let mut client = Recorder::new();
    run.submit(&mut client, &ExperimentId::from("7")).unwrap();
    match &client.asked[0] {
        Asked::CreateRun { start_time, .. } => assert!(before <= *start_time && *start_time <= after),
        other => panic!("the first call was {:?}", other),
    }
    match &client.asked[2] {
        Asked::LogBatch { metrics, .. } => {
            assert_eq!(metrics.len(), 1);
            assert_eq!(metrics[0].key, "loss");
            assert_eq!(metrics[0].value.as_f64(), Some(0.5));
            assert_eq!(metrics[0].step, 3);
            assert!(before <= metrics[0].timestamp && metrics[0].timestamp <= after);
        },
        other => panic!("the third call was {:?}", other),
    }
}

#[test]
fn the_finished_run_keeps_what_was_created_and_takes_the_new_info() {
    let created = Run { info: info(RunStatus::Running, None), data: data() };
    let run = finished(created, info(RunStatus::Finished, Some(9)));
    assert_eq!(run, Run { info: info(RunStatus::Finished, Some(9)), data: data() });
}

#[test]
fn timestamps_count_milliseconds_and_do_not_go_back_far() {
    let first = timestamp();
    let second = timestamp();
    assert!(first > 1_500_000_000_000);
    assert!(second >= first);
    assert!(second - first < 60_000);
}

#[test]
fn a_reading_of_the_clock_becomes_a_timestamp() {
    assert_eq!(timestamp_at(None), 0);
    assert_eq!(timestamp_at(Some(0)), 0);
    assert_eq!(timestamp_at(Some(1_600_000_000_000)), 1_600_000_000_000);
    assert_eq!(timestamp_at(Some(i64::MAX as u128)), i64::MAX);
    assert_eq!(timestamp_at(Some(i64::MAX as u128 + 1)), i64::MAX);
    assert_eq!(timestamp_at(Some(u128::MAX)), i64::MAX);
}
