use mlflow::api::client::{Client, ViewType};
use mlflow::api::error::{BatchError, CreateError, GetError, StorageError};
use mlflow::api::experiment::Experiment;
use mlflow::api::id::{ExperimentId, RunId};
use mlflow::api::run::{Metric, Param, Run, RunStatus, RunTag};
use mlflow::backend::rest::{
    build_request, parse_error, read_create_experiment, read_create_run, read_delete,
    read_document, read_get_experiment, read_get_metric_history, read_get_run,
    read_list_experiments, read_list_run_infos, read_log_batch, read_member, read_nothing,
    read_plain, read_search_runs, read_update_run, Endpoint, ErrorResponse, Failure, HttpRequest,
    HttpResponse, RestError, RestErrorCode, RestMethod, Server, Transport,
};
use mlflow::backend::payload::Payload;

const BASE: &str = "http://localhost:5000/api";

/// A transport that answers every request with the same status and body,
/// and keeps the requests.
struct Canned {
    status: u16,
    body: Option<String>,
    seen: Vec<HttpRequest>,
}

impl Canned {
    fn new(status: u16, body: &str) -> Self {
        Canned { status, body: Some(body.to_string()), seen: Vec::new() }
    }
}

impl Transport for Canned {
    fn exchange(&mut self, request: &HttpRequest) -> HttpResponse {
        self.seen.push(request.clone());
        HttpResponse { status: self.status, body: self.body.clone() }
    }
}

fn server(status: u16, body: &str) -> Server<Canned> {
    Server::new(BASE, Canned::new(status, body))
}

fn number(value: f64) -> serde_json::Number {
    serde_json::Number::from_f64(value).unwrap()
}

fn metrics(count: usize) -> Vec<Metric> {
    let mut out = Vec::new();
    for i in 0..count {
        out.push(Metric { key: format!("m{}", i), value: number(0.5), timestamp: 7, step: i as i64 });
    }
    out
}

fn params(count: usize) -> Vec<Param> {
    let mut out = Vec::new();
    for i in 0..count {
        out.push(Param { key: format!("p{}", i), value: "v".to_string() });
    }
    out
}

fn tags(count: usize) -> Vec<RunTag> {
    let mut out = Vec::new();
    for i in 0..count {
        out.push(RunTag { key: format!("t{}", i), value: "v".to_string() });
    }
    out
}

fn ok(body: &str) -> HttpResponse {
    HttpResponse { status: 200, body: Some(body.to_string()) }
}

const RUN_INFO: &str = r#"{"run_id":"r1","run_uuid":"r1","experiment_id":"7","user_id":"u","status":"RUNNING","start_time":"1600000000000","artifact_uri":"./mlruns/7/r1","lifecycle_stage":"active"}"#;

#[test]
fn parse_get_experiment_response() {
    let response = r#"
        {
            "experiment": {
                "experiment_id": "1",
                "name": "T1",
                "artifact_location": "./mlruns/1",
                "lifecycle_stage": "active"
            }
        }
        "#;
    let parsed = read_member::<Experiment>("experiment", ok(response)).unwrap();
    assert_eq!(parsed.experiment_id.as_ref(), "1");
    assert_eq!(parsed.name, "T1");
    assert_eq!(parsed.artifact_location, "./mlruns/1");
    assert_eq!(parsed.lifecycle_stage, "active");
    assert_eq!(parsed.last_update_time, None);
    assert_eq!(parsed.creation_time, None);
    assert_eq!(parsed.tags, None);
}

#[test]
fn create_experiment_reports_an_existing_name() {
    let mut server = server(400, r#"{"error_code":"RESOURCE_ALREADY_EXISTS","message":"x"}"#);
    let result = server.create_experiment("foo");
    assert_eq!(result, Err(CreateError::AlreadyExists("foo".to_string())));
    let seen = &server.transport().seen;
    assert_eq!(seen.len(), 1);
    assert_eq!(seen[0].method, RestMethod::Post);
    assert_eq!(seen[0].url, "http://localhost:5000/api/2.0/mlflow/experiments/create");
    assert_eq!(seen[0].payload, r#"{"name":"foo","artifact_location":null}"#);
}

#[test]
fn get_experiment_by_name_reports_a_missing_name() {
    let mut server = server(404, r#"{"error_code":"RESOURCE_DOES_NOT_EXIST","message":"x"}"#);
    let result = server.get_experiment_by_name("bar");
    assert_eq!(result, Err(GetError::DoesNotExist("bar".to_string())));
    let seen = &server.transport().seen;
    assert_eq!(seen.len(), 1);
    assert_eq!(seen[0].method, RestMethod::Get);
    assert_eq!(seen[0].url, "http://localhost:5000/api/2.0/mlflow/experiments/get-by-name");
    assert_eq!(seen[0].payload, "experiment_name=bar");
}

#[test]
fn log_batch_refuses_too_many_metrics_before_anything_is_sent() {
    let mut server = server(200, "{}");
    let result = server.log_batch(&RunId::from("r1"), &metrics(1001), &[], &[]);
    assert_eq!(result, Err(BatchError::TooManyMetrics(1001)));
    assert_eq!(server.transport().seen.len(), 0);
}

#[test]
fn log_batch_refuses_too_many_items_in_all() {
    let mut server = server(200, "{}");
    let result = server.log_batch(&RunId::from("r1"), &metrics(999), &params(1), &tags(1));
    assert_eq!(result, Err(BatchError::TooManyItems(1001)));
    assert_eq!(server.transport().seen.len(), 0);
}

#[test]
fn log_batch_refuses_too_many_params_and_too_many_tags() {
    let mut server = server(200, "{}");
    let run = RunId::from("r1");
    assert_eq!(
        server.log_batch(&run, &[], &params(101), &tags(101)),
        Err(BatchError::TooManyParams(101))
    );
    assert_eq!(server.log_batch(&run, &[], &params(100), &tags(101)), Err(BatchError::TooManyTags(101)));
    assert_eq!(
        server.log_batch(&run, &metrics(1001), &params(101), &tags(101)),
        Err(BatchError::TooManyMetrics(1001))
    );
    assert_eq!(server.transport().seen.len(), 0);
}

#[test]
fn log_batch_sends_a_batch_at_the_limits() {
    let mut server = server(200, "{}");
    let run = RunId::from("r1");
    assert_eq!(server.log_batch(&run, &metrics(1000), &[], &[]), Ok(()));
    assert_eq!(server.log_batch(&run, &metrics(800), &params(100), &tags(100)), Ok(()));
    assert_eq!(server.transport().seen.len(), 2);
}

#[test]
fn log_batch_writes_every_item() {
    let mut server = server(200, "{}");
    let run = RunId::from("r1");
    let result = server.log_batch(&run, &metrics(2), &params(1), &tags(1));
    assert_eq!(result, Ok(()));
    let seen = &server.transport().seen;
    assert_eq!(seen.len(), 1);
    assert_eq!(seen[0].method, RestMethod::Post);
    assert_eq!(seen[0].url, "http://localhost:5000/api/2.0/mlflow/runs/log-batch");
    assert_eq!(
        seen[0].payload,
        concat_all(&[
            r#"{"run_id":"r1","metrics":["#,
            r#"{"key":"m0","value":0.5,"timestamp":7,"step":0},"#,
            r#"{"key":"m1","value":0.5,"timestamp":7,"step":1}],"#,
            r#""params":[{"key":"p0","value":"v"}],"#,
            r#""tags":[{"key":"t0","value":"v"}]}"#,
        ])
    );
}

fn concat_all(parts: &[&str]) -> String {
    let mut out = String::new();
    for part in parts {
        out.push_str(part);
    }
    out
}

#[test]
fn log_batch_reports_a_storage_failure() {
    let mut server = server(500, "boom");
    let result = server.log_batch(&RunId::from("r1"), &metrics(1), &[], &[]);
    assert_eq!(
        result,
        Err(BatchError::Storage(StorageError::Rest(RestError::Unknown {
            status: 500,
            body: "boom".to_string()
        })))
    );
}

#[test]
fn an_unknown_error_code_is_kept_verbatim() {
    let body = r#"{"error_code":"TEMPORARILY_UNAVAILABLE","message":"later"}"#;
    let error = parse_error(HttpResponse { status: 503, body: Some(body.to_string()) });
    assert_eq!(
        error,
        RestError::Known {
            status: 503,
            code: RestErrorCode::Unknown("TEMPORARILY_UNAVAILABLE".to_string()),
            message: "later".to_string(),
        }
    );
    let mut server = server(503, body);
    assert_eq!(
        server.create_experiment("foo"),
        Err(CreateError::Storage(StorageError::Rest(error)))
    );
}

#[test]
fn the_known_error_codes_are_recognised() {
    assert_eq!(RestErrorCode::from("RESOURCE_ALREADY_EXISTS"), RestErrorCode::ResourceAlreadyExists);
    assert_eq!(RestErrorCode::from("RESOURCE_DOES_NOT_EXIST"), RestErrorCode::ResourceDoesNotExist);
    assert_eq!(RestErrorCode::from("INVALID_PARAMETER_VALUE"), RestErrorCode::InvalidParameterValue);
    assert_eq!(
        RestErrorCode::from("resource_already_exists"),
        RestErrorCode::Unknown("resource_already_exists".to_string())
    );
    assert_eq!(RestErrorCode::of_word(""), RestErrorCode::Unknown(String::new()));
}

#[test]
fn an_error_body_that_is_no_envelope_is_kept() {
    let error = parse_error(HttpResponse { status: 502, body: Some("<html>".to_string()) });
    assert_eq!(error, RestError::Unknown { status: 502, body: "<html>".to_string() });
    let error = parse_error(HttpResponse { status: 400, body: Some(r#"{"error_code":7}"#.to_string()) });
    assert_eq!(error, RestError::Unknown { status: 400, body: r#"{"error_code":7}"#.to_string() });
    let error = parse_error(HttpResponse { status: 400, body: None });
    assert_eq!(
        error,
        RestError::Unknown {
            status: 400,
            body: "Could not turn error body into String.".to_string()
        }
    );
}

#[test]
fn an_invalid_parameter_is_a_storage_failure_for_get() {
    let body = r#"{"error_code":"INVALID_PARAMETER_VALUE","message":"bad"}"#;
    let mut server = server(400, body);
    let result = server.get_experiment(&ExperimentId::from("7"));
    assert_eq!(
        result,
        Err(GetError::Storage(StorageError::Rest(RestError::Known {
            status: 400,
            code: RestErrorCode::InvalidParameterValue,
            message: "bad".to_string(),
        })))
    );
    let seen = &server.transport().seen;
    assert_eq!(seen[0].method, RestMethod::Get);
    assert_eq!(seen[0].url, "http://localhost:5000/api/2.0/mlflow/experiments/get");
    assert_eq!(seen[0].payload, "experiment_id=7");
}

#[test]
fn an_already_existing_code_is_no_missing_resource() {
    let body = r#"{"error_code":"RESOURCE_ALREADY_EXISTS","message":"x"}"#;
    let mut server = server(400, body);
    assert!(matches!(
        server.get_experiment_by_name("bar"),
        Err(GetError::Storage(StorageError::Rest(RestError::Known { .. })))
    ));
    let body = r#"{"error_code":"RESOURCE_DOES_NOT_EXIST","message":"x"}"#;
    let mut server = Server::new(BASE, Canned::new(404, body));
    assert!(matches!(
        server.create_experiment("foo"),
        Err(CreateError::Storage(StorageError::Rest(RestError::Known { .. })))
    ));
}

#[test]
fn create_experiment_returns_the_identifier() {
    let mut server = server(200, r#"{"experiment_id":"12"}"#);
    assert_eq!(server.create_experiment("foo"), Ok(ExperimentId::from("12")));
}

#[test]
fn an_answer_of_another_shape_keeps_the_body() {
    let mut server = server(200, r#"{"id":"12"}"#);
    assert_eq!(
        server.create_experiment("foo"),
        Err(CreateError::Storage(StorageError::Response(r#"{"id":"12"}"#.to_string())))
    );
    let mut server = Server::new(BASE, Canned::new(200, "not json"));
    assert_eq!(
        server.create_experiment("foo"),
        Err(CreateError::Storage(StorageError::Response("not json".to_string())))
    );
}

#[test]
fn an_unreadable_body_is_a_storage_failure() {
    let stub = Canned { status: 200, body: None, seen: Vec::new() };
    let mut server = Server::new(BASE, stub);
    assert_eq!(server.list_experiments(ViewType::All), Err(StorageError::Unreadable));
}

#[test]
fn the_status_decides_whether_an_answer_is_an_error() {
    for status in [399u16, 200, 204, 302, 600] {
        let mut server = server(status, r#"{"experiment_id":"1"}"#);
        assert_eq!(server.create_experiment("foo"), Ok(ExperimentId::from("1")));
    }
    for status in [400u16, 404, 499, 500, 599] {
        let mut server = server(status, r#"{"experiment_id":"1"}"#);
        assert_eq!(
            server.create_experiment("foo"),
            Err(CreateError::Storage(StorageError::Rest(RestError::Unknown {
                status,
                body: r#"{"experiment_id":"1"}"#.to_string()
            })))
        );
    }
}

#[test]
fn list_experiments_reads_the_list() {
    let body = r#"{"experiments":[{"experiment_id":"0","name":"Default","artifact_location":"a","lifecycle_stage":"active","last_update_time":5,"creation_time":null,"tags":[{"key":"k","value":"v"}]},{"experiment_id":"1","name":"T1","artifact_location":"b","lifecycle_stage":"deleted"}]}"#;
    let mut server = server(200, body);
    let listed = server.list_experiments(ViewType::Active).unwrap();
    assert_eq!(listed.len(), 2);
    assert_eq!(listed[0].experiment_id.as_ref(), "0");
    assert_eq!(listed[0].last_update_time, Some(5));
    assert_eq!(listed[0].creation_time, None);
    assert_eq!(listed[0].tags.as_ref().unwrap().len(), 1);
    assert_eq!(listed[0].tags.as_ref().unwrap()[0].key, "k");
    assert_eq!(listed[1].name, "T1");
    assert_eq!(listed[1].lifecycle_stage, "deleted");
    let seen = &server.transport().seen;
    assert_eq!(seen[0].method, RestMethod::Get);
    assert_eq!(seen[0].url, "http://localhost:5000/api/2.0/mlflow/experiments/list");
    assert_eq!(seen[0].payload, "view_type=ACTIVE_ONLY");
}

#[test]
fn list_experiments_wants_the_list() {
    let mut server = server(200, "{}");
    assert_eq!(
        server.list_experiments(ViewType::Deleted),
        Err(StorageError::Response("{}".to_string()))
    );
    assert_eq!(server.transport().seen[0].payload, "view_type=DELETED_ONLY");
}

#[test]
fn delete_and_update_experiment_send_their_bodies() {
    let mut server = server(200, "{}");
    let id = ExperimentId::from("7");
    assert_eq!(server.delete_experiment(&id), Ok(()));
    assert_eq!(server.update_experiment(&id, Some("new")), Ok(()));
    assert_eq!(server.update_experiment(&id, None), Ok(()));
    let seen = &server.transport().seen;
    assert_eq!(seen.len(), 3);
    assert_eq!(seen[0].url, "http://localhost:5000/api/2.0/mlflow/experiments/delete");
    assert_eq!(seen[0].payload, r#"{"experiment_id":"7"}"#);
    assert_eq!(seen[1].url, "http://localhost:5000/api/2.0/mlflow/experiments/update");
    assert_eq!(seen[1].payload, r#"{"experiment_id":"7","new_name":"new"}"#);
    assert_eq!(seen[2].payload, r#"{"experiment_id":"7","new_name":null}"#);
    assert!(seen.iter().all(|request| request.method == RestMethod::Post));
}

#[test]
fn delete_reports_a_missing_resource_by_its_identifier() {
    let body = r#"{"error_code":"RESOURCE_DOES_NOT_EXIST","message":"x"}"#;
    let mut server = server(404, body);
    assert_eq!(
        server.delete_experiment(&ExperimentId::from("7")),
        Err(GetError::DoesNotExist("7".to_string()))
    );
    assert_eq!(server.delete_run(&RunId::from("r9")), Err(GetError::DoesNotExist("r9".to_string())));
    assert_eq!(server.get_run(&RunId::from("r9")), Err(GetError::DoesNotExist("r9".to_string())));
    assert_eq!(
        server.update_run(&RunId::from("r9"), RunStatus::Failed, 3),
        Err(GetError::DoesNotExist("r9".to_string()))
    );
    assert_eq!(
        server.get_metric_history(&RunId::from("r9"), "loss"),
        Err(GetError::DoesNotExist("r9".to_string()))
    );
}

#[test]
fn an_answer_that_is_no_object_is_refused_where_nothing_is_returned() {
    let mut server = server(200, "[]");
    assert_eq!(
        server.log_param(&RunId::from("r1"), "k", "v"),
        Err(StorageError::Response("[]".to_string()))
    );
    assert_eq!(read_nothing(ok("{\"anything\": 1}")), Ok(()));
    assert_eq!(
        read_nothing(ok("null")),
        Err(Failure::Storage(StorageError::Response("null".to_string())))
    );
}

#[test]
fn create_run_sends_the_start_and_reads_the_run() {
    let body = format!(r#"{{"run":{{"info":{},"data":{{}}}}}}"#, RUN_INFO);
    let mut server = server(200, &body);
    let run = server.create_run(&ExperimentId::from("7"), 1600000000000, &tags(1)).unwrap();
    assert_eq!(run.info.run_id, RunId::from("r1"));
    assert_eq!(run.info.experiment_id, ExperimentId::from("7"));
    assert_eq!(run.info.status, RunStatus::Running);
    assert_eq!(run.info.start_time, 1600000000000);
    assert_eq!(run.info.end_time, None);
    assert_eq!(run.data.metrics, None);
    assert_eq!(run.data.params, None);
    assert_eq!(run.data.tags, None);
    let seen = &server.transport().seen;
    assert_eq!(seen[0].method, RestMethod::Post);
    assert_eq!(seen[0].url, "http://localhost:5000/api/2.0/mlflow/runs/create");
    assert_eq!(
        seen[0].payload,
        r#"{"experiment_id":"7","start_time":1600000000000,"tags":[{"key":"t0","value":"v"}]}"#
    );
}

#[test]
fn get_run_goes_to_the_base_address() {
    let body = format!(
        r#"{{"run":{{"info":{},"data":{{"metrics":[{{"key":"loss","value":0.25,"timestamp":3,"step":1}}],"params":[{{"key":"lr","value":"0.1"}}],"tags":null}}}}}}"#,
        RUN_INFO
    );
    let mut server = server(200, &body);
    let run = server.get_run(&RunId::from("r1")).unwrap();
    assert_eq!(
        run.data.metrics,
        Some(vec![Metric { key: "loss".to_string(), value: number(0.25), timestamp: 3, step: 1 }])
    );
    assert_eq!(run.data.params, Some(vec![Param { key: "lr".to_string(), value: "0.1".to_string() }]));
    assert_eq!(run.data.tags, None);
    let seen = &server.transport().seen;
    assert_eq!(seen[0].method, RestMethod::Get);
    assert_eq!(seen[0].url, "http://localhost:5000/api/");
    assert_eq!(seen[0].payload, "run_id=r1");
}

#[test]
fn update_run_sends_the_status_and_reads_the_info() {
    let body = r#"{"run_info":{"run_id":"r1","run_uuid":"r1","experiment_id":"7","user_id":"u","status":"FINISHED","start_time":"5","end_time":"9","artifact_uri":"a","lifecycle_stage":"active"}}"#;
    let mut server = server(200, body);
    let info = server.update_run(&RunId::from("r1"), RunStatus::Finished, 9).unwrap();
    assert_eq!(info.status, RunStatus::Finished);
    assert_eq!(info.start_time, 5);
    assert_eq!(info.end_time, Some(9));
    let seen = &server.transport().seen;
    assert_eq!(seen[0].url, "http://localhost:5000/api/2.0/mlflow/runs/update");
    assert_eq!(seen[0].payload, r#"{"run_id":"r1","status":"FINISHED","end_time":9}"#);
}

#[test]
fn log_param_and_log_metric_send_their_bodies() {
    let mut server = server(200, "{}");
    let run = RunId::from("r1");
    assert_eq!(server.log_param(&run, "lr", "0.1"), Ok(()));
    assert_eq!(server.log_metric(&run, "loss", number(0.125), 11, 2), Ok(()));
    let seen = &server.transport().seen;
    assert_eq!(seen[0].url, "http://localhost:5000/api/2.0/mlflow/runs/log-parameter");
    assert_eq!(seen[0].payload, r#"{"run_id":"r1","key":"lr","value":"0.1"}"#);
    assert_eq!(seen[1].url, "http://localhost:5000/api/2.0/mlflow/runs/log-metric");
    assert_eq!(
        seen[1].payload,
        r#"{"run_id":"r1","key":"loss","value":0.125,"timestamp":11,"step":2}"#
    );
}

#[test]
fn get_metric_history_reads_the_points() {
    let body = r#"{"metrics":[{"key":"loss","value":1,"timestamp":3,"step":0},{"key":"loss","value":0.5,"timestamp":4,"step":1}]}"#;
    let mut server = server(200, body);
    let history = server.get_metric_history(&RunId::from("r1"), "loss").unwrap();
    assert_eq!(history.len(), 2);
    assert_eq!(history[0].value, serde_json::Number::from(1));
    assert_eq!(history[0].value.as_f64(), Some(1.0));
    assert_eq!(history[1].value.as_f64(), Some(0.5));
    assert_eq!(history[1].step, 1);
    let seen = &server.transport().seen;
    assert_eq!(seen[0].method, RestMethod::Get);
    assert_eq!(seen[0].url, "http://localhost:5000/api/2.0/mlflow/metrics/get-history");
    assert_eq!(seen[0].payload, "run_id=r1&metric_key=loss");
}

#[test]
fn search_runs_sends_the_search_and_reads_the_page() {
    let body = format!(
        r#"{{"runs":[{{"info":{},"data":{{}}}}],"next_page_token":"tok"}}"#,
        RUN_INFO
    );
    let mut server = server(200, &body);
    let first = ExperimentId::from("7");
    let second = ExperimentId::from("8");
    let page = server
        .search_runs(&[&first, &second], "metrics.loss < 1", ViewType::All, 50, Some("start_time"), None)
        .unwrap();
    assert_eq!(page.runs.len(), 1);
    assert_eq!(page.runs[0].info.run_id.as_ref(), "r1");
    assert_eq!(page.next_page_token.as_ref(), "tok");
    let seen = &server.transport().seen;
    assert_eq!(seen[0].method, RestMethod::Post);
    assert_eq!(seen[0].url, "http://localhost:5000/api/2.0/mlflow/runs/search");
    assert_eq!(
        seen[0].payload,
        r#"{"experiment_ids":["7","8"],"filter":"metrics.loss < 1","run_view_type":"ALL","max_results":50,"order_by":"start_time","page_token":null}"#
    );
}

#[test]
fn list_run_infos_searches_one_experiment_and_keeps_the_infos() {
    let body = format!(
        r#"{{"runs":[{{"info":{},"data":{{"metrics":"ignored"}}}},{{"info":{}}}],"next_page_token":"tok"}}"#,
        RUN_INFO,
        RUN_INFO.replace("\"r1\"", "\"r2\"")
    );
    let mut server = server(200, &body);
    let page = server
        .list_run_infos(&ExperimentId::from("7"), ViewType::Active, 10, None, Some("p"))
        .unwrap();
    assert_eq!(page.runs.len(), 2);
    assert_eq!(page.runs[0].run_id.as_ref(), "r1");
    assert_eq!(page.runs[1].run_id.as_ref(), "r2");
    assert_eq!(page.page_token.as_ref(), "tok");
    let seen = &server.transport().seen;
    assert_eq!(seen[0].url, "http://localhost:5000/api/2.0/mlflow/runs/search");
    assert_eq!(
        seen[0].payload,
        r#"{"experiment_ids":["7"],"filter":"","run_view_type":"ACTIVE_ONLY","max_results":10,"order_by":null,"page_token":"p"}"#
    );
}

#[test]
fn query_strings_escape_what_a_query_cannot_hold() {
    let mut server = server(404, "gone");
    let _ = server.get_experiment_by_name("a b&c=d");
    assert_eq!(server.transport().seen[0].payload, "experiment_name=a+b%26c%3Dd");
}

#[test]
fn every_endpoint_has_its_path_and_method() {
    let table = [
        (Endpoint::CreateExperiment, RestMethod::Post, "2.0/mlflow/experiments/create"),
        (Endpoint::GetExperiment, RestMethod::Get, "2.0/mlflow/experiments/get"),
        (Endpoint::GetExperimentByName, RestMethod::Get, "2.0/mlflow/experiments/get-by-name"),
        (Endpoint::ListExperiments, RestMethod::Get, "2.0/mlflow/experiments/list"),
        (Endpoint::UpdateExperiment, RestMethod::Post, "2.0/mlflow/experiments/update"),
        (Endpoint::DeleteExperiment, RestMethod::Post, "2.0/mlflow/experiments/delete"),
        (Endpoint::CreateRun, RestMethod::Post, "2.0/mlflow/runs/create"),
        (Endpoint::DeleteRun, RestMethod::Post, "2.0/mlflow/runs/delete"),
        (Endpoint::GetRun, RestMethod::Get, ""),
        (Endpoint::UpdateRun, RestMethod::Post, "2.0/mlflow/runs/update"),
        (Endpoint::LogParam, RestMethod::Post, "2.0/mlflow/runs/log-parameter"),
        (Endpoint::LogMetric, RestMethod::Post, "2.0/mlflow/runs/log-metric"),
        (Endpoint::LogBatch, RestMethod::Post, "2.0/mlflow/runs/log-batch"),
        (Endpoint::GetMetricHistory, RestMethod::Get, "2.0/mlflow/metrics/get-history"),
        (Endpoint::SearchRuns, RestMethod::Post, "2.0/mlflow/runs/search"),
    ];
    for (endpoint, method, path) in table {
        assert_eq!(endpoint.method(), method);
        assert_eq!(endpoint.path(), path);
    }
}

#[test]
fn build_request_joins_the_base_and_the_path() {
    let payload = Payload::delete_run(&RunId::from("r1"));
    let request = build_request("http://host/api", Endpoint::DeleteRun, &payload).unwrap();
    assert_eq!(
        request,
        HttpRequest {
            method: RestMethod::Post,
            url: "http://host/api/2.0/mlflow/runs/delete".to_string(),
            payload: r#"{"run_id":"r1"}"#.to_string(),
        }
    );
}

#[test]
fn read_document_reads_the_whole_answer() {
    let envelope = read_document::<ErrorResponse>(ok(r#"{"error_code":"X","message":"m","more":1}"#));
    assert_eq!(
        envelope,
        Ok(ErrorResponse { error_code: "X".to_string(), message: "m".to_string() })
    );
    let run = read_member::<Run>("run", ok(r#"{"run":{"info":{}}}"#));
    assert_eq!(
        run,
        Err(Failure::Storage(StorageError::Response(r#"{"run":{"info":{}}}"#.to_string())))
    );
}

#[test]
fn an_operation_can_be_run_by_hand() {
    let payload = Payload::create_experiment("foo");
    let request = build_request(BASE, Endpoint::CreateExperiment, &payload).unwrap();
    assert_eq!(request.url, "http://localhost:5000/api/2.0/mlflow/experiments/create");
    let answer = HttpResponse { status: 200, body: Some(r#"{"experiment_id":"3"}"#.to_string()) };
    assert_eq!(read_create_experiment("foo", answer), Ok(ExperimentId::from("3")));
    let answer = HttpResponse {
        status: 400,
        body: Some(r#"{"error_code":"RESOURCE_ALREADY_EXISTS","message":"x"}"#.to_string()),
    };
    assert_eq!(
        read_create_experiment("foo", answer),
        Err(CreateError::AlreadyExists("foo".to_string()))
    );
}

#[test]
fn each_operation_reads_its_own_answer() {
    let missing = || HttpResponse {
        status: 404,
        body: Some(r#"{"error_code":"RESOURCE_DOES_NOT_EXIST","message":"x"}"#.to_string()),
    };
    let known = || {
        StorageError::Rest(RestError::Known {
            status: 404,
            code: RestErrorCode::ResourceDoesNotExist,
            message: "x".to_string(),
        })
    };
    assert_eq!(read_get_experiment("n", missing()), Err(GetError::DoesNotExist("n".to_string())));
    assert_eq!(read_delete("n", missing()), Err(GetError::DoesNotExist("n".to_string())));
    assert_eq!(read_get_run("r", missing()), Err(GetError::DoesNotExist("r".to_string())));
    assert_eq!(read_update_run("r", missing()), Err(GetError::DoesNotExist("r".to_string())));
    assert_eq!(read_get_metric_history("r", missing()), Err(GetError::DoesNotExist("r".to_string())));
    assert_eq!(read_list_experiments(missing()), Err(known()));
    assert_eq!(read_plain(missing()), Err(known()));
    assert_eq!(read_create_run(missing()), Err(known()));
    assert_eq!(read_search_runs(missing()), Err(known()));
    assert_eq!(read_list_run_infos(missing()), Err(known()));
    assert_eq!(read_log_batch(missing()), Err(BatchError::Storage(known())));

    assert_eq!(read_delete("n", ok("{}")), Ok(()));
    assert_eq!(read_plain(ok("{}")), Ok(()));
    assert_eq!(read_log_batch(ok("{}")), Ok(()));
    assert_eq!(read_list_experiments(ok(r#"{"experiments":[]}"#)), Ok(vec![]));
    assert_eq!(read_get_metric_history("r", ok(r#"{"metrics":[]}"#)), Ok(vec![]));
    let page = read_search_runs(ok(r#"{"runs":[],"next_page_token":"t"}"#)).unwrap();
    assert_eq!(page.runs.len(), 0);
    assert_eq!(page.next_page_token.as_ref(), "t");
    let page = read_list_run_infos(ok(r#"{"runs":[],"next_page_token":"t"}"#)).unwrap();
    assert_eq!(page.runs.len(), 0);
    assert_eq!(page.page_token.as_ref(), "t");
    let body = format!(r#"{{"run":{{"info":{},"data":{{}}}}}}"#, RUN_INFO);
    assert_eq!(read_create_run(ok(&body)).unwrap().info.run_id.as_ref(), "r1");
    assert_eq!(read_get_run("r1", ok(&body)).unwrap().info.user_id, "u");
    let body = format!(r#"{{"run_info":{}}}"#, RUN_INFO);
    assert_eq!(read_update_run("r1", ok(&body)).unwrap().status, RunStatus::Running);
    let body = r#"{"experiment":{"experiment_id":"1","name":"T1","artifact_location":"a","lifecycle_stage":"active"}}"#;
    assert_eq!(read_get_experiment("T1", ok(body)).unwrap().name, "T1");
}
