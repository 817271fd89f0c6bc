use mlflow::api::client::{LifecycleStage, ViewType};
use mlflow::api::experiment::{Experiment, ExperimentTag};
use mlflow::api::id::{ExperimentId, RunId};
use mlflow::api::run::{Metric, Param, Run, RunData, RunInfo, RunStatus, RunTag};
use mlflow::api::search::{PageToken, RunList, Search};
use mlflow::json::Json;
use mlflow::wire::{from_envelope_text, from_text, to_envelope_text, to_text, Wire};

fn text_of<T: Wire>(value: &T) -> String {
    to_text(value).unwrap()
}

fn value_of<T: Wire>(text: &str) -> Option<T> {
    from_text(text)
}

fn experiment() -> Experiment {
    Experiment {
        experiment_id: ExperimentId::from("1"),
        name: "T1".to_string(),
        artifact_location: "./mlruns/1".to_string(),
        lifecycle_stage: "active".to_string(),
        last_update_time: Some(1600000000001),
        creation_time: None,
        tags: Some(vec![ExperimentTag { key: "team".to_string(), value: "a \"b\"".to_string() }]),
    }
}

fn run_info() -> RunInfo {
    RunInfo {
        run_id: RunId::from("r1"),
        run_uuid: "r1".to_string(),
        experiment_id: ExperimentId::from("1"),
        user_id: "me".to_string(),
        status: RunStatus::Scheduled,
        start_time: 1600000000000,
        end_time: Some(-5),
        artifact_uri: "./mlruns/1/r1".to_string(),
        lifecycle_stage: "active".to_string(),
    }
}

fn number(value: f64) -> serde_json::Number {
    serde_json::Number::from_f64(value).unwrap()
}

fn run() -> Run {
    Run {
        info: run_info(),
        data: RunData {
            metrics: Some(vec![
                Metric { key: "loss".to_string(), value: number(0.25), timestamp: 3, step: 0 },
                Metric { key: "loss".to_string(), value: number(-1e-7), timestamp: 4, step: 1 },
            ]),
            params: Some(vec![]),
            tags: None,
        },
    }
}

#[test]
fn an_experiment_envelope_is_read_written_and_read_again() {
    let text = r#"{"experiment":{"experiment_id":"1","name":"T1","artifact_location":"./mlruns/1","lifecycle_stage":"active","creation_time":12,"tags":[{"key":"k","value":"v"}],"unknown":true}}"#;
    let first: Experiment = from_envelope_text("experiment", text).unwrap();
    assert_eq!(first.creation_time, Some(12));
    assert_eq!(first.last_update_time, None);
    let written = to_envelope_text("experiment", &first).unwrap();
    assert_eq!(
        written,
        r#"{"experiment":{"experiment_id":"1","name":"T1","artifact_location":"./mlruns/1","lifecycle_stage":"active","last_update_time":null,"creation_time":12,"tags":[{"key":"k","value":"v"}]}}"#
    );
    let second: Experiment = from_envelope_text("experiment", &written).unwrap();
    assert_eq!(second, first);
}

#[test]
fn an_experiment_is_written_with_the_names_of_the_protocol() {
    assert_eq!(
        text_of(&experiment()),
        r#"{"experiment_id":"1","name":"T1","artifact_location":"./mlruns/1","lifecycle_stage":"active","last_update_time":1600000000001,"creation_time":null,"tags":[{"key":"team","value":"a \"b\""}]}"#
    );
    assert_eq!(value_of::<Experiment>(&text_of(&experiment())), Some(experiment()));
}

#[test]
fn an_experiment_needs_its_required_members() {
    assert_eq!(
        value_of::<Experiment>(r#"{"experiment_id":"1","name":"T1","artifact_location":"a"}"#),
        None
    );
    assert_eq!(
        value_of::<Experiment>(
            r#"{"experiment_id":1,"name":"T1","artifact_location":"a","lifecycle_stage":"active"}"#
        ),
        None
    );
    assert_eq!(
        value_of::<Experiment>(
            r#"{"experiment_id":"1","name":"T1","artifact_location":"a","lifecycle_stage":"active","creation_time":"12"}"#
        ),
        None
    );
    assert_eq!(
        value_of::<Experiment>(
            r#"{"experiment_id":"1","name":"T1","artifact_location":"a","lifecycle_stage":"active","creation_time":1.5}"#
        ),
        None
    );
    assert_eq!(
        value_of::<Experiment>(
            r#"{"experiment_id":"1","name":"T1","artifact_location":"a","lifecycle_stage":"active","tags":{}}"#
        ),
        None
    );
    assert_eq!(value_of::<Experiment>("[]"), None);
    assert_eq!(value_of::<Experiment>("null"), None);
}

#[test]
fn a_run_info_writes_its_times_as_text() {
    assert_eq!(
        text_of(&run_info()),
        r#"{"run_id":"r1","run_uuid":"r1","experiment_id":"1","user_id":"me","status":"SCHEDULED","start_time":"1600000000000","end_time":"-5","artifact_uri":"./mlruns/1/r1","lifecycle_stage":"active"}"#
    );
    assert_eq!(value_of::<RunInfo>(&text_of(&run_info())), Some(run_info()));
    let mut open = run_info();
    open.end_time = None;
    assert!(text_of(&open).contains(r#""end_time":null"#));
    assert_eq!(value_of::<RunInfo>(&text_of(&open)), Some(open));
}

#[test]
fn a_run_info_reads_its_times_from_text_only() {
    let with = |start: &str, end: &str| {
        format!(
            r#"{{"run_id":"r1","run_uuid":"r1","experiment_id":"1","user_id":"me","status":"KILLED","start_time":{},{}"artifact_uri":"a","lifecycle_stage":"active"}}"#,
            start, end
        )
    };
    let read = value_of::<RunInfo>(&with("\"12\"", "")).unwrap();
    assert_eq!(read.start_time, 12);
    assert_eq!(read.end_time, None);
    assert_eq!(read.status, RunStatus::Killed);
    assert_eq!(value_of::<RunInfo>(&with("\"12\"", "\"end_time\":\"13\",")).unwrap().end_time, Some(13));
    assert_eq!(value_of::<RunInfo>(&with("\"12\"", "\"end_time\":null,")).unwrap().end_time, None);
    assert_eq!(value_of::<RunInfo>(&with("12", "")), None);
    assert_eq!(value_of::<RunInfo>(&with("\"12\"", "\"end_time\":13,")), None);
    assert_eq!(value_of::<RunInfo>(&with("\"12\"", "\"end_time\":\"soon\",")), None);
    assert_eq!(value_of::<RunInfo>(&with("\"\"", "")), None);
    assert_eq!(value_of::<RunInfo>(&with("\"1.5\"", "")), None);
}

#[test]
fn an_unknown_status_is_refused() {
    assert_eq!(value_of::<RunStatus>("\"RUNNING\""), Some(RunStatus::Running));
    assert_eq!(value_of::<RunStatus>("\"SCHEDULED\""), Some(RunStatus::Scheduled));
    assert_eq!(value_of::<RunStatus>("\"FINISHED\""), Some(RunStatus::Finished));
    assert_eq!(value_of::<RunStatus>("\"FAILED\""), Some(RunStatus::Failed));
    assert_eq!(value_of::<RunStatus>("\"KILLED\""), Some(RunStatus::Killed));
    assert_eq!(value_of::<RunStatus>("\"running\""), None);
    assert_eq!(value_of::<RunStatus>("\"PAUSED\""), None);
    assert_eq!(value_of::<RunStatus>("\"\""), None);
    assert_eq!(value_of::<RunStatus>("1"), None);
    assert_eq!(RunStatus::parse("DONE"), None);
    let text = r#"{"run_id":"r1","run_uuid":"r1","experiment_id":"1","user_id":"me","status":"PAUSED","start_time":"1","artifact_uri":"a","lifecycle_stage":"active"}"#;
    assert_eq!(value_of::<RunInfo>(text), None);
}

#[test]
fn each_status_has_its_word() {
    let all = [
        (RunStatus::Running, "RUNNING"),
        (RunStatus::Scheduled, "SCHEDULED"),
        (RunStatus::Finished, "FINISHED"),
        (RunStatus::Failed, "FAILED"),
        (RunStatus::Killed, "KILLED"),
    ];
    for (status, word) in all {
        assert_eq!(status.as_str(), word);
        assert_eq!(RunStatus::parse(word), Some(status));
        assert_eq!(text_of(&status), format!("\"{}\"", word));
    }
}

#[test]
fn view_types_and_stages_have_their_words() {
    assert_eq!(ViewType::Active.as_str(), "ACTIVE_ONLY");
    assert_eq!(ViewType::Deleted.as_str(), "DELETED_ONLY");
    assert_eq!(ViewType::All.as_str(), "ALL");
    assert_eq!(ViewType::parse("ALL"), Some(ViewType::All));
    assert_eq!(ViewType::parse("ACTIVE_ONLY"), Some(ViewType::Active));
    assert_eq!(ViewType::parse("DELETED_ONLY"), Some(ViewType::Deleted));
    assert_eq!(ViewType::parse("all"), None);
    assert_eq!(value_of::<ViewType>("\"ALL\""), Some(ViewType::All));
    assert_eq!(text_of(&ViewType::Deleted), "\"DELETED_ONLY\"");
    assert_eq!(LifecycleStage::Active.as_str(), "active");
    assert_eq!(LifecycleStage::Deleted.as_str(), "deleted");
    assert_eq!(LifecycleStage::parse("active"), Some(LifecycleStage::Active));
    assert_eq!(LifecycleStage::parse("deleted"), Some(LifecycleStage::Deleted));
    assert_eq!(LifecycleStage::parse("ACTIVE"), None);
    assert_eq!(value_of::<LifecycleStage>("\"deleted\""), Some(LifecycleStage::Deleted));
    assert_eq!(text_of(&LifecycleStage::Active), "\"active\"");
}

#[test]
fn a_metric_carries_its_number() {
    let metric = Metric { key: "loss".to_string(), value: number(0.1), timestamp: 10, step: -2 };
    assert_eq!(text_of(&metric), r#"{"key":"loss","value":0.1,"timestamp":10,"step":-2}"#);
    assert_eq!(value_of::<Metric>(&text_of(&metric)), Some(metric));
    let whole = value_of::<Metric>(r#"{"key":"n","value":3,"timestamp":1,"step":1}"#).unwrap();
    assert_eq!(whole.value, serde_json::Number::from(3));
    let large = value_of::<Metric>(r#"{"key":"n","value":18446744073709551615,"timestamp":1,"step":1}"#)
        .unwrap();
    assert_eq!(large.value, serde_json::Number::from(u64::MAX));
    assert_eq!(text_of(&large), r#"{"key":"n","value":18446744073709551615,"timestamp":1,"step":1}"#);
    assert_eq!(value_of::<Metric>(r#"{"key":"n","value":"3","timestamp":1,"step":1}"#), None);
    assert_eq!(value_of::<Metric>(r#"{"key":"n","value":3,"timestamp":1.5,"step":1}"#), None);
    assert_eq!(value_of::<Metric>(r#"{"key":"n","value":3,"timestamp":1}"#), None);
}

#[test]
fn params_and_tags_are_a_key_with_a_value() {
    let param = Param { key: "lr".to_string(), value: "0.1".to_string() };
    assert_eq!(text_of(&param), r#"{"key":"lr","value":"0.1"}"#);
    assert_eq!(value_of::<Param>(r#"{"value":"0.1","key":"lr"}"#), Some(param));
    let tag = RunTag { key: "k".to_string(), value: "".to_string() };
    assert_eq!(value_of::<RunTag>(&text_of(&tag)), Some(tag));
    let tag = ExperimentTag { key: "é".to_string(), value: "ü\n".to_string() };
    assert_eq!(value_of::<ExperimentTag>(&text_of(&tag)), Some(tag));
    assert_eq!(value_of::<Param>(r#"{"key":"lr"}"#), None);
    assert_eq!(value_of::<Param>(r#"{"key":"lr","value":1}"#), None);
    assert_eq!(value_of::<RunTag>(r#"{"key":null,"value":"v"}"#), None);
}

#[test]
fn a_run_is_written_and_read_back() {
    let text = text_of(&run());
    assert!(text.starts_with(r#"{"info":{"run_id":"r1""#));
    assert!(text.ends_with(
        r#""data":{"metrics":[{"key":"loss","value":0.25,"timestamp":3,"step":0},{"key":"loss","value":-1e-7,"timestamp":4,"step":1}],"params":[],"tags":null}}"#
    ));
    assert_eq!(value_of::<Run>(&text), Some(run()));
    assert_eq!(value_of::<Run>(r#"{"info":null,"data":{}}"#), None);
    assert_eq!(value_of::<RunData>("{}"), Some(RunData { metrics: None, params: None, tags: None }));
    assert_eq!(value_of::<RunData>(r#"{"metrics":[{}]}"#), None);
}

#[test]
fn a_search_page_is_written_and_read_back() {
    let page = Search { runs: vec![run(), run()], next_page_token: PageToken::from("next") };
    assert_eq!(value_of::<Search>(&text_of(&page)), Some(page));
    assert_eq!(value_of::<Search>(r#"{"runs":[]}"#), None);
    assert_eq!(value_of::<Search>(r#"{"next_page_token":"t"}"#), None);
    let list = RunList { runs: vec![run_info()], page_token: PageToken::from("next") };
    let text = text_of(&list);
    assert!(text.starts_with(r#"{"runs":[{"info":{"#));
    assert_eq!(value_of::<RunList>(&text), Some(list));
    let many = RunList {
        runs: (0..5)
            .map(|i| {
                let mut info = run_info();
                info.run_id = RunId::from(format!("r{}", i));
                info
            })
            .collect(),
        page_token: PageToken::from(""),
    };
    let read = value_of::<RunList>(&text_of(&many)).unwrap();
    assert_eq!(read, many);
    assert_eq!(read.runs[4].run_id.as_ref(), "r4");
}

#[test]
fn identifiers_are_plain_text() {
    let id = ExperimentId::from("42");
    assert_eq!(id.as_ref(), "42");
    assert_eq!(id, ExperimentId::from("42".to_string()));
    assert_eq!(id, ExperimentId::new("42".to_string()));
    assert_ne!(id, ExperimentId::from("43"));
    assert_eq!(id.duplicate(), id);
    assert_eq!(text_of(&id), "\"42\"");
    assert_eq!(value_of::<ExperimentId>("\"42\""), Some(id));
    assert_eq!(value_of::<ExperimentId>("42"), None);
    let run = RunId::from("abc");
    assert_eq!(run.as_ref(), "abc");
    assert_eq!(run, RunId::from("abc".to_string()));
    assert_eq!(value_of::<RunId>(&text_of(&run)), Some(run.duplicate()));
    let token = PageToken::from("t");
    assert_eq!(token.as_ref(), "t");
    assert_eq!(token, PageToken::from("t".to_string()));
    assert_eq!(value_of::<PageToken>(&text_of(&token)), Some(token.duplicate()));
}

#[test]
fn members_are_found_by_name() {
    let doc = Json::Record(vec![
        ("a".to_string(), Json::Int(2)),
        ("b".to_string(), Json::Null),
        ("c".to_string(), Json::Text("x".to_string())),
        ("d".to_string(), Json::List(vec![Json::Bool(true)])),
        ("a".to_string(), Json::Int(3)),
    ]);
    assert_eq!(doc.member("a").unwrap().integer(), Some(2));
    assert!(matches!(doc.member("b"), Some(Json::Null)));
    assert!(doc.present("b").is_none());
    assert!(doc.present("zz").is_none());
    assert_eq!(doc.present("c").unwrap().text(), Some(&"x".to_string()));
    assert_eq!(doc.member("d").unwrap().items().unwrap().len(), 1);
    assert!(matches!(doc.member("d").unwrap().items().unwrap()[0], Json::Bool(true)));
    assert!(doc.member("e").is_none());
    assert!(doc.member("c").unwrap().integer().is_none());
    assert!(doc.member("a").unwrap().text().is_none());
    assert!(doc.member("a").unwrap().member("a").is_none());
    assert!(Json::Int(1).items().is_none());
}

#[test]
fn a_text_that_is_no_document_stands_for_nothing() {
    assert_eq!(value_of::<Param>("{"), None);
    assert_eq!(value_of::<Param>(""), None);
    assert_eq!(from_envelope_text::<Experiment>("experiment", "{\"experiment\":"), None);
    assert_eq!(from_envelope_text::<Experiment>("experiment", "{\"run\":{}}"), None);
    assert_eq!(value_of::<Param>(r#"{"key":"a","key":"b","value":"v"}"#).unwrap().key, "b");
}

#[test]
fn numbers_are_integers_where_they_fit() {
    let with = |time: &str| {
        format!(
            r#"{{"experiment_id":"1","name":"n","artifact_location":"a","lifecycle_stage":"active","creation_time":{}}}"#,
            time
        )
    };
    assert_eq!(value_of::<Experiment>(&with("12")).unwrap().creation_time, Some(12));
    assert_eq!(
        value_of::<Experiment>(&with("-9223372036854775808")).unwrap().creation_time,
        Some(i64::MIN)
    );
    assert_eq!(
        value_of::<Experiment>(&with("9223372036854775807")).unwrap().creation_time,
        Some(i64::MAX)
    );
    assert_eq!(value_of::<Experiment>(&with("9223372036854775808")), None);
    assert_eq!(value_of::<Experiment>(&with("1.0")), None);
    assert_eq!(value_of::<Experiment>(&with("1e2")), None);
}
