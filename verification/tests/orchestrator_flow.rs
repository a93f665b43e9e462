use promql_storage::orchestrator::{search, Action, Event, MetricsQuery, Phase, QueryRun};
use promql_storage::schema::{DataType, Field, Schema};
use promql_storage::session::{Session, SessionKind, SessionRegistry};
use promql_storage::types::{
    FileEntry, FileFormat, LabelFilter, LoadError, SearchError, StreamType, Value,
};

fn query(text: &str, start: i64, end: i64, step: i64) -> MetricsQuery {
    MetricsQuery { query: text.to_string(), start, end, step }
}

fn file(name: &str, stream: &str, time_min: i64, time_max: i64) -> FileEntry {
    FileEntry {
        name: name.to_string(),
        org_id: "org1".to_string(),
        stream_name: stream.to_string(),
        stream_type: StreamType::Metrics,
        time_min,
        time_max,
        size: 1024,
        schema_version: 1,
        labels: Vec::new(),
    }
}

fn labeled(name: &str, stream: &str, time_min: i64, time_max: i64, labels: &[(&str, &str)]) -> FileEntry {
    let mut f = file(name, stream, time_min, time_max);
    f.labels = labels
        .iter()
        .map(|(l, v)| LabelFilter { label: l.to_string(), value: v.to_string() })
        .collect();
    f
}

fn start_run(text: &str) -> QueryRun {
    search("session-a".to_string(), "org1".to_string(), &query(text, 1_000, 9_000, 100))
        .expect("query should parse")
}

fn request_context(run: &mut QueryRun, stream: &str, start: i64, end: i64) {
    let a = run.step(Event::ContextRequested {
        stream_name: stream.to_string(),
        start,
        end,
        filters: Vec::new(),
    });
    assert_eq!(a, Action::ListFiles);
}

#[test]
fn parse_accepts_minimal_instant_vector() {
    let r = search("s".to_string(), "org1".to_string(), &query("up", 0, 10, 1));
    assert!(r.is_ok());
}

#[test]
fn parse_rejects_malformed_query() {
    let r = search("s".to_string(), "org1".to_string(), &query("up{", 0, 10, 1));
    match r {
        Err(SearchError::Parse(_)) => {}
        _ => panic!("malformed query must fail with a parse error"),
    }
}

#[test]
fn open_run_maps_each_parse_outcome() {
    let q = query("up", 0, 10, 1);
    let rejected = promql_storage::orchestrator::open_run(
        "s".to_string(),
        "org1".to_string(),
        &q,
        Err("boom".to_string()),
    );
    match rejected {
        Err(SearchError::Parse(m)) => assert_eq!(m, "boom"),
        _ => panic!("a rejected text must become the parse error"),
    }
    let expr = promql_parser::parser::parse("up").expect("the parser accepts it");
    let accepted =
        promql_storage::orchestrator::open_run("s".to_string(), "org1".to_string(), &q, Ok(expr));
    assert!(accepted.is_ok());
}

#[test]
fn statement_carries_times_and_fixed_lookback() {
    let run = start_run("up");
    assert_eq!(run.stmt.start, 1_000);
    assert_eq!(run.stmt.end, 9_000);
    assert_eq!(run.stmt.interval, 100);
    assert_eq!(run.stmt.lookback_delta, 300_000_000);
    assert_eq!(run.phase, Phase::Evaluating);
}

#[test]
fn resolves_only_overlapping_file() {
    // One file overlaps the queried range, the other lies entirely after it:
    // exactly the overlapping file is resolved.
    let mut run = start_run("up");
    request_context(&mut run, "up", 1_000, 9_000);
    let inside = file("f-inside", "up", 500, 2_000);
    let outside = file("f-outside", "up", 20_000, 30_000);
    let a = run.step(Event::FileList(Ok(vec![inside.clone(), outside])));
    assert_eq!(a, Action::LoadFiles);
    assert_eq!(run.files.len(), 1);
    assert_eq!(run.files[0].name, "f-inside");
}

#[test]
fn empty_file_list_yields_empty_result_without_error() {
    let mut run = start_run("up");
    request_context(&mut run, "up", 1_000, 9_000);
    let a = run.step(Event::FileList(Ok(Vec::new())));
    assert_eq!(a, Action::ClearSession);
    let b = run.step(Event::Cleared);
    assert_eq!(b, Action::Finish);
    assert_eq!(run.into_outcome(), Ok(Value::Empty));
}

#[test]
fn no_matching_time_or_labels_yields_empty_result_not_error() {
    // Candidates exist, but none overlaps the range and none carries the
    // filtered label value: the query resolves no file and returns the
    // no-data value, not an error.
    let mut run = start_run("up");
    let a = run.step(Event::ContextRequested {
        stream_name: "up".to_string(),
        start: 1_000,
        end: 9_000,
        filters: vec![LabelFilter { label: "env".to_string(), value: "prod".to_string() }],
    });
    assert_eq!(a, Action::ListFiles);
    let late = file("f-late", "up", 20_000, 30_000);
    let wrong_label = labeled("f-dev", "up", 2_000, 3_000, &[("env", "dev")]);
    let a = run.step(Event::FileList(Ok(vec![late, wrong_label])));
    assert_eq!(a, Action::ClearSession);
    let b = run.step(Event::Cleared);
    assert_eq!(b, Action::Finish);
    assert_eq!(run.into_outcome(), Ok(Value::Empty));
}

#[test]
fn label_filter_prunes_only_contradictions_by_default() {
    // Default options: a file that does not record the filtered label is
    // kept; a file recording a different value is pruned.
    let mut run = start_run("up");
    let a = run.step(Event::ContextRequested {
        stream_name: "up".to_string(),
        start: 1_000,
        end: 9_000,
        filters: vec![LabelFilter { label: "env".to_string(), value: "prod".to_string() }],
    });
    assert_eq!(a, Action::ListFiles);
    let unlabeled = file("f-any", "up", 2_000, 3_000);
    let matching = labeled("f-prod", "up", 2_000, 3_000, &[("env", "prod")]);
    let contradicting = labeled("f-dev", "up", 2_000, 3_000, &[("env", "dev")]);
    let a = run.step(Event::FileList(Ok(vec![unlabeled, matching, contradicting])));
    assert_eq!(a, Action::LoadFiles);
    let names: Vec<&str> = run.files.iter().map(|f| f.name.as_str()).collect();
    assert_eq!(names, vec!["f-any", "f-prod"]);
}

#[test]
fn full_run_clears_session_on_success() {
    let sid = "session-a".to_string();
    let mut registry = SessionRegistry::new();
    let mut run = start_run("up");
    request_context(&mut run, "up", 1_000, 9_000);
    let a = run.step(Event::FileList(Ok(vec![file("f1", "up", 500, 2_000)])));
    assert_eq!(a, Action::LoadFiles);
    let a = run.step(Event::Loaded(Ok(())));
    assert_eq!(a, Action::FetchSchema);
    let fetched = Schema {
        fields: vec![Field { name: "value".to_string(), data_type: DataType::Integer }],
        metadata: vec![("origin".to_string(), "registry".to_string())],
    };
    let a = run.step(Event::SchemaFetched(Ok(fetched)));
    assert_eq!(a, Action::BindTable);
    let resolved = run.resolved_schema.clone().expect("schema must be resolved");
    assert_eq!(resolved.fields.len(), 1);
    assert!(resolved.metadata.is_empty());
    let handle = registry
        .bind(
            Session { id: sid.clone(), kind: SessionKind::Storage },
            run.stream.clone(),
            resolved,
            run.files.clone(),
            "up".to_string(),
            FileFormat::Parquet,
        )
        .expect("first bind must succeed");
    assert_eq!(handle.file_count, 1);
    assert_eq!(handle.field_count, 1);
    let a = run.step(Event::Bound(Ok(handle)));
    assert_eq!(a, Action::Evaluate);
    let a = run.step(Event::Evaluated(Ok(Value::Payload("series".to_string()))));
    assert_eq!(a, Action::ClearSession);
    registry.clear(&sid);
    let b = run.step(Event::Cleared);
    assert_eq!(b, Action::Finish);
    assert_eq!(run.into_outcome(), Ok(Value::Payload("series".to_string())));
    assert!(registry.lookup(&sid, &"up".to_string()).is_none());
}

#[test]
fn failing_run_still_clears_session() {
    // A schema failure fixes the error outcome, but teardown is still
    // demanded before the run finishes; repeated failing runs leak nothing.
    let sid = "session-a".to_string();
    let mut registry = SessionRegistry::new();
    for _ in 0..3 {
        let mut run = start_run("up");
        request_context(&mut run, "up", 1_000, 9_000);
        let a = run.step(Event::FileList(Ok(vec![file("f1", "up", 500, 2_000)])));
        assert_eq!(a, Action::LoadFiles);
        let a = run.step(Event::Loaded(Ok(())));
        assert_eq!(a, Action::FetchSchema);
        let a = run.step(Event::SchemaFetched(Err("schema missing".to_string())));
        assert_eq!(a, Action::ClearSession);
        registry.clear(&sid);
        let b = run.step(Event::Cleared);
        assert_eq!(b, Action::Finish);
        match run.into_outcome() {
            Err(SearchError::Schema(m)) => assert_eq!(m, "schema missing"),
            other => panic!("expected a schema error, got {:?}", other),
        }
        assert!(registry.lookup(&sid, &"up".to_string()).is_none());
    }
}

#[test]
fn each_stage_failure_reports_its_error() {
    // Metadata-index failure.
    let mut run = start_run("up");
    request_context(&mut run, "up", 1_000, 9_000);
    let a = run.step(Event::FileList(Err("index unreachable".to_string())));
    assert_eq!(a, Action::ClearSession);
    run.step(Event::Cleared);
    match run.into_outcome() {
        Err(SearchError::FileList(m)) => assert_eq!(m, "index unreachable"),
        other => panic!("expected a file-list error, got {:?}", other),
    }

    // Load failure.
    let mut run = start_run("up");
    request_context(&mut run, "up", 1_000, 9_000);
    run.step(Event::FileList(Ok(vec![file("f1", "up", 500, 2_000)])));
    let a = run.step(Event::Loaded(Err(LoadError {
        file_name: "f1".to_string(),
        message: "download failed".to_string(),
    })));
    assert_eq!(a, Action::ClearSession);
    run.step(Event::Cleared);
    match run.into_outcome() {
        Err(SearchError::Load(e)) => {
            assert_eq!(e.file_name, "f1");
            assert_eq!(e.message, "download failed");
        }
        other => panic!("expected a load error, got {:?}", other),
    }

    // Bind failure.
    let mut run = start_run("up");
    request_context(&mut run, "up", 1_000, 9_000);
    run.step(Event::FileList(Ok(vec![file("f1", "up", 500, 2_000)])));
    run.step(Event::Loaded(Ok(())));
    run.step(Event::SchemaFetched(Ok(Schema { fields: Vec::new(), metadata: Vec::new() })));
    let a = run.step(Event::Bound(Err(promql_storage::types::BindError {
        table_name: "up".to_string(),
    })));
    assert_eq!(a, Action::ClearSession);
    run.step(Event::Cleared);
    match run.into_outcome() {
        Err(SearchError::Bind(e)) => assert_eq!(e.table_name, "up"),
        other => panic!("expected a bind error, got {:?}", other),
    }

    // Evaluation failure.
    let mut run = start_run("up");
    let a = run.step(Event::Evaluated(Err("division by zero".to_string())));
    assert_eq!(a, Action::ClearSession);
    run.step(Event::Cleared);
    match run.into_outcome() {
        Err(SearchError::Execution(m)) => assert_eq!(m, "division by zero"),
        other => panic!("expected an execution error, got {:?}", other),
    }
}
