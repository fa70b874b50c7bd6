//! Payload extraction: status and metadata snapshots, durations,
//! leniency, and structural errors.

use aleph_tui::duration::{parse_duration, DurationVal};
use aleph_tui::json::JsonError;
use aleph_tui::models::{parse_metadata, parse_status, DeserializationError, StageOrStages};

fn stats_fields(name: &str) -> String {
    format!(
        r#""todo": 1, "doing": 2, "succeeded": 3, "failed": 0, "aborted": 0,
           "aborting": 0, "cancelled": 0, "total": 6, "active": 3, "finished": 3,
           "name": "{}""#,
        name
    )
}

fn collection_json() -> String {
    r#"{"created_at": "2024-01-01", "updated_at": "2024-01-02", "category": "leak",
        "frequency": "never", "languages": ["eng", "deu"], "name": "col",
        "collection_id": "42", "data_updated_at": "2024-01-03", "label": "Collection 42",
        "casefile": false, "secret": true, "taggable": true, "id": "42",
        "writeable": false, "shallow": false,
        "links": {"self": "u1", "xref_export": "u2", "reconcile": "u3", "ui": "u4"}}"#
        .to_string()
}

fn full_status_json() -> String {
    format!(
        r#"{{"results": [{{{rs}, "min_ts": "2024-01-01T00:00:00.000", "max_ts": null,
             "remaining_time": "PT1M17S", "took": "PT2.5S",
             "collection": {col},
             "batches": [{{{bs}, "queues": [{{{qs}, "tasks": [{{{ts}}}]}}]}}]}}],
            "total": 1}}"#,
        rs = stats_fields("ingest"),
        col = collection_json(),
        bs = stats_fields("batch-1"),
        qs = stats_fields("analyze"),
        ts = stats_fields("task-1"),
    )
}

#[test]
fn test_status_deserialization() {
    let status = parse_status(&full_status_json()).unwrap();
    assert_eq!(status.total, 1);
    assert_eq!(status.results.len(), 1);
    let row = &status.results[0];
    assert_eq!(row.stats.name, "ingest");
    assert_eq!(row.stats.todo, 1);
    assert_eq!(row.stats.total, 6);
    assert_eq!(row.stats.min_ts.as_deref(), Some("2024-01-01T00:00:00.000"));
    assert_eq!(row.stats.max_ts, None);
    let col = row.collection.as_ref().unwrap();
    assert_eq!(col.label, "Collection 42");
    assert_eq!(col.links.self_, "u1");
    assert_eq!(col.languages, vec!["eng".to_string(), "deu".to_string()]);
    assert_eq!(row.batches.len(), 1);
    assert_eq!(row.batches[0].queues.len(), 1);
    assert_eq!(row.batches[0].queues[0].stats.name, "analyze");
    assert_eq!(row.batches[0].queues[0].tasks.len(), 1);
    assert_eq!(row.batches[0].queues[0].tasks[0].name, "task-1");
}

#[test]
fn test_openaleph() {
    let status = parse_status(&full_status_json()).unwrap();
    assert!(status.results[0].batches[0].queues[0].stats.name == "analyze");
}

#[test]
fn test_deserialization_no_collection() {
    let raw = format!(r#"{{"results": [{{{rs}}}], "total": 1}}"#, rs = stats_fields("export"));
    let status = parse_status(&raw).unwrap();
    assert!(status.results[0].collection.is_none());
    assert!(status.results[0].batches.is_empty());
    assert!(status.results[0].stages.is_none());
}

#[test]
fn test_status_400_deserialization() {
    // A row without a collection falls back to its stage description,
    // which may be a single object or a list of them.
    let raw = format!(
        r#"{{"results": [{{{rs}, "stages": [{{"job_id": "j1", "stage": "exportsearch",
            "finished": 1, "running": 0, "pending": 2}}]}}], "total": 1}}"#,
        rs = stats_fields("export"),
    );
    let status = parse_status(&raw).unwrap();
    match status.results[0].stages.as_ref().unwrap() {
        StageOrStages::Stages(stages) => assert!(stages[0].stage == "exportsearch"),
        StageOrStages::Stage(_) => panic!("expected a list of stages"),
    }
}

#[test]
fn test_single_stage_object() {
    let raw = format!(
        r#"{{"results": [{{{rs}, "stages": {{"job_id": "j1", "stage": "index",
            "finished": 4, "running": 1, "pending": 0}}}}], "total": 1}}"#,
        rs = stats_fields("export"),
    );
    let status = parse_status(&raw).unwrap();
    match status.results[0].stages.as_ref().unwrap() {
        StageOrStages::Stage(stage) => {
            assert_eq!(stage.stage, "index");
            assert_eq!(stage.job_id, "j1");
            assert_eq!(stage.finished, 4);
        }
        StageOrStages::Stages(_) => panic!("expected a single stage"),
    }
}

#[test]
fn test_flattened_tasks_order() {
    let raw = format!(
        r#"{{"results": [{{{rs},
             "batches": [
               {{{b1}, "queues": [
                 {{{q1}, "tasks": [{{{t1}}}, {{{t2}}}]}},
                 {{{q2}, "tasks": [{{{t3}}}]}}
               ]}},
               {{{b2}, "queues": [{{{q3}, "tasks": []}}]}}
             ]}}],
            "total": 1}}"#,
        rs = stats_fields("ingest"),
        b1 = stats_fields("batch-1"),
        q1 = stats_fields("queue-1"),
        t1 = stats_fields("task-1"),
        t2 = stats_fields("task-2"),
        q2 = stats_fields("queue-2"),
        t3 = stats_fields("task-3"),
        b2 = stats_fields("batch-2"),
        q3 = stats_fields("queue-3"),
    );
    let status = parse_status(&raw).unwrap();
    let tasks = aleph_tui::models::flattened_tasks(&status.results[0]);
    let names: Vec<&str> = tasks.iter().map(|t| t.name.as_str()).collect();
    assert_eq!(names, vec!["task-1", "task-2", "task-3"]);
}

#[test]
fn test_metadata_deserialization() {
    let raw = r#"{"status": "ok", "maintenance": false,
                  "app": {"title": "OCCRP Aleph", "version": "3.15.5", "ftm_version": "3.5.8"}}"#;
    let meta = parse_metadata(raw).unwrap();
    assert!(meta.status == "ok");
    assert!(!meta.maintenance);
    assert!(meta.app.title.unwrap() == "OCCRP Aleph");
    assert!(meta.app.version.unwrap() == "3.15.5");
    assert!(meta.app.ftm_version.unwrap() == "3.5.8");
}

#[test]
fn test_metadata_partial_app() {
    let raw = r#"{"status": "ok", "maintenance": true, "app": {}}"#;
    let meta = parse_metadata(raw).unwrap();
    assert!(meta.maintenance);
    assert!(meta.app.title.is_none());
    assert!(meta.app.version.is_none());
    assert!(meta.app.ftm_version.is_none());
}

#[test]
fn test_empty_results() {
    let status = parse_status(r#"{"results": [], "total": 0}"#).unwrap();
    assert_eq!(status.total, 0);
    assert!(status.results.is_empty());
}

#[test]
fn test_unknown_members_ignored() {
    let raw = format!(
        r#"{{"results": [{{{rs}, "brand_new_member": [1, 2, {{"x": null}}]}}],
            "total": 1, "another_new_member": 7.25}}"#,
        rs = stats_fields("ingest"),
    );
    assert!(parse_status(&raw).is_ok());
}

#[test]
fn test_missing_counter_fails() {
    let raw = r#"{"results": [{"doing": 2, "succeeded": 3, "failed": 0, "aborted": 0,
        "aborting": 0, "cancelled": 0, "total": 6, "active": 3, "finished": 3,
        "name": "ingest"}], "total": 1}"#;
    match parse_status(raw) {
        Err(DeserializationError::Structure(JsonError::MissingField(f))) => {
            assert_eq!(f, "todo")
        }
        other => panic!("expected a missing-member error, got {:?}", other),
    }
}

#[test]
fn test_wrong_type_counter_fails() {
    let raw = format!(
        r#"{{"results": [{{{rs}}}], "total": "many"}}"#,
        rs = stats_fields("ingest"),
    );
    match parse_status(&raw) {
        Err(DeserializationError::Structure(JsonError::WrongType(f))) => assert_eq!(f, "total"),
        other => panic!("expected a wrong-type error, got {:?}", other),
    }
}

#[test]
fn test_counter_at_u32_bound() {
    let raw = r#"{"results": [], "total": 4294967295}"#;
    assert_eq!(parse_status(raw).unwrap().total, u32::MAX);
    let raw = r#"{"results": [], "total": 4294967296}"#;
    assert!(matches!(
        parse_status(raw),
        Err(DeserializationError::Structure(JsonError::WrongType(_)))
    ));
}

#[test]
fn test_negative_counter_fails() {
    let raw = format!(r#"{{"results": [{{{rs}}}], "total": -1}}"#, rs = stats_fields("ingest"));
    assert!(matches!(
        parse_status(&raw),
        Err(DeserializationError::Structure(JsonError::WrongType(_)))
    ));
}

#[test]
fn test_syntax_error() {
    assert!(matches!(
        parse_status("{\"results\": ["),
        Err(DeserializationError::Syntax(_))
    ));
}

#[test]
fn test_not_an_object() {
    assert!(matches!(
        parse_status("[1, 2, 3]"),
        Err(DeserializationError::Structure(JsonError::NotAnObject))
    ));
}

#[test]
fn test_bad_duration_fails() {
    let raw = format!(
        r#"{{"results": [{{{rs}, "remaining_time": "in a while"}}], "total": 1}}"#,
        rs = stats_fields("ingest"),
    );
    match parse_status(&raw) {
        Err(DeserializationError::Structure(JsonError::BadDuration(f))) => {
            assert_eq!(f, "remaining_time")
        }
        other => panic!("expected a duration error, got {:?}", other),
    }
}

#[test]
fn test_duration_round_trip_seconds() {
    // "PT1M17S" is exactly 77 seconds.
    let raw = format!(
        r#"{{"results": [{{{rs}, "remaining_time": "PT1M17S"}}], "total": 1}}"#,
        rs = stats_fields("ingest"),
    );
    let status = parse_status(&raw).unwrap();
    let d = status.results[0].stats.remaining_time.unwrap();
    assert_eq!(d, DurationVal { secs: 77, millis: 0 });
}

#[test]
fn test_parse_duration_values() {
    assert_eq!(parse_duration("PT1M17S"), Some(DurationVal { secs: 77, millis: 0 }));
    assert_eq!(parse_duration("PT2.5S"), Some(DurationVal { secs: 2, millis: 500 }));
    assert_eq!(parse_duration("PT0.1234S"), Some(DurationVal { secs: 0, millis: 123 }));
    assert_eq!(parse_duration("P1DT2H"), Some(DurationVal { secs: 93600, millis: 0 }));
    assert_eq!(parse_duration("P2W"), Some(DurationVal { secs: 1209600, millis: 0 }));
    assert_eq!(
        parse_duration("P1W2DT3H4M5.006S"),
        Some(DurationVal {
            secs: 7 * 86400 + 2 * 86400 + 3 * 3600 + 4 * 60 + 5,
            millis: 6
        })
    );
    assert_eq!(parse_duration("PT0S"), Some(DurationVal { secs: 0, millis: 0 }));
}

#[test]
fn test_parse_duration_rejects() {
    assert_eq!(parse_duration(""), None);
    assert_eq!(parse_duration("P"), None);
    assert_eq!(parse_duration("PT"), None);
    assert_eq!(parse_duration("1M"), None);
    assert_eq!(parse_duration("P1M"), None); // calendar months are not supported
    assert_eq!(parse_duration("PT1M1H"), None); // out of order
    assert_eq!(parse_duration("PT1M1M"), None); // repeated unit
    assert_eq!(parse_duration("P1DT"), None); // dangling time section
    assert_eq!(parse_duration("PT1M "), None); // trailing garbage
    assert_eq!(parse_duration("PT1.S"), None); // empty fraction
    assert_eq!(parse_duration("PT1.5M"), None); // fraction outside seconds
    assert_eq!(parse_duration("P1D2H"), None); // time unit outside the time section
    assert_eq!(parse_duration("PT99999999999999999999S"), None); // overflow
    assert_eq!(parse_duration("pt1m17s"), None); // case matters
}

#[test]
fn test_parse_duration_at_u64_bound() {
    assert_eq!(
        parse_duration("PT18446744073709551615S"),
        Some(DurationVal { secs: u64::MAX, millis: 0 })
    );
    assert_eq!(parse_duration("PT18446744073709551616S"), None);
    assert_eq!(parse_duration("PT18446744073709551615SS"), None);
}
