use json_bench::run_benchmark;
use json_bench::process_text;
use json_bench::BenchError;
use json_bench::input::parse_document;
use json_bench::project::Document;
use json_bench::project::Record;
use json_bench::project::project_document;
use json_bench::project::project_parallel;
use json_bench::project::project_sequential;
use json_bench::resources::ResourceSnapshot;
use json_bench::resources::memory_used_kb;
use json_bench::resources::sample_snapshot;
use json_bench::resources::snapshot_diff;

fn val(text: &str) -> serde_json::Value {
    serde_json::from_str::<serde_json::Value>(text).unwrap()
}

#[test]
fn example_array_counts_and_keeps_order() {
    let text = "[{\"id\":1},{\"name\":\"x\"},{\"id\":3}]";
    let out = process_text(text, false).unwrap();
    assert_eq!(out.len(), 2);
    assert_eq!(out[0].id, val("1"));
    assert_eq!(out[1].id, val("3"));
}

#[test]
fn example_array_parallel_same_items() {
    let text = "[{\"id\":1},{\"name\":\"x\"},{\"id\":3}]";
    let out = process_text(text, true).unwrap();
    assert_eq!(out.len(), 2);
    let one = val("1");
    let three = val("3");
    assert_eq!(out.iter().filter(|p| p.id == one).count(), 1);
    assert_eq!(out.iter().filter(|p| p.id == three).count(), 1);
}

#[test]
fn sequential_output_matches_input_order() {
    let text = "[{\"id\":3},{\"id\":1},{\"id\":2}]";
    let out = process_text(text, false).unwrap();
    assert_eq!(out.len(), 3);
    assert_eq!(out[0].id, val("3"));
    assert_eq!(out[1].id, val("1"));
    assert_eq!(out[2].id, val("2"));
}

#[test]
fn non_array_roots_give_zero_items() {
    for text in ["{\"id\":1}", "42", "\"x\"", "null", "true"] {
        let out = process_text(text, false).unwrap();
        assert_eq!(out.len(), 0);
        let out = process_text(text, true).unwrap();
        assert_eq!(out.len(), 0);
    }
}

#[test]
fn non_array_root_decodes_to_not_array() {
    let doc = parse_document("7").unwrap();
    assert!(matches!(doc, Document::NotArray));
    let out = project_document(&doc, false);
    assert_eq!(out.len(), 0);
}

#[test]
fn empty_array_reports_zero_items() {
    let report = run_benchmark("[]", false).unwrap();
    assert_eq!(report.item_count, 0);
    assert!(report.elapsed_nanos as f64 >= 0.0);
}

#[test]
fn running_twice_gives_same_count() {
    let text = "[{\"id\":1},{\"name\":\"x\"},{\"id\":3}]";
    let first = run_benchmark(text, true).unwrap();
    let second = run_benchmark(text, true).unwrap();
    assert_eq!(first.item_count, 2);
    assert_eq!(first.item_count, second.item_count);
}

#[test]
fn malformed_json_is_an_error() {
    let truncated = "[{\"id\":1}";
    assert!(process_text(truncated, false).is_err());
    let err = run_benchmark(truncated, false).unwrap_err();
    assert!(matches!(err, BenchError::MalformedJson(_)));
    assert!(!err.into_message().is_empty());
}

#[test]
fn records_without_id_are_skipped_not_nulled() {
    let out = process_text("[{\"a\":1},{\"b\":2}]", false).unwrap();
    assert_eq!(out.len(), 0);
    let out = process_text("[{\"id\":null},{\"a\":1}]", false).unwrap();
    assert_eq!(out.len(), 1);
    assert_eq!(out[0].id, serde_json::Value::Null);
}

#[test]
fn projection_on_records_built_by_hand() {
    let records = vec![
        Record { id: None },
        Record { id: Some(val("\"k\"")) },
        Record { id: None },
        Record { id: Some(val("5")) },
    ];
    let out = project_sequential(&records);
    assert_eq!(out.len(), 2);
    assert_eq!(out[0].id, val("\"k\""));
    assert_eq!(out[1].id, val("5"));
    let out = project_parallel(&records);
    assert_eq!(out.len(), 2);
}

#[test]
fn snapshot_diff_is_exact() {
    let start = ResourceSnapshot { wall_nanos: 100, system_used_kb: 50 };
    let end = ResourceSnapshot { wall_nanos: 350, system_used_kb: 40 };
    let d = snapshot_diff(&start, &end);
    assert_eq!(d.elapsed_nanos, 250);
    assert_eq!(d.system_memory_delta_kb, -10);
    let clamped = snapshot_diff(&end, &start);
    assert_eq!(clamped.elapsed_nanos, 0);
    assert_eq!(clamped.system_memory_delta_kb, 10);
}

#[test]
fn memory_used_clamps_at_zero() {
    assert_eq!(memory_used_kb(100, 30), 70);
    assert_eq!(memory_used_kb(30, 100), 0);
}

#[test]
fn sampling_works_on_this_platform() {
    let epoch = std::time::Instant::now();
    let first = sample_snapshot(&epoch).unwrap();
    let second = sample_snapshot(&epoch).unwrap();
    assert!(first.wall_nanos <= second.wall_nanos);
    let d = snapshot_diff(&first, &second);
    assert_eq!(d.elapsed_nanos, second.wall_nanos - first.wall_nanos);
}

#[test]
fn report_measures_output_vector_struct() {
    let report = run_benchmark("[{\"id\":1}]", false).unwrap();
    assert_eq!(report.item_count, 1);
    assert_eq!(
        report.output_struct_bytes,
        std::mem::size_of::<Vec<json_bench::project::Projected>>()
    );
}
