use upscaler::batch::{
    collect_batch, worker_count_for, video_worker_count, BatchReport, ItemOutcome,
    PipelineFailure, ProcessResult,
};
use upscaler::error::Stage;

fn success(path: &str) -> ItemOutcome {
    ItemOutcome::Done(ProcessResult {
        input_path: path.to_string(),
        output_path: format!("{}_4x.png", path),
        input_dims: (100, 50),
        output_dims: (400, 200),
        duration_ms: 10,
    })
}

fn failure(path: &str, stage: Stage) -> ItemOutcome {
    ItemOutcome::Failed(PipelineFailure {
        input_path: path.to_string(),
        stage,
        message: "could not read the file".to_string(),
    })
}

/// One corrupt item out of five is reported as a failure at the
/// loading stage; the other four all succeed and the batch never
/// gives up as a whole.
#[test]
fn one_bad_item_never_voids_the_batch() {
    let outcomes = vec![
        success("a.png"),
        success("b.png"),
        failure("c.png", Stage::Loaded),
        success("d.png"),
        success("e.png"),
    ];
    let BatchReport { results, failures } = collect_batch(outcomes);
    assert_eq!(results.len(), 4);
    assert_eq!(failures.len(), 1);
    assert_eq!(failures[0].input_path, "c.png");
    assert_eq!(failures[0].stage, Stage::Loaded);
    let order: Vec<&str> = results.iter().map(|r| r.input_path.as_str()).collect();
    assert_eq!(order, vec!["a.png", "b.png", "d.png", "e.png"]);
}

/// A sequential pass and a parallel pass hand the same outcomes over
/// in different orders: the reported sets of succeeded identities and
/// output dimensions are identical, though the orders differ.
#[test]
fn scheduling_order_changes_nothing_but_order() {
    let sequential = vec![
        success("a.png"),
        failure("b.png", Stage::Inferred),
        success("c.png"),
        success("d.png"),
    ];
    let parallel = vec![
        success("d.png"),
        success("c.png"),
        success("a.png"),
        failure("b.png", Stage::Inferred),
    ];
    let seq_report = collect_batch(sequential);
    let par_report = collect_batch(parallel);
    let mut seq_ids: Vec<(String, (u32, u32))> = seq_report
        .results
        .iter()
        .map(|r| (r.input_path.clone(), r.output_dims))
        .collect();
    let mut par_ids: Vec<(String, (u32, u32))> = par_report
        .results
        .iter()
        .map(|r| (r.input_path.clone(), r.output_dims))
        .collect();
    assert_ne!(seq_ids, par_ids);
    seq_ids.sort();
    par_ids.sort();
    assert_eq!(seq_ids, par_ids);
    let seq_failed: Vec<&str> = seq_report
        .failures
        .iter()
        .map(|f| f.input_path.as_str())
        .collect();
    let par_failed: Vec<&str> = par_report
        .failures
        .iter()
        .map(|f| f.input_path.as_str())
        .collect();
    assert_eq!(seq_failed, par_failed);
}

#[test]
fn empty_batch_reports_nothing() {
    let report = collect_batch(Vec::new());
    assert!(report.results.is_empty());
    assert!(report.failures.is_empty());
}

#[test]
fn worker_count_stays_in_band() {
    assert_eq!(worker_count_for(1), 2);
    assert_eq!(worker_count_for(4), 2);
    assert_eq!(worker_count_for(7), 3);
    assert_eq!(worker_count_for(12), 6);
    assert_eq!(worker_count_for(100), 8);
    let n = video_worker_count();
    assert!((2..=8).contains(&n));
}
