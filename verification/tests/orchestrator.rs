use std::cell::RefCell;
use std::collections::HashMap;
use std::rc::Rc;

use arabic_pdf_to_text::errors::ErrorKind;
use arabic_pdf_to_text::orchestrator::extract_document;
use arabic_pdf_to_text::orchestrator::run;
use arabic_pdf_to_text::planner::plan;
use arabic_pdf_to_text::ports::CancelSignal;
use arabic_pdf_to_text::ports::EventKind;
use arabic_pdf_to_text::ports::ExtractionPort;
use arabic_pdf_to_text::ports::ProgressSink;
use arabic_pdf_to_text::ports::WaitPort;
use arabic_pdf_to_text::report::Outcome;
use arabic_pdf_to_text::retry::RetryPolicy;

const SEP: &str = "\n\n--- Page Break ---\n\n";

/// Answers each range with a fixed text keyed by its start unit, recording
/// the calls and a simulated per-range completion latency.
struct MapPort {
    texts: HashMap<usize, String>,
    latencies: HashMap<usize, u64>,
    calls: Vec<(usize, usize)>,
    simulated: Vec<u64>,
}

impl MapPort {
    fn new(texts: &[(usize, &str)]) -> MapPort {
        MapPort {
            texts: texts.iter().map(|(s, t)| (*s, t.to_string())).collect(),
            latencies: HashMap::new(),
            calls: Vec::new(),
            simulated: Vec::new(),
        }
    }
}

impl ExtractionPort for MapPort {
    fn extract(&mut self, start_unit: usize, end_unit: usize) -> Result<String, ErrorKind> {
        self.calls.push((start_unit, end_unit));
        self.simulated.push(*self.latencies.get(&start_unit).unwrap_or(&0));
        Ok(self.texts.get(&start_unit).cloned().unwrap_or_default())
    }
}

/// Always answers with the same error.
struct FailPort {
    error: ErrorKind,
    calls: usize,
}

impl ExtractionPort for FailPort {
    fn extract(&mut self, _start_unit: usize, _end_unit: usize) -> Result<String, ErrorKind> {
        self.calls += 1;
        Err(self.error)
    }
}

/// Plays back a fixed script of answers, in call order.
struct SeqPort {
    script: Vec<Result<String, ErrorKind>>,
    next: usize,
}

impl ExtractionPort for SeqPort {
    fn extract(&mut self, _start_unit: usize, _end_unit: usize) -> Result<String, ErrorKind> {
        let r = self.script[self.next].clone();
        self.next += 1;
        r
    }
}

/// Tracks how many extraction calls are in flight at once.
struct InFlightPort {
    current: usize,
    max_in_flight: usize,
}

impl ExtractionPort for InFlightPort {
    fn extract(&mut self, start_unit: usize, _end_unit: usize) -> Result<String, ErrorKind> {
        self.current += 1;
        if self.current > self.max_in_flight {
            self.max_in_flight = self.current;
        }
        let text = format!("text-{start_unit}");
        self.current -= 1;
        Ok(text)
    }
}

/// Records every event; shares a completed-item counter with `CancelAfter`.
struct RecSink {
    events: Vec<(usize, EventKind)>,
    completed: Rc<RefCell<usize>>,
}

impl RecSink {
    fn new() -> RecSink {
        RecSink { events: Vec::new(), completed: Rc::new(RefCell::new(0)) }
    }
}

impl ProgressSink for RecSink {
    fn on_event(&mut self, item_index: usize, event: EventKind) {
        if matches!(event, EventKind::Completed(_)) {
            *self.completed.borrow_mut() += 1;
        }
        self.events.push((item_index, event));
    }
}

struct CancelNever;

impl CancelSignal for CancelNever {
    fn is_cancelled(&self) -> bool {
        false
    }
}

/// Fires once the shared counter reaches the threshold.
struct CancelAfter {
    completed: Rc<RefCell<usize>>,
    threshold: usize,
}

impl CancelSignal for CancelAfter {
    fn is_cancelled(&self) -> bool {
        *self.completed.borrow() >= self.threshold
    }
}

/// Records requested waits instead of sleeping.
struct NoWait {
    waits: Vec<u64>,
}

impl WaitPort for NoWait {
    fn wait(&mut self, seconds: u64) {
        self.waits.push(seconds);
    }
}

#[test]
fn test_results_cover_all_indices() {
    let items = plan(4, 1).unwrap();
    let mut port = SeqPort {
        script: vec![
            Ok("a".to_string()),
            Err(ErrorKind::Permanent),
            Ok("".to_string()),
            Ok("d".to_string()),
        ],
        next: 0,
    };
    let mut sink = RecSink::new();
    let mut waiter = NoWait { waits: Vec::new() };
    let report =
        run(&items, &mut port, 2, &RetryPolicy::new(), &mut sink, &CancelNever, &mut waiter)
            .unwrap();
    let indices: Vec<usize> = report.results.iter().map(|r| r.index).collect();
    assert_eq!(indices, vec![0, 1, 2, 3]);
}

#[test]
fn test_output_order_matches_index_order() {
    let items = plan(3, 1).unwrap();
    let mut port = MapPort::new(&[(1, "first"), (2, "second"), (3, "third")]);
    // Simulated completion latencies in reverse order must not reorder output.
    port.latencies = HashMap::from([(1, 90), (2, 50), (3, 1)]);
    let mut sink = RecSink::new();
    let mut waiter = NoWait { waits: Vec::new() };
    let report =
        run(&items, &mut port, 2, &RetryPolicy::new(), &mut sink, &CancelNever, &mut waiter)
            .unwrap();
    assert_eq!(report.ordered_texts, vec!["first", "second", "third"]);
    assert_eq!(report.final_text, format!("first{SEP}second{SEP}third"));
}

#[test]
fn test_truncation_drops_trailing_empties() {
    let items = plan(12, 5).unwrap();
    let mut port = MapPort::new(&[(1, "A"), (6, ""), (11, "")]);
    let mut sink = RecSink::new();
    let mut waiter = NoWait { waits: Vec::new() };
    let report =
        run(&items, &mut port, 2, &RetryPolicy::new(), &mut sink, &CancelNever, &mut waiter)
            .unwrap();
    assert_eq!(report.ordered_texts, vec!["A"]);
    assert_eq!(report.final_text, "A");
    assert_eq!(report.success_count, 1);
}

#[test]
fn test_trailing_failure_does_not_extend_inclusion() {
    let items = plan(12, 5).unwrap();
    let mut port = SeqPort {
        script: vec![Ok("A".to_string()), Ok("".to_string()), Err(ErrorKind::Permanent)],
        next: 0,
    };
    let mut sink = RecSink::new();
    let mut waiter = NoWait { waits: Vec::new() };
    let report =
        run(&items, &mut port, 2, &RetryPolicy::new(), &mut sink, &CancelNever, &mut waiter)
            .unwrap();
    assert_eq!(report.ordered_texts, vec!["A"]);
    assert_eq!(report.failed_ranges, vec![(11, 12)]);
    assert_eq!(report.success_count, 1);
}

#[test]
fn test_whitespace_only_text_counts_as_empty() {
    let items = plan(2, 1).unwrap();
    let mut port = MapPort::new(&[(1, "A"), (2, " \t\n ")]);
    let mut sink = RecSink::new();
    let mut waiter = NoWait { waits: Vec::new() };
    let report =
        run(&items, &mut port, 1, &RetryPolicy::new(), &mut sink, &CancelNever, &mut waiter)
            .unwrap();
    assert_eq!(report.ordered_texts, vec!["A"]);
    assert_eq!(report.success_count, 1);
}

#[test]
fn test_run_twice_identical_report() {
    let items = plan(12, 5).unwrap();
    let policy = RetryPolicy::new();
    let mut reports = Vec::new();
    for _ in 0..2 {
        let mut port = MapPort::new(&[(1, "A"), (6, "B"), (11, "")]);
        let mut sink = RecSink::new();
        let mut waiter = NoWait { waits: Vec::new() };
        reports.push(
            run(&items, &mut port, 2, &policy, &mut sink, &CancelNever, &mut waiter).unwrap(),
        );
    }
    assert_eq!(reports[0], reports[1]);
}

#[test]
fn test_rate_limited_retry_bound() {
    let items = plan(5, 5).unwrap();
    let policy = RetryPolicy::new();
    let mut port = FailPort { error: ErrorKind::RateLimited(2), calls: 0 };
    let mut sink = RecSink::new();
    let mut waiter = NoWait { waits: Vec::new() };
    let report = run(&items, &mut port, 1, &policy, &mut sink, &CancelNever, &mut waiter).unwrap();
    assert_eq!(port.calls, 4);
    assert_eq!(waiter.waits, vec![2, 2, 2]);
    assert_eq!(report.results.len(), 1);
    match &report.results[0].outcome {
        Outcome::Failure(ErrorKind::RateLimited(2), attempts) => assert_eq!(*attempts, 4),
        other => panic!("unexpected outcome: {other:?}"),
    }
    assert_eq!(report.failed_ranges, vec![(1, 5)]);
}

#[test]
fn test_concurrency_bound() {
    let items = plan(10, 1).unwrap();
    let mut port = InFlightPort { current: 0, max_in_flight: 0 };
    let mut sink = RecSink::new();
    let mut waiter = NoWait { waits: Vec::new() };
    let report =
        run(&items, &mut port, 2, &RetryPolicy::new(), &mut sink, &CancelNever, &mut waiter)
            .unwrap();
    assert!(port.max_in_flight <= 2);
    assert_eq!(report.results.len(), 10);
}

#[test]
fn test_end_to_end_example() {
    let mut port = MapPort::new(&[(1, "A"), (6, ""), (11, "C")]);
    let mut sink = RecSink::new();
    let mut waiter = NoWait { waits: Vec::new() };
    let report = extract_document(
        12,
        5,
        2,
        &RetryPolicy::new(),
        &mut port,
        &mut sink,
        &CancelNever,
        &mut waiter,
    )
    .unwrap();
    assert_eq!(port.calls, vec![(1, 5), (6, 10), (11, 12)]);
    assert_eq!(report.ordered_texts, vec!["A", "", "C"]);
    assert_eq!(report.final_text, format!("A{SEP}{SEP}C"));
    assert_eq!(report.success_count, 2);
    assert_eq!(report.total_chars, 2);
    assert_eq!(report.failed_ranges.len(), 0);
    assert!(!report.cancelled);
}

#[test]
fn test_cancellation_mid_run() {
    let items = plan(3, 1).unwrap();
    let mut port = MapPort::new(&[(1, "one"), (2, "two"), (3, "three")]);
    let mut sink = RecSink::new();
    let cancel = CancelAfter { completed: Rc::clone(&sink.completed), threshold: 1 };
    let mut waiter = NoWait { waits: Vec::new() };
    let report =
        run(&items, &mut port, 2, &RetryPolicy::new(), &mut sink, &cancel, &mut waiter).unwrap();
    assert!(report.cancelled);
    assert_eq!(report.results.len(), 1);
    assert_eq!(report.results[0].index, 0);
    assert_eq!(report.ordered_texts, vec!["one"]);
    assert_eq!(port.calls.len(), 1);
}

#[test]
fn test_zero_concurrency_is_invalid_config() {
    let items = plan(4, 2).unwrap();
    let mut port = MapPort::new(&[]);
    let mut sink = RecSink::new();
    let mut waiter = NoWait { waits: Vec::new() };
    let r = run(&items, &mut port, 0, &RetryPolicy::new(), &mut sink, &CancelNever, &mut waiter);
    assert_eq!(r.unwrap_err(), ErrorKind::InvalidConfig);
    assert!(port.calls.is_empty());

    let mut port2 = MapPort::new(&[]);
    let mut sink2 = RecSink::new();
    let mut waiter2 = NoWait { waits: Vec::new() };
    let r2 = extract_document(
        4,
        2,
        0,
        &RetryPolicy::new(),
        &mut port2,
        &mut sink2,
        &CancelNever,
        &mut waiter2,
    );
    assert_eq!(r2.unwrap_err(), ErrorKind::InvalidConfig);
}

#[test]
fn test_zero_chunk_size_is_invalid_config() {
    let mut port = MapPort::new(&[]);
    let mut sink = RecSink::new();
    let mut waiter = NoWait { waits: Vec::new() };
    let r = extract_document(
        12,
        0,
        2,
        &RetryPolicy::new(),
        &mut port,
        &mut sink,
        &CancelNever,
        &mut waiter,
    );
    assert_eq!(r.unwrap_err(), ErrorKind::InvalidConfig);
    assert!(port.calls.is_empty());
}

#[test]
fn test_run_aborted_ends_the_run() {
    let items = plan(6, 2).unwrap();
    let mut port = FailPort { error: ErrorKind::RunAborted, calls: 0 };
    let mut sink = RecSink::new();
    let mut waiter = NoWait { waits: Vec::new() };
    let r = run(&items, &mut port, 2, &RetryPolicy::new(), &mut sink, &CancelNever, &mut waiter);
    assert_eq!(r.unwrap_err(), ErrorKind::RunAborted);
    assert_eq!(port.calls, 1);
}

#[test]
fn test_transport_retried_then_succeeds() {
    let items = plan(5, 5).unwrap();
    let mut port =
        SeqPort { script: vec![Err(ErrorKind::Transport), Ok("recovered".to_string())], next: 0 };
    let mut sink = RecSink::new();
    let mut waiter = NoWait { waits: Vec::new() };
    let report =
        run(&items, &mut port, 1, &RetryPolicy::new(), &mut sink, &CancelNever, &mut waiter)
            .unwrap();
    assert_eq!(port.next, 2);
    assert_eq!(waiter.waits, vec![5]);
    assert_eq!(report.ordered_texts, vec!["recovered"]);
    assert!(sink.events.contains(&(0, EventKind::RateLimited(5))));
}

#[test]
fn test_permanent_error_fails_without_retry() {
    let items = plan(5, 5).unwrap();
    let mut port = FailPort { error: ErrorKind::Permanent, calls: 0 };
    let mut sink = RecSink::new();
    let mut waiter = NoWait { waits: Vec::new() };
    let report =
        run(&items, &mut port, 1, &RetryPolicy::new(), &mut sink, &CancelNever, &mut waiter)
            .unwrap();
    assert_eq!(port.calls, 1);
    match &report.results[0].outcome {
        Outcome::Failure(ErrorKind::Permanent, attempts) => assert_eq!(*attempts, 1),
        other => panic!("unexpected outcome: {other:?}"),
    }
    assert!(waiter.waits.is_empty());
    assert!(sink.events.contains(&(0, EventKind::Failed("permanent error".to_string()))));
}

#[test]
fn test_pacing_delay_applies_after_first_item() {
    let items = plan(3, 1).unwrap();
    let mut port = MapPort::new(&[(1, "a"), (2, "b"), (3, "c")]);
    let mut sink = RecSink::new();
    let mut waiter = NoWait { waits: Vec::new() };
    run(&items, &mut port, 1, &RetryPolicy::new(), &mut sink, &CancelNever, &mut waiter).unwrap();
    assert_eq!(waiter.waits, vec![6, 6]);
}

#[test]
fn test_progress_events_emitted() {
    let items = plan(2, 1).unwrap();
    let mut port = MapPort::new(&[(1, "hi"), (2, "")]);
    let mut sink = RecSink::new();
    let mut waiter = NoWait { waits: Vec::new() };
    run(&items, &mut port, 1, &RetryPolicy::new(), &mut sink, &CancelNever, &mut waiter).unwrap();
    assert_eq!(
        sink.events,
        vec![
            (0, EventKind::Started),
            (0, EventKind::Completed(2)),
            (1, EventKind::Started),
            (1, EventKind::Completed(0)),
        ]
    );
}

#[test]
fn test_empty_plan_gives_empty_report() {
    let items = plan(0, 5).unwrap();
    let mut port = MapPort::new(&[]);
    let mut sink = RecSink::new();
    let mut waiter = NoWait { waits: Vec::new() };
    let report =
        run(&items, &mut port, 2, &RetryPolicy::new(), &mut sink, &CancelNever, &mut waiter)
            .unwrap();
    assert!(report.results.is_empty());
    assert!(report.ordered_texts.is_empty());
    assert_eq!(report.final_text, "");
    assert_eq!(report.success_count, 0);
    assert_eq!(report.total_chars, 0);
    assert!(!report.cancelled);
}

#[test]
fn test_all_blank_keeps_single_slot() {
    let items = plan(3, 1).unwrap();
    let mut port = MapPort::new(&[(1, ""), (2, ""), (3, "")]);
    let mut sink = RecSink::new();
    let mut waiter = NoWait { waits: Vec::new() };
    let report =
        run(&items, &mut port, 1, &RetryPolicy::new(), &mut sink, &CancelNever, &mut waiter)
            .unwrap();
    assert_eq!(report.ordered_texts, vec![""]);
    assert_eq!(report.final_text, "");
    assert_eq!(report.success_count, 0);
}

#[test]
fn test_mid_document_failure_excluded_from_text() {
    let items = plan(3, 1).unwrap();
    let mut port = SeqPort {
        script: vec![Ok("a".to_string()), Err(ErrorKind::Permanent), Ok("c".to_string())],
        next: 0,
    };
    let mut sink = RecSink::new();
    let mut waiter = NoWait { waits: Vec::new() };
    let report =
        run(&items, &mut port, 1, &RetryPolicy::new(), &mut sink, &CancelNever, &mut waiter)
            .unwrap();
    assert_eq!(report.ordered_texts, vec!["a", "", "c"]);
    assert_eq!(report.final_text, format!("a{SEP}c"));
    assert_eq!(report.failed_ranges, vec![(2, 2)]);
    assert_eq!(report.success_count, 2);
}
