use taskpool::Consumer;
use taskpool::ConsumerOptions;
use taskpool::CountingDelegate;
use taskpool::Phase;
use taskpool::QueueError;
use taskpool::RawResult;
use taskpool::StartError;
use taskpool::TaskDelegation;
use taskpool::TaskOutcome;

/// Records every hook invocation in order; stops its worker on the items
/// listed in `stop_items`; reports the raw result `script` picks per item.
struct Recording {
    events: Vec<String>,
    stop_items: Vec<u32>,
    script: fn(u32) -> RawResult,
}

fn plain_success(_item: u32) -> RawResult {
    RawResult::Completed { value: String::from("body") }
}

impl Recording {
    fn new(script: fn(u32) -> RawResult) -> Recording {
        Recording { events: Vec::new(), stop_items: Vec::new(), script }
    }

    fn count(&self, prefix: &str) -> usize {
        self.events.iter().filter(|e| e.starts_with(prefix)).count()
    }

    fn count_exact(&self, event: &str) -> usize {
        self.events.iter().filter(|e| e.as_str() == event).count()
    }
}

impl TaskDelegation<u32> for Recording {
    fn on_started(&mut self, worker_count: usize) {
        self.events.push(format!("started:{}", worker_count));
    }

    fn process(&mut self, item: &u32) -> RawResult {
        self.events.push(format!("process:{}", item));
        (self.script)(*item)
    }

    fn on_completed(&mut self, item: &u32, outcome: &TaskOutcome) -> bool {
        let tag = match outcome {
            TaskOutcome::Success => "success",
            TaskOutcome::Error { .. } => "error",
            TaskOutcome::TimedOut => "timedout",
            TaskOutcome::Cancelled => "cancelled",
        };
        self.events.push(format!("completed:{}:{}", item, tag));
        !self.stop_items.contains(item)
    }

    fn on_finished(&mut self) {
        self.events.push(String::from("finished"));
    }
}

fn run_pool(worker_count: usize, items: Vec<u32>, delegate: &mut Recording) -> Consumer<u32> {
    let mut pool: Consumer<u32> =
        Consumer::with_options(ConsumerOptions::new().with_workers(worker_count));
    assert!(pool.start(delegate).is_ok());
    for item in items {
        assert!(pool.enqueue(item).is_ok());
    }
    pool.complete();
    pool.wait(delegate);
    pool
}

#[test]
fn single_worker_single_item_full_lifecycle() {
    let mut d = Recording::new(plain_success);
    let pool = run_pool(1, vec![42], &mut d);
    assert_eq!(pool.phase, Phase::Drained);
    assert_eq!(
        d.events,
        vec![
            String::from("started:1"),
            String::from("process:42"),
            String::from("completed:42:success"),
            String::from("finished"),
        ]
    );
}

#[test]
fn every_item_delivered_exactly_once() {
    let mut d = Recording::new(plain_success);
    let items: Vec<u32> = (0..25).collect();
    run_pool(3, items, &mut d);
    for item in 0..25u32 {
        assert_eq!(d.count_exact(&format!("process:{}", item)), 1, "item {} not once", item);
    }
    assert_eq!(d.count("process:"), 25);
    assert_eq!(d.count("completed:"), 25);
}

#[test]
fn started_first_finished_last_each_once() {
    let mut d = Recording::new(plain_success);
    let items: Vec<u32> = (0..20).collect();
    run_pool(4, items, &mut d);
    assert_eq!(d.count("started:"), 1);
    assert_eq!(d.count("finished"), 1);
    assert!(d.events.first().unwrap().starts_with("started:"));
    assert_eq!(d.events.last().unwrap(), "finished");
}

#[test]
fn enqueue_after_complete_is_rejected_but_prior_items_drain() {
    let mut pool: Consumer<u32> = Consumer::with_options(ConsumerOptions::new().with_workers(2));
    let mut d = Recording::new(plain_success);
    assert!(pool.start(&mut d).is_ok());
    assert!(pool.enqueue(1).is_ok());
    assert!(pool.enqueue(2).is_ok());
    pool.complete();
    assert!(matches!(pool.enqueue(3), Err(QueueError::QueueClosed)));
    pool.wait(&mut d);
    assert_eq!(d.count("process:"), 2);
    assert_eq!(d.count_exact("process:3"), 0);
    assert_eq!(pool.phase, Phase::Drained);
}

#[test]
fn early_stop_halts_one_worker_but_pool_still_drains() {
    let mut d = Recording::new(plain_success);
    d.stop_items.push(0);
    let items: Vec<u32> = (0..6).collect();
    let pool = run_pool(3, items, &mut d);
    // the worker that completed item 0 stopped; the others drained the rest
    assert_eq!(d.count("process:"), 6);
    assert_eq!(d.count("finished"), 1);
    assert_eq!(pool.early_stops, 1);
    assert_eq!(pool.phase, Phase::Drained);
}

#[test]
fn empty_queue_still_runs_the_full_lifecycle() {
    let mut d = Recording::new(plain_success);
    let pool = run_pool(2, Vec::new(), &mut d);
    assert_eq!(d.events, vec![String::from("started:2"), String::from("finished")]);
    assert_eq!(pool.phase, Phase::Drained);
}

#[test]
fn duplicate_items_are_each_delivered() {
    let mut d = Recording::new(plain_success);
    run_pool(2, vec![5, 5, 5], &mut d);
    assert_eq!(d.count_exact("process:5"), 3);
    assert_eq!(d.count("completed:5"), 3);
}

#[test]
fn second_start_fails_with_already_started() {
    let mut pool: Consumer<u32> = Consumer::new();
    let mut d = Recording::new(plain_success);
    assert!(pool.start(&mut d).is_ok());
    assert!(matches!(pool.start(&mut d), Err(StartError::AlreadyStarted)));
    assert_eq!(d.count("started:"), 1);
}

#[test]
fn zero_workers_fails_with_no_workers() {
    let mut pool: Consumer<u32> = Consumer::with_options(ConsumerOptions::new().with_workers(0));
    let mut d = Recording::new(plain_success);
    assert!(matches!(pool.start(&mut d), Err(StartError::NoWorkers)));
    assert_eq!(d.count("started:"), 0);
}

#[test]
fn queue_capacity_bound_is_enforced() {
    let mut pool: Consumer<u32> =
        Consumer::with_options(ConsumerOptions::new().with_capacity(2));
    assert!(pool.enqueue(1).is_ok());
    assert!(pool.enqueue(2).is_ok());
    assert!(matches!(pool.enqueue(3), Err(QueueError::QueueFull)));
}

fn mixed_script(item: u32) -> RawResult {
    // a deterministic pseudo-random spread over the three outcome kinds
    let pick = item.wrapping_mul(2654435761) >> 7;
    match pick % 3 {
        0 => RawResult::Completed { value: String::from("body") },
        1 => RawResult::Failed { timed_out: false, message: String::from("transport error") },
        _ => RawResult::Failed { timed_out: true, message: String::from("deadline elapsed") },
    }
}

#[test]
fn hundred_mixed_items_all_reported() {
    let mut pool: Consumer<u32> = Consumer::with_options(ConsumerOptions::new().with_workers(4));
    let mut d = CountingDelegate::new();
    assert!(pool.start(&mut d).is_ok());
    for item in 0..100u32 {
        assert!(pool.enqueue(item).is_ok());
    }
    pool.complete();
    pool.wait(&mut d);
    assert_eq!(d.started_calls, 1);
    assert_eq!(d.finished_calls, 1);
    assert_eq!(d.process_calls, 100);
    assert_eq!(d.completed_calls, 100);
    assert_eq!(
        d.success_count + d.error_count + d.timed_out_count + d.cancelled_count,
        100
    );
}

#[test]
fn mixed_outcomes_sum_to_item_count() {
    let mut d = Recording::new(mixed_script);
    let items: Vec<u32> = (0..100).collect();
    run_pool(4, items, &mut d);
    let succ = d.events.iter().filter(|e| e.ends_with(":success")).count();
    let err = d.events.iter().filter(|e| e.ends_with(":error")).count();
    let timed = d.events.iter().filter(|e| e.ends_with(":timedout")).count();
    assert_eq!(succ + err + timed, 100);
    assert!(succ > 0 && err > 0 && timed > 0);
}

#[test]
fn counting_delegate_sees_all_successes() {
    let mut pool: Consumer<u32> = Consumer::with_options(ConsumerOptions::new().with_workers(2));
    let mut d = CountingDelegate::new();
    assert!(pool.start(&mut d).is_ok());
    for item in 0..10u32 {
        assert!(pool.enqueue(item).is_ok());
    }
    pool.complete();
    pool.wait(&mut d);
    assert_eq!(d.success_count, 10);
    assert_eq!(d.error_count, 0);
    assert_eq!(d.timed_out_count, 0);
}

#[test]
fn profile_selectors_report_production_defaults() {
    assert!(!taskpool::is_debug());
    assert!(taskpool::num_threads() >= 1);
}

#[test]
fn diagnostics_only_under_debug_with_one_worker() {
    assert!(taskpool::diagnostics_enabled(true, 1));
    assert!(!taskpool::diagnostics_enabled(true, 2));
    assert!(!taskpool::diagnostics_enabled(false, 1));
    assert!(!taskpool::diagnostics_enabled(false, 4));
}
