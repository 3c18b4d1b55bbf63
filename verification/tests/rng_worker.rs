use prng_visualizer::rng::engine::{
    Bounds, RngCommand, StatsReport, DEFAULT_STATE, INITIAL_BATCH_SIZE, MAX_BATCH_SIZE,
    MIN_BATCH_SIZE,
};
use prng_visualizer::rng::examples::{rng_example, rng_examples, RNG_EXAMPLE_COUNT};
use prng_visualizer::clock::start_timer;
use prng_visualizer::rng::engine::PerformanceStats;
use prng_visualizer::rng::batch::BatchRun;
use prng_visualizer::rng::controller::{adapt_batch_size, mean_latency, push_latency, LATENCY_WINDOW};
use prng_visualizer::rng::worker::{
    check_rng_arity, report_due, CommandAction, RngWorker, SendOutcome, StepOutcome, WorkerPhase,
    REPORT_INTERVAL_NANOS, RNG_FUNCTION,
};
use std::sync::atomic::Ordering;
use std::cell::Cell;

fn counter(state: i64) -> Result<i64, String> {
    Ok(state + 1)
}

fn running_worker() -> RngWorker {
    let mut worker = RngWorker::new();
    let action = worker.handle_command(RngCommand::UpdateCode("fn rng(s: int) -> int { s + 1 }".to_string()));
    assert!(matches!(action, CommandAction::Compile(_)));
    worker.compile_finished(Ok(()));
    worker
}

#[test]
fn counter_recurrence_from_seed_zero_gives_the_documented_triples() {
    let mut worker = running_worker();
    worker.handle_command(RngCommand::SetSeed(0));
    let batch = worker.run_batch(&counter, Bounds::standard()).unwrap();
    assert_eq!(batch.len(), 3 * INITIAL_BATCH_SIZE);
    assert_eq!(&batch[0..3], &[-499, -498, -497]);
    assert_eq!(&batch[3..6], &[-496, -495, -494]);
    assert_eq!(worker.state(), 3 * INITIAL_BATCH_SIZE as i64);
}

#[test]
fn a_batch_run_threads_every_output_into_the_next_call() {
    let mut run = BatchRun::new(Bounds::standard(), 0, 2);
    assert_eq!(run.next_input(), Some(0));
    assert!(run.accept(1));
    assert_eq!(run.next_input(), Some(1));
    assert!(run.accept(2));
    assert!(run.accept(3));
    assert_eq!(run.next_input(), Some(3));
    assert!(run.accept(4));
    assert!(run.accept(5));
    assert!(run.accept(6));
    assert_eq!(run.next_input(), None);
    assert!(!run.accept(7));
    assert_eq!(run.next_input(), None);

    let mut worker = running_worker();
    let before = worker.state();
    assert_eq!(worker.finish_batch(run, 5_000_000), Some(vec![-499, -498, -497, -496, -495, -494]));
    assert_ne!(worker.state(), before);
    assert_eq!(worker.state(), 6);
}

#[test]
fn each_axis_is_folded_into_its_own_bounds() {
    let bounds = Bounds { min_x: 0, max_x: 10, min_y: 100, max_y: 105, min_z: -7, max_z: -7 };
    let mut run = BatchRun::new(bounds, 0, 2);
    for raw in [13, 13, 13, -27, -27, -27] {
        assert!(run.accept(raw));
    }
    let mut worker = running_worker();
    assert_eq!(worker.finish_batch(run, 5_000_000), Some(vec![3, 103, -7, 7, 102, -7]));
    assert_eq!(worker.state(), -27);
}

#[test]
fn fill_completes_a_batch_that_was_begun_by_hand() {
    let mut run = BatchRun::new(Bounds::standard(), 10, 2);
    assert!(run.accept(11));
    assert_eq!(run.fill(&counter), Ok(()));
    assert_eq!(run.next_input(), None);
    let mut worker = running_worker();
    assert_eq!(worker.finish_batch(run, 5_000_000), Some(vec![-489, -488, -487, -486, -485, -484]));
    assert_eq!(worker.state(), 16);
}

#[test]
fn an_empty_batch_is_complete_at_once() {
    let mut run = BatchRun::new(Bounds::standard(), 5, 0);
    assert_eq!(run.next_input(), None);
    assert!(!run.accept(1));
    assert_eq!(run.fill(&counter), Ok(()));
    let mut worker = running_worker();
    assert_eq!(worker.finish_batch(run, 5_000_000), Some(vec![]));
    assert_eq!(worker.state(), 5);
}

#[test]
fn an_incomplete_batch_is_not_taken_in() {
    let mut run = BatchRun::new(Bounds::standard(), 0, 2);
    assert!(run.accept(1));
    let mut worker = running_worker();
    assert_eq!(worker.finish_batch(run, 1), None);
    assert_eq!(worker.state(), DEFAULT_STATE);
    assert_eq!(worker.batch_size(), INITIAL_BATCH_SIZE);
    assert_eq!(worker.take_report(), StatsReport {
        calls: 0,
        points: 0,
        batch_size: INITIAL_BATCH_SIZE,
        avg_batch_nanos: None,
    });
}

#[test]
fn an_evaluation_error_mid_batch_sets_last_error_and_keeps_the_state() {
    let mut worker = running_worker();
    worker.handle_command(RngCommand::SetSeed(0));
    let calls = Cell::new(0u32);
    let failing = |state: i64| -> Result<i64, String> {
        calls.set(calls.get() + 1);
        if calls.get() > 100 {
            Err("division by zero".to_string())
        } else {
            Ok(state + 1)
        }
    };
    let outcome = worker.run_batch(&failing, Bounds::standard());
    assert_eq!(outcome, Err("division by zero".to_string()));
    assert_eq!(calls.get(), 101);
    let message = worker.last_error().unwrap();
    assert!(!message.is_empty());
    assert_eq!(message, "division by zero");
    assert_eq!(worker.state(), 0);
    assert!(!worker.is_running());
    assert!(!worker.should_generate(false));
    assert_eq!(worker.batch_size(), INITIAL_BATCH_SIZE);
}

#[test]
fn reset_and_seed_do_not_resume_a_worker_that_failed() {
    let mut worker = running_worker();
    worker.fail_batch("boom".to_string());
    assert!(!worker.is_running());
    assert!(matches!(worker.handle_command(RngCommand::Reset), CommandAction::Idle));
    assert!(matches!(worker.handle_command(RngCommand::SetSeed(9)), CommandAction::Idle));
    assert!(matches!(worker.handle_command(RngCommand::Resume), CommandAction::Idle));
    assert!(!worker.is_running());
    assert_eq!(worker.last_error(), Some("boom".to_string()));

    let action = worker.handle_command(RngCommand::UpdateCode("fixed".to_string()));
    match action {
        CommandAction::Compile(code) => assert_eq!(code, "fixed"),
        other => panic!("expected a compile request, got {:?}", other),
    }
    assert_eq!(worker.last_error(), None);
    assert!(!worker.is_running());
    worker.compile_finished(Ok(()));
    assert!(worker.is_running());
    assert_eq!(worker.state(), DEFAULT_STATE);
}

#[test]
fn a_new_worker_is_idle() {
    let worker = RngWorker::new();
    assert!(!worker.is_running());
    assert!(!worker.is_stopped());
    assert!(!worker.should_generate(false));
    assert_eq!(worker.state(), DEFAULT_STATE);
    assert_eq!(worker.batch_size(), INITIAL_BATCH_SIZE);
    assert_eq!(worker.last_error(), None);
    assert_eq!(worker.total_batches(), 0);
    assert_eq!(worker.dropped_batches(), 0);
}

#[test]
fn a_failed_compilation_records_the_error_and_stays_idle() {
    let mut worker = RngWorker::new();
    worker.handle_command(RngCommand::SetSeed(77));
    worker.handle_command(RngCommand::UpdateCode("nonsense".to_string()));
    worker.compile_finished(Err("unexpected token".to_string()));
    assert!(!worker.is_running());
    assert_eq!(worker.last_error(), Some("unexpected token".to_string()));
    assert_eq!(worker.state(), 77);
}

#[test]
fn a_successful_compilation_resets_state_and_batch_size() {
    let mut worker = running_worker();
    worker.handle_command(RngCommand::SetSeed(77));
    let batch = worker.run_batch(&counter, Bounds::standard());
    assert!(batch.is_ok());
    worker.handle_command(RngCommand::UpdateCode("again".to_string()));
    assert!(!worker.is_running());
    worker.compile_finished(Ok(()));
    assert!(worker.is_running());
    assert_eq!(worker.state(), DEFAULT_STATE);
    assert_eq!(worker.batch_size(), INITIAL_BATCH_SIZE);
}

#[test]
fn reset_restores_the_defaults_and_seed_replaces_the_state_only() {
    let mut worker = running_worker();
    let mut run = worker.begin_batch(Bounds::standard());
    assert_eq!(run.fill(&counter), Ok(()));
    assert!(worker.finish_batch(run, 1_000_000).is_some());
    assert_eq!(worker.batch_size(), 12_000);
    assert_eq!(worker.state(), DEFAULT_STATE + 30_000);

    worker.handle_command(RngCommand::SetSeed(-5));
    assert_eq!(worker.state(), -5);
    assert_eq!(worker.batch_size(), 12_000);
    assert!(worker.is_running());

    worker.handle_command(RngCommand::Reset);
    assert_eq!(worker.state(), DEFAULT_STATE);
    assert_eq!(worker.batch_size(), INITIAL_BATCH_SIZE);
    assert!(worker.is_running());
}

#[test]
fn pause_and_resume_leave_the_worker_as_it_is() {
    let mut worker = running_worker();
    assert!(matches!(worker.handle_command(RngCommand::Pause), CommandAction::Idle));
    assert!(worker.is_running());
    assert!(!worker.should_generate(true));
    assert!(matches!(worker.handle_command(RngCommand::Resume), CommandAction::Idle));
    assert!(worker.should_generate(false));
}

#[test]
fn stop_is_final() {
    let mut worker = running_worker();
    assert!(matches!(worker.handle_command(RngCommand::Stop), CommandAction::Stop));
    assert!(worker.is_stopped());
    assert!(!worker.is_running());
    assert!(matches!(
        worker.handle_command(RngCommand::UpdateCode("late".to_string())),
        CommandAction::Stop
    ));
    worker.compile_finished(Ok(()));
    assert!(!worker.is_running());
    assert!(matches!(worker.handle_command(RngCommand::SetSeed(1)), CommandAction::Stop));
    assert_eq!(worker.state(), DEFAULT_STATE);
}

#[test]
fn fast_batches_grow_the_batch_size_by_a_fifth() {
    assert_eq!(adapt_batch_size(10_000, 0), 12_000);
    assert_eq!(adapt_batch_size(10_000, 3_999_999), 12_000);
    assert_eq!(adapt_batch_size(12_000, 1_000_000), 14_400);
    assert_eq!(adapt_batch_size(1_001, 1_000_000), 1_201);
    assert_eq!(adapt_batch_size(1_004, 1_000_000), 1_204);
}

#[test]
fn slow_batches_shrink_the_batch_size_by_a_fifth() {
    assert_eq!(adapt_batch_size(10_000, 6_000_001), 8_000);
    assert_eq!(adapt_batch_size(10_000, u64::MAX), 8_000);
    assert_eq!(adapt_batch_size(1_251, 7_000_000), 1_000);
    assert_eq!(adapt_batch_size(1_252, 7_000_000), 1_001);
}

#[test]
fn batches_near_the_target_hold_the_batch_size() {
    assert_eq!(adapt_batch_size(10_000, 4_000_000), 10_000);
    assert_eq!(adapt_batch_size(10_000, 5_000_000), 10_000);
    assert_eq!(adapt_batch_size(10_000, 6_000_000), 10_000);
}

#[test]
fn the_batch_size_stops_at_its_limits() {
    assert_eq!(adapt_batch_size(MAX_BATCH_SIZE, 0), MAX_BATCH_SIZE);
    assert_eq!(adapt_batch_size(450_000, 0), MAX_BATCH_SIZE);
    assert_eq!(adapt_batch_size(416_666, 0), 499_999);
    assert_eq!(adapt_batch_size(MIN_BATCH_SIZE, u64::MAX), MIN_BATCH_SIZE);
    assert_eq!(adapt_batch_size(1_100, u64::MAX), MIN_BATCH_SIZE);
    assert_eq!(adapt_batch_size(usize::MAX, 0), MAX_BATCH_SIZE);
    assert_eq!(adapt_batch_size(0, u64::MAX), MIN_BATCH_SIZE);
}

#[test]
fn the_batch_size_stays_in_range_over_any_run_of_latencies() {
    let mut size = INITIAL_BATCH_SIZE;
    let mut latency: u64 = 1;
    for step in 0..400u64 {
        size = adapt_batch_size(size, latency);
        assert!(MIN_BATCH_SIZE <= size && size <= MAX_BATCH_SIZE);
        latency = (latency * 7 + step * 1_313_131) % 12_000_000;
    }
    for _ in 0..60 {
        size = adapt_batch_size(size, 0);
    }
    assert_eq!(size, MAX_BATCH_SIZE);
    for _ in 0..60 {
        size = adapt_batch_size(size, 9_000_000);
    }
    assert_eq!(size, MIN_BATCH_SIZE);
}

#[test]
fn mean_latency_rounds_down_and_needs_a_sample() {
    assert_eq!(mean_latency(&vec![]), None);
    assert_eq!(mean_latency(&vec![7]), Some(7));
    assert_eq!(mean_latency(&vec![1, 2]), Some(1));
    assert_eq!(mean_latency(&vec![4_000_000, 5_000_000, 6_000_001]), Some(5_000_000));
    assert_eq!(mean_latency(&vec![u64::MAX, u64::MAX, u64::MAX]), Some(u64::MAX));
}

#[test]
fn a_report_holds_the_interval_counters_and_starts_them_over() {
    let mut worker = running_worker();
    for elapsed in [5_000_000u64, 5_500_000] {
        let mut run = worker.begin_batch(Bounds::standard());
        assert_eq!(run.fill(&counter), Ok(()));
        assert!(worker.finish_batch(run, elapsed).is_some());
    }
    let report = worker.take_report();
    assert_eq!(report, StatsReport {
        calls: 60_000,
        points: 20_000,
        batch_size: INITIAL_BATCH_SIZE,
        avg_batch_nanos: Some(5_250_000),
    });
    let again = worker.take_report();
    assert_eq!(again, StatsReport {
        calls: 0,
        points: 0,
        batch_size: INITIAL_BATCH_SIZE,
        avg_batch_nanos: Some(5_250_000),
    });
}

#[test]
fn the_latency_window_keeps_the_newest_twenty() {
    assert_eq!(LATENCY_WINDOW, 20);
    let mut worker = running_worker();
    for _ in 0..20 {
        let run = BatchRun::new(Bounds::standard(), 0, 0);
        assert!(worker.finish_batch(run, 5_000_000).is_some());
    }
    assert_eq!(worker.take_report().avg_batch_nanos, Some(5_000_000));
    let run = BatchRun::new(Bounds::standard(), 0, 0);
    assert!(worker.finish_batch(run, 5_000_021).is_some());
    assert_eq!(worker.take_report().avg_batch_nanos, Some(5_000_001));
    for _ in 0..19 {
        let run = BatchRun::new(Bounds::standard(), 0, 0);
        assert!(worker.finish_batch(run, 5_000_021).is_some());
    }
    assert_eq!(worker.take_report().avg_batch_nanos, Some(5_000_021));
}

#[test]
fn a_full_latency_window_gives_up_its_oldest_entry() {
    let mut window: Vec<u64> = Vec::new();
    for latency in 1..=20u64 {
        push_latency(&mut window, latency);
    }
    assert_eq!(window, (1..=20u64).collect::<Vec<u64>>());
    push_latency(&mut window, 21);
    assert_eq!(window, (2..=21u64).collect::<Vec<u64>>());
    push_latency(&mut window, 22);
    assert_eq!(window.len(), 20);
    assert_eq!(window[0], 3);
    assert_eq!(window[19], 22);
}

#[test]
fn a_finished_batch_gives_up_its_coordinates_and_state() {
    let mut run = BatchRun::new(Bounds::standard(), 7, 1);
    assert!(!run.is_finished());
    assert_eq!(run.fill(&counter), Ok(()));
    assert!(run.is_finished());
    assert_eq!(run.into_parts(), (vec![-492, -491, -490], 10));
}

#[test]
fn a_report_is_due_after_a_second() {
    assert_eq!(REPORT_INTERVAL_NANOS, 1_000_000_000);
    assert!(!report_due(0));
    assert!(!report_due(999_999_999));
    assert!(report_due(1_000_000_000));
    assert!(report_due(u64::MAX));
}

#[test]
fn deliveries_are_counted_and_full_channels_drop() {
    let mut worker = running_worker();
    worker.record_delivery(SendOutcome::Sent);
    worker.record_delivery(SendOutcome::Full);
    worker.record_delivery(SendOutcome::Full);
    assert_eq!(worker.total_batches(), 3);
    assert_eq!(worker.dropped_batches(), 2);
    assert!(worker.is_running());
    worker.record_delivery(SendOutcome::Disconnected);
    assert_eq!(worker.total_batches(), 4);
    assert_eq!(worker.dropped_batches(), 2);
    assert!(worker.is_stopped());
    assert!(!worker.is_running());
}

#[test]
fn a_bounded_channel_takes_its_capacity_and_drops_the_rest() {
    let (tx, rx) = crossbeam::channel::bounded::<Vec<i64>>(4);
    let mut worker = running_worker();
    for n in 0..4 {
        assert_eq!(worker.deliver(&tx, vec![n, n, n]), SendOutcome::Sent);
    }
    assert_eq!(worker.deliver(&tx, vec![4, 4, 4]), SendOutcome::Full);
    assert_eq!(worker.deliver(&tx, vec![5, 5, 5]), SendOutcome::Full);
    assert_eq!(worker.total_batches(), 6);
    assert_eq!(worker.dropped_batches(), 2);

    assert_eq!(rx.try_recv(), Ok(vec![0, 0, 0]));
    assert_eq!(worker.deliver(&tx, vec![6, 6, 6]), SendOutcome::Sent);
    let received: Vec<Vec<i64>> = rx.try_iter().collect();
    assert_eq!(received, vec![vec![1, 1, 1], vec![2, 2, 2], vec![3, 3, 3], vec![6, 6, 6]]);
    assert!(worker.is_running());

    drop(rx);
    assert_eq!(worker.deliver(&tx, vec![7, 7, 7]), SendOutcome::Disconnected);
    assert!(worker.is_stopped());
    assert_eq!(worker.total_batches(), 8);
    assert_eq!(worker.dropped_batches(), 2);
}

#[test]
fn two_runs_of_the_same_recurrence_give_the_same_batches() {
    let lcg = |state: i64| -> Result<i64, String> {
        Ok((state.wrapping_mul(1_103_515_245).wrapping_add(12_345)) & 0x7FFF_FFFF)
    };
    let bounds = Bounds { min_x: -10, max_x: 10, min_y: 0, max_y: 1000, min_z: 5, max_z: 6 };
    let mut first = running_worker();
    let mut second = running_worker();
    first.handle_command(RngCommand::SetSeed(42));
    second.handle_command(RngCommand::SetSeed(42));
    for _ in 0..3 {
        let mut run_a = first.begin_batch(bounds);
        let mut run_b = second.begin_batch(bounds);
        assert_eq!(run_a.fill(&lcg), Ok(()));
        assert_eq!(run_b.fill(&lcg), Ok(()));
        let a = first.finish_batch(run_a, 5_000_000).unwrap();
        let b = second.finish_batch(run_b, 5_000_000).unwrap();
        assert_eq!(a, b);
        assert_eq!(first.state(), second.state());
    }
}

#[test]
fn the_recurrence_must_take_one_argument() {
    assert_eq!(RNG_FUNCTION, "rng");
    assert_eq!(check_rng_arity(1), Ok(()));
    assert_eq!(
        check_rng_arity(0),
        Err("Function 'rng' must take exactly 1 argument, got 0".to_string())
    );
    assert_eq!(
        check_rng_arity(2),
        Err("Function 'rng' must take exactly 1 argument, got 2".to_string())
    );
    assert_eq!(
        check_rng_arity(1_234_567),
        Err("Function 'rng' must take exactly 1 argument, got 1234567".to_string())
    );
}

#[test]
fn six_example_recurrences_are_on_offer() {
    assert_eq!(RNG_EXAMPLE_COUNT, 6);
    let list = rng_examples();
    assert_eq!(list.len(), 6);
    assert_eq!(list[0].name, "Xorshift32");
    assert_eq!(list[4].name, "Counter (Worst)");
    assert_eq!(list[4].code, "fn rng(state: int) -> int {\n    state + 1\n}");
    assert_eq!(list[5].description, "Tiny multiplier, visible patterns.");
    assert!(rng_example(5).is_some());
    assert!(rng_example(6).is_none());
    for (index, example) in list.iter().enumerate() {
        assert_eq!(rng_example(index).unwrap().name, example.name);
        assert!(example.code.starts_with("fn rng(state: int) -> int {"));
    }
}

#[test]
fn a_turn_of_an_idle_or_paused_worker_does_nothing() {
    let (tx, rx) = crossbeam::channel::bounded::<Vec<i64>>(4);
    let stats = PerformanceStats::default();
    let mut timer = start_timer();
    let mut idle = RngWorker::new();
    let outcome = idle.step(&counter, false, Bounds::standard(), &tx, &stats, &mut timer);
    assert!(matches!(outcome, StepOutcome::Idle));
    let mut paused = running_worker();
    let outcome = paused.step(&counter, true, Bounds::standard(), &tx, &stats, &mut timer);
    assert!(matches!(outcome, StepOutcome::Idle));
    assert_eq!(paused.state(), DEFAULT_STATE);
    assert_eq!(paused.total_batches(), 0);
    assert!(rx.try_recv().is_err());
    assert_eq!(stats.total_batches.load(Ordering::Relaxed), 0);
}

#[test]
fn a_turn_generates_delivers_and_counts_a_batch() {
    let (tx, rx) = crossbeam::channel::bounded::<Vec<i64>>(1);
    let stats = PerformanceStats::default();
    let mut timer = start_timer();
    let mut worker = running_worker();
    worker.handle_command(RngCommand::SetSeed(0));

    let outcome = worker.step(&counter, false, Bounds::standard(), &tx, &stats, &mut timer);
    assert!(matches!(outcome, StepOutcome::Delivered(SendOutcome::Sent)));
    assert_eq!(worker.state(), 30_000);
    assert_eq!(stats.total_batches.load(Ordering::Relaxed), 1);
    assert_eq!(stats.dropped_batches.load(Ordering::Relaxed), 0);

    let size = worker.batch_size();
    let outcome = worker.step(&counter, false, Bounds::standard(), &tx, &stats, &mut timer);
    assert!(matches!(outcome, StepOutcome::Delivered(SendOutcome::Full)));
    assert_eq!(worker.state(), 30_000 + 3 * size as i64);
    assert_eq!(stats.total_batches.load(Ordering::Relaxed), 2);
    assert_eq!(stats.dropped_batches.load(Ordering::Relaxed), 1);

    let first = rx.try_recv().unwrap();
    assert_eq!(first.len(), 30_000);
    assert_eq!(&first[0..6], &[-499, -498, -497, -496, -495, -494]);
    assert!(rx.try_recv().is_err());

    drop(rx);
    let outcome = worker.step(&counter, false, Bounds::standard(), &tx, &stats, &mut timer);
    assert!(matches!(outcome, StepOutcome::Delivered(SendOutcome::Disconnected)));
    assert!(worker.is_stopped());
    let outcome = worker.step(&counter, false, Bounds::standard(), &tx, &stats, &mut timer);
    assert!(matches!(outcome, StepOutcome::Idle));
}

#[test]
fn a_turn_that_fails_offers_nothing() {
    let (tx, rx) = crossbeam::channel::bounded::<Vec<i64>>(4);
    let stats = PerformanceStats::default();
    let mut timer = start_timer();
    let mut worker = running_worker();
    let broken = |_state: i64| -> Result<i64, String> { Err("stack overflow".to_string()) };
    let outcome = worker.step(&broken, false, Bounds::standard(), &tx, &stats, &mut timer);
    match outcome {
        StepOutcome::Failed(message) => assert_eq!(message, "stack overflow"),
        other => panic!("expected a failure, got {:?}", other),
    }
    assert_eq!(worker.last_error(), Some("stack overflow".to_string()));
    assert_eq!(worker.state(), DEFAULT_STATE);
    assert_eq!(worker.total_batches(), 0);
    assert!(rx.try_recv().is_err());
    let outcome = worker.step(&counter, false, Bounds::standard(), &tx, &stats, &mut timer);
    assert!(matches!(outcome, StepOutcome::Idle));
}

#[test]
fn a_worker_goes_from_idle_to_running_to_paused_and_back_and_stops() {
    let mut worker = RngWorker::new();
    assert_eq!(worker.phase(false), WorkerPhase::Idle);
    assert_eq!(worker.phase(true), WorkerPhase::Idle);
    worker.handle_command(RngCommand::UpdateCode("code".to_string()));
    assert_eq!(worker.phase(false), WorkerPhase::Idle);
    worker.compile_finished(Ok(()));
    assert_eq!(worker.phase(false), WorkerPhase::Running);
    worker.handle_command(RngCommand::Pause);
    assert_eq!(worker.phase(true), WorkerPhase::Paused);
    worker.handle_command(RngCommand::Resume);
    assert_eq!(worker.phase(false), WorkerPhase::Running);
    worker.fail_batch("bad".to_string());
    assert_eq!(worker.phase(false), WorkerPhase::Idle);
    worker.handle_command(RngCommand::UpdateCode("code".to_string()));
    worker.compile_finished(Ok(()));
    assert_eq!(worker.phase(false), WorkerPhase::Running);
    worker.handle_command(RngCommand::Stop);
    assert_eq!(worker.phase(false), WorkerPhase::Stopped);
    assert_eq!(worker.phase(true), WorkerPhase::Stopped);
}

#[test]
fn the_stream_of_coordinates_does_not_depend_on_where_batches_are_cut() {
    let lcg = |state: i64| -> Result<i64, String> {
        Ok((state.wrapping_mul(48_271)) % 2_147_483_647)
    };
    let bounds = Bounds { min_x: -500, max_x: 500, min_y: -40, max_y: 60, min_z: 0, max_z: 7 };

    let mut whole = BatchRun::new(bounds, 99, 6);
    assert_eq!(whole.fill(&lcg), Ok(()));
    let (stream, end) = whole.into_parts();

    let mut cut: Vec<i64> = Vec::new();
    let mut state = 99;
    for points in [2usize, 0, 3, 1] {
        let mut part = BatchRun::new(bounds, state, points);
        assert_eq!(part.fill(&lcg), Ok(()));
        let (coords, reached) = part.into_parts();
        cut.extend(coords);
        state = reached;
    }
    assert_eq!(cut, stream);
    assert_eq!(state, end);
    assert_eq!(stream.len(), 18);
}
