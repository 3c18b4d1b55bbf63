//! The generation worker: which state a command, a finished or failed
//! batch, and a delivery lead to, and one turn of its loop.

use crate::clock::{clock_now, nanos_since};
use crate::rng::batch::{
    chain_input, is_batch_of, is_chain, is_deterministic, lemma_chains_agree, lemma_failure_ends_chain,
    lemma_failures_agree, coordinate, BatchRun,
};
use crate::rng::controller::{
    adapt_batch_size, adapt_spec, mean_latency, mean_spec, push_latency, window_push, LATENCY_WINDOW,
};
use crate::rng::engine::{
    Bounds, PerformanceStats, RngCommand, StatsReport, DEFAULT_STATE, INITIAL_BATCH_SIZE,
    MAX_BATCH_SIZE, MIN_BATCH_SIZE,
};
use crate::text::{decimal_text, with_count};
use vstd::prelude::*;

verus! {

/// Time between two statistics reports, in nanoseconds.
pub const REPORT_INTERVAL_NANOS: u64 = 1_000_000_000;

/// The name of the function that the recurrence is read from.
pub const RNG_FUNCTION: &'static str = "rng";

/// Checks the compiled recurrence `rng` before it is made active: it takes
/// one argument, or compilation fails with a message that names the number
/// it takes.
pub fn check_rng_arity(arity: usize) -> (checked: Result<(), String>)
    ensures
        checked.is_ok() <==> arity == 1,
        checked matches Err(message) ==> message@ == "Function 'rng' must take exactly 1 argument, got "@
            + decimal_text(arity as nat),
{
    if arity == 1 {
        Ok(())
    } else {
        Err(with_count("Function 'rng' must take exactly 1 argument, got ", arity))
    }
}

/// What the worker asks of its host after a command.
#[derive(Debug)]
pub enum CommandAction {
    /// Nothing further.
    Idle,
    /// Compile this source text, then report the outcome with
    /// [`RngWorker::compile_finished`].
    Compile(String),
    /// End the worker's loop.
    Stop,
}

/// What became of a batch that was offered to the hand-off channel.
#[derive(Clone, Copy, Debug, PartialEq, Eq, Structural)]
pub enum SendOutcome {
    /// The channel took the batch.
    Sent,
    /// The channel was full; the batch is lost.
    Full,
    /// The receiving side is gone; the batch is lost.
    Disconnected,
}

/// Where the worker stands in its life.
#[derive(Clone, Copy, Debug, PartialEq, Eq, Structural)]
pub enum WorkerPhase {
    /// No compiled recurrence is active: none was compiled yet, the last
    /// compilation failed, or a recurrence call failed.
    Idle,
    /// Batches are being generated.
    Running,
    /// A recurrence is active, but the host's pause flag holds it back.
    Paused,
    /// The worker has ended; this is final.
    Stopped,
}

/// The worker's state as contracts see it.
pub struct WorkerView {
    /// A compiled recurrence is active and no failure has halted it.
    pub running: bool,
    /// The worker was told to stop, or lost its channel; it takes no more
    /// commands and runs no more.
    pub stopped: bool,
    /// The input of the next batch's first recurrence call.
    pub state: i64,
    /// The size of the next batch, in points.
    pub batch_size: usize,
    /// The message of the latest compile or evaluation failure.
    pub last_error: Option<Seq<char>>,
    /// Recurrence calls since the last report.
    pub calls: u64,
    /// Points generated since the last report.
    pub points: u64,
    /// Batches offered to the channel so far.
    pub total_batches: u64,
    /// Batches that the full channel turned away so far.
    pub dropped_batches: u64,
    /// Latencies of the latest batches, in nanoseconds, oldest first.
    pub latencies: Seq<u64>,
}

/// The sum of two counters, held at the largest `u64` where it would pass it.
pub open spec fn saturating_sum(a: u64, b: int) -> u64 {
    if a + b > u64::MAX {
        u64::MAX
    } else {
        (a + b) as u64
    }
}

/// The decisions of the generation worker: which state a command, a finished
/// or failed batch, and a delivery lead to. The host thread owns the
/// evaluator, the clock and the channels, and calls in here between them.
pub struct RngWorker {
    running: bool,
    stopped: bool,
    state: i64,
    batch_size: usize,
    last_error: Option<String>,
    calls: u64,
    points: u64,
    total_batches: u64,
    dropped_batches: u64,
    latencies: Vec<u64>,
}

impl View for RngWorker {
    type V = WorkerView;

    closed spec fn view(&self) -> WorkerView {
        WorkerView {
            running: self.running,
            stopped: self.stopped,
            state: self.state,
            batch_size: self.batch_size,
            last_error: match self.last_error {
                Some(message) => Some(message@),
                None => None,
            },
            calls: self.calls,
            points: self.points,
            total_batches: self.total_batches,
            dropped_batches: self.dropped_batches,
            latencies: self.latencies@,
        }
    }
}

impl WorkerView {
    /// The batch size lies between the minimum and the maximum, the latency
    /// window holds no more than it may, and a stopped worker does not run.
    pub open spec fn wf(self) -> bool {
        &&& MIN_BATCH_SIZE <= self.batch_size <= MAX_BATCH_SIZE
        &&& self.latencies.len() <= LATENCY_WINDOW
        &&& self.stopped ==> !self.running
    }

    /// Where a worker in this state stands while the host's pause flag reads
    /// `paused`.
    pub open spec fn phase(self, paused: bool) -> WorkerPhase {
        if self.stopped {
            WorkerPhase::Stopped
        } else if !self.running {
            WorkerPhase::Idle
        } else if paused {
            WorkerPhase::Paused
        } else {
            WorkerPhase::Running
        }
    }

    /// The state that a command leads to. A stopped worker ignores commands.
    pub open spec fn after_command(self, command: RngCommand) -> WorkerView {
        if self.stopped {
            self
        } else {
            match command {
                RngCommand::UpdateCode(_) => WorkerView { running: false, last_error: None, ..self },
                RngCommand::Stop => WorkerView { running: false, stopped: true, ..self },
                RngCommand::Reset => WorkerView {
                    state: DEFAULT_STATE,
                    batch_size: INITIAL_BATCH_SIZE,
                    ..self
                },
                RngCommand::SetSeed(seed) => WorkerView { state: seed, ..self },
                RngCommand::Pause => self,
                RngCommand::Resume => self,
            }
        }
    }

    /// The state after a compilation: success starts the worker from the
    /// default state and batch size, failure records the message and leaves
    /// the worker idle.
    pub open spec fn after_compile(self, outcome: Result<(), Seq<char>>) -> WorkerView {
        if self.stopped {
            self
        } else {
            match outcome {
                Ok(()) => WorkerView {
                    running: true,
                    state: DEFAULT_STATE,
                    batch_size: INITIAL_BATCH_SIZE,
                    ..self
                },
                Err(message) => WorkerView { running: false, last_error: Some(message), ..self },
            }
        }
    }

    /// The state after a complete batch that ended in `state`, made `calls`
    /// recurrence calls and took `elapsed_nanos`.
    pub open spec fn after_batch(self, state: i64, calls: nat, elapsed_nanos: u64) -> WorkerView {
        WorkerView {
            state,
            batch_size: adapt_spec(self.batch_size as int, elapsed_nanos as int) as usize,
            calls: saturating_sum(self.calls, calls as int),
            points: saturating_sum(self.points, calls as int / 3),
            latencies: window_push(self.latencies, elapsed_nanos),
            ..self
        }
    }

    /// The state after a failed evaluation: the message is recorded and the
    /// worker halts; the generator state stays where the last complete batch
    /// left it.
    pub open spec fn after_failure(self, message: Seq<char>) -> WorkerView {
        WorkerView { running: false, last_error: Some(message), ..self }
    }

    /// The state after a batch was offered to the channel.
    pub open spec fn after_delivery(self, outcome: SendOutcome) -> WorkerView {
        WorkerView {
            total_batches: saturating_sum(self.total_batches, 1),
            dropped_batches: if outcome == SendOutcome::Full {
                saturating_sum(self.dropped_batches, 1)
            } else {
                self.dropped_batches
            },
            running: self.running && outcome != SendOutcome::Disconnected,
            stopped: self.stopped || outcome == SendOutcome::Disconnected,
            ..self
        }
    }

    /// The state after a report was taken: the interval counters start over.
    pub open spec fn after_report(self) -> WorkerView {
        WorkerView { calls: 0, points: 0, ..self }
    }

    /// The report that this state gives.
    pub open spec fn report(self) -> StatsReport {
        StatsReport {
            calls: self.calls,
            points: self.points,
            batch_size: self.batch_size,
            avg_batch_nanos: mean_spec(self.latencies),
        }
    }
}

/// A stopped worker stays stopped: no command and no compilation changes it.
pub proof fn lemma_stopped_is_final(view: WorkerView, command: RngCommand, compiled: Result<(), Seq<char>>)
    requires
        view.stopped,
    ensures
        view.after_command(command) == view,
        view.after_compile(compiled) == view,
        forall|paused: bool| #[trigger] view.phase(paused) == WorkerPhase::Stopped,
{
}

/// Nothing but a successful compilation starts a worker that does not run:
/// no command does, and neither a failed compilation, a batch, a failure, a
/// delivery nor a report.
pub proof fn lemma_only_compilation_starts(
    view: WorkerView,
    command: RngCommand,
    message: Seq<char>,
    state: i64,
    calls: nat,
    elapsed_nanos: u64,
    sent: SendOutcome,
)
    requires
        !view.running,
    ensures
        !view.after_command(command).running,
        !view.after_compile(Err(message)).running,
        !view.after_batch(state, calls, elapsed_nanos).running,
        !view.after_failure(message).running,
        !view.after_delivery(sent).running,
        !view.after_report().running,
        view.after_compile(Ok(())).running <==> !view.stopped,
{
}

/// `u64` addition that stops at the largest `u64`.
fn add_saturating(a: u64, b: usize) -> (sum: u64)
    ensures
        sum == saturating_sum(a, b as int),
{
    let wide: u128 = a as u128 + b as u128;
    if wide > u64::MAX as u128 {
        u64::MAX
    } else {
        wide as u64
    }
}

/// Whether a statistics report is due, `elapsed_nanos` after the last one.
pub fn report_due(elapsed_nanos: u64) -> (due: bool)
    ensures
        due == (elapsed_nanos >= REPORT_INTERVAL_NANOS),
{
    elapsed_nanos >= REPORT_INTERVAL_NANOS
}

impl RngWorker {
    /// Well-formedness of the worker's state; see [`WorkerView::wf`].
    pub open spec fn wf(&self) -> bool {
        self@.wf()
    }

    /// A worker without a compiled recurrence: idle, at the default state
    /// and batch size, with all counters at zero.
    pub fn new() -> (worker: RngWorker)
        ensures
            worker.wf(),
            worker@ == (WorkerView {
                running: false,
                stopped: false,
                state: DEFAULT_STATE,
                batch_size: INITIAL_BATCH_SIZE,
                last_error: None,
                calls: 0,
                points: 0,
                total_batches: 0,
                dropped_batches: 0,
                latencies: Seq::empty(),
            }),
    {
        RngWorker {
            running: false,
            stopped: false,
            state: DEFAULT_STATE,
            batch_size: INITIAL_BATCH_SIZE,
            last_error: None,
            calls: 0,
            points: 0,
            total_batches: 0,
            dropped_batches: 0,
            latencies: Vec::new(),
        }
    }

    /// Whether a compiled recurrence is active and no failure has halted it.
    pub fn is_running(&self) -> (running: bool)
        ensures
            running == self@.running,
    {
        self.running
    }

    /// Whether the worker was told to stop.
    pub fn is_stopped(&self) -> (stopped: bool)
        ensures
            stopped == self@.stopped,
    {
        self.stopped
    }

    /// Where the worker stands while the host's pause flag reads `paused`.
    pub fn phase(&self, paused: bool) -> (phase: WorkerPhase)
        ensures
            phase == self@.phase(paused),
    {
        if self.stopped {
            WorkerPhase::Stopped
        } else if !self.running {
            WorkerPhase::Idle
        } else if paused {
            WorkerPhase::Paused
        } else {
            WorkerPhase::Running
        }
    }

    /// Whether the next turn of the worker's loop produces a batch: only a
    /// running worker that is not paused does.
    pub fn should_generate(&self, paused: bool) -> (go: bool)
        ensures
            go == (self@.phase(paused) == WorkerPhase::Running),
    {
        !self.stopped && self.running && !paused
    }

    /// The input of the next batch's first recurrence call.
    pub fn state(&self) -> (state: i64)
        ensures
            state == self@.state,
    {
        self.state
    }

    /// The size of the next batch, in points.
    pub fn batch_size(&self) -> (size: usize)
        ensures
            size == self@.batch_size,
    {
        self.batch_size
    }

    /// The message of the latest compile or evaluation failure, if any.
    pub fn last_error(&self) -> (message: Option<String>)
        ensures
            match message {
                Some(text) => self@.last_error == Some(text@),
                None => self@.last_error.is_none(),
            },
    {
        match &self.last_error {
            Some(text) => Some(text.clone()),
            None => None,
        }
    }

    /// Batches offered to the channel so far.
    pub fn total_batches(&self) -> (count: u64)
        ensures
            count == self@.total_batches,
    {
        self.total_batches
    }

    /// Batches that the full channel turned away so far.
    pub fn dropped_batches(&self) -> (count: u64)
        ensures
            count == self@.dropped_batches,
    {
        self.dropped_batches
    }

    /// Applies one command and says what the host has to do for it.
    ///
    /// New source text clears the error and halts generation until
    /// [`RngWorker::compile_finished`] reports the outcome. A reset restores
    /// the default state and batch size, a seed replaces the state; neither
    /// restarts a halted worker. Pausing and resuming are the host's flag and
    /// change nothing here.
    pub fn handle_command(&mut self, command: RngCommand) -> (action: CommandAction)
        requires
            old(self).wf(),
        ensures
            final(self).wf(),
            final(self)@ == old(self)@.after_command(command),
            match action {
                CommandAction::Compile(text) => {
                    &&& !old(self)@.stopped
                    &&& command matches RngCommand::UpdateCode(code)
                    &&& text@ == code@
                },
                CommandAction::Stop => old(self)@.stopped || command is Stop,
                CommandAction::Idle => !old(self)@.stopped && !(command is UpdateCode) && !(command is Stop),
            },
    {
        if self.stopped {
            return CommandAction::Stop;
        }
        match command {
            RngCommand::UpdateCode(code) => {
                self.last_error = None;
                self.running = false;
                CommandAction::Compile(code)
            },
            RngCommand::Stop => {
                self.running = false;
                self.stopped = true;
                CommandAction::Stop
            },
            RngCommand::Reset => {
                self.state = DEFAULT_STATE;
                self.batch_size = INITIAL_BATCH_SIZE;
                CommandAction::Idle
            },
            RngCommand::SetSeed(seed) => {
                self.state = seed;
                CommandAction::Idle
            },
            RngCommand::Pause => CommandAction::Idle,
            RngCommand::Resume => CommandAction::Idle,
        }
    }

    /// Takes the outcome of compiling the source text of the latest
    /// `UpdateCode` command.
    pub fn compile_finished(&mut self, outcome: Result<(), String>)
        requires
            old(self).wf(),
        ensures
            final(self).wf(),
            final(self)@ == old(self)@.after_compile(
                match outcome {
                    Ok(()) => Ok(()),
                    Err(message) => Err(message@),
                },
            ),
    {
        if self.stopped {
            return ;
        }
        match outcome {
            Ok(()) => {
                self.state = DEFAULT_STATE;
                self.batch_size = INITIAL_BATCH_SIZE;
                self.running = true;
            },
            Err(message) => {
                self.last_error = Some(message);
                self.running = false;
            },
        }
    }

    /// Starts a batch of the current size from the current state.
    pub fn begin_batch(&self, bounds: Bounds) -> (run: BatchRun)
        requires
            self.wf(),
        ensures
            run.wf(),
            run.bounds() == bounds,
            run.points() == self@.batch_size,
            run.start() == self@.state,
            run.state() == self@.state,
            run.raws() == Seq::<i64>::empty(),
            run.coords() == Seq::<i64>::empty(),
    {
        BatchRun::new(bounds, self.state, self.batch_size)
    }

    /// Takes a batch that is complete and the time it took: the batch's last
    /// output becomes the generator state, the latency enters the window and
    /// steers the batch size, and the interval counters grow by the batch's
    /// calls and points. Hands out the coordinates for delivery. A batch
    /// that is not complete changes nothing and gives `None`.
    pub fn finish_batch(&mut self, run: BatchRun, elapsed_nanos: u64) -> (batch: Option<Vec<i64>>)
        requires
            old(self).wf(),
            run.wf(),
        ensures
            final(self).wf(),
            run.is_complete() ==> {
                &&& batch matches Some(coords)
                &&& coords@ == run.coords()
                &&& final(self)@ == old(self)@.after_batch(run.state(), run.raws().len(), elapsed_nanos)
            },
            !run.is_complete() ==> batch.is_none() && final(self)@ == old(self)@,
    {
        if !run.is_finished() {
            return None;
        }
        proof {
            run.lemma_wf();
        }
        let (coords, state) = run.into_parts();
        let calls: usize = coords.len();
        self.state = state;
        push_latency(&mut self.latencies, elapsed_nanos);
        self.batch_size = adapt_batch_size(self.batch_size, elapsed_nanos);
        self.calls = add_saturating(self.calls, calls);
        self.points = add_saturating(self.points, calls / 3);
        Some(coords)
    }

    /// Takes the message of a failed recurrence call: records it and halts
    /// generation until new source text compiles. The generator state stays
    /// where the last complete batch left it.
    pub fn fail_batch(&mut self, message: String)
        requires
            old(self).wf(),
        ensures
            final(self).wf(),
            final(self)@ == old(self)@.after_failure(message@),
    {
        self.last_error = Some(message);
        self.running = false;
    }

    /// Counts a batch that was offered to the channel, and the batch as
    /// dropped where the channel was full. A channel without a receiver
    /// stops the worker.
    pub fn record_delivery(&mut self, outcome: SendOutcome)
        requires
            old(self).wf(),
        ensures
            final(self).wf(),
            final(self)@ == old(self)@.after_delivery(outcome),
    {
        self.total_batches = add_saturating(self.total_batches, 1);
        match outcome {
            SendOutcome::Sent => {},
            SendOutcome::Full => {
                self.dropped_batches = add_saturating(self.dropped_batches, 1);
            },
            SendOutcome::Disconnected => {
                self.running = false;
                self.stopped = true;
            },
        }
    }

    /// Hands out the figures of the interval that ends now and starts the
    /// interval counters over.
    pub fn take_report(&mut self) -> (report: StatsReport)
        requires
            old(self).wf(),
        ensures
            final(self).wf(),
            report == old(self)@.report(),
            final(self)@ == old(self)@.after_report(),
    {
        let report = StatsReport {
            calls: self.calls,
            points: self.points,
            batch_size: self.batch_size,
            avg_batch_nanos: mean_latency(&self.latencies),
        };
        self.calls = 0;
        self.points = 0;
        report
    }
}

/// `crossbeam::channel::Sender`, the sending side of a channel; carried
/// through as an opaque value.
#[verifier::external_type_specification]
#[verifier::external_body]
#[verifier::reject_recursive_types(T)]
pub struct ExSender<T>(crossbeam::channel::Sender<T>);

/// Calls `crossbeam::channel::Sender::try_send`, which never blocks, and
/// tells its three results apart. The batch is gone either way: on a full or
/// disconnected channel the error that carries it back is discarded. Which
/// result comes depends on the receiving thread, so nothing is claimed of it.
#[verifier::external_body]
fn try_send_batch(channel: &crossbeam::channel::Sender<Vec<i64>>, batch: Vec<i64>) -> SendOutcome {
    match channel.try_send(batch) {
        Ok(()) => SendOutcome::Sent,
        Err(crossbeam::channel::TrySendError::Full(_)) => SendOutcome::Full,
        Err(crossbeam::channel::TrySendError::Disconnected(_)) => SendOutcome::Disconnected,
    }
}

/// What a batch that ran to completion leaves behind: `raws` is a full
/// chain of outputs of `eval` from the state before, `batch` holds their
/// coordinates, and the worker has taken the batch in with its latency.
pub open spec fn batch_succeeded<F: Fn(i64) -> Result<i64, String>>(
    eval: F,
    before: WorkerView,
    bounds: Bounds,
    after: WorkerView,
    batch: Seq<i64>,
    raws: Seq<i64>,
    elapsed_nanos: u64,
) -> bool {
    &&& raws.len() == 3 * before.batch_size
    &&& is_chain(eval, before.state, raws)
    &&& is_batch_of(batch, raws, bounds)
    &&& after == before.after_batch(
        chain_input(before.state, raws, raws.len() as int),
        raws.len(),
        elapsed_nanos,
    )
}

/// What a batch that failed leaves behind: `raws` is a chain of outputs of
/// `eval` that is shorter than the batch, the call after it failed with
/// `message`, and the worker has recorded the message and halted.
pub open spec fn batch_failed<F: Fn(i64) -> Result<i64, String>>(
    eval: F,
    before: WorkerView,
    after: WorkerView,
    message: String,
    raws: Seq<i64>,
) -> bool {
    &&& raws.len() < 3 * before.batch_size
    &&& is_chain(eval, before.state, raws)
    &&& call_ensures(
        eval,
        (chain_input(before.state, raws, raws.len() as int),),
        Err::<i64, String>(message),
    )
    &&& after == before.after_failure(message@)
}

/// What [`RngWorker::run_batch`] leaves behind, whichever way it ends: a
/// full chain of outputs and the batch of their coordinates, or a shorter
/// chain and the message of the call that failed after it.
pub open spec fn batch_outcome<F: Fn(i64) -> Result<i64, String>>(
    eval: F,
    before: WorkerView,
    bounds: Bounds,
    after: WorkerView,
    outcome: Result<Vec<i64>, String>,
) -> bool {
    match outcome {
        Ok(batch) => exists|raws: Seq<i64>, elapsed_nanos: u64| #[trigger]
            batch_succeeded(eval, before, bounds, after, batch@, raws, elapsed_nanos),
        Err(message) => exists|raws: Seq<i64>| #[trigger] batch_failed(eval, before, after, message, raws),
    }
}

/// A batch that succeeded is an outcome of a batch run.
proof fn lemma_outcome_ok<F: Fn(i64) -> Result<i64, String>>(
    eval: F,
    before: WorkerView,
    bounds: Bounds,
    after: WorkerView,
    batch: Vec<i64>,
    raws: Seq<i64>,
    elapsed_nanos: u64,
)
    requires
        batch_succeeded(eval, before, bounds, after, batch@, raws, elapsed_nanos),
    ensures
        batch_outcome(eval, before, bounds, after, Ok(batch)),
{
    let outcome: Result<Vec<i64>, String> = Ok(batch);
    assert(outcome matches Ok(held) && held == batch);
    assert(outcome matches Ok(held) && (exists|r: Seq<i64>, e: u64| #[trigger]
        batch_succeeded(eval, before, bounds, after, held@, r, e)));
}

/// A batch that failed is an outcome of a batch run.
proof fn lemma_outcome_err<F: Fn(i64) -> Result<i64, String>>(
    eval: F,
    before: WorkerView,
    bounds: Bounds,
    after: WorkerView,
    message: String,
    raws: Seq<i64>,
)
    requires
        batch_failed(eval, before, after, message, raws),
    ensures
        batch_outcome(eval, before, bounds, after, Err(message)),
{
    let outcome: Result<Vec<i64>, String> = Err(message);
    assert(outcome matches Err(held) && held == message);
    assert(outcome matches Err(held) && (exists|r: Seq<i64>| #[trigger]
        batch_failed(eval, before, after, held, r)));
}

impl RngWorker {
    /// Generates one batch by chaining `eval` from the current state and
    /// times it. A complete batch is taken in as [`RngWorker::finish_batch`]
    /// says and handed out; the first failing call ends the batch as
    /// [`RngWorker::fail_batch`] says and its message is handed out.
    pub fn run_batch<F: Fn(i64) -> Result<i64, String>>(&mut self, eval: &F, bounds: Bounds) -> (outcome: Result<
        Vec<i64>,
        String,
    >)
        requires
            old(self).wf(),
            forall|input: i64| call_requires(*eval, (input,)),
        ensures
            final(self).wf(),
            batch_outcome(*eval, old(self)@, bounds, final(self)@, outcome),
    {
        let started = clock_now();
        let mut run = self.begin_batch(bounds);
        match run.fill(eval) {
            Ok(()) => {
                let elapsed_nanos: u64 = nanos_since(&started);
                proof {
                    run.lemma_wf();
                    assert(run.raws().skip(0) == run.raws());
                }
                let ghost raws = run.raws();
                match self.finish_batch(run, elapsed_nanos) {
                    Some(batch) => {
                        proof {
                            lemma_outcome_ok(*eval, old(self)@, bounds, self@, batch, raws, elapsed_nanos);
                        }
                        Ok(batch)
                    },
                    None => vstd::pervasive::unreached(),
                }
            },
            Err(message) => {
                proof {
                    run.lemma_wf();
                    assert(run.raws().skip(0) == run.raws());
                }
                self.fail_batch(message.clone());
                proof {
                    lemma_outcome_err(*eval, old(self)@, bounds, self@, message, run.raws());
                }
                Err(message)
            },
        }
    }

    /// Offers a batch to the hand-off channel without waiting and counts what
    /// became of it, as [`RngWorker::record_delivery`] says.
    pub fn deliver(&mut self, channel: &crossbeam::channel::Sender<Vec<i64>>, batch: Vec<i64>) -> (outcome:
        SendOutcome)
        requires
            old(self).wf(),
        ensures
            final(self).wf(),
            final(self)@ == old(self)@.after_delivery(outcome),
    {
        let outcome = try_send_batch(channel, batch);
        self.record_delivery(outcome);
        outcome
    }
}

/// How one turn of the worker's loop ended.
#[derive(Debug)]
pub enum StepOutcome {
    /// The worker is idle, halted or paused; nothing was done. The host
    /// waits a moment before the next turn.
    Idle,
    /// A batch was generated and offered to the channel, with this result.
    Delivered(SendOutcome),
    /// A recurrence call failed with this message; no batch was offered.
    Failed(String),
}

/// What a turn that generated and offered a batch leaves behind: the batch
/// was taken in as [`batch_succeeded`] says, then counted as offered, and
/// last, where a report was due, the interval counters started over.
pub open spec fn turn_delivered<F: Fn(i64) -> Result<i64, String>>(
    eval: F,
    before: WorkerView,
    after: WorkerView,
    sent: SendOutcome,
    raws: Seq<i64>,
    elapsed_nanos: u64,
    reported: bool,
) -> bool {
    let taken = before.after_batch(
        chain_input(before.state, raws, raws.len() as int),
        raws.len(),
        elapsed_nanos,
    );
    &&& raws.len() == 3 * before.batch_size
    &&& is_chain(eval, before.state, raws)
    &&& after == if reported {
        taken.after_delivery(sent).after_report()
    } else {
        taken.after_delivery(sent)
    }
}

/// What [`RngWorker::step`] leaves behind, whichever way it ends: nothing
/// changes on an idle turn, and a turn is idle exactly where the worker is
/// idle, paused or stopped.
pub open spec fn step_outcome<F: Fn(i64) -> Result<i64, String>>(
    eval: F,
    before: WorkerView,
    paused: bool,
    after: WorkerView,
    outcome: StepOutcome,
) -> bool {
    &&& outcome is Idle <==> before.phase(paused) != WorkerPhase::Running
    &&& match outcome {
        StepOutcome::Idle => after == before,
        StepOutcome::Delivered(sent) => exists|raws: Seq<i64>, elapsed_nanos: u64, reported: bool| #[trigger]
            turn_delivered(eval, before, after, sent, raws, elapsed_nanos, reported),
        StepOutcome::Failed(message) => exists|raws: Seq<i64>| #[trigger]
            batch_failed(eval, before, after, message, raws),
    }
}

/// A turn of a running worker that offered its batch is an outcome of a turn.
proof fn lemma_step_delivered<F: Fn(i64) -> Result<i64, String>>(
    eval: F,
    before: WorkerView,
    after: WorkerView,
    sent: SendOutcome,
    raws: Seq<i64>,
    elapsed_nanos: u64,
    reported: bool,
)
    requires
        before.phase(false) == WorkerPhase::Running,
        turn_delivered(eval, before, after, sent, raws, elapsed_nanos, reported),
    ensures
        step_outcome(eval, before, false, after, StepOutcome::Delivered(sent)),
{
    let outcome = StepOutcome::Delivered(sent);
    assert(outcome matches StepOutcome::Delivered(held) && held == sent);
    assert(outcome matches StepOutcome::Delivered(held) && (exists|r: Seq<i64>, e: u64, p: bool| #[trigger]
        turn_delivered(eval, before, after, held, r, e, p)));
}

/// A turn of a running worker whose batch failed is an outcome of a turn.
proof fn lemma_step_failed<F: Fn(i64) -> Result<i64, String>>(
    eval: F,
    before: WorkerView,
    after: WorkerView,
    message: String,
    raws: Seq<i64>,
)
    requires
        before.phase(false) == WorkerPhase::Running,
        batch_failed(eval, before, after, message, raws),
    ensures
        step_outcome(eval, before, false, after, StepOutcome::Failed(message)),
{
    let outcome = StepOutcome::Failed(message);
    assert(outcome matches StepOutcome::Failed(held) && held == message);
    assert(outcome matches StepOutcome::Failed(held) && (exists|r: Seq<i64>| #[trigger]
        batch_failed(eval, before, after, held, r)));
}

impl RngWorker {
    /// One turn of the worker's loop, after the commands have been handled.
    /// A worker that is not running, or is paused, does nothing. Any other
    /// runs a batch as [`RngWorker::run_batch`] does, offers it to the
    /// channel as [`RngWorker::deliver`] does and publishes the delivery
    /// counters, and, where a second or more has passed on `report_timer`,
    /// publishes a report, starts the interval counters over and restarts the
    /// timer. A failed batch is neither offered nor reported.
    pub fn step<F: Fn(i64) -> Result<i64, String>>(
        &mut self,
        eval: &F,
        paused: bool,
        bounds: Bounds,
        channel: &crossbeam::channel::Sender<Vec<i64>>,
        stats: &PerformanceStats,
        report_timer: &mut std::time::Instant,
    ) -> (outcome: StepOutcome)
        requires
            old(self).wf(),
            forall|input: i64| call_requires(*eval, (input,)),
        ensures
            final(self).wf(),
            step_outcome(*eval, old(self)@, paused, final(self)@, outcome),
    {
        if !self.should_generate(paused) {
            return StepOutcome::Idle;
        }
        match self.run_batch(eval, bounds) {
            Err(message) => {
                proof {
                    let raws = choose|raws: Seq<i64>| #[trigger]
                        batch_failed(*eval, old(self)@, self@, message, raws);
                    lemma_step_failed(*eval, old(self)@, self@, message, raws);
                }
                StepOutcome::Failed(message)
            },
            Ok(batch) => {
                let ghost taken = self@;
                let ghost (raws, elapsed_nanos) = choose|raws: Seq<i64>, elapsed_nanos: u64| #[trigger]
                    batch_succeeded(*eval, old(self)@, bounds, taken, batch@, raws, elapsed_nanos);
                let sent = self.deliver(channel, batch);
                stats.publish_deliveries(self.total_batches, self.dropped_batches);
                let due = report_due(nanos_since(report_timer));
                if due {
                    let report = self.take_report();
                    stats.publish(&report);
                    *report_timer = clock_now();
                }
                proof {
                    lemma_step_delivered(*eval, old(self)@, self@, sent, raws, elapsed_nanos, due);
                }
                StepOutcome::Delivered(sent)
            },
        }
    }
}

/// Two batches produced by the same deterministic recurrence from the same
/// worker state under the same bounds are the same batch: both succeed with
/// equal coordinates and leave the same generator state, or both fail with
/// the same message and leave the same worker state. Only the measured
/// latency, and what it steers, may differ between two successful runs.
pub proof fn lemma_batches_deterministic<F: Fn(i64) -> Result<i64, String>>(
    eval: F,
    before: WorkerView,
    bounds: Bounds,
    first_after: WorkerView,
    first: Result<Vec<i64>, String>,
    second_after: WorkerView,
    second: Result<Vec<i64>, String>,
)
    requires
        is_deterministic(eval),
        batch_outcome(eval, before, bounds, first_after, first),
        batch_outcome(eval, before, bounds, second_after, second),
    ensures
        match (first, second) {
            (Ok(a), Ok(b)) => a@ == b@ && first_after.state == second_after.state,
            (Err(a), Err(b)) => a == b && first_after == second_after,
            _ => false,
        },
{
    match (first, second) {
        (Ok(a), Ok(b)) => {
            let (ra, ea) = choose|r: Seq<i64>, e: u64| #[trigger]
                batch_succeeded(eval, before, bounds, first_after, a@, r, e);
            let (rb, eb) = choose|r: Seq<i64>, e: u64| #[trigger]
                batch_succeeded(eval, before, bounds, second_after, b@, r, e);
            assert forall|k: int| 0 <= k < ra.len() implies ra[k] == rb[k] by {
                lemma_chains_agree(eval, before.state, ra, rb, k);
            }
            assert(ra == rb);
            assert forall|k: int| 0 <= k < a@.len() implies a@[k] == b@[k] by {
                assert(a@[k] as int == coordinate(ra[k], bounds, k));
                assert(b@[k] as int == coordinate(rb[k], bounds, k));
            }
            assert(a@ == b@);
        },
        (Err(a), Err(b)) => {
            let ra = choose|r: Seq<i64>| #[trigger] batch_failed(eval, before, first_after, a, r);
            let rb = choose|r: Seq<i64>| #[trigger] batch_failed(eval, before, second_after, b, r);
            lemma_failures_agree(eval, before.state, ra, a, rb, b);
        },
        (Ok(a), Err(b)) => {
            let (ra, ea) = choose|r: Seq<i64>, e: u64| #[trigger]
                batch_succeeded(eval, before, bounds, first_after, a@, r, e);
            let rb = choose|r: Seq<i64>| #[trigger] batch_failed(eval, before, second_after, b, r);
            lemma_failure_ends_chain(eval, before.state, rb, b, ra);
        },
        (Err(a), Ok(b)) => {
            let ra = choose|r: Seq<i64>| #[trigger] batch_failed(eval, before, first_after, a, r);
            let (rb, eb) = choose|r: Seq<i64>, e: u64| #[trigger]
                batch_succeeded(eval, before, bounds, second_after, b@, r, e);
            lemma_failure_ends_chain(eval, before.state, ra, a, rb);
        },
    }
}

} // verus!
