//! The decisions of the recorder: the supervisor's lifecycle, and the worker
//! that takes decoded events off the hand-off queue and has them stored.
use crate::config::{settle, Config, ConfigError};
use crate::event::{DecodeError, Event};
use crate::store::StoreError;
use vstd::prelude::*;

verus! {

/// Where the supervisor stands in its lifecycle.
#[derive(Debug, Clone, Copy, PartialEq, Eq, Structural)]
pub enum Phase {
    Uninitialized,
    Configuring,
    Disabled,
    Running,
    ShuttingDown,
    Stopped,
}

/// What happens to the supervisor.
#[derive(Debug, Clone, Copy, PartialEq, Eq, Structural)]
pub enum Lifecycle {
    /// The configuration was settled, with this enabled flag.
    Configure(bool),
    /// The store was opened and its schema established, or not.
    Activate(bool),
    /// The host tears the recorder down.
    ShutDown,
    /// The worker has drained the queue and exited.
    WorkerExited,
}

/// The supervisor's next phase.
pub open spec fn next_phase(p: Phase, l: Lifecycle) -> Phase {
    match (p, l) {
        (Phase::Uninitialized, Lifecycle::Configure(enabled)) => if enabled {
            Phase::Configuring
        } else {
            Phase::Disabled
        },
        (Phase::Configuring, Lifecycle::Activate(ok)) => if ok {
            Phase::Running
        } else {
            Phase::Stopped
        },
        (Phase::Running, Lifecycle::ShutDown) => Phase::ShuttingDown,
        (Phase::Uninitialized, Lifecycle::ShutDown) => Phase::Stopped,
        (Phase::Configuring, Lifecycle::ShutDown) => Phase::Stopped,
        (Phase::Disabled, Lifecycle::ShutDown) => Phase::Stopped,
        (Phase::ShuttingDown, Lifecycle::WorkerExited) => Phase::Stopped,
        _ => p,
    }
}

/// The phase after a series of lifecycle steps.
pub open spec fn phase_after(p: Phase, steps: Seq<Lifecycle>) -> Phase
    decreases steps.len(),
{
    if steps.len() == 0 {
        p
    } else {
        phase_after(next_phase(p, steps[0]), steps.drop_first())
    }
}

/// The status that the host is given: 0 while recording, -1 otherwise.
pub open spec fn status_of(p: Phase) -> int {
    if p == Phase::Running {
        0
    } else {
        -1
    }
}

/// Owns the recorder's configuration and lifecycle.
#[derive(Debug)]
pub struct Supervisor {
    pub phase: Phase,
    pub config: Config,
}

impl Supervisor {
    /// A supervisor that has not been configured, holding the default
    /// configuration.
    pub fn new() -> (r: Supervisor)
        ensures
            r.phase == Phase::Uninitialized,
            r.config.is((true, "events.db"@)),
    {
        Supervisor { phase: Phase::Uninitialized, config: Config::default() }
    }

    /// Takes the loaded configuration, or the default where none could be
    /// loaded. Returns whether the store must now be opened; a disabled
    /// recorder stays idle.
    pub fn configure(&mut self, loaded: Result<Config, ConfigError>) -> (r: bool)
        ensures
            old(self).phase == Phase::Uninitialized ==> match loaded {
                Ok(c) => final(self).config == c,
                Err(_) => final(self).config.is((true, "events.db"@)),
            },
            old(self).phase != Phase::Uninitialized ==> final(self).config == old(self).config,
            final(self).phase == next_phase(old(self).phase, Lifecycle::Configure(final(self).config.enabled)),
            r == (old(self).phase == Phase::Uninitialized && final(self).phase == Phase::Configuring),
    {
        if self.phase != Phase::Uninitialized {
            return false;
        }
        self.config = settle(loaded);
        if self.config.enabled {
            self.phase = Phase::Configuring;
            true
        } else {
            self.phase = Phase::Disabled;
            false
        }
    }

    /// Takes the outcome of opening the store and establishing its schema;
    /// recording starts only where both succeeded. Returns the host's status.
    pub fn activate(&mut self, setup: Result<(), StoreError>) -> (status: i32)
        ensures
            final(self).phase == next_phase(old(self).phase, Lifecycle::Activate(setup is Ok)),
            final(self).config == old(self).config,
            status as int == status_of(final(self).phase),
    {
        if self.phase == Phase::Configuring {
            self.phase = match setup {
                Ok(()) => Phase::Running,
                Err(_) => Phase::Stopped,
            };
        }
        self.status()
    }

    /// The host's status: 0 while recording, -1 otherwise.
    pub fn status(&self) -> (r: i32)
        ensures
            r as int == status_of(self.phase),
    {
        if self.phase == Phase::Running {
            0
        } else {
            -1
        }
    }

    /// Whether incoming events are put on the queue: only while recording.
    pub fn accepts_events(&self) -> (r: bool)
        ensures
            r == (self.phase == Phase::Running),
    {
        self.phase == Phase::Running
    }

    /// The host tears the recorder down: a running worker is told to drain the
    /// queue and exit; anything else stops at once.
    pub fn shut_down(&mut self)
        ensures
            final(self).phase == next_phase(old(self).phase, Lifecycle::ShutDown),
            final(self).config == old(self).config,
    {
        self.phase = match self.phase {
            Phase::Running => Phase::ShuttingDown,
            Phase::ShuttingDown => Phase::ShuttingDown,
            _ => Phase::Stopped,
        };
    }

    /// The worker has exited.
    pub fn worker_exited(&mut self)
        ensures
            final(self).phase == next_phase(old(self).phase, Lifecycle::WorkerExited),
            final(self).config == old(self).config,
    {
        if self.phase == Phase::ShuttingDown {
            self.phase = Phase::Stopped;
        }
    }
}

/// A recorder configured as disabled never records: whatever happens to it
/// afterwards, it never runs, reports failure to the host, and accepts no
/// event.
pub proof fn lemma_disabled_records_nothing(steps: Seq<Lifecycle>)
    ensures
        next_phase(Phase::Uninitialized, Lifecycle::Configure(false)) == Phase::Disabled,
        phase_after(Phase::Disabled, steps) == Phase::Disabled || phase_after(Phase::Disabled, steps)
            == Phase::Stopped,
        phase_after(Phase::Disabled, steps) != Phase::Running,
        status_of(phase_after(Phase::Disabled, steps)) == -1,
    decreases steps.len(),
{
    if steps.len() > 0 {
        lemma_disabled_records_nothing(steps.drop_first());
        lemma_stopped_stays(steps.drop_first());
    }
}

proof fn lemma_stopped_stays(steps: Seq<Lifecycle>)
    ensures
        phase_after(Phase::Stopped, steps) == Phase::Stopped,
    decreases steps.len(),
{
    if steps.len() > 0 {
        lemma_stopped_stays(steps.drop_first());
    }
}

/// Where the worker stands.
#[derive(Debug, Clone, Copy, PartialEq, Eq, Structural)]
pub enum WorkerPhase {
    /// Waiting for the next event on the queue.
    Receiving,
    /// Waiting for the store to answer an insertion.
    Inserting,
    /// The queue was closed; the worker has exited.
    Finished,
}

/// What the worker is told.
#[derive(Debug)]
pub enum WorkerInput {
    /// An event came off the queue, decoded or not.
    Received(Result<Event, DecodeError>),
    /// The store answered the pending insertion.
    Inserted(Result<(), StoreError>),
    /// The producer side of the queue was closed.
    Closed,
}

/// What the worker asks for.
#[derive(Debug)]
pub enum WorkerAction {
    /// Insert this event into the store.
    Insert(Event),
    /// Log that an event could not be decoded, and go on.
    ReportDecode(DecodeError),
    /// Log that an event could not be stored, and go on.
    ReportStore(StoreError),
    /// The event was stored; go on.
    Recorded,
    /// Nothing to do for this input.
    Wait,
    /// Exit the worker.
    Exit,
}

/// The worker's next phase and action: a decoded event is inserted, a failure
/// of either kind is reported and the next event is awaited, and a closed
/// queue ends the worker. An input out of turn changes nothing.
pub open spec fn worker_step(p: WorkerPhase, i: WorkerInput) -> (WorkerPhase, WorkerAction) {
    match (p, i) {
        (WorkerPhase::Receiving, WorkerInput::Received(Ok(e))) => (
            WorkerPhase::Inserting,
            WorkerAction::Insert(e),
        ),
        (WorkerPhase::Receiving, WorkerInput::Received(Err(d))) => (
            WorkerPhase::Receiving,
            WorkerAction::ReportDecode(d),
        ),
        (WorkerPhase::Receiving, WorkerInput::Closed) => (WorkerPhase::Finished, WorkerAction::Exit),
        (WorkerPhase::Inserting, WorkerInput::Inserted(Ok(()))) => (
            WorkerPhase::Receiving,
            WorkerAction::Recorded,
        ),
        (WorkerPhase::Inserting, WorkerInput::Inserted(Err(s))) => (
            WorkerPhase::Receiving,
            WorkerAction::ReportStore(s),
        ),
        _ => (p, WorkerAction::Wait),
    }
}

/// The worker's phase and actions over a series of inputs.
pub open spec fn worker_run(p: WorkerPhase, inputs: Seq<WorkerInput>) -> (WorkerPhase, Seq<
    WorkerAction,
>)
    decreases inputs.len(),
{
    if inputs.len() == 0 {
        (p, seq![])
    } else {
        let (q, a) = worker_step(p, inputs[0]);
        let (f, rest) = worker_run(q, inputs.drop_first());
        (f, seq![a] + rest)
    }
}

/// The events that a series of actions inserts, in order.
pub open spec fn inserted(actions: Seq<WorkerAction>) -> Seq<Event>
    decreases actions.len(),
{
    if actions.len() == 0 {
        seq![]
    } else {
        match actions[0] {
            WorkerAction::Insert(e) => seq![e] + inserted(actions.drop_first()),
            _ => inserted(actions.drop_first()),
        }
    }
}

/// The events that decoded, in order.
pub open spec fn successes(decoded: Seq<Result<Event, DecodeError>>) -> Seq<Event>
    decreases decoded.len(),
{
    if decoded.len() == 0 {
        seq![]
    } else {
        match decoded[0] {
            Ok(e) => seq![e] + successes(decoded.drop_first()),
            Err(_) => successes(decoded.drop_first()),
        }
    }
}

/// The inputs of a worker that is handed these events off the queue, and
/// whose insertions the store answers with these outcomes, one per event
/// that decoded.
pub open spec fn queue_inputs(
    decoded: Seq<Result<Event, DecodeError>>,
    outcomes: Seq<Result<(), StoreError>>,
) -> Seq<WorkerInput>
    decreases decoded.len(),
{
    if decoded.len() == 0 {
        seq![]
    } else {
        let rest = queue_inputs(decoded.drop_first(), outcomes.drop_first());
        match decoded[0] {
            Ok(_) => seq![WorkerInput::Received(decoded[0]), WorkerInput::Inserted(outcomes[0])]
                + rest,
            Err(_) => seq![WorkerInput::Received(decoded[0])] + rest,
        }
    }
}

/// The worker that takes events off the hand-off queue.
#[derive(Debug)]
pub struct Worker {
    pub phase: WorkerPhase,
}

impl Worker {
    /// A worker waiting for its first event.
    pub fn new() -> (r: Worker)
        ensures
            r.phase == WorkerPhase::Receiving,
    {
        Worker { phase: WorkerPhase::Receiving }
    }

    /// Takes one input and says what to do next.
    pub fn handle(&mut self, input: WorkerInput) -> (a: WorkerAction)
        ensures
            (final(self).phase, a) == worker_step(old(self).phase, input),
    {
        match (self.phase, input) {
            (WorkerPhase::Receiving, WorkerInput::Received(Ok(e))) => {
                self.phase = WorkerPhase::Inserting;
                WorkerAction::Insert(e)
            },
            (WorkerPhase::Receiving, WorkerInput::Received(Err(d))) => WorkerAction::ReportDecode(d),
            (WorkerPhase::Receiving, WorkerInput::Closed) => {
                self.phase = WorkerPhase::Finished;
                WorkerAction::Exit
            },
            (WorkerPhase::Inserting, WorkerInput::Inserted(Ok(()))) => {
                self.phase = WorkerPhase::Receiving;
                WorkerAction::Recorded
            },
            (WorkerPhase::Inserting, WorkerInput::Inserted(Err(s))) => {
                self.phase = WorkerPhase::Receiving;
                WorkerAction::ReportStore(s)
            },
            _ => WorkerAction::Wait,
        }
    }
}

proof fn lemma_run_cons(p: WorkerPhase, i: WorkerInput, rest: Seq<WorkerInput>)
    ensures
        worker_run(p, seq![i] + rest) == ({
            let (q, a) = worker_step(p, i);
            let (f, r) = worker_run(q, rest);
            (f, seq![a] + r)
        }),
{
    let s = seq![i] + rest;
    assert(s[0] == i);
    assert(s.drop_first() =~= rest);
}

proof fn lemma_inserted_cons(a: WorkerAction, rest: Seq<WorkerAction>)
    ensures
        inserted(seq![a] + rest) == match a {
            WorkerAction::Insert(e) => seq![e] + inserted(rest),
            _ => inserted(rest),
        },
{
    let s = seq![a] + rest;
    assert(s[0] == a);
    assert(s.drop_first() =~= rest);
}

/// The store receives exactly the events that decoded, in the order in which
/// they came off the queue, whatever the store answers to each insertion: a
/// failed insertion does not keep the next event from being inserted, and the
/// worker ends each event ready for the next.
pub proof fn lemma_queue_order(
    decoded: Seq<Result<Event, DecodeError>>,
    outcomes: Seq<Result<(), StoreError>>,
)
    ensures
        worker_run(WorkerPhase::Receiving, queue_inputs(decoded, outcomes)).0
            == WorkerPhase::Receiving,
        inserted(worker_run(WorkerPhase::Receiving, queue_inputs(decoded, outcomes)).1)
            == successes(decoded),
    decreases decoded.len(),
{
    if decoded.len() > 0 {
        let tail = decoded.drop_first();
        let rest = queue_inputs(tail, outcomes.drop_first());
        lemma_queue_order(tail, outcomes.drop_first());
        let (f, acts) = worker_run(WorkerPhase::Receiving, rest);
        match decoded[0] {
            Ok(e) => {
                let o = outcomes[0];
                let ins = WorkerInput::Inserted(o);
                let two = seq![WorkerInput::Received(decoded[0]), ins];
                assert(two + rest =~= seq![WorkerInput::Received(decoded[0])] + (seq![ins] + rest));
                lemma_run_cons(WorkerPhase::Receiving, WorkerInput::Received(decoded[0]), seq![ins] + rest);
                lemma_run_cons(WorkerPhase::Inserting, ins, rest);
                let back = worker_step(WorkerPhase::Inserting, ins).1;
                lemma_inserted_cons(WorkerAction::Insert(e), seq![back] + acts);
                lemma_inserted_cons(back, acts);
            },
            Err(d) => {
                lemma_run_cons(WorkerPhase::Receiving, WorkerInput::Received(decoded[0]), rest);
                lemma_inserted_cons(WorkerAction::ReportDecode(d), acts);
            },
        }
    }
}

/// A failed insertion is reported, and the worker goes on to insert the next
/// event that decodes.
pub proof fn lemma_store_failure_isolated(err: StoreError, next: Event)
    ensures
        worker_step(WorkerPhase::Inserting, WorkerInput::Inserted(Err(err))) == (
            WorkerPhase::Receiving,
            WorkerAction::ReportStore(err),
        ),
        worker_step(WorkerPhase::Receiving, WorkerInput::Received(Ok(next))) == (
            WorkerPhase::Inserting,
            WorkerAction::Insert(next),
        ),
{
}

} // verus!
