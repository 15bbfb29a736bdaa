//! The control protocol for running an external extraction command with
//! piped standard input and (optionally) standard output.
//!
//! The orchestration is modelled as a small state machine. The driver of a
//! live child process performs the action the current state calls for
//! (spawn the child; run both pipe flows to completion and join them; wait
//! for the exit status) and feeds the outcome back as an event. The machine
//! enforces the ordering that makes the protocol deadlock-safe and the
//! child reaped: once a child runs, the exit status is demanded after —
//! and only after — the input flow and the output flow have both finished
//! and been joined, it is read at most once, and a pipe failure is held
//! until it has been read. In the mode that captures no output, a write
//! failure on the input side is tolerated when the child nevertheless
//! exits successfully: the status is authoritative. In the query mode a
//! pipe failure on either side is the operation's failure.
use vstd::prelude::*;

verus! {

/// Which of the two extraction modes a run serves.
#[derive(Clone, Copy, Debug, PartialEq, Eq, Structural)]
pub enum ExtractMode {
    /// Unpack the archive into a directory; no output is captured, so the
    /// output flow is trivially complete.
    Unpack,
    /// Query a single member: its decoded content is read from the child's
    /// standard output.
    Member,
}

/// Why an extraction failed.
#[derive(Clone, Copy, Debug, PartialEq, Eq, Structural)]
pub enum ExtractError {
    /// The external command could not be started.
    SpawnFailed,
    /// Writing the payload to the child's input pipe failed.
    InputFailed,
    /// Draining the child's output pipe failed.
    OutputFailed,
    /// Retrieving the child's exit status failed.
    WaitFailed,
    /// The child ran to completion but signalled non-success.
    ChildFailed,
}

/// An outcome the driver reports back to the machine.
#[derive(Clone, Copy, Debug, PartialEq, Eq)]
pub enum PipeEvent {
    /// The spawn attempt finished; `ok` says whether a child now runs.
    Spawned { ok: bool },
    /// Both pipe flows finished and were joined. `input_ok` is the result
    /// of writing and closing the input pipe; `output_ok` is the result of
    /// reading the output pipe to its end (trivially true in the mode that
    /// captures no output).
    Transferred { input_ok: bool, output_ok: bool },
    /// The wait for the exit status finished: `None` when the wait itself
    /// failed, otherwise whether the child signalled success.
    Waited { status: Option<bool> },
}

/// What the driver must do next.
#[derive(Clone, Copy, Debug, PartialEq, Eq, Structural)]
pub enum PipeAction {
    /// Start the child process.
    Spawn,
    /// Run both pipe flows concurrently to completion, then join them.
    Transfer,
    /// Read the exit status.
    Await,
    /// The run is over; read the verdict.
    Stop,
}

/// The protocol state of one extraction run.
#[derive(Clone, Copy, Debug, PartialEq, Eq)]
pub enum PipelineState {
    /// No child yet.
    Spawning { mode: ExtractMode },
    /// A child runs; its pipes are not yet fully written/read.
    Transferring { mode: ExtractMode },
    /// Both pipe flows are complete; the exit status may now be read.
    /// `pending` holds the pipe failure, if any, whose report waits for the
    /// child to be reaped.
    Awaiting { mode: ExtractMode, pending: Option<ExtractError> },
    /// The run is over with the given verdict.
    Done { verdict: Result<(), ExtractError> },
}

/// The pipe failure, if any, that a completed join leaves pending until
/// the exit status has been obtained: an output-side failure outranks an
/// input-side one.
pub open spec fn spec_pending(input_ok: bool, output_ok: bool) -> Option<ExtractError> {
    if !output_ok {
        Some(ExtractError::OutputFailed)
    } else if !input_ok {
        Some(ExtractError::InputFailed)
    } else {
        None
    }
}

/// The verdict once the exit status has been obtained. A held output-side
/// failure is the operation's failure. A held input-side failure is
/// tolerated only in the no-output mode and only when the child exited
/// successfully — then the status is authoritative; otherwise it is
/// reported. With no pipe failure held, a failed wait, a successful exit
/// and a non-success exit each get their own distinct verdict.
pub open spec fn spec_verdict(
    mode: ExtractMode,
    pending: Option<ExtractError>,
    status: Option<bool>,
) -> Result<(), ExtractError> {
    match pending {
        Some(ExtractError::InputFailed) => {
            if mode == ExtractMode::Unpack && status == Some(true) {
                Ok(())
            } else {
                Err(ExtractError::InputFailed)
            }
        },
        Some(e) => Err(e),
        None => match status {
            None => Err(ExtractError::WaitFailed),
            Some(true) => Ok(()),
            Some(false) => Err(ExtractError::ChildFailed),
        },
    }
}

/// The transition relation. Events that a state does not expect leave the
/// state unchanged; in particular every `Done` state is final.
pub open spec fn spec_step(s: PipelineState, e: PipeEvent) -> PipelineState {
    match (s, e) {
        (PipelineState::Spawning { mode }, PipeEvent::Spawned { ok }) => {
            if ok {
                PipelineState::Transferring { mode }
            } else {
                PipelineState::Done { verdict: Err(ExtractError::SpawnFailed) }
            }
        },
        (PipelineState::Transferring { mode }, PipeEvent::Transferred { input_ok, output_ok }) => {
            PipelineState::Awaiting { mode, pending: spec_pending(input_ok, output_ok) }
        },
        (PipelineState::Awaiting { mode, pending }, PipeEvent::Waited { status }) => {
            PipelineState::Done { verdict: spec_verdict(mode, pending, status) }
        },
        _ => s,
    }
}

/// The action each state calls for.
pub open spec fn spec_action(s: PipelineState) -> PipeAction {
    match s {
        PipelineState::Spawning { .. } => PipeAction::Spawn,
        PipelineState::Transferring { .. } => PipeAction::Transfer,
        PipelineState::Awaiting { .. } => PipeAction::Await,
        PipelineState::Done { .. } => PipeAction::Stop,
    }
}

impl PipelineState {
    /// The state before anything has run.
    pub fn initial(mode: ExtractMode) -> (r: PipelineState)
        ensures
            r == (PipelineState::Spawning { mode }),
    {
        PipelineState::Spawning { mode }
    }

    /// Advances the protocol by one reported outcome.
    pub fn step(self, e: PipeEvent) -> (r: PipelineState)
        ensures
            r == spec_step(self, e),
    {
        match (self, e) {
            (PipelineState::Spawning { mode }, PipeEvent::Spawned { ok }) => {
                if ok {
                    PipelineState::Transferring { mode }
                } else {
                    PipelineState::Done { verdict: Err(ExtractError::SpawnFailed) }
                }
            },
            (
                PipelineState::Transferring { mode },
                PipeEvent::Transferred { input_ok, output_ok },
            ) => {
                let pending = if !output_ok {
                    Some(ExtractError::OutputFailed)
                } else if !input_ok {
                    Some(ExtractError::InputFailed)
                } else {
                    None
                };
                PipelineState::Awaiting { mode, pending }
            },
            (PipelineState::Awaiting { mode, pending }, PipeEvent::Waited { status }) => {
                let verdict = match pending {
                    Some(ExtractError::InputFailed) => {
                        if matches!(mode, ExtractMode::Unpack) && matches!(status, Some(true)) {
                            Ok(())
                        } else {
                            Err(ExtractError::InputFailed)
                        }
                    },
                    Some(e) => Err(e),
                    None => match status {
                        None => Err(ExtractError::WaitFailed),
                        Some(true) => Ok(()),
                        Some(false) => Err(ExtractError::ChildFailed),
                    },
                };
                PipelineState::Done { verdict }
            },
            _ => self,
        }
    }

    /// What the driver must do next.
    pub fn next_action(&self) -> (a: PipeAction)
        ensures
            a == spec_action(*self),
    {
        match self {
            PipelineState::Spawning { .. } => PipeAction::Spawn,
            PipelineState::Transferring { .. } => PipeAction::Transfer,
            PipelineState::Awaiting { .. } => PipeAction::Await,
            PipelineState::Done { .. } => PipeAction::Stop,
        }
    }

    /// The verdict of a finished run, `None` while the run is still going.
    pub fn verdict(&self) -> (r: Option<Result<(), ExtractError>>)
        ensures
            r == (match *self {
                PipelineState::Done { verdict } => Some(verdict),
                _ => None::<Result<(), ExtractError>>,
            }),
    {
        match self {
            PipelineState::Done { verdict } => Some(*verdict),
            _ => None,
        }
    }
}

/// The state after the machine, started in `Spawning` for `mode`, has
/// consumed a whole sequence of events.
pub open spec fn spec_run(mode: ExtractMode, events: Seq<PipeEvent>) -> PipelineState
    decreases events.len(),
{
    if events.len() == 0 {
        PipelineState::Spawning { mode }
    } else {
        spec_step(spec_run(mode, events.drop_last()), events.last())
    }
}

/// The verdict the whole policy assigns to one run's outcomes: a spawn
/// failure ends everything at once; otherwise the joined pipe outcomes and
/// the exit status decide as `spec_pending` and `spec_verdict` say.
pub open spec fn spec_outcome(
    mode: ExtractMode,
    spawn_ok: bool,
    input_ok: bool,
    output_ok: bool,
    status: Option<bool>,
) -> Result<(), ExtractError> {
    if !spawn_ok {
        Err(ExtractError::SpawnFailed)
    } else {
        spec_verdict(mode, spec_pending(input_ok, output_ok), status)
    }
}

/// The whole policy in one equation: a run that reports a spawn outcome,
/// then the joined outcome of both pipe flows, then a wait outcome, ends in
/// `Done` with exactly the verdict of `spec_outcome`.
pub proof fn lemma_full_run_verdict(
    mode: ExtractMode,
    spawn_ok: bool,
    input_ok: bool,
    output_ok: bool,
    status: Option<bool>,
)
    ensures
        spec_run(
            mode,
            seq![
                PipeEvent::Spawned { ok: spawn_ok },
                PipeEvent::Transferred { input_ok, output_ok },
                PipeEvent::Waited { status },
            ],
        ) == (PipelineState::Done {
            verdict: spec_outcome(mode, spawn_ok, input_ok, output_ok, status),
        }),
{
    let e3 = seq![
        PipeEvent::Spawned { ok: spawn_ok },
        PipeEvent::Transferred { input_ok, output_ok },
        PipeEvent::Waited { status },
    ];
    let e2 = e3.drop_last();
    let e1 = e2.drop_last();
    let e0 = e1.drop_last();
    assert(e3.len() == 3);
    assert(e0.len() == 0);
    assert(e1.last() == e3[0]);
    assert(e2.last() == e3[1]);
    assert(e3.last() == e3[2]);
    assert(spec_run(mode, e0) == (PipelineState::Spawning { mode }));
    assert(spec_run(mode, e1) == spec_step(PipelineState::Spawning { mode }, e3[0]));
    assert(spec_run(mode, e2) == spec_step(spec_run(mode, e1), e3[1]));
    assert(spec_run(mode, e3) == spec_step(spec_run(mode, e2), e3[2]));
}

/// The write-failure rule in the words of the policy: a held input-side
/// failure is reported unless the run captures no output and the child
/// already exited successfully, in which case the exit status is
/// authoritative and the run succeeds.
pub proof fn lemma_write_failure_policy(mode: ExtractMode, status: Option<bool>)
    ensures
        spec_verdict(mode, Some(ExtractError::InputFailed), status) == (if mode
            == ExtractMode::Unpack && status == Some(true) {
            Ok::<(), ExtractError>(())
        } else {
            Err::<(), ExtractError>(ExtractError::InputFailed)
        }),
{
}

/// How far the protocol still is from its end.
pub open spec fn spec_rank(s: PipelineState) -> nat {
    match s {
        PipelineState::Spawning { .. } => 3,
        PipelineState::Transferring { .. } => 2,
        PipelineState::Awaiting { .. } => 1,
        PipelineState::Done { .. } => 0,
    }
}

/// Whether `e` reports the outcome of the action that `s` demands.
pub open spec fn spec_event_answers(s: PipelineState, e: PipeEvent) -> bool {
    match (s, e) {
        (PipelineState::Spawning { .. }, PipeEvent::Spawned { .. }) => true,
        (PipelineState::Transferring { .. }, PipeEvent::Transferred { .. }) => true,
        (PipelineState::Awaiting { .. }, PipeEvent::Waited { .. }) => true,
        _ => false,
    }
}

/// Progress: every outcome of the demanded action, success or failure,
/// brings the protocol strictly closer to its end. A driver whose effects
/// all report back therefore finishes within three steps — it cannot cycle
/// or stall in the machine.
pub proof fn lemma_expected_event_makes_progress(s: PipelineState, e: PipeEvent)
    requires
        spec_event_answers(s, e),
    ensures
        spec_rank(spec_step(s, e)) < spec_rank(s),
{
}

/// Once a child runs, it is always reaped: every completed join, whatever
/// each flow's outcome, moves to the waiting state and demands the exit
/// status next; a pipe failure is held there, not returned early.
pub proof fn lemma_join_demands_wait(s: PipelineState, e: PipeEvent)
    requires
        s is Transferring,
        e is Transferred,
    ensures
        spec_step(s, e) is Awaiting,
        spec_action(spec_step(s, e)) == PipeAction::Await,
{
}

/// The exit status may be demanded only at the join barrier: the one step
/// that newly reaches the waiting state is a `Transferred` event, which
/// reports both pipe flows finished and joined.
pub proof fn lemma_await_only_after_join(s: PipelineState, e: PipeEvent)
    requires
        spec_step(s, e) is Awaiting,
    ensures
        s is Awaiting || (s is Transferring && e is Transferred),
{
}

/// A finished run never moves again, so the exit status is read at most
/// once: whatever events arrive after `Done`, the verdict stands.
pub proof fn lemma_done_is_final(s: PipelineState, e: PipeEvent)
    requires
        s is Done,
    ensures
        spec_step(s, e) == s,
{
}

/// In any run that reaches the point where the exit status may be read,
/// some earlier step was the join of both pipe flows: the wait never comes
/// while either pipe is still moving.
pub proof fn lemma_run_waits_only_after_join(mode: ExtractMode, events: Seq<PipeEvent>)
    requires
        spec_run(mode, events) is Awaiting,
    ensures
        exists|j: int| 0 <= j < events.len() && events[j] is Transferred,
    decreases events.len(),
{
    if events.len() > 0 {
        let prefix = events.drop_last();
        if spec_run(mode, prefix) is Awaiting {
            lemma_run_waits_only_after_join(mode, prefix);
            let j = choose|j: int| 0 <= j < prefix.len() && prefix[j] is Transferred;
            assert(events[j] == prefix[j]);
        } else {
            lemma_await_only_after_join(spec_run(mode, prefix), events.last());
            assert(events[events.len() - 1] is Transferred);
        }
    }
}

/// A run that ends in success consumed a successful exit status, and
/// before it the join of both pipe flows: status strictly after join.
pub proof fn lemma_success_needs_join_and_status(mode: ExtractMode, events: Seq<PipeEvent>)
    requires
        spec_run(mode, events) == (PipelineState::Done { verdict: Ok(()) }),
    ensures
        exists|i: int|
            0 <= i < events.len() && events[i] == (PipeEvent::Waited { status: Some(true) }) && (
            exists|j: int| 0 <= j < i && events[j] is Transferred),
    decreases events.len(),
{
    if events.len() > 0 {
        let prefix = events.drop_last();
        if spec_run(mode, prefix) == (PipelineState::Done { verdict: Ok(()) }) {
            lemma_success_needs_join_and_status(mode, prefix);
            let i = choose|i: int|
                0 <= i < prefix.len() && prefix[i] == (PipeEvent::Waited { status: Some(true) })
                    && (exists|j: int| 0 <= j < i && prefix[j] is Transferred);
            let j = choose|j: int| 0 <= j < i && prefix[j] is Transferred;
            assert(events[i] == prefix[i]);
            assert(events[j] == prefix[j]);
        } else {
            assert(spec_run(mode, prefix) is Awaiting);
            assert(events.last() == (PipeEvent::Waited { status: Some(true) }));
            lemma_run_waits_only_after_join(mode, prefix);
            let j = choose|j: int| 0 <= j < prefix.len() && prefix[j] is Transferred;
            assert(events[j] == prefix[j]);
            assert(events[events.len() - 1] == (PipeEvent::Waited { status: Some(true) }));
        }
    }
}

} // verus!
