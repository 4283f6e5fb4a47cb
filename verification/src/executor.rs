//! The build execution state machine.
//!
//! One invocation runs linearly: check the skip condition, spawn the
//! build tool, drain its two output streams, wait for its exit, and map
//! the exit status to success or a fatal failure. The machine decides;
//! performing an action — spawning, reading pipes, waiting — happens
//! outside the library, which is then handed the outcome as the next
//! event. The trace lemmas at the end state the laws of whole runs.

use vstd::prelude::*;
use crate::errors::ErrorKind;
use crate::text::seq_contains;

verus! {

/// The outcome of a completed invocation.
#[derive(Clone, Copy, Debug, PartialEq, Eq, Structural)]
pub enum ExecOutcome {
    Success,
    Failure(ErrorKind),
}

/// The phases of one invocation, in order; `Completed` is terminal.
#[derive(Clone, Copy, Debug, PartialEq, Eq, Structural)]
pub enum ExecState {
    /// Reading the skip-condition signal.
    CheckSkip,
    /// Starting the build tool.
    Spawning,
    /// Relaying both output streams to completion.
    Draining,
    /// Waiting for the tool's exit status, exactly once, after draining.
    Waiting,
    /// Terminal: the invocation's outcome is decided.
    Completed(ExecOutcome),
}

/// What waiting on the subprocess produced.
#[derive(Clone, Copy, Debug, PartialEq, Eq, Structural)]
pub enum WaitOutcome {
    /// The tool exited with this status code.
    Exited(i32),
    /// Waiting itself failed.
    WaitFailed,
}

/// What the world reports back to the machine after each phase.
#[derive(Clone, Copy, Debug, PartialEq, Eq, Structural)]
pub enum ExecEvent {
    /// Whether the skip-condition signal is present.
    SkipSignal(bool),
    /// Whether the build tool could be started.
    SpawnResult(bool),
    /// Whether both streams were drained without a read error.
    DrainResult(bool),
    /// What waiting on the tool produced.
    ExitResult(WaitOutcome),
}

/// What the machine asks the world to do next.
#[derive(Clone, Copy, Debug, PartialEq, Eq, Structural)]
pub enum ExecAction {
    /// Write the skip notice; the build is bypassed.
    EmitSkipNotice,
    /// Start the build tool in the resolved directory.
    SpawnTool,
    /// Drain both output streams concurrently, relaying every line.
    DrainStreams,
    /// Wait for the tool's exit status.
    WaitForExit,
}

/// One transition: the next phase and the action to perform, if any.
/// An event that the current phase does not expect changes nothing, and
/// a completed invocation stays completed.
pub open spec fn spec_step(s: ExecState, e: ExecEvent) -> (ExecState, Option<ExecAction>) {
    match (s, e) {
        (ExecState::CheckSkip, ExecEvent::SkipSignal(true)) => (
            ExecState::Completed(ExecOutcome::Success),
            Some(ExecAction::EmitSkipNotice),
        ),
        (ExecState::CheckSkip, ExecEvent::SkipSignal(false)) => (
            ExecState::Spawning,
            Some(ExecAction::SpawnTool),
        ),
        (ExecState::Spawning, ExecEvent::SpawnResult(true)) => (
            ExecState::Draining,
            Some(ExecAction::DrainStreams),
        ),
        (ExecState::Spawning, ExecEvent::SpawnResult(false)) => (
            ExecState::Completed(ExecOutcome::Failure(ErrorKind::Spawn)),
            None,
        ),
        (ExecState::Draining, ExecEvent::DrainResult(true)) => (
            ExecState::Waiting,
            Some(ExecAction::WaitForExit),
        ),
        (ExecState::Draining, ExecEvent::DrainResult(false)) => (
            ExecState::Completed(ExecOutcome::Failure(ErrorKind::StreamRead)),
            None,
        ),
        (ExecState::Waiting, ExecEvent::ExitResult(WaitOutcome::Exited(code))) => (
            if code == 0 {
                ExecState::Completed(ExecOutcome::Success)
            } else {
                ExecState::Completed(ExecOutcome::Failure(ErrorKind::BuildFailed))
            },
            None,
        ),
        (ExecState::Waiting, ExecEvent::ExitResult(WaitOutcome::WaitFailed)) => (
            ExecState::Completed(ExecOutcome::Failure(ErrorKind::BuildFailed)),
            None,
        ),
        _ => (s, None),
    }
}

/// Take one transition of the machine.
pub fn step(s: ExecState, e: ExecEvent) -> (r: (ExecState, Option<ExecAction>))
    ensures
        r == spec_step(s, e),
{
    match (s, e) {
        (ExecState::CheckSkip, ExecEvent::SkipSignal(true)) => (
            ExecState::Completed(ExecOutcome::Success),
            Some(ExecAction::EmitSkipNotice),
        ),
        (ExecState::CheckSkip, ExecEvent::SkipSignal(false)) => (
            ExecState::Spawning,
            Some(ExecAction::SpawnTool),
        ),
        (ExecState::Spawning, ExecEvent::SpawnResult(true)) => (
            ExecState::Draining,
            Some(ExecAction::DrainStreams),
        ),
        (ExecState::Spawning, ExecEvent::SpawnResult(false)) => (
            ExecState::Completed(ExecOutcome::Failure(ErrorKind::Spawn)),
            None,
        ),
        (ExecState::Draining, ExecEvent::DrainResult(true)) => (
            ExecState::Waiting,
            Some(ExecAction::WaitForExit),
        ),
        (ExecState::Draining, ExecEvent::DrainResult(false)) => (
            ExecState::Completed(ExecOutcome::Failure(ErrorKind::StreamRead)),
            None,
        ),
        (ExecState::Waiting, ExecEvent::ExitResult(WaitOutcome::Exited(code))) => (
            if code == 0 {
                ExecState::Completed(ExecOutcome::Success)
            } else {
                ExecState::Completed(ExecOutcome::Failure(ErrorKind::BuildFailed))
            },
            None,
        ),
        (ExecState::Waiting, ExecEvent::ExitResult(WaitOutcome::WaitFailed)) => (
            ExecState::Completed(ExecOutcome::Failure(ErrorKind::BuildFailed)),
            None,
        ),
        _ => (s, None),
    }
}

/// Is the skip-condition signal present? It is when the wrapper variable
/// is set and names the substitute compiler driver.
pub fn skip_condition(wrapper_value: Option<&str>) -> (r: bool)
    ensures
        match wrapper_value {
            Some(v) => r == seq_contains(v@, "clippy-driver"@),
            None => r == false,
        },
{
    match wrapper_value {
        Some(v) => crate::text::contains_str(v, "clippy-driver"),
        None => false,
    }
}

/// The phase after feeding `events` one by one from `s`.
pub open spec fn run_state(s: ExecState, events: Seq<ExecEvent>) -> ExecState
    decreases events.len(),
{
    if events.len() == 0 {
        s
    } else {
        run_state(spec_step(s, events[0]).0, events.skip(1))
    }
}

/// Does feeding `events` from `s` ever ask for action `a`?
pub open spec fn run_emits(s: ExecState, events: Seq<ExecEvent>, a: ExecAction) -> bool
    decreases events.len(),
{
    if events.len() == 0 {
        false
    } else {
        spec_step(s, events[0]).1 == Some(a) || run_emits(
            spec_step(s, events[0]).0,
            events.skip(1),
            a,
        )
    }
}

/// A completed invocation is final: no event moves it and no action is
/// ever asked for again.
pub proof fn lemma_completed_absorbing(o: ExecOutcome, events: Seq<ExecEvent>)
    ensures
        run_state(ExecState::Completed(o), events) == ExecState::Completed(o),
        forall|a: ExecAction| !run_emits(ExecState::Completed(o), events, a),
    decreases events.len(),
{
    if events.len() > 0 {
        lemma_completed_absorbing(o, events.skip(1));
        assert(spec_step(ExecState::Completed(o), events[0]).0 == ExecState::Completed(o));
        assert forall|a: ExecAction| !run_emits(ExecState::Completed(o), events, a) by {
            assert(!run_emits(ExecState::Completed(o), events.skip(1), a));
        };
    }
}

/// Law: when the skip-condition signal is present, the invocation never
/// spawns the tool and always completes successfully, whatever follows.
pub proof fn lemma_skip_never_spawns(events: Seq<ExecEvent>)
    requires
        events.len() > 0,
        events[0] == ExecEvent::SkipSignal(true),
    ensures
        run_state(ExecState::CheckSkip, events) == ExecState::Completed(ExecOutcome::Success),
        !run_emits(ExecState::CheckSkip, events, ExecAction::SpawnTool),
{
    lemma_completed_absorbing(ExecOutcome::Success, events.skip(1));
    assert(run_state(ExecState::CheckSkip, events) == run_state(
        ExecState::Completed(ExecOutcome::Success),
        events.skip(1),
    ));
    assert(!run_emits(ExecState::Completed(ExecOutcome::Success), events.skip(1),
        ExecAction::SpawnTool));
}

/// Law: a spawn failure is fatal at once — the invocation completes with
/// a spawn error, and no stream is ever drained and no exit waited on.
pub proof fn lemma_spawn_failure_is_immediate(events: Seq<ExecEvent>)
    requires
        events.len() >= 2,
        events[0] == ExecEvent::SkipSignal(false),
        events[1] == ExecEvent::SpawnResult(false),
    ensures
        run_state(ExecState::CheckSkip, events) == ExecState::Completed(
            ExecOutcome::Failure(ErrorKind::Spawn),
        ),
        !run_emits(ExecState::CheckSkip, events, ExecAction::DrainStreams),
        !run_emits(ExecState::CheckSkip, events, ExecAction::WaitForExit),
{
    let rest = events.skip(1);
    assert(rest[0] == events[1]);
    lemma_completed_absorbing(ExecOutcome::Failure(ErrorKind::Spawn), rest.skip(1));
    assert(run_state(ExecState::CheckSkip, events) == run_state(ExecState::Spawning, rest));
    assert(run_state(ExecState::Spawning, rest) == run_state(
        ExecState::Completed(ExecOutcome::Failure(ErrorKind::Spawn)),
        rest.skip(1),
    ));
    assert(spec_step(ExecState::Spawning, rest[0]).1 is None);
    assert(!run_emits(
        ExecState::Completed(ExecOutcome::Failure(ErrorKind::Spawn)),
        rest.skip(1),
        ExecAction::DrainStreams,
    ));
    assert(!run_emits(
        ExecState::Completed(ExecOutcome::Failure(ErrorKind::Spawn)),
        rest.skip(1),
        ExecAction::WaitForExit,
    ));
    assert(!run_emits(ExecState::Spawning, rest, ExecAction::DrainStreams));
    assert(!run_emits(ExecState::Spawning, rest, ExecAction::WaitForExit));
}

/// Law: a zero exit status is the only success — from the waiting phase,
/// exit status zero completes successfully, and any non-zero status or a
/// failed wait completes with a build failure.
pub proof fn lemma_exit_status_decides(w: WaitOutcome)
    ensures
        w == WaitOutcome::Exited(0) ==> spec_step(ExecState::Waiting, ExecEvent::ExitResult(w))
            == (ExecState::Completed(ExecOutcome::Success), None::<ExecAction>),
        w != WaitOutcome::Exited(0) ==> spec_step(ExecState::Waiting, ExecEvent::ExitResult(w))
            == (
            ExecState::Completed(ExecOutcome::Failure(ErrorKind::BuildFailed)),
            None::<ExecAction>,
        ),
{
}

} // verus!
