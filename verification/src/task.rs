//! The life of a periodic background task: it waits for its timer, does one
//! unit of work per tick, and ends when cancellation reaches it at a wait.
//!
//! The caller owns the timer and the cancellation signal. It reports what
//! happened as a [`TaskEvent`] and does what the returned [`TaskAction`] says.

use vstd::prelude::*;

verus! {

/// Where a periodic task stands.
#[derive(Debug, Clone, Copy, PartialEq, Eq, Structural)]
pub enum TaskState {
    /// Waiting for the next tick or for cancellation.
    Idle,
    /// Doing a unit of work. `pending_tick` records that the timer fired
    /// meanwhile, however often; `cancelled` that cancellation arrived
    /// meanwhile.
    Running { pending_tick: bool, cancelled: bool },
    /// Ended; nothing starts any more.
    Terminated,
}

/// What the caller observed.
#[derive(Debug, Clone, Copy, PartialEq, Eq, Structural)]
pub enum TaskEvent {
    /// The timer fired.
    Tick,
    /// The shutdown signal was raised.
    Cancel,
    /// The unit of work that was started has ended, well or badly.
    Finished,
}

/// What the caller does next.
#[derive(Debug, Clone, Copy, PartialEq, Eq, Structural)]
pub enum TaskAction {
    /// Nothing: go on waiting, or go on working.
    Wait,
    /// Begin one unit of work.
    Start,
    /// Leave the loop.
    Stop,
}

/// The transition of a periodic task.
///
/// A tick at rest starts work. Ticks during work are remembered as one, and
/// that one starts the next unit as soon as the current one has ended.
/// Cancellation at rest ends the task; during work it is remembered and ends
/// the task once the work has ended. A report of finished work at rest is
/// ignored, and an ended task stays ended.
pub open spec fn step_spec(state: TaskState, event: TaskEvent) -> (TaskState, TaskAction) {
    match state {
        TaskState::Idle => match event {
            TaskEvent::Tick => (
                TaskState::Running { pending_tick: false, cancelled: false },
                TaskAction::Start,
            ),
            TaskEvent::Cancel => (TaskState::Terminated, TaskAction::Stop),
            TaskEvent::Finished => (TaskState::Idle, TaskAction::Wait),
        },
        TaskState::Running { pending_tick, cancelled } => match event {
            TaskEvent::Tick => (
                TaskState::Running { pending_tick: true, cancelled },
                TaskAction::Wait,
            ),
            TaskEvent::Cancel => (
                TaskState::Running { pending_tick, cancelled: true },
                TaskAction::Wait,
            ),
            TaskEvent::Finished => if cancelled {
                (TaskState::Terminated, TaskAction::Stop)
            } else if pending_tick {
                (TaskState::Running { pending_tick: false, cancelled: false }, TaskAction::Start)
            } else {
                (TaskState::Idle, TaskAction::Wait)
            },
        },
        TaskState::Terminated => (TaskState::Terminated, TaskAction::Stop),
    }
}

/// The state a task reaches from `state` after `events`, in order.
pub open spec fn run(state: TaskState, events: Seq<TaskEvent>) -> TaskState
    decreases events.len(),
{
    if events.len() == 0 {
        state
    } else {
        run(step_spec(state, events.first()).0, events.drop_first())
    }
}

/// How many units of work a task starts while it takes `events` from `state`.
pub open spec fn starts(state: TaskState, events: Seq<TaskEvent>) -> nat
    decreases events.len(),
{
    if events.len() == 0 {
        0
    } else {
        let (next, action) = step_spec(state, events.first());
        let here: nat = if action == TaskAction::Start {
            1
        } else {
            0
        };
        here + starts(next, events.drop_first())
    }
}

/// Cancellation has reached the task: it has ended, or will end with the work
/// it is doing.
pub open spec fn cancellation_seen(state: TaskState) -> bool {
    match state {
        TaskState::Idle => false,
        TaskState::Running { cancelled, .. } => cancelled,
        TaskState::Terminated => true,
    }
}

/// A run of `count` ticks.
pub open spec fn ticks(count: nat) -> Seq<TaskEvent> {
    Seq::new(count, |i: int| TaskEvent::Tick)
}

/// Advances a periodic task by one event.
pub fn step(state: TaskState, event: TaskEvent) -> (moved: (TaskState, TaskAction))
    ensures
        moved == step_spec(state, event),
{
    match state {
        TaskState::Idle => match event {
            TaskEvent::Tick => (
                TaskState::Running { pending_tick: false, cancelled: false },
                TaskAction::Start,
            ),
            TaskEvent::Cancel => (TaskState::Terminated, TaskAction::Stop),
            TaskEvent::Finished => (TaskState::Idle, TaskAction::Wait),
        },
        TaskState::Running { pending_tick, cancelled } => match event {
            TaskEvent::Tick => (
                TaskState::Running { pending_tick: true, cancelled },
                TaskAction::Wait,
            ),
            TaskEvent::Cancel => (
                TaskState::Running { pending_tick, cancelled: true },
                TaskAction::Wait,
            ),
            TaskEvent::Finished => {
                if cancelled {
                    (TaskState::Terminated, TaskAction::Stop)
                } else if pending_tick {
                    (
                        TaskState::Running { pending_tick: false, cancelled: false },
                        TaskAction::Start,
                    )
                } else {
                    (TaskState::Idle, TaskAction::Wait)
                }
            },
        },
        TaskState::Terminated => (TaskState::Terminated, TaskAction::Stop),
    }
}

/// Running a task over two stretches of events is running it over the first
/// and then, from where that led, over the second; the starts add up.
pub proof fn lemma_run_in_two(state: TaskState, first: Seq<TaskEvent>, second: Seq<TaskEvent>)
    ensures
        run(state, first + second) == run(run(state, first), second),
        starts(state, first + second) == starts(state, first) + starts(run(state, first), second),
    decreases first.len(),
{
    if first.len() == 0 {
        assert(first + second =~= second);
    } else {
        let whole = first + second;
        assert(whole.first() == first.first());
        assert(whole.drop_first() =~= first.drop_first() + second);
        lemma_run_in_two(step_spec(state, first.first()).0, first.drop_first(), second);
    }
}

/// Once cancellation has reached a task, no event makes it start work again,
/// and cancellation stays seen.
pub proof fn lemma_cancelled_never_starts(state: TaskState, events: Seq<TaskEvent>)
    requires
        cancellation_seen(state),
    ensures
        starts(state, events) == 0,
        cancellation_seen(run(state, events)),
    decreases events.len(),
{
    if events.len() > 0 {
        lemma_cancelled_never_starts(step_spec(state, events.first()).0, events.drop_first());
    }
}

/// After a shutdown signal no new unit of work begins, whatever happened
/// before it and whatever happens after it. Work that is in progress when the
/// signal arrives is not cut short: the task stays running until that work
/// reports its end, and only then stops.
pub proof fn lemma_no_work_after_shutdown(
    state: TaskState,
    before: Seq<TaskEvent>,
    after: Seq<TaskEvent>,
)
    ensures
        starts(run(state, before + seq![TaskEvent::Cancel]), after) == 0,
        run(state, before) is Running ==> run(state, before + seq![TaskEvent::Cancel]) is Running,
        run(state, before) is Running ==> step_spec(
            run(state, before + seq![TaskEvent::Cancel]),
            TaskEvent::Finished,
        ) == (TaskState::Terminated, TaskAction::Stop),
{
    let signal = seq![TaskEvent::Cancel];
    lemma_run_in_two(state, before, signal);
    let reached = run(state, before);
    assert(signal.first() == TaskEvent::Cancel);
    assert(signal.drop_first() =~= Seq::<TaskEvent>::empty());
    assert(run(reached, signal) == run(step_spec(reached, TaskEvent::Cancel).0, signal.drop_first()));
    assert(run(reached, signal) == step_spec(reached, TaskEvent::Cancel).0);
    lemma_cancelled_never_starts(run(reached, signal), after);
}

/// Ticks that fire while a unit of work is in progress do not pile up: however
/// many there were, they start nothing while the work lasts, and exactly one
/// further unit starts the moment the work ends.
pub proof fn lemma_missed_ticks_coalesce(pending_tick: bool, missed: nat)
    requires
        missed >= 1,
    ensures
        starts(TaskState::Running { pending_tick, cancelled: false }, ticks(missed)) == 0,
        run(TaskState::Running { pending_tick, cancelled: false }, ticks(missed))
            == (TaskState::Running { pending_tick: true, cancelled: false }),
        step_spec(
            run(TaskState::Running { pending_tick, cancelled: false }, ticks(missed)),
            TaskEvent::Finished,
        ) == (TaskState::Running { pending_tick: false, cancelled: false }, TaskAction::Start),
    decreases missed,
{
    let state = TaskState::Running { pending_tick, cancelled: false };
    let events = ticks(missed);
    assert(events.first() == TaskEvent::Tick);
    assert(events.drop_first() =~= ticks((missed - 1) as nat));
    let next = TaskState::Running { pending_tick: true, cancelled: false };
    assert(step_spec(state, TaskEvent::Tick) == (next, TaskAction::Wait));
    assert(starts(state, events) == starts(next, events.drop_first()));
    assert(run(state, events) == run(next, events.drop_first()));
    if missed == 1 {
        assert(events.drop_first().len() == 0);
    } else {
        lemma_missed_ticks_coalesce(true, (missed - 1) as nat);
    }
}

/// A tick at rest always starts a unit of work, and a unit of work that ends
/// with nothing pending puts the task back at rest, whether it succeeded or
/// not: a failure never ends a periodic task.
pub proof fn lemma_every_tick_at_rest_starts_work()
    ensures
        step_spec(TaskState::Idle, TaskEvent::Tick) == (
            TaskState::Running { pending_tick: false, cancelled: false },
            TaskAction::Start,
        ),
        step_spec(
            TaskState::Running { pending_tick: false, cancelled: false },
            TaskEvent::Finished,
        ) == (TaskState::Idle, TaskAction::Wait),
{
}

} // verus!
