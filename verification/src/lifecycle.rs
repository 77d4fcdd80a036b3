//! Whole starts and stops: what a caller who follows the supervisor's
//! answers step by step ends up with, and what holds of it.
//!
//! A run is described twice. `follow_start` and `follow_stop` replay the
//! caller's loop over [`start_step`] and [`stop_step`]; `start_run` and
//! `stop_run` say outright how a start or stop ends. The first two lemmas
//! show that both agree; the others are stated over the runs.

use crate::path::ExecutableLocation;
use crate::supervisor::{
    already_running_text, kill_failed_text, not_running_text, probe_failed_text,
    spawn_failed_text, start_slot, start_step, started_text, stop_slot, stop_step, stopped_text,
    Launched, ProbeOutcome, StartEvent, StartStep, StopEvent, StopStep,
};
use vstd::prelude::*;

verus! {

/// What the surroundings say in the course of one start, where they are
/// asked: of the recorded worker, of the executable, and of the launch.
pub struct StartAnswers<H> {
    pub probe: ProbeOutcome,
    pub resolved: Result<ExecutableLocation, String>,
    pub spawned: Result<Launched<H>, String>,
}

/// How a start ended: the slot it left, its message or failure, and how
/// many launches it asked for.
pub struct StartRun<H> {
    pub slot: Option<H>,
    pub outcome: Result<Seq<char>, Seq<char>>,
    pub launches: nat,
}

/// How a stop ended: the slot it left, its message or failure, and the
/// worker it asked to kill, if any.
pub struct StopRun<H> {
    pub slot: Option<H>,
    pub outcome: Result<Seq<char>, Seq<char>>,
    pub killed: Option<H>,
}

/// The event with which the caller comes back from a step of a start.
pub open spec fn start_answer<H>(step: StartStep, answers: StartAnswers<H>) -> StartEvent<H> {
    match step {
        StartStep::Probe => StartEvent::Probed(answers.probe),
        StartStep::Resolve => StartEvent::Resolved(answers.resolved),
        _ => StartEvent::Spawned(answers.spawned),
    }
}

/// The caller's loop of a start, from `event` on: the event is handed in,
/// what the answer asks for is done, and so on until the answer is `Done`.
/// `None` where that takes more than `rounds` further events.
pub open spec fn follow_start<H>(
    slot: Option<H>,
    event: StartEvent<H>,
    answers: StartAnswers<H>,
    rounds: nat,
) -> Option<StartRun<H>>
    decreases rounds,
{
    let next = start_slot(slot, event);
    match start_step(slot is Some, event) {
        StartStep::Done(outcome) => Some(StartRun { slot: next, outcome, launches: 0 }),
        step => if rounds == 0 {
            None
        } else {
            match follow_start(next, start_answer(step, answers), answers, (rounds - 1) as nat) {
                Some(run) => Some(
                    StartRun {
                        slot: run.slot,
                        outcome: run.outcome,
                        launches: if step is Spawn {
                            run.launches + 1
                        } else {
                            run.launches
                        },
                    },
                ),
                None => None,
            }
        },
    }
}

/// How a start ends.
///
/// A recorded worker that is alive, or whose probe fails, stays recorded and
/// nothing is launched. From an empty slot, or once the recorded worker was
/// found exited, the resolver's failure ends the start with the slot empty;
/// else one launch is asked for, and the slot holds the new worker if it
/// succeeded and is empty if not.
pub open spec fn start_run<H>(slot: Option<H>, answers: StartAnswers<H>) -> StartRun<H> {
    if slot is Some && answers.probe is Alive {
        StartRun { slot, outcome: Ok(already_running_text()), launches: 0 }
    } else if slot is Some && answers.probe is Failed {
        StartRun {
            slot,
            outcome: Err(probe_failed_text(answers.probe->Failed_0@)),
            launches: 0,
        }
    } else {
        match answers.resolved {
            Err(failure) => StartRun { slot: None, outcome: Err(failure@), launches: 0 },
            Ok(_) => match answers.spawned {
                Ok(launched) => StartRun {
                    slot: Some(launched.handle),
                    outcome: Ok(started_text(launched.pid)),
                    launches: 1,
                },
                Err(cause) => StartRun {
                    slot: None,
                    outcome: Err(spawn_failed_text(cause@)),
                    launches: 1,
                },
            },
        }
    }
}

/// The caller's loop of a stop, from `event` on, where `kill` is what the
/// request to terminate gives. `None` where it takes more than `rounds`
/// further events.
pub open spec fn follow_stop<H>(
    slot: Option<H>,
    event: StopEvent,
    kill: Result<(), String>,
    rounds: nat,
) -> Option<StopRun<H>>
    decreases rounds,
{
    let next = stop_slot(slot, event);
    match stop_step(slot, event) {
        StopStep::Done(outcome) => Some(StopRun { slot: next, outcome, killed: None }),
        step => if rounds == 0 {
            None
        } else {
            let answer = if step is Kill {
                StopEvent::Killed(kill)
            } else {
                StopEvent::Reaped
            };
            match follow_stop(next, answer, kill, (rounds - 1) as nat) {
                Some(run) => Some(
                    StopRun {
                        slot: run.slot,
                        outcome: run.outcome,
                        killed: match step {
                            StopStep::Kill(handle) => Some(handle),
                            _ => run.killed,
                        },
                    },
                ),
                None => None,
            }
        },
    }
}

/// How a stop ends.
///
/// The slot is empty afterwards in every case. Without a worker the stop
/// fails as not running. With one, that worker is asked to terminate, and
/// the stop succeeds or fails as that request does.
pub open spec fn stop_run<H>(slot: Option<H>, kill: Result<(), String>) -> StopRun<H> {
    match slot {
        None => StopRun { slot: None, outcome: Err(not_running_text()), killed: None },
        Some(handle) => StopRun {
            slot: None,
            outcome: match kill {
                Ok(_) => Ok(stopped_text()),
                Err(cause) => Err(kill_failed_text(cause@)),
            },
            killed: Some(handle),
        },
    }
}

/// A caller who follows the answers of a start comes to its end after at
/// most three further events, and the end is what [`start_run`] says.
pub proof fn lemma_start_run_is_followed<H>(slot: Option<H>, answers: StartAnswers<H>)
    ensures
        follow_start(slot, StartEvent::Invoked, answers, 3) == Some(start_run(slot, answers)),
{
    reveal_with_fuel(follow_start, 4);
}

/// A caller who follows the answers of a stop comes to its end after at most
/// two further events, and the end is what [`stop_run`] says.
pub proof fn lemma_stop_run_is_followed<H>(slot: Option<H>, kill: Result<(), String>)
    ensures
        follow_stop(slot, StopEvent::Invoked, kill, 2) == Some(stop_run(slot, kill)),
{
    reveal_with_fuel(follow_stop, 3);
}

/// No launch over a recorded worker: a launch is only ever asked for while
/// the slot is empty, whatever the event. A start asks for at most one, and
/// for none unless the slot was empty or the recorded worker was found
/// exited.
pub proof fn lemma_no_second_worker<H>(
    slot: Option<H>,
    event: StartEvent<H>,
    answers: StartAnswers<H>,
)
    ensures
        start_step(slot is Some, event) is Spawn ==> slot is None && start_slot(slot, event)
            is None,
        start_run(slot, answers).launches <= 1,
        start_run(slot, answers).launches == 1 ==> slot is None || answers.probe is Exited,
{
}

/// A stop after a start that succeeded, where the request to terminate
/// succeeds, terminates the worker of that start, succeeds and leaves the
/// slot empty; a stop right after it fails as not running, whatever a
/// request to terminate would have given.
pub proof fn lemma_stop_after_start<H>(
    slot: Option<H>,
    answers: StartAnswers<H>,
    kill: Result<(), String>,
    again: Result<(), String>,
)
    requires
        start_run(slot, answers).outcome is Ok,
        kill is Ok,
    ensures
        ({
            let started = start_run(slot, answers);
            let stopped = stop_run(started.slot, kill);
            let second = stop_run(stopped.slot, again);
            &&& started.slot is Some
            &&& stopped.killed == started.slot
            &&& stopped.outcome == Ok::<Seq<char>, Seq<char>>(stopped_text())
            &&& stopped.slot is None
            &&& second.outcome == Err::<Seq<char>, Seq<char>>(not_running_text())
            &&& second.killed is None
            &&& second.slot is None
        }),
{
}

/// A start after a start that succeeded, where the worker is still alive,
/// succeeds again, asks for no launch and leaves the worker recorded. Where
/// the first start found the slot empty, the two have asked for exactly one
/// launch.
pub proof fn lemma_start_is_idempotent<H>(
    slot: Option<H>,
    first: StartAnswers<H>,
    second: StartAnswers<H>,
)
    requires
        start_run(slot, first).outcome is Ok,
        second.probe is Alive,
    ensures
        ({
            let started = start_run(slot, first);
            let again = start_run(started.slot, second);
            &&& again.outcome == Ok::<Seq<char>, Seq<char>>(already_running_text())
            &&& again.launches == 0
            &&& again.slot == started.slot
            &&& slot is None ==> started.launches + again.launches == 1
        }),
{
}

/// A worker that has exited is noticed by the next start, which goes on as
/// from an empty slot. A stop of such a worker, whose request to terminate
/// is not refused, succeeds like any other.
pub proof fn lemma_exited_worker_is_replaced<H>(worker: H, answers: StartAnswers<H>)
    requires
        answers.probe is Exited,
    ensures
        start_run(Some(worker), answers) == start_run(None::<H>, answers),
        stop_run(Some(worker), Ok(())).outcome == Ok::<Seq<char>, Seq<char>>(stopped_text()),
{
}

/// A probe that fails changes nothing: the start fails with the cause and
/// the worker stays recorded.
pub proof fn lemma_failed_probe_keeps_worker<H>(worker: H, answers: StartAnswers<H>)
    requires
        answers.probe is Failed,
    ensures
        start_run(Some(worker), answers).slot == Some(worker),
        start_run(Some(worker), answers).outcome is Err,
        start_run(Some(worker), answers).launches == 0,
{
}

/// The slot that the start of rank `turn` finds, where callers start one
/// after the other on a slot that begins as `slot`: each goes through its
/// whole start before the next begins, as callers that share the slot behind
/// a lock do. `answers` holds, by rank, what the surroundings say to each.
pub open spec fn slot_before_turn<H>(
    slot: Option<H>,
    answers: Seq<StartAnswers<H>>,
    turn: nat,
) -> Option<H>
    decreases turn,
{
    if turn == 0 {
        slot
    } else {
        start_run(
            slot_before_turn(slot, answers, (turn - 1) as nat),
            answers[turn - 1],
        ).slot
    }
}

/// How the start of rank `turn` ends among starts in turn.
pub open spec fn run_of_turn<H>(
    slot: Option<H>,
    answers: Seq<StartAnswers<H>>,
    turn: nat,
) -> StartRun<H> {
    start_run(slot_before_turn(slot, answers, turn), answers[turn as int])
}

/// How many launches the starts before rank `turn` have asked for.
pub open spec fn launches_before_turn<H>(
    slot: Option<H>,
    answers: Seq<StartAnswers<H>>,
    turn: nat,
) -> nat
    decreases turn,
{
    if turn == 0 {
        0
    } else {
        launches_before_turn(slot, answers, (turn - 1) as nat) + run_of_turn(
            slot,
            answers,
            (turn - 1) as nat,
        ).launches
    }
}

/// Any number of starts in turn on an empty slot, of which the first
/// succeeds and every later one finds the worker alive, launch exactly one
/// worker: the first start launches it and names its process, every later
/// one succeeds as already running and launches nothing, and the slot holds
/// that one worker throughout.
pub proof fn lemma_starts_in_turn_launch_once<H>(answers: Seq<StartAnswers<H>>, turn: nat)
    requires
        1 <= turn <= answers.len(),
        start_run(None::<H>, answers[0]).outcome is Ok,
        forall|i: int| 1 <= i < answers.len() ==> (#[trigger] answers[i]).probe is Alive,
    ensures
        run_of_turn(None::<H>, answers, 0).launches == 1,
        run_of_turn(None::<H>, answers, 0).outcome is Ok,
        slot_before_turn(None::<H>, answers, turn) is Some,
        slot_before_turn(None::<H>, answers, turn) == start_run(None::<H>, answers[0]).slot,
        launches_before_turn(None::<H>, answers, turn) == 1,
        turn < answers.len() ==> run_of_turn(None::<H>, answers, turn) == (StartRun {
            slot: start_run(None::<H>, answers[0]).slot,
            outcome: Ok(already_running_text()),
            launches: 0,
        }),
    decreases turn,
{
    reveal_with_fuel(slot_before_turn, 2);
    reveal_with_fuel(launches_before_turn, 2);
    if turn > 1 {
        lemma_starts_in_turn_launch_once(answers, (turn - 1) as nat);
    }
}

} // verus!
