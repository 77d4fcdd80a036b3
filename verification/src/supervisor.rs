//! The process supervisor: one slot for at most one worker, and the decisions
//! of starting and stopping it.
//!
//! The supervisor launches, probes and kills nothing itself. Each of
//! [`start_packet_server`] and [`end_packet_server`] takes the slot and an
//! event, and answers with what is to be done next; the caller does it and
//! comes back with the event that tells how it went, until the answer is
//! `Done`. The slot is taken by `&mut`: whoever shares it between callers
//! keeps it behind a lock and holds the lock from the first event of a start
//! or stop to its `Done`.

use crate::path::ExecutableLocation;
use crate::text::{decimal, decimal_text};
use vstd::prelude::*;

verus! {

/// The slot of the one worker: empty, or holding the handle of the worker
/// that was launched last and is presumed alive.
///
/// `H` is the platform's handle of a process, by which it is probed, killed
/// and waited for. The supervisor keeps it and never looks inside.
#[derive(Debug)]
pub struct ServerProcess<H> {
    worker: Option<H>,
}

/// What a liveness probe of the recorded worker said.
#[derive(Debug, PartialEq, Eq)]
pub enum ProbeOutcome {
    /// The worker has not exited.
    Alive,
    /// The worker has exited.
    Exited,
    /// The probe itself failed, with this cause.
    Failed(String),
}

/// A worker that was launched.
#[derive(Debug)]
pub struct Launched<H> {
    pub handle: H,
    /// The process identifier, for the message.
    pub pid: u32,
}

/// What happened since the last answer of [`start_packet_server`].
#[derive(Debug)]
pub enum StartEvent<H> {
    /// A start was asked for.
    Invoked,
    /// The recorded worker was probed.
    Probed(ProbeOutcome),
    /// The path resolver was asked.
    Resolved(Result<ExecutableLocation, String>),
    /// The launch was tried.
    Spawned(Result<Launched<H>, String>),
}

/// What is to be done next in a start.
#[derive(Debug, PartialEq, Eq)]
pub enum StartAction {
    /// Probe the recorded worker without blocking, and come back with
    /// `Probed`.
    Probe,
    /// Resolve the executable, and come back with `Resolved`.
    Resolve,
    /// Launch the executable with its working directory set to `dir` and
    /// its output streams piped, and come back with `Spawned`. What the
    /// worker writes is to be read and dropped for as long as it runs, so
    /// that it never stalls on a full pipe.
    Spawn(ExecutableLocation),
    /// The start is over, with this message or this failure.
    Done(Result<String, String>),
}

/// What happened since the last answer of [`end_packet_server`].
#[derive(Debug, PartialEq, Eq)]
pub enum StopEvent {
    /// A stop was asked for.
    Invoked,
    /// The worker was asked to terminate.
    Killed(Result<(), String>),
    /// The wait for the worker's exit is over, however it went.
    Reaped,
}

/// What is to be done next in a stop.
#[derive(Debug, PartialEq, Eq)]
pub enum StopAction<H> {
    /// Ask this worker to terminate, and come back with `Killed`. The
    /// handle has left the slot.
    Kill(H),
    /// Wait until the worker has exited, and come back with `Reaped`.
    Reap,
    /// The stop is over, with this message or this failure.
    Done(Result<String, String>),
}

/// An answer of [`start_packet_server`] as values.
pub enum StartStep {
    Probe,
    Resolve,
    Spawn { path: Seq<char>, dir: Seq<char> },
    Done(Result<Seq<char>, Seq<char>>),
}

/// An answer of [`end_packet_server`] as values.
pub enum StopStep<H> {
    Kill(H),
    Reap,
    Done(Result<Seq<char>, Seq<char>>),
}

/// A message or a failure as values.
pub open spec fn outcome_text(outcome: Result<String, String>) -> Result<Seq<char>, Seq<char>> {
    match outcome {
        Ok(message) => Ok(message@),
        Err(failure) => Err(failure@),
    }
}

impl<H> View for ServerProcess<H> {
    type V = Option<H>;

    closed spec fn view(&self) -> Option<H> {
        self.worker
    }
}

impl View for StartAction {
    type V = StartStep;

    open spec fn view(&self) -> StartStep {
        match self {
            StartAction::Probe => StartStep::Probe,
            StartAction::Resolve => StartStep::Resolve,
            StartAction::Spawn(location) => StartStep::Spawn {
                path: location.path@,
                dir: location.dir@,
            },
            StartAction::Done(outcome) => StartStep::Done(outcome_text(*outcome)),
        }
    }
}

impl<H> View for StopAction<H> {
    type V = StopStep<H>;

    open spec fn view(&self) -> StopStep<H> {
        match self {
            StopAction::Kill(handle) => StopStep::Kill(*handle),
            StopAction::Reap => StopStep::Reap,
            StopAction::Done(outcome) => StopStep::Done(outcome_text(*outcome)),
        }
    }
}

/// The message of a start that found the worker alive.
pub open spec fn already_running_text() -> Seq<char> {
    "服务已在运行中"@
}

/// The failure of a start whose liveness probe failed.
pub open spec fn probe_failed_text(cause: Seq<char>) -> Seq<char> {
    "检查进程状态失败: "@ + cause
}

/// The failure of a start whose launch failed.
pub open spec fn spawn_failed_text(cause: Seq<char>) -> Seq<char> {
    "启动失败: "@ + cause
}

/// The message of a start that launched the worker, with its process
/// identifier in decimal.
pub open spec fn started_text(pid: u32) -> Seq<char> {
    "服务已启动，PID: "@ + decimal_text(pid as nat)
}

/// The failure of a stop that found no worker.
pub open spec fn not_running_text() -> Seq<char> {
    "服务未运行"@
}

/// The failure of a stop whose request to terminate failed.
pub open spec fn kill_failed_text(cause: Seq<char>) -> Seq<char> {
    "关闭失败: "@ + cause
}

/// The message of a stop that terminated the worker.
pub open spec fn stopped_text() -> Seq<char> {
    "服务已停止"@
}

/// The slot after an event of a start.
///
/// Only two events change it: the probe that found the recorded worker
/// exited clears it, and a launch that succeeded fills it.
pub open spec fn start_slot<H>(slot: Option<H>, event: StartEvent<H>) -> Option<H> {
    match event {
        StartEvent::Probed(ProbeOutcome::Exited) => None,
        StartEvent::Spawned(Ok(launched)) => Some(launched.handle),
        _ => slot,
    }
}

/// The answer to an event of a start, given whether a worker is recorded.
///
/// A start begins with the probe of the recorded worker, or with the
/// resolver where the slot is empty. A worker found alive ends the start
/// with success, one found exited leads to the resolver, a failed probe ends
/// the start with the failure. The resolver's failure ends the start
/// unchanged, and its location is launched. The outcome of a launch ends the
/// start either way.
///
/// Nothing is launched over a recorded worker: while the slot is full the
/// resolver's answer leads back to the probe. And the answer of a probe to an
/// empty slot, of whatever it was, leads to the resolver.
pub open spec fn start_step<H>(running: bool, event: StartEvent<H>) -> StartStep {
    match event {
        StartEvent::Invoked => if running {
            StartStep::Probe
        } else {
            StartStep::Resolve
        },
        StartEvent::Probed(outcome) => if !running {
            StartStep::Resolve
        } else {
            match outcome {
                ProbeOutcome::Alive => StartStep::Done(Ok(already_running_text())),
                ProbeOutcome::Exited => StartStep::Resolve,
                ProbeOutcome::Failed(cause) => StartStep::Done(Err(probe_failed_text(cause@))),
            }
        },
        StartEvent::Resolved(resolved) => if running {
            StartStep::Probe
        } else {
            match resolved {
                Ok(location) => StartStep::Spawn { path: location.path@, dir: location.dir@ },
                Err(failure) => StartStep::Done(Err(failure@)),
            }
        },
        StartEvent::Spawned(spawned) => match spawned {
            Ok(launched) => StartStep::Done(Ok(started_text(launched.pid))),
            Err(cause) => StartStep::Done(Err(spawn_failed_text(cause@))),
        },
    }
}

/// The slot after an event of a stop: asking for the stop empties it.
pub open spec fn stop_slot<H>(slot: Option<H>, event: StopEvent) -> Option<H> {
    match event {
        StopEvent::Invoked => None,
        _ => slot,
    }
}

/// The answer to an event of a stop.
///
/// Asking for a stop takes the worker out of the slot to be killed, or fails
/// where there is none. A failed kill ends the stop with the failure; after
/// a kill that succeeded the worker's exit is waited for, and then the stop
/// ends with success, however the wait went.
pub open spec fn stop_step<H>(slot: Option<H>, event: StopEvent) -> StopStep<H> {
    match event {
        StopEvent::Invoked => match slot {
            Some(handle) => StopStep::Kill(handle),
            None => StopStep::Done(Err(not_running_text())),
        },
        StopEvent::Killed(Ok(_)) => StopStep::Reap,
        StopEvent::Killed(Err(cause)) => StopStep::Done(Err(kill_failed_text(cause@))),
        StopEvent::Reaped => StopStep::Done(Ok(stopped_text())),
    }
}

impl<H> ServerProcess<H> {
    /// An empty slot.
    pub fn new() -> (slot: Self)
        ensures
            slot@ is None,
    {
        ServerProcess { worker: None }
    }

    /// Whether a worker is recorded.
    pub fn is_running(&self) -> (running: bool)
        ensures
            running == (self@ is Some),
    {
        self.worker.is_some()
    }

    /// The recorded worker, to be probed. The slot keeps it.
    pub fn worker_mut(&mut self) -> (worker: Option<&mut H>)
        ensures
            match old(self)@ {
                Some(handle) => worker is Some && *worker->Some_0 == handle && final(self)@
                    == Some(*final(worker->Some_0)),
                None => worker is None && final(self)@ is None,
            },
    {
        self.worker.as_mut()
    }
}

/// One step of starting the worker: takes the event, changes the slot as the
/// event demands, and answers with what is to be done next.
pub fn start_packet_server<H>(state: &mut ServerProcess<H>, event: StartEvent<H>) -> (action:
    StartAction)
    ensures
        final(state)@ == start_slot(old(state)@, event),
        action@ == start_step(old(state)@ is Some, event),
{
    let running = state.is_running();
    match event {
        StartEvent::Invoked => {
            if running {
                StartAction::Probe
            } else {
                StartAction::Resolve
            }
        },
        StartEvent::Probed(outcome) => {
            if !running {
                StartAction::Resolve
            } else {
                match outcome {
                    ProbeOutcome::Alive => StartAction::Done(
                        Ok(String::from_str("服务已在运行中")),
                    ),
                    ProbeOutcome::Exited => {
                        state.worker = None;
                        StartAction::Resolve
                    },
                    ProbeOutcome::Failed(cause) => StartAction::Done(
                        Err(String::from_str("检查进程状态失败: ").concat(cause.as_str())),
                    ),
                }
            }
        },
        StartEvent::Resolved(resolved) => {
            if running {
                StartAction::Probe
            } else {
                match resolved {
                    Ok(location) => StartAction::Spawn(location),
                    Err(failure) => StartAction::Done(Err(failure)),
                }
            }
        },
        StartEvent::Spawned(spawned) => match spawned {
            Ok(launched) => {
                let pid = decimal(launched.pid);
                state.worker = Some(launched.handle);
                StartAction::Done(Ok(String::from_str("服务已启动，PID: ").concat(pid.as_str())))
            },
            Err(cause) => StartAction::Done(
                Err(String::from_str("启动失败: ").concat(cause.as_str())),
            ),
        },
    }
}

/// One step of stopping the worker: takes the event, changes the slot as the
/// event demands, and answers with what is to be done next.
pub fn end_packet_server<H>(state: &mut ServerProcess<H>, event: StopEvent) -> (action: StopAction<
    H,
>)
    ensures
        final(state)@ == stop_slot(old(state)@, event),
        action@ == stop_step(old(state)@, event),
{
    match event {
        StopEvent::Invoked => match state.worker.take() {
            Some(handle) => StopAction::Kill(handle),
            None => StopAction::Done(Err(String::from_str("服务未运行"))),
        },
        StopEvent::Killed(Ok(_)) => StopAction::Reap,
        StopEvent::Killed(Err(cause)) => StopAction::Done(
            Err(String::from_str("关闭失败: ").concat(cause.as_str())),
        ),
        StopEvent::Reaped => StopAction::Done(Ok(String::from_str("服务已停止"))),
    }
}

} // verus!
