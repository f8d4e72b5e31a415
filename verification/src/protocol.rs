//! The life of a worker handle, as a state machine.
//!
//! A handle exists only once its context has signalled readiness. From then
//! on it is ready, busy with the one task in flight, or terminated for good.
//! This module states the machine over plain mathematical values; the handle
//! in [`crate::worker`] is proved to follow it step by step, and the laws at
//! the end of this module hold of every run of it.

use vstd::prelude::*;
use crate::codec::Encoding;
use crate::error::WorkerError;

verus! {

/// The states of a worker.
#[derive(Clone, Copy, Debug, PartialEq, Eq, Structural)]
pub enum WorkerState {
    /// The context was asked for and has not signalled readiness yet.
    Created,
    /// The context is idle and takes a task.
    Ready,
    /// One task is in flight.
    Busy,
    /// The context was stopped. Nothing is permitted any more.
    Terminated,
}

/// What becomes of a handle when the response to its task has arrived.
#[derive(Clone, Copy, Debug, PartialEq, Eq, Structural)]
pub enum Policy {
    /// The guard is released and the handle takes the next task.
    Reusable,
    /// The context is stopped: the handle serves one task.
    SingleShot,
}

/// Where a handle stands. A busy handle remembers the encoding of the request
/// in flight, in which the response will be read.
#[derive(Clone, Copy, Debug, PartialEq, Eq, Structural)]
pub enum Phase {
    /// Idle.
    Ready,
    /// One task is in flight, submitted in this encoding.
    Busy(Encoding),
    /// Stopped for good.
    Terminated,
}

/// The mathematical content of a handle.
pub struct Model {
    /// Where the handle stands.
    pub phase: Phase,
    /// What becomes of it when a response has arrived.
    pub policy: Policy,
    /// The names of the tasks that the module in the context exports.
    pub tasks: Seq<Seq<char>>,
}

/// What can happen to a handle.
pub enum Event {
    /// The task `name` is submitted with a payload in `encoding`; `encodable`
    /// says whether a request could be written for it.
    Submit { name: Seq<char>, encoding: Encoding, encodable: bool },
    /// A message arrives from the context.
    Message,
    /// The transport reports that it could not post the last request.
    PostFailed,
    /// The handle is killed.
    Kill,
}

impl Model {
    /// A handle as the handshake leaves it.
    pub open spec fn fresh(policy: Policy, tasks: Seq<Seq<char>>) -> Model {
        Model { phase: Phase::Ready, policy, tasks }
    }

    /// Whether the module in the context exports a task called `name`.
    pub open spec fn exports(self, name: Seq<char>) -> bool {
        self.tasks.contains(name)
    }

    /// The state of the handle. It is never `Created`: a handle is past its
    /// handshake.
    pub open spec fn state(self) -> WorkerState {
        match self.phase {
            Phase::Ready => WorkerState::Ready,
            Phase::Busy(_) => WorkerState::Busy,
            Phase::Terminated => WorkerState::Terminated,
        }
    }

    /// The encoding of the request in flight, if there is one.
    pub open spec fn awaiting(self) -> Option<Encoding> {
        match self.phase {
            Phase::Busy(encoding) => Some(encoding),
            _ => None,
        }
    }

    /// The number of tasks in flight.
    pub open spec fn in_flight(self) -> nat {
        if self.phase is Busy {
            1
        } else {
            0
        }
    }

    /// Why a submission is turned down, if it is: a terminated handle takes
    /// nothing, a busy one takes no second task, and a ready one takes a task
    /// that the module exports, with a payload that can be encoded.
    pub open spec fn refusal(self, name: Seq<char>, encodable: bool) -> Option<WorkerError> {
        match self.phase {
            Phase::Terminated => Some(WorkerError::TerminatedUse),
            Phase::Busy(_) => Some(WorkerError::Busy),
            Phase::Ready => if !self.exports(name) {
                Some(WorkerError::DispatchLookupFailure)
            } else if !encodable {
                Some(WorkerError::DecodeFailure)
            } else {
                None
            },
        }
    }

    /// The handle after the response to the task in flight.
    pub open spec fn released(self) -> Model {
        match self.policy {
            Policy::Reusable => Model { phase: Phase::Ready, ..self },
            Policy::SingleShot => Model { phase: Phase::Terminated, ..self },
        }
    }

    /// Whether `event` puts a task in flight.
    pub open spec fn launches(self, event: Event) -> bool {
        event matches Event::Submit { name, encodable, .. } && self.refusal(name, encodable)
            is None
    }

    /// Whether `event` ends the flight of a task: by its response, by a
    /// failure to post its request, or by the death of its context.
    pub open spec fn settles(self, event: Event) -> bool {
        self.phase is Busy && !(event is Submit)
    }

    /// The handle after `event`.
    pub open spec fn step(self, event: Event) -> Model {
        match event {
            Event::Submit { name, encoding, encodable } => if self.refusal(name, encodable)
                is None {
                Model { phase: Phase::Busy(encoding), ..self }
            } else {
                self
            },
            Event::Message => if self.phase is Busy {
                self.released()
            } else {
                self
            },
            Event::PostFailed => if self.phase is Busy {
                Model { phase: Phase::Ready, ..self }
            } else {
                self
            },
            Event::Kill => Model { phase: Phase::Terminated, ..self },
        }
    }

    /// The handle after all of `events`, in their order.
    pub open spec fn run(self, events: Seq<Event>) -> Model
        decreases events.len(),
    {
        if events.len() == 0 {
            self
        } else {
            self.run(events.drop_last()).step(events.last())
        }
    }

    /// The number of tasks that `events` put in flight.
    pub open spec fn launched(self, events: Seq<Event>) -> nat
        decreases events.len(),
    {
        if events.len() == 0 {
            0
        } else {
            let before = self.run(events.drop_last());
            self.launched(events.drop_last()) + if before.launches(events.last()) {
                1nat
            } else {
                0nat
            }
        }
    }

    /// The number of flights that `events` ended.
    pub open spec fn settled(self, events: Seq<Event>) -> nat
        decreases events.len(),
    {
        if events.len() == 0 {
            0
        } else {
            let before = self.run(events.drop_last());
            self.settled(events.drop_last()) + if before.settles(events.last()) {
                1nat
            } else {
                0nat
            }
        }
    }
}

/// A handle is past its handshake: whatever has happened to it, its state is
/// not `Created`.
pub proof fn law_handle_is_past_handshake(handle: Model, events: Seq<Event>)
    ensures
        handle.state() != WorkerState::Created,
        handle.run(events).state() != WorkerState::Created,
{
}

/// At most one task is in flight. Through any run, the tasks put in flight
/// and not yet ended are those in flight at its end, of which there is one at
/// most.
pub proof fn law_single_flight(handle: Model, events: Seq<Event>)
    ensures
        handle.in_flight() + handle.launched(events) == handle.run(events).in_flight()
            + handle.settled(events),
        handle.run(events).in_flight() <= 1,
    decreases events.len(),
{
    if events.len() > 0 {
        law_single_flight(handle, events.drop_last());
    }
}

/// Of two submissions in a row one is taken at most: where the first is
/// taken, the second is turned down as `Busy` and changes nothing, and the
/// response is still awaited in the encoding of the first.
pub proof fn law_second_submission_is_refused(handle: Model, first: Event, second: Event)
    requires
        first is Submit,
        second is Submit,
        handle.launches(first),
    ensures
        !handle.step(first).launches(second),
        second matches Event::Submit { name, encodable, .. } && handle.step(first).refusal(
            name,
            encodable,
        ) == Some(WorkerError::Busy),
        handle.step(first).step(second) == handle.step(first),
        first matches Event::Submit { encoding, .. } && handle.step(first).awaiting() == Some(
            encoding,
        ),
{
}

/// Termination is for good: after a kill, whatever happens next, the handle
/// stays terminated and turns every submission down as `TerminatedUse`.
pub proof fn law_terminated_use(
    handle: Model,
    events: Seq<Event>,
    name: Seq<char>,
    encodable: bool,
)
    ensures
        handle.step(Event::Kill).run(events).phase == Phase::Terminated,
        handle.step(Event::Kill).run(events).refusal(name, encodable) == Some(
            WorkerError::TerminatedUse,
        ),
    decreases events.len(),
{
    if events.len() > 0 {
        law_terminated_use(handle, events.drop_last(), name, encodable);
    }
}

} // verus!
