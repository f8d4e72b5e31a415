//! The worker handle and the handshake that yields it.
//!
//! The host runs the loop; the handle decides. Creating a worker starts with
//! [`Handshake::begin`], which writes the script to spawn the context from
//! and takes the names of the tasks that the module exports.
//! The host listens, spawns, and reports what came of it to
//! [`WrappedWorker::new`]: only then is there a handle. [`WrappedWorker::run_task`]
//! hands out the request to post, and [`WrappedWorker::on_message`] takes the
//! response. Every method takes the handle exclusively, so no two callers can
//! pass the guard at once.

use vstd::prelude::*;
use crate::bootstrap::{glob, glob_text};
use crate::codec::{decode_response, encode_request, request_text, response_payload};
use crate::codec::{Encoding, Payload};
use crate::error::WorkerError;
use crate::protocol::{Event, Model, Phase, Policy, WorkerState};

verus! {

/// A worker that was asked for and has not signalled readiness yet.
#[derive(Debug)]
pub struct Handshake {
    script: String,
    policy: Policy,
    tasks: Vec<String>,
}

/// What the host reports of the context that it was asked to spawn.
#[derive(Clone, Debug, PartialEq, Eq)]
pub enum Startup {
    /// The context could not be spawned.
    Failed,
    /// The first message of the context has arrived.
    FirstMessage(String),
}

/// A handle on one worker context, past its handshake.
#[derive(Debug)]
pub struct WrappedWorker {
    phase: Phase,
    policy: Policy,
    tasks: Vec<String>,
}

/// The names that a list of strings holds.
pub open spec fn names(tasks: Seq<String>) -> Seq<Seq<char>> {
    Seq::new(tasks.len(), |i: int| tasks[i]@)
}

/// Whether `name` is among `tasks`.
fn is_among(tasks: &Vec<String>, name: &str) -> (found: bool)
    ensures
        found == names(tasks@).contains(name@),
{
    let wanted = name.to_owned();
    let mut i: usize = 0;
    while i < tasks.len()
        invariant
            i <= tasks.len(),
            wanted@ == name@,
            forall|j: int| 0 <= j < i ==> names(tasks@)[j] != name@,
        decreases tasks.len() - i,
    {
        if tasks[i] == wanted {
            assert(names(tasks@)[i as int] == name@);
            return true;
        }
        i += 1;
    }
    false
}

impl Handshake {
    /// The text of the script that the context is to be spawned from.
    pub closed spec fn script_text(&self) -> Seq<char> {
        self.script@
    }

    /// The policy that the handle will follow.
    pub closed spec fn handle_policy(&self) -> Policy {
        self.policy
    }

    /// The names of the tasks that the handle will take.
    pub closed spec fn task_names(&self) -> Seq<Seq<char>> {
        names(self.tasks@)
    }

    /// Begins the creation of a worker for the module at the path `main_js`
    /// of `origin`, which exports the tasks named in `tasks`.
    ///
    /// The host registers its listener first, so that the readiness signal
    /// cannot be missed, and then spawns the context from [`Handshake::script`].
    pub fn begin(main_js: &str, origin: &str, policy: Policy, tasks: Vec<String>) -> (handshake:
        Handshake)
        ensures
            handshake.script_text() == glob_text(origin@, main_js@),
            handshake.handle_policy() == policy,
            handshake.task_names() == names(tasks@),
    {
        Handshake { script: glob(origin, main_js), policy, tasks }
    }

    /// The script that the context is to be spawned from.
    pub fn script(&self) -> (script: &str)
        ensures
            script@ == self.script_text(),
    {
        self.script.as_str()
    }

    /// The policy that the handle will follow.
    pub fn policy(&self) -> (policy: Policy)
        ensures
            policy == self.handle_policy(),
    {
        self.policy
    }

    /// The state of the worker: no handle exists yet.
    pub fn state(&self) -> (state: WorkerState)
        ensures
            state == WorkerState::Created,
    {
        WorkerState::Created
    }
}

impl View for WrappedWorker {
    type V = Model;

    closed spec fn view(&self) -> Model {
        Model { phase: self.phase, policy: self.policy, tasks: names(self.tasks@) }
    }
}

impl WrappedWorker {
    /// Ends a handshake.
    ///
    /// A context that could not be spawned is a creation failure. Otherwise
    /// the first message of the context is its readiness signal, whatever it
    /// holds, and the handle is ready.
    pub fn new(handshake: Handshake, startup: &Startup) -> (handle: Result<WrappedWorker, WorkerError>)
        ensures
            match handle {
                Ok(h) => startup is FirstMessage && h@ == Model::fresh(
                    handshake.handle_policy(),
                    handshake.task_names(),
                ),
                Err(e) => startup is Failed && e == WorkerError::CreationFailure,
            },
    {
        match startup {
            Startup::Failed => Err(WorkerError::CreationFailure),
            Startup::FirstMessage(_) => Ok(
                WrappedWorker {
                    phase: Phase::Ready,
                    policy: handshake.policy,
                    tasks: handshake.tasks,
                },
            ),
        }
    }

    /// The state of the handle.
    pub fn state(&self) -> (state: WorkerState)
        ensures
            state == self@.state(),
    {
        match self.phase {
            Phase::Ready => WorkerState::Ready,
            Phase::Busy(_) => WorkerState::Busy,
            Phase::Terminated => WorkerState::Terminated,
        }
    }

    /// The policy of the handle.
    pub fn policy(&self) -> (policy: Policy)
        ensures
            policy == self@.policy,
    {
        self.policy
    }

    /// Whether the module in the context exports a task called `name`.
    pub fn exports(&self, name: &str) -> (found: bool)
        ensures
            found == self@.exports(name@),
    {
        is_among(&self.tasks, name)
    }

    /// The encoding of the request in flight, if there is one.
    pub fn awaiting(&self) -> (encoding: Option<Encoding>)
        ensures
            encoding == self@.awaiting(),
    {
        match self.phase {
            Phase::Busy(encoding) => Some(encoding),
            _ => None,
        }
    }

    /// Submits the task `name` with the payload `data`.
    ///
    /// A ready handle sets its guard and hands out the request, which the
    /// host posts to the context. A terminated handle fails with
    /// `TerminatedUse` and a busy one with `Busy`: the task is rejected, not
    /// queued. A ready handle fails with `DispatchLookupFailure` on a name
    /// that the module does not export, so that no request is posted that the
    /// context would never answer; and with `DecodeFailure` on a text payload
    /// that holds no document. A handle that fails stays as it was.
    pub fn run_task(&mut self, name: &str, data: &Payload) -> (request: Result<String, WorkerError>)
        ensures
            final(self)@ == old(self)@.step(
                Event::Submit {
                    name: name@,
                    encoding: data@.encoding(),
                    encodable: request_text(name@, data@) is Some,
                },
            ),
            match request {
                Ok(text) => old(self)@.refusal(name@, request_text(name@, data@) is Some) is None
                    && request_text(name@, data@) == Some(text@),
                Err(e) => old(self)@.refusal(name@, request_text(name@, data@) is Some) == Some(e),
            },
    {
        match self.phase {
            Phase::Terminated => Err(WorkerError::TerminatedUse),
            Phase::Busy(_) => Err(WorkerError::Busy),
            Phase::Ready => if !is_among(&self.tasks, name) {
                Err(WorkerError::DispatchLookupFailure)
            } else {
                match encode_request(name, data) {
                    Some(text) => {
                        self.phase = Phase::Busy(data.encoding());
                        Ok(text)
                    },
                    None => Err(WorkerError::DecodeFailure),
                }
            },
        }
    }

    /// Takes a message of the context, as raw text.
    ///
    /// With a task in flight the message is its response: it is decoded in
    /// the encoding of the request, and the handle is released or, under the
    /// single-shot policy, terminated, whether the response could be decoded
    /// or not. The host stops the context of a handle that has become
    /// terminated. With no task in flight the message is dropped and the
    /// result is `None`.
    pub fn on_message(&mut self, raw: &str) -> (response: Option<Result<Payload, WorkerError>>)
        ensures
            final(self)@ == old(self)@.step(Event::Message),
            match response {
                Some(Ok(payload)) => old(self)@.awaiting() matches Some(encoding)
                    && response_payload(encoding, raw@) == Some(payload@),
                Some(Err(e)) => old(self)@.awaiting() matches Some(encoding) && response_payload(
                    encoding,
                    raw@,
                ) is None && e == WorkerError::DecodeFailure,
                None => old(self)@.awaiting() is None,
            },
    {
        match self.phase {
            Phase::Busy(encoding) => {
                self.phase = match self.policy {
                    Policy::Reusable => Phase::Ready,
                    Policy::SingleShot => Phase::Terminated,
                };
                Some(decode_response(encoding, raw))
            },
            _ => None,
        }
    }

    /// Takes the report that the last request could not be posted.
    ///
    /// The task never left: the guard is released and the failure is handed
    /// to the caller. With no task in flight nothing changes and the result
    /// is `None`.
    pub fn on_post_failure(&mut self) -> (failure: Option<WorkerError>)
        ensures
            final(self)@ == old(self)@.step(Event::PostFailed),
            failure == if old(self)@.awaiting() is Some {
                Some(WorkerError::TransportFailure)
            } else {
                None
            },
    {
        match self.phase {
            Phase::Busy(_) => {
                self.phase = Phase::Ready;
                Some(WorkerError::TransportFailure)
            },
            _ => None,
        }
    }

    /// Terminates the handle, whatever it was doing. The host stops the
    /// context; a response that was awaited will never be delivered.
    pub fn kill(&mut self)
        ensures
            final(self)@ == old(self)@.step(Event::Kill),
            final(self)@.state() == WorkerState::Terminated,
    {
        self.phase = Phase::Terminated;
    }
}

} // verus!
