//! The supervisor: the one slot that holds the backend's process, and the
//! three operations on it.
//!
//! A start or restart is split in two around the work that the host does in
//! between: [`Supervisor::start_setup`] or [`Supervisor::restart`] decides,
//! the host prepares and starts the backend, and [`Supervisor::settle`]
//! records how that ended. Every call takes the supervisor exclusively, so a
//! host that guards it with one lock for the length of an operation
//! serialises whole operations.
//!
//! The supervisor never lets go of a process in silence: whatever leaves the
//! slot is handed to the caller, who is to ask for its termination.

use crate::error::{SetupError, SetupErrorView};
use vstd::prelude::*;

verus! {

/// The operations that come to start the backend.
#[derive(Clone, Copy, Debug, PartialEq, Eq, Structural)]
pub enum Operation {
    StartSetup,
    Restart,
}

/// Whether the supervisor holds a process.
#[derive(Clone, Copy, Debug, PartialEq, Eq, Structural)]
pub enum State {
    /// No process is held.
    Idle,
    /// A process is held, and taken to be alive.
    Running,
}

/// What a start has to do.
#[derive(Clone, Debug)]
pub enum Decision {
    /// A process is held already: nothing is started, and `message` is the
    /// status to report.
    AlreadyRunning { message: String },
    /// No process is held: prepare the environment and start the backend.
    Proceed,
}

/// The mathematical content of a [`Decision`].
pub enum DecisionView {
    AlreadyRunning { message: Seq<char> },
    Proceed,
}

impl View for Decision {
    type V = DecisionView;

    open spec fn view(&self) -> DecisionView {
        match self {
            Decision::AlreadyRunning { message } => DecisionView::AlreadyRunning {
                message: message@,
            },
            Decision::Proceed => DecisionView::Proceed,
        }
    }
}

/// A failed start or restart, as its caller is told.
#[derive(Clone, Debug)]
pub struct FailedOperation {
    /// What went wrong.
    pub error: SetupError,
    /// The status to report.
    pub message: String,
}

/// The mathematical content of a [`FailedOperation`].
pub struct FailedOperationView {
    pub error: SetupErrorView,
    pub message: Seq<char>,
}

impl View for FailedOperation {
    type V = FailedOperationView;

    open spec fn view(&self) -> FailedOperationView {
        FailedOperationView { error: self.error@, message: self.message@ }
    }
}

/// The status of a start that found the backend running.
pub open spec fn already_running_text() -> Seq<char> {
    "백엔드가 이미 실행 중입니다."@
}

/// The status of an operation that started the backend.
pub open spec fn success_text(operation: Operation) -> Seq<char> {
    match operation {
        Operation::StartSetup => "백엔드 설치 및 시작이 완료되었습니다."@,
        Operation::Restart => "백엔드가 성공적으로 재시작되었습니다."@,
    }
}

/// The opening of the status of an operation that did not start the backend.
pub open spec fn failure_opening(operation: Operation) -> Seq<char> {
    match operation {
        Operation::StartSetup => "백엔드 시작에 실패했습니다."@,
        Operation::Restart => "백엔드 재시작에 실패했습니다."@,
    }
}

/// The status of an operation that did not start the backend: its opening
/// and, where the operating system refused the launch, a space and the
/// operating system's words.
pub open spec fn failure_text(operation: Operation, error: SetupErrorView) -> Seq<char> {
    match error {
        SetupErrorView::PathResolution => failure_opening(operation),
        SetupErrorView::Launch { reason } => failure_opening(operation) + " "@ + reason,
    }
}

/// What is held once an attempt to start the backend was settled: the
/// process it started or, where it started none, what was held before.
pub open spec fn held_after<H>(held: Option<H>, outcome: Result<H, SetupErrorView>) -> Option<H> {
    match outcome {
        Ok(handle) => Some(handle),
        Err(error) => held,
    }
}

/// What leaves the slot when an attempt to start the backend is settled: what
/// was held before, where the attempt started a process to hold instead.
pub open spec fn displaced_by<H>(held: Option<H>, outcome: Result<H, SetupErrorView>) -> Option<
    H,
> {
    match outcome {
        Ok(handle) => held,
        Err(error) => None,
    }
}

/// What the caller of an operation is told about its attempt to start the
/// backend.
pub open spec fn reply_to<H>(operation: Operation, outcome: Result<H, SetupErrorView>) -> Result<
    Seq<char>,
    FailedOperationView,
> {
    match outcome {
        Ok(handle) => Ok(success_text(operation)),
        Err(error) => Err(FailedOperationView { error, message: failure_text(operation, error) }),
    }
}

/// The content of an attempt's outcome: the handle as it is, the error by its
/// view.
pub open spec fn outcome_view<H>(outcome: Result<H, SetupError>) -> Result<H, SetupErrorView> {
    match outcome {
        Ok(handle) => Ok(handle),
        Err(error) => Err(error@),
    }
}

/// The content of a reply: the texts by their views.
pub open spec fn reply_view(reply: Result<String, FailedOperation>) -> Result<
    Seq<char>,
    FailedOperationView,
> {
    match reply {
        Ok(message) => Ok(message@),
        Err(failure) => Err(failure@),
    }
}

/// How an attempt to start the backend was settled.
#[derive(Debug)]
pub struct Settlement<H> {
    /// What the caller of the operation is told.
    pub reply: Result<String, FailedOperation>,
    /// The process that left the slot for the one that was started, if any.
    /// The host is to ask for its termination.
    pub displaced: Option<H>,
}

/// The supervisor of one backend process. `H` is the host's handle to a
/// process; the supervisor holds at most one and never reads it.
#[derive(Debug)]
pub struct Supervisor<H> {
    slot: Option<H>,
}

impl<H> View for Supervisor<H> {
    type V = Option<H>;

    /// The process that is held, if any.
    closed spec fn view(&self) -> Option<H> {
        self.slot
    }
}

impl<H> Supervisor<H> {
    /// A supervisor that holds nothing.
    pub fn new() -> (supervisor: Self)
        ensures
            supervisor@ is None,
    {
        Supervisor { slot: None }
    }

    /// Whether a process is held.
    pub fn is_running(&self) -> (running: bool)
        ensures
            running == (self@ is Some),
    {
        self.slot.is_some()
    }

    /// The state of the supervisor.
    pub fn state(&self) -> (state: State)
        ensures
            state == (if self@ is Some {
                State::Running
            } else {
                State::Idle
            }),
    {
        if self.slot.is_some() {
            State::Running
        } else {
            State::Idle
        }
    }

    /// The process that is held, if any.
    pub fn held(&self) -> (handle: Option<&H>)
        ensures
            match handle {
                Some(held) => self@ == Some(*held),
                None => self@ is None,
            },
    {
        self.slot.as_ref()
    }

    /// Decides a start. Where a process is held nothing is to be started and
    /// the caller is told so; where none is held the host is to prepare and
    /// start the backend and then [`settle`](Self::settle). The supervisor
    /// itself is unchanged either way.
    pub fn start_setup(&mut self) -> (decision: Decision)
        ensures
            *final(self) == *old(self),
            old(self)@ is Some ==> decision@ == (DecisionView::AlreadyRunning {
                message: already_running_text(),
            }),
            old(self)@ is None ==> decision@ is Proceed,
    {
        if self.slot.is_some() {
            Decision::AlreadyRunning { message: String::from_str("백엔드가 이미 실행 중입니다.") }
        } else {
            Decision::Proceed
        }
    }

    /// Begins a restart: gives up the process that is held, if any, so that
    /// the host can ask for its termination, and leaves nothing held. The
    /// host is then to prepare and start the backend, whatever was held
    /// before, and to [`settle`](Self::settle).
    pub fn restart(&mut self) -> (retired: Option<H>)
        ensures
            retired == old(self)@,
            final(self)@ is None,
    {
        self.slot.take()
    }

    /// Shuts down: gives up the process that is held, if any, so that the
    /// host can ask for its termination, and leaves nothing held, whatever
    /// has become of that process in the meantime.
    pub fn shutdown(&mut self) -> (retired: Option<H>)
        ensures
            retired == old(self)@,
            final(self)@ is None,
    {
        self.slot.take()
    }

    /// Records how the attempt to start the backend ended, and tells what the
    /// caller of `operation` is to hear. A started process is held from now
    /// on; after a failure the slot stays as it was.
    ///
    /// A start proceeds only where nothing is held, and a restart begins by
    /// giving up what was held, so an operation that had the supervisor to
    /// itself finds the slot empty here. Should a process be held all the
    /// same, it is not lost: it is displaced by the one that was started and
    /// comes back to the caller.
    pub fn settle(
        &mut self,
        operation: Operation,
        outcome: Result<H, SetupError>,
    ) -> (settlement: Settlement<H>)
        ensures
            final(self)@ == held_after(old(self)@, outcome_view(outcome)),
            settlement.displaced == displaced_by(old(self)@, outcome_view(outcome)),
            reply_view(settlement.reply) == reply_to(operation, outcome_view(outcome)),
    {
        match outcome {
            Ok(handle) => {
                let displaced = self.slot.take();
                self.slot = Some(handle);
                Settlement { reply: Ok(success_message(operation)), displaced }
            },
            Err(error) => {
                let message = failure_message(operation, &error);
                Settlement { reply: Err(FailedOperation { error, message }), displaced: None }
            },
        }
    }
}

/// Renders the status of an operation that started the backend.
pub fn success_message(operation: Operation) -> (message: String)
    ensures
        message@ == success_text(operation),
{
    match operation {
        Operation::StartSetup => String::from_str("백엔드 설치 및 시작이 완료되었습니다."),
        Operation::Restart => String::from_str("백엔드가 성공적으로 재시작되었습니다."),
    }
}

/// Renders the status of an operation that did not start the backend.
pub fn failure_message(operation: Operation, error: &SetupError) -> (message: String)
    ensures
        message@ == failure_text(operation, error@),
{
    let mut message = match operation {
        Operation::StartSetup => String::from_str("백엔드 시작에 실패했습니다."),
        Operation::Restart => String::from_str("백엔드 재시작에 실패했습니다."),
    };
    match error {
        SetupError::PathResolution => {},
        SetupError::Launch { reason } => {
            message.append(" ");
            message.append(reason.as_str());
        },
    }
    message
}

} // verus!
