//! Operations that take several requests to the medium.
//!
//! A [`Procedure`] holds the requests of one operation in their order. The
//! driver asks for the pending request, performs it, and hands the answer
//! back; the procedure decides whether to go on. It never undoes a request
//! that was carried out: an operation that fails half way leaves behind what
//! it had written.

use vstd::prelude::*;
use crate::error::Missing;
use crate::error::StorageError;
use crate::filesystem::medium::Action;
use crate::filesystem::medium::ActionView;
use crate::filesystem::medium::Disk;
use crate::filesystem::medium::Reply;
use crate::filesystem::medium::ReplyView;

verus! {

/// What is missing when the medium finds nothing at the path of `action`.
pub open spec fn missing_for(action: ActionView) -> Missing {
    match action {
        ActionView::InsertLocation { .. } => Missing::Store,
        ActionView::SelectLocations { .. } => Missing::Store,
        _ => Missing::Registry,
    }
}

/// The fault that `reply` reports of a request that hands nothing back, if
/// it reports one.
pub open spec fn failure_of(action: ActionView, reply: ReplyView) -> Option<StorageError> {
    match reply {
        ReplyView::Done => None,
        ReplyView::Missing => Some(StorageError::NotFound(missing_for(action))),
        ReplyView::Exists => Some(StorageError::Conflict),
        ReplyView::Busy => Some(StorageError::Busy),
        _ => Some(StorageError::StorageFault),
    }
}

/// Reads an answer to a request that hands nothing back: `None` where the
/// request was carried out, the fault otherwise. An answer that carries
/// rows is no answer to such a request and counts as a fault of the medium.
pub fn failure(action: &Action, reply: &Reply) -> (fault: Option<StorageError>)
    ensures
        fault == failure_of(action@, reply@),
{
    match reply {
        Reply::Done => None,
        Reply::Missing => {
            let missing = match action {
                Action::InsertLocation { .. } => Missing::Store,
                Action::SelectLocations { .. } => Missing::Store,
                _ => Missing::Registry,
            };
            Some(StorageError::NotFound(missing))
        },
        Reply::Exists => Some(StorageError::Conflict),
        Reply::Busy => Some(StorageError::Busy),
        _ => Some(StorageError::StorageFault),
    }
}

/// One request of a procedure. A fault at a step that is not `required` is
/// noted and the procedure goes on.
#[derive(Clone, Debug, PartialEq, Eq)]
pub struct Step {
    pub action: Action,
    pub required: bool,
}

/// A step, as a value of the model.
pub struct StepView {
    pub action: ActionView,
    pub required: bool,
}

impl View for Step {
    type V = StepView;

    open spec fn view(&self) -> StepView {
        StepView { action: self.action@, required: self.required }
    }
}

/// The views of a vector of steps.
pub open spec fn step_views(v: Seq<Step>) -> Seq<StepView> {
    v.map_values(|s: Step| s@)
}

/// What a procedure hands back when it has succeeded: the user it was about
/// and the timestamp it wrote.
#[derive(Clone, Debug, PartialEq, Eq)]
pub struct Receipt {
    pub uuid: String,
    pub at: i64,
}

/// A receipt, as a value of the model.
pub struct ReceiptView {
    pub uuid: Seq<char>,
    pub at: i64,
}

impl View for Receipt {
    type V = ReceiptView;

    open spec fn view(&self) -> ReceiptView {
        ReceiptView { uuid: self.uuid@, at: self.at }
    }
}

/// How the medium treats one request.
pub enum Turn {
    /// It carries the request out.
    Served,
    /// It turns the request away because another writer holds the lock.
    Busy,
    /// It fails.
    Fault,
}

impl Disk {
    /// The state after `action` and the answer to it, when the medium treats
    /// the request as `turn` says.
    pub open spec fn serve(self, action: ActionView, turn: Turn) -> (Disk, ReplyView) {
        match turn {
            Turn::Served => self.perform(action),
            Turn::Busy => (self, ReplyView::Busy),
            Turn::Fault => (self, ReplyView::Fault),
        }
    }
}

/// The turn that the medium takes at step `i` under `turns`: the one listed
/// there, and `Served` past the end of the list.
pub open spec fn turn_at(turns: Seq<Turn>, i: nat) -> Turn {
    if i < turns.len() {
        turns[i as int]
    } else {
        Turn::Served
    }
}

/// A procedure, as a value of the model.
pub struct ProcedureView {
    pub uuid: Seq<char>,
    pub at: i64,
    pub steps: Seq<StepView>,
    /// Number of steps that have been answered and passed.
    pub cursor: nat,
    /// The fault that ended the procedure.
    pub failure: Option<StorageError>,
    /// The latest fault at a step that was not required.
    pub skipped: Option<StorageError>,
}

impl ProcedureView {
    /// The procedure over `steps` before its first request.
    pub open spec fn start(uuid: Seq<char>, at: i64, steps: Seq<StepView>) -> ProcedureView {
        ProcedureView { uuid, at, steps, cursor: 0, failure: None, skipped: None }
    }

    /// The request to perform next; `None` once the procedure has ended.
    pub open spec fn pending(self) -> Option<ActionView> {
        if self.failure is None && self.cursor < self.steps.len() {
            Some(self.steps[self.cursor as int].action)
        } else {
            None
        }
    }

    /// The procedure after the pending request was answered with `reply`.
    /// A procedure that has ended stays as it is.
    pub open spec fn advance(self, reply: ReplyView) -> ProcedureView {
        match self.pending() {
            None => self,
            Some(action) => match failure_of(action, reply) {
                None => ProcedureView { cursor: self.cursor + 1, ..self },
                Some(fault) => if self.steps[self.cursor as int].required {
                    ProcedureView { failure: Some(fault), ..self }
                } else {
                    ProcedureView { cursor: self.cursor + 1, skipped: Some(fault), ..self }
                },
            },
        }
    }

    /// `None` while a request is pending; then the receipt, or the fault
    /// that ended the procedure.
    pub open spec fn outcome(self) -> Option<Result<ReceiptView, StorageError>> {
        match self.failure {
            Some(fault) => Some(Err(fault)),
            None => if self.cursor < self.steps.len() {
                None
            } else {
                Some(Ok(ReceiptView { uuid: self.uuid, at: self.at }))
            },
        }
    }

    /// Number of requests that may still be made.
    pub open spec fn remaining(self) -> nat {
        if self.pending() is Some {
            (self.steps.len() - self.cursor) as nat
        } else {
            0
        }
    }

    /// The procedure and the medium after the procedure has been driven to
    /// its end on a medium in state `disk` that treats the request of step
    /// `i` as `turns` says.
    pub open spec fn run(self, disk: Disk, turns: Seq<Turn>) -> (ProcedureView, Disk)
        decreases self.remaining(),
    {
        match self.pending() {
            None => (self, disk),
            Some(action) => {
                let (next, reply) = disk.serve(action, turn_at(turns, self.cursor));
                self.advance(reply).run(next, turns)
            },
        }
    }
}

/// The requests of one operation and how far it has come.
#[derive(Debug)]
pub struct Procedure {
    uuid: String,
    at: i64,
    steps: Vec<Step>,
    cursor: usize,
    failure: Option<StorageError>,
    skipped: Option<StorageError>,
}

impl View for Procedure {
    type V = ProcedureView;

    closed spec fn view(&self) -> ProcedureView {
        ProcedureView {
            uuid: self.uuid@,
            at: self.at,
            steps: step_views(self.steps@),
            cursor: self.cursor as nat,
            failure: self.failure,
            skipped: self.skipped,
        }
    }
}

impl Procedure {
    /// A procedure about user `uuid` that carries the timestamp `at` and
    /// makes the requests of `steps` in their order.
    pub fn new(uuid: String, at: i64, steps: Vec<Step>) -> (procedure: Procedure)
        ensures
            procedure@ == ProcedureView::start(uuid@, at, step_views(steps@)),
    {
        Procedure { uuid, at, steps, cursor: 0, failure: None, skipped: None }
    }

    /// The request to perform next; `None` once the procedure has ended.
    pub fn pending(&self) -> (action: Option<&Action>)
        ensures
            match action {
                Some(a) => self@.pending() == Some(a@),
                None => self@.pending() is None,
            },
    {
        if self.failure.is_none() && self.cursor < self.steps.len() {
            Some(&self.steps[self.cursor].action)
        } else {
            None
        }
    }

    /// Takes the answer to the pending request. A required step that was
    /// not carried out ends the procedure with its fault; a fault at any
    /// other step is noted and the procedure goes on. Once the procedure has
    /// ended, answers change nothing.
    pub fn advance(&mut self, reply: &Reply)
        ensures
            final(self)@ == old(self)@.advance(reply@),
    {
        if self.failure.is_none() && self.cursor < self.steps.len() {
            let fault = failure(&self.steps[self.cursor].action, reply);
            match fault {
                None => {
                    self.cursor = self.cursor + 1;
                },
                Some(e) => {
                    if self.steps[self.cursor].required {
                        self.failure = Some(e);
                    } else {
                        self.skipped = Some(e);
                        self.cursor = self.cursor + 1;
                    }
                },
            }
        }
    }

    /// `None` while a request is pending; then the receipt, or the fault
    /// that ended the procedure.
    pub fn outcome(&self) -> (outcome: Option<Result<Receipt, StorageError>>)
        ensures
            match outcome {
                None => self@.outcome() is None,
                Some(Ok(receipt)) => self@.outcome() == Some(
                    Ok::<ReceiptView, StorageError>(receipt@),
                ),
                Some(Err(fault)) => self@.outcome() == Some(Err::<ReceiptView, StorageError>(fault)),
            },
    {
        match self.failure {
            Some(fault) => Some(Err(fault)),
            None => {
                if self.cursor < self.steps.len() {
                    None
                } else {
                    Some(Ok(Receipt { uuid: self.uuid.clone(), at: self.at }))
                }
            },
        }
    }

    /// The latest fault at a step that was not required, for the log.
    pub fn skipped(&self) -> (fault: Option<StorageError>)
        ensures
            fault == self@.skipped,
    {
        self.skipped
    }
}

} // verus!
