//! One editing run as a state machine. The caller performs each action the
//! session asks for and reports what came of it as the next event, until the
//! session asks it to exit.
use vstd::prelude::*;
use crate::answer::{accepts, confirms};
use crate::edit::{
    contents_view, edit_instruction, instruction_text, reply_result, take_reply,
    with_line_break, written_text, EditError,
};

verus! {

/// What the version-control query said of the file.
#[derive(Clone, Copy, Debug, PartialEq, Eq, Structural)]
pub enum Tracking {
    /// The file is tracked: its committed state can be restored.
    Versioned,
    /// The query ran and the file is not tracked.
    Unversioned,
    /// The query could not be run.
    Unknown,
}

/// The warning shown above a confirmation prompt.
#[derive(Clone, Copy, Debug, PartialEq, Eq, Structural)]
pub enum Warning {
    NotTracked,
    StatusUnknown,
}

/// How a run ended.
#[derive(Clone, Copy, Debug, PartialEq, Eq, Structural)]
pub enum Outcome {
    /// The file was rewritten (and staged, unless staging was turned off).
    Completed,
    /// The operator declined to go on; nothing was written.
    Declined,
    /// A step failed; the run stopped there.
    Failed(EditError),
}

/// Where a run stands: which report it waits for, or how it ended.
#[derive(Clone, Copy, Debug, PartialEq, Eq, Structural)]
pub enum Phase {
    AwaitTracking,
    AwaitAnswer,
    AwaitFile,
    AwaitReply,
    AwaitWrite,
    AwaitStaging,
    Over(Outcome),
}

/// The parameters of a run, fixed for its whole length.
#[derive(Clone, Debug, PartialEq, Eq)]
pub struct Invocation {
    pub file: String,
    pub prompt: String,
    pub model: String,
    pub no_patch: bool,
}

pub struct InvocationView {
    pub file: Seq<char>,
    pub prompt: Seq<char>,
    pub model: Seq<char>,
    pub no_patch: bool,
}

impl View for Invocation {
    type V = InvocationView;

    open spec fn view(&self) -> InvocationView {
        InvocationView {
            file: self.file@,
            prompt: self.prompt@,
            model: self.model@,
            no_patch: self.no_patch,
        }
    }
}

/// What came of the last action.
#[derive(Clone, Debug, PartialEq, Eq)]
pub enum Event {
    /// The tracking query's answer.
    Tracking(Tracking),
    /// The line the operator typed at the confirmation prompt.
    Answer(String),
    /// The file's text.
    FileRead(String),
    ReadFailed,
    /// The texts of the reply's choices, in the order given.
    Reply(Vec<Option<String>>),
    /// The request could not be built or encoded.
    RequestInvalid,
    /// The service could not be reached or refused the request.
    RequestFailed,
    Written,
    WriteFailed,
    /// Whether interactive staging ran and succeeded.
    Staged(bool),
}

pub enum EventView {
    Tracking(Tracking),
    Answer(Seq<char>),
    FileRead(Seq<char>),
    ReadFailed,
    Reply(Seq<Option<Seq<char>>>),
    RequestInvalid,
    RequestFailed,
    Written,
    WriteFailed,
    Staged(bool),
}

impl View for Event {
    type V = EventView;

    open spec fn view(&self) -> EventView {
        match self {
            Event::Tracking(t) => EventView::Tracking(*t),
            Event::Answer(a) => EventView::Answer(a@),
            Event::FileRead(c) => EventView::FileRead(c@),
            Event::ReadFailed => EventView::ReadFailed,
            Event::Reply(ch) => EventView::Reply(contents_view(ch@)),
            Event::RequestInvalid => EventView::RequestInvalid,
            Event::RequestFailed => EventView::RequestFailed,
            Event::Written => EventView::Written,
            Event::WriteFailed => EventView::WriteFailed,
            Event::Staged(ok) => EventView::Staged(*ok),
        }
    }
}

/// What the session asks the caller to do next.
#[derive(Clone, Debug, PartialEq, Eq)]
pub enum Action {
    /// Ask version control whether the file is tracked.
    QueryTracking(String),
    /// Show the warning and read one line from the operator.
    Confirm(Warning),
    /// Read the whole file.
    ReadFile(String),
    /// Send one chat-completion request with one user message.
    SendRequest { model: String, instruction: String },
    /// Replace the file's contents.
    WriteFile { path: String, contents: String },
    /// Hand the file to interactive staging.
    StageInteractive(String),
    /// End the run.
    Exit(Outcome),
}

pub enum ActionView {
    QueryTracking(Seq<char>),
    Confirm(Warning),
    ReadFile(Seq<char>),
    SendRequest(Seq<char>, Seq<char>),
    WriteFile(Seq<char>, Seq<char>),
    StageInteractive(Seq<char>),
    Exit(Outcome),
}

impl View for Action {
    type V = ActionView;

    open spec fn view(&self) -> ActionView {
        match self {
            Action::QueryTracking(p) => ActionView::QueryTracking(p@),
            Action::Confirm(w) => ActionView::Confirm(*w),
            Action::ReadFile(p) => ActionView::ReadFile(p@),
            Action::SendRequest { model, instruction } => ActionView::SendRequest(
                model@,
                instruction@,
            ),
            Action::WriteFile { path, contents } => ActionView::WriteFile(path@, contents@),
            Action::StageInteractive(p) => ActionView::StageInteractive(p@),
            Action::Exit(o) => ActionView::Exit(*o),
        }
    }
}

/// Whether `e` answers what a run in `phase` waits for.
pub open spec fn expects(phase: Phase, e: EventView) -> bool {
    match phase {
        Phase::AwaitTracking => e is Tracking,
        Phase::AwaitAnswer => e is Answer,
        Phase::AwaitFile => e is FileRead || e is ReadFailed,
        Phase::AwaitReply => e is Reply || e is RequestInvalid || e is RequestFailed,
        Phase::AwaitWrite => e is Written || e is WriteFailed,
        Phase::AwaitStaging => e is Staged,
        Phase::Over(_) => false,
    }
}

/// Ends a run with an error.
pub open spec fn fail(e: EditError) -> (Phase, ActionView) {
    (Phase::Over(Outcome::Failed(e)), ActionView::Exit(Outcome::Failed(e)))
}

/// Ends a run with the given outcome.
pub open spec fn finish(o: Outcome) -> (Phase, ActionView) {
    (Phase::Over(o), ActionView::Exit(o))
}

/// The next phase and action of a run in `phase` on an event it expects.
pub open spec fn transition(inv: InvocationView, phase: Phase, e: EventView) -> (Phase, ActionView) {
    match (phase, e) {
        (Phase::AwaitTracking, EventView::Tracking(Tracking::Versioned)) => (
            Phase::AwaitFile,
            ActionView::ReadFile(inv.file),
        ),
        (Phase::AwaitTracking, EventView::Tracking(Tracking::Unversioned)) => (
            Phase::AwaitAnswer,
            ActionView::Confirm(Warning::NotTracked),
        ),
        (Phase::AwaitTracking, EventView::Tracking(Tracking::Unknown)) => (
            Phase::AwaitAnswer,
            ActionView::Confirm(Warning::StatusUnknown),
        ),
        (Phase::AwaitAnswer, EventView::Answer(a)) => if accepts(a) {
            (Phase::AwaitFile, ActionView::ReadFile(inv.file))
        } else {
            finish(Outcome::Declined)
        },
        (Phase::AwaitFile, EventView::FileRead(c)) => (
            Phase::AwaitReply,
            ActionView::SendRequest(inv.model, instruction_text(inv.prompt, c)),
        ),
        (Phase::AwaitFile, EventView::ReadFailed) => fail(EditError::ReadFailed),
        (Phase::AwaitReply, EventView::Reply(ch)) => match reply_result(ch) {
            Ok(t) => (Phase::AwaitWrite, ActionView::WriteFile(inv.file, written_text(t))),
            Err(err) => fail(err),
        },
        (Phase::AwaitReply, EventView::RequestInvalid) => fail(EditError::RequestInvalid),
        (Phase::AwaitReply, EventView::RequestFailed) => fail(EditError::RequestFailed),
        (Phase::AwaitWrite, EventView::Written) => if inv.no_patch {
            finish(Outcome::Completed)
        } else {
            (Phase::AwaitStaging, ActionView::StageInteractive(inv.file))
        },
        (Phase::AwaitWrite, EventView::WriteFailed) => fail(EditError::WriteFailed),
        (Phase::AwaitStaging, EventView::Staged(ok)) => if ok {
            finish(Outcome::Completed)
        } else {
            fail(EditError::StageFailed)
        },
        // an event the phase does not expect; `step` never takes one
        _ => (phase, ActionView::Exit(Outcome::Failed(EditError::RequestInvalid))),
    }
}

/// A run in progress.
pub struct Session {
    pub inv: Invocation,
    pub phase: Phase,
}

impl Session {
    /// Starts a run: its first step asks whether the file is tracked.
    pub fn start(inv: Invocation) -> (r: (Session, Action))
        ensures
            r.0.inv@ == inv@,
            r.0.phase == Phase::AwaitTracking,
            r.1@ == ActionView::QueryTracking(inv@.file),
    {
        let path = inv.file.clone();
        (Session { inv, phase: Phase::AwaitTracking }, Action::QueryTracking(path))
    }

    /// Whether the run waits for `e`.
    pub fn awaits(&self, e: &Event) -> (r: bool)
        ensures
            r == expects(self.phase, e@),
    {
        match self.phase {
            Phase::AwaitTracking => matches!(e, Event::Tracking(_)),
            Phase::AwaitAnswer => matches!(e, Event::Answer(_)),
            Phase::AwaitFile => matches!(e, Event::FileRead(_) | Event::ReadFailed),
            Phase::AwaitReply => matches!(e, Event::Reply(_) | Event::RequestInvalid | Event::RequestFailed),
            Phase::AwaitWrite => matches!(e, Event::Written | Event::WriteFailed),
            Phase::AwaitStaging => matches!(e, Event::Staged(_)),
            Phase::Over(_) => false,
        }
    }

    /// Takes in what came of the last action and says what to do next.
    pub fn step(&mut self, e: Event) -> (r: Action)
        requires
            expects(old(self).phase, e@),
        ensures
            final(self).inv@ == old(self).inv@,
            (final(self).phase, r@) == transition(old(self).inv@, old(self).phase, e@),
    {
        let (phase, action) = match e {
            Event::Tracking(Tracking::Versioned) => (
                Phase::AwaitFile,
                Action::ReadFile(self.inv.file.clone()),
            ),
            Event::Tracking(Tracking::Unversioned) => (
                Phase::AwaitAnswer,
                Action::Confirm(Warning::NotTracked),
            ),
            Event::Tracking(Tracking::Unknown) => (
                Phase::AwaitAnswer,
                Action::Confirm(Warning::StatusUnknown),
            ),
            Event::Answer(a) => if confirms(a.as_str()) {
                (Phase::AwaitFile, Action::ReadFile(self.inv.file.clone()))
            } else {
                (Phase::Over(Outcome::Declined), Action::Exit(Outcome::Declined))
            },
            Event::FileRead(c) => {
                let instruction = edit_instruction(self.inv.prompt.as_str(), c.as_str());
                (
                    Phase::AwaitReply,
                    Action::SendRequest { model: self.inv.model.clone(), instruction },
                )
            },
            Event::ReadFailed => Self::failure(EditError::ReadFailed),
            Event::Reply(ch) => match take_reply(ch) {
                Ok(t) => (
                    Phase::AwaitWrite,
                    Action::WriteFile { path: self.inv.file.clone(), contents: with_line_break(t) },
                ),
                Err(err) => Self::failure(err),
            },
            Event::RequestInvalid => Self::failure(EditError::RequestInvalid),
            Event::RequestFailed => Self::failure(EditError::RequestFailed),
            Event::Written => if self.inv.no_patch {
                (Phase::Over(Outcome::Completed), Action::Exit(Outcome::Completed))
            } else {
                (Phase::AwaitStaging, Action::StageInteractive(self.inv.file.clone()))
            },
            Event::WriteFailed => Self::failure(EditError::WriteFailed),
            Event::Staged(ok) => if ok {
                (Phase::Over(Outcome::Completed), Action::Exit(Outcome::Completed))
            } else {
                Self::failure(EditError::StageFailed)
            },
        };
        self.phase = phase;
        action
    }

    fn failure(err: EditError) -> (r: (Phase, Action))
        ensures
            (r.0, r.1@) == fail(err),
    {
        (Phase::Over(Outcome::Failed(err)), Action::Exit(Outcome::Failed(err)))
    }
}

} // verus!
