//! The task that snapshots a repository while the tools of a turn wait at a gate.
//!
//! Two things go on at once. A worker captures the snapshot, which may take long, and reports
//! on it. Meanwhile the task waits for the first of three causes to open the tool gate: the worker
//! is finished, the turn is cancelled, or the time is up. What happens at the tool gate decides
//! whether a snapshot that comes in later is still of use.

use crate::path::FilePath;
use crate::snapshot_warnings::{format_snapshot_warnings, snapshot_warnings, GhostSnapshotReport};
use crate::text::texts;
use vstd::prelude::*;
use vstd::string::*;

verus! {

/// How long the tool gate waits for a snapshot.
pub const SNAPSHOT_GATE_TIMEOUT_SECS: u64 = 30;

/// A subscription to the tool gate.
#[derive(Debug, Clone, Copy, PartialEq, Eq)]
pub struct Token {
    pub id: i32,
}

/// What a session counts a task as.
#[derive(Debug, Clone, Copy, PartialEq, Eq)]
pub enum TaskKind {
    Regular,
    Review,
    Compact,
}

/// What the settings say of snapshots. A threshold that is `None` is off.
#[derive(Debug, Clone, Copy, PartialEq, Eq)]
pub struct GhostSnapshotConfig {
    pub ignore_large_untracked_files: Option<i64>,
    pub ignore_large_untracked_dirs: Option<i64>,
    pub disable_warnings: bool,
}

/// A commit that holds a snapshot and is on no branch.
#[derive(Debug, PartialEq, Eq)]
pub struct GhostCommit {
    pub id: String,
    pub parent: Option<String>,
    pub preexisting_untracked_files: Vec<FilePath>,
    pub preexisting_untracked_dirs: Vec<FilePath>,
}

/// How the capture of a snapshot ended.
#[derive(Debug, PartialEq, Eq)]
pub enum CaptureOutcome {
    Captured { commit: GhostCommit, report: GhostSnapshotReport },
    NotAGitRepository,
    Failed { error: String },
    Panicked { error: String },
}

/// What becomes of the outcome of a capture.
#[derive(Debug, Clone, Copy, PartialEq, Eq)]
pub enum Disposition {
    /// The snapshot is recorded.
    Kept,
    /// The snapshot came after the tool gate had given up on it, and is dropped.
    Stale,
    /// There was nothing to snapshot.
    NotARepository,
    /// The capture failed while the tool gate waited.
    Failed,
    /// The capture failed after the tool gate had given up on it.
    FailedLate,
    /// The capture panicked while the tool gate waited.
    Panicked,
    /// The capture panicked after the tool gate had given up on it.
    PanickedLate,
}

/// Why the tool gate was opened.
#[derive(Debug, Clone, Copy, PartialEq, Eq)]
pub enum GateCause {
    WorkerFinished,
    Cancelled,
    TimedOut,
}

/// Whether the tools of the turn still wait.
#[derive(Debug, Clone, Copy, PartialEq, Eq)]
pub enum GateState {
    Held,
    Released(GateCause),
}

/// Something that happens to a run.
#[derive(Debug, PartialEq, Eq)]
pub enum SnapshotEvent {
    /// The worker's capture has ended.
    CaptureEnded(CaptureOutcome),
    /// The task has seen a cause to open the tool gate.
    GateCause(GateCause),
}

/// Something to do, in the order given.
#[derive(Debug, PartialEq, Eq)]
pub enum SnapshotAction {
    SendWarning(String),
    RecordGhostCommit(GhostCommit),
    NotifyBackground(String),
    SignalFinished,
    MarkGateReady(Token),
}

/// An action with its message as characters.
pub ghost enum ActionView {
    SendWarning(Seq<char>),
    RecordGhostCommit(GhostCommit),
    NotifyBackground(Seq<char>),
    SignalFinished,
    MarkGateReady(Token),
}

impl View for SnapshotAction {
    type V = ActionView;

    open spec fn view(&self) -> ActionView {
        match *self {
            SnapshotAction::SendWarning(message) => ActionView::SendWarning(message@),
            SnapshotAction::RecordGhostCommit(commit) => ActionView::RecordGhostCommit(commit),
            SnapshotAction::NotifyBackground(message) => ActionView::NotifyBackground(message@),
            SnapshotAction::SignalFinished => ActionView::SignalFinished,
            SnapshotAction::MarkGateReady(token) => ActionView::MarkGateReady(token),
        }
    }
}

/// The actions with their messages as characters.
pub open spec fn action_views(actions: Seq<SnapshotAction>) -> Seq<ActionView> {
    actions.map_values(|action: SnapshotAction| action@)
}

/// The state of one run of the task.
#[derive(Debug, Clone, Copy, PartialEq, Eq)]
pub struct SnapshotRun {
    pub token: Token,
    pub config: GhostSnapshotConfig,
    pub gate: GateState,
    pub capture_ended: bool,
}

impl SnapshotRun {
    /// Whether the tool gate was opened without waiting for the snapshot any longer.
    pub open spec fn gave_up(self) -> bool {
        self.gate == GateState::Released(GateCause::Cancelled) || self.gate == GateState::Released(
            GateCause::TimedOut,
        )
    }

    /// What becomes of an outcome that comes in now.
    pub open spec fn disposition_of(self, outcome: CaptureOutcome) -> Disposition {
        match outcome {
            CaptureOutcome::Captured { .. } => if self.gave_up() {
                Disposition::Stale
            } else {
                Disposition::Kept
            },
            CaptureOutcome::NotAGitRepository => Disposition::NotARepository,
            CaptureOutcome::Failed { .. } => if self.gave_up() {
                Disposition::FailedLate
            } else {
                Disposition::Failed
            },
            CaptureOutcome::Panicked { .. } => if self.gave_up() {
                Disposition::PanickedLate
            } else {
                Disposition::Panicked
            },
        }
    }

    /// The warnings that a kept snapshot calls for.
    pub open spec fn report_warnings(self, report: GhostSnapshotReport) -> Seq<ActionView> {
        if self.config.disable_warnings {
            Seq::empty()
        } else {
            snapshot_warnings(
                self.config.ignore_large_untracked_files,
                self.config.ignore_large_untracked_dirs,
                report,
            ).map_values(|message: Seq<char>| ActionView::SendWarning(message))
        }
    }

    /// What the worker says of an outcome that comes in now.
    pub open spec fn worker_report(self, outcome: CaptureOutcome) -> Seq<ActionView> {
        match outcome {
            CaptureOutcome::Captured { commit, report } if !self.gave_up() =>
                self.report_warnings(report).push(ActionView::RecordGhostCommit(commit)),
            CaptureOutcome::Panicked { error } if !self.gave_up() => seq![
                ActionView::NotifyBackground(panic_message(error@)),
            ],
            _ => Seq::empty(),
        }
    }

    /// What opening the tool gate for a cause takes.
    pub open spec fn gate_actions(self, cause: GateCause) -> Seq<ActionView> {
        if cause == GateCause::TimedOut && !self.config.disable_warnings {
            seq![
                ActionView::MarkGateReady(self.token),
                ActionView::SendWarning(timeout_message()),
            ]
        } else {
            seq![ActionView::MarkGateReady(self.token)]
        }
    }

    /// The run after an event. Only the first end of the capture and the first cause to open
    /// the tool gate count.
    pub open spec fn after(self, event: SnapshotEvent) -> SnapshotRun {
        match event {
            SnapshotEvent::CaptureEnded(_) => SnapshotRun { capture_ended: true, ..self },
            SnapshotEvent::GateCause(cause) => if self.gate == GateState::Held {
                SnapshotRun { gate: GateState::Released(cause), ..self }
            } else {
                self
            },
        }
    }

    /// What is to be done on an event.
    pub open spec fn actions_on(self, event: SnapshotEvent) -> Seq<ActionView> {
        match event {
            SnapshotEvent::CaptureEnded(outcome) => if self.capture_ended {
                Seq::empty()
            } else {
                self.worker_report(outcome).push(ActionView::SignalFinished)
            },
            SnapshotEvent::GateCause(cause) => if self.gate == GateState::Held {
                self.gate_actions(cause)
            } else {
                Seq::empty()
            },
        }
    }
}

/// What a person is told when the tool gate did not wait for the snapshot.
pub open spec fn timeout_message() -> Seq<char> {
    "Repository snapshot is taking too long. Continuing without an undo snapshot for this turn; large untracked or ignored files can slow snapshots."@
}

/// What a person is told when the capture panicked.
pub open spec fn panic_message(error: Seq<char>) -> Seq<char> {
    "Snapshots disabled after ghost snapshot panic: "@ + error + "."@
}

/// The task that takes a snapshot, and opens the tool gate that it subscribed to.
#[derive(Debug, Clone, Copy, PartialEq, Eq)]
pub struct GhostSnapshotTask {
    pub token: Token,
}

impl GhostSnapshotTask {
    pub fn new(token: Token) -> (task: GhostSnapshotTask)
        ensures
            task.token == token,
    {
        GhostSnapshotTask { token }
    }

    pub fn kind(&self) -> (kind: TaskKind)
        ensures
            kind == TaskKind::Regular,
    {
        TaskKind::Regular
    }

    pub fn span_name(&self) -> (name: &'static str)
        ensures
            name@ == "session_task.ghost_snapshot"@,
    {
        "session_task.ghost_snapshot"
    }

    /// Starts a run: the tool gate is held, and the capture goes on.
    pub fn run(&self, config: GhostSnapshotConfig) -> (run: SnapshotRun)
        ensures
            run == (SnapshotRun {
                token: self.token,
                config,
                gate: GateState::Held,
                capture_ended: false,
            }),
    {
        SnapshotRun { token: self.token, config, gate: GateState::Held, capture_ended: false }
    }
}

/// Opens the tool gate first, then does what follows on it, so that nobody waits for that.
pub fn release_tool_gate_then(token: Token, follow_up: Vec<SnapshotAction>) -> (actions: Vec<
    SnapshotAction,
>)
    ensures
        action_views(actions@) == seq![ActionView::MarkGateReady(token)] + action_views(
            follow_up@,
        ),
        actions@ == seq![SnapshotAction::MarkGateReady(token)] + follow_up@,
{
    let mut follow_up = follow_up;
    let ghost then = action_views(follow_up@);
    let mut actions: Vec<SnapshotAction> = Vec::new();
    actions.push(SnapshotAction::MarkGateReady(token));
    let ghost first = actions@;
    let ghost rest = follow_up@;
    actions.append(&mut follow_up);
    assert(actions@ =~= first + rest);
    assert(first =~= seq![SnapshotAction::MarkGateReady(token)]);
    assert(action_views(actions@) =~= seq![ActionView::MarkGateReady(token)] + then);
    actions
}

impl SnapshotRun {
    /// Whether a snapshot that comes in now is too late to be of use.
    pub fn timed_out(&self) -> (late: bool)
        ensures
            late == self.gave_up(),
            late == (self.gate == GateState::Released(GateCause::TimedOut) || self.gate
                == GateState::Released(GateCause::Cancelled)),
    {
        match self.gate {
            GateState::Held => false,
            GateState::Released(cause) => match cause {
                GateCause::WorkerFinished => false,
                GateCause::Cancelled => true,
                GateCause::TimedOut => true,
            },
        }
    }

    /// What becomes of an outcome that comes in now.
    pub fn disposition(&self, outcome: &CaptureOutcome) -> (disposition: Disposition)
        ensures
            disposition == self.disposition_of(*outcome),
            ({
                let late = self.gate == GateState::Released(GateCause::TimedOut) || self.gate
                    == GateState::Released(GateCause::Cancelled);
                &&& disposition is Kept == (outcome is Captured && !late)
                &&& disposition is Stale == (outcome is Captured && late)
                &&& disposition is NotARepository == outcome is NotAGitRepository
                &&& disposition is Failed == (outcome is Failed && !late)
                &&& disposition is FailedLate == (outcome is Failed && late)
                &&& disposition is Panicked == (outcome is Panicked && !late)
                &&& disposition is PanickedLate == (outcome is Panicked && late)
            }),
    {
        let late = self.timed_out();
        match outcome {
            CaptureOutcome::Captured { .. } => if late {
                Disposition::Stale
            } else {
                Disposition::Kept
            },
            CaptureOutcome::NotAGitRepository => Disposition::NotARepository,
            CaptureOutcome::Failed { .. } => if late {
                Disposition::FailedLate
            } else {
                Disposition::Failed
            },
            CaptureOutcome::Panicked { .. } => if late {
                Disposition::PanickedLate
            } else {
                Disposition::Panicked
            },
        }
    }

    fn warn_of_report(&self, report: &GhostSnapshotReport) -> (actions: Vec<SnapshotAction>)
        ensures
            action_views(actions@) == self.report_warnings(*report),
    {
        let mut actions: Vec<SnapshotAction> = Vec::new();
        if self.config.disable_warnings {
            assert(action_views(actions@) =~= Seq::empty());
            return actions;
        }
        let mut messages = format_snapshot_warnings(
            self.config.ignore_large_untracked_files,
            self.config.ignore_large_untracked_dirs,
            report,
        );
        let ghost all = self.report_warnings(*report);
        let ghost shown = texts(messages@);
        while messages.len() > 0
            invariant
                shown.map_values(|message: Seq<char>| ActionView::SendWarning(message)) == all,
                messages.len() + actions.len() == shown.len(),
                texts(messages@) == shown.skip(actions.len() as int),
                action_views(actions@) == all.take(actions.len() as int),
            decreases messages.len(),
        {
            let ghost before = texts(messages@);
            let ghost done = action_views(actions@);
            let message = messages.remove(0);
            assert(message@ == before[0]);
            actions.push(SnapshotAction::SendWarning(message));
            assert(texts(messages@) =~= before.skip(1));
            assert(texts(messages@) =~= shown.skip(actions.len() as int));
            assert(action_views(actions@) =~= done.push(all[actions.len() - 1]));
            assert(action_views(actions@) =~= all.take(actions.len() as int));
        }
        assert(all.take(all.len() as int) =~= all);
        actions
    }

    fn report_capture(&self, outcome: CaptureOutcome) -> (actions: Vec<SnapshotAction>)
        ensures
            action_views(actions@) == self.worker_report(outcome),
    {
        let late = self.timed_out();
        match outcome {
            CaptureOutcome::Captured { commit, report } => {
                if late {
                    let actions: Vec<SnapshotAction> = Vec::new();
                    assert(action_views(actions@) =~= Seq::empty());
                    return actions;
                }
                let mut actions = self.warn_of_report(&report);
                let ghost warned = action_views(actions@);
                actions.push(SnapshotAction::RecordGhostCommit(commit));
                assert(action_views(actions@) =~= warned.push(
                    ActionView::RecordGhostCommit(commit),
                ));
                actions
            },
            CaptureOutcome::Panicked { error } => {
                let mut actions: Vec<SnapshotAction> = Vec::new();
                if !late {
                    let mut message = "Snapshots disabled after ghost snapshot panic: ".to_string();
                    message.append(error.as_str());
                    message.append(".");
                    actions.push(SnapshotAction::NotifyBackground(message));
                }
                assert(action_views(actions@) =~= self.worker_report(outcome));
                actions
            },
            _ => {
                let actions: Vec<SnapshotAction> = Vec::new();
                assert(action_views(actions@) =~= Seq::empty());
                actions
            },
        }
    }

    fn open_gate(&self, cause: GateCause) -> (actions: Vec<SnapshotAction>)
        ensures
            action_views(actions@) == self.gate_actions(cause),
            actions@.len() > 0,
            actions@[0] == SnapshotAction::MarkGateReady(self.token),
    {
        let mut follow_up: Vec<SnapshotAction> = Vec::new();
        if matches!(cause, GateCause::TimedOut) && !self.config.disable_warnings {
            follow_up.push(
                SnapshotAction::SendWarning(
                    "Repository snapshot is taking too long. Continuing without an undo snapshot for this turn; large untracked or ignored files can slow snapshots.".to_string(),
                ),
            );
        }
        let actions = release_tool_gate_then(self.token, follow_up);
        assert(action_views(actions@) =~= self.gate_actions(cause));
        actions
    }

    /// Takes in an event, and says what is to be done on it, in order.
    pub fn on_event(&mut self, event: SnapshotEvent) -> (actions: Vec<SnapshotAction>)
        ensures
            *final(self) == old(self).after(event),
            action_views(actions@) == old(self).actions_on(event),
            final(self).token == old(self).token,
            final(self).config == old(self).config,
            final(self).capture_ended == (old(self).capture_ended || event is CaptureEnded),
            final(self).gate == match event {
                SnapshotEvent::GateCause(cause) if old(self).gate is Held => GateState::Released(
                    cause,
                ),
                _ => old(self).gate,
            },
            event is CaptureEnded && old(self).capture_ended ==> actions@.len() == 0,
            event is CaptureEnded && !old(self).capture_ended ==> actions@.len() > 0 && actions@[
            actions@.len() - 1] is SignalFinished,
            event is CaptureEnded && (old(self).gate == GateState::Released(GateCause::TimedOut)
                || old(self).gate == GateState::Released(GateCause::Cancelled))
                ==> actions@.len() <= 1,
            event is GateCause && !(old(self).gate is Held) ==> actions@.len() == 0,
            event is GateCause && old(self).gate is Held ==> actions@.len() > 0 && actions@[0]
                == SnapshotAction::MarkGateReady(old(self).token),
    {
        match event {
            SnapshotEvent::CaptureEnded(outcome) => {
                if self.capture_ended {
                    let actions: Vec<SnapshotAction> = Vec::new();
                    assert(action_views(actions@) =~= Seq::empty());
                    return actions;
                }
                let mut actions = self.report_capture(outcome);
                let ghost said = action_views(actions@);
                actions.push(SnapshotAction::SignalFinished);
                assert(action_views(actions@) =~= said.push(ActionView::SignalFinished));
                self.capture_ended = true;
                actions
            },
            SnapshotEvent::GateCause(cause) => match self.gate {
                GateState::Held => {
                    let actions = self.open_gate(cause);
                    self.gate = GateState::Released(cause);
                    actions
                },
                GateState::Released(_) => {
                    let actions: Vec<SnapshotAction> = Vec::new();
                    assert(action_views(actions@) =~= Seq::empty());
                    actions
                },
            },
        }
    }
}

} // verus!
