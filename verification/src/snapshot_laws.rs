//! What holds of a whole run of the snapshot task, whatever happens in it and in which order.

use crate::ghost_snapshot::{
    action_views, panic_message, timeout_message, ActionView, CaptureOutcome, Disposition,
    GateCause, GateState, GhostCommit, GhostSnapshotConfig, SnapshotAction, SnapshotEvent,
    SnapshotRun, Token,
};
use crate::snapshot_warnings::{snapshot_warnings, GhostSnapshotReport};
use vstd::prelude::*;

verus! {

/// A run at its start.
pub open spec fn started(token: Token, config: GhostSnapshotConfig) -> SnapshotRun {
    SnapshotRun { token, config, gate: GateState::Held, capture_ended: false }
}

/// The run after a number of events.
pub open spec fn state_after(run: SnapshotRun, events: Seq<SnapshotEvent>) -> SnapshotRun
    decreases events.len(),
{
    if events.len() == 0 {
        run
    } else {
        state_after(run, events.drop_last()).after(events.last())
    }
}

/// Everything that is to be done on a number of events.
pub open spec fn actions_after(run: SnapshotRun, events: Seq<SnapshotEvent>) -> Seq<ActionView>
    decreases events.len(),
{
    if events.len() == 0 {
        Seq::empty()
    } else {
        actions_after(run, events.drop_last()) + state_after(run, events.drop_last()).actions_on(
            events.last(),
        )
    }
}

/// How many of the actions are of a kind.
pub open spec fn count(actions: Seq<ActionView>, kind: spec_fn(ActionView) -> bool) -> nat {
    actions.filter(kind).len()
}

pub open spec fn marks_gate() -> spec_fn(ActionView) -> bool {
    |action: ActionView| action is MarkGateReady
}

pub open spec fn records_commit() -> spec_fn(ActionView) -> bool {
    |action: ActionView| action is RecordGhostCommit
}

pub open spec fn signals_finish() -> spec_fn(ActionView) -> bool {
    |action: ActionView| action is SignalFinished
}

/// Whether one of the events is a cause to open the tool gate.
pub open spec fn has_cause(events: Seq<SnapshotEvent>) -> bool {
    exists|i: int| 0 <= i < events.len() && #[trigger] events[i] is GateCause
}

/// Whether one of the events is the end of the capture.
pub open spec fn has_capture(events: Seq<SnapshotEvent>) -> bool {
    exists|i: int| 0 <= i < events.len() && #[trigger] events[i] is CaptureEnded
}

/// Whether event `i` is the first end of the capture, brings a snapshot, and comes before the
/// tool gate has given up on it.
pub open spec fn keeps_snapshot(run: SnapshotRun, events: Seq<SnapshotEvent>, i: int) -> bool {
    &&& 0 <= i < events.len()
    &&& events[i] matches SnapshotEvent::CaptureEnded(CaptureOutcome::Captured { .. })
    &&& !has_capture(events.take(i))
    &&& !state_after(run, events.take(i)).gave_up()
}

/// The commit that an event brings, where it brings one.
pub open spec fn captured_commit(event: SnapshotEvent) -> Option<GhostCommit> {
    match event {
        SnapshotEvent::CaptureEnded(CaptureOutcome::Captured { commit, .. }) => Some(commit),
        _ => None,
    }
}

proof fn count_of_none(actions: Seq<ActionView>, kind: spec_fn(ActionView) -> bool)
    requires
        forall|i: int| 0 <= i < actions.len() ==> !kind(#[trigger] actions[i]),
    ensures
        count(actions, kind) == 0,
    decreases actions.len(),
{
    reveal(Seq::filter);
    if actions.len() > 0 {
        count_of_none(actions.drop_last(), kind);
    }
}

proof fn count_of_push(
    actions: Seq<ActionView>,
    last: ActionView,
    kind: spec_fn(ActionView) -> bool,
)
    ensures
        count(actions.push(last), kind) == count(actions, kind) + (if kind(last) {
            1nat
        } else {
            0nat
        }),
{
    reveal(Seq::filter);
    assert(actions.push(last).drop_last() =~= actions);
}

proof fn step_counts(run: SnapshotRun, event: SnapshotEvent)
    ensures
        count(run.actions_on(event), marks_gate()) == (if event is GateCause && run.gate
            == GateState::Held {
            1nat
        } else {
            0nat
        }),
        count(run.actions_on(event), signals_finish()) == (if event is CaptureEnded
            && !run.capture_ended {
            1nat
        } else {
            0nat
        }),
        count(run.actions_on(event), records_commit()) == (if !run.capture_ended && !run.gave_up()
            && (event matches SnapshotEvent::CaptureEnded(CaptureOutcome::Captured { .. })) {
            1nat
        } else {
            0nat
        }),
{
    let kinds = seq![marks_gate(), signals_finish(), records_commit()];
    assert forall|k: int| 0 <= k < 3 implies count(Seq::<ActionView>::empty(), #[trigger] kinds[k])
        == 0 by {
        count_of_none(Seq::empty(), kinds[k]);
    }
    assert(kinds[0] == marks_gate() && kinds[1] == signals_finish() && kinds[2]
        == records_commit());
    match event {
        SnapshotEvent::CaptureEnded(outcome) => {
            let said = run.worker_report(outcome);
            count_of_push(said, ActionView::SignalFinished, marks_gate());
            count_of_push(said, ActionView::SignalFinished, signals_finish());
            count_of_push(said, ActionView::SignalFinished, records_commit());
            match outcome {
                CaptureOutcome::Captured { commit, report } if !run.gave_up() => {
                    let warned = run.report_warnings(report);
                    let record = ActionView::RecordGhostCommit(commit);
                    count_of_push(warned, record, marks_gate());
                    count_of_push(warned, record, signals_finish());
                    count_of_push(warned, record, records_commit());
                    count_of_none(warned, marks_gate());
                    count_of_none(warned, signals_finish());
                    count_of_none(warned, records_commit());
                },
                _ => {
                    count_of_none(said, marks_gate());
                    count_of_none(said, signals_finish());
                    count_of_none(said, records_commit());
                },
            }
        },
        SnapshotEvent::GateCause(cause) => {
            if run.gate == GateState::Held {
                let all = run.gate_actions(cause);
                let mark = ActionView::MarkGateReady(run.token);
                let first = Seq::<ActionView>::empty().push(mark);
                count_of_push(Seq::empty(), mark, marks_gate());
                count_of_none(all, signals_finish());
                count_of_none(all, records_commit());
                count_of_push(first, ActionView::SendWarning(timeout_message()), marks_gate());
                assert(all =~= first || all =~= first.push(
                    ActionView::SendWarning(timeout_message()),
                ));
            }
        },
    }
}

proof fn counts_add_up(
    run: SnapshotRun,
    events: Seq<SnapshotEvent>,
    kind: spec_fn(ActionView) -> bool,
)
    requires
        events.len() > 0,
    ensures
        count(actions_after(run, events), kind) == count(
            actions_after(run, events.drop_last()),
            kind,
        ) + count(state_after(run, events.drop_last()).actions_on(events.last()), kind),
{
    Seq::filter_distributes_over_add(
        actions_after(run, events.drop_last()),
        state_after(run, events.drop_last()).actions_on(events.last()),
        kind,
    );
}

proof fn has_cause_in_last(events: Seq<SnapshotEvent>)
    requires
        events.len() > 0,
    ensures
        has_cause(events) == (has_cause(events.drop_last()) || events.last() is GateCause),
        has_capture(events) == (has_capture(events.drop_last()) || events.last() is CaptureEnded),
{
    let init = events.drop_last();
    if has_cause(init) {
        let i = choose|i: int| 0 <= i < init.len() && #[trigger] init[i] is GateCause;
        assert(events[i] is GateCause);
    }
    if has_capture(init) {
        let i = choose|i: int| 0 <= i < init.len() && #[trigger] init[i] is CaptureEnded;
        assert(events[i] is CaptureEnded);
    }
    if has_cause(events) && !(events.last() is GateCause) {
        let i = choose|i: int| 0 <= i < events.len() && #[trigger] events[i] is GateCause;
        assert(init[i] is GateCause);
    }
    if has_capture(events) && !(events.last() is CaptureEnded) {
        let i = choose|i: int| 0 <= i < events.len() && #[trigger] events[i] is CaptureEnded;
        assert(init[i] is CaptureEnded);
    }
}

/// A run keeps its token and its settings. Its gate is open once there was a cause for it, and
/// its capture has ended once an event said so.
pub proof fn state_follows_events(
    token: Token,
    config: GhostSnapshotConfig,
    events: Seq<SnapshotEvent>,
)
    ensures
        state_after(started(token, config), events).token == token,
        state_after(started(token, config), events).config == config,
        (state_after(started(token, config), events).gate != GateState::Held) == has_cause(events),
        state_after(started(token, config), events).capture_ended == has_capture(events),
    decreases events.len(),
{
    if events.len() > 0 {
        state_follows_events(token, config, events.drop_last());
        has_cause_in_last(events);
    }
}

/// The first cause to open the tool gate decides: what comes after it does not change why it was
/// opened.
pub proof fn first_cause_decides(
    token: Token,
    config: GhostSnapshotConfig,
    before: Seq<SnapshotEvent>,
    cause: GateCause,
    after: Seq<SnapshotEvent>,
)
    requires
        !has_cause(before),
    ensures
        state_after(
            started(token, config),
            before.push(SnapshotEvent::GateCause(cause)) + after,
        ).gate == GateState::Released(cause),
    decreases after.len(),
{
    let start = started(token, config);
    let decided = before.push(SnapshotEvent::GateCause(cause));
    let all = decided + after;
    if after.len() == 0 {
        state_follows_events(token, config, before);
        assert(all =~= decided);
        assert(decided.drop_last() =~= before);
    } else {
        first_cause_decides(token, config, before, cause, after.drop_last());
        assert(all.drop_last() =~= decided + after.drop_last());
    }
}

/// The tool gate is marked ready at the first cause to open it, before anything else is done on
/// that cause: no tool waits longer than until then.
pub proof fn gate_opens_at_first_cause(
    token: Token,
    config: GhostSnapshotConfig,
    before: Seq<SnapshotEvent>,
    cause: GateCause,
)
    requires
        !has_cause(before),
    ensures
        ({
            let start = started(token, config);
            let done = actions_after(start, before);
            let all = actions_after(start, before.push(SnapshotEvent::GateCause(cause)));
            &&& count(done, marks_gate()) == 0
            &&& all.len() > done.len()
            &&& all.take(done.len() as int) == done
            &&& all[done.len() as int] == ActionView::MarkGateReady(token)
        }),
{
    let start = started(token, config);
    let all = before.push(SnapshotEvent::GateCause(cause));
    gate_opens_exactly_once(token, config, before);
    state_follows_events(token, config, before);
    assert(all.drop_last() =~= before);
    let done = actions_after(start, before);
    assert(actions_after(start, all) == done + state_after(start, before).gate_actions(cause));
    assert(actions_after(start, all).take(done.len() as int) =~= done);
}

/// The tool gate is marked ready exactly once in a run in which there was a cause to open it, and
/// never in another: tools are neither left waiting nor released twice.
pub proof fn gate_opens_exactly_once(
    token: Token,
    config: GhostSnapshotConfig,
    events: Seq<SnapshotEvent>,
)
    ensures
        count(actions_after(started(token, config), events), marks_gate()) == (if has_cause(
            events,
        ) {
            1nat
        } else {
            0nat
        }),
        forall|i: int|
            0 <= i < actions_after(started(token, config), events).len() ==> ((
            #[trigger] actions_after(started(token, config), events)[i]) matches
                ActionView::MarkGateReady(marked) ==> marked == token),
    decreases events.len(),
{
    let start = started(token, config);
    if events.len() == 0 {
        count_of_none(Seq::empty(), marks_gate());
    } else {
        let init = events.drop_last();
        gate_opens_exactly_once(token, config, init);
        state_follows_events(token, config, init);
        step_counts(state_after(start, init), events.last());
        counts_add_up(start, events, marks_gate());
        has_cause_in_last(events);
        let step = state_after(start, init).actions_on(events.last());
        assert forall|i: int| 0 <= i < actions_after(start, events).len() implies ((
        #[trigger] actions_after(start, events)[i]) matches ActionView::MarkGateReady(marked)
            ==> marked == token) by {
            let earlier = actions_after(start, init);
            if i >= earlier.len() {
                assert(actions_after(start, events)[i] == step[i - earlier.len()]);
            } else {
                assert(actions_after(start, events)[i] == earlier[i]);
            }
        }
    }
}

/// The worker signals that it is finished exactly once in a run whose capture has ended, and
/// never in another.
pub proof fn worker_finishes_exactly_once(
    token: Token,
    config: GhostSnapshotConfig,
    events: Seq<SnapshotEvent>,
)
    ensures
        count(actions_after(started(token, config), events), signals_finish()) == (if has_capture(
            events,
        ) {
            1nat
        } else {
            0nat
        }),
    decreases events.len(),
{
    let start = started(token, config);
    if events.len() == 0 {
        count_of_none(Seq::empty(), signals_finish());
    } else {
        let init = events.drop_last();
        worker_finishes_exactly_once(token, config, init);
        state_follows_events(token, config, init);
        step_counts(state_after(start, init), events.last());
        counts_add_up(start, events, signals_finish());
        has_cause_in_last(events);
    }
}

/// A commit is recorded exactly once in a run whose capture brought a snapshot before the tool
/// gate had given up on it, and never in another: a stale snapshot is dropped.
pub proof fn snapshot_is_recorded_unless_stale(
    token: Token,
    config: GhostSnapshotConfig,
    events: Seq<SnapshotEvent>,
)
    ensures
        count(actions_after(started(token, config), events), records_commit()) == (if exists|i: int|
            keeps_snapshot(started(token, config), events, i) {
            1nat
        } else {
            0nat
        }),
    decreases events.len(),
{
    let start = started(token, config);
    if events.len() == 0 {
        count_of_none(Seq::empty(), records_commit());
    } else {
        let init = events.drop_last();
        let last = events.len() - 1;
        snapshot_is_recorded_unless_stale(token, config, init);
        state_follows_events(token, config, init);
        step_counts(state_after(start, init), events.last());
        counts_add_up(start, events, records_commit());
        assert(events.take(last) =~= init);
        assert forall|i: int| 0 <= i < last implies #[trigger] keeps_snapshot(start, events, i)
            == keeps_snapshot(start, init, i) by {
            assert(events.take(i) =~= init.take(i));
        }
        if exists|i: int| keeps_snapshot(start, init, i) {
            let i = choose|i: int| keeps_snapshot(start, init, i);
            assert(keeps_snapshot(start, events, i));
            assert(init[i] is CaptureEnded);
            assert(has_capture(init));
        } else if keeps_snapshot(start, events, last) {
            assert(exists|i: int| keeps_snapshot(start, events, i));
        } else {
            assert forall|i: int| !keeps_snapshot(start, events, i) by {
                if keeps_snapshot(start, events, i) && i != last {
                    assert(keeps_snapshot(start, init, i));
                }
            }
        }
    }
}

/// The commit that a run records is the one that its capture brought before the tool gate had
/// given up on it.
pub proof fn recorded_commit_is_the_kept_one(
    token: Token,
    config: GhostSnapshotConfig,
    events: Seq<SnapshotEvent>,
    at: int,
)
    requires
        0 <= at < actions_after(started(token, config), events).len(),
        actions_after(started(token, config), events)[at] is RecordGhostCommit,
    ensures
        exists|i: int| #[trigger]
            keeps_snapshot(started(token, config), events, i) && actions_after(
                started(token, config),
                events,
            )[at] == ActionView::RecordGhostCommit(captured_commit(events[i])->0),
    decreases events.len(),
{
    let start = started(token, config);
    let all = actions_after(start, events);
    let init = events.drop_last();
    let last = events.len() - 1;
    let earlier = actions_after(start, init);
    if at < earlier.len() {
        assert(all[at] == earlier[at]);
        recorded_commit_is_the_kept_one(token, config, init, at);
        let i = choose|i: int| #[trigger]
            keeps_snapshot(start, init, i) && earlier[at] == ActionView::RecordGhostCommit(
                captured_commit(init[i])->0,
            );
        assert(events.take(i) =~= init.take(i));
        assert(keeps_snapshot(start, events, i));
    } else {
        assert(all[at] == state_after(start, init).actions_on(events.last())[at - earlier.len()]);
        state_follows_events(token, config, init);
        assert(events.take(last) =~= init);
        assert(keeps_snapshot(start, events, last));
    }
}

/// Once the tool gate has given up on the snapshot, all that the worker still does is to signal
/// that it is finished: it records nothing and tells nobody.
pub proof fn late_capture_is_silent(run: SnapshotRun, outcome: CaptureOutcome)
    requires
        run.gave_up(),
        !run.capture_ended,
    ensures
        run.actions_on(SnapshotEvent::CaptureEnded(outcome)) == seq![ActionView::SignalFinished],
{
    assert(run.worker_report(outcome) =~= Seq::empty());
    assert(run.actions_on(SnapshotEvent::CaptureEnded(outcome)) =~= seq![
        ActionView::SignalFinished,
    ]);
}

/// Where there is no repository or the capture failed, nobody is told and nothing is recorded,
/// late or not.
pub proof fn failed_capture_is_silent(run: SnapshotRun, outcome: CaptureOutcome)
    requires
        outcome is NotAGitRepository || outcome is Failed,
        !run.capture_ended,
    ensures
        run.actions_on(SnapshotEvent::CaptureEnded(outcome)) == seq![ActionView::SignalFinished],
{
    assert(run.actions_on(SnapshotEvent::CaptureEnded(outcome)) =~= seq![
        ActionView::SignalFinished,
    ]);
}

/// A panic of the capture is told while the tool gate waits, though warnings are disabled.
pub proof fn panic_is_told_without_warnings(run: SnapshotRun, error: String)
    requires
        !run.gave_up(),
        !run.capture_ended,
    ensures
        run.actions_on(SnapshotEvent::CaptureEnded(CaptureOutcome::Panicked { error })) == seq![
            ActionView::NotifyBackground(panic_message(error@)),
            ActionView::SignalFinished,
        ],
{
    assert(run.actions_on(SnapshotEvent::CaptureEnded(CaptureOutcome::Panicked { error }))
        =~= seq![
        ActionView::NotifyBackground(panic_message(error@)),
        ActionView::SignalFinished,
    ]);
}

/// The worker records a snapshot after every warning about it, and signals that it is finished
/// after that.
pub proof fn warnings_come_before_the_record(run: SnapshotRun, outcome: CaptureOutcome)
    requires
        run.disposition_of(outcome) == Disposition::Kept,
        !run.capture_ended,
    ensures
        ({
            let actions = run.actions_on(SnapshotEvent::CaptureEnded(outcome));
            let n = actions.len();
            &&& n >= 2
            &&& actions[n - 1] is SignalFinished
            &&& actions[n - 2] == ActionView::RecordGhostCommit(outcome->commit)
            &&& forall|i: int| 0 <= i < n - 2 ==> #[trigger] actions[i] is SendWarning
        }),
{
}

/// The disposition of an outcome tells what the worker does on it: it records a commit exactly
/// for one that is kept, tells of a panic exactly for one that panicked in time, and does
/// nothing on any other.
pub proof fn disposition_tells_what_is_done(run: SnapshotRun, outcome: CaptureOutcome)
    ensures
        (exists|i: int|
            0 <= i < run.worker_report(outcome).len() && #[trigger] run.worker_report(
                outcome,
            )[i] is RecordGhostCommit) == (run.disposition_of(outcome) == Disposition::Kept),
        (exists|i: int|
            0 <= i < run.worker_report(outcome).len() && #[trigger] run.worker_report(
                outcome,
            )[i] is NotifyBackground) == (run.disposition_of(outcome) == Disposition::Panicked),
        run.disposition_of(outcome) != Disposition::Kept && run.disposition_of(outcome)
            != Disposition::Panicked ==> run.worker_report(outcome).len() == 0,
{
    let report = run.worker_report(outcome);
    if run.disposition_of(outcome) == Disposition::Kept {
        assert(report[report.len() - 1] is RecordGhostCommit);
    } else if run.disposition_of(outcome) == Disposition::Panicked {
        assert(report[0] is NotifyBackground);
    }
}

/// With warnings disabled, a run sends none.
pub proof fn disabled_warnings_are_not_sent(
    token: Token,
    config: GhostSnapshotConfig,
    events: Seq<SnapshotEvent>,
)
    requires
        config.disable_warnings,
    ensures
        forall|i: int|
            0 <= i < actions_after(started(token, config), events).len() ==> !(
            #[trigger] actions_after(started(token, config), events)[i] is SendWarning),
    decreases events.len(),
{
    let start = started(token, config);
    if events.len() > 0 {
        let init = events.drop_last();
        disabled_warnings_are_not_sent(token, config, init);
        state_follows_events(token, config, init);
        let earlier = actions_after(start, init);
        let step = state_after(start, init).actions_on(events.last());
        assert forall|i: int| 0 <= i < actions_after(start, events).len() implies !(
        #[trigger] actions_after(start, events)[i] is SendWarning) by {
            if i >= earlier.len() {
                assert(actions_after(start, events)[i] == step[i - earlier.len()]);
            } else {
                assert(actions_after(start, events)[i] == earlier[i]);
            }
        }
    }
}

proof fn timeout_message_is_no_report_warning(run: SnapshotRun, report: GhostSnapshotReport, i: int)
    requires
        0 <= i < run.report_warnings(report).len(),
    ensures
        run.report_warnings(report)[i] != ActionView::SendWarning(timeout_message()),
{
    reveal_strlit(
        "Repository snapshot is taking too long. Continuing without an undo snapshot for this turn; large untracked or ignored files can slow snapshots.",
    );
    reveal_strlit("Repository snapshot ignored large untracked directories (>= ");
    reveal_strlit("Repository snapshot ignored untracked files larger than ");
    let warnings = snapshot_warnings(
        run.config.ignore_large_untracked_files,
        run.config.ignore_large_untracked_dirs,
        report,
    );
    assert(run.report_warnings(report)[i] == ActionView::SendWarning(warnings[i]));
    assert(warnings[i][21] == 'g');
    assert(timeout_message()[21] == 's');
}

/// Whoever is told that the snapshot takes too long is told so after the tool gate was marked
/// ready.
pub proof fn gate_opens_before_timeout_warning(
    token: Token,
    config: GhostSnapshotConfig,
    events: Seq<SnapshotEvent>,
    i: int,
)
    requires
        0 <= i < actions_after(started(token, config), events).len(),
        actions_after(started(token, config), events)[i] == ActionView::SendWarning(
            timeout_message(),
        ),
    ensures
        exists|j: int|
            0 <= j < i && #[trigger] actions_after(started(token, config), events)[j]
                == ActionView::MarkGateReady(token),
    decreases events.len(),
{
    let start = started(token, config);
    let all = actions_after(start, events);
    let init = events.drop_last();
    let earlier = actions_after(start, init);
    let run = state_after(start, init);
    let step = run.actions_on(events.last());
    if i < earlier.len() {
        assert(all[i] == earlier[i]);
        gate_opens_before_timeout_warning(token, config, init, i);
        let j = choose|j: int|
            0 <= j < i && #[trigger] earlier[j] == ActionView::MarkGateReady(token);
        assert(all[j] == earlier[j]);
    } else {
        let k = i - earlier.len();
        assert(all[i] == step[k]);
        state_follows_events(token, config, init);
        match events.last() {
            SnapshotEvent::CaptureEnded(outcome) => {
                if let CaptureOutcome::Captured { commit, report } = outcome {
                    if !run.gave_up() && k < run.report_warnings(report).len() {
                        timeout_message_is_no_report_warning(run, report, k);
                    }
                }
            },
            SnapshotEvent::GateCause(_) => {
                assert(k == 1);
                assert(all[i - 1] == step[0]);
            },
        }
    }
}

/// A cancelled turn sees no warning from the tool gate.
pub proof fn cancelled_gate_is_silent(run: SnapshotRun)
    requires
        run.gate == GateState::Held,
    ensures
        run.actions_on(SnapshotEvent::GateCause(GateCause::Cancelled)) == seq![
            ActionView::MarkGateReady(run.token),
        ],
{
}

/// Whether a run goes through states and answers events as the task does: it starts with the
/// gate held and the capture going on, and takes each event in turn.
pub open spec fn is_run(
    token: Token,
    config: GhostSnapshotConfig,
    events: Seq<SnapshotEvent>,
    states: Seq<SnapshotRun>,
    answers: Seq<Seq<SnapshotAction>>,
) -> bool {
    &&& states.len() == events.len() + 1
    &&& answers.len() == events.len()
    &&& states[0].token == token
    &&& states[0].config == config
    &&& states[0].gate == GateState::Held
    &&& !states[0].capture_ended
    &&& forall|k: int|
        0 <= k < events.len() ==> action_views(#[trigger] answers[k]) == states[k].actions_on(
            events[k],
        ) && states[k + 1] == states[k].after(events[k])
}

/// Whether event `g` is the first cause to open the tool gate.
pub open spec fn is_first_cause(events: Seq<SnapshotEvent>, g: int) -> bool {
    &&& 0 <= g < events.len()
    &&& events[g] is GateCause
    &&& forall|j: int| 0 <= j < g ==> !(#[trigger] events[j] is GateCause)
}

/// Whether event `c` is the first end of the capture.
pub open spec fn is_first_capture(events: Seq<SnapshotEvent>, c: int) -> bool {
    &&& 0 <= c < events.len()
    &&& events[c] is CaptureEnded
    &&& forall|j: int| 0 <= j < c ==> !(#[trigger] events[j] is CaptureEnded)
}

/// Whether the tools were let go without the snapshot before event `c`: the first cause to open
/// the tool gate came before it, and was that the time was up or the turn cancelled.
pub open spec fn let_go_before(events: Seq<SnapshotEvent>, c: int) -> bool {
    exists|g: int| #[trigger]
        is_first_cause(events, g) && g < c && (events[g] == SnapshotEvent::GateCause(
            GateCause::TimedOut,
        ) || events[g] == SnapshotEvent::GateCause(GateCause::Cancelled))
}

proof fn state_is_told_by_events(
    token: Token,
    config: GhostSnapshotConfig,
    events: Seq<SnapshotEvent>,
    states: Seq<SnapshotRun>,
    answers: Seq<Seq<SnapshotAction>>,
    k: int,
)
    requires
        is_run(token, config, events, states, answers),
        0 <= k <= events.len(),
    ensures
        states[k].token == token,
        states[k].config == config,
        states[k].capture_ended == (exists|c: int| #[trigger] is_first_capture(events, c) && c < k),
        (states[k].gate != GateState::Held) == (exists|g: int| #[trigger]
            is_first_cause(events, g) && g < k),
        forall|g: int| #[trigger]
            is_first_cause(events, g) && g < k ==> states[k].gate == GateState::Released(
                events[g]->GateCause_0,
            ),
    decreases k,
{
    if k > 0 {
        let before = k - 1;
        state_is_told_by_events(token, config, events, states, answers, before);
        assert(action_views(answers[before]) == states[before].actions_on(events[before]));
        let event = events[before];
        if event is CaptureEnded && !states[before].capture_ended {
            assert forall|j: int| 0 <= j < before implies !(#[trigger] events[j]
                is CaptureEnded) by {
                if events[j] is CaptureEnded {
                    first_capture_exists(events, j);
                }
            }
            assert(is_first_capture(events, before));
        }
        if states[before].capture_ended {
            let c = choose|c: int| #[trigger] is_first_capture(events, c) && c < before;
            assert(is_first_capture(events, c) && c < k);
        }
        if event is GateCause && states[before].gate == GateState::Held {
            assert forall|j: int| 0 <= j < before implies !(#[trigger] events[j] is GateCause) by {
                if events[j] is GateCause {
                    first_cause_exists(events, j);
                }
            }
            assert(is_first_cause(events, before));
        }
        if states[before].gate != GateState::Held {
            let g = choose|g: int| #[trigger] is_first_cause(events, g) && g < before;
            assert(is_first_cause(events, g) && g < k);
        }
    }
}

proof fn first_cause_exists(events: Seq<SnapshotEvent>, j: int)
    requires
        0 <= j < events.len(),
        events[j] is GateCause,
    ensures
        exists|g: int| #[trigger] is_first_cause(events, g) && g <= j,
    decreases j,
{
    if is_first_cause(events, j) {
    } else {
        let i = choose|i: int| 0 <= i < j && #[trigger] events[i] is GateCause;
        first_cause_exists(events, i);
    }
}

proof fn first_capture_exists(events: Seq<SnapshotEvent>, j: int)
    requires
        0 <= j < events.len(),
        events[j] is CaptureEnded,
    ensures
        exists|c: int| #[trigger] is_first_capture(events, c) && c <= j,
    decreases j,
{
    if is_first_capture(events, j) {
    } else {
        let i = choose|i: int| 0 <= i < j && #[trigger] events[i] is CaptureEnded;
        first_capture_exists(events, i);
    }
}

proof fn gave_up_is_told_by_events(
    token: Token,
    config: GhostSnapshotConfig,
    events: Seq<SnapshotEvent>,
    states: Seq<SnapshotRun>,
    answers: Seq<Seq<SnapshotAction>>,
    k: int,
)
    requires
        is_run(token, config, events, states, answers),
        0 <= k <= events.len(),
    ensures
        states[k].gave_up() == let_go_before(events, k),
{
    state_is_told_by_events(token, config, events, states, answers, k);
    if states[k].gave_up() {
        let g = choose|g: int| #[trigger] is_first_cause(events, g) && g < k;
        assert(is_first_cause(events, g));
        assert(let_go_before(events, k));
    }
}

/// Actions and their views go one for one, and a view shows the whole of its action.
pub proof fn action_views_go_one_for_one(actions: Seq<SnapshotAction>, views: Seq<ActionView>)
    requires
        action_views(actions) == views,
    ensures
        actions.len() == views.len(),
        forall|i: int|
            0 <= i < actions.len() ==> match #[trigger] actions[i] {
                SnapshotAction::SendWarning(message) => views[i] == ActionView::SendWarning(
                    message@,
                ),
                SnapshotAction::RecordGhostCommit(commit) => views[i]
                    == ActionView::RecordGhostCommit(commit),
                SnapshotAction::NotifyBackground(message) => views[i]
                    == ActionView::NotifyBackground(message@),
                SnapshotAction::SignalFinished => views[i] == ActionView::SignalFinished,
                SnapshotAction::MarkGateReady(token) => views[i] == ActionView::MarkGateReady(
                    token,
                ),
            },
{
    assert forall|i: int| 0 <= i < actions.len() implies action_views(actions)[i] == (
    #[trigger] actions[i])@ by {}
}

/// A capture is answered by the events alone. Only its first end is answered. If the tools were
/// let go without the snapshot before it, the worker signals that it is finished and does
/// nothing else, whatever the settings and the outcome. Else a snapshot is recorded, after the
/// warnings about it unless these are disabled, a panic is told, and anything else passes in
/// silence; and at the end of each the worker signals that it is finished.
pub proof fn capture_is_answered_by_when_it_ended(
    token: Token,
    config: GhostSnapshotConfig,
    events: Seq<SnapshotEvent>,
    states: Seq<SnapshotRun>,
    answers: Seq<Seq<SnapshotAction>>,
    c: int,
)
    requires
        is_run(token, config, events, states, answers),
        0 <= c < events.len(),
        events[c] is CaptureEnded,
    ensures
        !is_first_capture(events, c) ==> answers[c].len() == 0,
        is_first_capture(events, c) ==> answers[c].len() > 0
            && answers[c][answers[c].len() - 1] is SignalFinished,
        is_first_capture(events, c) && let_go_before(events, c) ==> answers[c].len() == 1,
        is_first_capture(events, c) && !let_go_before(events, c) ==> match events[c]->CaptureEnded_0 {
            CaptureOutcome::Captured { commit, report } => {
                let n = answers[c].len();
                let warnings = snapshot_warnings(
                    config.ignore_large_untracked_files,
                    config.ignore_large_untracked_dirs,
                    report,
                );
                &&& n >= 2
                &&& answers[c][n - 2] == SnapshotAction::RecordGhostCommit(commit)
                &&& config.disable_warnings ==> n == 2
                &&& !config.disable_warnings ==> n == warnings.len() + 2
                &&& forall|i: int|
                    0 <= i < n - 2 ==> ((#[trigger] answers[c][i])
                        matches SnapshotAction::SendWarning(message) && message@ == warnings[i])
            },
            CaptureOutcome::Panicked { error } => {
                &&& answers[c].len() == 2
                &&& answers[c][0] matches SnapshotAction::NotifyBackground(message)
                &&& message@ == "Snapshots disabled after ghost snapshot panic: "@ + error@ + "."@
            },
            CaptureOutcome::NotAGitRepository => answers[c].len() == 1,
            CaptureOutcome::Failed { .. } => answers[c].len() == 1,
        },
{
    state_is_told_by_events(token, config, events, states, answers, c);
    gave_up_is_told_by_events(token, config, events, states, answers, c);
    let views = states[c].actions_on(events[c]);
    assert(action_views(answers[c]) == views);
    action_views_go_one_for_one(answers[c], views);
    if !is_first_capture(events, c) {
        first_capture_exists(events, c);
        let first = choose|first: int| #[trigger] is_first_capture(events, first) && first <= c;
        assert(is_first_capture(events, first) && first < c);
    } else {
        assert(!states[c].capture_ended) by {
            if states[c].capture_ended {
                let first = choose|first: int| #[trigger]
                    is_first_capture(events, first) && first < c;
                assert(events[first] is CaptureEnded);
            }
        }
        let outcome = events[c]->CaptureEnded_0;
        let report = states[c].worker_report(outcome);
        assert(views == report.push(ActionView::SignalFinished));
        assert(views[views.len() - 1] == ActionView::SignalFinished);
        let n = views.len();
        if let CaptureOutcome::Captured { commit, report } = outcome {
            if !let_go_before(events, c) {
                let warned = states[c].report_warnings(report);
                assert(views[n - 2] == ActionView::RecordGhostCommit(commit));
                assert forall|i: int| 0 <= i < n - 2 implies ((#[trigger] answers[c][i])
                    matches SnapshotAction::SendWarning(message) && message@
                    == snapshot_warnings(
                    config.ignore_large_untracked_files,
                    config.ignore_large_untracked_dirs,
                    report,
                )[i]) by {
                    assert(views[i] == warned[i]);
                }
            }
        }
    }
}

/// A cause to open the tool gate is answered by the events alone. Only the first is answered: the
/// gate is marked ready with the token of the run, and only if the time was up and warnings are
/// not disabled is there more, a warning, and it comes after.
pub proof fn cause_is_answered_by_whether_it_is_first(
    token: Token,
    config: GhostSnapshotConfig,
    events: Seq<SnapshotEvent>,
    states: Seq<SnapshotRun>,
    answers: Seq<Seq<SnapshotAction>>,
    g: int,
)
    requires
        is_run(token, config, events, states, answers),
        0 <= g < events.len(),
        events[g] is GateCause,
    ensures
        !is_first_cause(events, g) ==> answers[g].len() == 0,
        is_first_cause(events, g) ==> answers[g].len() > 0 && answers[g][0]
            == SnapshotAction::MarkGateReady(token),
        is_first_cause(events, g) && events[g] == SnapshotEvent::GateCause(GateCause::TimedOut)
            && !config.disable_warnings ==> answers[g].len() == 2 && (answers[g][1]
            matches SnapshotAction::SendWarning(message) && message@
            == "Repository snapshot is taking too long. Continuing without an undo snapshot for this turn; large untracked or ignored files can slow snapshots."@),
        is_first_cause(events, g) && (events[g] != SnapshotEvent::GateCause(GateCause::TimedOut)
            || config.disable_warnings) ==> answers[g].len() == 1,
{
    state_is_told_by_events(token, config, events, states, answers, g);
    let views = states[g].actions_on(events[g]);
    assert(action_views(answers[g]) == views);
    action_views_go_one_for_one(answers[g], views);
    if !is_first_cause(events, g) {
        first_cause_exists(events, g);
        let first = choose|first: int| #[trigger] is_first_cause(events, first) && first <= g;
        assert(is_first_cause(events, first) && first < g);
    } else {
        assert(states[g].gate == GateState::Held) by {
            if states[g].gate != GateState::Held {
                let first = choose|first: int| #[trigger]
                    is_first_cause(events, first) && first < g;
                assert(events[first] is GateCause);
            }
        }
    }
}

/// Once the time was up or the turn was cancelled, whatever the settings, a capture that ends is
/// answered by the signal that the worker is finished alone, and no event of the whole run is
/// answered by recording a commit.
pub proof fn snapshot_after_the_tools_were_let_go_is_dropped(
    token: Token,
    config: GhostSnapshotConfig,
    events: Seq<SnapshotEvent>,
    states: Seq<SnapshotRun>,
    answers: Seq<Seq<SnapshotAction>>,
    g: int,
    c: int,
)
    requires
        is_run(token, config, events, states, answers),
        0 <= g < c < events.len(),
        events[g] == SnapshotEvent::GateCause(GateCause::TimedOut) || events[g]
            == SnapshotEvent::GateCause(GateCause::Cancelled),
        forall|j: int| 0 <= j < g ==> !(#[trigger] events[j] is GateCause),
        events[c] is CaptureEnded,
        forall|j: int| 0 <= j < c ==> !(#[trigger] events[j] is CaptureEnded),
    ensures
        answers[c] == seq![SnapshotAction::SignalFinished],
        forall|k: int, i: int|
            0 <= k < events.len() && 0 <= i < answers[k].len() ==> !(#[trigger] answers[k][i]
                is RecordGhostCommit),
{
    assert(is_first_cause(events, g));
    assert(is_first_capture(events, c));
    assert(let_go_before(events, c));
    capture_is_answered_by_when_it_ended(token, config, events, states, answers, c);
    assert(answers[c] =~= seq![SnapshotAction::SignalFinished]);
    assert forall|k: int, i: int| 0 <= k < events.len() && 0 <= i < answers[k].len() implies !(
    #[trigger] answers[k][i] is RecordGhostCommit) by {
        match events[k] {
            SnapshotEvent::CaptureEnded(_) => {
                capture_is_answered_by_when_it_ended(token, config, events, states, answers, k);
                if k < c {
                    assert(!(events[k] is CaptureEnded));
                } else if k > c {
                    assert(!is_first_capture(events, k));
                }
            },
            SnapshotEvent::GateCause(_) => {
                cause_is_answered_by_whether_it_is_first(
                    token,
                    config,
                    events,
                    states,
                    answers,
                    k,
                );
            },
        }
    }
}

/// What is said to become of an outcome is what becomes of it: it is late exactly where the tools
/// were let go without the snapshot before it.
pub proof fn disposition_is_told_by_events(
    token: Token,
    config: GhostSnapshotConfig,
    events: Seq<SnapshotEvent>,
    states: Seq<SnapshotRun>,
    answers: Seq<Seq<SnapshotAction>>,
    k: int,
    outcome: CaptureOutcome,
)
    requires
        is_run(token, config, events, states, answers),
        0 <= k <= events.len(),
    ensures
        states[k].gave_up() == let_go_before(events, k),
        outcome is Captured ==> states[k].disposition_of(outcome) == (if let_go_before(events, k) {
            Disposition::Stale
        } else {
            Disposition::Kept
        }),
        outcome is NotAGitRepository ==> states[k].disposition_of(outcome)
            == Disposition::NotARepository,
        outcome is Failed ==> states[k].disposition_of(outcome) == (if let_go_before(events, k) {
            Disposition::FailedLate
        } else {
            Disposition::Failed
        }),
        outcome is Panicked ==> states[k].disposition_of(outcome) == (if let_go_before(events, k) {
            Disposition::PanickedLate
        } else {
            Disposition::Panicked
        }),
{
    gave_up_is_told_by_events(token, config, events, states, answers, k);
}

} // verus!
