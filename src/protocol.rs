//! Properties of the orchestrator over whole runs of input events.
//!
//! Each proof here speaks of [`step`], the meaning of one call of
//! `Bootstrap::update`, so it holds of every run of the executable machine.
use vstd::prelude::*;

use crate::bootstrap::{
    changed_items, queued_for, step, BootstrapAction, BootstrapInput, BootstrapOutput,
    BootstrapState, FaceDetectionMode, Task, TaskName,
};

verus! {

/// The state and the actions after feeding `msgs` to the machine in state `s`.
pub open spec fn run_all(s: BootstrapState, msgs: Seq<BootstrapInput>) -> (BootstrapState, Seq<BootstrapAction>)
    decreases msgs.len(),
{
    if msgs.len() == 0 {
        (s, Seq::empty())
    } else {
        let (s1, a1) = run_all(s, msgs.drop_last());
        let (s2, a2) = step(s1, msgs.last());
        (s2, a1 + a2)
    }
}

/// The tasks started by a sequence of actions, in order.
pub open spec fn started(actions: Seq<BootstrapAction>) -> Seq<Task>
    decreases actions.len(),
{
    if actions.len() == 0 {
        Seq::empty()
    } else {
        let rest = started(actions.drop_last());
        match actions.last() {
            BootstrapAction::Run(t) => rest.push(t),
            _ => rest,
        }
    }
}

/// How many library reloads a sequence of actions asks for.
pub open spec fn refreshes(actions: Seq<BootstrapAction>) -> nat
    decreases actions.len(),
{
    if actions.len() == 0 {
        0
    } else {
        refreshes(actions.drop_last()) + if actions.last() == BootstrapAction::RefreshLibrary {
            1nat
        } else {
            0nat
        }
    }
}

/// The tasks that `msgs` ask to queue, in order, under the setting `mode`.
pub open spec fn queued_by(mode: FaceDetectionMode, msgs: Seq<BootstrapInput>) -> Seq<Task>
    decreases msgs.len(),
{
    if msgs.len() == 0 {
        Seq::empty()
    } else {
        queued_by(mode, msgs.drop_last()) + queued_for(mode, msgs.last())
    }
}

/// Whether an input is a completion report that marks the library as changed.
pub open spec fn reports_change(msg: BootstrapInput) -> bool {
    match msg {
        BootstrapInput::TaskCompleted(_, count) => changed_items(count),
        _ => false,
    }
}

/// Whether every input of `msgs` is a completion report.
pub open spec fn all_completions(msgs: Seq<BootstrapInput>) -> bool {
    forall|i: int| 0 <= i < msgs.len() ==> (#[trigger] msgs[i] is TaskCompleted)
}

/// Whether some input of `msgs` marks the library as changed.
pub open spec fn any_change(msgs: Seq<BootstrapInput>) -> bool {
    exists|i: int| 0 <= i < msgs.len() && #[trigger] reports_change(msgs[i])
}

proof fn lemma_started_concat(a: Seq<BootstrapAction>, b: Seq<BootstrapAction>)
    ensures
        started(a + b) == started(a) + started(b),
    decreases b.len(),
{
    if b.len() == 0 {
        assert(a + b =~= a);
        assert(started(a) + started(b) =~= started(a));
    } else {
        lemma_started_concat(a, b.drop_last());
        assert((a + b).drop_last() =~= a + b.drop_last());
        assert((a + b).last() == b.last());
        match b.last() {
            BootstrapAction::Run(t) => {
                assert(started(a) + started(b.drop_last()).push(t) =~= (started(a) + started(b.drop_last())).push(t));
            },
            _ => {},
        }
    }
}

proof fn lemma_refreshes_concat(a: Seq<BootstrapAction>, b: Seq<BootstrapAction>)
    ensures
        refreshes(a + b) == refreshes(a) + refreshes(b),
    decreases b.len(),
{
    if b.len() == 0 {
        assert(a + b =~= a);
    } else {
        lemma_refreshes_concat(a, b.drop_last());
        assert((a + b).drop_last() =~= a + b.drop_last());
        assert((a + b).last() == b.last());
    }
}

proof fn lemma_started_small(x: BootstrapAction, y: BootstrapAction)
    ensures
        started(seq![x]) == started(Seq::<BootstrapAction>::empty()) + started(seq![x]),
        started(seq![x, y]) == started(seq![x]) + started(seq![y]),
        started(Seq::<BootstrapAction>::empty()) == Seq::<Task>::empty(),
        started(seq![x]) == (match x {
            BootstrapAction::Run(t) => seq![t],
            _ => Seq::<Task>::empty(),
        }),
        refreshes(seq![x]) == (if x == BootstrapAction::RefreshLibrary { 1nat } else { 0nat }),
        refreshes(seq![x, y]) == refreshes(seq![x]) + refreshes(seq![y]),
{
    reveal_with_fuel(started, 2);
    reveal_with_fuel(refreshes, 2);
    assert(seq![x].drop_last() =~= Seq::<BootstrapAction>::empty());
    assert(seq![x] =~= Seq::<BootstrapAction>::empty() + seq![x]);
    assert(seq![x, y] =~= seq![x] + seq![y]);
    lemma_started_concat(seq![x], seq![y]);
    lemma_refreshes_concat(seq![x], seq![y]);
    assert(Seq::<Task>::empty().push(match x {
        BootstrapAction::Run(t) => t,
        _ => Task::PhotoScan,
    }) =~= seq![match x {
        BootstrapAction::Run(t) => t,
        _ => Task::PhotoScan,
    }]);
}

/// One step keeps the order of tasks: what it starts, followed by what is
/// left pending, is what was pending followed by what it queued.
proof fn lemma_step_keeps_order(s: BootstrapState, msg: BootstrapInput)
    requires
        msg != BootstrapInput::Stop,
    ensures
        started(step(s, msg).1) + step(s, msg).0.queue == s.queue + queued_for(s.mode, msg),
        step(s, msg).0.mode == s.mode,
{
    let e = Seq::<BootstrapAction>::empty();
    lemma_started_small(BootstrapAction::RefreshLibrary, BootstrapAction::RefreshLibrary);
    lemma_started_small(BootstrapAction::RefreshLibrary, BootstrapAction::Emit(BootstrapOutput::Completed));
    lemma_started_small(BootstrapAction::SetCancelled(false), BootstrapAction::Emit(BootstrapOutput::Completed));
    lemma_started_small(BootstrapAction::Emit(BootstrapOutput::Completed), BootstrapAction::Emit(BootstrapOutput::Completed));
    if s.queue.len() > 0 {
        lemma_started_small(BootstrapAction::RefreshLibrary, BootstrapAction::Run(s.queue[0]));
        lemma_started_small(BootstrapAction::Run(s.queue[0]), BootstrapAction::RefreshLibrary);
        assert(seq![s.queue[0]] + s.queue.drop_first() =~= s.queue);
    }
    match msg {
        BootstrapInput::Start => {
            assert(s.queue + queued_for(s.mode, msg) =~= s.queue);
            if s.queue.len() > 0 {
                assert(seq![BootstrapAction::RefreshLibrary] + seq![BootstrapAction::Run(s.queue[0])]
                    =~= seq![BootstrapAction::RefreshLibrary, BootstrapAction::Run(s.queue[0])]);
            }
            assert(started(step(s, msg).1) + step(s, msg).0.queue =~= s.queue);
        },
        BootstrapInput::TaskStarted(name) => {
            lemma_started_small(BootstrapAction::Emit(BootstrapOutput::TaskStarted(name)), BootstrapAction::RefreshLibrary);
            assert(s.queue + queued_for(s.mode, msg) =~= s.queue);
            assert(started(step(s, msg).1) + step(s, msg).0.queue =~= s.queue);
        },
        BootstrapInput::TaskCompleted(_, count) => {
            let tail = seq![
                BootstrapAction::SetCancelled(false),
                BootstrapAction::Emit(BootstrapOutput::Completed),
            ];
            lemma_started_concat(seq![BootstrapAction::RefreshLibrary], tail);
            assert(s.queue + queued_for(s.mode, msg) =~= s.queue);
            assert(started(step(s, msg).1) + step(s, msg).0.queue =~= s.queue);
        },
        _ => {
            let q = s.queue + queued_for(s.mode, msg);
            if !s.running && q.len() > 0 {
                lemma_started_small(BootstrapAction::Run(q[0]), BootstrapAction::Run(q[0]));
                assert(seq![q[0]] + q.drop_first() =~= q);
            }
            assert(started(e) + q =~= q);
        },
    }
}

/// Tasks start in the order they were queued: over any run of inputs without
/// a stop, the tasks started, followed by those still pending, are the tasks
/// pending at first followed by every task queued during the run, in order.
pub proof fn lemma_fifo_order(s: BootstrapState, msgs: Seq<BootstrapInput>)
    requires
        forall|i: int| 0 <= i < msgs.len() ==> #[trigger] msgs[i] != BootstrapInput::Stop,
    ensures
        started(run_all(s, msgs).1) + run_all(s, msgs).0.queue == s.queue + queued_by(s.mode, msgs),
        run_all(s, msgs).0.mode == s.mode,
    decreases msgs.len(),
{
    if msgs.len() == 0 {
        assert(started(Seq::<BootstrapAction>::empty()) =~= Seq::<Task>::empty());
        assert(s.queue + queued_by(s.mode, msgs) =~= s.queue);
        assert(started(run_all(s, msgs).1) + run_all(s, msgs).0.queue =~= s.queue);
    } else {
        let init = msgs.drop_last();
        lemma_fifo_order(s, init);
        let (s1, a1) = run_all(s, init);
        assert(msgs[msgs.len() - 1] != BootstrapInput::Stop);
        lemma_step_keeps_order(s1, msgs.last());
        let (s2, a2) = step(s1, msgs.last());
        lemma_started_concat(a1, a2);
        assert(started(a1 + a2) + s2.queue =~= started(a1) + (started(a2) + s2.queue));
        assert(s.queue + queued_by(s.mode, msgs) =~= (s.queue + queued_by(s.mode, init)) + queued_for(s.mode, msgs.last()));
        assert(started(a1) + (s1.queue + queued_for(s1.mode, msgs.last())) =~= (started(a1) + s1.queue) + queued_for(s.mode, msgs.last()));
    }
}

/// At most one task runs at a time: a step starts at most one task, leaves the
/// running slot occupied when it starts one, and while a task runs starts
/// another only on that task's completion report.
pub proof fn lemma_single_running_slot(s: BootstrapState, msg: BootstrapInput)
    ensures
        started(step(s, msg).1).len() <= 1,
        started(step(s, msg).1).len() == 1 ==> step(s, msg).0.running,
        s.running && !(msg is TaskCompleted) ==> started(step(s, msg).1).len() == 0,
{
    lemma_started_small(BootstrapAction::RefreshLibrary, BootstrapAction::RefreshLibrary);
    lemma_started_small(BootstrapAction::RefreshLibrary, BootstrapAction::Emit(BootstrapOutput::Completed));
    lemma_started_small(BootstrapAction::SetCancelled(false), BootstrapAction::Emit(BootstrapOutput::Completed));
    lemma_started_small(BootstrapAction::SetCancelled(true), BootstrapAction::Emit(BootstrapOutput::Completed));
    lemma_started_small(BootstrapAction::Emit(BootstrapOutput::Completed), BootstrapAction::RefreshLibrary);
    if s.queue.len() > 0 {
        lemma_started_small(BootstrapAction::RefreshLibrary, BootstrapAction::Run(s.queue[0]));
        lemma_started_small(BootstrapAction::Run(s.queue[0]), BootstrapAction::RefreshLibrary);
        assert(seq![BootstrapAction::RefreshLibrary] + seq![BootstrapAction::Run(s.queue[0])]
            =~= seq![BootstrapAction::RefreshLibrary, BootstrapAction::Run(s.queue[0])]);
    }
    match msg {
        BootstrapInput::TaskStarted(name) => {
            let x = BootstrapAction::Emit(BootstrapOutput::TaskStarted(name));
            lemma_started_small(x, BootstrapAction::RefreshLibrary);
        },
        BootstrapInput::TaskCompleted(_, _) => {
            let tail = seq![
                BootstrapAction::SetCancelled(false),
                BootstrapAction::Emit(BootstrapOutput::Completed),
            ];
            lemma_started_concat(seq![BootstrapAction::RefreshLibrary], tail);
        },
        BootstrapInput::Start | BootstrapInput::Stop => {},
        _ => {
            let q = s.queue + queued_for(s.mode, msg);
            if q.len() > 0 {
                lemma_started_small(BootstrapAction::Run(q[0]), BootstrapAction::Run(q[0]));
            }
        },
    }
}

/// A stop while a task runs empties the queue at once and sets the
/// cancellation flag; the running task's completion report then ends the run
/// normally: the machine is idle, the flag is cleared, and observers are told
/// that the run has completed.
pub proof fn lemma_stop_drains(s: BootstrapState, name: TaskName, count: Option<usize>)
    requires
        s.running,
    ensures
        step(s, BootstrapInput::Stop).0.queue.len() == 0,
        step(s, BootstrapInput::Stop).0.cancelled,
        step(s, BootstrapInput::Stop).1 == seq![BootstrapAction::SetCancelled(true)],
        !step(step(s, BootstrapInput::Stop).0, BootstrapInput::TaskCompleted(name, count)).0.running,
        !step(step(s, BootstrapInput::Stop).0, BootstrapInput::TaskCompleted(name, count)).0.cancelled,
        step(step(s, BootstrapInput::Stop).0, BootstrapInput::TaskCompleted(name, count)).0.queue.len() == 0,
        step(step(s, BootstrapInput::Stop).0, BootstrapInput::TaskCompleted(name, count)).1.last()
            == BootstrapAction::Emit(BootstrapOutput::Completed),
{
}

/// Completion reports that come while tasks are still pending never reload
/// the library; they start the next task and remember whether anything changed.
proof fn lemma_completions_before_drain(s: BootstrapState, msgs: Seq<BootstrapInput>)
    requires
        s.running,
        msgs.len() <= s.queue.len(),
        all_completions(msgs),
    ensures
        run_all(s, msgs).0.running,
        run_all(s, msgs).0.queue == s.queue.skip(msgs.len() as int),
        run_all(s, msgs).0.stale == (s.stale || any_change(msgs)),
        refreshes(run_all(s, msgs).1) == 0,
    decreases msgs.len(),
{
    if msgs.len() == 0 {
        assert(s.queue.skip(0) =~= s.queue);
        assert(refreshes(Seq::<BootstrapAction>::empty()) == 0);
    } else {
        let init = msgs.drop_last();
        assert forall|i: int| 0 <= i < init.len() implies #[trigger] init[i] is TaskCompleted by {
            assert(init[i] == msgs[i]);
        }
        lemma_completions_before_drain(s, init);
        let (s1, a1) = run_all(s, init);
        assert(msgs[msgs.len() - 1] is TaskCompleted);
        let (s2, a2) = step(s1, msgs.last());
        assert(s1.queue.len() > 0);
        lemma_started_small(BootstrapAction::Run(s1.queue[0]), BootstrapAction::Run(s1.queue[0]));
        lemma_refreshes_concat(a1, a2);
        assert(s1.queue.drop_first() =~= s.queue.skip(msgs.len() as int));
        if any_change(msgs) {
            let i = choose|i: int| 0 <= i < msgs.len() && #[trigger] reports_change(msgs[i]);
            if i < init.len() {
                assert(init[i] == msgs[i]);
                assert(any_change(init));
            }
        }
        if any_change(init) {
            let i = choose|i: int| 0 <= i < init.len() && #[trigger] reports_change(init[i]);
            assert(init[i] == msgs[i]);
            assert(any_change(msgs));
        }
        if reports_change(msgs.last()) {
            assert(reports_change(msgs[msgs.len() - 1]));
        }
    }
}

/// A drain reloads the library only when a task reported changed items: when
/// a running task and the tasks pending behind it all report completion, with
/// the library not yet marked stale, the library is reloaded exactly once if
/// some report counted changed items and never otherwise, and never before
/// the last report.
pub proof fn lemma_reload_only_when_stale(s: BootstrapState, msgs: Seq<BootstrapInput>)
    requires
        s.running,
        !s.stale,
        msgs.len() == s.queue.len() + 1,
        all_completions(msgs),
    ensures
        refreshes(run_all(s, msgs).1) == (if any_change(msgs) { 1nat } else { 0nat }),
        refreshes(run_all(s, msgs.drop_last()).1) == 0,
        !run_all(s, msgs).0.running,
        run_all(s, msgs).0.queue.len() == 0,
{
    let init = msgs.drop_last();
    assert forall|i: int| 0 <= i < init.len() implies #[trigger] init[i] is TaskCompleted by {
        assert(init[i] == msgs[i]);
    }
    lemma_completions_before_drain(s, init);
    let (s1, a1) = run_all(s, init);
    assert(msgs[msgs.len() - 1] is TaskCompleted);
    assert(s1.queue.len() == 0);
    let (s2, a2) = step(s1, msgs.last());
    lemma_refreshes_concat(a1, a2);
    let tail = seq![
        BootstrapAction::SetCancelled(false),
        BootstrapAction::Emit(BootstrapOutput::Completed),
    ];
    lemma_started_small(BootstrapAction::SetCancelled(false), BootstrapAction::Emit(BootstrapOutput::Completed));
    lemma_started_small(BootstrapAction::RefreshLibrary, BootstrapAction::RefreshLibrary);
    lemma_started_small(BootstrapAction::Emit(BootstrapOutput::Completed), BootstrapAction::RefreshLibrary);
    lemma_refreshes_concat(seq![BootstrapAction::RefreshLibrary], tail);
    if any_change(msgs) {
        let i = choose|i: int| 0 <= i < msgs.len() && #[trigger] reports_change(msgs[i]);
        if i < init.len() {
            assert(init[i] == msgs[i]);
            assert(any_change(init));
        }
    }
    if any_change(init) {
        let i = choose|i: int| 0 <= i < init.len() && #[trigger] reports_change(init[i]);
        assert(init[i] == msgs[i]);
        assert(any_change(msgs));
    }
    if reports_change(msgs.last()) {
        assert(reports_change(msgs[msgs.len() - 1]));
    }
}

/// With face detection off, asking to scan for faces queues nothing: the
/// state, and so the queue length, is left as it was, and no action comes.
pub proof fn lemma_face_scans_gated(s: BootstrapState, msg: BootstrapInput)
    requires
        s.mode == FaceDetectionMode::Off,
        msg is ScanPicturesForFaces || msg is ScanPictureForFaces,
    ensures
        step(s, msg).0 == s,
        step(s, msg).0.queue.len() == s.queue.len(),
        step(s, msg).1.len() == 0,
{
}

} // verus!
