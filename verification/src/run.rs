//! Whole operations: what a sequence of events leads to, and what holds of
//! every operation that is carried through.

use vstd::prelude::*;
use crate::error::{minimized, not_found, reported, ErrorKind, ErrorView};
use crate::operation::{
    begin, failed, next, pending, proceed, ActionView, EventView, OperationView, StepView, Task,
};
use crate::path::{lemma_save_path_injective, save_dir, save_path};
use crate::select::{
    lemma_no_target, lemma_target_position, monitor_ids, monitor_target, window_ids, window_target,
};
use crate::surface::{NamedSurface, SurfaceKind, WindowView};

verus! {

/// Where an operation stands after the events `events`, reported in this
/// order, from `step` on. Events that come after its end are not looked at.
pub open spec fn run(step: StepView, events: Seq<EventView>) -> StepView
    decreases events.len(),
{
    if events.len() == 0 {
        step
    } else {
        match step {
            StepView::Done(_) => step,
            StepView::Continue(op, _) => run(next(op, events.first()), events.drop_first()),
        }
    }
}

/// The work that an operation asks for, in order, from `step` on while the
/// events `events` are reported.
pub open spec fn asked(step: StepView, events: Seq<EventView>) -> Seq<ActionView>
    decreases events.len(),
{
    match step {
        StepView::Done(_) => Seq::empty(),
        StepView::Continue(op, action) => if events.len() == 0 {
            seq![action]
        } else {
            seq![action] + asked(next(op, events.first()), events.drop_first())
        },
    }
}

/// The end of an operation that wrote or deleted `path`.
pub open spec fn ended(path: Seq<char>) -> StepView {
    StepView::Done(Ok(path))
}

/// The number of steps that an operation in state `op` has before it at
/// most.
pub open spec fn steps_left(op: OperationView) -> nat {
    match op {
        OperationView::Listing { .. } => 5,
        OperationView::Grabbing { .. } => 4,
        OperationView::Locating { .. } => 3,
        OperationView::CreatingDir { .. } => 2,
        OperationView::Saving { .. } => 1,
        OperationView::RemovingFile { .. } => 1,
        OperationView::RemovingDir { .. } => 1,
    }
}

/// Whether `event` reports on the work that an operation in state `op`
/// waits for.
pub open spec fn answers(op: OperationView, event: EventView) -> bool {
    match (pending(op), event) {
        (ActionView::ListWindows, EventView::Windows(_)) => true,
        (ActionView::ListMonitors, EventView::Monitors(_)) => true,
        (ActionView::LocateDataDir, EventView::DataDir(_)) => true,
        (ActionView::Grab(_), EventView::Finished(_)) => true,
        (ActionView::CreateDir(_), EventView::Finished(_)) => true,
        (ActionView::SaveImage(_), EventView::Finished(_)) => true,
        (ActionView::RemoveFile(_), EventView::Finished(_)) => true,
        (ActionView::RemoveDir(_), EventView::Finished(_)) => true,
        _ => false,
    }
}

/// Whether `event` reports a failure.
pub open spec fn is_failure(event: EventView) -> bool {
    match event {
        EventView::Windows(r) => r is Err,
        EventView::Monitors(r) => r is Err,
        EventView::DataDir(r) => r is Err,
        EventView::Finished(r) => r is Err,
    }
}

/// Every step asks for the work that its new state waits for. An event that
/// does not answer the pending work changes nothing; one that answers it
/// ends the operation or brings it nearer to its end. A failure that is
/// reported ends the operation at once, with a failure.
pub proof fn lemma_step_progress(op: OperationView, event: EventView)
    ensures
        !answers(op, event) ==> next(op, event) == proceed(op),
        answers(op, event) ==> match next(op, event) {
            StepView::Continue(then, action) => action == pending(then) && steps_left(then)
                < steps_left(op),
            StepView::Done(_) => true,
        },
        answers(op, event) && is_failure(event) ==> (next(op, event) matches StepView::Done(
            Err(_),
        )),
{
}

/// Whether each of `events` answers the work that the operation waits for
/// when the event is reported, from `step` on.
pub open spec fn in_turn(step: StepView, events: Seq<EventView>) -> bool
    decreases events.len(),
{
    events.len() == 0 || match step {
        StepView::Done(_) => true,
        StepView::Continue(op, _) => answers(op, events.first()) && in_turn(
            next(op, events.first()),
            events.drop_first(),
        ),
    }
}

/// An operation comes to its end, a result or a failure, once as many events
/// have answered its work as it had steps before it: no operation goes on for
/// more than five.
pub proof fn lemma_run_ends(op: OperationView, events: Seq<EventView>)
    requires
        in_turn(proceed(op), events),
        events.len() >= steps_left(op),
    ensures
        run(proceed(op), events) is Done,
    decreases events.len(),
{
    let event = events.first();
    lemma_step_progress(op, event);
    match next(op, event) {
        StepView::Continue(then, action) => {
            lemma_run_ends(then, events.drop_first());
        },
        StepView::Done(_) => {
            if events.drop_first().len() > 0 {
                assert(run(next(op, event), events.drop_first()) == next(op, event));
            }
        },
    }
}

/// The kind of a failure tells the step that failed: a failed enumeration is
/// reported as such, a failed capture as such, and every failure to locate,
/// create, write or delete as a failure of storage, each with the message
/// that the step gave.
pub proof fn lemma_failure_kinds(op: OperationView, event: EventView, message: Seq<char>)
    requires
        answers(op, event),
        event == EventView::Windows(Err(message)) || event == EventView::Monitors(Err(message))
            || event == EventView::DataDir(Err(message)) || event == EventView::Finished(
            Err(message),
        ),
    ensures
        next(op, event) == StepView::Done(
            Err(
                reported(
                    match op {
                        OperationView::Listing { .. } => ErrorKind::Enumeration,
                        OperationView::Grabbing { .. } => ErrorKind::Capture,
                        _ => ErrorKind::Storage,
                    },
                    message,
                ),
            ),
        ),
{
}

/// A capture of a window id that no window of the fresh enumeration has ends
/// with "not found", and asks for no further work.
pub proof fn lemma_unknown_window_is_not_found(ws: Seq<WindowView>, id: u32)
    requires
        forall|j: int| 0 <= j < ws.len() ==> ws[j].id != id,
    ensures
        next(OperationView::Listing { kind: SurfaceKind::Window, id }, EventView::Windows(Ok(ws)))
            == StepView::Done(Err(not_found(SurfaceKind::Window))),
{
    lemma_no_target(window_ids(ws), id);
}

/// A capture of a monitor id that no monitor of the fresh enumeration has
/// ends with "not found", and asks for no further work.
pub proof fn lemma_unknown_monitor_is_not_found(ms: Seq<NamedSurface>, id: u32)
    requires
        forall|j: int| 0 <= j < ms.len() ==> ms[j].id != id,
    ensures
        next(
            OperationView::Listing { kind: SurfaceKind::Monitor, id },
            EventView::Monitors(Ok(ms)),
        ) == StepView::Done(Err(not_found(SurfaceKind::Monitor))),
{
    lemma_no_target(monitor_ids(ms), id);
}

/// A capture of a window that the fresh enumeration shows minimized ends
/// with "unsupported state", whatever an earlier enumeration showed: the
/// step looks at the enumeration that the event brings and at nothing else.
pub proof fn lemma_minimized_window_is_unsupported(ws: Seq<WindowView>, id: u32, i: int)
    requires
        0 <= i < ws.len(),
        ws[i].id == id,
        ws[i].is_minimized,
        forall|j: int| 0 <= j < i ==> ws[j].id != id,
    ensures
        next(OperationView::Listing { kind: SurfaceKind::Window, id }, EventView::Windows(Ok(ws)))
            == StepView::Done(Err(minimized())),
{
    lemma_target_position(window_ids(ws), id, i);
}

/// A capture in which every piece of work succeeds: it enumerates afresh,
/// captures the surface it found, asks where the cache root lies, has the
/// root created, has the image written to the path of the key, and ends with
/// that path. It asks for the root each time, so it does not matter whether
/// the root or the artifact was there before, or was deleted just before.
pub proof fn lemma_capture_carried_through(
    kind: SurfaceKind,
    id: u32,
    listing: EventView,
    index: int,
    data_dir: Seq<char>,
)
    requires
        match kind {
            SurfaceKind::Window => listing matches EventView::Windows(Ok(ws)) && window_target(
                ws,
                id,
            ) == Ok::<int, ErrorView>(index),
            SurfaceKind::Monitor => listing matches EventView::Monitors(Ok(ms)) && monitor_target(
                ms,
                id,
            ) == Ok::<int, ErrorView>(index),
        },
    ensures
        ({
            let dir = save_dir(data_dir);
            let path = save_path(dir, kind, id);
            let events = seq![
                listing,
                EventView::Finished(Ok(())),
                EventView::DataDir(Ok(data_dir)),
                EventView::Finished(Ok(())),
                EventView::Finished(Ok(())),
            ];
            &&& run(begin(Task::Capture(kind, id)), events) == ended(path)
            &&& asked(begin(Task::Capture(kind, id)), events) == seq![
                match kind {
                    SurfaceKind::Window => ActionView::ListWindows,
                    SurfaceKind::Monitor => ActionView::ListMonitors,
                },
                ActionView::Grab(index),
                ActionView::LocateDataDir,
                ActionView::CreateDir(dir),
                ActionView::SaveImage(path),
            ]
        }),
{
    let dir = save_dir(data_dir);
    let path = save_path(dir, kind, id);
    let task = Task::Capture(kind, id);
    let e1 = EventView::Finished(Ok(()));
    let e2 = EventView::DataDir(Ok(data_dir));
    let events = seq![listing, e1, e2, e1, e1];
    let s0 = begin(task);
    let o0 = OperationView::Listing { kind, id };
    let o1 = OperationView::Grabbing { kind, id, index };
    let o2 = OperationView::Locating { task };
    let o3 = OperationView::CreatingDir { task, dir };
    let o4 = OperationView::Saving { path };
    assert(s0 == proceed(o0));
    assert(next(o0, listing) == proceed(o1));
    assert(next(o1, e1) == proceed(o2));
    assert(next(o2, e2) == proceed(o3));
    assert(next(o3, e1) == proceed(o4));
    assert(next(o4, e1) == ended(path));
    let t1 = events.drop_first();
    let t2 = t1.drop_first();
    let t3 = t2.drop_first();
    let t4 = t3.drop_first();
    let t5 = t4.drop_first();
    assert(t1 =~= seq![e1, e2, e1, e1]);
    assert(t2 =~= seq![e2, e1, e1]);
    assert(t3 =~= seq![e1, e1]);
    assert(t4 =~= seq![e1]);
    assert(t5 =~= Seq::<EventView>::empty());
    assert(run(ended(path), t5) == ended(path));
    assert(run(proceed(o4), t4) == ended(path));
    assert(run(proceed(o3), t3) == ended(path));
    assert(run(proceed(o2), t2) == ended(path));
    assert(run(proceed(o1), t1) == ended(path));
    assert(asked(ended(path), t5) =~= Seq::<ActionView>::empty());
    assert(asked(proceed(o4), t4) =~= seq![pending(o4)]);
    assert(asked(proceed(o3), t3) =~= seq![pending(o3), pending(o4)]);
    assert(asked(proceed(o2), t2) =~= seq![pending(o2), pending(o3), pending(o4)]);
    assert(asked(proceed(o1), t1) =~= seq![pending(o1), pending(o2), pending(o3), pending(o4)]);
    assert(asked(s0, events) =~= seq![
        pending(o0),
        pending(o1),
        pending(o2),
        pending(o3),
        pending(o4),
    ]);
}

/// A removal in which every piece of work succeeds: it asks where the cache
/// root lies, has the root created, has the file at the path of the key
/// deleted, and ends with that path. No enumeration is asked for: the key
/// alone decides.
pub proof fn lemma_removal_carried_through(kind: SurfaceKind, id: u32, data_dir: Seq<char>)
    ensures
        ({
            let dir = save_dir(data_dir);
            let path = save_path(dir, kind, id);
            let events = seq![
                EventView::DataDir(Ok(data_dir)),
                EventView::Finished(Ok(())),
                EventView::Finished(Ok(())),
            ];
            &&& run(begin(Task::Remove(kind, id)), events) == ended(path)
            &&& asked(begin(Task::Remove(kind, id)), events) == seq![
                ActionView::LocateDataDir,
                ActionView::CreateDir(dir),
                ActionView::RemoveFile(path),
            ]
        }),
{
    let dir = save_dir(data_dir);
    let path = save_path(dir, kind, id);
    let task = Task::Remove(kind, id);
    let e1 = EventView::Finished(Ok(()));
    let e2 = EventView::DataDir(Ok(data_dir));
    let events = seq![e2, e1, e1];
    let o0 = OperationView::Locating { task };
    let o1 = OperationView::CreatingDir { task, dir };
    let o2 = OperationView::RemovingFile { path };
    assert(begin(task) == proceed(o0));
    assert(next(o0, e2) == proceed(o1));
    assert(next(o1, e1) == proceed(o2));
    assert(next(o2, e1) == ended(path));
    let t1 = events.drop_first();
    let t2 = t1.drop_first();
    let t3 = t2.drop_first();
    assert(t1 =~= seq![e1, e1]);
    assert(t2 =~= seq![e1]);
    assert(t3 =~= Seq::<EventView>::empty());
    assert(run(ended(path), t3) == ended(path));
    assert(run(proceed(o2), t2) == ended(path));
    assert(run(proceed(o1), t1) == ended(path));
    assert(asked(ended(path), t3) =~= Seq::<ActionView>::empty());
    assert(asked(proceed(o2), t2) =~= seq![pending(o2)]);
    assert(asked(proceed(o1), t1) =~= seq![pending(o1), pending(o2)]);
    assert(asked(begin(task), events) =~= seq![pending(o0), pending(o1), pending(o2)]);
}

/// A removal whose file cannot be deleted, be it because there is no such
/// file, ends with a failure of storage that carries the message: it is not
/// passed over as if the artifact had been deleted.
pub proof fn lemma_removal_that_fails(
    kind: SurfaceKind,
    id: u32,
    data_dir: Seq<char>,
    message: Seq<char>,
)
    ensures
        run(
            begin(Task::Remove(kind, id)),
            seq![
                EventView::DataDir(Ok(data_dir)),
                EventView::Finished(Ok(())),
                EventView::Finished(Err(message)),
            ],
        ) == failed(ErrorKind::Storage, message),
{
    let dir = save_dir(data_dir);
    let path = save_path(dir, kind, id);
    let task = Task::Remove(kind, id);
    let e1 = EventView::Finished(Ok(()));
    let e2 = EventView::DataDir(Ok(data_dir));
    let e3 = EventView::Finished(Err(message));
    let events = seq![e2, e1, e3];
    let o0 = OperationView::Locating { task };
    let o1 = OperationView::CreatingDir { task, dir };
    let o2 = OperationView::RemovingFile { path };
    let end = failed(ErrorKind::Storage, message);
    assert(begin(task) == proceed(o0));
    assert(next(o0, e2) == proceed(o1));
    assert(next(o1, e1) == proceed(o2));
    assert(next(o2, e3) == end);
    let t1 = events.drop_first();
    let t2 = t1.drop_first();
    let t3 = t2.drop_first();
    assert(t1 =~= seq![e1, e3]);
    assert(t2 =~= seq![e3]);
    assert(t3 =~= Seq::<EventView>::empty());
    assert(run(end, t3) == end);
    assert(run(proceed(o2), t2) == end);
    assert(run(proceed(o1), t1) == end);
}

/// A clearing in which every piece of work succeeds: it asks where the cache
/// root lies, has the root deleted with all that is in it, and ends with the
/// root's path. It creates nothing.
pub proof fn lemma_clearing_carried_through(data_dir: Seq<char>)
    ensures
        ({
            let dir = save_dir(data_dir);
            let events = seq![EventView::DataDir(Ok(data_dir)), EventView::Finished(Ok(()))];
            &&& run(begin(Task::Clear), events) == ended(dir)
            &&& asked(begin(Task::Clear), events) == seq![
                ActionView::LocateDataDir,
                ActionView::RemoveDir(dir),
            ]
        }),
{
    let dir = save_dir(data_dir);
    let e1 = EventView::Finished(Ok(()));
    let e2 = EventView::DataDir(Ok(data_dir));
    let events = seq![e2, e1];
    let o0 = OperationView::Locating { task: Task::Clear };
    let o1 = OperationView::RemovingDir { dir };
    assert(begin(Task::Clear) == proceed(o0));
    assert(next(o0, e2) == proceed(o1));
    assert(next(o1, e1) == ended(dir));
    let t1 = events.drop_first();
    let t2 = t1.drop_first();
    assert(t1 =~= seq![e1]);
    assert(t2 =~= Seq::<EventView>::empty());
    assert(run(ended(dir), t2) == ended(dir));
    assert(run(proceed(o1), t1) == ended(dir));
    assert(asked(ended(dir), t2) =~= Seq::<ActionView>::empty());
    assert(asked(proceed(o1), t1) =~= seq![pending(o1)]);
    assert(asked(begin(Task::Clear), events) =~= seq![pending(o0), pending(o1)]);
}

/// Two captures write to the same path exactly where they have the same key
/// and the same cache root: a capture replaces the artifact of its own key
/// and touches no other.
pub proof fn lemma_one_artifact_per_key(
    dir: Seq<char>,
    k1: SurfaceKind,
    id1: u32,
    k2: SurfaceKind,
    id2: u32,
)
    ensures
        save_path(dir, k1, id1) == save_path(dir, k2, id2) <==> k1 == k2 && id1 == id2,
{
    if save_path(dir, k1, id1) == save_path(dir, k2, id2) {
        lemma_save_path_injective(dir, k1, id1, k2, id2);
    }
}

} // verus!
