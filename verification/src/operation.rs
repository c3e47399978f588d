//! An operation on the cache, step by step. The library decides; the caller
//! does the work that a step asks for (a query of the system, a capture, a
//! change on disk) and reports how it ended.

use vstd::prelude::*;
use crate::error::{reported, ErrorKind, ErrorView, ScreenshotError};
use crate::path::{get_save_dir, get_save_path, save_dir, save_path};
use crate::select::{monitor_target, select_monitor, select_window, target_view, window_target};
use crate::surface::{views, MonitorInfo, NamedSurface, SurfaceKind, WindowInfo, WindowView};

verus! {

/// What is asked of the cache.
#[derive(Clone, Copy, Debug, PartialEq, Eq, Structural)]
pub enum Task {
    /// Capture the surface with this key and keep the image as its artifact.
    Capture(SurfaceKind, u32),
    /// Delete the artifact with this key.
    Remove(SurfaceKind, u32),
    /// Delete the cache root and all that is in it.
    Clear,
}

/// Work for the caller to do.
#[derive(Clone, Debug, PartialEq, Eq)]
pub enum Action {
    /// Enumerate the windows that exist now.
    ListWindows,
    /// Enumerate the monitors that exist now.
    ListMonitors,
    /// Capture the pixels of the surface at this position of the enumeration
    /// just reported, and hold them.
    Grab(usize),
    /// Ask the host for the application's data directory.
    LocateDataDir,
    /// Create this directory and every missing ancestor; succeed if it is
    /// there already.
    CreateDir(String),
    /// Encode the pixels held to this path, replacing what is there.
    SaveImage(String),
    /// Delete this file.
    RemoveFile(String),
    /// Delete this directory and all that is in it.
    RemoveDir(String),
}

/// How the work that was asked for ended.
#[derive(Debug, PartialEq, Eq)]
pub enum Event {
    /// The windows that exist now, or why they could not be enumerated.
    Windows(Result<Vec<WindowInfo>, String>),
    /// The monitors that exist now, or why they could not be enumerated.
    Monitors(Result<Vec<MonitorInfo>, String>),
    /// The application's data directory, or why the host could not give it.
    DataDir(Result<String, String>),
    /// A capture or a change on disk was done, or why it was not.
    Finished(Result<(), String>),
}

/// An operation under way: the work it waits for, and what it needs to go
/// on from there.
#[derive(Clone, Debug, PartialEq, Eq)]
pub enum Operation {
    /// Waits for the enumeration in which to look for the surface.
    Listing { kind: SurfaceKind, id: u32 },
    /// Waits for the pixels of the surface at `index`.
    Grabbing { kind: SurfaceKind, id: u32, index: usize },
    /// Waits for the application's data directory.
    Locating { task: Task },
    /// Waits for the cache root `dir` to exist.
    CreatingDir { task: Task, dir: String },
    /// Waits for the image to be written to `path`.
    Saving { path: String },
    /// Waits for the file at `path` to be deleted.
    RemovingFile { path: String },
    /// Waits for the cache root `dir` to be deleted.
    RemovingDir { dir: String },
}

/// What a step leads to.
#[derive(Debug, PartialEq, Eq)]
pub enum Step {
    /// The operation goes on: its new state, and the work it now waits for.
    Continue(Operation, Action),
    /// The operation is over: the path that was written or deleted, or the
    /// failure.
    Done(Result<String, ScreenshotError>),
}

/// An action as contracts speak of it.
pub ghost enum ActionView {
    ListWindows,
    ListMonitors,
    Grab(int),
    LocateDataDir,
    CreateDir(Seq<char>),
    SaveImage(Seq<char>),
    RemoveFile(Seq<char>),
    RemoveDir(Seq<char>),
}

/// An event as contracts speak of it.
pub ghost enum EventView {
    Windows(Result<Seq<WindowView>, Seq<char>>),
    Monitors(Result<Seq<NamedSurface>, Seq<char>>),
    DataDir(Result<Seq<char>, Seq<char>>),
    Finished(Result<(), Seq<char>>),
}

/// An operation as contracts speak of it.
pub ghost enum OperationView {
    Listing { kind: SurfaceKind, id: u32 },
    Grabbing { kind: SurfaceKind, id: u32, index: int },
    Locating { task: Task },
    CreatingDir { task: Task, dir: Seq<char> },
    Saving { path: Seq<char> },
    RemovingFile { path: Seq<char> },
    RemovingDir { dir: Seq<char> },
}

/// A step's result as contracts speak of it.
pub ghost enum StepView {
    Continue(OperationView, ActionView),
    Done(Result<Seq<char>, ErrorView>),
}

impl View for Action {
    type V = ActionView;

    open spec fn view(&self) -> ActionView {
        match *self {
            Action::ListWindows => ActionView::ListWindows,
            Action::ListMonitors => ActionView::ListMonitors,
            Action::Grab(index) => ActionView::Grab(index as int),
            Action::LocateDataDir => ActionView::LocateDataDir,
            Action::CreateDir(dir) => ActionView::CreateDir(dir@),
            Action::SaveImage(path) => ActionView::SaveImage(path@),
            Action::RemoveFile(path) => ActionView::RemoveFile(path@),
            Action::RemoveDir(dir) => ActionView::RemoveDir(dir@),
        }
    }
}

impl View for Event {
    type V = EventView;

    open spec fn view(&self) -> EventView {
        match *self {
            Event::Windows(Ok(ws)) => EventView::Windows(Ok(views(ws@))),
            Event::Windows(Err(message)) => EventView::Windows(Err(message@)),
            Event::Monitors(Ok(ms)) => EventView::Monitors(Ok(views(ms@))),
            Event::Monitors(Err(message)) => EventView::Monitors(Err(message@)),
            Event::DataDir(Ok(dir)) => EventView::DataDir(Ok(dir@)),
            Event::DataDir(Err(message)) => EventView::DataDir(Err(message@)),
            Event::Finished(Ok(_)) => EventView::Finished(Ok(())),
            Event::Finished(Err(message)) => EventView::Finished(Err(message@)),
        }
    }
}

impl View for Operation {
    type V = OperationView;

    open spec fn view(&self) -> OperationView {
        match *self {
            Operation::Listing { kind, id } => OperationView::Listing { kind, id },
            Operation::Grabbing { kind, id, index } => OperationView::Grabbing {
                kind,
                id,
                index: index as int,
            },
            Operation::Locating { task } => OperationView::Locating { task },
            Operation::CreatingDir { task, dir } => OperationView::CreatingDir { task, dir: dir@ },
            Operation::Saving { path } => OperationView::Saving { path: path@ },
            Operation::RemovingFile { path } => OperationView::RemovingFile { path: path@ },
            Operation::RemovingDir { dir } => OperationView::RemovingDir { dir: dir@ },
        }
    }
}

impl View for Step {
    type V = StepView;

    open spec fn view(&self) -> StepView {
        match *self {
            Step::Continue(op, action) => StepView::Continue(op@, action@),
            Step::Done(Ok(path)) => StepView::Done(Ok(path@)),
            Step::Done(Err(e)) => StepView::Done(Err(e@)),
        }
    }
}

/// The work that an operation in state `op` waits for.
pub open spec fn pending(op: OperationView) -> ActionView {
    match op {
        OperationView::Listing { kind: SurfaceKind::Window, .. } => ActionView::ListWindows,
        OperationView::Listing { kind: SurfaceKind::Monitor, .. } => ActionView::ListMonitors,
        OperationView::Grabbing { index, .. } => ActionView::Grab(index),
        OperationView::Locating { .. } => ActionView::LocateDataDir,
        OperationView::CreatingDir { dir, .. } => ActionView::CreateDir(dir),
        OperationView::Saving { path } => ActionView::SaveImage(path),
        OperationView::RemovingFile { path } => ActionView::RemoveFile(path),
        OperationView::RemovingDir { dir } => ActionView::RemoveDir(dir),
    }
}

/// The operation in state `op`, going on with the work it waits for.
pub open spec fn proceed(op: OperationView) -> StepView {
    StepView::Continue(op, pending(op))
}

/// The end of an operation whose step failed with `message`.
pub open spec fn failed(kind: ErrorKind, message: Seq<char>) -> StepView {
    StepView::Done(Err(reported(kind, message)))
}

/// What the operation does once the surface was looked up.
pub open spec fn after_lookup(kind: SurfaceKind, id: u32, target: Result<int, ErrorView>)
    -> StepView {
    match target {
        Ok(index) => proceed(OperationView::Grabbing { kind, id, index }),
        Err(e) => StepView::Done(Err(e)),
    }
}

/// What the operation does once the cache root is known to be `dir`.
pub open spec fn after_locating(task: Task, dir: Seq<char>) -> StepView {
    match task {
        Task::Clear => proceed(OperationView::RemovingDir { dir }),
        _ => proceed(OperationView::CreatingDir { task, dir }),
    }
}

/// What the operation does once the cache root `dir` exists.
pub open spec fn after_creating(task: Task, dir: Seq<char>) -> StepView {
    match task {
        Task::Capture(kind, id) => proceed(
            OperationView::Saving { path: save_path(dir, kind, id) },
        ),
        Task::Remove(kind, id) => proceed(
            OperationView::RemovingFile { path: save_path(dir, kind, id) },
        ),
        Task::Clear => proceed(OperationView::RemovingDir { dir }),
    }
}

/// The step that an operation in state `op` takes on `event`. An event that
/// does not answer the work that `op` waits for changes nothing: the
/// operation stays as it is and asks for that work again.
pub open spec fn next(op: OperationView, event: EventView) -> StepView {
    match (op, event) {
        (
            OperationView::Listing { kind: SurfaceKind::Window, id },
            EventView::Windows(Ok(ws)),
        ) => after_lookup(SurfaceKind::Window, id, window_target(ws, id)),
        (
            OperationView::Listing { kind: SurfaceKind::Monitor, id },
            EventView::Monitors(Ok(ms)),
        ) => after_lookup(SurfaceKind::Monitor, id, monitor_target(ms, id)),
        (
            OperationView::Listing { kind: SurfaceKind::Window, .. },
            EventView::Windows(Err(message)),
        ) => failed(ErrorKind::Enumeration, message),
        (
            OperationView::Listing { kind: SurfaceKind::Monitor, .. },
            EventView::Monitors(Err(message)),
        ) => failed(ErrorKind::Enumeration, message),
        (OperationView::Grabbing { kind, id, .. }, EventView::Finished(Ok(_))) => proceed(
            OperationView::Locating { task: Task::Capture(kind, id) },
        ),
        (OperationView::Grabbing { .. }, EventView::Finished(Err(message))) => failed(
            ErrorKind::Capture,
            message,
        ),
        (OperationView::Locating { task }, EventView::DataDir(Ok(data_dir))) => after_locating(
            task,
            save_dir(data_dir),
        ),
        (OperationView::Locating { .. }, EventView::DataDir(Err(message))) => failed(
            ErrorKind::Storage,
            message,
        ),
        (OperationView::CreatingDir { task, dir }, EventView::Finished(Ok(_))) => after_creating(
            task,
            dir,
        ),
        (OperationView::Saving { path }, EventView::Finished(Ok(_))) => StepView::Done(Ok(path)),
        (OperationView::RemovingFile { path }, EventView::Finished(Ok(_))) => StepView::Done(
            Ok(path),
        ),
        (OperationView::RemovingDir { dir }, EventView::Finished(Ok(_))) => StepView::Done(
            Ok(dir),
        ),
        (OperationView::CreatingDir { .. }, EventView::Finished(Err(message))) => failed(
            ErrorKind::Storage,
            message,
        ),
        (OperationView::Saving { .. }, EventView::Finished(Err(message))) => failed(
            ErrorKind::Storage,
            message,
        ),
        (OperationView::RemovingFile { .. }, EventView::Finished(Err(message))) => failed(
            ErrorKind::Storage,
            message,
        ),
        (OperationView::RemovingDir { .. }, EventView::Finished(Err(message))) => failed(
            ErrorKind::Storage,
            message,
        ),
        _ => proceed(op),
    }
}

/// The operation `op`, going on with the work it waits for.
fn proceed_with(op: Operation) -> (r: Step)
    ensures
        r@ == proceed(op@),
{
    let action: Action = op.pending();
    Step::Continue(op, action)
}

/// The end of an operation whose step failed with `message`.
fn fail_with(kind: ErrorKind, message: String) -> (r: Step)
    ensures
        r@ == failed(kind, message@),
{
    Step::Done(Err(ScreenshotError::new(kind, message)))
}

/// What the operation does once the surface was looked up.
fn go_on_after_lookup(kind: SurfaceKind, id: u32, target: Result<usize, ScreenshotError>) -> (r:
    Step)
    ensures
        r@ == after_lookup(kind, id, target_view(target)),
{
    match target {
        Ok(index) => proceed_with(Operation::Grabbing { kind, id, index }),
        Err(e) => Step::Done(Err(e)),
    }
}

/// What the operation does once the cache root `dir` exists.
fn go_on_after_creating(task: Task, dir: String) -> (r: Step)
    ensures
        r@ == after_creating(task, dir@),
{
    match task {
        Task::Capture(kind, id) => {
            let path: String = get_save_path(dir.as_str(), kind, id);
            proceed_with(Operation::Saving { path })
        },
        Task::Remove(kind, id) => {
            let path: String = get_save_path(dir.as_str(), kind, id);
            proceed_with(Operation::RemovingFile { path })
        },
        Task::Clear => proceed_with(Operation::RemovingDir { dir }),
    }
}

impl Operation {
    /// The work that the operation waits for.
    pub fn pending(&self) -> (action: Action)
        ensures
            action@ == pending(self@),
    {
        match self {
            Operation::Listing { kind, .. } => match kind {
                SurfaceKind::Window => Action::ListWindows,
                SurfaceKind::Monitor => Action::ListMonitors,
            },
            Operation::Grabbing { index, .. } => Action::Grab(*index),
            Operation::Locating { .. } => Action::LocateDataDir,
            Operation::CreatingDir { dir, .. } => Action::CreateDir(dir.clone()),
            Operation::Saving { path } => Action::SaveImage(path.clone()),
            Operation::RemovingFile { path } => Action::RemoveFile(path.clone()),
            Operation::RemovingDir { dir } => Action::RemoveDir(dir.clone()),
        }
    }

    /// Takes the step that `event` calls for: the operation goes on with new
    /// work, or ends with the path that was written or deleted, or ends with
    /// the failure of the step that `event` reports. An event that does not
    /// answer the work that the operation waits for changes nothing.
    pub fn step(self, event: Event) -> (r: Step)
        ensures
            r@ == next(self@, event@),
    {
        match self {
            Operation::Listing { kind, id } => match kind {
                SurfaceKind::Window => match event {
                    Event::Windows(Ok(ws)) => go_on_after_lookup(kind, id, select_window(&ws, id)),
                    Event::Windows(Err(message)) => fail_with(ErrorKind::Enumeration, message),
                    _ => proceed_with(Operation::Listing { kind, id }),
                },
                SurfaceKind::Monitor => match event {
                    Event::Monitors(Ok(ms)) => go_on_after_lookup(
                        kind,
                        id,
                        select_monitor(&ms, id),
                    ),
                    Event::Monitors(Err(message)) => fail_with(ErrorKind::Enumeration, message),
                    _ => proceed_with(Operation::Listing { kind, id }),
                },
            },
            Operation::Grabbing { kind, id, index } => match event {
                Event::Finished(Ok(_)) => proceed_with(
                    Operation::Locating { task: Task::Capture(kind, id) },
                ),
                Event::Finished(Err(message)) => fail_with(ErrorKind::Capture, message),
                _ => proceed_with(Operation::Grabbing { kind, id, index }),
            },
            Operation::Locating { task } => match event {
                Event::DataDir(Ok(data_dir)) => {
                    let dir: String = get_save_dir(data_dir.as_str());
                    match task {
                        Task::Clear => proceed_with(Operation::RemovingDir { dir }),
                        _ => proceed_with(Operation::CreatingDir { task, dir }),
                    }
                },
                Event::DataDir(Err(message)) => fail_with(ErrorKind::Storage, message),
                _ => proceed_with(Operation::Locating { task }),
            },
            Operation::CreatingDir { task, dir } => match event {
                Event::Finished(Ok(_)) => go_on_after_creating(task, dir),
                Event::Finished(Err(message)) => fail_with(ErrorKind::Storage, message),
                _ => proceed_with(Operation::CreatingDir { task, dir }),
            },
            Operation::Saving { path } => match event {
                Event::Finished(Ok(_)) => Step::Done(Ok(path)),
                Event::Finished(Err(message)) => fail_with(ErrorKind::Storage, message),
                _ => proceed_with(Operation::Saving { path }),
            },
            Operation::RemovingFile { path } => match event {
                Event::Finished(Ok(_)) => Step::Done(Ok(path)),
                Event::Finished(Err(message)) => fail_with(ErrorKind::Storage, message),
                _ => proceed_with(Operation::RemovingFile { path }),
            },
            Operation::RemovingDir { dir } => match event {
                Event::Finished(Ok(_)) => Step::Done(Ok(dir)),
                Event::Finished(Err(message)) => fail_with(ErrorKind::Storage, message),
                _ => proceed_with(Operation::RemovingDir { dir }),
            },
        }
    }
}

/// The first step of an operation: a capture starts by enumerating the
/// surfaces of its kind, a removal and a clearing by asking where the cache
/// root lies.
pub open spec fn begin(task: Task) -> StepView {
    match task {
        Task::Capture(kind, id) => proceed(OperationView::Listing { kind, id }),
        _ => proceed(OperationView::Locating { task }),
    }
}

/// Begins the operation that `task` asks for.
pub fn start(task: Task) -> (r: Step)
    ensures
        r@ == begin(task),
{
    match task {
        Task::Capture(kind, id) => proceed_with(Operation::Listing { kind, id }),
        _ => proceed_with(Operation::Locating { task }),
    }
}

/// Begins the capture of the window with the id `id`. Carried through, it
/// ends with the path of the artifact.
pub fn get_window_screenshot(id: u32) -> (r: Step)
    ensures
        r@ == begin(Task::Capture(SurfaceKind::Window, id)),
{
    start(Task::Capture(SurfaceKind::Window, id))
}

/// Begins the capture of the monitor with the id `id`. Carried through, it
/// ends with the path of the artifact.
pub fn get_monitor_screenshot(id: u32) -> (r: Step)
    ensures
        r@ == begin(Task::Capture(SurfaceKind::Monitor, id)),
{
    start(Task::Capture(SurfaceKind::Monitor, id))
}

/// Begins the removal of the artifact of the window with the id `id`.
/// Whether such a window exists is not asked.
pub fn remove_window_screenshot(id: u32) -> (r: Step)
    ensures
        r@ == begin(Task::Remove(SurfaceKind::Window, id)),
{
    start(Task::Remove(SurfaceKind::Window, id))
}

/// Begins the removal of the artifact of the monitor with the id `id`.
/// Whether such a monitor exists is not asked.
pub fn remove_monitor_screenshot(id: u32) -> (r: Step)
    ensures
        r@ == begin(Task::Remove(SurfaceKind::Monitor, id)),
{
    start(Task::Remove(SurfaceKind::Monitor, id))
}

/// Begins the removal of the cache root and of every artifact in it.
pub fn clear_screenshots() -> (r: Step)
    ensures
        r@ == begin(Task::Clear),
{
    start(Task::Clear)
}

} // verus!
