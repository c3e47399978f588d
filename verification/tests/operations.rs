use tauri_plugin_screenshots::error::{ErrorKind, ScreenshotError};
use tauri_plugin_screenshots::operation::{
    clear_screenshots, get_monitor_screenshot, get_window_screenshot, remove_monitor_screenshot,
    remove_window_screenshot, start, Action, Event, Operation, Step, Task,
};
use tauri_plugin_screenshots::surface::{MonitorInfo, SurfaceKind, WindowInfo};

fn window(id: u32, is_minimized: bool) -> WindowInfo {
    WindowInfo { id, app_name: "App".to_string(), title: "Title".to_string(), is_minimized }
}

fn monitor(id: u32) -> MonitorInfo {
    MonitorInfo { id, name: "Screen".to_string() }
}

fn done() -> Event {
    Event::Finished(Ok(()))
}

fn failure(message: &str) -> Event {
    Event::Finished(Err(message.to_string()))
}

fn data_dir(dir: &str) -> Event {
    Event::DataDir(Ok(dir.to_string()))
}

/// Feeds `events` to the operation one by one and gives the work it asked
/// for along the way and where it stands after the last event.
fn carry(first: Step, events: Vec<Event>) -> (Vec<Action>, Step) {
    let mut asked = vec![];
    let mut step = first;
    for event in events {
        step = match step {
            Step::Continue(op, action) => {
                assert_eq!(op.pending(), action);
                asked.push(action);
                op.step(event)
            }
            Step::Done(result) => Step::Done(result),
        };
    }
    (asked, step)
}

#[test]
fn window_capture_starts_by_listing_windows() {
    assert_eq!(
        get_window_screenshot(5),
        Step::Continue(
            Operation::Listing { kind: SurfaceKind::Window, id: 5 },
            Action::ListWindows
        )
    );
    assert_eq!(get_window_screenshot(5), start(Task::Capture(SurfaceKind::Window, 5)));
}

#[test]
fn monitor_capture_starts_by_listing_monitors() {
    assert_eq!(
        get_monitor_screenshot(1),
        Step::Continue(
            Operation::Listing { kind: SurfaceKind::Monitor, id: 1 },
            Action::ListMonitors
        )
    );
}

#[test]
fn removal_and_clearing_start_by_locating_the_data_dir() {
    assert_eq!(
        remove_window_screenshot(3),
        Step::Continue(
            Operation::Locating { task: Task::Remove(SurfaceKind::Window, 3) },
            Action::LocateDataDir
        )
    );
    assert_eq!(
        remove_monitor_screenshot(3),
        Step::Continue(
            Operation::Locating { task: Task::Remove(SurfaceKind::Monitor, 3) },
            Action::LocateDataDir
        )
    );
    assert_eq!(
        clear_screenshots(),
        Step::Continue(Operation::Locating { task: Task::Clear }, Action::LocateDataDir)
    );
}

#[test]
fn window_capture_carried_through() {
    let listing = Event::Windows(Ok(vec![window(4, true), window(7, false)]));
    let (asked, end) = carry(
        get_window_screenshot(7),
        vec![listing, done(), data_dir("/data"), done(), done()],
    );
    assert_eq!(
        asked,
        vec![
            Action::ListWindows,
            Action::Grab(1),
            Action::LocateDataDir,
            Action::CreateDir("/data/tauri-plugin-screenshots".to_string()),
            Action::SaveImage("/data/tauri-plugin-screenshots/window-7.png".to_string()),
        ]
    );
    assert_eq!(end, Step::Done(Ok("/data/tauri-plugin-screenshots/window-7.png".to_string())));
}

#[test]
fn monitor_capture_carried_through() {
    let listing = Event::Monitors(Ok(vec![monitor(1), monitor(2)]));
    let (asked, end) = carry(
        get_monitor_screenshot(1),
        vec![listing, done(), data_dir("/data"), done(), done()],
    );
    assert_eq!(
        asked,
        vec![
            Action::ListMonitors,
            Action::Grab(0),
            Action::LocateDataDir,
            Action::CreateDir("/data/tauri-plugin-screenshots".to_string()),
            Action::SaveImage("/data/tauri-plugin-screenshots/monitor-1.png".to_string()),
        ]
    );
    assert_eq!(end, Step::Done(Ok("/data/tauri-plugin-screenshots/monitor-1.png".to_string())));
}

#[test]
fn capturing_twice_writes_to_the_same_path() {
    let run = || {
        carry(
            get_monitor_screenshot(1),
            vec![Event::Monitors(Ok(vec![monitor(1)])), done(), data_dir("d"), done(), done()],
        )
    };
    let (first_asked, first) = run();
    let (second_asked, second) = run();
    assert_eq!(first, Step::Done(Ok("d/tauri-plugin-screenshots/monitor-1.png".to_string())));
    assert_eq!(first, second);
    assert_eq!(first_asked, second_asked);
}

#[test]
fn capture_of_unknown_window_is_not_found() {
    let listing = Event::Windows(Ok(vec![window(1, false), window(2, false)]));
    let (asked, end) = carry(get_window_screenshot(999_999), vec![listing]);
    assert_eq!(asked, vec![Action::ListWindows]);
    assert_eq!(end, Step::Done(Err(ScreenshotError::not_found(SurfaceKind::Window))));
}

#[test]
fn capture_of_unknown_monitor_is_not_found() {
    let (_, end) = carry(get_monitor_screenshot(9), vec![Event::Monitors(Ok(vec![monitor(1)]))]);
    assert_eq!(end, Step::Done(Err(ScreenshotError::not_found(SurfaceKind::Monitor))));
}

#[test]
fn capture_of_minimized_window_is_unsupported() {
    let listing = Event::Windows(Ok(vec![window(1, false), window(2, true)]));
    let (asked, end) = carry(get_window_screenshot(2), vec![listing]);
    assert_eq!(asked, vec![Action::ListWindows]);
    assert_eq!(end, Step::Done(Err(ScreenshotError::minimized())));
}

#[test]
fn capture_reports_a_failed_enumeration() {
    let (_, end) =
        carry(get_window_screenshot(2), vec![Event::Windows(Err("denied".to_string()))]);
    assert_eq!(
        end,
        Step::Done(Err(ScreenshotError::new(ErrorKind::Enumeration, "denied".to_string())))
    );
    let (_, end) =
        carry(get_monitor_screenshot(2), vec![Event::Monitors(Err("denied".to_string()))]);
    assert_eq!(
        end,
        Step::Done(Err(ScreenshotError::new(ErrorKind::Enumeration, "denied".to_string())))
    );
}

#[test]
fn capture_reports_a_failed_grab() {
    let listing = Event::Windows(Ok(vec![window(2, false)]));
    let (asked, end) = carry(get_window_screenshot(2), vec![listing, failure("gone")]);
    assert_eq!(asked, vec![Action::ListWindows, Action::Grab(0)]);
    assert_eq!(
        end,
        Step::Done(Err(ScreenshotError::new(ErrorKind::Capture, "gone".to_string())))
    );
}

#[test]
fn capture_reports_storage_failures() {
    let storage =
        |message: &str| Step::Done(Err(ScreenshotError::new(ErrorKind::Storage, message.to_string())));
    let listing = || Event::Monitors(Ok(vec![monitor(2)]));
    let (_, end) = carry(
        get_monitor_screenshot(2),
        vec![listing(), done(), Event::DataDir(Err("no data dir".to_string()))],
    );
    assert_eq!(end, storage("no data dir"));
    let (_, end) = carry(
        get_monitor_screenshot(2),
        vec![listing(), done(), data_dir("d"), failure("read-only")],
    );
    assert_eq!(end, storage("read-only"));
    let (_, end) = carry(
        get_monitor_screenshot(2),
        vec![listing(), done(), data_dir("d"), done(), failure("disk full")],
    );
    assert_eq!(end, storage("disk full"));
}

#[test]
fn window_removal_carried_through() {
    let (asked, end) = carry(remove_window_screenshot(1), vec![data_dir("d"), done(), done()]);
    assert_eq!(
        asked,
        vec![
            Action::LocateDataDir,
            Action::CreateDir("d/tauri-plugin-screenshots".to_string()),
            Action::RemoveFile("d/tauri-plugin-screenshots/window-1.png".to_string()),
        ]
    );
    assert_eq!(end, Step::Done(Ok("d/tauri-plugin-screenshots/window-1.png".to_string())));
}

#[test]
fn monitor_removal_carried_through() {
    let (asked, end) = carry(remove_monitor_screenshot(12), vec![data_dir("d"), done(), done()]);
    assert_eq!(
        asked,
        vec![
            Action::LocateDataDir,
            Action::CreateDir("d/tauri-plugin-screenshots".to_string()),
            Action::RemoveFile("d/tauri-plugin-screenshots/monitor-12.png".to_string()),
        ]
    );
    assert_eq!(end, Step::Done(Ok("d/tauri-plugin-screenshots/monitor-12.png".to_string())));
}

#[test]
fn removal_of_a_missing_artifact_fails() {
    let (_, end) = carry(
        remove_window_screenshot(1),
        vec![data_dir("d"), done(), failure("No such file or directory")],
    );
    assert_eq!(
        end,
        Step::Done(Err(ScreenshotError::new(
            ErrorKind::Storage,
            "No such file or directory".to_string()
        )))
    );
}

#[test]
fn removal_then_capture_recreates_the_artifact() {
    let (_, removed) = carry(remove_window_screenshot(1), vec![data_dir("d"), done(), done()]);
    let listing = Event::Windows(Ok(vec![window(1, false)]));
    let (asked, captured) =
        carry(get_window_screenshot(1), vec![listing, done(), data_dir("d"), done(), done()]);
    assert_eq!(removed, Step::Done(Ok("d/tauri-plugin-screenshots/window-1.png".to_string())));
    assert_eq!(captured, removed);
    assert_eq!(asked[4], Action::SaveImage("d/tauri-plugin-screenshots/window-1.png".to_string()));
}

#[test]
fn clearing_carried_through() {
    let (asked, end) = carry(clear_screenshots(), vec![data_dir("d"), done()]);
    assert_eq!(
        asked,
        vec![Action::LocateDataDir, Action::RemoveDir("d/tauri-plugin-screenshots".to_string())]
    );
    assert_eq!(end, Step::Done(Ok("d/tauri-plugin-screenshots".to_string())));
}

#[test]
fn clearing_reports_a_failure() {
    let (_, end) = carry(clear_screenshots(), vec![data_dir("d"), failure("not found")]);
    assert_eq!(
        end,
        Step::Done(Err(ScreenshotError::new(ErrorKind::Storage, "not found".to_string())))
    );
}

#[test]
fn capture_after_clearing_creates_the_root_again() {
    let (_, cleared) = carry(clear_screenshots(), vec![data_dir("d"), done()]);
    assert_eq!(cleared, Step::Done(Ok("d/tauri-plugin-screenshots".to_string())));
    let listing = Event::Monitors(Ok(vec![monitor(1)]));
    let (asked, end) =
        carry(get_monitor_screenshot(1), vec![listing, done(), data_dir("d"), done(), done()]);
    assert_eq!(asked[3], Action::CreateDir("d/tauri-plugin-screenshots".to_string()));
    assert_eq!(end, Step::Done(Ok("d/tauri-plugin-screenshots/monitor-1.png".to_string())));
}

#[test]
fn an_event_that_does_not_answer_changes_nothing() {
    let listing = Operation::Listing { kind: SurfaceKind::Window, id: 1 };
    assert_eq!(
        listing.clone().step(Event::Monitors(Ok(vec![monitor(1)]))),
        Step::Continue(listing.clone(), Action::ListWindows)
    );
    assert_eq!(listing.clone().step(done()), Step::Continue(listing.clone(), Action::ListWindows));
    let grabbing = Operation::Grabbing { kind: SurfaceKind::Monitor, id: 1, index: 3 };
    assert_eq!(
        grabbing.clone().step(data_dir("d")),
        Step::Continue(grabbing.clone(), Action::Grab(3))
    );
    let locating = Operation::Locating { task: Task::Clear };
    assert_eq!(locating.clone().step(done()), Step::Continue(locating, Action::LocateDataDir));
    let saving = Operation::Saving { path: "p".to_string() };
    assert_eq!(
        saving.clone().step(Event::Windows(Ok(vec![]))),
        Step::Continue(saving, Action::SaveImage("p".to_string()))
    );
}

#[test]
fn monitor_listing_does_not_answer_a_window_capture() {
    let listing = Event::Monitors(Ok(vec![monitor(7)]));
    let (asked, end) = carry(get_window_screenshot(7), vec![listing]);
    assert_eq!(asked, vec![Action::ListWindows]);
    assert_eq!(
        end,
        Step::Continue(
            Operation::Listing { kind: SurfaceKind::Window, id: 7 },
            Action::ListWindows
        )
    );
}
