use tauri_plugin_screenshots::error::{ErrorKind, ScreenshotError};
use tauri_plugin_screenshots::select::{select_monitor, select_window};
use tauri_plugin_screenshots::surface::{MonitorInfo, SurfaceKind, WindowInfo};

fn window(id: u32, is_minimized: bool) -> WindowInfo {
    WindowInfo { id, app_name: "App".to_string(), title: "Title".to_string(), is_minimized }
}

fn monitor(id: u32) -> MonitorInfo {
    MonitorInfo { id, name: "Screen".to_string() }
}

#[test]
fn select_window_finds_the_id() {
    let ws = vec![window(4, false), window(8, true), window(15, false)];
    assert_eq!(select_window(&ws, 15), Ok(2));
    assert_eq!(select_window(&ws, 4), Ok(0));
}

#[test]
fn select_window_without_such_id_is_not_found() {
    let ws = vec![window(4, false), window(8, true)];
    let err = select_window(&ws, 999_999).unwrap_err();
    assert_eq!(err.kind, ErrorKind::NotFound);
    assert_eq!(err.message, "Window not found");
}

#[test]
fn select_window_among_no_windows_is_not_found() {
    let err = select_window(&vec![], 1).unwrap_err();
    assert_eq!(err, ScreenshotError::not_found(SurfaceKind::Window));
}

#[test]
fn select_window_that_is_minimized_is_unsupported() {
    let ws = vec![window(4, false), window(8, true)];
    let err = select_window(&ws, 8).unwrap_err();
    assert_eq!(err.kind, ErrorKind::UnsupportedState);
    assert_eq!(err.message, "Minimized windows can't take screenshots");
    assert_eq!(err, ScreenshotError::minimized());
}

#[test]
fn select_window_takes_the_first_of_equal_ids() {
    let open_first = vec![window(8, false), window(8, true)];
    assert_eq!(select_window(&open_first, 8), Ok(0));
    let minimized_first = vec![window(1, false), window(8, true), window(8, false)];
    assert_eq!(select_window(&minimized_first, 8), Err(ScreenshotError::minimized()));
}

#[test]
fn select_monitor_finds_the_id() {
    let ms = vec![monitor(3), monitor(1), monitor(1)];
    assert_eq!(select_monitor(&ms, 1), Ok(1));
    assert_eq!(select_monitor(&ms, 3), Ok(0));
}

#[test]
fn select_monitor_without_such_id_is_not_found() {
    let ms = vec![monitor(3), monitor(1)];
    let err = select_monitor(&ms, 2).unwrap_err();
    assert_eq!(err.kind, ErrorKind::NotFound);
    assert_eq!(err.message, "Monitor not found");
    assert_eq!(err, ScreenshotError::not_found(SurfaceKind::Monitor));
}

#[test]
fn error_with_a_message_keeps_it() {
    let err = ScreenshotError::new(ErrorKind::Capture, "access revoked".to_string());
    assert_eq!(err.kind(), ErrorKind::Capture);
    assert_eq!(err.to_string(), "access revoked");
}
