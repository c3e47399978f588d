//! The surfaces that can be captured, as plain values, and the catalog that
//! is made of them.

use vstd::prelude::*;
use crate::error::{reported, ErrorKind, ScreenshotError};

verus! {

/// The two kinds of surface. Each kind has an id space of its own.
#[derive(Clone, Copy, Debug, PartialEq, Eq, Structural)]
pub enum SurfaceKind {
    Window,
    Monitor,
}

/// What the system reports of one top-level window at one moment.
#[derive(Clone, Debug, PartialEq, Eq)]
pub struct WindowInfo {
    pub id: u32,
    pub app_name: String,
    pub title: String,
    pub is_minimized: bool,
}

/// What the system reports of one monitor.
#[derive(Clone, Debug, PartialEq, Eq)]
pub struct MonitorInfo {
    pub id: u32,
    pub name: String,
}

/// A window that can be captured: its id and the name to show for it.
#[derive(Clone, Debug, PartialEq, Eq)]
pub struct ScreenshotableWindow {
    pub id: u32,
    pub name: String,
}

/// A monitor that can be captured: its id and its name.
#[derive(Clone, Debug, PartialEq, Eq)]
pub struct ScreenshotableMonitor {
    pub id: u32,
    pub name: String,
}

/// A window as contracts speak of it.
pub ghost struct WindowView {
    pub id: u32,
    pub app_name: Seq<char>,
    pub title: Seq<char>,
    pub is_minimized: bool,
}

/// A monitor, or an entry of a catalog, as contracts speak of it.
pub ghost struct NamedSurface {
    pub id: u32,
    pub name: Seq<char>,
}

impl View for WindowInfo {
    type V = WindowView;

    open spec fn view(&self) -> WindowView {
        WindowView {
            id: self.id,
            app_name: self.app_name@,
            title: self.title@,
            is_minimized: self.is_minimized,
        }
    }
}

impl View for MonitorInfo {
    type V = NamedSurface;

    open spec fn view(&self) -> NamedSurface {
        NamedSurface { id: self.id, name: self.name@ }
    }
}

impl View for ScreenshotableWindow {
    type V = NamedSurface;

    open spec fn view(&self) -> NamedSurface {
        NamedSurface { id: self.id, name: self.name@ }
    }
}

impl View for ScreenshotableMonitor {
    type V = NamedSurface;

    open spec fn view(&self) -> NamedSurface {
        NamedSurface { id: self.id, name: self.name@ }
    }
}

/// The name to show for a window: the application's name alone where the
/// title is empty or repeats it, else both with `" - "` between them.
pub open spec fn display_name(app_name: Seq<char>, title: Seq<char>) -> Seq<char> {
    if title.len() == 0 || app_name == title {
        app_name
    } else {
        app_name + " - "@ + title
    }
}

/// The catalog entry of a window.
pub open spec fn window_entry(w: WindowView) -> NamedSurface {
    NamedSurface { id: w.id, name: display_name(w.app_name, w.title) }
}

/// The windows of `ws` that can be captured: those that are not minimized.
pub open spec fn capturable(ws: Seq<WindowView>) -> Seq<WindowView> {
    ws.filter(|w: WindowView| !w.is_minimized)
}

/// The catalog of the windows `ws`: an entry for each window that is not
/// minimized, in the order of `ws`.
pub open spec fn window_catalog(ws: Seq<WindowView>) -> Seq<NamedSurface> {
    capturable(ws).map_values(|w: WindowView| window_entry(w))
}

/// The views of a sequence of values, one for one.
pub open spec fn views<T: View>(s: Seq<T>) -> Seq<T::V> {
    s.map_values(|t: T| t@)
}

/// The name to show for a window of the application `app_name` with the
/// title `title`.
pub fn window_display_name(app_name: &String, title: &String) -> (name: String)
    ensures
        name@ == display_name(app_name@, title@),
{
    let same: bool = *app_name == *title;
    if title.as_str().is_empty() || same {
        app_name.clone()
    } else {
        let mut name: String = app_name.clone();
        name.append(" - ");
        name.append(title.as_str());
        assert(name@ =~= app_name@ + " - "@ + title@);
        name
    }
}

/// The catalog of a sequence with one more window at its end.
pub proof fn lemma_window_catalog_push(ws: Seq<WindowView>, w: WindowView)
    ensures
        window_catalog(ws.push(w)) == if w.is_minimized {
            window_catalog(ws)
        } else {
            window_catalog(ws).push(window_entry(w))
        },
{
    ws.lemma_filter_push(w, |w: WindowView| !w.is_minimized);
    if !w.is_minimized {
        capturable(ws).lemma_push_map_commute(|w: WindowView| window_entry(w), w);
    }
}

/// The windows that can be captured, with the name to show for each: every
/// window of the enumeration that is not minimized, in the enumeration's
/// order. An enumeration that failed is reported with its message; one that
/// holds no window gives an empty catalog.
pub fn get_screenshotable_windows(listed: Result<Vec<WindowInfo>, String>) -> (r: Result<
    Vec<ScreenshotableWindow>,
    ScreenshotError,
>)
    ensures
        match listed {
            Ok(ws) => r is Ok && views(r->Ok_0@) == window_catalog(views(ws@)),
            Err(message) => r is Err && r->Err_0@ == reported(ErrorKind::Enumeration, message@),
        },
{
    match listed {
        Err(message) => Err(ScreenshotError::new(ErrorKind::Enumeration, message)),
        Ok(ws) => {
            let mut out: Vec<ScreenshotableWindow> = Vec::new();
            let mut i: usize = 0;
            assert(views(ws@.take(0)) =~= Seq::<WindowView>::empty());
            assert(views(out@) =~= window_catalog(Seq::<WindowView>::empty())) by {
                reveal(Seq::filter);
            }
            while i < ws.len()
                invariant
                    i <= ws.len(),
                    views(out@) == window_catalog(views(ws@.take(i as int))),
                decreases ws.len() - i,
            {
                let w: &WindowInfo = &ws[i];
                let ghost before = out@;
                if !w.is_minimized {
                    let name: String = window_display_name(&w.app_name, &w.title);
                    out.push(ScreenshotableWindow { id: w.id, name });
                    assert(views(out@) =~= views(before).push(window_entry(w@)));
                }
                proof {
                    lemma_window_catalog_push(views(ws@.take(i as int)), w@);
                    assert(views(ws@.take(i + 1)) =~= views(ws@.take(i as int)).push(w@));
                }
                i += 1;
            }
            assert(ws@.take(ws.len() as int) =~= ws@);
            Ok(out)
        },
    }
}

/// The monitors that can be captured: every monitor of the enumeration, in
/// its order, under its own name. An enumeration that failed is reported with
/// its message.
pub fn get_screenshotable_monitors(listed: Result<Vec<MonitorInfo>, String>) -> (r: Result<
    Vec<ScreenshotableMonitor>,
    ScreenshotError,
>)
    ensures
        match listed {
            Ok(ms) => r is Ok && views(r->Ok_0@) == views(ms@),
            Err(message) => r is Err && r->Err_0@ == reported(ErrorKind::Enumeration, message@),
        },
{
    match listed {
        Err(message) => Err(ScreenshotError::new(ErrorKind::Enumeration, message)),
        Ok(ms) => {
            let mut out: Vec<ScreenshotableMonitor> = Vec::new();
            let mut i: usize = 0;
            assert(views(out@) =~= views(ms@.take(0)));
            while i < ms.len()
                invariant
                    i <= ms.len(),
                    views(out@) == views(ms@.take(i as int)),
                decreases ms.len() - i,
            {
                let m: &MonitorInfo = &ms[i];
                let ghost before = out@;
                out.push(ScreenshotableMonitor { id: m.id, name: m.name.clone() });
                assert(views(out@) =~= views(before).push(m@));
                assert(views(ms@.take(i + 1)) =~= views(ms@.take(i as int)).push(m@));
                i += 1;
            }
            assert(ms@.take(ms.len() as int) =~= ms@);
            Ok(out)
        },
    }
}

/// No minimized window is among those that can be captured.
pub proof fn lemma_capturable_not_minimized(ws: Seq<WindowView>, i: int)
    requires
        0 <= i < capturable(ws).len(),
    ensures
        !capturable(ws)[i].is_minimized,
        ws.contains(capturable(ws)[i]),
        window_catalog(ws).len() == capturable(ws).len(),
        window_catalog(ws)[i] == window_entry(capturable(ws)[i]),
{
    ws.lemma_filter_pred(|w: WindowView| !w.is_minimized, i);
    assert(capturable(ws).contains(capturable(ws)[i]));
    ws.lemma_filter_contains_rev(|w: WindowView| !w.is_minimized, capturable(ws)[i]);
}

/// Every window that is not minimized is among those that can be captured,
/// and the catalog holds its entry.
pub proof fn lemma_capturable_holds_every_open_window(ws: Seq<WindowView>, j: int)
    requires
        0 <= j < ws.len(),
        !ws[j].is_minimized,
    ensures
        capturable(ws).contains(ws[j]),
        window_catalog(ws).contains(window_entry(ws[j])),
{
    ws.lemma_filter_contains(|w: WindowView| !w.is_minimized, j);
    let k = choose|k: int| 0 <= k < capturable(ws).len() && capturable(ws)[k] == ws[j];
    assert(window_catalog(ws)[k] == window_entry(ws[j]));
}

} // verus!
