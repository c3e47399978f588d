//! Finding the surface that a capture is asked for in a fresh enumeration.

use vstd::prelude::*;
use crate::error::{minimized, not_found, ErrorView, ScreenshotError};
use crate::surface::{views, MonitorInfo, NamedSurface, SurfaceKind, WindowInfo, WindowView};

verus! {

/// Whether `i` is the first position of `ids` that holds `id`.
pub open spec fn is_first(ids: Seq<u32>, id: u32, i: int) -> bool {
    &&& 0 <= i < ids.len()
    &&& ids[i] == id
    &&& forall|j: int| 0 <= j < i ==> ids[j] != id
}

/// The first position of `ids` that holds `id`, if `id` occurs at all.
pub open spec fn first_index(ids: Seq<u32>, id: u32) -> Option<int> {
    if exists|i: int| is_first(ids, id, i) {
        Some(choose|i: int| is_first(ids, id, i))
    } else {
        None
    }
}

/// The ids of an enumeration of windows, in its order.
pub open spec fn window_ids(ws: Seq<WindowView>) -> Seq<u32> {
    ws.map_values(|w: WindowView| w.id)
}

/// The ids of an enumeration of monitors, in its order.
pub open spec fn monitor_ids(ms: Seq<NamedSurface>) -> Seq<u32> {
    ms.map_values(|m: NamedSurface| m.id)
}

/// The window to capture for `id`: the position in `ws` of the first window
/// with that id. There is none where no window has the id, and where that
/// window is minimized it cannot be captured.
pub open spec fn window_target(ws: Seq<WindowView>, id: u32) -> Result<int, ErrorView> {
    match first_index(window_ids(ws), id) {
        None => Err(not_found(SurfaceKind::Window)),
        Some(i) => if ws[i].is_minimized {
            Err(minimized())
        } else {
            Ok(i)
        },
    }
}

/// The monitor to capture for `id`: the position in `ms` of the first monitor
/// with that id. There is none where no monitor has the id.
pub open spec fn monitor_target(ms: Seq<NamedSurface>, id: u32) -> Result<int, ErrorView> {
    match first_index(monitor_ids(ms), id) {
        None => Err(not_found(SurfaceKind::Monitor)),
        Some(i) => Ok(i),
    }
}

/// A target as contracts speak of it.
pub open spec fn target_view(r: Result<usize, ScreenshotError>) -> Result<int, ErrorView> {
    match r {
        Ok(i) => Ok(i as int),
        Err(e) => Err(e@),
    }
}

/// The first position that holds `id` is the one that `first_index` gives.
pub proof fn lemma_target_position(ids: Seq<u32>, id: u32, i: int)
    requires
        is_first(ids, id, i),
    ensures
        first_index(ids, id) == Some(i),
{
    let k = choose|k: int| is_first(ids, id, k);
    if k < i {
        assert(ids[k] != id);
    }
    if i < k {
        assert(ids[i] != id);
    }
}

/// Where `id` does not occur, `first_index` gives no position.
pub proof fn lemma_no_target(ids: Seq<u32>, id: u32)
    requires
        forall|j: int| 0 <= j < ids.len() ==> ids[j] != id,
    ensures
        first_index(ids, id) is None,
{
    if exists|i: int| is_first(ids, id, i) {
        let k = choose|k: int| is_first(ids, id, k);
        assert(ids[k] != id);
    }
}

/// Looks `id` up in the windows `ws` of a fresh enumeration and says which of
/// them to capture: the first with that id, unless it is minimized.
pub fn select_window(ws: &Vec<WindowInfo>, id: u32) -> (r: Result<usize, ScreenshotError>)
    ensures
        target_view(r) == window_target(views(ws@), id),
        r is Ok ==> r->Ok_0 < ws.len(),
{
    let ghost ids = window_ids(views(ws@));
    let mut i: usize = 0;
    while i < ws.len()
        invariant
            i <= ws.len(),
            ids == window_ids(views(ws@)),
            forall|j: int| 0 <= j < i ==> ids[j] != id,
        decreases ws.len() - i,
    {
        if ws[i].id == id {
            proof {
                lemma_target_position(ids, id, i as int);
            }
            if ws[i].is_minimized {
                return Err(ScreenshotError::minimized());
            }
            return Ok(i);
        }
        i += 1;
    }
    proof {
        lemma_no_target(ids, id);
    }
    Err(ScreenshotError::not_found(SurfaceKind::Window))
}

/// Looks `id` up in the monitors `ms` of a fresh enumeration and says which
/// of them to capture: the first with that id.
pub fn select_monitor(ms: &Vec<MonitorInfo>, id: u32) -> (r: Result<usize, ScreenshotError>)
    ensures
        target_view(r) == monitor_target(views(ms@), id),
        r is Ok ==> r->Ok_0 < ms.len(),
{
    let ghost ids = monitor_ids(views(ms@));
    let mut i: usize = 0;
    while i < ms.len()
        invariant
            i <= ms.len(),
            ids == monitor_ids(views(ms@)),
            forall|j: int| 0 <= j < i ==> ids[j] != id,
        decreases ms.len() - i,
    {
        if ms[i].id == id {
            proof {
                lemma_target_position(ids, id, i as int);
            }
            return Ok(i);
        }
        i += 1;
    }
    proof {
        lemma_no_target(ids, id);
    }
    Err(ScreenshotError::not_found(SurfaceKind::Monitor))
}

} // verus!
