//! Restoring a window layout.
//!
//! Loading a layout alternates between running scripts and deciding what to
//! do with their output.  `LayoutLoader` holds the decisions: the caller
//! runs each action it asks for and hands back what happened, until the
//! loader is done and gives the result.
use vstd::prelude::*;
use crate::applescript::app::{
    app_script, launch_or_activate_app, launch_transition, AppLaunchError, AppLauncher, LaunchAction,
    LaunchEvent,
};
use crate::applescript::display::{
    connected_displays, display_lookup, display_view, display_views, get_all_connected_displays,
    get_display_info, DisplayInfo,
};
use crate::applescript::osascript::{run_text, ScriptOutput};
use crate::applescript::scripts::{DISPLAYS_SCRIPT, IS_RUNNING_HEAD, IS_RUNNING_TAIL};
use crate::applescript::utils::{spec_parse_window, spec_window_list, window_views};
use crate::applescript::window::{
    all_windows_script, create_new_window, create_new_window_script, get_all_windows,
    get_all_windows_script, get_window_info, get_window_info_script, new_window_script, query_text,
    resize_script, resize_window, resize_window_script, window_info_script,
};
use crate::applescript::window_menu::{
    menu_action_result, move_script, move_window_to_display_via_menu,
    move_window_to_display_via_menu_script, tile_script, tile_window_via_menu,
    tile_window_via_menu_script, DISPLAY_MENU_ITEM_NOT_FOUND_MESSAGE,
};
use crate::config::{
    coord_result, coord_value, fits_i32, is_max, is_size_max, opt_size, size_max, size_pixels,
    size_result, size_suffix, x_suffix, y_suffix, AppWindowConfig, Position, Size, layout_warnings, parse_tile_keyword,
    spec_tile_keyword, validate_layout_bounds, warning_views, DisplayConfig, LayoutFile, TileKeyword,
    ValidationWarning,
};
use crate::json::JsonValue;
use crate::saver::{saved_config, SavedEntry};
use crate::text::{concat2, contains, join, join_strings, str_eq, string_views, to_owned_string};

verus! {

/// The result of loading a layout whose windows did not all fail.
#[derive(Debug)]
pub struct LoadResult {
    /// Whether every window was placed.
    pub all_success: bool,
    pub success_count: usize,
    pub failure_count: usize,
    /// The applications of the windows that failed, each once, in the order
    /// of their first failure.
    pub failed_apps: Vec<String>,
}

/// A failure of the whole load.
#[derive(Debug)]
pub struct LoadError {
    pub message: String,
}

/// `apps` with `app` added at the end unless it is there already.
pub open spec fn add_unique(apps: Seq<Seq<char>>, app: Seq<char>) -> Seq<Seq<char>> {
    if apps.contains(app) {
        apps
    } else {
        apps.push(app)
    }
}

/// Records that a window of `app` failed.
pub fn record_failed_app(failed_apps: &mut Vec<String>, app: &str)
    ensures
        string_views(final(failed_apps)@) == add_unique(string_views(old(failed_apps)@), app@),
{
    let ghost before = string_views(failed_apps@);
    let mut i: usize = 0;
    while i < failed_apps.len()
        invariant
            i <= failed_apps@.len(),
            before == string_views(failed_apps@),
            forall|j: int| 0 <= j < i ==> before[j] != app@,
        decreases failed_apps@.len() - i,
    {
        if str_eq(failed_apps[i].as_str(), app) {
            assert(before[i as int] == app@);
            return;
        }
        i = i + 1;
    }
    assert(!before.contains(app@));
    failed_apps.push(to_owned_string(app));
    assert(string_views(failed_apps@) =~= before.push(app@));
}

/// What a load comes to, from its counts: every window placed, some placed,
/// or none placed and some failed, which fails the load.
pub open spec fn load_outcome_spec(success: int, failure: int, failed: Seq<Seq<char>>) -> Result<bool, Seq<char>> {
    if failure == 0 {
        Ok(true)
    } else if success > 0 {
        Ok(false)
    } else {
        Err("すべてのウィンドウ配置に失敗しました。失敗したアプリ: "@ + join(failed, ", "@))
    }
}

/// The result of a load from its counts and failed applications.
pub fn load_outcome(success_count: usize, failure_count: usize, failed_apps: Vec<String>) -> (r: Result<LoadResult, LoadError>)
    ensures
        match load_outcome_spec(success_count as int, failure_count as int, string_views(failed_apps@)) {
            Ok(all) => r matches Ok(res) && res.all_success == all && res.success_count == success_count
                && res.failure_count == failure_count && res.failed_apps@ == failed_apps@,
            Err(m) => r matches Err(e) && e.message@ == m,
        },
{
    if failure_count == 0 {
        Ok(LoadResult { all_success: true, success_count, failure_count, failed_apps })
    } else if success_count > 0 {
        Ok(LoadResult { all_success: false, success_count, failure_count, failed_apps })
    } else {
        let list = join_strings(&failed_apps, ", ");
        Err(LoadError { message: concat2("すべてのウィンドウ配置に失敗しました。失敗したアプリ: ", list.as_str()) })
    }
}

// ---------------------------------------------------------------------------
// Where a window goes
// ---------------------------------------------------------------------------

/// Whether placing the window needs its current position or size: some
/// field of its position or size is unset.
pub open spec fn needs_current(w: AppWindowConfig) -> bool {
    ||| (w.position matches Some(p) && (p.x is Null || p.y is Null))
    ||| (w.size matches Some(s) && (s.width is Null || s.height is Null))
}

/// Where a window goes, as absolute position and size, or `None` when
/// there is nothing to do.
pub type Placement = Option<(Option<(i32, i32)>, Option<(i32, i32)>)>;

/// A window's current position (in screen space) and size.
pub type Geometry = ((i32, i32), (i32, i32));

pub open spec fn position_out_of_range() -> Seq<char> {
    "位置計算失敗: 座標が範囲外です"@
}

pub open spec fn size_out_of_range() -> Seq<char> {
    "サイズ計算失敗: サイズが範囲外です"@
}

/// One side of a window's size in pixels on a display side `d` long: the
/// current side when the layout leaves it unset; a `"max"` height leaves
/// room for the menu bar; otherwise as the layout value says.
pub open spec fn size_side(v: JsonValue, field: Seq<char>, d: int, current: int, is_height: bool) -> Result<int, Seq<char>> {
    if v is Null {
        Ok(current)
    } else if is_height && v.is_str("max"@) {
        Ok(d - 25)
    } else {
        size_result(v, field, " "@, d, size_suffix())
    }
}

/// A window's size in pixels on display `d`: the width first; a side that
/// the layout sets must come out positive, an unset side is the current one
/// as it is.
pub open spec fn placed_size(s: Size, d: DisplayInfo, current: (i32, i32)) -> Result<(int, int), Seq<char>> {
    match size_side(s.width, "width"@, d.width as int, current.0 as int, false) {
        Err(m) => Err(m),
        Ok(w) => match size_side(s.height, "height"@, d.height as int, current.1 as int, true) {
            Err(m) => Err(m),
            Ok(h) => if (!(s.width is Null) && w <= 0) || (!(s.height is Null) && h <= 0) {
                Err("ウィンドウサイズは正の値である必要があります"@)
            } else {
                Ok((w, h))
            },
        },
    }
}

/// One coordinate of a window in screen space: the display's edge when the
/// size spans the display on that axis; the current coordinate when the
/// layout leaves it unset; otherwise as the layout value says, moved by the
/// display's origin.
pub open spec fn coord_side(v: JsonValue, spans: bool, field: Seq<char>, near: Seq<char>, far: Seq<char>, near_value: int, far_value: int, suffix: Seq<char>, origin: int, current: int) -> Result<int, Seq<char>> {
    if spans {
        Ok(origin)
    } else if v is Null {
        Ok(current)
    } else {
        match coord_result(v, field, near, far, near_value, far_value, suffix) {
            Err(m) => Err(m),
            Ok(c) => Ok(c + origin),
        }
    }
}

/// Where a window of the given size goes in screen space on display `d`:
/// `x` first, then `y`.
pub open spec fn placed_position(p: Position, s: Option<Size>, d: DisplayInfo, ww: int, wh: int, current: (i32, i32)) -> Result<(int, int), Seq<char>> {
    let (wmax, hmax) = size_max(s);
    match coord_side(p.x, wmax, "x"@, "left"@, "right"@, 0, d.width - ww, x_suffix(), d.origin_x as int, current.0 as int) {
        Err(m) => Err(m),
        Ok(x) => match coord_side(p.y, hmax, "y"@, "top"@, "bottom"@, 25, d.height - wh, y_suffix(), d.origin_y as int, current.1 as int) {
            Err(m) => Err(m),
            Ok(y) => Ok((x, y)),
        },
    }
}

/// The position in screen space, or why there is none.
pub open spec fn absolute_position(p: Position, s: Option<Size>, d: DisplayInfo, ww: int, wh: int, current: (i32, i32)) -> Result<(i32, i32), Seq<char>> {
    match placed_position(p, s, d, ww, wh, current) {
        Err(m) => Err("位置計算失敗: "@ + m),
        Ok((x, y)) => if fits_i32(x) && fits_i32(y) {
            Ok((x as i32, y as i32))
        } else {
            Err(position_out_of_range())
        },
    }
}

/// The pixels of a position and size on display `d`, unset sides taken
/// from the current geometry: the size first; the position is computed for
/// that size, or for the display's size when no size is given.
pub open spec fn pixel_placement(p: Option<Position>, s: Option<Size>, d: DisplayInfo, current: Geometry) -> Result<Placement, Seq<char>> {
    match s {
        Some(s) => match placed_size(s, d, current.1) {
            Err(m) => Err("サイズ計算失敗: "@ + m),
            Ok((w, h)) => if !(fits_i32(w) && fits_i32(h)) {
                Err(size_out_of_range())
            } else {
                match p {
                    None => Ok(Some((None, Some((w as i32, h as i32))))),
                    Some(p) => match absolute_position(p, Some(s), d, w, h, current.0) {
                        Err(m) => Err(m),
                        Ok(xy) => Ok(Some((Some(xy), Some((w as i32, h as i32))))),
                    },
                }
            },
        },
        None => match p {
            None => Ok(None),
            Some(p) => match absolute_position(p, None, d, d.width as int, d.height as int, current.0) {
                Err(m) => Err(m),
                Ok(xy) => Ok(Some((Some(xy), None))),
            },
        },
    }
}

/// Where a window goes on display `d`, given its current geometry when
/// known.  Nothing is done when the layout leaves a side unset and the
/// current geometry is unknown.
pub open spec fn placement_result(w: AppWindowConfig, d: DisplayInfo, current: Option<Geometry>) -> Result<Placement, Seq<char>> {
    if needs_current(w) && current is None {
        Ok(None)
    } else {
        let g = match current {
            Some(g) => g,
            None => ((0i32, 0i32), (0i32, 0i32)),
        };
        pixel_placement(w.position, w.size, d, g)
    }
}

fn size_side_of(v: &JsonValue, field: &str, d: i32, current: i32, is_height: bool) -> (r: Result<i64, String>)
    ensures
        match size_side(*v, field@, d as int, current as int, is_height) {
            Ok(x) => r == Ok::<i64, String>(x as i64),
            Err(m) => r matches Err(e) && e@ == m,
        },
{
    if v.is_null() {
        return Ok(current as i64);
    }
    if is_height && is_max(v) {
        return Ok(d as i64 - 25);
    }
    match size_pixels(v, field, " ", d, " (half, third, max を指定)") {
        Ok(x) => Ok(x as i64),
        Err(e) => Err(e.message),
    }
}

fn placed_size_of(s: &Size, d: &DisplayInfo, current: (i32, i32)) -> (r: Result<(i64, i64), String>)
    ensures
        match placed_size(*s, *d, current) {
            Ok((w, h)) => r == Ok::<(i64, i64), String>((w as i64, h as i64)),
            Err(m) => r matches Err(e) && e@ == m,
        },
{
    let w = size_side_of(&s.width, "width", d.width, current.0, false)?;
    let h = size_side_of(&s.height, "height", d.height, current.1, true)?;
    if (!s.width.is_null() && w <= 0) || (!s.height.is_null() && h <= 0) {
        return Err(to_owned_string("ウィンドウサイズは正の値である必要があります"));
    }
    Ok((w, h))
}

fn coord_side_of(v: &JsonValue, spans: bool, field: &str, near: &str, far: &str, near_value: i64, display: i64, window: i64, suffix: &str, origin: i64, current: i32) -> (r: Result<i64, String>)
    requires
        i32::MIN <= display <= i32::MAX,
        i32::MIN <= window <= i32::MAX,
        i32::MIN <= origin <= i32::MAX,
        0 <= near_value <= 25,
    ensures
        match coord_side(*v, spans, field@, near@, far@, near_value as int, display - window, suffix@, origin as int, current as int) {
            Ok(x) => r == Ok::<i64, String>(x as i64),
            Err(m) => r matches Err(e) && e@ == m,
        },
{
    if spans {
        return Ok(origin);
    }
    if v.is_null() {
        return Ok(current as i64);
    }
    match coord_value(v, field, near, far, near_value, display, window, suffix) {
        Ok(c) => Ok(c + origin),
        Err(e) => Err(e.message),
    }
}

fn absolute_position_of(p: &Position, s: Option<&Size>, d: &DisplayInfo, ww: i64, wh: i64, current: (i32, i32)) -> (r: Result<(i32, i32), String>)
    requires
        i32::MIN <= ww <= i32::MAX,
        i32::MIN <= wh <= i32::MAX,
    ensures
        match absolute_position(*p, opt_size(s), *d, ww as int, wh as int, current) {
            Ok(xy) => r == Ok::<(i32, i32), String>(xy),
            Err(m) => r matches Err(e) && e@ == m,
        },
{
    let (wmax, hmax) = is_size_max(s);
    let x = match coord_side_of(&p.x, wmax, "x", "left", "right", 0, d.width as i64, ww, " (left, right を指定)", d.origin_x as i64, current.0) {
        Ok(x) => x,
        Err(m) => {
            return Err(concat2("位置計算失敗: ", m.as_str()));
        },
    };
    let y = match coord_side_of(&p.y, hmax, "y", "top", "bottom", 25, d.height as i64, wh, " (top, bottom を指定)", d.origin_y as i64, current.1) {
        Ok(y) => y,
        Err(m) => {
            return Err(concat2("位置計算失敗: ", m.as_str()));
        },
    };
    if x < i32::MIN as i64 || x > i32::MAX as i64 || y < i32::MIN as i64 || y > i32::MAX as i64 {
        Err(to_owned_string("位置計算失敗: 座標が範囲外です"))
    } else {
        Ok((x as i32, y as i32))
    }
}

fn pixel_placement_of(p: Option<&Position>, s: Option<&Size>, d: &DisplayInfo, current: Geometry) -> (r: Result<Placement, String>)
    ensures
        match pixel_placement(
            match p { Some(p) => Some(*p), None => None },
            opt_size(s),
            *d,
            current,
        ) {
            Ok(pl) => r == Ok::<Placement, String>(pl),
            Err(m) => r matches Err(e) && e@ == m,
        },
{
    match s {
        Some(s) => {
            let (w, h) = match placed_size_of(s, d, current.1) {
                Err(m) => {
                    return Err(concat2("サイズ計算失敗: ", m.as_str()));
                },
                Ok(wh) => wh,
            };
            if w < i32::MIN as i64 || w > i32::MAX as i64 || h < i32::MIN as i64 || h > i32::MAX as i64 {
                return Err(to_owned_string("サイズ計算失敗: サイズが範囲外です"));
            }
            match p {
                None => Ok(Some((None, Some((w as i32, h as i32))))),
                Some(p) => {
                    let xy = absolute_position_of(p, Some(s), d, w, h, current.0)?;
                    Ok(Some((Some(xy), Some((w as i32, h as i32)))))
                },
            }
        },
        None => match p {
            None => Ok(None),
            Some(p) => {
                let xy = absolute_position_of(p, None, d, d.width as i64, d.height as i64, current.0)?;
                Ok(Some((Some(xy), None)))
            },
        },
    }
}

/// Whether placing `window` needs its current position or size.
pub fn window_needs_current(window: &AppWindowConfig) -> (r: bool)
    ensures
        r == needs_current(*window),
{
    let p = match &window.position {
        Some(p) => p.x.is_null() || p.y.is_null(),
        None => false,
    };
    let s = match &window.size {
        Some(s) => s.width.is_null() || s.height.is_null(),
        None => false,
    };
    p || s
}

/// Where `window` goes on `display`: a side that the layout leaves unset
/// keeps the window's current one (`current`, in screen space); `Ok(None)`
/// when there is nothing to do, including when a side is unset and the
/// current geometry is unknown.
pub fn window_placement(window: &AppWindowConfig, display: &DisplayInfo, current: Option<Geometry>) -> (r: Result<Placement, String>)
    ensures
        match placement_result(*window, *display, current) {
            Ok(pl) => r == Ok::<Placement, String>(pl),
            Err(m) => r matches Err(e) && e@ == m,
        },
{
    if window_needs_current(window) && current.is_none() {
        return Ok(None);
    }
    let g: Geometry = match current {
        Some(g) => g,
        None => ((0i32, 0i32), (0i32, 0i32)),
    };
    pixel_placement_of(window.position.as_ref(), window.size.as_ref(), display, g)
}

// ---------------------------------------------------------------------------
// The load, one script at a time
// ---------------------------------------------------------------------------

/// Where the placing of one window stands.
#[derive(Debug)]
pub enum WindowStage {
    /// Launching or activating its application.
    Launching(AppLauncher),
    /// Waiting for the list of the application's windows.
    ListingWindows,
    /// Waiting for a new window to be opened.
    CreatingWindow,
    /// Giving the new window time to appear.
    WaitingForNewWindow,
    /// Waiting for the move to the layout's display, before tiling.
    MovingToDisplay(TileKeyword),
    /// Waiting for the tiling menu item to be clicked.
    Tiling(TileKeyword),
    /// Waiting for the window's current position and size.
    ReadingCurrent,
    /// Waiting for the move and resize.
    Resizing(Option<(i32, i32)>, Option<(i32, i32)>),
}

/// Where a load stands.
#[derive(Debug)]
pub enum LoadStage {
    /// Waiting for the list of connected displays.
    ReadingDisplays,
    /// Waiting for the information of the display at `display_index`.
    ReadingDisplay,
    /// Placing the window at `window_index` of that display.
    Placing(WindowStage),
    /// Done.
    Finished,
}

/// What the caller does next for a load.
#[derive(Debug)]
pub enum LoadAction {
    /// Run this AppleScript and report the output.
    Run(String),
    /// Run this JavaScript for Automation script and report the output.
    RunJavaScript(String),
    /// Sleep this many milliseconds and report it.
    Sleep(u64),
    /// The load is over with this result.
    Done(Result<LoadResult, LoadError>),
}

/// The state of a load: the layout, where in it the load is, and the
/// counts so far.
#[derive(Debug)]
pub struct LayoutLoader {
    pub layout: LayoutFile,
    pub timeout_ms: u64,
    pub warnings: Vec<ValidationWarning>,
    pub display_index: usize,
    pub window_index: usize,
    pub display: Option<DisplayInfo>,
    pub success_count: usize,
    pub failure_count: usize,
    pub failed_apps: Vec<String>,
    pub stage: LoadStage,
}

/// The displays of the first layout of a file.
pub open spec fn first_displays(layout: LayoutFile) -> Seq<DisplayConfig> {
    if layout.layouts@.len() > 0 {
        layout.layouts@[0].displays@
    } else {
        Seq::empty()
    }
}

/// The number of windows of the first `n` displays.
pub open spec fn windows_upto(dcs: Seq<DisplayConfig>, n: int) -> int
    decreases n,
{
    if n <= 0 {
        0
    } else {
        windows_upto(dcs, n - 1) + dcs[n - 1].windows@.len()
    }
}

/// The number of windows of the first layout.
pub open spec fn window_count(layout: LayoutFile) -> int {
    windows_upto(first_displays(layout), first_displays(layout).len() as int)
}

proof fn lemma_windows_upto_mono(dcs: Seq<DisplayConfig>, n: int, m: int)
    requires
        0 <= n <= m <= dcs.len(),
    ensures
        windows_upto(dcs, n) <= windows_upto(dcs, m),
    decreases m - n,
{
    if n < m {
        lemma_windows_upto_mono(dcs, n, m - 1);
    }
}

/// Whether the bounds check warned about `app` on `display`.
pub open spec fn warned(warnings: Seq<ValidationWarning>, display: Seq<char>, app: Seq<char>) -> bool {
    exists|i: int| #![trigger warnings[i]] 0 <= i < warnings.len() && warnings[i].display_name@ == display && warnings[i].app_name@ == app
}

fn is_warned(warnings: &[ValidationWarning], display: &str, app: &str) -> (r: bool)
    ensures
        r == warned(warnings@, display@, app@),
{
    let mut i: usize = 0;
    while i < warnings.len()
        invariant
            i <= warnings@.len(),
            forall|j: int| 0 <= j < i ==> !(warnings@[j].display_name@ == display@ && warnings@[j].app_name@ == app@),
        decreases warnings@.len() - i,
    {
        if str_eq(warnings[i].display_name.as_str(), display) && str_eq(warnings[i].app_name.as_str(), app) {
            return true;
        }
        i = i + 1;
    }
    false
}

/// The first window at or after `w` that the bounds check did not warn about.
pub open spec fn first_unwarned(ws: Seq<AppWindowConfig>, warnings: Seq<ValidationWarning>, display: Seq<char>, w: int) -> int
    decreases ws.len() - w,
{
    if 0 <= w < ws.len() && warned(warnings, display, ws[w].app@) {
        first_unwarned(ws, warnings, display, w + 1)
    } else {
        w
    }
}

proof fn lemma_first_unwarned(ws: Seq<AppWindowConfig>, warnings: Seq<ValidationWarning>, display: Seq<char>, w: int)
    requires
        0 <= w <= ws.len(),
    ensures
        w <= first_unwarned(ws, warnings, display, w) <= ws.len(),
        forall|j: int| w <= j < first_unwarned(ws, warnings, display, w) ==> warned(warnings, display, #[trigger] ws[j].app@),
        first_unwarned(ws, warnings, display, w) < ws.len() ==> !warned(warnings, display, ws[first_unwarned(ws, warnings, display, w)].app@),
    decreases ws.len() - w,
{
    if w < ws.len() && warned(warnings, display, ws[w].app@) {
        lemma_first_unwarned(ws, warnings, display, w + 1);
    }
}

/// `failed` with the applications of the windows `w` up to `end` added.
pub open spec fn failed_between(ws: Seq<AppWindowConfig>, failed: Seq<Seq<char>>, w: int, end: int) -> Seq<Seq<char>>
    decreases end - w,
{
    if w < end {
        failed_between(ws, add_unique(failed, ws[w].app@), w + 1, end)
    } else {
        failed
    }
}

proof fn lemma_add_unique_no_duplicates(apps: Seq<Seq<char>>, app: Seq<char>)
    requires
        apps.no_duplicates(),
    ensures
        add_unique(apps, app).no_duplicates(),
{
    if !apps.contains(app) {
        assert forall|i: int, j: int| 0 <= i < apps.push(app).len() && 0 <= j < apps.push(app).len() && i != j
            implies apps.push(app)[i] != apps.push(app)[j] by {
            if i < apps.len() && j < apps.len() {
            } else if i < apps.len() {
                assert(apps.push(app)[i] == apps[i]);
            } else {
                assert(apps.push(app)[j] == apps[j]);
            }
        }
    }
}

/// The counts of `new` are at least those of `old`, and a result that
/// `action` gives lists each failed application once.
pub open spec fn progressed(old: LayoutLoader, new: LayoutLoader, action: LoadAction) -> bool {
    &&& new.success_count >= old.success_count
    &&& new.failure_count >= old.failure_count
    &&& (action matches LoadAction::Done(Ok(r)) ==> string_views(r.failed_apps@).no_duplicates())
}

/// Whether a load result is what the counts say.
pub open spec fn outcome_matches(res: Result<LoadResult, LoadError>, success: int, failure: int, failed: Seq<Seq<char>>) -> bool {
    match load_outcome_spec(success, failure, failed) {
        Ok(all) => res matches Ok(r) && r.all_success == all && r.success_count == success
            && r.failure_count == failure && string_views(r.failed_apps@) == failed,
        Err(m) => res matches Err(e) && e.message@ == m,
    }
}

/// Whether the window list query found a window.
pub open spec fn listed_some(run: Result<ScriptOutput, AppLaunchError>) -> bool {
    match query_text(run, "ウィンドウ一覧の取得に失敗しました: "@) {
        Err(_) => false,
        Ok(t) => spec_window_list(t).len() > 0,
    }
}

/// Whether the window is on the layout's display after the move: it moved,
/// or it was there already.
pub open spec fn on_display(run: Result<ScriptOutput, AppLaunchError>) -> bool {
    match menu_action_result(run, "ディスプレイ移動メニュー操作に失敗しました"@) {
        Ok(()) => true,
        Err(m) => contains(m, DISPLAY_MENU_ITEM_NOT_FOUND_MESSAGE@),
    }
}

/// The position and size that the window query reported, if it did.
pub open spec fn current_geometry(run: Result<ScriptOutput, AppLaunchError>) -> Option<Geometry> {
    match query_text(run, "ウィンドウ情報の取得に失敗しました: "@) {
        Err(_) => None,
        Ok(t) => match spec_parse_window(t) {
            Ok(v) => Some((v.1, v.2)),
            Err(_) => None,
        },
    }
}

/// Whether the move and resize succeeded.
pub open spec fn resized(run: Result<ScriptOutput, AppLaunchError>) -> bool {
    match run_text(run, "ウィンドウのリサイズに失敗しました: "@) {
        Err(_) => false,
        Ok(t) => !contains(t, "error"@),
    }
}

impl LayoutLoader {
    /// The displays of the layout being loaded.
    pub open spec fn dcs(self) -> Seq<DisplayConfig> {
        first_displays(self.layout)
    }

    /// The windows of the display at `d`.
    pub open spec fn windows_at(self, d: int) -> Seq<AppWindowConfig> {
        self.dcs()[d].windows@
    }

    /// The window being placed.
    pub open spec fn current_window(self) -> AppWindowConfig {
        self.windows_at(self.display_index as int)[self.window_index as int]
    }

    /// The invariant of a load.
    pub open spec fn wf(self) -> bool {
        &&& window_count(self.layout) <= usize::MAX
        &&& string_views(self.failed_apps@).no_duplicates()
        &&& match self.stage {
            LoadStage::ReadingDisplays => self.success_count == 0 && self.failure_count == 0 && self.failed_apps@.len() == 0,
            LoadStage::ReadingDisplay => {
                &&& self.layout.layouts@.len() > 0
                &&& self.display_index < self.dcs().len()
                &&& self.success_count + self.failure_count <= windows_upto(self.dcs(), self.display_index as int)
            },
            LoadStage::Placing(ws) => {
                &&& self.layout.layouts@.len() > 0
                &&& self.display_index < self.dcs().len()
                &&& self.window_index < self.windows_at(self.display_index as int).len()
                &&& self.display is Some
                &&& self.success_count + self.failure_count <= windows_upto(self.dcs(), self.display_index as int) + self.window_index
                &&& !warned(self.warnings@, self.dcs()[self.display_index as int].name@, self.current_window().app@)
                &&& (ws matches WindowStage::Launching(l) ==> {
                    &&& l.app_name@ == self.current_window().app@
                    &&& l.timeout_ms == self.timeout_ms
                    &&& !(l.stage is Finished)
                })
            },
            LoadStage::Finished => true,
        }
    }

    /// Whether `event` answers the action of the current stage.
    pub open spec fn expects(self, event: LaunchEvent) -> bool {
        match self.stage {
            LoadStage::Placing(WindowStage::Launching(l)) => l.expects(event),
            LoadStage::Placing(WindowStage::WaitingForNewWindow) => event is Slept,
            LoadStage::Finished => false,
            _ => event is Ran,
        }
    }

    /// `new` keeps the layout, the timeout and the warnings.
    pub open spec fn kept(self, new: LayoutLoader) -> bool {
        &&& new.layout == self.layout
        &&& new.timeout_ms == self.timeout_ms
        &&& new.warnings == self.warnings
    }

    /// `new` is at the same window with the same counts.
    pub open spec fn unmoved(self, new: LayoutLoader) -> bool {
        &&& self.kept(new)
        &&& new.display_index == self.display_index
        &&& new.window_index == self.window_index
        &&& new.display == self.display
        &&& new.success_count == self.success_count
        &&& new.failure_count == self.failure_count
        &&& new.failed_apps == self.failed_apps
    }

    /// After display `d`: the next display's information is asked for, or,
    /// after the last display, the load is over with the result of the counts.
    pub open spec fn next_display(self, new: LayoutLoader, action: LoadAction, d: int, success: int, failure: int, failed: Seq<Seq<char>>) -> bool {
        if d + 1 < self.dcs().len() {
            &&& new.display_index == d + 1
            &&& new.stage is ReadingDisplay
            &&& new.success_count == success
            &&& new.failure_count == failure
            &&& string_views(new.failed_apps@) == failed
            &&& action matches LoadAction::RunJavaScript(x) && x@ == DISPLAYS_SCRIPT@
        } else {
            &&& new.stage is Finished
            &&& new.success_count == success
            &&& new.failure_count == failure
            &&& action matches LoadAction::Done(res) && outcome_matches(res, success, failure, failed)
        }
    }

    /// From window `w` of display `d` on: the windows that were warned about
    /// fail without a script, and the first other window is launched; when
    /// there is none, the load goes on with the next display.
    pub open spec fn moved_on(self, new: LayoutLoader, action: LoadAction, d: int, w: int, success: int, failure: int, failed: Seq<Seq<char>>, display: Option<DisplayInfo>) -> bool {
        let ws = self.windows_at(d);
        let w2 = first_unwarned(ws, self.warnings@, self.dcs()[d].name@, w);
        let failure2 = failure + (w2 - w);
        let failed2 = failed_between(ws, failed, w, w2);
        if w2 < ws.len() {
            &&& new.display_index == d
            &&& new.window_index == w2
            &&& new.display == display
            &&& new.success_count == success
            &&& new.failure_count == failure2
            &&& string_views(new.failed_apps@) == failed2
            &&& new.stage matches LoadStage::Placing(WindowStage::Launching(l)) && l.app_name@ == ws[w2].app@
                && l.timeout_ms == self.timeout_ms && l.stage is CheckRunning
            &&& action matches LoadAction::Run(x) && x@ == app_script(IS_RUNNING_HEAD@, ws[w2].app@, IS_RUNNING_TAIL@)
        } else {
            self.next_display(new, action, d, success, failure2, failed2)
        }
    }

    /// The current window is done, placed or failed; the load moves on.
    pub open spec fn window_done(self, new: LayoutLoader, action: LoadAction, placed: bool) -> bool {
        &&& self.kept(new)
        &&& self.moved_on(
            new,
            action,
            self.display_index as int,
            self.window_index + 1,
            self.success_count + if placed { 1int } else { 0int },
            self.failure_count + if placed { 0int } else { 1int },
            if placed { string_views(self.failed_apps@) } else { add_unique(string_views(self.failed_apps@), self.current_window().app@) },
            self.display,
        )
    }

    /// The current window is placed as its layout and its current geometry say.
    pub open spec fn placed_at(self, new: LayoutLoader, action: LoadAction, current: Option<Geometry>) -> bool {
        match placement_result(self.current_window(), self.display.unwrap(), current) {
            Err(_) => self.window_done(new, action, false),
            Ok(None) => self.window_done(new, action, true),
            Ok(Some((p, sz))) => {
                &&& self.unmoved(new)
                &&& new.stage == LoadStage::Placing(WindowStage::Resizing(p, sz))
                &&& action matches LoadAction::Run(x) && x@ == resize_script(self.current_window().app@, None, p, sz)
            },
        }
    }

    /// The application has a window: tile it, or read its current geometry
    /// when the layout leaves fields unset, or place it.
    pub open spec fn window_ready(self, new: LayoutLoader, action: LoadAction) -> bool {
        let w = self.current_window();
        match w.tiling {
            Some(t) => match spec_tile_keyword(t@) {
                Some(k) => {
                    &&& self.unmoved(new)
                    &&& new.stage == LoadStage::Placing(WindowStage::MovingToDisplay(k))
                    &&& action matches LoadAction::Run(x) && x@ == move_script(w.app@, self.display.unwrap().name@)
                },
                None => self.window_done(new, action, false),
            },
            None => if needs_current(w) {
                &&& self.unmoved(new)
                &&& new.stage == LoadStage::Placing(WindowStage::ReadingCurrent)
                &&& action matches LoadAction::Run(x) && x@ == window_info_script(w.app@, None)
            } else {
                self.placed_at(new, action, None)
            },
        }
    }

    /// The displays are known: the first layout is checked against them and
    /// its first display is asked for.
    pub open spec fn displays_read(self, new: LayoutLoader, action: LoadAction, run: Result<ScriptOutput, AppLaunchError>) -> bool {
        match connected_displays(run) {
            Err(m) => new.stage is Finished && (action matches LoadAction::Done(Err(e))
                && e.message@ == "ディスプレイ情報の取得に失敗しました: "@ + m),
            Ok(ds) => if self.layout.layouts@.len() == 0 {
                new.stage is Finished && (action matches LoadAction::Done(Err(e))
                    && e.message@ == "設定ファイルの検証に失敗しました: "@ + "レイアウトが定義されていません"@)
            } else {
                &&& exists|v: Seq<DisplayInfo>| #[trigger] display_views(v) == ds
                    && warning_views(new.warnings@) == layout_warnings(self.dcs(), v)
                &&& new.success_count == 0 && new.failure_count == 0 && new.failed_apps@.len() == 0
                &&& if self.dcs().len() == 0 {
                    new.stage is Finished && (action matches LoadAction::Done(res) && outcome_matches(res, 0, 0, Seq::empty()))
                } else {
                    new.display_index == 0 && new.stage is ReadingDisplay
                        && (action matches LoadAction::RunJavaScript(x) && x@ == DISPLAYS_SCRIPT@)
                }
            },
        }
    }

    /// One step of a load: how `new` and `action` follow from `self` and
    /// `event`.
    pub open spec fn transition(self, event: LaunchEvent, new: LayoutLoader, action: LoadAction) -> bool {
        &&& new.layout == self.layout
        &&& new.timeout_ms == self.timeout_ms
        &&& match (self.stage, event) {
            (LoadStage::ReadingDisplays, LaunchEvent::Ran(run)) => self.displays_read(new, action, run),
            (LoadStage::ReadingDisplay, LaunchEvent::Ran(run)) => {
                &&& new.warnings == self.warnings
                &&& match display_lookup(run, Some(self.dcs()[self.display_index as int].name@)) {
                    Err(_) => self.next_display(new, action, self.display_index as int, self.success_count as int,
                        self.failure_count as int, string_views(self.failed_apps@)),
                    Ok(dv) => exists|di: DisplayInfo| #[trigger] display_view(di) == dv && self.moved_on(new, action,
                        self.display_index as int, 0, self.success_count as int, self.failure_count as int,
                        string_views(self.failed_apps@), Some(di)),
                }
            },
            (LoadStage::Placing(WindowStage::Launching(l)), ev) => exists|l2: AppLauncher, la: LaunchAction|
                #[trigger] launch_transition(l, ev, l2, la) && match la {
                    LaunchAction::Run(x) => self.unmoved(new) && new.stage == LoadStage::Placing(WindowStage::Launching(l2))
                        && action == LoadAction::Run(x),
                    LaunchAction::Sleep(t) => self.unmoved(new) && new.stage == LoadStage::Placing(WindowStage::Launching(l2))
                        && action == LoadAction::Sleep(t),
                    LaunchAction::Done(Ok(_)) => self.unmoved(new) && new.stage == LoadStage::Placing(WindowStage::ListingWindows)
                        && (action matches LoadAction::Run(x) && x@ == all_windows_script(self.current_window().app@)),
                    LaunchAction::Done(Err(_)) => self.window_done(new, action, false),
                },
            (LoadStage::Placing(WindowStage::ListingWindows), LaunchEvent::Ran(run)) => if listed_some(run) {
                self.window_ready(new, action)
            } else {
                self.unmoved(new) && new.stage == LoadStage::Placing(WindowStage::CreatingWindow)
                    && (action matches LoadAction::Run(x) && x@ == new_window_script(self.current_window().app@))
            },
            (LoadStage::Placing(WindowStage::CreatingWindow), LaunchEvent::Ran(run)) => match query_text(run, "新規ウィンドウ作成に失敗しました: "@) {
                Err(_) => self.window_done(new, action, false),
                Ok(_) => self.unmoved(new) && new.stage == LoadStage::Placing(WindowStage::WaitingForNewWindow)
                    && action == LoadAction::Sleep(500),
            },
            (LoadStage::Placing(WindowStage::WaitingForNewWindow), LaunchEvent::Slept) => self.window_ready(new, action),
            (LoadStage::Placing(WindowStage::MovingToDisplay(k)), LaunchEvent::Ran(run)) => if on_display(run) {
                self.unmoved(new) && new.stage == LoadStage::Placing(WindowStage::Tiling(k))
                    && (action matches LoadAction::Run(x) && x@ == tile_script(self.current_window().app@, k))
            } else {
                self.window_done(new, action, false)
            },
            (LoadStage::Placing(WindowStage::Tiling(k)), LaunchEvent::Ran(run)) =>
                self.window_done(new, action, menu_action_result(run, "OS標準タイリング操作に失敗しました"@) is Ok),
            (LoadStage::Placing(WindowStage::ReadingCurrent), LaunchEvent::Ran(run)) => self.placed_at(new, action, current_geometry(run)),
            (LoadStage::Placing(WindowStage::Resizing(_, _)), LaunchEvent::Ran(run)) => self.window_done(new, action, resized(run)),
            _ => false,
        }
    }

    /// Moves on to the next display, or ends the load after the last one.
    fn go_to_next_display(&mut self) -> (action: LoadAction)
        requires
            old(self).layout.layouts@.len() > 0,
            old(self).display_index < old(self).dcs().len(),
            old(self).success_count + old(self).failure_count <= windows_upto(old(self).dcs(), old(self).display_index + 1),
            window_count(old(self).layout) <= usize::MAX,
            string_views(old(self).failed_apps@).no_duplicates(),
        ensures
            old(self).kept(*final(self)),
            old(self).next_display(*final(self), action, old(self).display_index as int, old(self).success_count as int,
                old(self).failure_count as int, string_views(old(self).failed_apps@)),
            final(self).wf(),
            progressed(*old(self), *final(self), action),
    {
        let count = self.layout.layouts[0].displays.len();
        assert(self.display_index < count);
        if self.display_index + 1 < count {
            self.display_index = self.display_index + 1;
            self.stage = LoadStage::ReadingDisplay;
            LoadAction::RunJavaScript(to_owned_string(DISPLAYS_SCRIPT))
        } else {
            self.stage = LoadStage::Finished;
            let mut apps: Vec<String> = Vec::new();
            std::mem::swap(&mut apps, &mut self.failed_apps);
            assert(string_views(self.failed_apps@) =~= Seq::<Seq<char>>::empty());
            LoadAction::Done(load_outcome(self.success_count, self.failure_count, apps))
        }
    }

    /// From window `w` of the current display on, as `moved_on` says.
    fn move_on(&mut self, w: usize) -> (action: LoadAction)
        requires
            old(self).layout.layouts@.len() > 0,
            old(self).display_index < old(self).dcs().len(),
            w <= old(self).windows_at(old(self).display_index as int).len(),
            old(self).display is Some,
            old(self).success_count + old(self).failure_count <= windows_upto(old(self).dcs(), old(self).display_index as int) + w,
            window_count(old(self).layout) <= usize::MAX,
            string_views(old(self).failed_apps@).no_duplicates(),
        ensures
            old(self).kept(*final(self)),
            old(self).moved_on(*final(self), action, old(self).display_index as int, w as int, old(self).success_count as int,
                old(self).failure_count as int, string_views(old(self).failed_apps@), old(self).display),
            final(self).wf(),
            progressed(*old(self), *final(self), action),
    {
        let ghost old_self = *self;
        let ghost d = self.display_index as int;
        let ghost ws = self.windows_at(d);
        let ghost dname = self.dcs()[d].name@;
        let ghost w2 = first_unwarned(ws, self.warnings@, dname, w as int);
        let ghost failed0 = string_views(self.failed_apps@);
        proof {
            lemma_first_unwarned(ws, self.warnings@, dname, w as int);
            lemma_windows_upto_mono(self.dcs(), d + 1, self.dcs().len() as int);
        }
        let n = self.layout.layouts[0].displays[self.display_index].windows.len();
        let mut i: usize = w;
        while i < n
            invariant
                self.layout == old_self.layout,
                self.timeout_ms == old_self.timeout_ms,
                self.warnings == old_self.warnings,
                self.display_index == old_self.display_index,
                self.display == old_self.display,
                self.success_count == old_self.success_count,
                self.stage == old_self.stage,
                self.window_index == old_self.window_index,
                d == self.display_index,
                self.layout.layouts@.len() > 0,
                d < self.dcs().len(),
                ws == self.windows_at(d),
                dname == self.dcs()[d].name@,
                n == ws.len(),
                w <= i <= w2 <= n,
                w2 == first_unwarned(ws, self.warnings@, dname, w as int),
                forall|j: int| w <= j < w2 ==> warned(self.warnings@, dname, #[trigger] ws[j].app@),
                w2 < n ==> !warned(self.warnings@, dname, ws[w2].app@),
                self.failure_count == old_self.failure_count + (i - w),
                failed_between(ws, failed0, w as int, w2) == failed_between(ws, string_views(self.failed_apps@), i as int, w2),
                string_views(self.failed_apps@).no_duplicates(),
                self.success_count + self.failure_count <= windows_upto(self.dcs(), d) + i,
                windows_upto(self.dcs(), d) + n == windows_upto(self.dcs(), d + 1),
                windows_upto(self.dcs(), d + 1) <= window_count(self.layout),
                window_count(self.layout) <= usize::MAX,
            ensures
                i == w2,
                self.failure_count == old_self.failure_count + (w2 - w),
                failed_between(ws, failed0, w as int, w2) == string_views(self.failed_apps@),
            decreases n - i,
        {
            let warned_here = is_warned(
                self.warnings.as_slice(),
                self.layout.layouts[0].displays[self.display_index].name.as_str(),
                self.layout.layouts[0].displays[self.display_index].windows[i].app.as_str(),
            );
            if !warned_here {
                break;
            }
            let ghost before = string_views(self.failed_apps@);
            self.failure_count = self.failure_count + 1;
            record_failed_app(&mut self.failed_apps, self.layout.layouts[0].displays[self.display_index].windows[i].app.as_str());
            proof {
                lemma_add_unique_no_duplicates(before, ws[i as int].app@);
            }
            i = i + 1;
        }
        if i < n {
            let (launcher, first) = launch_or_activate_app(
                self.layout.layouts[0].displays[self.display_index].windows[i].app.as_str(),
                self.timeout_ms,
            );
            self.window_index = i;
            self.stage = LoadStage::Placing(WindowStage::Launching(launcher));
            match first {
                LaunchAction::Run(x) => LoadAction::Run(x),
                _ => {
                    proof {
                        assert(false);
                    }
                    LoadAction::Sleep(0)
                },
            }
        } else {
            self.go_to_next_display()
        }
    }
    /// The requirements of the handlers of a window stage: the invariant of
    /// a `Placing` stage, whatever the stage now holds.
    pub open spec fn placing(self) -> bool {
        &&& window_count(self.layout) <= usize::MAX
        &&& string_views(self.failed_apps@).no_duplicates()
        &&& self.layout.layouts@.len() > 0
        &&& self.display_index < self.dcs().len()
        &&& self.window_index < self.windows_at(self.display_index as int).len()
        &&& self.display is Some
        &&& self.success_count + self.failure_count <= windows_upto(self.dcs(), self.display_index as int) + self.window_index
        &&& !warned(self.warnings@, self.dcs()[self.display_index as int].name@, self.current_window().app@)
    }

    /// Counts the current window as placed or failed and moves on.
    fn finish_window(&mut self, placed: bool) -> (action: LoadAction)
        requires
            old(self).placing(),
        ensures
            old(self).window_done(*final(self), action, placed),
            final(self).wf(),
            progressed(*old(self), *final(self), action),
    {
        let ghost old_self = *self;
        proof {
            lemma_windows_upto_mono(self.dcs(), self.display_index + 1, self.dcs().len() as int);
        }
        if placed {
            self.success_count = self.success_count + 1;
        } else {
            let ghost before = string_views(self.failed_apps@);
            self.failure_count = self.failure_count + 1;
            record_failed_app(&mut self.failed_apps, self.layout.layouts[0].displays[self.display_index].windows[self.window_index].app.as_str());
            proof {
                lemma_add_unique_no_duplicates(before, old_self.current_window().app@);
            }
        }
        let n = self.layout.layouts[0].displays[self.display_index].windows.len();
        assert(self.window_index < n);
        let next = self.window_index + 1;
        self.move_on(next)
    }

    /// Places the current window from its layout and current geometry.
    fn place(&mut self, current: Option<Geometry>) -> (action: LoadAction)
        requires
            old(self).placing(),
        ensures
            old(self).placed_at(*final(self), action, current),
            final(self).wf(),
            progressed(*old(self), *final(self), action),
    {
        let placement = match &self.display {
            Some(d) => window_placement(&self.layout.layouts[0].displays[self.display_index].windows[self.window_index], d, current),
            None => {
                proof {
                    assert(false);
                }
                return LoadAction::Sleep(0);
            },
        };
        match placement {
            Err(_) => self.finish_window(false),
            Ok(None) => self.finish_window(true),
            Ok(Some((p, sz))) => {
                let script = resize_window_script(
                    self.layout.layouts[0].displays[self.display_index].windows[self.window_index].app.as_str(),
                    None,
                    p,
                    sz,
                );
                self.stage = LoadStage::Placing(WindowStage::Resizing(p, sz));
                LoadAction::Run(script)
            },
        }
    }

    /// The application of the current window has a window now.
    fn window_is_ready(&mut self) -> (action: LoadAction)
        requires
            old(self).placing(),
        ensures
            old(self).window_ready(*final(self), action),
            final(self).wf(),
            progressed(*old(self), *final(self), action),
    {
        let keyword: Option<Result<TileKeyword, ()>> = match &self.layout.layouts[0].displays[self.display_index].windows[self.window_index].tiling {
            Some(t) => match parse_tile_keyword(t.as_str()) {
                Ok(k) => Some(Ok(k)),
                Err(_) => Some(Err(())),
            },
            None => None,
        };
        match keyword {
            Some(Ok(k)) => {
                let script = match &self.display {
                    Some(d) => move_window_to_display_via_menu_script(
                        self.layout.layouts[0].displays[self.display_index].windows[self.window_index].app.as_str(),
                        d.name.as_str(),
                    ),
                    None => {
                        proof {
                            assert(false);
                        }
                        return LoadAction::Sleep(0);
                    },
                };
                self.stage = LoadStage::Placing(WindowStage::MovingToDisplay(k));
                LoadAction::Run(script)
            },
            Some(Err(())) => self.finish_window(false),
            None => {
                if window_needs_current(&self.layout.layouts[0].displays[self.display_index].windows[self.window_index]) {
                    let script = get_window_info_script(
                        self.layout.layouts[0].displays[self.display_index].windows[self.window_index].app.as_str(),
                        None,
                    );
                    self.stage = LoadStage::Placing(WindowStage::ReadingCurrent);
                    LoadAction::Run(script)
                } else {
                    self.place(None)
                }
            },
        }
    }

    /// The connected displays are known.
    fn displays_known(&mut self, run: &Result<ScriptOutput, AppLaunchError>) -> (action: LoadAction)
        requires
            old(self).wf(),
            old(self).stage is ReadingDisplays,
        ensures
            old(self).displays_read(*final(self), action, *run),
            final(self).layout == old(self).layout,
            final(self).timeout_ms == old(self).timeout_ms,
            final(self).wf(),
            progressed(*old(self), *final(self), action),
    {
        let displays = match get_all_connected_displays(run) {
            Err(e) => {
                self.stage = LoadStage::Finished;
                return LoadAction::Done(Err(LoadError { message: concat2("ディスプレイ情報の取得に失敗しました: ", e.message.as_str()) }));
            },
            Ok(ds) => ds,
        };
        let warnings = match validate_layout_bounds(&self.layout, displays.as_slice()) {
            Err(e) => {
                self.stage = LoadStage::Finished;
                return LoadAction::Done(Err(LoadError { message: concat2("設定ファイルの検証に失敗しました: ", e.message.as_str()) }));
            },
            Ok(ws) => ws,
        };
        self.warnings = warnings;
        if self.layout.layouts[0].displays.len() == 0 {
            self.stage = LoadStage::Finished;
            let action = LoadAction::Done(load_outcome(0, 0, Vec::new()));
            assert(string_views(Seq::<String>::empty()) =~= Seq::<Seq<char>>::empty());
            action
        } else {
            self.display_index = 0;
            self.stage = LoadStage::ReadingDisplay;
            LoadAction::RunJavaScript(to_owned_string(DISPLAYS_SCRIPT))
        }
    }

    /// The information of the display at `display_index` is known.
    fn display_known(&mut self, run: &Result<ScriptOutput, AppLaunchError>) -> (action: LoadAction)
        requires
            old(self).wf(),
            old(self).stage is ReadingDisplay,
        ensures
            old(self).kept(*final(self)),
            match display_lookup(*run, Some(old(self).dcs()[old(self).display_index as int].name@)) {
                Err(_) => old(self).next_display(*final(self), action, old(self).display_index as int,
                    old(self).success_count as int, old(self).failure_count as int, string_views(old(self).failed_apps@)),
                Ok(dv) => exists|di: DisplayInfo| #[trigger] display_view(di) == dv && old(self).moved_on(*final(self), action,
                    old(self).display_index as int, 0, old(self).success_count as int, old(self).failure_count as int,
                    string_views(old(self).failed_apps@), Some(di)),
            },
            final(self).wf(),
            progressed(*old(self), *final(self), action),
    {
        proof {
            lemma_windows_upto_mono(self.dcs(), self.display_index as int, self.display_index + 1);
        }
        let info = get_display_info(run, Some(self.layout.layouts[0].displays[self.display_index].name.as_str()));
        match info {
            Err(_) => self.go_to_next_display(),
            Ok(di) => {
                self.display = Some(di);
                let action = self.move_on(0);
                action
            },
        }
    }

    /// Takes in what happened to the last action and says what to do next.
    pub fn step(&mut self, event: LaunchEvent) -> (action: LoadAction)
        requires
            old(self).wf(),
            old(self).expects(event),
        ensures
            old(self).transition(event, *final(self), action),
            final(self).wf(),
            progressed(*old(self), *final(self), action),
    {
        let mut stage = LoadStage::Finished;
        std::mem::swap(&mut stage, &mut self.stage);
        match stage {
            LoadStage::ReadingDisplays => match event {
                LaunchEvent::Ran(run) => {
                    self.stage = LoadStage::ReadingDisplays;
                    self.displays_known(&run)
                },
                LaunchEvent::Slept => {
                    proof {
                        assert(false);
                    }
                    LoadAction::Sleep(0)
                },
            },
            LoadStage::ReadingDisplay => match event {
                LaunchEvent::Ran(run) => {
                    self.stage = LoadStage::ReadingDisplay;
                    self.display_known(&run)
                },
                LaunchEvent::Slept => {
                    proof {
                        assert(false);
                    }
                    LoadAction::Sleep(0)
                },
            },
            LoadStage::Placing(window_stage) => self.window_step(window_stage, event),
            LoadStage::Finished => {
                proof {
                    assert(false);
                }
                LoadAction::Sleep(0)
            },
        }
    }

    fn window_step(&mut self, window_stage: WindowStage, event: LaunchEvent) -> (action: LoadAction)
        requires
            old(self).placing(),
            (LayoutLoader { stage: LoadStage::Placing(window_stage), ..*old(self) }).wf(),
            (LayoutLoader { stage: LoadStage::Placing(window_stage), ..*old(self) }).expects(event),
        ensures
            (LayoutLoader { stage: LoadStage::Placing(window_stage), ..*old(self) }).transition(event, *final(self), action),
            final(self).wf(),
            progressed(*old(self), *final(self), action),
    {
        match window_stage {
            WindowStage::Launching(mut launcher) => {
                let la = launcher.step(event);
                match la {
                    LaunchAction::Run(x) => {
                        self.stage = LoadStage::Placing(WindowStage::Launching(launcher));
                        LoadAction::Run(x)
                    },
                    LaunchAction::Sleep(t) => {
                        self.stage = LoadStage::Placing(WindowStage::Launching(launcher));
                        LoadAction::Sleep(t)
                    },
                    LaunchAction::Done(Ok(_)) => {
                        let script = get_all_windows_script(
                            self.layout.layouts[0].displays[self.display_index].windows[self.window_index].app.as_str(),
                        );
                        self.stage = LoadStage::Placing(WindowStage::ListingWindows);
                        LoadAction::Run(script)
                    },
                    LaunchAction::Done(Err(_)) => self.finish_window(false),
                }
            },
            WindowStage::ListingWindows => {
                let run = match event {
                    LaunchEvent::Ran(run) => run,
                    LaunchEvent::Slept => {
                        proof {
                            assert(false);
                        }
                        return LoadAction::Sleep(0);
                    },
                };
                let listed = match get_all_windows(&run) {
                    Ok(ws) => {
                        assert(window_views(ws@).len() == ws@.len());
                        ws.len() > 0
                    },
                    Err(_) => false,
                };
                if listed {
                    self.window_is_ready()
                } else {
                    let script = create_new_window_script(
                        self.layout.layouts[0].displays[self.display_index].windows[self.window_index].app.as_str(),
                    );
                    self.stage = LoadStage::Placing(WindowStage::CreatingWindow);
                    LoadAction::Run(script)
                }
            },
            WindowStage::CreatingWindow => {
                let run = match event {
                    LaunchEvent::Ran(run) => run,
                    LaunchEvent::Slept => {
                        proof {
                            assert(false);
                        }
                        return LoadAction::Sleep(0);
                    },
                };
                match create_new_window(&run) {
                    Err(_) => self.finish_window(false),
                    Ok(()) => {
                        self.stage = LoadStage::Placing(WindowStage::WaitingForNewWindow);
                        LoadAction::Sleep(500)
                    },
                }
            },
            WindowStage::WaitingForNewWindow => self.window_is_ready(),
            WindowStage::MovingToDisplay(k) => {
                let run = match event {
                    LaunchEvent::Ran(run) => run,
                    LaunchEvent::Slept => {
                        proof {
                            assert(false);
                        }
                        return LoadAction::Sleep(0);
                    },
                };
                let there = match move_window_to_display_via_menu(&run) {
                    Ok(()) => true,
                    Err(e) => e.is_display_menu_item_not_found(),
                };
                if there {
                    let script = tile_window_via_menu_script(
                        self.layout.layouts[0].displays[self.display_index].windows[self.window_index].app.as_str(),
                        &k,
                    );
                    self.stage = LoadStage::Placing(WindowStage::Tiling(k));
                    LoadAction::Run(script)
                } else {
                    self.finish_window(false)
                }
            },
            WindowStage::Tiling(_) => {
                let run = match event {
                    LaunchEvent::Ran(run) => run,
                    LaunchEvent::Slept => {
                        proof {
                            assert(false);
                        }
                        return LoadAction::Sleep(0);
                    },
                };
                let ok = tile_window_via_menu(&run).is_ok();
                self.finish_window(ok)
            },
            WindowStage::ReadingCurrent => {
                let run = match event {
                    LaunchEvent::Ran(run) => run,
                    LaunchEvent::Slept => {
                        proof {
                            assert(false);
                        }
                        return LoadAction::Sleep(0);
                    },
                };
                let current = match get_window_info(&run) {
                    Ok(info) => Some((info.position, info.size)),
                    Err(_) => None,
                };
                self.place(current)
            },
            WindowStage::Resizing(p, sz) => {
                let run = match event {
                    LaunchEvent::Ran(run) => run,
                    LaunchEvent::Slept => {
                        proof {
                            assert(false);
                        }
                        return LoadAction::Sleep(0);
                    },
                };
                let ok = resize_window(&run, p, sz).is_ok();
                self.finish_window(ok)
            },
        }
    }
}

/// Starts loading `layout`: first the connected displays are asked for.
/// `timeout_ms` is how long a launched application is given to come up.
pub fn load_layout(layout: LayoutFile, timeout_ms: u64) -> (r: (LayoutLoader, LoadAction))
    requires
        window_count(layout) <= usize::MAX,
    ensures
        r.0.wf(),
        r.0.layout == layout,
        r.0.timeout_ms == timeout_ms,
        r.0.stage is ReadingDisplays,
        r.1 matches LoadAction::RunJavaScript(x) && x@ == DISPLAYS_SCRIPT@,
{
    let loader = LayoutLoader {
        layout,
        timeout_ms,
        warnings: Vec::new(),
        display_index: 0,
        window_index: 0,
        display: None,
        success_count: 0,
        failure_count: 0,
        failed_apps: Vec::new(),
        stage: LoadStage::ReadingDisplays,
    };
    assert(string_views(loader.failed_apps@) =~= Seq::<Seq<char>>::empty());
    (loader, LoadAction::RunJavaScript(to_owned_string(DISPLAYS_SCRIPT)))
}

/// A load succeeds fully exactly when no window failed, partly exactly when
/// some windows failed and some were placed, and fails exactly when windows
/// failed and none was placed; the failure names the failed applications.
pub proof fn law_load_outcome(success: int, failure: int, failed: Seq<Seq<char>>)
    requires
        success >= 0,
        failure >= 0,
    ensures
        (load_outcome_spec(success, failure, failed) == Ok::<bool, Seq<char>>(true)) <==> failure == 0,
        (load_outcome_spec(success, failure, failed) == Ok::<bool, Seq<char>>(false)) <==> (failure > 0 && success > 0),
        (load_outcome_spec(success, failure, failed) is Err) <==> (failure > 0 && success == 0),
        load_outcome_spec(success, failure, failed) is Err ==> load_outcome_spec(success, failure, failed)
            == Err::<bool, Seq<char>>("すべてのウィンドウ配置に失敗しました。失敗したアプリ: "@ + join(failed, ", "@)),
{
}

/// A window that the bounds check warned about is never placed: whenever a
/// load is placing a window, that window has no warning.
pub proof fn law_placing_unwarned(l: LayoutLoader)
    requires
        l.wf(),
        l.stage is Placing,
    ensures
        !warned(l.warnings@, l.dcs()[l.display_index as int].name@, l.current_window().app@),
{
}


/// What a save records, a load restores: a window saved at a position with
/// no negative coordinate and a positive size, on a display whose origin is
/// the origin of the screen space, is placed back at that position with that
/// size, without reading its current state.  A save records positions in
/// screen space while a load reads layout numbers relative to the display,
/// so on a display elsewhere the window comes back moved by that display's
/// origin.
pub proof fn law_save_then_load(w: AppWindowConfig, e: SavedEntry, d: DisplayInfo)
    requires
        saved_config(w, e),
        d.origin_x == 0,
        d.origin_y == 0,
        (e.2).0 >= 0,
        (e.2).1 >= 0,
        (e.3).0 > 0,
        (e.3).1 > 0,
    ensures
        !needs_current(w),
        placement_result(w, d, None) == Ok::<Placement, Seq<char>>(Some((Some(e.2), Some(e.3)))),
{
    let p = w.position->0;
    let s = w.size->0;
    let g = ((0i32, 0i32), (0i32, 0i32));
    assert(!s.width.is_str("max"@));
    assert(!s.height.is_str("max"@));
    assert(placed_size(s, d, g.1) == Ok::<(int, int), Seq<char>>(((e.3).0 as int, (e.3).1 as int)));
    assert(placed_position(p, Some(s), d, (e.3).0 as int, (e.3).1 as int, g.0)
        == Ok::<(int, int), Seq<char>>(((e.2).0 as int, (e.2).1 as int)));
}

/// A side that the layout leaves unset keeps the window's current one: in
/// any placement that comes out, an unset `x` or `y` is the window's current
/// coordinate in screen space (unless the size spans the display on that
/// axis), and an unset width or height is the current one.  In particular a
/// window with a set `x`, an unset `y` and no size goes to the set `x` on
/// its display and stays at its current `y`, wherever that is.
pub proof fn law_unset_keeps_current(w: AppWindowConfig, d: DisplayInfo, g: Geometry)
    ensures
        match placement_result(w, d, Some(g)) {
            Ok(Some((pos, sz))) => {
                &&& ((w.position matches Some(p) && p.x is Null) && !size_max(w.size).0) ==> (pos matches Some(xy) && xy.0 == (g.0).0)
                &&& ((w.position matches Some(p) && p.y is Null) && !size_max(w.size).1) ==> (pos matches Some(xy) && xy.1 == (g.0).1)
                &&& (w.size matches Some(s) && s.width is Null) ==> (sz matches Some(wh) && wh.0 == (g.1).0)
                &&& (w.size matches Some(s) && s.height is Null) ==> (sz matches Some(wh) && wh.1 == (g.1).1)
            },
            _ => true,
        },
        (w.position matches Some(p) && p.x matches JsonValue::Int(vx) && 0 <= vx <= i32::MAX && p.y is Null
            && fits_i32(vx + d.origin_x)) && w.size is None ==> placement_result(w, d, Some(g))
            == Ok::<Placement, Seq<char>>(Some((Some((((w.position->0).x->Int_0 + d.origin_x) as i32, (g.0).1)), None))),
{
}


/// Where a placed window goes on display `d`, in screen space: on an axis
/// where the size is `"max"` the window starts at the display's edge
/// (`origin_x`, `origin_y`); otherwise `"left"` is the display's left edge,
/// `"right"` its right edge less the window width, `"top"` the display's top
/// below the menu bar (25), `"bottom"` its bottom less the window height, and
/// a whole number counts from the display's edge.  Without a size the window
/// is taken as large as the display.  The size: `"max"` is the display's
/// width, or its height less the menu bar; `"half"` and `"third"` are that
/// part of the display's side; a whole number is taken as it is.
pub proof fn law_placement_on_display(w: AppWindowConfig, d: DisplayInfo, current: Option<Geometry>)
    ensures
        match placement_result(w, d, current) {
            Ok(Some((Some((x, y)), sz))) => {
                let p = w.position->0;
                let width_max = w.size matches Some(s) && s.width.is_str("max"@);
                let height_max = w.size matches Some(s) && s.height.is_str("max"@);
                let ww = match sz {
                    Some(wh) => wh.0 as int,
                    None => d.width as int,
                };
                let wh = match sz {
                    Some(wh) => wh.1 as int,
                    None => d.height as int,
                };
                &&& w.position is Some
                &&& width_max ==> x == d.origin_x
                &&& (!width_max && p.x.is_str("left"@)) ==> x == d.origin_x
                &&& (!width_max && p.x.is_str("right"@)) ==> x == d.origin_x + d.width - ww
                &&& (!width_max && p.x is Int) ==> x == d.origin_x + ((p.x->Int_0) as i32)
                &&& height_max ==> y == d.origin_y
                &&& (!height_max && p.y.is_str("top"@)) ==> y == d.origin_y + 25
                &&& (!height_max && p.y.is_str("bottom"@)) ==> y == d.origin_y + d.height - wh
                &&& (!height_max && p.y is Int) ==> y == d.origin_y + ((p.y->Int_0) as i32)
            },
            _ => true,
        },
        match placement_result(w, d, current) {
            Ok(Some((_, Some((sw, sh))))) => {
                let s = w.size->0;
                &&& w.size is Some
                &&& s.width.is_str("max"@) ==> sw == d.width
                &&& s.width.is_str("half"@) ==> sw == d.width / 2
                &&& s.width.is_str("third"@) ==> sw == d.width / 3
                &&& s.width is Int ==> sw == ((s.width->Int_0) as i32)
                &&& s.height.is_str("max"@) ==> sh == d.height - 25
                &&& s.height.is_str("half"@) ==> sh == d.height / 2
                &&& s.height.is_str("third"@) ==> sh == d.height / 3
                &&& s.height is Int ==> sh == ((s.height->Int_0) as i32)
            },
            _ => true,
        },
        ({
            let p = w.position->0;
            let s = w.size->0;
            let keywords = seq!["half"@, "third"@, "max"@];
            (w.position is Some && w.size is Some && (p.x.is_str("left"@) || p.x.is_str("right"@)) && (p.y.is_str(
                "top"@,
            ) || p.y.is_str("bottom"@)) && s.width is Str && keywords.contains((s.width->Str_0)@)
                && s.height is Str && keywords.contains((s.height->Str_0)@) && 3 <= d.width && 28 <= d.height
                && fits_i32(d.origin_x + d.width) && fits_i32(d.origin_y + d.height)) ==> (placement_result(
                w,
                d,
                current,
            ) matches Ok(Some((Some(_), Some(_)))))
        }),
{
    reveal_strlit("left");
    reveal_strlit("right");
    reveal_strlit("top");
    reveal_strlit("bottom");
    reveal_strlit("max");
    reveal_strlit("half");
    reveal_strlit("third");
    assert("right"@ != "left"@) by {
        assert("right"@.len() != "left"@.len());
    }
    assert("bottom"@ != "top"@) by {
        assert("bottom"@.len() != "top"@.len());
    }
    assert("half"@ != "max"@) by {
        assert("half"@.len() != "max"@.len());
    }
    assert("third"@ != "max"@ && "third"@ != "half"@) by {
        assert("third"@.len() != "max"@.len());
        assert("third"@.len() != "half"@.len());
    }
}

} // verus!
