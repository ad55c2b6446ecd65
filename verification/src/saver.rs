//! Saving the current window layout.
//!
//! The caller runs the display query, the running application query and,
//! for each running application in order, its window list query; this
//! module turns their output into the layout to write and the counts to
//! report.  Of each application only the first window that can be saved is
//! kept: a layout has no field that tells two windows of one application
//! apart.
use vstd::prelude::*;
use crate::applescript::app::{app_views, get_running_applications, running_list, AppLaunchError};
use crate::applescript::display::{connected_displays, display_view, display_views, get_all_connected_displays, DisplayInfo, DisplayView};
use crate::applescript::osascript::ScriptOutput;
use crate::applescript::utils::{is_excluded_window, spec_is_excluded, spec_window_list, window_view, window_views, WindowView};
use crate::applescript::window::{get_all_windows, query_text, WindowInfo};
use crate::config::{trunc_div, trunc_div_i32, AppWindowConfig, DisplayConfig, LayoutConfig, LayoutFile, Position, Size};
use crate::json::JsonValue;
use crate::text::{concat2, str_eq, string_views, to_owned_string};

verus! {

/// The counts of a save.
#[derive(Debug)]
pub struct SaveResult {
    /// Whether the windows of every application could be listed.
    pub all_success: bool,
    pub saved_app_count: usize,
    pub saved_window_count: usize,
    /// Windows left out: minimized, hidden, part of the system, of this
    /// terminal, off every display, or not the first of their application.
    pub skipped_window_count: usize,
    /// The applications whose windows could not be listed.
    pub failed_apps: Vec<String>,
}

/// A failure of the whole save.
#[derive(Debug)]
pub struct SaveError {
    pub message: String,
}

/// Whether a window is saved at all: shown, not minimized, not part of the
/// system, and not a window of an application whose process is among
/// `own_processes`: this program and the processes it runs under, the
/// terminal among them.
pub open spec fn include_window(w: WindowView, app: Seq<char>, own_processes: Seq<i32>, app_process_id: Option<i32>) -> bool {
    &&& !w.3
    &&& w.4
    &&& !spec_is_excluded(app, w.0)
    &&& !(app_process_id matches Some(pid) && own_processes.contains(pid))
}

/// Whether a window is saved at all.
pub fn should_include_window(window: &WindowInfo, app_name: &str, own_processes: &[i32], app_process_id: Option<i32>) -> (r: bool)
    ensures
        r == include_window(window_view(*window), app_name@, own_processes@, app_process_id),
{
    if window.minimized {
        return false;
    }
    if !window.visible {
        return false;
    }
    if is_excluded_window(app_name, window.title.as_str()) {
        return false;
    }
    match app_process_id {
        Some(pid) => !contains_i32(own_processes, pid),
        None => true,
    }
}

fn contains_i32(list: &[i32], v: i32) -> (r: bool)
    ensures
        r == list@.contains(v),
{
    let mut i: usize = 0;
    while i < list.len()
        invariant
            i <= list@.len(),
            forall|j: int| 0 <= j < i ==> list@[j] != v,
        decreases list@.len() - i,
    {
        if list[i] == v {
            return true;
        }
        i = i + 1;
    }
    false
}

/// The center of a window, halves rounded toward zero.
pub open spec fn window_center(w: WindowView) -> (int, int) {
    ((w.1).0 + trunc_div((w.2).0 as int, 2), (w.1).1 + trunc_div((w.2).1 as int, 2))
}

/// Whether a point lies on a display.
pub open spec fn display_contains(d: DisplayView, p: (int, int)) -> bool {
    &&& d.3 <= p.0 < d.3 + d.1
    &&& d.4 <= p.1 < d.4 + d.2
}

/// The first display that holds the point.
pub open spec fn display_at(ds: Seq<DisplayView>, p: (int, int)) -> Option<DisplayView>
    decreases ds.len(),
{
    if ds.len() == 0 {
        None
    } else if display_contains(ds[0], p) {
        Some(ds[0])
    } else {
        display_at(ds.drop_first(), p)
    }
}

/// The display that a window belongs to: the first that holds its center.
pub fn find_display_for_window(window: &WindowInfo, displays: &[DisplayInfo]) -> (r: Option<DisplayInfo>)
    ensures
        match display_at(display_views(displays@), window_center(window_view(*window))) {
            Some(d) => r matches Some(x) && display_view(x) == d,
            None => r is None,
        },
{
    let cx = window.position.0 as i64 + trunc_div_i32(window.size.0, 2) as i64;
    let cy = window.position.1 as i64 + trunc_div_i32(window.size.1, 2) as i64;
    let ghost c = window_center(window_view(*window));
    let ghost dv = display_views(displays@);
    let mut i: usize = 0;
    assert(dv.skip(0) =~= dv);
    while i < displays.len()
        invariant
            i <= displays@.len(),
            dv == display_views(displays@),
            c == (cx as int, cy as int),
            c == window_center(window_view(*window)),
            display_at(dv, c) == display_at(dv.skip(i as int), c),
        decreases displays@.len() - i,
    {
        assert(dv.skip(i as int).drop_first() =~= dv.skip(i + 1));
        assert(dv.skip(i as int)[0] == display_view(displays@[i as int]));
        let d = &displays[i];
        let right = d.origin_x as i64 + d.width as i64;
        let bottom = d.origin_y as i64 + d.height as i64;
        if cx >= d.origin_x as i64 && cx < right && cy >= d.origin_y as i64 && cy < bottom {
            assert(display_contains(dv.skip(i as int)[0], c));
            return Some(d.copy());
        }
        i = i + 1;
    }
    None
}

/// The window of an application that is saved: the first that is included
/// and lies on a display, with that display's name, its position and size.
pub open spec fn saved_window(ws: Seq<WindowView>, app: Seq<char>, own: Seq<i32>, pid: Option<i32>, ds: Seq<DisplayView>) -> Option<(Seq<char>, (i32, i32), (i32, i32))>
    decreases ws.len(),
{
    if ws.len() == 0 {
        None
    } else if include_window(ws[0], app, own, pid) && display_at(ds, window_center(ws[0])) is Some {
        Some(((display_at(ds, window_center(ws[0]))->0).0, ws[0].1, ws[0].2))
    } else {
        saved_window(ws.drop_first(), app, own, pid, ds)
    }
}

/// The windows that a window list query reports, or its failure message.
pub open spec fn windows_result(run: Result<ScriptOutput, AppLaunchError>) -> Result<Seq<WindowView>, Seq<char>> {
    match query_text(run, "ウィンドウ一覧の取得に失敗しました: "@) {
        Err(m) => Err(m),
        Ok(t) => Ok(spec_window_list(t)),
    }
}

/// A saved window: application, display name, position, size.
pub type SavedEntry = (Seq<char>, Seq<char>, (i32, i32), (i32, i32));

/// The saved windows, the count of skipped windows and the failed
/// applications, over the first `n` applications.
pub open spec fn tally(apps: Seq<(Seq<char>, Option<i32>)>, runs: Seq<Result<ScriptOutput, AppLaunchError>>, own: Seq<i32>, ds: Seq<DisplayView>, n: int) -> (Seq<SavedEntry>, int, Seq<Seq<char>>)
    decreases n,
{
    if n <= 0 {
        (Seq::empty(), 0, Seq::empty())
    } else {
        let prev = tally(apps, runs, own, ds, n - 1);
        let app = apps[n - 1];
        match windows_result(runs[n - 1]) {
            Err(_) => (prev.0, prev.1, prev.2.push(app.0)),
            Ok(ws) => match saved_window(ws, app.0, own, app.1, ds) {
                Some(e) => (prev.0.push((app.0, e.0, e.1, e.2)), prev.1 + ws.len() - 1, prev.2),
                None => (prev.0, prev.1 + ws.len(), prev.2),
            },
        }
    }
}

/// The number of windows that the queries of the first `n` applications list.
pub open spec fn listed_total(runs: Seq<Result<ScriptOutput, AppLaunchError>>, n: int) -> int
    decreases n,
{
    if n <= 0 {
        0
    } else {
        listed_total(runs, n - 1) + match windows_result(runs[n - 1]) {
            Ok(ws) => ws.len() as int,
            Err(_) => 0,
        }
    }
}

/// The saved windows on the display named `name`, in order.
pub open spec fn entries_on(entries: Seq<SavedEntry>, name: Seq<char>) -> Seq<SavedEntry>
    decreases entries.len(),
{
    if entries.len() == 0 {
        Seq::empty()
    } else if entries.last().1 == name {
        entries_on(entries.drop_last(), name).push(entries.last())
    } else {
        entries_on(entries.drop_last(), name)
    }
}

/// Whether one of the first `k` displays has the name `name`.
pub open spec fn name_seen(ds: Seq<DisplayView>, k: int, name: Seq<char>) -> bool {
    exists|j: int| 0 <= j < k && #[trigger] ds[j].0 == name
}

/// The displays of the saved layout, over the first `n` connected
/// displays: each name once, where its first display stands, with the saved
/// windows on it; displays without saved windows are left out.
pub open spec fn display_groups(ds: Seq<DisplayView>, entries: Seq<SavedEntry>, n: int) -> Seq<(Seq<char>, Seq<SavedEntry>)>
    decreases n,
{
    if n <= 0 {
        Seq::empty()
    } else {
        let prev = display_groups(ds, entries, n - 1);
        let name = ds[n - 1].0;
        if name_seen(ds, n - 1, name) || entries_on(entries, name).len() == 0 {
            prev
        } else {
            prev.push((name, entries_on(entries, name)))
        }
    }
}

/// A window of the saved layout, as the saved entry says: its position and
/// size in pixels, no tiling.
pub open spec fn saved_config(w: AppWindowConfig, e: SavedEntry) -> bool {
    &&& w.app@ == e.0
    &&& w.position == Some(Position { x: JsonValue::Int((e.2).0 as i64), y: JsonValue::Int((e.2).1 as i64) })
    &&& w.size == Some(Size { width: JsonValue::Int((e.3).0 as i64), height: JsonValue::Int((e.3).1 as i64) })
    &&& w.tiling is None
}

/// A display of the saved layout, as its group says.
pub open spec fn saved_display(d: DisplayConfig, g: (Seq<char>, Seq<SavedEntry>)) -> bool {
    &&& d.name@ == g.0
    &&& d.windows@.len() == g.1.len()
    &&& forall|i: int| 0 <= i < g.1.len() ==> saved_config(#[trigger] d.windows@[i], g.1[i])
}

/// The saved layout: version 1.0, one layout of the given display groups.
pub open spec fn saved_layout(f: LayoutFile, groups: Seq<(Seq<char>, Seq<SavedEntry>)>) -> bool {
    &&& f.version@ == "1.0"@
    &&& f.layouts@.len() == 1
    &&& f.layouts@[0].displays@.len() == groups.len()
    &&& forall|i: int| 0 <= i < groups.len() ==> saved_display(#[trigger] f.layouts@[0].displays@[i], groups[i])
}

/// What a save comes to: the saved windows, the skipped count, the failed
/// applications and the connected displays, or the message of the failure.
pub open spec fn save_outcome(
    displays_run: Result<ScriptOutput, AppLaunchError>,
    apps_run: Result<ScriptOutput, AppLaunchError>,
    runs: Seq<Result<ScriptOutput, AppLaunchError>>,
    own: Seq<i32>,
) -> Result<(Seq<SavedEntry>, int, Seq<Seq<char>>, Seq<DisplayView>), Seq<char>> {
    match connected_displays(displays_run) {
        Err(m) => Err("ディスプレイ情報の取得に失敗しました: "@ + m),
        Ok(ds) => if ds.len() == 0 {
            Err("接続されているディスプレイが見つかりません"@)
        } else {
            match running_list(apps_run) {
                Err(m) => Err("実行中アプリケーション一覧の取得に失敗しました: "@ + m),
                Ok(apps) => {
                    let t = tally(apps, runs, own, ds, apps.len() as int);
                    if t.0.len() == 0 {
                        Err("保存すべきウィンドウが見つかりませんでした。アプリケーションを起動してから再度お試しください"@)
                    } else {
                        Ok((t.0, t.1, t.2, ds))
                    }
                },
            }
        },
    }
}

/// The processes whose applications' windows are left out: none when the
/// terminal's windows are included.
pub open spec fn excluded_processes(include_own_terminal: bool, own_processes: Seq<i32>) -> Seq<i32> {
    if include_own_terminal {
        Seq::empty()
    } else {
        own_processes
    }
}

pub open spec fn entry_view(e: (String, String, (i32, i32), (i32, i32))) -> SavedEntry {
    (e.0@, e.1@, e.2, e.3)
}

pub open spec fn entry_views(es: Seq<(String, String, (i32, i32), (i32, i32))>) -> Seq<SavedEntry> {
    es.map_values(|e: (String, String, (i32, i32), (i32, i32))| entry_view(e))
}

proof fn lemma_saved_window_nonempty(ws: Seq<WindowView>, app: Seq<char>, own: Seq<i32>, pid: Option<i32>, ds: Seq<DisplayView>)
    ensures
        saved_window(ws, app, own, pid, ds) is Some ==> ws.len() > 0,
{
}

proof fn lemma_tally_bound(apps: Seq<(Seq<char>, Option<i32>)>, runs: Seq<Result<ScriptOutput, AppLaunchError>>, own: Seq<i32>, ds: Seq<DisplayView>, n: int)
    ensures
        0 <= tally(apps, runs, own, ds, n).1 <= listed_total(runs, n),
    decreases n,
{
    if n > 0 {
        lemma_tally_bound(apps, runs, own, ds, n - 1);
        match windows_result(runs[n - 1]) {
            Ok(ws) => lemma_saved_window_nonempty(ws, apps[n - 1].0, own, apps[n - 1].1, ds),
            Err(_) => {},
        }
    }
}

proof fn lemma_listed_total_mono(runs: Seq<Result<ScriptOutput, AppLaunchError>>, n: int, m: int)
    requires
        0 <= n <= m,
    ensures
        listed_total(runs, n) <= listed_total(runs, m),
    decreases m - n,
{
    if n < m {
        lemma_listed_total_mono(runs, n, m - 1);
    }
}

fn first_saved(ws: &Vec<WindowInfo>, app_name: &str, own: &[i32], pid: Option<i32>, displays: &[DisplayInfo]) -> (r: Option<(String, (i32, i32), (i32, i32))>)
    ensures
        match saved_window(window_views(ws@), app_name@, own@, pid, display_views(displays@)) {
            Some(e) => r matches Some(x) && x.0@ == e.0 && x.1 == e.1 && x.2 == e.2,
            None => r is None,
        },
{
    let ghost wv = window_views(ws@);
    let ghost dv = display_views(displays@);
    let mut j: usize = 0;
    assert(wv.skip(0) =~= wv);
    while j < ws.len()
        invariant
            j <= ws@.len(),
            wv == window_views(ws@),
            dv == display_views(displays@),
            saved_window(wv, app_name@, own@, pid, dv) == saved_window(wv.skip(j as int), app_name@, own@, pid, dv),
        decreases ws@.len() - j,
    {
        assert(wv.skip(j as int).drop_first() =~= wv.skip(j + 1));
        assert(wv.skip(j as int)[0] == window_view(ws@[j as int]));
        let w = &ws[j];
        if should_include_window(w, app_name, own, pid) {
            match find_display_for_window(w, displays) {
                Some(d) => {
                    return Some((d.name, w.position, w.size));
                },
                None => {},
            }
        }
        j = j + 1;
    }
    None
}

fn window_config_of(e: &(String, String, (i32, i32), (i32, i32))) -> (w: AppWindowConfig)
    ensures
        saved_config(w, entry_view(*e)),
{
    AppWindowConfig {
        app: e.0.clone(),
        position: Some(Position { x: JsonValue::Int(e.2.0 as i64), y: JsonValue::Int(e.2.1 as i64) }),
        size: Some(Size { width: JsonValue::Int(e.3.0 as i64), height: JsonValue::Int(e.3.1 as i64) }),
        tiling: None,
    }
}

fn windows_on(entries: &Vec<(String, String, (i32, i32), (i32, i32))>, name: &str) -> (r: Vec<AppWindowConfig>)
    ensures
        r@.len() == entries_on(entry_views(entries@), name@).len(),
        forall|i: int| 0 <= i < r@.len() ==> saved_config(#[trigger] r@[i], entries_on(entry_views(entries@), name@)[i]),
{
    let ghost ev = entry_views(entries@);
    let mut r: Vec<AppWindowConfig> = Vec::new();
    let mut m: usize = 0;
    assert(ev.take(0) =~= Seq::<SavedEntry>::empty());
    while m < entries.len()
        invariant
            m <= entries@.len(),
            ev == entry_views(entries@),
            r@.len() == entries_on(ev.take(m as int), name@).len(),
            forall|i: int| 0 <= i < r@.len() ==> saved_config(#[trigger] r@[i], entries_on(ev.take(m as int), name@)[i]),
        decreases entries@.len() - m,
    {
        assert(ev.take(m + 1).drop_last() =~= ev.take(m as int));
        assert(ev.take(m + 1).last() == entry_view(entries@[m as int]));
        if str_eq(entries[m].1.as_str(), name) {
            let w = window_config_of(&entries[m]);
            r.push(w);
        }
        m = m + 1;
    }
    assert(ev.take(entries@.len() as int) =~= ev);
    r
}

fn name_seen_before(displays: &[DisplayInfo], k: usize, name: &str) -> (r: bool)
    requires
        k <= displays@.len(),
    ensures
        r == name_seen(display_views(displays@), k as int, name@),
{
    let ghost dv = display_views(displays@);
    let mut j: usize = 0;
    while j < k
        invariant
            j <= k <= displays@.len(),
            dv == display_views(displays@),
            forall|i: int| 0 <= i < j ==> dv[i].0 != name@,
        decreases k - j,
    {
        assert(dv[j as int] == display_view(displays@[j as int]));
        if str_eq(displays[j].name.as_str(), name) {
            assert(dv[j as int].0 == name@);
            return true;
        }
        j = j + 1;
    }
    false
}

fn display_configs(displays: &Vec<DisplayInfo>, entries: &Vec<(String, String, (i32, i32), (i32, i32))>) -> (r: Vec<DisplayConfig>)
    ensures
        r@.len() == display_groups(display_views(displays@), entry_views(entries@), displays@.len() as int).len(),
        forall|i: int| 0 <= i < r@.len() ==> saved_display(#[trigger] r@[i],
            display_groups(display_views(displays@), entry_views(entries@), displays@.len() as int)[i]),
{
    let ghost dv = display_views(displays@);
    let ghost ev = entry_views(entries@);
    let mut r: Vec<DisplayConfig> = Vec::new();
    let mut k: usize = 0;
    while k < displays.len()
        invariant
            k <= displays@.len(),
            dv == display_views(displays@),
            ev == entry_views(entries@),
            r@.len() == display_groups(dv, ev, k as int).len(),
            forall|i: int| 0 <= i < r@.len() ==> saved_display(#[trigger] r@[i], display_groups(dv, ev, k as int)[i]),
        decreases displays@.len() - k,
    {
        assert(dv[k as int] == display_view(displays@[k as int]));
        let seen = name_seen_before(displays.as_slice(), k, displays[k].name.as_str());
        if !seen {
            let ws = windows_on(entries, displays[k].name.as_str());
            if ws.len() > 0 {
                let ghost before = r@;
                r.push(DisplayConfig { name: displays[k].name.clone(), windows: ws });
                assert forall|i: int| 0 <= i < r@.len() implies saved_display(#[trigger] r@[i], display_groups(dv, ev, k + 1)[i]) by {
                    if i < before.len() {
                        assert(r@[i] == before[i]);
                    }
                }
            }
        }
        k = k + 1;
    }
    r
}

/// Turns what the queries printed into the layout to save and the counts.
/// `window_runs` holds the window list query of each running application,
/// in the order of the application list.  `own_processes` holds the
/// process ids of this program and of the processes it runs under, up to
/// the terminal application: unless `include_own_terminal` is set, the
/// windows of every application whose process is among them are left out.
pub fn save_layout(
    displays_run: &Result<ScriptOutput, AppLaunchError>,
    apps_run: &Result<ScriptOutput, AppLaunchError>,
    window_runs: &Vec<Result<ScriptOutput, AppLaunchError>>,
    include_own_terminal: bool,
    own_processes: &[i32],
) -> (r: Result<(LayoutFile, SaveResult), SaveError>)
    requires
        running_list(*apps_run) matches Ok(apps) ==> window_runs@.len() == apps.len()
            && listed_total(window_runs@, apps.len() as int) <= usize::MAX,
    ensures
        match save_outcome(*displays_run, *apps_run, window_runs@, excluded_processes(include_own_terminal, own_processes@)) {
            Err(m) => r matches Err(e) && e.message@ == m,
            Ok((entries, skipped, failed, ds)) => r matches Ok((f, res))
                && saved_layout(f, display_groups(ds, entries, ds.len() as int))
                && res.all_success == (failed.len() == 0)
                && res.saved_app_count == entries.len()
                && res.saved_window_count == entries.len()
                && res.skipped_window_count == skipped
                && string_views(res.failed_apps@) == failed,
        },
{
    let displays = match get_all_connected_displays(displays_run) {
        Err(e) => {
            return Err(SaveError { message: concat2("ディスプレイ情報の取得に失敗しました: ", e.message.as_str()) });
        },
        Ok(ds) => ds,
    };
    if displays.len() == 0 {
        return Err(SaveError { message: to_owned_string("接続されているディスプレイが見つかりません") });
    }
    let apps = match get_running_applications(apps_run) {
        Err(e) => {
            return Err(SaveError { message: concat2("実行中アプリケーション一覧の取得に失敗しました: ", e.message.as_str()) });
        },
        Ok(a) => a,
    };
    let none: [i32; 0] = [];
    let own: &[i32] = if include_own_terminal { none.as_slice() } else { own_processes };
    assert(own@ == excluded_processes(include_own_terminal, own_processes@));
    let ghost dv = display_views(displays@);
    let ghost av = app_views(apps@);
    let ghost runs = window_runs@;
    let mut entries: Vec<(String, String, (i32, i32), (i32, i32))> = Vec::new();
    let mut skipped: usize = 0;
    let mut failed: Vec<String> = Vec::new();
    let mut i: usize = 0;
    assert(entry_views(entries@) =~= Seq::<SavedEntry>::empty());
    assert(string_views(failed@) =~= Seq::<Seq<char>>::empty());
    while i < apps.len()
        invariant
            i <= apps@.len(),
            av == app_views(apps@),
            dv == display_views(displays@),
            runs == window_runs@,
            runs.len() == av.len(),
            listed_total(runs, av.len() as int) <= usize::MAX,
            entry_views(entries@) == tally(av, runs, own@, dv, i as int).0,
            skipped as int == tally(av, runs, own@, dv, i as int).1,
            string_views(failed@) == tally(av, runs, own@, dv, i as int).2,
        decreases apps@.len() - i,
    {
        proof {
            lemma_tally_bound(av, runs, own@, dv, i as int);
            lemma_listed_total_mono(runs, i + 1, av.len() as int);
        }
        assert(av[i as int] == (apps@[i as int].name@, apps@[i as int].process_id));
        match get_all_windows(&window_runs[i]) {
            Err(_) => {
                let ghost before = failed@;
                failed.push(apps[i].name.clone());
                assert(string_views(failed@) =~= string_views(before).push(apps@[i as int].name@));
            },
            Ok(ws) => {
                assert(window_views(ws@).len() == ws@.len());
                proof {
                    lemma_saved_window_nonempty(window_views(ws@), av[i as int].0, own@, av[i as int].1, dv);
                }
                match first_saved(&ws, apps[i].name.as_str(), own, apps[i].process_id, displays.as_slice()) {
                    Some((dn, p, sz)) => {
                        let ghost before = entries@;
                        entries.push((apps[i].name.clone(), dn, p, sz));
                        assert(entry_views(entries@) =~= entry_views(before).push(entry_view(entries@[before.len() as int])));
                        skipped = skipped + (ws.len() - 1);
                    },
                    None => {
                        skipped = skipped + ws.len();
                    },
                }
            },
        }
        i = i + 1;
    }
    if entries.len() == 0 {
        return Err(SaveError { message: to_owned_string("保存すべきウィンドウが見つかりませんでした。アプリケーションを起動してから再度お試しください") });
    }
    let configs = display_configs(&displays, &entries);
    let file = LayoutFile {
        version: to_owned_string("1.0"),
        layouts: vec![LayoutConfig { displays: configs }],
    };
    let count = entries.len();
    let result = SaveResult {
        all_success: failed.len() == 0,
        saved_app_count: count,
        saved_window_count: count,
        skipped_window_count: skipped,
        failed_apps: failed,
    };
    Ok((file, result))
}

/// Every window that the queries list is either saved or skipped, and at
/// most one window of each application is saved.
pub proof fn law_saved_or_skipped(apps: Seq<(Seq<char>, Option<i32>)>, runs: Seq<Result<ScriptOutput, AppLaunchError>>, own: Seq<i32>, ds: Seq<DisplayView>, n: int)
    requires
        0 <= n <= apps.len(),
    ensures
        tally(apps, runs, own, ds, n).0.len() + tally(apps, runs, own, ds, n).1 == listed_total(runs, n),
        tally(apps, runs, own, ds, n).0.len() <= n,
    decreases n,
{
    if n > 0 {
        law_saved_or_skipped(apps, runs, own, ds, n - 1);
        match windows_result(runs[n - 1]) {
            Ok(ws) => lemma_saved_window_nonempty(ws, apps[n - 1].0, own, apps[n - 1].1, ds),
            Err(_) => {},
        }
    }
}

/// The saved window of an application is the first that is included and
/// lies on a display, and it is saved under the first display that holds
/// its center.
pub proof fn law_saved_window_first(ws: Seq<WindowView>, app: Seq<char>, own: Seq<i32>, pid: Option<i32>, ds: Seq<DisplayView>)
    ensures
        saved_window(ws, app, own, pid, ds) matches Some(e) ==> exists|i: int| 0 <= i < ws.len()
            && include_window(ws[i], app, own, pid)
            && (display_at(ds, window_center(ws[i])) matches Some(d) && d.0 == e.0 && display_contains(d, window_center(ws[i])))
            && ws[i].1 == e.1 && ws[i].2 == e.2
            && forall|j: int| 0 <= j < i ==> !(include_window(ws[j], app, own, pid) && display_at(ds, window_center(ws[j])) is Some),
    decreases ws.len(),
{
    if ws.len() > 0 {
        if include_window(ws[0], app, own, pid) && display_at(ds, window_center(ws[0])) is Some {
            lemma_display_at_contains(ds, window_center(ws[0]));
        } else {
            law_saved_window_first(ws.drop_first(), app, own, pid, ds);
            if saved_window(ws, app, own, pid, ds) is Some {
                let e = saved_window(ws, app, own, pid, ds)->0;
                let i = choose|i: int| 0 <= i < ws.drop_first().len()
                    && include_window(ws.drop_first()[i], app, own, pid)
                    && (display_at(ds, window_center(ws.drop_first()[i])) matches Some(d) && d.0 == e.0 && display_contains(d, window_center(ws.drop_first()[i])))
                    && ws.drop_first()[i].1 == e.1 && ws.drop_first()[i].2 == e.2
                    && forall|j: int| 0 <= j < i ==> !(include_window(ws.drop_first()[j], app, own, pid) && display_at(ds, window_center(ws.drop_first()[j])) is Some);
                assert forall|j: int| 0 <= j < i + 1 implies !(include_window(ws[j], app, own, pid) && display_at(ds, window_center(ws[j])) is Some) by {
                    if j > 0 {
                        assert(ws[j] == ws.drop_first()[j - 1]);
                    }
                }
                assert(ws[i + 1] == ws.drop_first()[i]);
            }
        }
    }
}

proof fn lemma_display_at_contains(ds: Seq<DisplayView>, p: (int, int))
    ensures
        display_at(ds, p) matches Some(d) ==> display_contains(d, p),
    decreases ds.len(),
{
    if ds.len() > 0 && !display_contains(ds[0], p) {
        lemma_display_at_contains(ds.drop_first(), p);
    }
}

/// No saved window belongs to an application whose process is among the
/// left-out ones: every saved entry is of a listed application whose
/// process is not among them.
pub proof fn law_own_terminal_left_out(apps: Seq<(Seq<char>, Option<i32>)>, runs: Seq<Result<ScriptOutput, AppLaunchError>>, own: Seq<i32>, ds: Seq<DisplayView>, n: int)
    requires
        0 <= n <= apps.len(),
    ensures
        forall|k: int| 0 <= k < tally(apps, runs, own, ds, n).0.len() ==> exists|i: int| 0 <= i < n
            && apps[i].0 == #[trigger] tally(apps, runs, own, ds, n).0[k].0
            && !(apps[i].1 matches Some(pid) && own.contains(pid)),
    decreases n,
{
    if n > 0 {
        law_own_terminal_left_out(apps, runs, own, ds, n - 1);
        let prev = tally(apps, runs, own, ds, n - 1);
        let cur = tally(apps, runs, own, ds, n);
        match windows_result(runs[n - 1]) {
            Ok(ws) => {
                lemma_saved_window_included(ws, apps[n - 1].0, own, apps[n - 1].1, ds);
            },
            Err(_) => {},
        }
        assert forall|k: int| 0 <= k < cur.0.len() implies exists|i: int| 0 <= i < n
            && apps[i].0 == #[trigger] cur.0[k].0
            && !(apps[i].1 matches Some(pid) && own.contains(pid)) by {
            if k < prev.0.len() {
                assert(cur.0[k] == prev.0[k]);
                let i = choose|i: int| 0 <= i < n - 1 && apps[i].0 == #[trigger] prev.0[k].0
                    && !(apps[i].1 matches Some(pid) && own.contains(pid));
                assert(0 <= i < n);
            } else {
                assert(cur.0[k].0 == apps[n - 1].0);
            }
        }
    }
}

proof fn lemma_saved_window_included(ws: Seq<WindowView>, app: Seq<char>, own: Seq<i32>, pid: Option<i32>, ds: Seq<DisplayView>)
    ensures
        saved_window(ws, app, own, pid, ds) is Some ==> !(pid matches Some(p) && own.contains(p)),
    decreases ws.len(),
{
    if ws.len() > 0 {
        lemma_saved_window_included(ws.drop_first(), app, own, pid, ds);
    }
}

} // verus!
