//! Windows of an application: the scripts that read and move them, and what
//! their output means.
use vstd::prelude::*;
use crate::applescript::app::AppLaunchError;
use crate::applescript::osascript::{checked_output, run_text, ScriptOutput};
use crate::applescript::scripts::{
    ALL_WINDOWS_HEAD, ALL_WINDOWS_TAIL, NEW_WINDOW_HEAD, NEW_WINDOW_TAIL, PAIR_END, PAIR_SEPARATOR,
    RESIZE_AFTER_APP, RESIZE_HEAD, RESIZE_TAIL, SELECT_BY_TITLE_HEAD, SELECT_BY_TITLE_TAIL,
    SELECT_FIRST_WINDOW, SET_POSITION_HEAD, SET_SIZE_HEAD, WINDOW_INFO_AFTER_APP, WINDOW_INFO_HEAD,
    WINDOW_INFO_TAIL,
};
use crate::applescript::utils::{
    escape_applescript_string, parse_single_window, parse_window_list, spec_parse_window,
    spec_window_list, window_view, window_views, WindowView,
};
use crate::text::{
    chars_occur_at, chars_of, contains, escape, int_decimal, push_decimal,
    starts_with, str_contains, string_from_chars,
};

verus! {

/// A window as the window query reports it.
#[derive(Debug)]
pub struct WindowInfo {
    pub title: String,
    pub position: (i32, i32),
    pub size: (i32, i32),
    pub minimized: bool,
    pub visible: bool,
}

/// A failed window query.
#[derive(Debug)]
pub struct WindowInfoError {
    pub message: String,
}

/// A window that was moved or resized.
#[derive(Debug)]
pub struct WindowResizeResult {
    pub status: String,
    pub message: String,
    pub new_position: Option<(i32, i32)>,
    pub new_size: Option<(i32, i32)>,
}

/// A failed move or resize.
#[derive(Debug)]
pub struct WindowResizeError {
    pub message: String,
}

impl WindowInfo {
    /// A copy of this window's information.
    pub fn copy(&self) -> (r: WindowInfo)
        ensures
            r == *self,
    {
        WindowInfo {
            title: self.title.clone(),
            position: self.position,
            size: self.size,
            minimized: self.minimized,
            visible: self.visible,
        }
    }
}

/// The window list query for an application.
pub open spec fn all_windows_script(app: Seq<char>) -> Seq<char> {
    ALL_WINDOWS_HEAD@ + escape(app) + ALL_WINDOWS_TAIL@
}

/// The script that lists the windows of `app_name`.
pub fn get_all_windows_script(app_name: &str) -> (r: String)
    ensures
        r@ == all_windows_script(app_name@),
{
    let mut s = crate::text::to_owned_string(ALL_WINDOWS_HEAD);
    let e = escape_applescript_string(app_name);
    s.append(e.as_str());
    s.append(ALL_WINDOWS_TAIL);
    s
}

/// What a window query printed: its failure message, an `error:` line, or
/// the text to parse.
pub open spec fn query_text(run: Result<ScriptOutput, AppLaunchError>, failure: Seq<char>) -> Result<Seq<char>, Seq<char>> {
    match run_text(run, failure) {
        Err(m) => Err(m),
        Ok(t) => if starts_with(t, "error:"@) {
            Err(t)
        } else {
            Ok(t)
        },
    }
}

fn query_output(run: &Result<ScriptOutput, AppLaunchError>, failure: &str) -> (r: Result<Vec<char>, WindowInfoError>)
    ensures
        match r {
            Ok(t) => query_text(*run, failure@) == Ok::<Seq<char>, Seq<char>>(t@),
            Err(e) => query_text(*run, failure@) == Err::<Seq<char>, Seq<char>>(e.message@),
        },
{
    match checked_output(run, failure) {
        Err(m) => Err(WindowInfoError { message: m }),
        Ok(t) => {
            let marker = chars_of("error:");
            if chars_occur_at(t.as_slice(), marker.as_slice(), 0) {
                Err(WindowInfoError { message: string_from_chars(t.as_slice()) })
            } else {
                Ok(t)
            }
        },
    }
}

/// Reads what the window list query for an application printed.
pub fn get_all_windows(run: &Result<ScriptOutput, AppLaunchError>) -> (r: Result<Vec<WindowInfo>, WindowInfoError>)
    ensures
        match query_text(*run, "ウィンドウ一覧の取得に失敗しました: "@) {
            Err(m) => r matches Err(e) && e.message@ == m,
            Ok(t) => r matches Ok(ws) && window_views(ws@) == spec_window_list(t),
        },
{
    let t = query_output(run, "ウィンドウ一覧の取得に失敗しました: ")?;
    let s = string_from_chars(t.as_slice());
    parse_window_list(s.as_str())
}

/// How a script picks its window: by a title fragment, or the first window.
pub open spec fn select_window(title: Option<Seq<char>>) -> Seq<char> {
    match title {
        Some(t) => SELECT_BY_TITLE_HEAD@ + escape(t) + SELECT_BY_TITLE_TAIL@,
        None => SELECT_FIRST_WINDOW@,
    }
}

pub open spec fn opt_view(title: Option<&str>) -> Option<Seq<char>> {
    match title {
        Some(t) => Some(t@),
        None => None,
    }
}

fn push_select_window(s: &mut String, window_title: Option<&str>)
    ensures
        final(s)@ == old(s)@ + select_window(opt_view(window_title)),
{
    match window_title {
        Some(title) => {
            s.append(SELECT_BY_TITLE_HEAD);
            let e = escape_applescript_string(title);
            s.append(e.as_str());
            s.append(SELECT_BY_TITLE_TAIL);
        },
        None => {
            s.append(SELECT_FIRST_WINDOW);
        },
    }
}

/// The single window query.
pub open spec fn window_info_script(app: Seq<char>, title: Option<Seq<char>>) -> Seq<char> {
    WINDOW_INFO_HEAD@ + escape(app) + WINDOW_INFO_AFTER_APP@ + select_window(title) + WINDOW_INFO_TAIL@
}

/// The script that reads one window of `app_name`: the first whose name
/// contains `window_title`, or the first window.
pub fn get_window_info_script(app_name: &str, window_title: Option<&str>) -> (r: String)
    ensures
        r@ == window_info_script(app_name@, opt_view(window_title)),
{
    let mut s = crate::text::to_owned_string(WINDOW_INFO_HEAD);
    let e = escape_applescript_string(app_name);
    s.append(e.as_str());
    s.append(WINDOW_INFO_AFTER_APP);
    push_select_window(&mut s, window_title);
    s.append(WINDOW_INFO_TAIL);
    s
}

/// Reads what the single window query printed.
pub fn get_window_info(run: &Result<ScriptOutput, AppLaunchError>) -> (r: Result<WindowInfo, WindowInfoError>)
    ensures
        match query_text(*run, "ウィンドウ情報の取得に失敗しました: "@) {
            Err(m) => r matches Err(e) && e.message@ == m,
            Ok(t) => match r {
                Ok(w) => spec_parse_window(t) == Ok::<WindowView, Seq<char>>(window_view(w)),
                Err(e) => spec_parse_window(t) == Err::<WindowView, Seq<char>>(e.message@),
            },
        },
{
    let t = query_output(run, "ウィンドウ情報の取得に失敗しました: ")?;
    let s = string_from_chars(t.as_slice());
    parse_single_window(s.as_str())
}

/// The index of the first window whose title contains `title`.
pub open spec fn first_titled(ws: Seq<WindowInfo>, title: Seq<char>) -> Option<int>
    decreases ws.len(),
{
    if ws.len() == 0 {
        None
    } else if contains(ws[0].title@, title) {
        Some(0)
    } else {
        match first_titled(ws.drop_first(), title) {
            Some(i) => Some(i + 1),
            None => None,
        }
    }
}

/// The first of an application's windows whose title contains
/// `window_title`, from the result of the window list query.
pub fn find_window_by_title(windows: Result<Vec<WindowInfo>, WindowInfoError>, window_title: &str) -> (r: Result<Option<WindowInfo>, WindowInfoError>)
    ensures
        match windows {
            Err(e) => r matches Err(e2) && e2 == e,
            Ok(ws) => r matches Ok(found) && match first_titled(ws@, window_title@) {
                Some(i) => found == Some(ws@[i]),
                None => found.is_none(),
            },
        },
{
    let ghost input = windows;
    let ws = match windows {
        Ok(ws) => ws,
        Err(e) => {
            return Err(e);
        },
    };
    let mut i: usize = 0;
    assert(ws@.skip(0) =~= ws@);
    while i < ws.len()
        invariant
            input == windows,
            input == Ok::<Vec<WindowInfo>, WindowInfoError>(ws),
            i <= ws@.len(),
            first_titled(ws@, window_title@) == match first_titled(ws@.skip(i as int), window_title@) {
                Some(j) => Some(j + i),
                None => None::<int>,
            },
        decreases ws@.len() - i,
    {
        assert(ws@.skip(i as int).drop_first() =~= ws@.skip(i + 1));
        assert(ws@.skip(i as int)[0] == ws@[i as int]);
        if str_contains(ws[i].title.as_str(), window_title) {
            return Ok(Some(ws[i].copy()));
        }
        i = i + 1;
    }
    Ok(None)
}

/// The text of a pair of numbers as a script writes it: `{a, b}`.
pub open spec fn pair_text(head: Seq<char>, p: (i32, i32)) -> Seq<char> {
    head + int_decimal(p.0 as int) + PAIR_SEPARATOR@ + int_decimal(p.1 as int) + PAIR_END@
}

/// The move-and-resize script.
pub open spec fn resize_script(app: Seq<char>, title: Option<Seq<char>>, position: Option<(i32, i32)>, size: Option<(i32, i32)>) -> Seq<char> {
    RESIZE_HEAD@ + escape(app) + RESIZE_AFTER_APP@ + select_window(title) + match position {
        Some(p) => pair_text(SET_POSITION_HEAD@, p),
        None => Seq::empty(),
    } + match size {
        Some(s) => pair_text(SET_SIZE_HEAD@, s),
        None => Seq::empty(),
    } + RESIZE_TAIL@
}

fn push_pair(s: &mut String, head: &str, p: (i32, i32))
    ensures
        final(s)@ == old(s)@ + pair_text(head@, p),
{
    s.append(head);
    push_decimal(s, p.0 as i64);
    s.append(PAIR_SEPARATOR);
    push_decimal(s, p.1 as i64);
    s.append(PAIR_END);
}

/// The script that moves and resizes a window of `app_name`.
pub fn resize_window_script(app_name: &str, window_title: Option<&str>, position: Option<(i32, i32)>, size: Option<(i32, i32)>) -> (r: String)
    ensures
        r@ == resize_script(app_name@, opt_view(window_title), position, size),
{
    let mut s = crate::text::to_owned_string(RESIZE_HEAD);
    let e = escape_applescript_string(app_name);
    s.append(e.as_str());
    s.append(RESIZE_AFTER_APP);
    push_select_window(&mut s, window_title);
    let ghost before_pos = s@;
    match position {
        Some(p) => push_pair(&mut s, SET_POSITION_HEAD, p),
        None => {},
    }
    let ghost before_size = s@;
    match size {
        Some(z) => push_pair(&mut s, SET_SIZE_HEAD, z),
        None => {},
    }
    s.append(RESIZE_TAIL);
    assert(s@ =~= resize_script(app_name@, opt_view(window_title), position, size));
    s
}

/// Reads what the move-and-resize script printed.  Any output mentioning
/// `error` is a failure; otherwise the result records what was asked for.
pub fn resize_window(run: &Result<ScriptOutput, AppLaunchError>, position: Option<(i32, i32)>, size: Option<(i32, i32)>) -> (r: Result<WindowResizeResult, WindowResizeError>)
    ensures
        match run_text(*run, "ウィンドウのリサイズに失敗しました: "@) {
            Err(m) => r matches Err(e) && e.message@ == m,
            Ok(t) => if contains(t, "error"@) {
                r matches Err(e) && e.message@ == t
            } else {
                r matches Ok(res) && res.status@ == "success"@ && res.message@ == "ウィンドウをリサイズしました"@
                    && res.new_position == position && res.new_size == size
            },
        },
{
    let t = match checked_output(run, "ウィンドウのリサイズに失敗しました: ") {
        Ok(t) => t,
        Err(m) => {
            return Err(WindowResizeError { message: m });
        },
    };
    let marker = chars_of("error");
    if crate::text::chars_contains(t.as_slice(), marker.as_slice()) {
        return Err(WindowResizeError { message: string_from_chars(t.as_slice()) });
    }
    Ok(WindowResizeResult {
        status: crate::text::to_owned_string("success"),
        message: crate::text::to_owned_string("ウィンドウをリサイズしました"),
        new_position: position,
        new_size: size,
    })
}

/// The script that opens a new window through the application's File menu.
pub open spec fn new_window_script(app: Seq<char>) -> Seq<char> {
    NEW_WINDOW_HEAD@ + escape(app) + NEW_WINDOW_TAIL@
}

/// The script that opens a new window of `app_name`.
pub fn create_new_window_script(app_name: &str) -> (r: String)
    ensures
        r@ == new_window_script(app_name@),
{
    let mut s = crate::text::to_owned_string(NEW_WINDOW_HEAD);
    let e = escape_applescript_string(app_name);
    s.append(e.as_str());
    s.append(NEW_WINDOW_TAIL);
    s
}

/// Reads what the new window script printed.
pub fn create_new_window(run: &Result<ScriptOutput, AppLaunchError>) -> (r: Result<(), WindowInfoError>)
    ensures
        match query_text(*run, "新規ウィンドウ作成に失敗しました: "@) {
            Err(m) => r matches Err(e) && e.message@ == m,
            Ok(_) => r is Ok,
        },
{
    query_output(run, "新規ウィンドウ作成に失敗しました: ")?;
    Ok(())
}

} // verus!
