//! Placing windows through the standard "Window" menu of macOS: the tiling
//! items of "Move & Resize", "Enter Full Screen", and "Move to <display>".
//!
//! Each operation is a script that activates the application, looks up the
//! menu item under any of its spellings, clicks it and prints `Success`, or
//! prints `Error: ...`.  The caller runs the script (one at a time: every
//! script brings its application to the front) and hands the output back.
use vstd::prelude::*;
use crate::applescript::app::AppLaunchError;
use crate::applescript::osascript::ScriptOutput;
use crate::applescript::scripts::{
    FIND_WINDOW_MENU_SCRIPT, LOOKUP_TAIL, MENU_SCRIPT_AFTER_APP, MENU_SCRIPT_START, MENU_SCRIPT_TRY,
    MOVE_AFTER_CONDITION, MOVE_AFTER_FIND, MOVE_RESIZE_LOOKUP_HEAD, MOVE_TAIL, TILE_AFTER_FIND,
    TILE_AFTER_LOOKUP, TILE_TAIL, WINDOW_MENU_LOOKUP_HEAD,
};
use crate::applescript::utils::escape_applescript_string;
use crate::config::{tile_candidates, TileKeyword};
use crate::text::{
    chars_eq, chars_of, concat2, contains, escape, join, str_contains, str_views, string_from_chars,
    trim, trim_chars,
};

verus! {

/// What a display move prints when the window is already on that display,
/// so that the menu has no item for it.
pub const DISPLAY_MENU_ITEM_NOT_FOUND_MESSAGE: &'static str = "ディスプレイ移動メニュー項目が見つかりません";

/// A failure of a menu operation.
#[derive(Debug)]
pub struct WindowMenuError {
    pub message: String,
}

impl WindowMenuError {
    /// Whether a display move failed only because the window already is on
    /// the target display (the menu has no item for it then).
    pub fn is_display_menu_item_not_found(&self) -> (r: bool)
        ensures
            r == contains(self.message@, DISPLAY_MENU_ITEM_NOT_FOUND_MESSAGE@),
    {
        str_contains(self.message.as_str(), DISPLAY_MENU_ITEM_NOT_FOUND_MESSAGE)
    }
}

/// `var is "candidate"`, the candidate escaped.
pub open spec fn match_clause(var: Seq<char>, c: Seq<char>) -> Seq<char> {
    var + " is \""@ + escape(c) + "\""@
}

/// `var is "A" or var is "B" or ...` over the candidates, in order.
pub open spec fn name_match_condition(var: Seq<char>, candidates: Seq<Seq<char>>) -> Seq<char> {
    join(candidates.map_values(|c: Seq<char>| match_clause(var, c)), " or "@)
}

/// Builds the AppleScript condition that a name is any of `candidates`.
pub fn build_name_match_condition(var_name: &str, candidates: &[&str]) -> (r: String)
    ensures
        r@ == name_match_condition(var_name@, str_views(candidates@)),
{
    let ghost clauses = str_views(candidates@).map_values(|c: Seq<char>| match_clause(var_name@, c));
    let mut r = String::new();
    let mut i: usize = 0;
    assert(clauses.take(0) =~= Seq::<Seq<char>>::empty());
    while i < candidates.len()
        invariant
            i <= candidates@.len(),
            clauses == str_views(candidates@).map_values(|c: Seq<char>| match_clause(var_name@, c)),
            r@ == join(clauses.take(i as int), " or "@),
        decreases candidates@.len() - i,
    {
        assert(clauses.take(i + 1).drop_last() =~= clauses.take(i as int));
        assert(clauses[i as int] == match_clause(var_name@, candidates@[i as int]@));
        let ghost before = r@;
        if i != 0 {
            r.append(" or ");
        }
        let e = escape_applescript_string(candidates[i]);
        r.append(var_name);
        r.append(" is \"");
        r.append(e.as_str());
        r.append("\"");
        if i == 0 {
            assert(r@ =~= clauses.take(1)[0]);
        } else {
            assert(r@ =~= before + " or "@ + clauses[i as int]);
        }
        i = i + 1;
    }
    assert(clauses.take(candidates@.len() as int) =~= clauses);
    r
}

/// The start of every menu script: activate the application, then find its
/// "Window" menu.
pub open spec fn menu_script_head(app: Seq<char>) -> Seq<char> {
    MENU_SCRIPT_START@ + escape(app) + MENU_SCRIPT_AFTER_APP@ + escape(app) + MENU_SCRIPT_TRY@
        + FIND_WINDOW_MENU_SCRIPT@
}

/// The lookup of a tiling item: in the "Move & Resize" submenu, or in the
/// "Window" menu itself for full screen.
pub open spec fn tile_lookup(k: TileKeyword) -> Seq<char> {
    (if k != TileKeyword::FullScreen { MOVE_RESIZE_LOOKUP_HEAD@ } else { WINDOW_MENU_LOOKUP_HEAD@ })
        + name_match_condition("n"@, tile_candidates(k)) + LOOKUP_TAIL@
}

/// The script that clicks the tiling item of `k` for `app`.
pub open spec fn tile_script(app: Seq<char>, k: TileKeyword) -> Seq<char> {
    menu_script_head(app) + TILE_AFTER_FIND@ + tile_lookup(k) + TILE_AFTER_LOOKUP@
        + escape(tile_candidates(k)[0]) + TILE_TAIL@
}

/// The menu item names of a move to `display`, Japanese first.
pub open spec fn move_candidates(display: Seq<char>) -> Seq<Seq<char>> {
    seq![display + "に移動"@, "Move to "@ + display]
}

/// The script that clicks "Move to `display`" for `app`.
pub open spec fn move_script(app: Seq<char>, display: Seq<char>) -> Seq<char> {
    menu_script_head(app) + MOVE_AFTER_FIND@ + name_match_condition("n"@, move_candidates(display))
        + MOVE_AFTER_CONDITION@ + DISPLAY_MENU_ITEM_NOT_FOUND_MESSAGE@ + MOVE_TAIL@
}

fn push_menu_script_head(s: &mut String, app_name: &str)
    ensures
        final(s)@ == old(s)@ + menu_script_head(app_name@),
{
    let e = escape_applescript_string(app_name);
    s.append(MENU_SCRIPT_START);
    s.append(e.as_str());
    s.append(MENU_SCRIPT_AFTER_APP);
    s.append(e.as_str());
    s.append(MENU_SCRIPT_TRY);
    s.append(FIND_WINDOW_MENU_SCRIPT);
}

/// The script that places the front window of `app_name` as `tile_keyword`
/// says, through the "Window" menu.
pub fn tile_window_via_menu_script(app_name: &str, tile_keyword: &TileKeyword) -> (r: String)
    ensures
        r@ == tile_script(app_name@, *tile_keyword),
{
    let candidates = tile_keyword.menu_item_name_candidates();
    let condition = build_name_match_condition("n", candidates);
    let mut s = String::new();
    push_menu_script_head(&mut s, app_name);
    s.append(TILE_AFTER_FIND);
    if tile_keyword.is_submenu_item() {
        s.append(MOVE_RESIZE_LOOKUP_HEAD);
    } else {
        s.append(WINDOW_MENU_LOOKUP_HEAD);
    }
    s.append(condition.as_str());
    s.append(LOOKUP_TAIL);
    s.append(TILE_AFTER_LOOKUP);
    let item = escape_applescript_string(tile_keyword.menu_item_name());
    s.append(item.as_str());
    s.append(TILE_TAIL);
    s
}

/// The script that moves the front window of `app_name` to `display_name`
/// through the "Window" menu.
pub fn move_window_to_display_via_menu_script(app_name: &str, display_name: &str) -> (r: String)
    ensures
        r@ == move_script(app_name@, display_name@),
{
    let ja = concat2(display_name, "に移動");
    let en = concat2("Move to ", display_name);
    let candidates: [&str; 2] = [ja.as_str(), en.as_str()];
    assert(str_views(candidates@) =~= move_candidates(display_name@));
    let condition = build_name_match_condition("n", candidates.as_slice());
    let mut s = String::new();
    push_menu_script_head(&mut s, app_name);
    s.append(MOVE_AFTER_FIND);
    s.append(condition.as_str());
    s.append(MOVE_AFTER_CONDITION);
    s.append(DISPLAY_MENU_ITEM_NOT_FOUND_MESSAGE);
    s.append(MOVE_TAIL);
    s
}

/// What a menu script's run means: success when it printed `Success`; the
/// printed text when it printed anything else; `failure: <stderr>` when the
/// run failed or printed nothing.
pub open spec fn menu_action_result(run: Result<ScriptOutput, AppLaunchError>, failure: Seq<char>) -> Result<(), Seq<char>> {
    match run {
        Err(e) => Err(e.message@),
        Ok(o) => if !o.success {
            Err(failure + ": "@ + o.stderr@)
        } else if trim(o.stdout@) == "Success"@ {
            Ok(())
        } else if trim(o.stdout@).len() == 0 {
            Err(failure + ": "@ + o.stderr@)
        } else {
            Err(trim(o.stdout@))
        },
    }
}

fn run_menu_action_script(run: &Result<ScriptOutput, AppLaunchError>, failure_prefix: &str) -> (r: Result<(), WindowMenuError>)
    ensures
        match menu_action_result(*run, failure_prefix@) {
            Ok(()) => r is Ok,
            Err(m) => r matches Err(e) && e.message@ == m,
        },
{
    let o = match run {
        Err(e) => {
            return Err(WindowMenuError { message: e.message.clone() });
        },
        Ok(o) => o,
    };
    if !o.success {
        let head = concat2(failure_prefix, ": ");
        return Err(WindowMenuError { message: concat2(head.as_str(), o.stderr.as_str()) });
    }
    let cs = chars_of(o.stdout.as_str());
    let t = trim_chars(cs.as_slice());
    let ok = chars_of("Success");
    if chars_eq(t.as_slice(), ok.as_slice()) {
        return Ok(());
    }
    if t.len() == 0 {
        let head = concat2(failure_prefix, ": ");
        return Err(WindowMenuError { message: concat2(head.as_str(), o.stderr.as_str()) });
    }
    Err(WindowMenuError { message: string_from_chars(t.as_slice()) })
}

/// Reads what the tiling script printed.
pub fn tile_window_via_menu(run: &Result<ScriptOutput, AppLaunchError>) -> (r: Result<(), WindowMenuError>)
    ensures
        match menu_action_result(*run, "OS標準タイリング操作に失敗しました"@) {
            Ok(()) => r is Ok,
            Err(m) => r matches Err(e) && e.message@ == m,
        },
{
    run_menu_action_script(run, "OS標準タイリング操作に失敗しました")
}

/// Reads what the display move script printed.
pub fn move_window_to_display_via_menu(run: &Result<ScriptOutput, AppLaunchError>) -> (r: Result<(), WindowMenuError>)
    ensures
        match menu_action_result(*run, "ディスプレイ移動メニュー操作に失敗しました"@) {
            Ok(()) => r is Ok,
            Err(m) => r matches Err(e) && e.message@ == m,
        },
{
    run_menu_action_script(run, "ディスプレイ移動メニュー操作に失敗しました")
}

} // verus!
