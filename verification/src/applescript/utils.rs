//! Escaping, window classification and the parsing of window lists.
use vstd::prelude::*;
use crate::applescript::window::{WindowInfo, WindowInfoError};
use crate::text::{
    int_decimal, lemma_parse_int_decimal, lemma_split_join, lemma_split_none,
    chars_of, contains, escape, escape_chars, parse_bool, parse_bool_chars, parse_i32,
    parse_i32_chars, split, split_chars, str_contains, str_views, strs_contain,
    string_from_chars, trim, trim_chars, views, is_ws, join, trim_end, trim_start,
};

verus! {

/// Escapes text for use inside an AppleScript string literal.
pub fn escape_applescript_string(s: &str) -> (r: String)
    ensures
        r@ == escape(s@),
{
    let cs = chars_of(s);
    escape_chars(cs.as_slice())
}

/// Whether a window is managed or part of the system's own interface.
#[derive(Debug, Clone, Copy, PartialEq, Eq, Structural)]
pub enum WindowType {
    Regular,
    System,
}

/// The applications that come with macOS.
pub open spec fn system_apps() -> Seq<Seq<char>> {
    seq![
        "Finder"@, "Mail"@, "Safari"@, "Calendar"@, "Notes"@, "Maps"@, "Messages"@, "Contacts"@,
        "Reminders"@, "Stocks"@, "Weather"@, "Podcasts"@, "News"@, "Home"@, "Music"@, "TV"@,
        "Books"@, "Dictionary"@, "Thesaurus"@, "Migration Assistant"@, "Photo Booth"@,
        "Preview"@, "TextEdit"@, "System Preferences"@, "System Settings"@, "Disk Utility"@,
        "Terminal"@, "Console"@, "Activity Monitor"@, "Bluetooth Screen Lock"@, "App Store"@,
        "iBooks"@, "Keynote"@, "Numbers"@, "Pages"@, "FileMerge"@, "Xcode"@,
    ]
}

/// Whether `app_name` is one of the applications that come with macOS.
pub fn is_system_app(app_name: &str) -> (r: bool)
    ensures
        r == system_apps().contains(app_name@),
{
    let apps: &[&str] = &[
        "Finder", "Mail", "Safari", "Calendar", "Notes", "Maps", "Messages", "Contacts",
        "Reminders", "Stocks", "Weather", "Podcasts", "News", "Home", "Music", "TV", "Books",
        "Dictionary", "Thesaurus", "Migration Assistant", "Photo Booth", "Preview", "TextEdit",
        "System Preferences", "System Settings", "Disk Utility", "Terminal", "Console",
        "Activity Monitor", "Bluetooth Screen Lock", "App Store", "iBooks", "Keynote", "Numbers",
        "Pages", "FileMerge", "Xcode",
    ];
    assert(str_views(apps@) =~= system_apps());
    strs_contain(apps, app_name)
}

/// Processes that draw the system's own interface.
pub open spec fn excluded_app_names() -> Seq<Seq<char>> {
    seq![
        "Dock"@, "Menubar"@, "WindowManager"@, "LoginWindow"@, "SystemUIServer"@,
        "ControlCenter"@, "NotificationCenter"@, "Spotlight"@, "Finder Sync UI"@,
        "Quick Look"@, "Accessibility Inspector"@,
    ]
}

/// Window title fragments of the system's own interface.
pub open spec fn excluded_title_patterns() -> Seq<Seq<char>> {
    seq![
        "Menu"@, "Dock"@, "Notification"@, "Spotlight"@, "Control Center"@,
        "Accessibility Inspector"@,
    ]
}

/// A window is left alone when its process draws the system interface, or
/// when its title contains one of the system interface fragments.
pub open spec fn spec_is_excluded(app: Seq<char>, title: Seq<char>) -> bool {
    excluded_app_names().contains(app) || exists|i: int|
        0 <= i < excluded_title_patterns().len() && contains(title, #[trigger] excluded_title_patterns()[i])
}

/// Whether a window belongs to the system's own interface.
pub fn is_excluded_window(app_name: &str, window_title: &str) -> (r: bool)
    ensures
        r == spec_is_excluded(app_name@, window_title@),
{
    let names: &[&str] = &[
        "Dock", "Menubar", "WindowManager", "LoginWindow", "SystemUIServer", "ControlCenter",
        "NotificationCenter", "Spotlight", "Finder Sync UI", "Quick Look",
        "Accessibility Inspector",
    ];
    assert(str_views(names@) =~= excluded_app_names());
    if strs_contain(names, app_name) {
        return true;
    }
    let patterns: &[&str] = &[
        "Menu", "Dock", "Notification", "Spotlight", "Control Center", "Accessibility Inspector",
    ];
    assert(str_views(patterns@) =~= excluded_title_patterns());
    let mut i: usize = 0;
    while i < patterns.len()
        invariant
            i <= patterns@.len(),
            str_views(patterns@) == excluded_title_patterns(),
            forall|j: int| 0 <= j < i ==> !contains(window_title@, #[trigger] excluded_title_patterns()[j]),
        decreases patterns@.len() - i,
    {
        assert(excluded_title_patterns()[i as int] == patterns@[i as int]@);
        if str_contains(window_title, patterns[i]) {
            return true;
        }
        i = i + 1;
    }
    false
}

/// Sorts a window into system interface or regular window.
pub fn classify_window(app_name: &str, window_title: &str) -> (r: WindowType)
    ensures
        r == (if spec_is_excluded(app_name@, window_title@) {
            WindowType::System
        } else {
            WindowType::Regular
        }),
{
    if is_excluded_window(app_name, window_title) {
        WindowType::System
    } else {
        WindowType::Regular
    }
}

/// A window as plain values: title, position, size, minimized, visible.
pub type WindowView = (Seq<char>, (i32, i32), (i32, i32), bool, bool);

pub open spec fn window_view(w: WindowInfo) -> WindowView {
    (w.title@, w.position, w.size, w.minimized, w.visible)
}

/// What one window entry `title|x,y|w,h|minimized|visible` says, or the
/// message for what is wrong with it.
pub open spec fn spec_parse_window(entry: Seq<char>) -> Result<WindowView, Seq<char>> {
    let parts = split(entry, '|');
    if parts.len() < 5 {
        Err("ウィンドウ情報の形式が不正です: "@ + entry)
    } else {
        let pos = split(parts[1], ',');
        let sz = split(parts[2], ',');
        if pos.len() != 2 {
            Err("ウィンドウ位置の解析に失敗しました"@)
        } else if parse_i32(pos[0]) is None {
            Err("ウィンドウのx座標が無効です"@)
        } else if parse_i32(pos[1]) is None {
            Err("ウィンドウのy座標が無効です"@)
        } else if sz.len() != 2 {
            Err("ウィンドウサイズの解析に失敗しました"@)
        } else if parse_i32(sz[0]) is None {
            Err("ウィンドウの幅が無効です"@)
        } else if parse_i32(sz[1]) is None {
            Err("ウィンドウの高さが無効です"@)
        } else if parse_bool(parts[3]) is None {
            Err("ウィンドウの最小化状態が無効です: "@ + parts[3])
        } else if parse_bool(parts[4]) is None {
            Err("ウィンドウの表示状態が無効です: "@ + parts[4])
        } else {
            Ok(
                (
                    parts[0],
                    (parse_i32(pos[0])->0, parse_i32(pos[1])->0),
                    (parse_i32(sz[0])->0, parse_i32(sz[1])->0),
                    parse_bool(parts[3])->0,
                    parse_bool(parts[4])->0,
                ),
            )
        }
    }
}

fn info_error(m: String) -> (e: WindowInfoError)
    ensures
        e.message@ == m@,
{
    WindowInfoError { message: m }
}

fn parse_window_chars(entry: &[char]) -> (r: Result<WindowInfo, WindowInfoError>)
    ensures
        match r {
            Ok(w) => spec_parse_window(entry@) == Ok::<WindowView, Seq<char>>(window_view(w)),
            Err(e) => spec_parse_window(entry@) == Err::<WindowView, Seq<char>>(e.message@),
        },
{
    let parts = split_chars(entry, '|');
    assert(views(parts@).len() == parts@.len());
    if parts.len() < 5 {
        let mut m = crate::text::to_owned_string("ウィンドウ情報の形式が不正です: ");
        let e = string_from_chars(entry);
        m.append(e.as_str());
        return Err(info_error(m));
    }
    assert(views(parts@)[0] == parts@[0]@);
    assert(views(parts@)[1] == parts@[1]@);
    assert(views(parts@)[2] == parts@[2]@);
    assert(views(parts@)[3] == parts@[3]@);
    assert(views(parts@)[4] == parts@[4]@);
    let title = string_from_chars(parts[0].as_slice());
    let pos = split_chars(parts[1].as_slice(), ',');
    assert(views(pos@).len() == pos@.len());
    if pos.len() != 2 {
        return Err(info_error(crate::text::to_owned_string("ウィンドウ位置の解析に失敗しました")));
    }
    assert(views(pos@)[0] == pos@[0]@);
    assert(views(pos@)[1] == pos@[1]@);
    let x = match parse_i32_chars(pos[0].as_slice()) {
        Some(v) => v,
        None => {
            return Err(info_error(crate::text::to_owned_string("ウィンドウのx座標が無効です")));
        },
    };
    let y = match parse_i32_chars(pos[1].as_slice()) {
        Some(v) => v,
        None => {
            return Err(info_error(crate::text::to_owned_string("ウィンドウのy座標が無効です")));
        },
    };
    let sz = split_chars(parts[2].as_slice(), ',');
    assert(views(sz@).len() == sz@.len());
    if sz.len() != 2 {
        return Err(info_error(crate::text::to_owned_string("ウィンドウサイズの解析に失敗しました")));
    }
    assert(views(sz@)[0] == sz@[0]@);
    assert(views(sz@)[1] == sz@[1]@);
    let w = match parse_i32_chars(sz[0].as_slice()) {
        Some(v) => v,
        None => {
            return Err(info_error(crate::text::to_owned_string("ウィンドウの幅が無効です")));
        },
    };
    let h = match parse_i32_chars(sz[1].as_slice()) {
        Some(v) => v,
        None => {
            return Err(info_error(crate::text::to_owned_string("ウィンドウの高さが無効です")));
        },
    };
    let minimized = match parse_bool_chars(parts[3].as_slice()) {
        Some(b) => b,
        None => {
            let mut m = crate::text::to_owned_string("ウィンドウの最小化状態が無効です: ");
            let p = string_from_chars(parts[3].as_slice());
            m.append(p.as_str());
            return Err(info_error(m));
        },
    };
    let visible = match parse_bool_chars(parts[4].as_slice()) {
        Some(b) => b,
        None => {
            let mut m = crate::text::to_owned_string("ウィンドウの表示状態が無効です: ");
            let p = string_from_chars(parts[4].as_slice());
            m.append(p.as_str());
            return Err(info_error(m));
        },
    };
    Ok(WindowInfo { title, position: (x, y), size: (w, h), minimized, visible })
}

/// Reads one window entry `title|x,y|w,h|minimized|visible`.
pub fn parse_single_window(entry: &str) -> (r: Result<WindowInfo, WindowInfoError>)
    ensures
        match r {
            Ok(w) => spec_parse_window(entry@) == Ok::<WindowView, Seq<char>>(window_view(w)),
            Err(e) => spec_parse_window(entry@) == Err::<WindowView, Seq<char>>(e.message@),
        },
{
    let cs = chars_of(entry);
    parse_window_chars(cs.as_slice())
}

/// How a window list is cut into entries: a comma separates two entries only
/// after four `|` of the current entry; commas inside positions and sizes
/// stay.  The result is the finished entries, the current one, and how many
/// `|` it holds.
pub open spec fn scan_window_list(s: Seq<char>) -> (Seq<Seq<char>>, Seq<char>, int)
    decreases s.len(),
{
    if s.len() == 0 {
        (Seq::empty(), Seq::empty(), 0)
    } else {
        let (done, cur, pipes) = scan_window_list(s.drop_last());
        let c = s.last();
        if c == '|' {
            (done, cur.push(c), pipes + 1)
        } else if c == ',' && pipes == 4 {
            (done.push(cur), Seq::empty(), 0)
        } else {
            (done, cur.push(c), pipes)
        }
    }
}

/// The raw entries of a window list.
pub open spec fn window_list_entries(s: Seq<char>) -> Seq<Seq<char>> {
    scan_window_list(s).0.push(scan_window_list(s).1)
}

/// The windows of a list of raw entries: each entry is trimmed; empty ones
/// and ones that do not parse are left out.
pub open spec fn windows_of_entries(es: Seq<Seq<char>>) -> Seq<WindowView>
    decreases es.len(),
{
    if es.len() == 0 {
        Seq::empty()
    } else {
        let prev = windows_of_entries(es.drop_last());
        let t = trim(es.last());
        if t.len() > 0 && spec_parse_window(t) is Ok {
            prev.push(spec_parse_window(t)->Ok_0)
        } else {
            prev
        }
    }
}

/// The windows that a window list describes.
pub open spec fn spec_window_list(s: Seq<char>) -> Seq<WindowView> {
    if s.len() == 0 {
        Seq::empty()
    } else {
        windows_of_entries(window_list_entries(s))
    }
}

pub open spec fn window_views(ws: Seq<WindowInfo>) -> Seq<WindowView> {
    ws.map_values(|w: WindowInfo| window_view(w))
}

fn add_entry(windows: &mut Vec<WindowInfo>, entry: &[char])
    ensures
        window_views(final(windows)@) == ({
            let t = trim(entry@);
            if t.len() > 0 && spec_parse_window(t) is Ok {
                window_views(old(windows)@).push(spec_parse_window(t)->Ok_0)
            } else {
                window_views(old(windows)@)
            }
        }),
{
    let t = trim_chars(entry);
    if t.len() > 0 {
        match parse_window_chars(t.as_slice()) {
            Ok(w) => {
                let ghost before = windows@;
                windows.push(w);
                assert(window_views(windows@) =~= window_views(before).push(window_view(w)));
            },
            Err(_) => {},
        }
    }
}

/// Reads the window list that the window query prints: entries
/// `title|x,y|w,h|minimized|visible` separated by commas.  Entries that do
/// not parse are skipped.
pub fn parse_window_list(result_str: &str) -> (r: Result<Vec<WindowInfo>, WindowInfoError>)
    ensures
        r matches Ok(ws) && window_views(ws@) == spec_window_list(result_str@),
{
    let s = chars_of(result_str);
    let mut windows: Vec<WindowInfo> = Vec::new();
    if s.len() == 0 {
        assert(window_views(windows@) =~= Seq::empty());
        return Ok(windows);
    }
    let mut current: Vec<char> = Vec::new();
    let mut pipe_count: usize = 0;
    let mut i: usize = 0;
    assert(s@.take(0) =~= Seq::<char>::empty());
    assert(window_views(windows@) =~= windows_of_entries(Seq::empty()));
    while i < s.len()
        invariant
            i <= s@.len(),
            pipe_count <= i,
            scan_window_list(s@.take(i as int)) == (scan_window_list(s@.take(i as int)).0, current@, pipe_count as int),
            window_views(windows@) == windows_of_entries(scan_window_list(s@.take(i as int)).0),
        decreases s@.len() - i,
    {
        let c = s[i];
        assert(s@.take(i + 1).drop_last() =~= s@.take(i as int));
        assert(s@.take(i + 1).last() == c);
        let ghost done = scan_window_list(s@.take(i as int)).0;
        if c == '|' {
            pipe_count = pipe_count + 1;
            current.push(c);
        } else if c == ',' && pipe_count == 4 {
            add_entry(&mut windows, current.as_slice());
            assert(done.push(current@).drop_last() =~= done);
            current = Vec::new();
            pipe_count = 0;
        } else {
            current.push(c);
        }
        i = i + 1;
    }
    assert(s@.take(s@.len() as int) =~= s@);
    let ghost done = scan_window_list(s@).0;
    add_entry(&mut windows, current.as_slice());
    assert(done.push(current@).drop_last() =~= done);
    Ok(windows)
}

/// How the window queries print a flag.
pub open spec fn bool_text(b: bool) -> Seq<char> {
    if b {
        "true"@
    } else {
        "false"@
    }
}

/// A window entry as the window queries print it:
/// `title|x,y|width,height|minimized|visible`.
pub open spec fn window_entry(v: WindowView) -> Seq<char> {
    v.0 + seq!['|'] + (int_decimal((v.1).0 as int) + seq![','] + int_decimal((v.1).1 as int)) + seq!['|']
        + (int_decimal((v.2).0 as int) + seq![','] + int_decimal((v.2).1 as int)) + seq!['|'] + bool_text(v.3)
        + seq!['|'] + bool_text(v.4)
}

proof fn lemma_concat_lacks(a: Seq<char>, b: Seq<char>, c: char)
    requires
        !a.contains(c),
        !b.contains(c),
    ensures
        !(a + b).contains(c),
{
    if (a + b).contains(c) {
        let i = choose|i: int| 0 <= i < (a + b).len() && (a + b)[i] == c;
        if i < a.len() {
            assert(a[i] == c);
        } else {
            assert(b[i - a.len()] == c);
        }
    }
}

proof fn lemma_bool_text(b: bool)
    ensures
        !bool_text(b).contains('|'),
        !bool_text(b).contains(','),
        parse_bool(bool_text(b)) == Some(b),
{
    reveal_strlit("true");
    reveal_strlit("false");
    let t = bool_text(b);
    if t.contains('|') {
        let i = choose|i: int| 0 <= i < t.len() && t[i] == '|';
        assert(t[i] != '|');
    }
    if t.contains(',') {
        let i = choose|i: int| 0 <= i < t.len() && t[i] == ',';
        assert(t[i] != ',');
    }
    assert("true"@ != "false"@) by {
        assert("true"@.len() != "false"@.len());
    }
}

proof fn lemma_pair_text(a: i32, b: i32)
    ensures
        !(int_decimal(a as int) + seq![','] + int_decimal(b as int)).contains('|'),
        split(int_decimal(a as int) + seq![','] + int_decimal(b as int), ',') == seq![int_decimal(a as int), int_decimal(b as int)],
{
    lemma_parse_int_decimal(a);
    lemma_parse_int_decimal(b);
    let da = int_decimal(a as int);
    let db = int_decimal(b as int);
    lemma_concat_lacks(da, seq![','], '|');
    lemma_concat_lacks(da + seq![','], db, '|');
    lemma_split_join(da, db, ',');
    lemma_split_none(da, ',');
    lemma_split_none(db, ',');
    assert(seq![da] + seq![db] =~= seq![da, db]);
}

/// Reading a window entry gives back the window it was printed from, when
/// the title holds no `|`.
pub proof fn law_window_entry_round_trip(v: WindowView)
    requires
        !v.0.contains('|'),
    ensures
        spec_parse_window(window_entry(v)) == Ok::<WindowView, Seq<char>>(v),
{
    let t = v.0;
    let pos = int_decimal((v.1).0 as int) + seq![','] + int_decimal((v.1).1 as int);
    let sz = int_decimal((v.2).0 as int) + seq![','] + int_decimal((v.2).1 as int);
    let m = bool_text(v.3);
    let vis = bool_text(v.4);
    lemma_pair_text((v.1).0, (v.1).1);
    lemma_pair_text((v.2).0, (v.2).1);
    lemma_bool_text(v.3);
    lemma_bool_text(v.4);
    lemma_parse_int_decimal((v.1).0);
    lemma_parse_int_decimal((v.1).1);
    lemma_parse_int_decimal((v.2).0);
    lemma_parse_int_decimal((v.2).1);
    let e2 = t + seq!['|'] + pos;
    let e3 = e2 + seq!['|'] + sz;
    let e4 = e3 + seq!['|'] + m;
    let e5 = e4 + seq!['|'] + vis;
    assert(window_entry(v) == e5);
    lemma_split_none(t, '|');
    lemma_split_none(pos, '|');
    lemma_split_none(sz, '|');
    lemma_split_none(m, '|');
    lemma_split_none(vis, '|');
    lemma_split_join(t, pos, '|');
    lemma_split_join(e2, sz, '|');
    lemma_split_join(e3, m, '|');
    lemma_split_join(e4, vis, '|');
    let parts = split(e5, '|');
    assert(parts =~= seq![t, pos, sz, m, vis]);
    assert(parts[1] == pos);
    assert(parts[2] == sz);
}


/// A window list as the window queries print it: the entry of each window,
/// separated by `", "`.
pub open spec fn window_list_text(vs: Seq<WindowView>) -> Seq<char> {
    join(vs.map_values(|v: WindowView| window_entry(v)), ", "@)
}

/// A title that a window entry carries through a window list unchanged: no
/// `|`, and no whitespace at its start.
pub open spec fn listable_title(t: Seq<char>) -> bool {
    !t.contains('|') && (t.len() == 0 || !is_ws(t[0]))
}

/// The `i`-th raw entry of a printed window list, as the list is cut:
/// every entry after the first keeps the space that followed the comma.
pub open spec fn listed_entry(vs: Seq<WindowView>, i: int) -> Seq<char> {
    if i == 0 {
        window_entry(vs[0])
    } else {
        seq![' '] + window_entry(vs[i])
    }
}

proof fn lemma_lacks_prefix(x: Seq<char>, n: int, c: char)
    requires
        0 <= n <= x.len(),
        !x.contains(c),
    ensures
        !x.take(n).contains(c),
{
    if x.take(n).contains(c) {
        let k = choose|k: int| 0 <= k < x.take(n).len() && x.take(n)[k] == c;
        assert(x[k] == c);
    }
}

proof fn lemma_scan_plain(s: Seq<char>, x: Seq<char>)
    requires
        !x.contains('|'),
        scan_window_list(s).2 != 4 || !x.contains(','),
    ensures
        scan_window_list(s + x) == (scan_window_list(s).0, scan_window_list(s).1 + x, scan_window_list(s).2),
    decreases x.len(),
{
    let (done, cur, pipes) = scan_window_list(s);
    if x.len() == 0 {
        assert(s + x =~= s);
        assert(cur + x =~= cur);
    } else {
        let y = x.drop_last();
        assert(y =~= x.take(x.len() - 1));
        lemma_lacks_prefix(x, x.len() - 1, '|');
        if pipes == 4 {
            lemma_lacks_prefix(x, x.len() - 1, ',');
        }
        lemma_scan_plain(s, y);
        assert((s + x).drop_last() =~= s + y);
        assert((s + x).last() == x[x.len() - 1]);
        assert((cur + y).push(x[x.len() - 1]) =~= cur + x);
    }
}

proof fn lemma_scan_pipe(s: Seq<char>)
    ensures
        scan_window_list(s.push('|')) == (scan_window_list(s).0, scan_window_list(s).1.push('|'), scan_window_list(s).2 + 1),
{
    assert(s.push('|').drop_last() =~= s);
}

proof fn lemma_scan_part(s: Seq<char>, x: Seq<char>)
    requires
        !x.contains('|'),
        scan_window_list(s).2 != 4 || !x.contains(','),
    ensures
        scan_window_list((s + x).push('|')) == (scan_window_list(s).0, (scan_window_list(s).1 + x).push('|'), scan_window_list(s).2 + 1),
{
    lemma_scan_plain(s, x);
    lemma_scan_pipe(s + x);
}

proof fn lemma_scan_entry(s: Seq<char>, v: WindowView)
    requires
        !v.0.contains('|'),
        scan_window_list(s).2 == 0,
    ensures
        scan_window_list(s + window_entry(v)) == (scan_window_list(s).0, scan_window_list(s).1 + window_entry(v), 4int),
{
    let (done, cur, pipes) = scan_window_list(s);
    let t = v.0;
    let pos = int_decimal((v.1).0 as int) + seq![','] + int_decimal((v.1).1 as int);
    let sz = int_decimal((v.2).0 as int) + seq![','] + int_decimal((v.2).1 as int);
    let m = bool_text(v.3);
    let vis = bool_text(v.4);
    lemma_pair_text((v.1).0, (v.1).1);
    lemma_pair_text((v.2).0, (v.2).1);
    lemma_bool_text(v.3);
    lemma_bool_text(v.4);
    let s2 = (s + t).push('|');
    let c2 = (cur + t).push('|');
    lemma_scan_part(s, t);
    assert(scan_window_list(s2) == (done, c2, 1int));
    let s4 = (s2 + pos).push('|');
    let c4 = (c2 + pos).push('|');
    lemma_scan_part(s2, pos);
    assert(scan_window_list(s4) == (done, c4, 2int));
    let s6 = (s4 + sz).push('|');
    let c6 = (c4 + sz).push('|');
    lemma_scan_part(s4, sz);
    assert(scan_window_list(s6) == (done, c6, 3int));
    let s8 = (s6 + m).push('|');
    let c8 = (c6 + m).push('|');
    lemma_scan_part(s6, m);
    assert(scan_window_list(s8) == (done, c8, 4int));
    lemma_scan_plain(s8, vis);
    lemma_entry_parts(s, v);
    lemma_entry_parts(cur, v);
}

proof fn lemma_entry_parts(s: Seq<char>, v: WindowView)
    ensures
        ({
            let pos = int_decimal((v.1).0 as int) + seq![','] + int_decimal((v.1).1 as int);
            let sz = int_decimal((v.2).0 as int) + seq![','] + int_decimal((v.2).1 as int);
            (((((((s + v.0).push('|') + pos).push('|')) + sz).push('|')) + bool_text(v.3)).push('|')) + bool_text(
                v.4,
            ) == s + window_entry(v)
        }),
{
    let pos = int_decimal((v.1).0 as int) + seq![','] + int_decimal((v.1).1 as int);
    let sz = int_decimal((v.2).0 as int) + seq![','] + int_decimal((v.2).1 as int);
    assert((((((((s + v.0).push('|') + pos).push('|')) + sz).push('|')) + bool_text(v.3)).push('|')) + bool_text(
        v.4,
    ) =~= s + window_entry(v));
}

proof fn lemma_scan_separator(s: Seq<char>)
    requires
        scan_window_list(s).2 == 4,
    ensures
        scan_window_list(s + ", "@) == (scan_window_list(s).0.push(scan_window_list(s).1), seq![' '], 0int),
{
    reveal_strlit(", ");
    let s1 = s.push(',');
    assert(s1.drop_last() =~= s);
    assert(s1.push(' ').drop_last() =~= s1);
    assert(s1.push(' ') =~= s + ", "@);
    assert(scan_window_list(s1) == (scan_window_list(s).0.push(scan_window_list(s).1), Seq::<char>::empty(), 0int));
    assert(Seq::<char>::empty().push(' ') =~= seq![' ']);
}

proof fn lemma_scan_list(vs: Seq<WindowView>)
    requires
        vs.len() >= 1,
        forall|i: int| 0 <= i < vs.len() ==> !vs[i].0.contains('|'),
    ensures
        scan_window_list(window_list_text(vs)) == (
            Seq::new((vs.len() - 1) as nat, |i: int| listed_entry(vs, i)),
            listed_entry(vs, vs.len() - 1),
            4int,
        ),
    decreases vs.len(),
{
    let n = vs.len();
    let list = vs.map_values(|v: WindowView| window_entry(v));
    if n == 1 {
        assert(window_list_text(vs) == window_entry(vs[0]));
        lemma_scan_entry(Seq::empty(), vs[0]);
        assert(Seq::<char>::empty() + window_entry(vs[0]) =~= window_entry(vs[0]));
        assert(Seq::new(0, |i: int| listed_entry(vs, i)) =~= Seq::<Seq<char>>::empty());
    } else {
        let prev = vs.drop_last();
        lemma_scan_list(prev);
        assert(list.drop_last() =~= prev.map_values(|v: WindowView| window_entry(v)));
        let tp = window_list_text(prev);
        let e = window_entry(vs[n - 1]);
        assert(window_list_text(vs) == tp + ", "@ + e);
        lemma_scan_separator(tp);
        lemma_scan_entry(tp + ", "@, vs[n - 1]);
        let done = Seq::new((n - 2) as nat, |i: int| listed_entry(prev, i));
        assert(done.push(listed_entry(prev, n - 2)) =~= Seq::new((n - 1) as nat, |i: int| listed_entry(vs, i)));
        assert(seq![' '] + e == listed_entry(vs, n - 1));
    }
}

proof fn lemma_trim_listed(vs: Seq<WindowView>, i: int)
    requires
        0 <= i < vs.len(),
        listable_title(vs[i].0),
    ensures
        trim(listed_entry(vs, i)) == window_entry(vs[i]),
{
    let v = vs[i];
    let e = window_entry(v);
    reveal_strlit("true");
    reveal_strlit("false");
    let vis = bool_text(v.4);
    assert(e.last() == vis.last());
    assert(!is_ws(e.last()));
    if v.0.len() > 0 {
        assert(e[0] == v.0[0]);
    } else {
        assert(e[0] == '|');
    }
    assert(!is_ws(e[0]));
    assert(trim_end(e) == e);
    if i > 0 {
        let x = seq![' '] + e;
        assert(x.drop_first() =~= e);
        assert(trim_start(x) == trim_start(e));
    }
}

proof fn lemma_windows_of_listed(vs: Seq<WindowView>, n: int)
    requires
        0 <= n <= vs.len(),
        forall|i: int| 0 <= i < vs.len() ==> listable_title(vs[i].0),
    ensures
        windows_of_entries(Seq::new(n as nat, |i: int| listed_entry(vs, i))) == vs.take(n),
    decreases n,
{
    let es = Seq::new(n as nat, |i: int| listed_entry(vs, i));
    if n == 0 {
        assert(vs.take(0) =~= Seq::<WindowView>::empty());
    } else {
        assert(es.drop_last() =~= Seq::new((n - 1) as nat, |i: int| listed_entry(vs, i)));
        lemma_windows_of_listed(vs, n - 1);
        lemma_trim_listed(vs, n - 1);
        law_window_entry_round_trip(vs[n - 1]);
        assert(vs.take(n - 1).push(vs[n - 1]) =~= vs.take(n));
    }
}

/// Reading a printed window list gives back its windows, one for each
/// entry, in order, when no title holds `|` or starts with whitespace.
pub proof fn law_window_list_round_trip(vs: Seq<WindowView>)
    requires
        forall|i: int| 0 <= i < vs.len() ==> listable_title(vs[i].0),
    ensures
        spec_window_list(window_list_text(vs)) == vs,
{
    let n = vs.len() as int;
    if n == 0 {
        assert(window_list_text(vs) == Seq::<char>::empty());
    } else {
        lemma_scan_list(vs);
        let text = window_list_text(vs);
        let es = Seq::new(n as nat, |i: int| listed_entry(vs, i));
        assert(scan_window_list(text).0.push(scan_window_list(text).1) =~= es);
        assert(text.len() > 0) by {
            if text.len() == 0 {
                assert(scan_window_list(text).2 == 0);
            }
        }
        lemma_windows_of_listed(vs, n);
        assert(vs.take(n) =~= vs);
    }
}

} // verus!
