//! Connected displays: the query that lists them, reading its JSON answer,
//! and choosing one display by name.
use vstd::prelude::*;
use crate::applescript::app::AppLaunchError;
use crate::applescript::osascript::ScriptOutput;
use crate::applescript::scripts::DISPLAYS_SCRIPT;
use crate::config::{find_display, find_display_index};
use crate::text::{chars_of, chars_occur_at, concat2, concat3, starts_with, string_from_chars, to_owned_string, trim, trim_chars};

verus! {

/// A connected display: its name, size in pixels and origin in the global
/// coordinate space.
#[derive(Debug)]
pub struct DisplayInfo {
    pub name: String,
    pub width: i32,
    pub height: i32,
    pub origin_x: i32,
    pub origin_y: i32,
}

impl DisplayInfo {
    /// A copy of this display's information.
    pub fn copy(&self) -> (r: DisplayInfo)
        ensures
            r == *self,
    {
        DisplayInfo {
            name: self.name.clone(),
            width: self.width,
            height: self.height,
            origin_x: self.origin_x,
            origin_y: self.origin_y,
        }
    }
}

/// A failure to list the displays or to find the one asked for.
#[derive(Debug)]
pub struct DisplayError {
    pub message: String,
}

/// What the display logic reads of one element of the JSON display list:
/// `name` as a string, and `width`, `height`, `origin_x`, `origin_y` as
/// integers that fit in an `i64`.  A field that is missing or of another
/// kind is `None`.
#[derive(Debug)]
pub struct DisplayFields {
    pub name: Option<String>,
    pub width: Option<i64>,
    pub height: Option<i64>,
    pub origin_x: Option<i64>,
    pub origin_y: Option<i64>,
}

/// One element of the display list as plain values.
pub type FieldsView = (Option<Seq<char>>, Option<i64>, Option<i64>, Option<i64>, Option<i64>);

/// A display as plain values: name, width, height, origin x, origin y.
pub type DisplayView = (Seq<char>, i32, i32, i32, i32);

/// What `serde_json::from_str` makes of the display list text, as the
/// display logic reads it: the parser's error message, `None` when the
/// value is not an array, or the fields of each element in order.
pub uninterp spec fn display_json(text: Seq<char>) -> Result<Option<Seq<(Option<Seq<char>>, Option<i64>, Option<i64>, Option<i64>, Option<i64>)>>, Seq<char>>;

pub open spec fn opt_string_view(o: Option<String>) -> Option<Seq<char>> {
    match o {
        Some(s) => Some(s@),
        None => None,
    }
}

pub open spec fn fields_view(f: DisplayFields) -> FieldsView {
    (opt_string_view(f.name), f.width, f.height, f.origin_x, f.origin_y)
}

pub open spec fn parsed_view(r: Result<Option<Vec<DisplayFields>>, String>) -> Result<Option<Seq<FieldsView>>, Seq<char>> {
    match r {
        Err(m) => Err(m@),
        Ok(None) => Ok(None),
        Ok(Some(v)) => Ok(Some(v@.map_values(|f: DisplayFields| fields_view(f)))),
    }
}

pub open spec fn display_view(d: DisplayInfo) -> DisplayView {
    (d.name@, d.width, d.height, d.origin_x, d.origin_y)
}

pub open spec fn display_views(ds: Seq<DisplayInfo>) -> Seq<DisplayView> {
    ds.map_values(|d: DisplayInfo| display_view(d))
}

/// Parses the display list text with `serde_json::from_str` into a
/// `serde_json::Value` and reads, of each element of an array, the fields
/// `name` (`as_str`) and `width`, `height`, `origin_x`, `origin_y`
/// (`as_i64`).  The contract names the result; it states nothing more of
/// the parser.
#[verifier::external_body]
fn parse_display_json(text: &str) -> (r: Result<Option<Vec<DisplayFields>>, String>)
    ensures
        parsed_view(r) == display_json(text@),
{
    match serde_json::from_str::<serde_json::Value>(text) {
        Err(e) => Err(e.to_string()),
        Ok(serde_json::Value::Array(items)) => Ok(Some(items.iter().map(|d| DisplayFields {
            name: d["name"].as_str().map(String::from),
            width: d["width"].as_i64(),
            height: d["height"].as_i64(),
            origin_x: d["origin_x"].as_i64(),
            origin_y: d["origin_y"].as_i64(),
        }).collect())),
        Ok(_) => Ok(None),
    }
}

/// A display from the fields of one list element; the first missing field,
/// in the order name, width, height, origin x, origin y, is the error.
/// Integers are narrowed to `i32` by truncation, as `as i32` does.
pub open spec fn fields_display(f: FieldsView) -> Result<DisplayView, Seq<char>> {
    if f.0 is None {
        Err("ディスプレイ名の取得に失敗しました"@)
    } else if f.1 is None {
        Err("ディスプレイ幅の取得に失敗しました"@)
    } else if f.2 is None {
        Err("ディスプレイ高さの取得に失敗しました"@)
    } else if f.3 is None {
        Err("ディスプレイ原点X座標の取得に失敗しました"@)
    } else if f.4 is None {
        Err("ディスプレイ原点Y座標の取得に失敗しました"@)
    } else {
        Ok((f.0.unwrap(), f.1.unwrap() as i32, f.2.unwrap() as i32, f.3.unwrap() as i32, f.4.unwrap() as i32))
    }
}

/// The displays of a list of elements, in order; the first element that
/// fails gives the error.
pub open spec fn fields_displays(items: Seq<FieldsView>) -> Result<Seq<DisplayView>, Seq<char>>
    decreases items.len(),
{
    if items.len() == 0 {
        Ok(Seq::empty())
    } else {
        match fields_displays(items.drop_last()) {
            Err(m) => Err(m),
            Ok(ds) => match fields_display(items.last()) {
                Err(m) => Err(m),
                Ok(d) => Ok(ds.push(d)),
            },
        }
    }
}

/// The displays that a parse result describes.
pub open spec fn parsed_displays(parsed: Result<Option<Seq<FieldsView>>, Seq<char>>) -> Result<Seq<DisplayView>, Seq<char>> {
    match parsed {
        Err(m) => Err("ディスプレイ情報のパースに失敗しました: "@ + m),
        Ok(None) => Err("ディスプレイ情報が配列形式ではありません"@),
        Ok(Some(items)) => fields_displays(items),
    }
}

/// The displays that the list query reports: a failed run keeps its message,
/// an unsuccessful one reports its standard error, and an answer that starts
/// with `error:` is itself the error.
pub open spec fn connected_displays(run: Result<ScriptOutput, AppLaunchError>) -> Result<Seq<DisplayView>, Seq<char>> {
    match run {
        Err(e) => Err(e.message@),
        Ok(o) => if !o.success {
            Err("ディスプレイ情報取得に失敗しました: "@ + o.stderr@)
        } else if starts_with(trim(o.stdout@), "error:"@) {
            Err(trim(o.stdout@))
        } else {
            parsed_displays(display_json(trim(o.stdout@)))
        },
    }
}

/// The display that one list element describes.
pub fn from_json_value(value: &DisplayFields) -> (r: Result<DisplayInfo, DisplayError>)
    ensures
        match fields_display(fields_view(*value)) {
            Ok(d) => r matches Ok(x) && display_view(x) == d,
            Err(m) => r matches Err(e) && e.message@ == m,
        },
{
    let name = match &value.name {
        Some(n) => n.clone(),
        None => {
            return Err(DisplayError { message: to_owned_string("ディスプレイ名の取得に失敗しました") });
        },
    };
    let width = match value.width {
        Some(w) => w,
        None => {
            return Err(DisplayError { message: to_owned_string("ディスプレイ幅の取得に失敗しました") });
        },
    };
    let height = match value.height {
        Some(h) => h,
        None => {
            return Err(DisplayError { message: to_owned_string("ディスプレイ高さの取得に失敗しました") });
        },
    };
    let origin_x = match value.origin_x {
        Some(x) => x,
        None => {
            return Err(DisplayError { message: to_owned_string("ディスプレイ原点X座標の取得に失敗しました") });
        },
    };
    let origin_y = match value.origin_y {
        Some(y) => y,
        None => {
            return Err(DisplayError { message: to_owned_string("ディスプレイ原点Y座標の取得に失敗しました") });
        },
    };
    Ok(DisplayInfo {
        name,
        width: width as i32,
        height: height as i32,
        origin_x: origin_x as i32,
        origin_y: origin_y as i32,
    })
}

/// The displays that the parsed list text describes.
pub fn displays_from_json(parsed: Result<Option<Vec<DisplayFields>>, String>) -> (r: Result<Vec<DisplayInfo>, DisplayError>)
    ensures
        match parsed_displays(parsed_view(parsed)) {
            Ok(ds) => r matches Ok(v) && display_views(v@) == ds,
            Err(m) => r matches Err(e) && e.message@ == m,
        },
{
    let ghost pv = parsed_view(parsed);
    let items = match parsed {
        Err(m) => {
            return Err(DisplayError { message: concat2("ディスプレイ情報のパースに失敗しました: ", m.as_str()) });
        },
        Ok(None) => {
            return Err(DisplayError { message: to_owned_string("ディスプレイ情報が配列形式ではありません") });
        },
        Ok(Some(items)) => items,
    };
    let ghost fv = items@.map_values(|f: DisplayFields| fields_view(f));
    assert(pv == Ok::<Option<Seq<FieldsView>>, Seq<char>>(Some(fv)));
    let mut displays: Vec<DisplayInfo> = Vec::new();
    let mut i: usize = 0;
    assert(fv.take(0) =~= Seq::<FieldsView>::empty());
    assert(display_views(displays@) =~= Seq::<DisplayView>::empty());
    while i < items.len()
        invariant
            fv == items@.map_values(|f: DisplayFields| fields_view(f)),
            pv == Ok::<Option<Seq<FieldsView>>, Seq<char>>(Some(fv)),
            pv == parsed_view(parsed),
            i <= items@.len(),
            fields_displays(fv.take(i as int)) == Ok::<Seq<DisplayView>, Seq<char>>(display_views(displays@)),
        decreases items@.len() - i,
    {
        assert(fv.take(i + 1).drop_last() =~= fv.take(i as int));
        assert(fv.take(i + 1).last() == fields_view(items@[i as int]));
        let ghost before = displays@;
        match from_json_value(&items[i]) {
            Err(e) => {
                proof {
                    assert(fields_displays(fv.take(i + 1)) == Err::<Seq<DisplayView>, Seq<char>>(e.message@));
                    lemma_fields_displays_err(fv, i as int + 1, e.message@);
                    assert(parsed_displays(pv) == fields_displays(fv));
                }
                return Err(e);
            },
            Ok(d) => {
                displays.push(d);
                assert(display_views(displays@) =~= display_views(before).push(display_view(d)));
            },
        }
        i = i + 1;
    }
    assert(fv.take(fv.len() as int) =~= fv);
    Ok(displays)
}

/// An error at the element before `k` stays the error of the whole list.
proof fn lemma_fields_displays_err(items: Seq<FieldsView>, k: int, m: Seq<char>)
    requires
        0 < k <= items.len(),
        fields_displays(items.take(k)) == Err::<Seq<DisplayView>, Seq<char>>(m),
    ensures
        fields_displays(items) == Err::<Seq<DisplayView>, Seq<char>>(m),
    decreases items.len() - k,
{
    if k < items.len() {
        assert(items.take(k + 1).drop_last() =~= items.take(k));
        lemma_fields_displays_err(items, k + 1, m);
    } else {
        assert(items.take(k) =~= items);
    }
}

/// The query that lists the connected displays as JSON.
pub fn get_all_connected_displays_script() -> (r: &'static str)
    ensures
        r@ == DISPLAYS_SCRIPT@,
{
    DISPLAYS_SCRIPT
}

/// Reads the display list that the query printed.
pub fn get_all_connected_displays(run: &Result<ScriptOutput, AppLaunchError>) -> (r: Result<Vec<DisplayInfo>, DisplayError>)
    ensures
        match connected_displays(*run) {
            Ok(ds) => r matches Ok(v) && display_views(v@) == ds,
            Err(m) => r matches Err(e) && e.message@ == m,
        },
{
    let o = match run {
        Err(e) => {
            return Err(DisplayError { message: e.message.clone() });
        },
        Ok(o) => o,
    };
    if !o.success {
        return Err(DisplayError { message: concat2("ディスプレイ情報取得に失敗しました: ", o.stderr.as_str()) });
    }
    let cs = chars_of(o.stdout.as_str());
    let t = trim_chars(cs.as_slice());
    let prefix = chars_of("error:");
    let text = string_from_chars(t.as_slice());
    if chars_occur_at(t.as_slice(), prefix.as_slice(), 0) {
        return Err(DisplayError { message: text });
    }
    let parsed = parse_display_json(text.as_str());
    displays_from_json(parsed)
}

/// The first display of the list with the given name.
pub open spec fn find_display_view(ds: Seq<DisplayView>, name: Seq<char>) -> Option<DisplayView>
    decreases ds.len(),
{
    if ds.len() == 0 {
        None
    } else if ds[0].0 == name {
        Some(ds[0])
    } else {
        find_display_view(ds.drop_first(), name)
    }
}

proof fn lemma_find_display_view(ds: Seq<DisplayInfo>, name: Seq<char>)
    ensures
        match find_display(ds, name) {
            Some(d) => find_display_view(display_views(ds), name) == Some(display_view(d)),
            None => find_display_view(display_views(ds), name).is_none(),
        },
    decreases ds.len(),
{
    if ds.len() > 0 {
        assert(display_views(ds).drop_first() =~= display_views(ds.drop_first()));
        lemma_find_display_view(ds.drop_first(), name);
    }
}

/// The display chosen by name among the connected ones: the first with that
/// name, or the first display when no name (or an empty one) is given.
pub open spec fn display_choice(ds: Seq<DisplayView>, name: Option<Seq<char>>) -> Result<DisplayView, Seq<char>> {
    if ds.len() == 0 {
        Err("接続されているディスプレイが見つかりません"@)
    } else {
        match name {
            Some(n) => if n.len() > 0 {
                match find_display_view(ds, n) {
                    Some(d) => Ok(d),
                    None => Err("指定されたディスプレイ '"@ + n + "' が見つかりません"@),
                }
            } else {
                Ok(ds[0])
            },
            None => Ok(ds[0]),
        }
    }
}

/// The display that the list query and a name select.
pub open spec fn display_lookup(run: Result<ScriptOutput, AppLaunchError>, name: Option<Seq<char>>) -> Result<DisplayView, Seq<char>> {
    match connected_displays(run) {
        Err(m) => Err(m),
        Ok(ds) => display_choice(ds, name),
    }
}

pub open spec fn opt_str_view(o: Option<&str>) -> Option<Seq<char>> {
    match o {
        Some(s) => Some(s@),
        None => None,
    }
}

fn choose_display(displays: &[DisplayInfo], display_name: Option<&str>) -> (r: Result<DisplayInfo, DisplayError>)
    ensures
        match display_choice(display_views(displays@), opt_str_view(display_name)) {
            Ok(d) => r matches Ok(x) && display_view(x) == d,
            Err(m) => r matches Err(e) && e.message@ == m,
        },
{
    if displays.len() == 0 {
        return Err(DisplayError { message: to_owned_string("接続されているディスプレイが見つかりません") });
    }
    assert(display_views(displays@)[0] == display_view(displays@[0]));
    if let Some(name) = display_name {
        if name.unicode_len() > 0 {
            proof {
                lemma_find_display_view(displays@, name@);
            }
            return match find_display_index(name, displays) {
                Some(i) => Ok(displays[i].copy()),
                None => Err(DisplayError { message: concat3("指定されたディスプレイ '", name, "' が見つかりません") }),
            };
        }
    }
    Ok(displays[0].copy())
}

/// The display named `display_name` among those that the list query
/// reports (the first display when no name or an empty one is given).
pub fn get_display_info(run: &Result<ScriptOutput, AppLaunchError>, display_name: Option<&str>) -> (r: Result<DisplayInfo, DisplayError>)
    ensures
        match display_lookup(*run, opt_str_view(display_name)) {
            Ok(d) => r matches Ok(x) && display_view(x) == d,
            Err(m) => r matches Err(e) && e.message@ == m,
        },
{
    let displays = get_all_connected_displays(run)?;
    choose_display(displays.as_slice(), display_name)
}

/// A display list that reads without error has one display per element,
/// each read from its element.
pub proof fn law_one_display_per_element(items: Seq<FieldsView>)
    ensures
        fields_displays(items) matches Ok(ds) ==> ds.len() == items.len()
            && forall|i: int| 0 <= i < items.len() ==> fields_display(#[trigger] items[i]) == Ok::<DisplayView, Seq<char>>(ds[i]),
    decreases items.len(),
{
    if items.len() > 0 {
        law_one_display_per_element(items.drop_last());
        if fields_displays(items) is Ok {
            let ds = fields_displays(items)->Ok_0;
            assert forall|i: int| 0 <= i < items.len() implies fields_display(#[trigger] items[i]) == Ok::<DisplayView, Seq<char>>(ds[i]) by {
                if i < items.len() - 1 {
                    assert(items[i] == items.drop_last()[i]);
                }
            }
        }
    }
}

} // verus!
