//! Layout and settings files: their data, the checks on them, and how layout
//! values become pixel coordinates.
use vstd::prelude::*;
use crate::applescript::display::DisplayInfo;
use crate::json::JsonValue;
use crate::text::{
    concat2, concat3, int_decimal, join, join_strs, push_decimal, str_eq, str_views, strs_contain,
    to_owned_string,
};

verus! {

/// Height of the standard macOS menu bar in pixels.
pub const MACOS_MENU_BAR_HEIGHT: i32 = 25;

/// Where a window goes: `x` is `"left"`, `"right"`, a pixel count, or `null`
/// (unset); `y` is `"top"`, `"bottom"`, a pixel count, or `null`.
#[derive(Debug)]
pub struct Position {
    pub x: JsonValue,
    pub y: JsonValue,
}

/// How large a window is: `width` and `height` are each `"half"`, `"third"`,
/// `"max"`, a pixel count, or `null` (unset).
#[derive(Debug)]
pub struct Size {
    pub width: JsonValue,
    pub height: JsonValue,
}

/// One window of a layout: the application and where its window goes.
#[derive(Debug)]
pub struct AppWindowConfig {
    pub app: String,
    pub position: Option<Position>,
    pub size: Option<Size>,
    /// A tiling keyword of layout version 2.0; excludes `position` and `size`.
    pub tiling: Option<String>,
}

/// The windows that go on one display.
#[derive(Debug)]
pub struct DisplayConfig {
    pub name: String,
    pub windows: Vec<AppWindowConfig>,
}

/// One layout: the windows of each display.
#[derive(Debug)]
pub struct LayoutConfig {
    pub displays: Vec<DisplayConfig>,
}

/// How each level of message is shown outside a terminal:
/// `"notification"`, `"dialog"` or `"none"`.
#[derive(Debug)]
pub struct NotificationConfig {
    pub info: String,
    pub warn: String,
    pub error: String,
}

/// When and how the log file is rotated.
#[derive(Debug)]
pub struct LogRotationConfig {
    pub rotation_type: String,
    pub max_size_mb: u64,
    pub max_files: u32,
}

/// The contents of `settings.json`.
#[derive(Debug)]
pub struct AppSettings {
    pub version: String,
    pub notification: Option<NotificationConfig>,
    pub timeout: Option<u64>,
    pub log_rotation: Option<LogRotationConfig>,
}

/// The contents of `layout.json`.
#[derive(Debug)]
pub struct LayoutFile {
    pub version: String,
    pub layouts: Vec<LayoutConfig>,
}

/// A problem with a settings or layout file.
#[derive(Debug)]
pub struct AppConfigError {
    pub message: String,
}

/// A window of a layout that would not fit its display, or whose display is
/// not connected.
#[derive(Debug)]
pub struct ValidationWarning {
    pub display_name: String,
    pub app_name: String,
    pub message: String,
}

fn config_error(message: String) -> (e: AppConfigError)
    ensures
        e.message@ == message@,
{
    AppConfigError { message }
}

fn default_notification_info() -> (r: String)
    ensures
        r@ == "notification"@,
{
    to_owned_string("notification")
}

fn default_notification_warn() -> (r: String)
    ensures
        r@ == "notification"@,
{
    to_owned_string("notification")
}

fn default_notification_error() -> (r: String)
    ensures
        r@ == "dialog"@,
{
    to_owned_string("dialog")
}

impl Default for NotificationConfig {
    fn default() -> (r: NotificationConfig)
        ensures
            r.info@ == "notification"@,
            r.warn@ == "notification"@,
            r.error@ == "dialog"@,
    {
        NotificationConfig {
            info: default_notification_info(),
            warn: default_notification_warn(),
            error: default_notification_error(),
        }
    }
}

fn default_rotation_type() -> (r: String)
    ensures
        r@ == "size"@,
{
    to_owned_string("size")
}

fn default_max_size_mb() -> (r: u64)
    ensures
        r == 10,
{
    10
}

fn default_max_files() -> (r: u32)
    ensures
        r == 5,
{
    5
}

impl Default for LogRotationConfig {
    fn default() -> (r: LogRotationConfig)
        ensures
            r.rotation_type@ == "size"@,
            r.max_size_mb == 10,
            r.max_files == 5,
    {
        LogRotationConfig {
            rotation_type: default_rotation_type(),
            max_size_mb: default_max_size_mb(),
            max_files: default_max_files(),
        }
    }
}

impl NotificationConfig {
    /// A copy of this configuration.
    pub fn copy(&self) -> (r: NotificationConfig)
        ensures
            r == *self,
    {
        NotificationConfig {
            info: self.info.clone(),
            warn: self.warn.clone(),
            error: self.error.clone(),
        }
    }
}

impl LogRotationConfig {
    /// A copy of this configuration.
    pub fn copy(&self) -> (r: LogRotationConfig)
        ensures
            r == *self,
    {
        LogRotationConfig {
            rotation_type: self.rotation_type.clone(),
            max_size_mb: self.max_size_mb,
            max_files: self.max_files,
        }
    }
}

// ---------------------------------------------------------------------------
// settings.json
// ---------------------------------------------------------------------------

/// The ways a message can be shown.
pub open spec fn is_notification_method(v: Seq<char>) -> bool {
    v == "notification"@ || v == "dialog"@ || v == "none"@
}

pub open spec fn notification_field_message(field: Seq<char>, v: Seq<char>) -> Seq<char> {
    "無効な notification."@ + field + " 値: '"@ + v + "' (notification, dialog または none を指定)"@
}

/// The message for the first bad field of a notification configuration.
pub open spec fn notification_error(n: NotificationConfig) -> Option<Seq<char>> {
    if !is_notification_method(n.info@) {
        Some(notification_field_message("info"@, n.info@))
    } else if !is_notification_method(n.warn@) {
        Some(notification_field_message("warn"@, n.warn@))
    } else if !is_notification_method(n.error@) {
        Some(notification_field_message("error"@, n.error@))
    } else {
        None
    }
}

/// The message for the first bad field of a log rotation configuration.
pub open spec fn log_rotation_error(l: LogRotationConfig) -> Option<Seq<char>> {
    if l.rotation_type@ != "size"@ {
        Some(
            "無効な log_rotation.rotation_type 値: '"@ + l.rotation_type@
                + "' (size のみサポート)"@,
        )
    } else if l.max_size_mb < 1 {
        Some("log_rotation.max_size_mb は1以上の値である必要があります"@)
    } else if l.max_files < 1 {
        Some("log_rotation.max_files は1以上の値である必要があります"@)
    } else {
        None
    }
}

/// The message for the first problem of a settings file, if it has one.
pub open spec fn settings_error(s: AppSettings) -> Option<Seq<char>> {
    if s.version@ != "1.0"@ {
        Some("サポートされていないバージョン: "@ + s.version@ + "（サポート: 1.0）"@)
    } else if s.notification is Some && notification_error(s.notification->0) is Some {
        notification_error(s.notification->0)
    } else if s.log_rotation is Some {
        log_rotation_error(s.log_rotation->0)
    } else {
        None
    }
}

fn is_notification_method_str(v: &str) -> (r: bool)
    ensures
        r == is_notification_method(v@),
{
    str_eq(v, "notification") || str_eq(v, "dialog") || str_eq(v, "none")
}

fn notification_field_error(field: &str, v: &String) -> (e: AppConfigError)
    ensures
        e.message@ == notification_field_message(field@, v@),
{
    let mut m = to_owned_string("無効な notification.");
    m.append(field);
    m.append(" 値: '");
    m.append(v.as_str());
    m.append("' (notification, dialog または none を指定)");
    config_error(m)
}

fn validate_notification_config(notification: &NotificationConfig) -> (r: Result<(), AppConfigError>)
    ensures
        match r {
            Ok(()) => notification_error(*notification).is_none(),
            Err(e) => notification_error(*notification) == Some(e.message@),
        },
{
    if !is_notification_method_str(notification.info.as_str()) {
        return Err(notification_field_error("info", &notification.info));
    }
    if !is_notification_method_str(notification.warn.as_str()) {
        return Err(notification_field_error("warn", &notification.warn));
    }
    if !is_notification_method_str(notification.error.as_str()) {
        return Err(notification_field_error("error", &notification.error));
    }
    Ok(())
}

fn validate_log_rotation_config(log_rotation: &LogRotationConfig) -> (r: Result<(), AppConfigError>)
    ensures
        match r {
            Ok(()) => log_rotation_error(*log_rotation).is_none(),
            Err(e) => log_rotation_error(*log_rotation) == Some(e.message@),
        },
{
    if !str_eq(log_rotation.rotation_type.as_str(), "size") {
        return Err(
            config_error(
                concat3(
                    "無効な log_rotation.rotation_type 値: '",
                    log_rotation.rotation_type.as_str(),
                    "' (size のみサポート)",
                ),
            ),
        );
    }
    if log_rotation.max_size_mb < 1 {
        return Err(
            config_error(to_owned_string("log_rotation.max_size_mb は1以上の値である必要があります")),
        );
    }
    if log_rotation.max_files < 1 {
        return Err(
            config_error(to_owned_string("log_rotation.max_files は1以上の値である必要があります")),
        );
    }
    Ok(())
}

/// Checks a parsed `settings.json`: the version must be `1.0`, every
/// notification method one of `notification`, `dialog`, `none`, and a log
/// rotation must be by `size` with at least 1 MB and 1 file.
pub fn validate_settings_syntax(settings: &AppSettings) -> (r: Result<(), AppConfigError>)
    ensures
        match r {
            Ok(()) => settings_error(*settings).is_none(),
            Err(e) => settings_error(*settings) == Some(e.message@),
        },
{
    if !str_eq(settings.version.as_str(), "1.0") {
        return Err(
            config_error(
                concat3(
                    "サポートされていないバージョン: ",
                    settings.version.as_str(),
                    "（サポート: 1.0）",
                ),
            ),
        );
    }
    if let Some(notification) = &settings.notification {
        validate_notification_config(notification)?;
    }
    if let Some(log_rotation) = &settings.log_rotation {
        validate_log_rotation_config(log_rotation)?;
    }
    Ok(())
}

// ---------------------------------------------------------------------------
// Tiling keywords
// ---------------------------------------------------------------------------

/// A placement that the standard "Window" menu of macOS offers.
#[derive(Debug, Clone, Copy, PartialEq, Eq, Structural)]
pub enum TileKeyword {
    Left,
    Right,
    Top,
    Bottom,
    TopLeft,
    TopRight,
    BottomLeft,
    BottomRight,
    FullScreen,
}

/// The menu item names of a placement, Japanese first, then English.
pub open spec fn tile_candidates(k: TileKeyword) -> Seq<Seq<char>> {
    match k {
        TileKeyword::Left => seq!["左"@, "Left"@],
        TileKeyword::Right => seq!["右"@, "Right"@],
        TileKeyword::Top => seq!["上"@, "Top"@],
        TileKeyword::Bottom => seq!["下"@, "Bottom"@],
        TileKeyword::TopLeft => seq!["左上"@, "Top Left"@],
        TileKeyword::TopRight => seq!["右上"@, "Top Right"@],
        TileKeyword::BottomLeft => seq!["左下"@, "Bottom Left"@],
        TileKeyword::BottomRight => seq!["右下"@, "Bottom Right"@],
        TileKeyword::FullScreen => seq!["画面全体に表示"@, "Enter Full Screen"@],
    }
}

impl TileKeyword {
    /// The menu item names to look for, Japanese first.
    pub fn menu_item_name_candidates(&self) -> (r: &'static [&'static str])
        ensures
            str_views(r@) == tile_candidates(*self),
    {
        let r: &'static [&'static str] = match self {
            TileKeyword::Left => &["左", "Left"],
            TileKeyword::Right => &["右", "Right"],
            TileKeyword::Top => &["上", "Top"],
            TileKeyword::Bottom => &["下", "Bottom"],
            TileKeyword::TopLeft => &["左上", "Top Left"],
            TileKeyword::TopRight => &["右上", "Top Right"],
            TileKeyword::BottomLeft => &["左下", "Bottom Left"],
            TileKeyword::BottomRight => &["右下", "Bottom Right"],
            TileKeyword::FullScreen => &["画面全体に表示", "Enter Full Screen"],
        };
        assert(str_views(r@) =~= tile_candidates(*self));
        r
    }

    /// The Japanese menu item name, used in messages.
    pub fn menu_item_name(&self) -> (r: &'static str)
        ensures
            r@ == tile_candidates(*self)[0],
    {
        let c = self.menu_item_name_candidates();
        assert(str_views(c@).len() == c@.len());
        assert(tile_candidates(*self).len() == 2);
        assert(str_views(c@)[0] == c@[0]@);
        c[0]
    }

    /// Whether the item lies in the "Move & Resize" submenu; only
    /// `FullScreen` sits in the "Window" menu itself.
    pub fn is_submenu_item(&self) -> (r: bool)
        ensures
            r == (*self != TileKeyword::FullScreen),
    {
        !matches!(self, TileKeyword::FullScreen)
    }
}

/// The keyword that a `tiling` value names, if any.
pub open spec fn spec_tile_keyword(v: Seq<char>) -> Option<TileKeyword> {
    if v == "left"@ {
        Some(TileKeyword::Left)
    } else if v == "right"@ {
        Some(TileKeyword::Right)
    } else if v == "top"@ {
        Some(TileKeyword::Top)
    } else if v == "bottom"@ {
        Some(TileKeyword::Bottom)
    } else if v == "top-left"@ {
        Some(TileKeyword::TopLeft)
    } else if v == "top-right"@ {
        Some(TileKeyword::TopRight)
    } else if v == "bottom-left"@ {
        Some(TileKeyword::BottomLeft)
    } else if v == "bottom-right"@ {
        Some(TileKeyword::BottomRight)
    } else if v == "full-screen"@ {
        Some(TileKeyword::FullScreen)
    } else {
        None
    }
}

pub open spec fn invalid_tiling_message(v: Seq<char>) -> Seq<char> {
    "無効な tiling 値: '"@ + v
        + "' (left, right, top, bottom, top-left, top-right, bottom-left, bottom-right, full-screen を指定)"@
}

/// Reads the `tiling` field of a layout window.
pub fn parse_tile_keyword(value: &str) -> (r: Result<TileKeyword, AppConfigError>)
    ensures
        match r {
            Ok(k) => spec_tile_keyword(value@) == Some(k),
            Err(e) => spec_tile_keyword(value@).is_none() && e.message@ == invalid_tiling_message(
                value@,
            ),
        },
{
    if str_eq(value, "left") {
        Ok(TileKeyword::Left)
    } else if str_eq(value, "right") {
        Ok(TileKeyword::Right)
    } else if str_eq(value, "top") {
        Ok(TileKeyword::Top)
    } else if str_eq(value, "bottom") {
        Ok(TileKeyword::Bottom)
    } else if str_eq(value, "top-left") {
        Ok(TileKeyword::TopLeft)
    } else if str_eq(value, "top-right") {
        Ok(TileKeyword::TopRight)
    } else if str_eq(value, "bottom-left") {
        Ok(TileKeyword::BottomLeft)
    } else if str_eq(value, "bottom-right") {
        Ok(TileKeyword::BottomRight)
    } else if str_eq(value, "full-screen") {
        Ok(TileKeyword::FullScreen)
    } else {
        Err(
            config_error(
                concat3(
                    "無効な tiling 値: '",
                    value,
                    "' (left, right, top, bottom, top-left, top-right, bottom-left, bottom-right, full-screen を指定)",
                ),
            ),
        )
    }
}


// ---------------------------------------------------------------------------
// layout.json syntax
// ---------------------------------------------------------------------------

/// The message for a field value that its field does not accept: a keyword
/// outside `allowed`, a whole number below `min`, a negative number that is
/// not whole, or a value that is neither a string, a number nor `null`.  A
/// non-negative number that is not whole passes here; turning it into pixels
/// fails later, for that window alone.
pub open spec fn value_error(v: JsonValue, field: Seq<char>, allowed: Seq<Seq<char>>, min: int) -> Option<Seq<char>> {
    match v {
        JsonValue::Str(s) => if allowed.contains(s@) {
            None
        } else {
            Some("無効な "@ + field + " 値: '"@ + s@ + "' ("@ + join(allowed, ", "@) + " を指定)"@)
        },
        JsonValue::Int(i) => if i < min {
            if min == 0 {
                Some(field + " が負です"@)
            } else {
                Some(field + " は正の数値である必要があります"@)
            }
        } else {
            None
        },
        JsonValue::OtherNumber { negative } => if negative {
            if min == 0 {
                Some(field + " が負です"@)
            } else {
                Some(field + " は正の数値である必要があります"@)
            }
        } else {
            None
        },
        JsonValue::Null => None,
        _ => Some(field + " は文字列または数値である必要があります"@),
    }
}

pub open spec fn position_keywords_x() -> Seq<Seq<char>> {
    seq!["left"@, "right"@]
}

pub open spec fn position_keywords_y() -> Seq<Seq<char>> {
    seq!["top"@, "bottom"@]
}

pub open spec fn size_keywords() -> Seq<Seq<char>> {
    seq!["half"@, "third"@, "max"@]
}

/// The message for the first bad field of a position.
pub open spec fn position_error(p: Position) -> Option<Seq<char>> {
    if value_error(p.x, "x"@, position_keywords_x(), 0) is Some {
        value_error(p.x, "x"@, position_keywords_x(), 0)
    } else {
        value_error(p.y, "y"@, position_keywords_y(), 0)
    }
}

/// The message for the first bad field of a size.
pub open spec fn size_error(s: Size) -> Option<Seq<char>> {
    if value_error(s.width, "width"@, size_keywords(), 1) is Some {
        value_error(s.width, "width"@, size_keywords(), 1)
    } else {
        value_error(s.height, "height"@, size_keywords(), 1)
    }
}

fn validate_value(value: &JsonValue, field_name: &str, allowed_strings: &[&str], min_numeric: i64) -> (r: Result<(), AppConfigError>)
    ensures
        match r {
            Ok(()) => value_error(*value, field_name@, str_views(allowed_strings@), min_numeric as int).is_none(),
            Err(e) => value_error(*value, field_name@, str_views(allowed_strings@), min_numeric as int) == Some(e.message@),
        },
{
    match value {
        JsonValue::Str(s) => {
            if !strs_contain(allowed_strings, s.as_str()) {
                let mut m = to_owned_string("無効な ");
                m.append(field_name);
                m.append(" 値: '");
                m.append(s.as_str());
                m.append("' (");
                let joined = join_strs(allowed_strings, ", ");
                m.append(joined.as_str());
                m.append(" を指定)");
                return Err(config_error(m));
            }
        },
        JsonValue::Int(i) => {
            if *i < min_numeric {
                if min_numeric == 0 {
                    return Err(config_error(concat2(field_name, " が負です")));
                } else {
                    return Err(config_error(concat2(field_name, " は正の数値である必要があります")));
                }
            }
        },
        JsonValue::OtherNumber { negative } => {
            if *negative {
                if min_numeric == 0 {
                    return Err(config_error(concat2(field_name, " が負です")));
                } else {
                    return Err(config_error(concat2(field_name, " は正の数値である必要があります")));
                }
            }
        },
        JsonValue::Null => {},
        _ => {
            return Err(config_error(concat2(field_name, " は文字列または数値である必要があります")));
        },
    }
    Ok(())
}

fn validate_position(position: &Position) -> (r: Result<(), AppConfigError>)
    ensures
        match r {
            Ok(()) => position_error(*position).is_none(),
            Err(e) => position_error(*position) == Some(e.message@),
        },
{
    let xs: &[&str] = &["left", "right"];
    let ys: &[&str] = &["top", "bottom"];
    assert(str_views(xs@) =~= position_keywords_x());
    assert(str_views(ys@) =~= position_keywords_y());
    validate_value(&position.x, "x", xs, 0)?;
    validate_value(&position.y, "y", ys, 0)?;
    Ok(())
}

fn validate_size(size: &Size) -> (r: Result<(), AppConfigError>)
    ensures
        match r {
            Ok(()) => size_error(*size).is_none(),
            Err(e) => size_error(*size) == Some(e.message@),
        },
{
    let ks: &[&str] = &["half", "third", "max"];
    assert(str_views(ks@) =~= size_keywords());
    validate_value(&size.width, "width", ks, 1)?;
    validate_value(&size.height, "height", ks, 1)?;
    Ok(())
}

/// The start of every message about one window of a layout.
pub open spec fn window_prefix(display: Seq<char>, app: Seq<char>) -> Seq<char> {
    "ディスプレイ '"@ + display + "' のアプリ '"@ + app + "' のウィンドウ設定でエラー: "@
}

/// The message for the first problem of one layout window, if it has one.
pub open spec fn window_error(w: AppWindowConfig, display: Seq<char>, version: Seq<char>) -> Option<Seq<char>> {
    let prefix = window_prefix(display, w.app@);
    if w.tiling is Some && (w.position is Some || w.size is Some) {
        Some(prefix + "'tiling' と 'position'/'size' を同時に指定することはできません"@)
    } else if w.tiling is Some && version == "1.0"@ {
        Some(
            prefix
                + "version 1.0 では 'tiling' フィールドはサポートされていません（version 2.0 を指定してください）"@,
        )
    } else if w.tiling is Some && spec_tile_keyword(w.tiling->0@) is None {
        Some(prefix + invalid_tiling_message(w.tiling->0@))
    } else if w.position is Some && position_error(w.position->0) is Some {
        Some(prefix + position_error(w.position->0)->0)
    } else if w.size is Some && size_error(w.size->0) is Some {
        Some(prefix + size_error(w.size->0)->0)
    } else {
        None
    }
}

fn prefixed_error(display_name: &str, app: &String, detail: &str) -> (e: AppConfigError)
    ensures
        e.message@ == window_prefix(display_name@, app@) + detail@,
{
    let mut m = to_owned_string("ディスプレイ '");
    m.append(display_name);
    m.append("' のアプリ '");
    m.append(app.as_str());
    m.append("' のウィンドウ設定でエラー: ");
    m.append(detail);
    config_error(m)
}

fn validate_window_config(window: &AppWindowConfig, display_name: &str, version: &str) -> (r: Result<(), AppConfigError>)
    ensures
        match r {
            Ok(()) => window_error(*window, display_name@, version@).is_none(),
            Err(e) => window_error(*window, display_name@, version@) == Some(e.message@),
        },
{
    if window.tiling.is_some() && (window.position.is_some() || window.size.is_some()) {
        return Err(prefixed_error(display_name, &window.app, "'tiling' と 'position'/'size' を同時に指定することはできません"));
    }
    if let Some(tiling) = &window.tiling {
        if str_eq(version, "1.0") {
            return Err(prefixed_error(display_name, &window.app,
                "version 1.0 では 'tiling' フィールドはサポートされていません（version 2.0 を指定してください）"));
        }
        match parse_tile_keyword(tiling.as_str()) {
            Ok(_) => {},
            Err(e) => {
                return Err(prefixed_error(display_name, &window.app, e.message.as_str()));
            },
        }
    }
    if let Some(position) = &window.position {
        match validate_position(position) {
            Ok(()) => {},
            Err(e) => {
                return Err(prefixed_error(display_name, &window.app, e.message.as_str()));
            },
        }
    }
    if let Some(size) = &window.size {
        match validate_size(size) {
            Ok(()) => {},
            Err(e) => {
                return Err(prefixed_error(display_name, &window.app, e.message.as_str()));
            },
        }
    }
    Ok(())
}

/// The first problem among windows, in order.
pub open spec fn windows_error(ws: Seq<AppWindowConfig>, display: Seq<char>, version: Seq<char>) -> Option<Seq<char>>
    decreases ws.len(),
{
    if ws.len() == 0 {
        None
    } else if windows_error(ws.drop_last(), display, version) is Some {
        windows_error(ws.drop_last(), display, version)
    } else {
        window_error(ws.last(), display, version)
    }
}

/// The first problem of a display of a layout.
pub open spec fn display_error(d: DisplayConfig, version: Seq<char>) -> Option<Seq<char>> {
    if d.windows@.len() == 0 {
        Some("ディスプレイ '"@ + d.name@ + "' のウィンドウが空です"@)
    } else {
        windows_error(d.windows@, d.name@, version)
    }
}

/// The first problem among displays, in order.
pub open spec fn displays_error(ds: Seq<DisplayConfig>, version: Seq<char>) -> Option<Seq<char>>
    decreases ds.len(),
{
    if ds.len() == 0 {
        None
    } else if displays_error(ds.drop_last(), version) is Some {
        displays_error(ds.drop_last(), version)
    } else {
        display_error(ds.last(), version)
    }
}

/// The first problem of one layout.
pub open spec fn layout_config_error(l: LayoutConfig, version: Seq<char>) -> Option<Seq<char>> {
    if l.displays@.len() == 0 {
        Some("レイアウトのディスプレイが空です"@)
    } else {
        displays_error(l.displays@, version)
    }
}

/// The first problem among layouts, in order.
pub open spec fn layouts_error(ls: Seq<LayoutConfig>, version: Seq<char>) -> Option<Seq<char>>
    decreases ls.len(),
{
    if ls.len() == 0 {
        None
    } else if layouts_error(ls.drop_last(), version) is Some {
        layouts_error(ls.drop_last(), version)
    } else {
        layout_config_error(ls.last(), version)
    }
}

/// The message for the first problem of a layout file, if it has one.
pub open spec fn layout_error(f: LayoutFile) -> Option<Seq<char>> {
    if f.version@ != "1.0"@ && f.version@ != "2.0"@ {
        Some("サポートされていないバージョン: "@ + f.version@ + "（サポート: 1.0, 2.0）"@)
    } else if f.layouts@.len() == 0 {
        Some("layouts フィールドが空です"@)
    } else {
        layouts_error(f.layouts@, f.version@)
    }
}

proof fn lemma_windows_error_prefix(ws: Seq<AppWindowConfig>, i: int, display: Seq<char>, version: Seq<char>)
    requires
        0 <= i <= ws.len(),
        windows_error(ws.take(i), display, version) is Some,
    ensures
        windows_error(ws, display, version) == windows_error(ws.take(i), display, version),
    decreases ws.len() - i,
{
    if i < ws.len() {
        assert(ws.drop_last().take(i) =~= ws.take(i));
        lemma_windows_error_prefix(ws.drop_last(), i, display, version);
    } else {
        assert(ws.take(i) =~= ws);
    }
}

proof fn lemma_displays_error_prefix(ds: Seq<DisplayConfig>, i: int, version: Seq<char>)
    requires
        0 <= i <= ds.len(),
        displays_error(ds.take(i), version) is Some,
    ensures
        displays_error(ds, version) == displays_error(ds.take(i), version),
    decreases ds.len() - i,
{
    if i < ds.len() {
        assert(ds.drop_last().take(i) =~= ds.take(i));
        lemma_displays_error_prefix(ds.drop_last(), i, version);
    } else {
        assert(ds.take(i) =~= ds);
    }
}

proof fn lemma_layouts_error_prefix(ls: Seq<LayoutConfig>, i: int, version: Seq<char>)
    requires
        0 <= i <= ls.len(),
        layouts_error(ls.take(i), version) is Some,
    ensures
        layouts_error(ls, version) == layouts_error(ls.take(i), version),
    decreases ls.len() - i,
{
    if i < ls.len() {
        assert(ls.drop_last().take(i) =~= ls.take(i));
        lemma_layouts_error_prefix(ls.drop_last(), i, version);
    } else {
        assert(ls.take(i) =~= ls);
    }
}

fn validate_display_windows(display: &DisplayConfig, version: &str) -> (r: Result<(), AppConfigError>)
    ensures
        match r {
            Ok(()) => display_error(*display, version@).is_none(),
            Err(e) => display_error(*display, version@) == Some(e.message@),
        },
{
    if display.windows.len() == 0 {
        return Err(config_error(concat3("ディスプレイ '", display.name.as_str(), "' のウィンドウが空です")));
    }
    let ghost ws = display.windows@;
    let mut i: usize = 0;
    assert(ws.take(0) =~= Seq::<AppWindowConfig>::empty());
    while i < display.windows.len()
        invariant
            ws == display.windows@,
            i <= ws.len(),
            windows_error(ws.take(i as int), display.name@, version@).is_none(),
        decreases ws.len() - i,
    {
        assert(ws.take(i + 1).drop_last() =~= ws.take(i as int));
        match validate_window_config(&display.windows[i], display.name.as_str(), version) {
            Ok(()) => {},
            Err(e) => {
                proof {
                    lemma_windows_error_prefix(ws, i + 1, display.name@, version@);
                }
                return Err(e);
            },
        }
        i = i + 1;
    }
    assert(ws.take(ws.len() as int) =~= ws);
    Ok(())
}

fn validate_layout_displays(layout: &LayoutConfig, version: &str) -> (r: Result<(), AppConfigError>)
    ensures
        match r {
            Ok(()) => layout_config_error(*layout, version@).is_none(),
            Err(e) => layout_config_error(*layout, version@) == Some(e.message@),
        },
{
    if layout.displays.len() == 0 {
        return Err(config_error(to_owned_string("レイアウトのディスプレイが空です")));
    }
    let ghost ds = layout.displays@;
    let mut i: usize = 0;
    assert(ds.take(0) =~= Seq::<DisplayConfig>::empty());
    while i < layout.displays.len()
        invariant
            ds == layout.displays@,
            i <= ds.len(),
            displays_error(ds.take(i as int), version@).is_none(),
        decreases ds.len() - i,
    {
        assert(ds.take(i + 1).drop_last() =~= ds.take(i as int));
        match validate_display_windows(&layout.displays[i], version) {
            Ok(()) => {},
            Err(e) => {
                proof {
                    lemma_displays_error_prefix(ds, i + 1, version@);
                }
                return Err(e);
            },
        }
        i = i + 1;
    }
    assert(ds.take(ds.len() as int) =~= ds);
    Ok(())
}

/// Checks a parsed `layout.json`: version `1.0` or `2.0`, at least one
/// layout, no layout without displays, no display without windows, and every
/// window well-formed, reporting the first problem in file order.
pub fn validate_layout_syntax(layout: &LayoutFile) -> (r: Result<(), AppConfigError>)
    ensures
        match r {
            Ok(()) => layout_error(*layout).is_none(),
            Err(e) => layout_error(*layout) == Some(e.message@),
        },
{
    if !str_eq(layout.version.as_str(), "1.0") && !str_eq(layout.version.as_str(), "2.0") {
        return Err(config_error(concat3("サポートされていないバージョン: ", layout.version.as_str(), "（サポート: 1.0, 2.0）")));
    }
    if layout.layouts.len() == 0 {
        return Err(config_error(to_owned_string("layouts フィールドが空です")));
    }
    let ghost ls = layout.layouts@;
    let mut i: usize = 0;
    assert(ls.take(0) =~= Seq::<LayoutConfig>::empty());
    while i < layout.layouts.len()
        invariant
            ls == layout.layouts@,
            i <= ls.len(),
            layouts_error(ls.take(i as int), layout.version@).is_none(),
            layout.version@ == "1.0"@ || layout.version@ == "2.0"@,
        decreases ls.len() - i,
    {
        assert(ls.take(i + 1).drop_last() =~= ls.take(i as int));
        match validate_layout_displays(&layout.layouts[i], layout.version.as_str()) {
            Ok(()) => {},
            Err(e) => {
                proof {
                    lemma_layouts_error_prefix(ls, i + 1, layout.version@);
                }
                return Err(e);
            },
        }
        i = i + 1;
    }
    assert(ls.take(ls.len() as int) =~= ls);
    Ok(())
}


// ---------------------------------------------------------------------------
// From layout values to pixels
// ---------------------------------------------------------------------------

/// Integer division rounding toward zero, as Rust's `/` does.
pub open spec fn trunc_div(x: int, d: int) -> int {
    if x >= 0 {
        x / d
    } else {
        -((-x) / d)
    }
}

pub(crate) fn trunc_div_i32(x: i32, d: i32) -> (r: i32)
    requires
        d > 1,
    ensures
        r == trunc_div(x as int, d as int),
{
    let xx = x as i64;
    let dd = d as i64;
    if xx >= 0 {
        (xx / dd) as i32
    } else {
        (-((-xx) / dd)) as i32
    }
}

/// Whether `v` fits an `i32`.
pub open spec fn fits_i32(v: int) -> bool {
    i32::MIN <= v <= i32::MAX
}

/// How a coordinate value becomes pixels: `near` and `far` are the two
/// keywords of the axis, `near_value` and `far_value` their pixel values;
/// a number is taken as it is (truncated to 32 bits); `suffix` ends the
/// message for an unknown keyword.
pub open spec fn coord_result(v: JsonValue, field: Seq<char>, near: Seq<char>, far: Seq<char>, near_value: int, far_value: int, suffix: Seq<char>) -> Result<int, Seq<char>> {
    match v {
        JsonValue::Str(s) => if s@ == near {
            Ok(near_value)
        } else if s@ == far {
            Ok(far_value)
        } else {
            Err("無効な "@ + field + " 値: '"@ + s@ + "'"@ + suffix)
        },
        JsonValue::Int(i) => if i < 0 {
            Err(field + " が負です"@)
        } else {
            Ok((i as i32) as int)
        },
        JsonValue::OtherNumber { .. } => Err(field + " は整数である必要があります"@),
        _ => Err(field + " は文字列または数値である必要があります"@),
    }
}

/// How a size value becomes pixels on a display `d` pixels long; `sp` is the
/// space put around the field name in messages.
pub open spec fn size_result(v: JsonValue, field: Seq<char>, sp: Seq<char>, d: int, suffix: Seq<char>) -> Result<int, Seq<char>> {
    match v {
        JsonValue::Str(s) => if s@ == "half"@ {
            Ok(trunc_div(d, 2))
        } else if s@ == "third"@ {
            Ok(trunc_div(d, 3))
        } else if s@ == "max"@ {
            Ok(d)
        } else {
            Err("無効な"@ + sp + field + sp + "値: '"@ + s@ + "'"@ + suffix)
        },
        JsonValue::Int(i) => if i <= 0 {
            Err(field + sp + "は正の値である必要があります"@)
        } else {
            Ok((i as i32) as int)
        },
        JsonValue::OtherNumber { .. } => Err(field + sp + "は整数である必要があります"@),
        _ => Err(field + sp + "は文字列または数値である必要があります"@),
    }
}

fn field_message(field: &str, rest: &str) -> (e: AppConfigError)
    ensures
        e.message@ == field@ + rest@,
{
    config_error(concat2(field, rest))
}

/// The shared reading of a coordinate value; `far_value` is only computed
/// for the far keyword.
pub(crate) fn coord_value(value: &JsonValue, field: &str, near: &str, far: &str, near_value: i64, display: i64, window: i64, suffix: &str) -> (r: Result<i64, AppConfigError>)
    requires
        value.is_str(far@) && !value.is_str(near@) ==> i64::MIN <= display - window <= i64::MAX,
    ensures
        match r {
            Ok(v) => coord_result(*value, field@, near@, far@, near_value as int, display - window, suffix@) == Ok::<int, Seq<char>>(v as int),
            Err(e) => coord_result(*value, field@, near@, far@, near_value as int, display - window, suffix@) == Err::<int, Seq<char>>(e.message@),
        },
{
    match value {
        JsonValue::Str(s) => {
            if str_eq(s.as_str(), near) {
                Ok(near_value)
            } else if str_eq(s.as_str(), far) {
                Ok(display - window)
            } else {
                let mut m = to_owned_string("無効な ");
                m.append(field);
                m.append(" 値: '");
                m.append(s.as_str());
                m.append("'");
                m.append(suffix);
                Err(config_error(m))
            }
        },
        JsonValue::Int(i) => {
            if *i < 0 {
                Err(field_message(field, " が負です"))
            } else {
                Ok((*i as i32) as i64)
            }
        },
        JsonValue::OtherNumber { .. } => Err(field_message(field, " は整数である必要があります")),
        _ => Err(field_message(field, " は文字列または数値である必要があります")),
    }
}

pub(crate) fn size_pixels(value: &JsonValue, field: &str, sp: &str, display: i32, suffix: &str) -> (r: Result<i32, AppConfigError>)
    ensures
        match r {
            Ok(v) => size_result(*value, field@, sp@, display as int, suffix@) == Ok::<int, Seq<char>>(v as int),
            Err(e) => size_result(*value, field@, sp@, display as int, suffix@) == Err::<int, Seq<char>>(e.message@),
        },
{
    match value {
        JsonValue::Str(s) => {
            if str_eq(s.as_str(), "half") {
                Ok(trunc_div_i32(display, 2))
            } else if str_eq(s.as_str(), "third") {
                Ok(trunc_div_i32(display, 3))
            } else if str_eq(s.as_str(), "max") {
                Ok(display)
            } else {
                let mut m = to_owned_string("無効な");
                m.append(sp);
                m.append(field);
                m.append(sp);
                m.append("値: '");
                m.append(s.as_str());
                m.append("'");
                m.append(suffix);
                Err(config_error(m))
            }
        },
        JsonValue::Int(i) => {
            if *i <= 0 {
                Err(config_error(concat3(field, sp, "は正の値である必要があります")))
            } else {
                Ok(*i as i32)
            }
        },
        JsonValue::OtherNumber { .. } => Err(config_error(concat3(field, sp, "は整数である必要があります"))),
        _ => Err(config_error(concat3(field, sp, "は文字列または数値である必要があります"))),
    }
}

/// Whether the width and the height of a size are `"max"`.
pub open spec fn size_max(size: Option<Size>) -> (bool, bool) {
    match size {
        Some(s) => (s.width.is_str("max"@), s.height.is_str("max"@)),
        None => (false, false),
    }
}

pub(crate) fn is_max(v: &JsonValue) -> (r: bool)
    ensures
        r == v.is_str("max"@),
{
    match v {
        JsonValue::Str(s) => str_eq(s.as_str(), "max"),
        _ => false,
    }
}

pub(crate) fn is_size_max(size: Option<&Size>) -> (r: (bool, bool))
    ensures
        r == size_max(match size {
            Some(s) => Some(*s),
            None => None,
        }),
{
    match size {
        Some(s) => (is_max(&s.width), is_max(&s.height)),
        None => (false, false),
    }
}

pub open spec fn opt_size(size: Option<&Size>) -> Option<Size> {
    match size {
        Some(s) => Some(*s),
        None => None,
    }
}

pub open spec fn x_suffix() -> Seq<char> {
    " (left, right を指定)"@
}

pub open spec fn y_suffix() -> Seq<char> {
    " (top, bottom を指定)"@
}

pub open spec fn size_suffix() -> Seq<char> {
    " (half, third, max を指定)"@
}

/// Where a window goes, in pixels relative to its display: a coordinate is 0
/// where the size on that axis is `"max"`; `"left"` is 0, `"right"` the
/// display width less the window width, `"top"` the menu bar height and
/// `"bottom"` the display height less the window height.
pub open spec fn position_result(p: Position, size: Option<Size>, dw: int, dh: int, ww: int, wh: int) -> Result<(int, int), Seq<char>> {
    let (wmax, hmax) = size_max(size);
    let x = if wmax {
        Ok(0int)
    } else {
        coord_result(p.x, "x"@, "left"@, "right"@, 0, dw - ww, x_suffix())
    };
    let y = if hmax {
        Ok(0int)
    } else {
        coord_result(p.y, "y"@, "top"@, "bottom"@, 25, dh - wh, y_suffix())
    };
    match x {
        Err(m) => Err(m),
        Ok(xv) => match y {
            Err(m) => Err(m),
            Ok(yv) => Ok((xv, yv)),
        },
    }
}

/// Turns a layout position into pixels relative to the display.
pub fn parse_position_value(position: &Position, size: Option<&Size>, display_width: i32, display_height: i32, window_width: i32, window_height: i32) -> (r: Result<(i32, i32), AppConfigError>)
    requires
        !size_max(opt_size(size)).0 && position.x.is_str("right"@) ==> fits_i32(display_width - window_width),
        !size_max(opt_size(size)).1 && position.y.is_str("bottom"@) ==> fits_i32(display_height - window_height),
    ensures
        match r {
            Ok((x, y)) => position_result(*position, opt_size(size), display_width as int, display_height as int, window_width as int, window_height as int) == Ok::<(int, int), Seq<char>>((x as int, y as int)),
            Err(e) => position_result(*position, opt_size(size), display_width as int, display_height as int, window_width as int, window_height as int) == Err::<(int, int), Seq<char>>(e.message@),
        },
{
    let (width_is_max, height_is_max) = is_size_max(size);
    let x: i32 = if width_is_max {
        0
    } else {
        let v = coord_value(&position.x, "x", "left", "right", 0, display_width as i64, window_width as i64, " (left, right を指定)")?;
        v as i32
    };
    let y: i32 = if height_is_max {
        0
    } else {
        let v = coord_value(&position.y, "y", "top", "bottom", 25, display_height as i64, window_height as i64, " (top, bottom を指定)")?;
        v as i32
    };
    Ok((x, y))
}

/// A window size in pixels: width and height as `size_result` reads them,
/// except that a `"max"` height leaves room for the menu bar; both must come
/// out positive.
pub open spec fn size_pixels_result(s: Size, dw: int, dh: int) -> Result<(int, int), Seq<char>> {
    let w = size_result(s.width, "width"@, " "@, dw, size_suffix());
    let h = if s.height.is_str("max"@) {
        Ok(dh - 25)
    } else {
        size_result(s.height, "height"@, " "@, dh, size_suffix())
    };
    match w {
        Err(m) => Err(m),
        Ok(wv) => match h {
            Err(m) => Err(m),
            Ok(hv) => if wv <= 0 || hv <= 0 {
                Err("ウィンドウサイズは正の値である必要があります"@)
            } else {
                Ok((wv, hv))
            },
        },
    }
}

/// Turns a layout size into pixels.
pub fn parse_size_value(size: &Size, display_width: i32, display_height: i32) -> (r: Result<(i32, i32), AppConfigError>)
    requires
        size.height.is_str("max"@) ==> fits_i32(display_height - 25),
    ensures
        match r {
            Ok((w, h)) => size_pixels_result(*size, display_width as int, display_height as int) == Ok::<(int, int), Seq<char>>((w as int, h as int)),
            Err(e) => size_pixels_result(*size, display_width as int, display_height as int) == Err::<(int, int), Seq<char>>(e.message@),
        },
{
    let width_val = size_pixels(&size.width, "width", " ", display_width, " (half, third, max を指定)")?;
    let height_val = if is_max(&size.height) {
        display_height - MACOS_MENU_BAR_HEIGHT
    } else {
        size_pixels(&size.height, "height", " ", display_height, " (half, third, max を指定)")?
    };
    if width_val <= 0 || height_val <= 0 {
        return Err(config_error(to_owned_string("ウィンドウサイズは正の値である必要があります")));
    }
    Ok((width_val, height_val))
}


// ---------------------------------------------------------------------------
// Checks against the connected displays
// ---------------------------------------------------------------------------

/// Where a window goes as the bounds check computes it: as `position_result`,
/// with the far keywords computed exactly and shorter messages.
pub open spec fn check_position_result(p: Position, size: Option<Size>, dw: int, dh: int, ww: int, wh: int) -> Result<(int, int), Seq<char>> {
    let (wmax, hmax) = size_max(size);
    let x = if wmax {
        Ok(0int)
    } else {
        coord_result(p.x, "x"@, "left"@, "right"@, 0, dw - ww, ""@)
    };
    let y = if hmax {
        Ok(0int)
    } else {
        coord_result(p.y, "y"@, "top"@, "bottom"@, 25, dh - wh, ""@)
    };
    match x {
        Err(m) => Err(m),
        Ok(xv) => match y {
            Err(m) => Err(m),
            Ok(yv) => Ok((xv, yv)),
        },
    }
}

/// The size in pixels as the bounds check reads it.
pub open spec fn check_size_result(v: JsonValue, d: int) -> Result<int, Seq<char>> {
    size_result(v, "サイズ"@, ""@, d, size_suffix())
}

/// The warning for a window that would stick out of its display.  A window
/// without a position, without a size, or with a value that cannot be turned
/// into pixels yet (such as an unset `null` field) is not checked.
pub open spec fn bounds_warning(w: AppWindowConfig, d: DisplayInfo) -> Option<Seq<char>> {
    if w.position is None || w.size is None {
        None
    } else {
        let p = w.position->0;
        let s = w.size->0;
        match check_size_result(s.width, d.width as int) {
            Err(_) => None,
            Ok(ww) => match check_size_result(s.height, d.height as int) {
                Err(_) => None,
                Ok(wh) => match check_position_result(p, Some(s), d.width as int, d.height as int, ww, wh) {
                    Err(_) => None,
                    Ok((x, y)) => if x + ww > d.width {
                        Some(
                            "ウィンドウの右端 ("@ + int_decimal(x + ww) + ") がディスプレイの幅 ("@
                                + int_decimal(d.width as int) + ") を超えています"@,
                        )
                    } else if y + wh > d.height {
                        Some(
                            "ウィンドウの下端 ("@ + int_decimal(y + wh) + ") がディスプレイの高さ ("@
                                + int_decimal(d.height as int) + ") を超えています"@,
                        )
                    } else {
                        None
                    },
                },
            },
        }
    }
}

fn calculate_size_for_validation(value: &JsonValue, display_size: i32) -> (r: Result<i32, AppConfigError>)
    ensures
        match r {
            Ok(v) => check_size_result(*value, display_size as int) == Ok::<int, Seq<char>>(v as int),
            Err(e) => check_size_result(*value, display_size as int) == Err::<int, Seq<char>>(e.message@),
        },
{
    size_pixels(value, "サイズ", "", display_size, " (half, third, max を指定)")
}

fn calculate_x_for_validation(value: &JsonValue, display_width: i32, window_width: i32) -> (r: Result<i64, AppConfigError>)
    ensures
        match r {
            Ok(v) => coord_result(*value, "x"@, "left"@, "right"@, 0, display_width - window_width, ""@) == Ok::<int, Seq<char>>(v as int),
            Err(e) => coord_result(*value, "x"@, "left"@, "right"@, 0, display_width - window_width, ""@) == Err::<int, Seq<char>>(e.message@),
        },
{
    coord_value(value, "x", "left", "right", 0, display_width as i64, window_width as i64, "")
}

fn calculate_y_for_validation(value: &JsonValue, display_height: i32, window_height: i32) -> (r: Result<i64, AppConfigError>)
    ensures
        match r {
            Ok(v) => coord_result(*value, "y"@, "top"@, "bottom"@, 25, display_height - window_height, ""@) == Ok::<int, Seq<char>>(v as int),
            Err(e) => coord_result(*value, "y"@, "top"@, "bottom"@, 25, display_height - window_height, ""@) == Err::<int, Seq<char>>(e.message@),
        },
{
    coord_value(value, "y", "top", "bottom", 25, display_height as i64, window_height as i64, "")
}

fn calculate_position_for_validation(position: &Position, size: Option<&Size>, display_width: i32, display_height: i32, window_width: i32, window_height: i32) -> (r: Result<(i64, i64), AppConfigError>)
    ensures
        match r {
            Ok((x, y)) => check_position_result(*position, opt_size(size), display_width as int, display_height as int, window_width as int, window_height as int) == Ok::<(int, int), Seq<char>>((x as int, y as int)),
            Err(e) => check_position_result(*position, opt_size(size), display_width as int, display_height as int, window_width as int, window_height as int) == Err::<(int, int), Seq<char>>(e.message@),
        },
{
    let (width_is_max, height_is_max) = is_size_max(size);
    let x: i64 = if width_is_max {
        0
    } else {
        calculate_x_for_validation(&position.x, display_width, window_width)?
    };
    let y: i64 = if height_is_max {
        0
    } else {
        calculate_y_for_validation(&position.y, display_height, window_height)?
    };
    Ok((x, y))
}

fn edge_message(start: &str, edge: i64, middle: &str, limit: i32) -> (r: String)
    ensures
        r@ == start@ + int_decimal(edge as int) + middle@ + int_decimal(limit as int) + ") を超えています"@,
{
    let mut m = to_owned_string(start);
    push_decimal(&mut m, edge);
    m.append(middle);
    push_decimal(&mut m, limit as i64);
    m.append(") を超えています");
    m
}

fn validate_display_bounds(window: &AppWindowConfig, display_info: &DisplayInfo, display_name: &str) -> (r: Option<ValidationWarning>)
    ensures
        match r {
            Some(w) => bounds_warning(*window, *display_info) == Some(w.message@) && w.display_name@ == display_name@ && w.app_name@ == window.app@,
            None => bounds_warning(*window, *display_info).is_none(),
        },
{
    let position = match &window.position {
        Some(p) => p,
        None => {
            return None;
        },
    };
    let size = match &window.size {
        Some(s) => s,
        None => {
            return None;
        },
    };
    let window_width = match calculate_size_for_validation(&size.width, display_info.width) {
        Ok(w) => w,
        Err(_) => {
            return None;
        },
    };
    let window_height = match calculate_size_for_validation(&size.height, display_info.height) {
        Ok(h) => h,
        Err(_) => {
            return None;
        },
    };
    let (x, y) = match calculate_position_for_validation(position, Some(size), display_info.width, display_info.height, window_width, window_height) {
        Ok(p) => p,
        Err(_) => {
            return None;
        },
    };
    if x + (window_width as i64) > display_info.width as i64 {
        return Some(ValidationWarning {
            display_name: to_owned_string(display_name),
            app_name: window.app.clone(),
            message: edge_message("ウィンドウの右端 (", x + window_width as i64, ") がディスプレイの幅 (", display_info.width),
        });
    }
    if y + (window_height as i64) > display_info.height as i64 {
        return Some(ValidationWarning {
            display_name: to_owned_string(display_name),
            app_name: window.app.clone(),
            message: edge_message("ウィンドウの下端 (", y + window_height as i64, ") がディスプレイの高さ (", display_info.height),
        });
    }
    None
}

/// The first connected display with the given name.
pub open spec fn find_display(ds: Seq<DisplayInfo>, name: Seq<char>) -> Option<DisplayInfo>
    decreases ds.len(),
{
    if ds.len() == 0 {
        None
    } else if ds[0].name@ == name {
        Some(ds[0])
    } else {
        find_display(ds.drop_first(), name)
    }
}

/// The index of the first connected display with the given name.
pub fn find_display_index(name: &str, connected_displays: &[DisplayInfo]) -> (r: Option<usize>)
    ensures
        match r {
            Some(i) => i < connected_displays@.len() && find_display(connected_displays@, name@) == Some(connected_displays@[i as int]),
            None => find_display(connected_displays@, name@).is_none(),
        },
{
    let mut i: usize = 0;
    assert(connected_displays@.skip(0) =~= connected_displays@);
    while i < connected_displays.len()
        invariant
            i <= connected_displays@.len(),
            find_display(connected_displays@, name@) == find_display(connected_displays@.skip(i as int), name@),
        decreases connected_displays@.len() - i,
    {
        assert(connected_displays@.skip(i as int).drop_first() =~= connected_displays@.skip(i + 1));
        if str_eq(connected_displays[i].name.as_str(), name) {
            return Some(i);
        }
        i = i + 1;
    }
    None
}

fn validate_display_exists(display_name: &str, connected_displays: &[DisplayInfo]) -> (r: bool)
    ensures
        r == find_display(connected_displays@, display_name@) is Some,
{
    find_display_index(display_name, connected_displays).is_some()
}

/// A warning as plain values: display name, application name, message.
pub open spec fn warning_view(w: ValidationWarning) -> (Seq<char>, Seq<char>, Seq<char>) {
    (w.display_name@, w.app_name@, w.message@)
}

pub open spec fn not_connected_message(name: Seq<char>) -> Seq<char> {
    "ディスプレイ '"@ + name + "' が接続されていません"@
}

/// The warnings for windows whose display is not connected: one per window.
pub open spec fn not_connected_warnings(ws: Seq<AppWindowConfig>, name: Seq<char>) -> Seq<(Seq<char>, Seq<char>, Seq<char>)>
    decreases ws.len(),
{
    if ws.len() == 0 {
        Seq::empty()
    } else {
        not_connected_warnings(ws.drop_last(), name).push((name, ws.last().app@, not_connected_message(name)))
    }
}

/// The warnings for the windows of a connected display, in order.
pub open spec fn bounds_warnings(ws: Seq<AppWindowConfig>, d: DisplayInfo, name: Seq<char>) -> Seq<(Seq<char>, Seq<char>, Seq<char>)>
    decreases ws.len(),
{
    if ws.len() == 0 {
        Seq::empty()
    } else {
        let prev = bounds_warnings(ws.drop_last(), d, name);
        match bounds_warning(ws.last(), d) {
            Some(m) => prev.push((name, ws.last().app@, m)),
            None => prev,
        }
    }
}

/// The warnings for one display of a layout.
pub open spec fn display_warnings(dc: DisplayConfig, ds: Seq<DisplayInfo>) -> Seq<(Seq<char>, Seq<char>, Seq<char>)> {
    match find_display(ds, dc.name@) {
        None => not_connected_warnings(dc.windows@, dc.name@),
        Some(d) => bounds_warnings(dc.windows@, d, dc.name@),
    }
}

/// The warnings for all displays of a layout, display by display.
pub open spec fn layout_warnings(dcs: Seq<DisplayConfig>, ds: Seq<DisplayInfo>) -> Seq<(Seq<char>, Seq<char>, Seq<char>)>
    decreases dcs.len(),
{
    if dcs.len() == 0 {
        Seq::empty()
    } else {
        layout_warnings(dcs.drop_last(), ds) + display_warnings(dcs.last(), ds)
    }
}

pub open spec fn warning_views(ws: Seq<ValidationWarning>) -> Seq<(Seq<char>, Seq<char>, Seq<char>)> {
    ws.map_values(|w: ValidationWarning| warning_view(w))
}

fn push_display_warnings(warnings: &mut Vec<ValidationWarning>, display_config: &DisplayConfig, connected_displays: &[DisplayInfo])
    ensures
        warning_views(final(warnings)@) == warning_views(old(warnings)@) + display_warnings(*display_config, connected_displays@),
{
    let ghost start = warning_views(warnings@);
    let ghost ws = display_config.windows@;
    let found = find_display_index(display_config.name.as_str(), connected_displays);
    let mut i: usize = 0;
    assert(ws.take(0) =~= Seq::<AppWindowConfig>::empty());
    assert(warning_views(warnings@) =~= start + Seq::empty());
    match found {
        None => {
            while i < display_config.windows.len()
                invariant
                    ws == display_config.windows@,
                    i <= ws.len(),
                    warning_views(warnings@) == start + not_connected_warnings(ws.take(i as int), display_config.name@),
                decreases ws.len() - i,
            {
                assert(ws.take(i + 1).drop_last() =~= ws.take(i as int));
                let ghost before = warnings@;
                warnings.push(ValidationWarning {
                    display_name: display_config.name.clone(),
                    app_name: display_config.windows[i].app.clone(),
                    message: concat3("ディスプレイ '", display_config.name.as_str(), "' が接続されていません"),
                });
                assert(warning_views(warnings@) =~= warning_views(before).push(warning_view(warnings@.last())));
                i = i + 1;
            }
        },
        Some(k) => {
            let display_info = &connected_displays[k];
            while i < display_config.windows.len()
                invariant
                    ws == display_config.windows@,
                    i <= ws.len(),
                    *display_info == connected_displays@[k as int],
                    warning_views(warnings@) == start + bounds_warnings(ws.take(i as int), *display_info, display_config.name@),
                decreases ws.len() - i,
            {
                assert(ws.take(i + 1).drop_last() =~= ws.take(i as int));
                let ghost before = warnings@;
                match validate_display_bounds(&display_config.windows[i], display_info, display_config.name.as_str()) {
                    Some(w) => {
                        warnings.push(w);
                        assert(warning_views(warnings@) =~= warning_views(before).push(warning_view(warnings@.last())));
                    },
                    None => {},
                }
                i = i + 1;
            }
        },
    }
    assert(ws.take(ws.len() as int) =~= ws);
}

/// Checks the first layout against the connected displays.  Every window of a
/// display that is not connected gets a warning; every other window gets one
/// if it would stick out of its display.
pub fn validate_layout_bounds(layout: &LayoutFile, connected_displays: &[DisplayInfo]) -> (r: Result<Vec<ValidationWarning>, AppConfigError>)
    ensures
        match r {
            Ok(ws) => layout.layouts@.len() > 0 && warning_views(ws@) == layout_warnings(layout.layouts@[0].displays@, connected_displays@),
            Err(e) => layout.layouts@.len() == 0 && e.message@ == "レイアウトが定義されていません"@,
        },
{
    if layout.layouts.len() == 0 {
        return Err(config_error(to_owned_string("レイアウトが定義されていません")));
    }
    let layout_config = &layout.layouts[0];
    let ghost dcs = layout_config.displays@;
    let mut warnings: Vec<ValidationWarning> = Vec::new();
    let mut i: usize = 0;
    assert(dcs.take(0) =~= Seq::<DisplayConfig>::empty());
    assert(warning_views(warnings@) =~= Seq::empty());
    while i < layout_config.displays.len()
        invariant
            dcs == layout_config.displays@,
            i <= dcs.len(),
            warning_views(warnings@) == layout_warnings(dcs.take(i as int), connected_displays@),
        decreases dcs.len() - i,
    {
        assert(dcs.take(i + 1).drop_last() =~= dcs.take(i as int));
        push_display_warnings(&mut warnings, &layout_config.displays[i], connected_displays);
        i = i + 1;
    }
    assert(dcs.take(dcs.len() as int) =~= dcs);
    Ok(warnings)
}

/// Checks a layout file: first its syntax, then, when the connected displays
/// are given, the first layout against them.
pub fn validate_layout(layout: &LayoutFile, connected_displays: Option<&[DisplayInfo]>) -> (r: Result<Vec<ValidationWarning>, AppConfigError>)
    ensures
        match r {
            Ok(ws) => layout_error(*layout).is_none() && match connected_displays {
                Some(ds) => warning_views(ws@) == layout_warnings(layout.layouts@[0].displays@, ds@),
                None => ws@.len() == 0,
            },
            Err(e) => layout_error(*layout) == Some(e.message@),
        },
{
    validate_layout_syntax(layout)?;
    match connected_displays {
        Some(displays) => {
            let r = validate_layout_bounds(layout, displays);
            assert(layout.layouts@.len() > 0);
            r
        },
        None => Ok(Vec::new()),
    }
}

// ---------------------------------------------------------------------------
// Fields left unset
// ---------------------------------------------------------------------------

/// The position with its unset (`null`) fields taken from the current window
/// position, or nothing when a field is unset and the current position is
/// unknown.
pub open spec fn filled_position(p: Position, current: Option<(i32, i32)>) -> Option<Position> {
    let x_absent = p.x is Null;
    let y_absent = p.y is Null;
    if (x_absent || y_absent) && current is None {
        None
    } else {
        let (cx, cy) = match current {
            Some(c) => c,
            None => (0i32, 0i32),
        };
        Some(Position {
            x: if x_absent { JsonValue::Int(cx as i64) } else { p.x },
            y: if y_absent { JsonValue::Int(cy as i64) } else { p.y },
        })
    }
}

/// The size with its unset (`null`) fields taken from the current window
/// size, or nothing when a field is unset and the current size is unknown.
pub open spec fn filled_size(s: Size, current: Option<(i32, i32)>) -> Option<Size> {
    let w_absent = s.width is Null;
    let h_absent = s.height is Null;
    if (w_absent || h_absent) && current is None {
        None
    } else {
        let (cw, ch) = match current {
            Some(c) => c,
            None => (0i32, 0i32),
        };
        Some(Size {
            width: if w_absent { JsonValue::Int(cw as i64) } else { s.width },
            height: if h_absent { JsonValue::Int(ch as i64) } else { s.height },
        })
    }
}

/// Fills the unset fields of a position from the current window position
/// (relative to its display).
pub fn fill_absent_position(position: &Position, current: Option<(i32, i32)>) -> (r: Option<Position>)
    ensures
        r == filled_position(*position, current),
{
    let x_absent = position.x.is_null();
    let y_absent = position.y.is_null();
    if (x_absent || y_absent) && current.is_none() {
        return None;
    }
    let (current_x, current_y) = match current {
        Some(c) => c,
        None => (0i32, 0i32),
    };
    Some(Position {
        x: if x_absent { JsonValue::Int(current_x as i64) } else { position.x.copy() },
        y: if y_absent { JsonValue::Int(current_y as i64) } else { position.y.copy() },
    })
}

/// Fills the unset fields of a size from the current window size.
pub fn fill_absent_size(size: &Size, current: Option<(i32, i32)>) -> (r: Option<Size>)
    ensures
        r == filled_size(*size, current),
{
    let width_absent = size.width.is_null();
    let height_absent = size.height.is_null();
    if (width_absent || height_absent) && current.is_none() {
        return None;
    }
    let (current_width, current_height) = match current {
        Some(c) => c,
        None => (0i32, 0i32),
    };
    Some(Size {
        width: if width_absent { JsonValue::Int(current_width as i64) } else { size.width.copy() },
        height: if height_absent { JsonValue::Int(current_height as i64) } else { size.height.copy() },
    })
}


// ---------------------------------------------------------------------------
// Reading the files
// ---------------------------------------------------------------------------

/// The settings that a settings file gives, from what the JSON parser made
/// of its text: the parser's message after `JSON パースエラー: `, the first
/// problem of the settings, or the settings.
pub fn parse_settings_from_json(parsed: Result<AppSettings, String>) -> (r: Result<AppSettings, AppConfigError>)
    ensures
        match parsed {
            Err(m) => r matches Err(e) && e.message@ == "JSON パースエラー: "@ + m@,
            Ok(s) => match settings_error(s) {
                Some(m) => r matches Err(e) && e.message@ == m,
                None => r == Ok::<AppSettings, AppConfigError>(s),
            },
        },
{
    match parsed {
        Err(m) => Err(config_error(concat2("JSON パースエラー: ", m.as_str()))),
        Ok(settings) => {
            validate_settings_syntax(&settings)?;
            Ok(settings)
        },
    }
}

/// The layout that a layout file gives, from what the JSON parser made of
/// its text: the parser's message after `JSON パースエラー: `, the first
/// problem of the layout, or the layout.
pub fn parse_layout_from_json(parsed: Result<LayoutFile, String>) -> (r: Result<LayoutFile, AppConfigError>)
    ensures
        match parsed {
            Err(m) => r matches Err(e) && e.message@ == "JSON パースエラー: "@ + m@,
            Ok(l) => match layout_error(l) {
                Some(m) => r matches Err(e) && e.message@ == m,
                None => r == Ok::<LayoutFile, AppConfigError>(l),
            },
        },
{
    match parsed {
        Err(m) => Err(config_error(concat2("JSON パースエラー: ", m.as_str()))),
        Ok(layout) => {
            validate_layout_syntax(&layout)?;
            Ok(layout)
        },
    }
}

// ---------------------------------------------------------------------------
// Where the files live
// ---------------------------------------------------------------------------

/// The application's directory, relative to the home directory.
pub open spec fn app_dir_rel() -> Seq<char> {
    "Library/Application Support/biz.nosetech.apptidying"@
}

/// `settings.json`, relative to the home directory.
pub open spec fn settings_rel() -> Seq<char> {
    "Library/Application Support/biz.nosetech.apptidying/settings.json"@
}

/// `layout.json`, relative to the home directory.
pub open spec fn layout_rel() -> Seq<char> {
    "Library/Application Support/biz.nosetech.apptidying/layout.json"@
}

pub open spec fn home_error_message() -> Seq<char> {
    "ホームディレクトリの取得に失敗しました"@
}

/// `PathBuf::join` of a relative path: a `/` goes between unless `base` is
/// empty or already ends with one.
pub open spec fn path_join(base: Seq<char>, rel: Seq<char>) -> Seq<char> {
    if base.len() == 0 || base.last() == '/' {
        base + rel
    } else {
        base + seq!['/'] + rel
    }
}

/// Joins a relative path onto `base`.
pub fn path_join_str(base: &str, rel: &str) -> (r: String)
    ensures
        r@ == path_join(base@, rel@),
{
    let b = crate::text::chars_of(base);
    let mut r = to_owned_string(base);
    if b.len() == 0 || b[b.len() - 1] == '/' {
        r.append(rel);
    } else {
        crate::text::push_char(&mut r, '/');
        r.append(rel);
    }
    r
}

/// The user's home directory (`dirs::home_dir`), as text.  The result depends
/// on the environment, so nothing is claimed of it.
#[verifier::external_body]
pub(crate) fn home_dir() -> Option<String> {
    dirs::home_dir().map(|p| p.to_string_lossy().into_owned())
}

/// A path below the home directory, or the error for a missing home.
pub fn path_under_home(home: Option<String>, rel: &str) -> (r: Result<String, AppConfigError>)
    ensures
        match home {
            Some(h) => r matches Ok(p) && p@ == path_join(h@, rel@),
            None => r matches Err(e) && e.message@ == home_error_message(),
        },
{
    match home {
        Some(h) => Ok(path_join_str(h.as_str(), rel)),
        None => Err(config_error(to_owned_string("ホームディレクトリの取得に失敗しました"))),
    }
}

/// `~/Library/Application Support/biz.nosetech.apptidying/settings.json`.
pub fn get_default_settings_path() -> (r: Result<String, AppConfigError>)
    ensures
        match r {
            Ok(p) => exists|h: Seq<char>| p@ == path_join(h, settings_rel()),
            Err(e) => e.message@ == home_error_message(),
        },
{
    let home = home_dir();
    let ghost g = home;
    let r = path_under_home(home, "Library/Application Support/biz.nosetech.apptidying/settings.json");
    proof {
        if let Some(h) = g {
            assert(r matches Ok(p) && p@ == path_join(h@, settings_rel()));
        }
    }
    r
}

/// `~/Library/Application Support/biz.nosetech.apptidying/layout.json`.
pub fn get_default_layout_path() -> (r: Result<String, AppConfigError>)
    ensures
        match r {
            Ok(p) => exists|h: Seq<char>| p@ == path_join(h, layout_rel()),
            Err(e) => e.message@ == home_error_message(),
        },
{
    let home = home_dir();
    let ghost g = home;
    let r = path_under_home(home, "Library/Application Support/biz.nosetech.apptidying/layout.json");
    proof {
        if let Some(h) = g {
            assert(r matches Ok(p) && p@ == path_join(h@, layout_rel()));
        }
    }
    r
}

/// The directory that holds `settings.json`.
pub fn get_config_dir() -> (r: Result<String, AppConfigError>)
    ensures
        match r {
            Ok(p) => exists|h: Seq<char>| p@ == path_join(h, app_dir_rel()),
            Err(e) => e.message@ == home_error_message(),
        },
{
    let home = home_dir();
    let ghost g = home;
    let r = path_under_home(home, "Library/Application Support/biz.nosetech.apptidying");
    proof {
        if let Some(h) = g {
            assert(r matches Ok(p) && p@ == path_join(h@, app_dir_rel()));
        }
    }
    r
}

/// For every home directory, `settings.json` lies in the configuration
/// directory: joining `settings.json` onto the directory gives the settings
/// path.
pub proof fn law_settings_in_config_dir(home: Seq<char>)
    ensures
        path_join(path_join(home, app_dir_rel()), "settings.json"@) == path_join(home, settings_rel()),
        path_join(path_join(home, app_dir_rel()), "layout.json"@) == path_join(home, layout_rel()),
{
    reveal_strlit("Library/Application Support/biz.nosetech.apptidying");
    reveal_strlit("Library/Application Support/biz.nosetech.apptidying/settings.json");
    reveal_strlit("Library/Application Support/biz.nosetech.apptidying/layout.json");
    reveal_strlit("settings.json");
    reveal_strlit("layout.json");
    let d = app_dir_rel();
    assert(settings_rel() =~= d + seq!['/'] + "settings.json"@);
    assert(layout_rel() =~= d + seq!['/'] + "layout.json"@);
    let j = path_join(home, d);
    assert(j.len() > 0);
    assert(j.last() == d.last());
    assert(path_join(j, "settings.json"@) =~= path_join(home, settings_rel()));
    assert(path_join(j, "layout.json"@) =~= path_join(home, layout_rel()));
}

/// Filling the unset fields of a position keeps every field that is set,
/// leaves no field unset, needs no current position when no field is unset,
/// and always succeeds when the current position is known.
pub proof fn law_fill_absent_position(p: Position, current: Option<(i32, i32)>)
    ensures
        !(p.x is Null) && !(p.y is Null) ==> filled_position(p, current) == Some(p),
        current is Some ==> filled_position(p, current) is Some,
        filled_position(p, current) matches Some(q) ==> {
            &&& !(q.x is Null) && !(q.y is Null)
            &&& !(p.x is Null) ==> q.x == p.x
            &&& !(p.y is Null) ==> q.y == p.y
            &&& p.x is Null ==> q.x == JsonValue::Int((current->0).0 as i64)
            &&& p.y is Null ==> q.y == JsonValue::Int((current->0).1 as i64)
        },
{
}

/// Filling the unset fields of a size keeps every field that is set, leaves
/// no field unset, needs no current size when no field is unset, and always
/// succeeds when the current size is known.
pub proof fn law_fill_absent_size(s: Size, current: Option<(i32, i32)>)
    ensures
        !(s.width is Null) && !(s.height is Null) ==> filled_size(s, current) == Some(s),
        current is Some ==> filled_size(s, current) is Some,
        filled_size(s, current) matches Some(q) ==> {
            &&& !(q.width is Null) && !(q.height is Null)
            &&& !(s.width is Null) ==> q.width == s.width
            &&& !(s.height is Null) ==> q.height == s.height
            &&& s.width is Null ==> q.width == JsonValue::Int((current->0).0 as i64)
            &&& s.height is Null ==> q.height == JsonValue::Int((current->0).1 as i64)
        },
{
}

/// The default notification and rotation settings pass the settings check.
pub proof fn law_default_settings_valid(n: NotificationConfig, l: LogRotationConfig)
    requires
        n.info@ == "notification"@,
        n.warn@ == "notification"@,
        n.error@ == "dialog"@,
        l.rotation_type@ == "size"@,
        l.max_size_mb == 10,
        l.max_files == 5,
    ensures
        notification_error(n) is None,
        log_rotation_error(l) is None,
{
}


/// The `tiling` text of each keyword: the keyword's name in lower case,
/// with a hyphen between words.
pub open spec fn tile_keyword_text(k: TileKeyword) -> Seq<char> {
    match k {
        TileKeyword::Left => "left"@,
        TileKeyword::Right => "right"@,
        TileKeyword::Top => "top"@,
        TileKeyword::Bottom => "bottom"@,
        TileKeyword::TopLeft => "top-left"@,
        TileKeyword::TopRight => "top-right"@,
        TileKeyword::BottomLeft => "bottom-left"@,
        TileKeyword::BottomRight => "bottom-right"@,
        TileKeyword::FullScreen => "full-screen"@,
    }
}

/// Each `tiling` value names the keyword whose text it is, and every
/// keyword's text reads back as that keyword.
pub proof fn law_tile_keyword_text(v: Seq<char>, k: TileKeyword)
    ensures
        spec_tile_keyword(v) == Some(k) <==> v == tile_keyword_text(k),
        spec_tile_keyword(tile_keyword_text(k)) == Some(k),
{
    reveal_strlit("left");
    reveal_strlit("right");
    reveal_strlit("top");
    reveal_strlit("bottom");
    reveal_strlit("top-left");
    reveal_strlit("top-right");
    reveal_strlit("bottom-left");
    reveal_strlit("bottom-right");
    reveal_strlit("full-screen");
    let texts = seq!["left"@, "right"@, "top"@, "bottom"@, "top-left"@, "top-right"@, "bottom-left"@, "bottom-right"@, "full-screen"@];
    assert forall|a: int, b: int| 0 <= a < b < texts.len() implies texts[a] != texts[b] by {
        if texts[a].len() == texts[b].len() {
            assert(texts[a][0] != texts[b][0] || texts[a][4] != texts[b][4]);
        }
    }
}

/// Where `parse_position_value` puts a window on each axis, whatever the
/// other axis holds: 0 where the size is `"max"` on that axis; otherwise
/// `"left"` is 0, `"right"` the display width less the window width, `"top"`
/// the menu bar height 25, `"bottom"` the display height less the window
/// height, and a non-negative whole number is taken as it is.  A position
/// made of these always gives a result.
pub proof fn law_position_keywords(p: Position, size: Option<Size>, dw: int, dh: int, ww: int, wh: int)
    ensures
        ({
            let width_max = size matches Some(s) && s.width.is_str("max"@);
            let height_max = size matches Some(s) && s.height.is_str("max"@);
            let x_ok = width_max || p.x.is_str("left"@) || p.x.is_str("right"@) || (p.x matches JsonValue::Int(i) && i >= 0);
            let y_ok = height_max || p.y.is_str("top"@) || p.y.is_str("bottom"@) || (p.y matches JsonValue::Int(i) && i >= 0);
            match position_result(p, size, dw, dh, ww, wh) {
                Ok((x, y)) => {
                    &&& width_max ==> x == 0
                    &&& (!width_max && p.x.is_str("left"@)) ==> x == 0
                    &&& (!width_max && p.x.is_str("right"@)) ==> x == dw - ww
                    &&& (!width_max && p.x is Int) ==> x == ((p.x->Int_0) as i32) as int
                    &&& height_max ==> y == 0
                    &&& (!height_max && p.y.is_str("top"@)) ==> y == 25
                    &&& (!height_max && p.y.is_str("bottom"@)) ==> y == dh - wh
                    &&& (!height_max && p.y is Int) ==> y == ((p.y->Int_0) as i32) as int
                },
                Err(_) => !(x_ok && y_ok),
            }
        }),
{
    reveal_strlit("left");
    reveal_strlit("right");
    reveal_strlit("top");
    reveal_strlit("bottom");
    assert("right"@ != "left"@) by {
        assert("right"@.len() != "left"@.len());
    }
    assert("bottom"@ != "top"@) by {
        assert("bottom"@.len() != "top"@.len());
    }
    if p.x is Int {
        let i = p.x->Int_0;
        assert(coord_result(p.x, "x"@, "left"@, "right"@, 0, dw - ww, x_suffix()) == if i < 0 {
            Err::<int, Seq<char>>("x"@ + " が負です"@)
        } else {
            Ok::<int, Seq<char>>((i as i32) as int)
        });
    }
    if p.y is Int {
        let i = p.y->Int_0;
        assert(coord_result(p.y, "y"@, "top"@, "bottom"@, 25, dh - wh, y_suffix()) == if i < 0 {
            Err::<int, Seq<char>>("y"@ + " が負です"@)
        } else {
            Ok::<int, Seq<char>>((i as i32) as int)
        });
    }
}

/// A field value that its field never accepts: a string outside
/// `keywords`, a whole number below `min`, or something that is neither a
/// string, a number nor `null`.
pub open spec fn refused_value(v: JsonValue, keywords: Seq<Seq<char>>, min: int) -> bool {
    match v {
        JsonValue::Str(s) => !keywords.contains(s@),
        JsonValue::Int(i) => i < min,
        JsonValue::Bool(_) => true,
        JsonValue::Array => true,
        JsonValue::Object => true,
        _ => false,
    }
}

/// Whether a layout window has a position or size field that its field
/// never accepts.
pub open spec fn has_refused_field(w: AppWindowConfig) -> bool {
    ||| (w.position matches Some(p) && (refused_value(p.x, seq!["left"@, "right"@], 0)
        || refused_value(p.y, seq!["top"@, "bottom"@], 0)))
    ||| (w.size matches Some(s) && (refused_value(s.width, seq!["half"@, "third"@, "max"@], 1)
        || refused_value(s.height, seq!["half"@, "third"@, "max"@], 1)))
}

proof fn lemma_window_error_refused(w: AppWindowConfig, display: Seq<char>, version: Seq<char>)
    requires
        has_refused_field(w),
    ensures
        window_error(w, display, version) is Some,
{
    assert(position_keywords_x() =~= seq!["left"@, "right"@]);
    assert(position_keywords_y() =~= seq!["top"@, "bottom"@]);
    assert(size_keywords() =~= seq!["half"@, "third"@, "max"@]);
}

proof fn lemma_windows_error_some(ws: Seq<AppWindowConfig>, i: int, display: Seq<char>, version: Seq<char>)
    requires
        0 <= i < ws.len(),
        window_error(ws[i], display, version) is Some,
    ensures
        windows_error(ws, display, version) is Some,
    decreases ws.len(),
{
    if i < ws.len() - 1 {
        assert(ws.drop_last()[i] == ws[i]);
        lemma_windows_error_some(ws.drop_last(), i, display, version);
    }
}

proof fn lemma_displays_error_some(ds: Seq<DisplayConfig>, i: int, version: Seq<char>)
    requires
        0 <= i < ds.len(),
        display_error(ds[i], version) is Some,
    ensures
        displays_error(ds, version) is Some,
    decreases ds.len(),
{
    if i < ds.len() - 1 {
        assert(ds.drop_last()[i] == ds[i]);
        lemma_displays_error_some(ds.drop_last(), i, version);
    }
}

proof fn lemma_layouts_error_some(ls: Seq<LayoutConfig>, i: int, version: Seq<char>)
    requires
        0 <= i < ls.len(),
        layout_config_error(ls[i], version) is Some,
    ensures
        layouts_error(ls, version) is Some,
    decreases ls.len(),
{
    if i < ls.len() - 1 {
        assert(ls.drop_last()[i] == ls[i]);
        lemma_layouts_error_some(ls.drop_last(), i, version);
    }
}

/// The syntax check refuses a layout file in which any window, on any
/// display of any layout, has a position or size field that its field never
/// accepts, such as a `y` other than `"top"` or `"bottom"`.  Where the window
/// has no `tiling` and its `x` is accepted, a bad `y` string is what the
/// window's message names.
pub proof fn law_refused_field_rejects_layout(f: LayoutFile, li: int, di: int, wi: int)
    requires
        0 <= li < f.layouts@.len(),
        0 <= di < f.layouts@[li].displays@.len(),
        0 <= wi < f.layouts@[li].displays@[di].windows@.len(),
        has_refused_field(f.layouts@[li].displays@[di].windows@[wi]),
    ensures
        layout_error(f) is Some,
        ({
            let d = f.layouts@[li].displays@[di];
            let w = d.windows@[wi];
            let p = w.position->0;
            (w.tiling is None && w.position is Some && (p.x.is_str("left"@) || p.x.is_str("right"@)
                || p.x is Null || (p.x is Int && p.x->Int_0 >= 0))
                && p.y is Str && (p.y->Str_0)@ != "top"@ && (p.y->Str_0)@ != "bottom"@)
                ==> window_error(w, d.name@, f.version@) == Some(window_prefix(d.name@, w.app@)
                + "無効な y 値: '"@ + (p.y->Str_0)@ + "' (top, bottom を指定)"@)
        }),
{
    let l = f.layouts@[li];
    let d = l.displays@[di];
    let w = d.windows@[wi];
    lemma_window_error_refused(w, d.name@, f.version@);
    lemma_windows_error_some(d.windows@, wi, d.name@, f.version@);
    lemma_displays_error_some(l.displays@, di, f.version@);
    lemma_layouts_error_some(f.layouts@, li, f.version@);
    reveal_strlit("left");
    reveal_strlit("right");
    reveal_strlit("top");
    reveal_strlit("bottom");
    reveal_strlit(", ");
    assert(position_keywords_x() =~= seq!["left"@, "right"@]);
    let ys = position_keywords_y();
    assert(ys.drop_last() =~= seq!["top"@]);
    assert(join(ys.drop_last(), ", "@) == "top"@);
    assert(ys.last() == "bottom"@);
    assert(join(ys, ", "@) == "top"@ + ", "@ + "bottom"@);
    assert("top"@ + ", "@ + "bottom"@ =~= "top, bottom"@) by {
        reveal_strlit("top, bottom");
    }
    if w.tiling is None && w.position is Some {
        let p = w.position->0;
        if p.y is Str {
            let s = p.y->Str_0;
            if s@ != "top"@ && s@ != "bottom"@ && (p.x.is_str("left"@) || p.x.is_str("right"@) || p.x is Null || (
            p.x is Int && p.x->Int_0 >= 0)) {
                assert(!ys.contains(s@)) by {
                    if ys.contains(s@) {
                        let k = choose|k: int| 0 <= k < ys.len() && ys[k] == s@;
                        assert(k == 0 || k == 1);
                    }
                }
                let xs = position_keywords_x();
                assert(xs[0] == "left"@ && xs[1] == "right"@);
                assert(value_error(p.x, "x"@, xs, 0) is None);
                let m = "無効な "@ + "y"@ + " 値: '"@ + s@ + "' ("@ + join(ys, ", "@) + " を指定)"@;
                assert(value_error(p.y, "y"@, ys, 0) == Some(m));
                reveal_strlit("無効な ");
                reveal_strlit("y");
                reveal_strlit(" 値: '");
                reveal_strlit("' (");
                reveal_strlit(" を指定)");
                reveal_strlit("無効な y 値: '");
                reveal_strlit("' (top, bottom を指定)");
                assert(m =~= "無効な y 値: '"@ + s@ + "' (top, bottom を指定)"@);
                let pre = window_prefix(d.name@, w.app@);
                assert(pre + m =~= pre + "無効な y 値: '"@ + s@ + "' (top, bottom を指定)"@);
            }
        }
    }
}


/// How `parse_size_value` reads each side, whatever the other holds:
/// `"max"` is the display width, or its height less the menu bar (25);
/// `"half"` and `"third"` are that part of the display's side; a whole
/// number is taken as it is.  Sizes made of keywords always give a result on
/// a display at least 3 pixels wide and 28 high.
pub proof fn law_size_keywords(s: Size, dw: int, dh: int)
    requires
        0 <= dw,
        0 <= dh,
    ensures
        match size_pixels_result(s, dw, dh) {
            Ok((w, h)) => {
                &&& s.width.is_str("max"@) ==> w == dw
                &&& s.width.is_str("half"@) ==> w == dw / 2
                &&& s.width.is_str("third"@) ==> w == dw / 3
                &&& s.width is Int ==> w == ((s.width->Int_0) as i32) as int
                &&& s.height.is_str("max"@) ==> h == dh - 25
                &&& s.height.is_str("half"@) ==> h == dh / 2
                &&& s.height.is_str("third"@) ==> h == dh / 3
                &&& s.height is Int ==> h == ((s.height->Int_0) as i32) as int
            },
            Err(_) => true,
        },
        ({
            let keywords = seq!["half"@, "third"@, "max"@];
            (s.width is Str && keywords.contains((s.width->Str_0)@) && s.height is Str && keywords.contains(
                (s.height->Str_0)@,
            ) && 3 <= dw && 28 <= dh) ==> size_pixels_result(s, dw, dh) is Ok
        }),
{
    reveal_strlit("max");
    reveal_strlit("half");
    reveal_strlit("third");
    assert("half"@ != "max"@) by {
        assert("half"@.len() != "max"@.len());
    }
    assert("third"@ != "max"@ && "third"@ != "half"@) by {
        assert("third"@.len() != "max"@.len());
        assert("third"@.len() != "half"@.len());
    }
}

/// A field value that its field accepts in every layout: a string among
/// `keywords`, a whole number of at least `min`, or `null`.
pub open spec fn accepted_value(v: JsonValue, keywords: Seq<Seq<char>>, min: int) -> bool {
    match v {
        JsonValue::Str(s) => keywords.contains(s@),
        JsonValue::Int(i) => i >= min,
        JsonValue::Null => true,
        _ => false,
    }
}

/// The syntax check passes a window without `tiling` whose position and size
/// fields are all accepted values: keywords of their field, whole numbers
/// (non-negative for a position, positive for a size) or `null`.
pub proof fn law_accepted_window(w: AppWindowConfig, display: Seq<char>, version: Seq<char>)
    requires
        w.tiling is None,
        w.position matches Some(p) ==> accepted_value(p.x, seq!["left"@, "right"@], 0) && accepted_value(
            p.y,
            seq!["top"@, "bottom"@],
            0,
        ),
        w.size matches Some(s) ==> accepted_value(s.width, seq!["half"@, "third"@, "max"@], 1) && accepted_value(
            s.height,
            seq!["half"@, "third"@, "max"@],
            1,
        ),
    ensures
        window_error(w, display, version) is None,
{
    assert(position_keywords_x() =~= seq!["left"@, "right"@]);
    assert(position_keywords_y() =~= seq!["top"@, "bottom"@]);
    assert(size_keywords() =~= seq!["half"@, "third"@, "max"@]);
}

} // verus!
