use apptidying::applescript::display::DisplayInfo;
use apptidying::config::{
    fill_absent_position, fill_absent_size, find_display_index, get_config_dir,
    get_default_layout_path, get_default_settings_path, parse_layout_from_json,
    parse_position_value, parse_settings_from_json, parse_size_value, parse_tile_keyword,
    path_join_str, path_under_home, validate_layout, validate_layout_bounds, validate_layout_syntax,
    validate_settings_syntax, AppSettings, AppWindowConfig, DisplayConfig, LayoutConfig, LayoutFile,
    LogRotationConfig, NotificationConfig, Position, Size, TileKeyword,
};
use apptidying::json::JsonValue;

fn s(v: &str) -> JsonValue {
    JsonValue::Str(v.to_string())
}

fn pos(x: JsonValue, y: JsonValue) -> Position {
    Position { x, y }
}

fn size(width: JsonValue, height: JsonValue) -> Size {
    Size { width, height }
}

fn window(app: &str, p: Option<Position>, sz: Option<Size>, tiling: Option<&str>) -> AppWindowConfig {
    AppWindowConfig { app: app.to_string(), position: p, size: sz, tiling: tiling.map(|t| t.to_string()) }
}

fn layout(version: &str, displays: Vec<DisplayConfig>) -> LayoutFile {
    LayoutFile { version: version.to_string(), layouts: vec![LayoutConfig { displays }] }
}

fn display(name: &str, width: i32, height: i32) -> DisplayInfo {
    DisplayInfo { name: name.to_string(), width, height, origin_x: 0, origin_y: 0 }
}

fn settings(version: &str) -> AppSettings {
    AppSettings { version: version.to_string(), notification: None, timeout: None, log_rotation: None }
}

#[test]
fn settings_validation_messages() {
    assert!(validate_settings_syntax(&settings("1.0")).is_ok());
    assert_eq!(
        validate_settings_syntax(&settings("2.0")).err().unwrap().message,
        "サポートされていないバージョン: 2.0（サポート: 1.0）"
    );
    let mut bad = settings("1.0");
    bad.notification = Some(NotificationConfig { info: "notification".to_string(), warn: "popup".to_string(), error: "dialog".to_string() });
    assert_eq!(
        validate_settings_syntax(&bad).err().unwrap().message,
        "無効な notification.warn 値: 'popup' (notification, dialog または none を指定)"
    );
    let mut rot = settings("1.0");
    rot.log_rotation = Some(LogRotationConfig { rotation_type: "size".to_string(), max_size_mb: 0, max_files: 5 });
    assert_eq!(validate_settings_syntax(&rot).err().unwrap().message, "log_rotation.max_size_mb は1以上の値である必要があります");
    rot.log_rotation = Some(LogRotationConfig { rotation_type: "time".to_string(), max_size_mb: 1, max_files: 5 });
    assert_eq!(validate_settings_syntax(&rot).err().unwrap().message, "無効な log_rotation.rotation_type 値: 'time' (size のみサポート)");
    rot.log_rotation = Some(LogRotationConfig { rotation_type: "size".to_string(), max_size_mb: 1, max_files: 0 });
    assert_eq!(validate_settings_syntax(&rot).err().unwrap().message, "log_rotation.max_files は1以上の値である必要があります");
}

#[test]
fn default_settings_are_valid() {
    let mut st = settings("1.0");
    st.notification = Some(NotificationConfig::default());
    st.log_rotation = Some(LogRotationConfig::default());
    assert!(validate_settings_syntax(&st).is_ok());
    let n = NotificationConfig::default();
    assert_eq!((n.info.as_str(), n.warn.as_str(), n.error.as_str()), ("notification", "notification", "dialog"));
    let l = LogRotationConfig::default();
    assert_eq!((l.rotation_type.as_str(), l.max_size_mb, l.max_files), ("size", 10, 5));
}

#[test]
fn parse_settings_and_layout_report_parser_errors() {
    assert_eq!(parse_settings_from_json(Err("expected value".to_string())).err().unwrap().message, "JSON パースエラー: expected value");
    assert_eq!(parse_layout_from_json(Err("eof".to_string())).err().unwrap().message, "JSON パースエラー: eof");
    assert!(parse_settings_from_json(Ok(settings("1.0"))).is_ok());
    let empty = LayoutFile { version: "1.0".to_string(), layouts: vec![] };
    assert_eq!(parse_layout_from_json(Ok(empty)).err().unwrap().message, "layouts フィールドが空です");
}

#[test]
fn tile_keywords() {
    assert!(matches!(parse_tile_keyword("left").unwrap(), TileKeyword::Left));
    assert!(matches!(parse_tile_keyword("bottom-right").unwrap(), TileKeyword::BottomRight));
    assert!(matches!(parse_tile_keyword("full-screen").unwrap(), TileKeyword::FullScreen));
    assert_eq!(
        parse_tile_keyword("middle").err().unwrap().message,
        "無効な tiling 値: 'middle' (left, right, top, bottom, top-left, top-right, bottom-left, bottom-right, full-screen を指定)"
    );
    assert_eq!(TileKeyword::TopLeft.menu_item_name(), "左上");
    assert_eq!(TileKeyword::TopLeft.menu_item_name_candidates(), &["左上", "Top Left"]);
    assert!(TileKeyword::Right.is_submenu_item());
    assert!(!TileKeyword::FullScreen.is_submenu_item());
}

#[test]
fn layout_syntax_errors() {
    let ok = layout("1.0", vec![DisplayConfig { name: "Built-in".to_string(), windows: vec![window("Safari", Some(pos(s("left"), s("top"))), Some(size(s("half"), s("max"))), None)] }]);
    assert!(validate_layout_syntax(&ok).is_ok());
    let v3 = layout("3.0", vec![]);
    assert_eq!(validate_layout_syntax(&v3).err().unwrap().message, "サポートされていないバージョン: 3.0（サポート: 1.0, 2.0）");
    let both = layout("2.0", vec![DisplayConfig { name: "D".to_string(), windows: vec![window("A", Some(pos(s("left"), s("top"))), None, Some("left"))] }]);
    assert_eq!(
        validate_layout_syntax(&both).err().unwrap().message,
        "ディスプレイ 'D' のアプリ 'A' のウィンドウ設定でエラー: 'tiling' と 'position'/'size' を同時に指定することはできません"
    );
    let v1_tiling = layout("1.0", vec![DisplayConfig { name: "D".to_string(), windows: vec![window("A", None, None, Some("left"))] }]);
    assert_eq!(
        validate_layout_syntax(&v1_tiling).err().unwrap().message,
        "ディスプレイ 'D' のアプリ 'A' のウィンドウ設定でエラー: version 1.0 では 'tiling' フィールドはサポートされていません（version 2.0 を指定してください）"
    );
    let neg = layout("1.0", vec![DisplayConfig { name: "D".to_string(), windows: vec![window("A", Some(pos(JsonValue::Int(-1), s("top"))), None, None)] }]);
    assert_eq!(validate_layout_syntax(&neg).err().unwrap().message, "ディスプレイ 'D' のアプリ 'A' のウィンドウ設定でエラー: x が負です");
    let zero = layout("1.0", vec![DisplayConfig { name: "D".to_string(), windows: vec![window("A", None, Some(size(JsonValue::Int(0), s("max"))), None)] }]);
    assert_eq!(validate_layout_syntax(&zero).err().unwrap().message, "ディスプレイ 'D' のアプリ 'A' のウィンドウ設定でエラー: width は正の数値である必要があります");
    let kw = layout("1.0", vec![DisplayConfig { name: "D".to_string(), windows: vec![window("A", Some(pos(s("center"), s("top"))), None, None)] }]);
    assert_eq!(validate_layout_syntax(&kw).err().unwrap().message, "ディスプレイ 'D' のアプリ 'A' のウィンドウ設定でエラー: 無効な x 値: 'center' (left, right を指定)");
    let no_windows = layout("1.0", vec![DisplayConfig { name: "D".to_string(), windows: vec![] }]);
    assert_eq!(validate_layout_syntax(&no_windows).err().unwrap().message, "ディスプレイ 'D' のウィンドウが空です");
    let no_displays = layout("1.0", vec![]);
    assert_eq!(validate_layout_syntax(&no_displays).err().unwrap().message, "レイアウトのディスプレイが空です");
    let null_ok = layout("1.0", vec![DisplayConfig { name: "D".to_string(), windows: vec![window("A", Some(pos(JsonValue::Null, s("top"))), None, None)] }]);
    assert!(validate_layout_syntax(&null_ok).is_ok());
}

#[test]
fn positions_in_pixels() {
    let p = pos(s("right"), s("bottom"));
    assert_eq!(parse_position_value(&p, None, 1440, 900, 720, 450).unwrap(), (720, 450));
    let q = pos(s("left"), s("top"));
    assert_eq!(parse_position_value(&q, None, 1440, 900, 720, 450).unwrap(), (0, 25));
    let n = pos(JsonValue::Int(100), JsonValue::Int(200));
    assert_eq!(parse_position_value(&n, None, 1440, 900, 720, 450).unwrap(), (100, 200));
    let max = size(s("max"), s("max"));
    assert_eq!(parse_position_value(&p, Some(&max), 1440, 900, 1440, 875).unwrap(), (0, 0));
    assert_eq!(parse_position_value(&pos(s("middle"), s("top")), None, 1, 1, 1, 1).err().unwrap().message, "無効な x 値: 'middle' (left, right を指定)");
    assert_eq!(parse_position_value(&pos(s("left"), JsonValue::Int(-5)), None, 1, 1, 1, 1).err().unwrap().message, "y が負です");
    assert_eq!(parse_position_value(&pos(JsonValue::OtherNumber { negative: false }, s("top")), None, 1, 1, 1, 1).err().unwrap().message, "x は整数である必要があります");
}

#[test]
fn sizes_in_pixels() {
    assert_eq!(parse_size_value(&size(s("half"), s("third")), 1441, 900).unwrap(), (720, 300));
    assert_eq!(parse_size_value(&size(s("max"), s("max")), 1440, 900).unwrap(), (1440, 875));
    assert_eq!(parse_size_value(&size(JsonValue::Int(800), JsonValue::Int(600)), 1440, 900).unwrap(), (800, 600));
    assert_eq!(parse_size_value(&size(JsonValue::Int(0), s("max")), 1440, 900).err().unwrap().message, "width は正の値である必要があります");
    assert_eq!(parse_size_value(&size(s("wide"), s("max")), 1440, 900).err().unwrap().message, "無効な width 値: 'wide' (half, third, max を指定)");
    assert_eq!(parse_size_value(&size(s("max"), s("max")), 1440, 20).err().unwrap().message, "ウィンドウサイズは正の値である必要があります");
}

#[test]
fn bounds_warnings_for_windows_off_the_display() {
    let l = layout("1.0", vec![
        DisplayConfig { name: "Built-in".to_string(), windows: vec![
            window("Wide", Some(pos(JsonValue::Int(1000), s("top"))), Some(size(JsonValue::Int(800), JsonValue::Int(100))), None),
            window("Fits", Some(pos(s("left"), s("top"))), Some(size(s("half"), s("half"))), None),
            window("Tall", Some(pos(s("left"), JsonValue::Int(800))), Some(size(JsonValue::Int(100), JsonValue::Int(200))), None),
        ] },
        DisplayConfig { name: "Gone".to_string(), windows: vec![window("Mail", None, None, None)] },
    ]);
    let ws = validate_layout_bounds(&l, &[display("Built-in", 1440, 900)]).unwrap();
    assert_eq!(ws.len(), 3);
    assert_eq!(ws[0].app_name, "Wide");
    assert_eq!(ws[0].message, "ウィンドウの右端 (1800) がディスプレイの幅 (1440) を超えています");
    assert_eq!(ws[1].app_name, "Tall");
    assert_eq!(ws[1].message, "ウィンドウの下端 (1000) がディスプレイの高さ (900) を超えています");
    assert_eq!(ws[2].display_name, "Gone");
    assert_eq!(ws[2].message, "ディスプレイ 'Gone' が接続されていません");
    let empty = LayoutFile { version: "1.0".to_string(), layouts: vec![] };
    assert_eq!(validate_layout_bounds(&empty, &[]).err().unwrap().message, "レイアウトが定義されていません");
    assert!(validate_layout(&l, None).unwrap().is_empty());
    assert_eq!(validate_layout(&l, Some(&[display("Built-in", 1440, 900)][..])).unwrap().len(), 3);
    assert_eq!(find_display_index("Built-in", &[display("A", 1, 1), display("Built-in", 1, 1)]), Some(1));
}

#[test]
fn fill_absent_keeps_set_fields_and_fills_unset_ones() {
    let full = pos(s("left"), JsonValue::Int(3));
    let kept = fill_absent_position(&full, None).unwrap();
    assert!(matches!(kept.x, JsonValue::Str(ref v) if v == "left"));
    assert!(matches!(kept.y, JsonValue::Int(3)));
    let half = pos(JsonValue::Null, s("top"));
    assert!(fill_absent_position(&half, None).is_none());
    let filled = fill_absent_position(&half, Some((-7, 9))).unwrap();
    assert!(matches!(filled.x, JsonValue::Int(-7)));
    assert!(matches!(filled.y, JsonValue::Str(ref v) if v == "top"));
    let sz = size(s("max"), JsonValue::Null);
    let filled_size = fill_absent_size(&sz, Some((800, 600))).unwrap();
    assert!(matches!(filled_size.height, JsonValue::Int(600)));
    assert!(fill_absent_size(&sz, None).is_none());
}

#[test]
fn paths_below_home() {
    assert_eq!(path_join_str("/Users/a", "x/y"), "/Users/a/x/y");
    assert_eq!(path_join_str("/Users/a/", "x"), "/Users/a/x");
    assert_eq!(path_join_str("", "x"), "x");
    assert_eq!(path_under_home(None, "x").err().unwrap().message, "ホームディレクトリの取得に失敗しました");
    assert_eq!(path_under_home(Some("/h".to_string()), "x").unwrap(), "/h/x");
}

#[test]
fn default_paths_lie_in_the_config_dir() {
    let dir = get_config_dir().unwrap();
    assert!(dir.ends_with("/Library/Application Support/biz.nosetech.apptidying"));
    assert_eq!(get_default_settings_path().unwrap(), format!("{}/settings.json", dir));
    assert_eq!(get_default_layout_path().unwrap(), format!("{}/layout.json", dir));
}

#[test]
fn numbers_that_are_not_whole_pass_the_check_unless_negative() {
    let frac = layout("1.0", vec![DisplayConfig { name: "D".to_string(), windows: vec![window("A", Some(pos(JsonValue::OtherNumber { negative: false }, s("top"))), Some(size(s("half"), JsonValue::OtherNumber { negative: false })), None)] }]);
    assert!(validate_layout_syntax(&frac).is_ok());
    let neg = layout("1.0", vec![DisplayConfig { name: "D".to_string(), windows: vec![window("A", Some(pos(JsonValue::OtherNumber { negative: true }, s("top"))), None, None)] }]);
    assert_eq!(validate_layout_syntax(&neg).err().unwrap().message, "ディスプレイ 'D' のアプリ 'A' のウィンドウ設定でエラー: x が負です");
    let neg_size = layout("1.0", vec![DisplayConfig { name: "D".to_string(), windows: vec![window("A", None, Some(size(s("half"), JsonValue::OtherNumber { negative: true })), None)] }]);
    assert_eq!(validate_layout_syntax(&neg_size).err().unwrap().message, "ディスプレイ 'D' のアプリ 'A' のウィンドウ設定でエラー: height は正の数値である必要があります");
    let sz = size(JsonValue::OtherNumber { negative: false }, s("max"));
    assert_eq!(parse_size_value(&sz, 1440, 900).err().unwrap().message, "width は整数である必要があります");
}
