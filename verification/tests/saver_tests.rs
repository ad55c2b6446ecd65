use apptidying::applescript::app::AppLaunchError;
use apptidying::applescript::display::DisplayInfo;
use apptidying::applescript::osascript::ScriptOutput;
use apptidying::applescript::window::WindowInfo;
use apptidying::json::JsonValue;
use apptidying::loader::window_placement;
use apptidying::saver::{find_display_for_window, save_layout, should_include_window};

fn out(stdout: &str) -> Result<ScriptOutput, AppLaunchError> {
    Ok(ScriptOutput { success: true, stdout: stdout.to_string(), stderr: String::new() })
}

fn failed(stderr: &str) -> Result<ScriptOutput, AppLaunchError> {
    Ok(ScriptOutput { success: false, stdout: String::new(), stderr: stderr.to_string() })
}

fn win(title: &str, position: (i32, i32), size: (i32, i32), minimized: bool, visible: bool) -> WindowInfo {
    WindowInfo { title: title.to_string(), position, size, minimized, visible }
}

fn display(name: &str, width: i32, height: i32, origin_x: i32, origin_y: i32) -> DisplayInfo {
    DisplayInfo { name: name.to_string(), width, height, origin_x, origin_y }
}

const DISPLAYS: &str = "[{\"name\":\"Built-in\",\"width\":1440,\"height\":900,\"origin_x\":0,\"origin_y\":0},{\"name\":\"DELL\",\"width\":2560,\"height\":1440,\"origin_x\":1440,\"origin_y\":0}]";

#[test]
fn which_windows_are_saved() {
    let w = win("Doc", (0, 0), (10, 10), false, true);
    assert!(should_include_window(&w, "TextEdit", &[], Some(5)));
    assert!(!should_include_window(&win("Doc", (0, 0), (1, 1), true, true), "TextEdit", &[], None));
    assert!(!should_include_window(&win("Doc", (0, 0), (1, 1), false, false), "TextEdit", &[], None));
    assert!(!should_include_window(&w, "Dock", &[], None));
    assert!(!should_include_window(&w, "Terminal", &[900, 450, 5], Some(5)));
    assert!(should_include_window(&w, "Terminal", &[900, 450, 5], Some(6)));
    assert!(should_include_window(&w, "Terminal", &[900, 450, 5], None));
}

#[test]
fn a_window_belongs_to_the_display_of_its_center() {
    let ds = vec![display("Built-in", 1440, 900, 0, 0), display("DELL", 2560, 1440, 1440, 0)];
    assert_eq!(find_display_for_window(&win("a", (1000, 0), (1000, 100), false, true), &ds).unwrap().name, "DELL");
    assert_eq!(find_display_for_window(&win("a", (1000, 0), (878, 100), false, true), &ds).unwrap().name, "Built-in");
    assert!(find_display_for_window(&win("a", (-500, 0), (100, 100), false, true), &ds).is_none());
    assert!(find_display_for_window(&win("a", (-3, 0), (5, 2), false, true), &ds).is_none());
    assert_eq!(find_display_for_window(&win("a", (1, 0), (-3, 2), false, true), &ds).unwrap().name, "Built-in");
}

#[test]
fn save_keeps_the_first_window_of_each_application() {
    let apps = out("Safari|100, Terminal|200, Notes|300");
    let runs = vec![
        out("One|10,20|800,600|false|true, Two|30,40|500,500|false|true"),
        out("Shell|0,0|100,100|false|true"),
        out("Hidden|0,0|100,100|true|true, Far|2000,100|400,300|false|true"),
    ];
    let (file, result) = save_layout(&out(DISPLAYS), &apps, &runs, false, &[4321, 4000, 200]).unwrap();
    assert!(result.all_success);
    assert_eq!(result.saved_app_count, 2);
    assert_eq!(result.saved_window_count, 2);
    assert_eq!(result.skipped_window_count, 3);
    assert!(result.failed_apps.is_empty());
    assert_eq!(file.version, "1.0");
    assert_eq!(file.layouts.len(), 1);
    let displays = &file.layouts[0].displays;
    assert_eq!(displays.len(), 2);
    assert_eq!(displays[0].name, "Built-in");
    assert_eq!(displays[0].windows.len(), 1);
    let w = &displays[0].windows[0];
    assert_eq!(w.app, "Safari");
    let p = w.position.as_ref().unwrap();
    assert!(matches!(p.x, JsonValue::Int(10)));
    assert!(matches!(p.y, JsonValue::Int(20)));
    let sz = w.size.as_ref().unwrap();
    assert!(matches!(sz.width, JsonValue::Int(800)));
    assert!(matches!(sz.height, JsonValue::Int(600)));
    assert!(w.tiling.is_none());
    assert_eq!(displays[1].name, "DELL");
    assert_eq!(displays[1].windows[0].app, "Notes");
}

#[test]
fn own_terminal_is_saved_on_request() {
    let apps = out("Terminal|200");
    let runs = vec![out("Shell|0,0|100,100|false|true")];
    let (_, result) = save_layout(&out(DISPLAYS), &apps, &runs, true, &[4321, 4000, 200]).unwrap();
    assert_eq!(result.saved_window_count, 1);
    assert_eq!(
        save_layout(&out(DISPLAYS), &apps, &runs, false, &[4321, 4000, 200]).err().unwrap().message,
        "保存すべきウィンドウが見つかりませんでした。アプリケーションを起動してから再度お試しください"
    );
}

#[test]
fn failed_window_queries_are_listed() {
    let apps = out("Safari|1, Broken|2");
    let runs = vec![out("One|10,20|800,600|false|true"), failed("no access")];
    let (_, result) = save_layout(&out(DISPLAYS), &apps, &runs, false, &[]).unwrap();
    assert!(!result.all_success);
    assert_eq!(result.failed_apps, vec!["Broken".to_string()]);
}

#[test]
fn save_failures_before_the_windows() {
    let runs: Vec<Result<ScriptOutput, AppLaunchError>> = vec![];
    assert_eq!(
        save_layout(&out("[]"), &out("A|1"), &vec![out("")], false, &[]).err().unwrap().message,
        "接続されているディスプレイが見つかりません"
    );
    assert_eq!(
        save_layout(&failed("x"), &out("A|1"), &vec![out("")], false, &[]).err().unwrap().message,
        "ディスプレイ情報の取得に失敗しました: ディスプレイ情報取得に失敗しました: x"
    );
    assert_eq!(
        save_layout(&out(DISPLAYS), &out(""), &runs, false, &[]).err().unwrap().message,
        "実行中アプリケーション一覧の取得に失敗しました: 実行中のアプリケーションが見つかりません"
    );
}

#[test]
fn displays_of_the_same_name_are_saved_once() {
    let twins = "[{\"name\":\"Twin\",\"width\":100,\"height\":100,\"origin_x\":0,\"origin_y\":0},{\"name\":\"Twin\",\"width\":100,\"height\":100,\"origin_x\":100,\"origin_y\":0}]";
    let apps = out("A|1, B|2");
    let runs = vec![out("a|0,0|10,10|false|true"), out("b|100,0|10,10|false|true")];
    let (file, result) = save_layout(&out(twins), &apps, &runs, false, &[]).unwrap();
    assert_eq!(result.saved_window_count, 2);
    assert_eq!(file.layouts[0].displays.len(), 1);
    assert_eq!(file.layouts[0].displays[0].windows.len(), 2);
}

#[test]
fn saved_windows_are_placed_back() {
    let apps = out("Safari|1");
    let runs = vec![out("One|10,20|800,600|false|true")];
    let (file, _) = save_layout(&out(DISPLAYS), &apps, &runs, false, &[]).unwrap();
    let saved = &file.layouts[0].displays[0].windows[0];
    let built_in = display("Built-in", 1440, 900, 0, 0);
    assert_eq!(window_placement(saved, &built_in, None).unwrap(), Some((Some((10, 20)), Some((800, 600)))));
}
