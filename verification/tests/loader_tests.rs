use apptidying::applescript::app::{AppLaunchError, LaunchEvent};
use apptidying::applescript::display::DisplayInfo;
use apptidying::applescript::osascript::ScriptOutput;
use apptidying::config::{AppWindowConfig, DisplayConfig, LayoutConfig, LayoutFile, Position, Size};
use apptidying::json::JsonValue;
use apptidying::loader::{
    load_layout, load_outcome, record_failed_app, window_needs_current, window_placement, LoadAction,
    LayoutLoader,
};

fn s(v: &str) -> JsonValue {
    JsonValue::Str(v.to_string())
}

fn out(stdout: &str) -> LaunchEvent {
    LaunchEvent::Ran(Ok(ScriptOutput { success: true, stdout: stdout.to_string(), stderr: String::new() }))
}

fn failed(stderr: &str) -> LaunchEvent {
    LaunchEvent::Ran(Ok(ScriptOutput { success: false, stdout: String::new(), stderr: stderr.to_string() }))
}

fn not_run(message: &str) -> LaunchEvent {
    LaunchEvent::Ran(Err(AppLaunchError { message: message.to_string() }))
}

const BUILT_IN: &str = "[{\"name\":\"Built-in\",\"width\":1440,\"height\":900,\"origin_x\":0,\"origin_y\":0}]";

fn window(app: &str, position: Option<Position>, size: Option<Size>, tiling: Option<&str>) -> AppWindowConfig {
    AppWindowConfig { app: app.to_string(), position, size, tiling: tiling.map(|t| t.to_string()) }
}

fn one_display(name: &str, windows: Vec<AppWindowConfig>, version: &str) -> LayoutFile {
    LayoutFile { version: version.to_string(), layouts: vec![LayoutConfig { displays: vec![DisplayConfig { name: name.to_string(), windows }] }] }
}

fn expect_run(action: LoadAction) -> String {
    match action {
        LoadAction::Run(s) => s,
        _ => panic!("expected an AppleScript to run"),
    }
}

fn expect_js(action: LoadAction) -> String {
    match action {
        LoadAction::RunJavaScript(s) => s,
        _ => panic!("expected a JavaScript to run"),
    }
}

/// Drives a running application through the launcher: running check,
/// activate, process id.
fn launch_running(loader: &mut LayoutLoader) -> LoadAction {
    expect_run(loader.step(out("true")));
    expect_run(loader.step(out("")));
    loader.step(out("77"))
}

#[test]
fn load_outcome_classifies_counts() {
    let all = load_outcome(2, 0, vec![]).unwrap();
    assert!(all.all_success);
    assert_eq!(all.success_count, 2);
    let part = load_outcome(1, 1, vec!["A".to_string()]).unwrap();
    assert!(!part.all_success);
    assert_eq!(part.failure_count, 1);
    assert_eq!(part.failed_apps, vec!["A".to_string()]);
    let none = load_outcome(0, 3, vec!["A".to_string(), "B".to_string()]).err().unwrap();
    assert_eq!(none.message, "すべてのウィンドウ配置に失敗しました。失敗したアプリ: A, B");
    assert!(load_outcome(0, 0, vec![]).unwrap().all_success);
}

#[test]
fn failed_apps_are_recorded_once() {
    let mut apps: Vec<String> = vec![];
    record_failed_app(&mut apps, "A");
    record_failed_app(&mut apps, "B");
    record_failed_app(&mut apps, "A");
    assert_eq!(apps, vec!["A".to_string(), "B".to_string()]);
}

#[test]
fn placement_on_a_display_with_an_origin() {
    let d = DisplayInfo { name: "DELL".to_string(), width: 2560, height: 1440, origin_x: 1440, origin_y: -200 };
    let w = window("A", Some(Position { x: s("right"), y: s("top") }), Some(Size { width: s("half"), height: s("max") }), None);
    let (p, sz) = window_placement(&w, &d, None).unwrap().unwrap();
    assert_eq!(sz, Some((1280, 1415)));
    assert_eq!(p, Some((1440 + 1280, -200)));
    let only_pos = window("A", Some(Position { x: s("left"), y: s("bottom") }), None, None);
    assert_eq!(window_placement(&only_pos, &d, None).unwrap().unwrap(), (Some((1440, -200)), None));
    let nothing = window("A", None, None, None);
    assert!(window_placement(&nothing, &d, None).unwrap().is_none());
    let bad = window("A", None, Some(Size { width: JsonValue::Int(-5), height: s("max") }), None);
    assert_eq!(window_placement(&bad, &d, None).err().unwrap(), "サイズ計算失敗: width は正の値である必要があります");
}

#[test]
fn placement_fills_unset_fields_from_the_current_window() {
    let d = DisplayInfo { name: "DELL".to_string(), width: 2560, height: 1440, origin_x: 1440, origin_y: 0 };
    let w = window("A", Some(Position { x: JsonValue::Null, y: s("top") }), Some(Size { width: JsonValue::Int(800), height: JsonValue::Null }), None);
    assert!(window_needs_current(&w));
    assert!(window_placement(&w, &d, None).unwrap().is_none());
    let current = Some(((1540, 300), (1000, 700)));
    let (p, sz) = window_placement(&w, &d, current).unwrap().unwrap();
    assert_eq!(sz, Some((800, 700)));
    assert_eq!(p, Some((1540, 25)));
    assert!(!window_needs_current(&window("A", Some(Position { x: s("left"), y: s("top") }), None, None)));
}

#[test]
fn loading_places_a_running_application_window() {
    let l = one_display("Built-in", vec![window("Safari", Some(Position { x: s("left"), y: s("top") }), Some(Size { width: s("half"), height: s("max") }), None)], "1.0");
    let (mut loader, first) = load_layout(l, 3000);
    assert!(expect_js(first).contains("NSScreen"));
    expect_js(loader.step(out(BUILT_IN)));
    let check = expect_run(loader.step(out(BUILT_IN)));
    assert!(check.contains("application process \"Safari\" exists"));
    let list = expect_run(launch_running(&mut loader));
    assert!(list.contains("tell process \"Safari\""));
    let resize = expect_run(loader.step(out("Win|0,0|10,10|false|true")));
    assert!(resize.contains("set position of targetWindow to {0, 0}"));
    assert!(resize.contains("set size of targetWindow to {720, 875}"));
    match loader.step(out("success")) {
        LoadAction::Done(Ok(r)) => {
            assert!(r.all_success);
            assert_eq!(r.success_count, 1);
            assert_eq!(r.failure_count, 0);
        },
        _ => panic!("expected the result"),
    }
}

#[test]
fn loading_opens_a_window_when_there_is_none() {
    let l = one_display("Built-in", vec![window("Notes", None, Some(Size { width: JsonValue::Int(500), height: JsonValue::Int(400) }), None)], "1.0");
    let (mut loader, _) = load_layout(l, 10);
    expect_js(loader.step(out(BUILT_IN)));
    expect_run(loader.step(out(BUILT_IN)));
    expect_run(launch_running(&mut loader));
    let create = expect_run(loader.step(out("")));
    assert!(create.contains("tell process \"Notes\""));
    match loader.step(out("created")) {
        LoadAction::Sleep(ms) => assert_eq!(ms, 500),
        _ => panic!("expected a wait"),
    }
    let resize = expect_run(loader.step(LaunchEvent::Slept));
    assert!(resize.contains("set size of targetWindow to {500, 400}"));
    assert!(!resize.contains("set position"));
    match loader.step(out("error: window gone")) {
        LoadAction::Done(Err(e)) => assert_eq!(e.message, "すべてのウィンドウ配置に失敗しました。失敗したアプリ: Notes"),
        _ => panic!("expected a failure"),
    }
}

#[test]
fn loading_fails_when_displays_cannot_be_read() {
    let l = one_display("Built-in", vec![window("A", None, None, None)], "1.0");
    let (mut loader, _) = load_layout(l, 10);
    match loader.step(not_run("no osascript")) {
        LoadAction::Done(Err(e)) => assert_eq!(e.message, "ディスプレイ情報の取得に失敗しました: no osascript"),
        _ => panic!("expected a failure"),
    }
    let empty = LayoutFile { version: "1.0".to_string(), layouts: vec![] };
    let (mut loader, _) = load_layout(empty, 10);
    match loader.step(out(BUILT_IN)) {
        LoadAction::Done(Err(e)) => assert_eq!(e.message, "設定ファイルの検証に失敗しました: レイアウトが定義されていません"),
        _ => panic!("expected a failure"),
    }
}

#[test]
fn windows_with_warnings_fail_without_scripts() {
    let l = one_display("Built-in", vec![
        window("Wide", Some(Position { x: JsonValue::Int(1000), y: s("top") }), Some(Size { width: JsonValue::Int(800), height: JsonValue::Int(100) }), None),
        window("Plain", None, None, None),
    ], "1.0");
    let (mut loader, _) = load_layout(l, 10);
    expect_js(loader.step(out(BUILT_IN)));
    let check = expect_run(loader.step(out(BUILT_IN)));
    assert!(check.contains("\"Plain\""));
    expect_run(launch_running(&mut loader));
    match loader.step(out("W|0,0|1,1|false|true")) {
        LoadAction::Done(Ok(r)) => {
            assert!(!r.all_success);
            assert_eq!(r.success_count, 1);
            assert_eq!(r.failure_count, 1);
            assert_eq!(r.failed_apps, vec!["Wide".to_string()]);
        },
        _ => panic!("expected the result"),
    }
}

#[test]
fn a_display_that_is_not_connected_is_skipped() {
    let l = one_display("Projector", vec![window("A", None, None, None)], "1.0");
    let (mut loader, _) = load_layout(l, 10);
    expect_js(loader.step(out(BUILT_IN)));
    match loader.step(out(BUILT_IN)) {
        LoadAction::Done(Ok(r)) => {
            assert!(r.all_success);
            assert_eq!(r.success_count + r.failure_count, 0);
        },
        _ => panic!("expected the result"),
    }
}

#[test]
fn tiling_moves_to_the_display_then_tiles() {
    let l = one_display("Built-in", vec![window("Safari", None, None, Some("left"))], "2.0");
    let (mut loader, _) = load_layout(l, 10);
    expect_js(loader.step(out(BUILT_IN)));
    expect_run(loader.step(out(BUILT_IN)));
    expect_run(launch_running(&mut loader));
    let mv = expect_run(loader.step(out("W|0,0|1,1|false|true")));
    assert!(mv.contains("Built-inに移動"));
    let tile = expect_run(loader.step(out("Error: ディスプレイ移動メニュー項目が見つかりません")));
    assert!(tile.contains("n is \"左\" or n is \"Left\""));
    match loader.step(out("Success")) {
        LoadAction::Done(Ok(r)) => assert!(r.all_success),
        _ => panic!("expected the result"),
    }
}

#[test]
fn a_failed_display_move_fails_the_window() {
    let l = one_display("Built-in", vec![window("Safari", None, None, Some("full-screen"))], "2.0");
    let (mut loader, _) = load_layout(l, 10);
    expect_js(loader.step(out(BUILT_IN)));
    expect_run(loader.step(out(BUILT_IN)));
    expect_run(launch_running(&mut loader));
    expect_run(loader.step(out("W|0,0|1,1|false|true")));
    match loader.step(failed("not allowed")) {
        LoadAction::Done(Err(e)) => assert_eq!(e.message, "すべてのウィンドウ配置に失敗しました。失敗したアプリ: Safari"),
        _ => panic!("expected a failure"),
    }
}

#[test]
fn unset_fields_read_the_current_window() {
    let l = one_display("Built-in", vec![window("Safari", Some(Position { x: JsonValue::Null, y: s("top") }), None, None)], "1.0");
    let (mut loader, _) = load_layout(l, 10);
    expect_js(loader.step(out(BUILT_IN)));
    expect_run(loader.step(out(BUILT_IN)));
    expect_run(launch_running(&mut loader));
    let query = expect_run(loader.step(out("W|0,0|1,1|false|true")));
    assert!(query.contains("set winPos to position of targetWindow"));
    let resize = expect_run(loader.step(out("W|300,400|640,480|false|true")));
    assert!(resize.contains("set position of targetWindow to {300, 25}"));
    match loader.step(out("success")) {
        LoadAction::Done(Ok(r)) => assert!(r.all_success),
        _ => panic!("expected the result"),
    }
}

#[test]
fn a_failed_launch_fails_the_window() {
    let l = one_display("Built-in", vec![window("Ghost", None, None, None)], "1.0");
    let (mut loader, _) = load_layout(l, 10);
    expect_js(loader.step(out(BUILT_IN)));
    expect_run(loader.step(out(BUILT_IN)));
    match loader.step(failed("boom")) {
        LoadAction::Done(Err(e)) => assert_eq!(e.message, "すべてのウィンドウ配置に失敗しました。失敗したアプリ: Ghost"),
        _ => panic!("expected a failure"),
    }
}

#[test]
fn an_unset_coordinate_keeps_the_current_one_even_when_negative() {
    let d = DisplayInfo { name: "Built-in".to_string(), width: 1440, height: 900, origin_x: 0, origin_y: 0 };
    let w = window("A", Some(Position { x: JsonValue::Int(100), y: JsonValue::Null }), None, None);
    let current = Some(((50, -10), (300, 200)));
    assert_eq!(window_placement(&w, &d, current).unwrap(), Some((Some((100, -10)), None)));
    let elsewhere = DisplayInfo { name: "DELL".to_string(), width: 2560, height: 1440, origin_x: 1440, origin_y: -300 };
    let g = Some(((1500, -320), (300, 200)));
    assert_eq!(window_placement(&w, &elsewhere, g).unwrap(), Some((Some((1540, -320)), None)));
}

#[test]
fn unset_size_sides_keep_the_current_size() {
    let d = DisplayInfo { name: "Built-in".to_string(), width: 1440, height: 900, origin_x: 0, origin_y: 0 };
    let w = window("A", None, Some(Size { width: JsonValue::Null, height: s("half") }), None);
    assert_eq!(window_placement(&w, &d, Some(((0, 0), (640, 480)))).unwrap(), Some((None, Some((640, 450)))));
    let max = window("A", Some(Position { x: JsonValue::Null, y: JsonValue::Null }), Some(Size { width: s("max"), height: JsonValue::Null }), None);
    assert_eq!(window_placement(&max, &d, Some(((30, 40), (10, 20)))).unwrap(), Some((Some((0, 40)), Some((1440, 20)))));
}
