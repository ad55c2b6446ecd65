use apptidying::applescript::app::{
    activate_app_script, get_app_process_id, get_running_applications, is_app_running,
    is_app_running_script, launch_or_activate_app, AppLaunchError, LaunchAction, LaunchEvent,
};
use apptidying::applescript::display::{
    displays_from_json, from_json_value, get_all_connected_displays, get_display_info, DisplayFields,
};
use apptidying::applescript::osascript::ScriptOutput;
use apptidying::applescript::utils::{
    classify_window, escape_applescript_string, is_excluded_window, is_system_app,
    parse_single_window, parse_window_list, WindowType,
};
use apptidying::applescript::window::{
    create_new_window, find_window_by_title, get_all_windows, get_window_info,
    get_window_info_script, resize_window, resize_window_script, WindowInfo,
};
use apptidying::applescript::window_menu::{
    build_name_match_condition, move_window_to_display_via_menu,
    move_window_to_display_via_menu_script, tile_window_via_menu, tile_window_via_menu_script,
    WindowMenuError,
};
use apptidying::config::TileKeyword;

fn out(stdout: &str) -> Result<ScriptOutput, AppLaunchError> {
    Ok(ScriptOutput { success: true, stdout: stdout.to_string(), stderr: String::new() })
}

fn failed(stderr: &str) -> Result<ScriptOutput, AppLaunchError> {
    Ok(ScriptOutput { success: false, stdout: String::new(), stderr: stderr.to_string() })
}

fn not_run(message: &str) -> Result<ScriptOutput, AppLaunchError> {
    Err(AppLaunchError { message: message.to_string() })
}

#[test]
fn escape_applescript_string_escapes_quotes_backslashes_and_line_breaks() {
    assert_eq!(escape_applescript_string("a\"b\\c\nd\re"), "a\\\"b\\\\c\\nd\\re");
    assert_eq!(escape_applescript_string("Safari"), "Safari");
    assert_eq!(escape_applescript_string(""), "");
}

#[test]
fn system_apps_are_recognized() {
    assert!(is_system_app("Finder"));
    assert!(is_system_app("System Settings"));
    assert!(!is_system_app("Google Chrome"));
    assert!(!is_system_app("finder"));
}

#[test]
fn excluded_windows_and_classification() {
    assert!(is_excluded_window("Dock", "anything"));
    assert!(is_excluded_window("Safari", "Notification Center"));
    assert!(!is_excluded_window("Safari", "Apple"));
    assert!(matches!(classify_window("Dock", "x"), WindowType::System));
    assert!(matches!(classify_window("Safari", "Apple"), WindowType::Regular));
}

#[test]
fn parse_single_window_reads_all_fields() {
    let w = parse_single_window("Title|10,20|800,600|false|true").unwrap();
    assert_eq!(w.title, "Title");
    assert_eq!(w.position, (10, 20));
    assert_eq!(w.size, (800, 600));
    assert!(!w.minimized);
    assert!(w.visible);
    let neg = parse_single_window("T|-1440,0|100,50|true|false").unwrap();
    assert_eq!(neg.position, (-1440, 0));
    assert!(neg.minimized);
    assert!(!neg.visible);
}

#[test]
fn parse_single_window_errors() {
    assert_eq!(parse_single_window("abc").err().unwrap().message, "ウィンドウ情報の形式が不正です: abc");
    assert_eq!(parse_single_window("T|10|1,1|false|true").err().unwrap().message, "ウィンドウ位置の解析に失敗しました");
    assert_eq!(parse_single_window("T|x,20|1,1|false|true").err().unwrap().message, "ウィンドウのx座標が無効です");
    assert_eq!(parse_single_window("T|1,y|1,1|false|true").err().unwrap().message, "ウィンドウのy座標が無効です");
    assert_eq!(parse_single_window("T|1,2|1|false|true").err().unwrap().message, "ウィンドウサイズの解析に失敗しました");
    assert_eq!(parse_single_window("T|1,2|w,1|false|true").err().unwrap().message, "ウィンドウの幅が無効です");
    assert_eq!(parse_single_window("T|1,2|1,h|false|true").err().unwrap().message, "ウィンドウの高さが無効です");
    assert_eq!(parse_single_window("T|1,2|1,1|no|true").err().unwrap().message, "ウィンドウの最小化状態が無効です: no");
    assert_eq!(parse_single_window("T|1,2|1,1|false|yes").err().unwrap().message, "ウィンドウの表示状態が無効です: yes");
}

#[test]
fn parse_window_list_splits_entries_after_four_pipes() {
    let ws = parse_window_list("A|0,0|100,100|false|true, B|10,10|200,200|true|false").unwrap();
    assert_eq!(ws.len(), 2);
    assert_eq!(ws[0].title, "A");
    assert_eq!(ws[1].title, "B");
    assert_eq!(ws[1].position, (10, 10));
    assert!(parse_window_list("").unwrap().is_empty());
    let joined = parse_window_list("bad entry, C|1,2|3,4|false|true").unwrap();
    assert_eq!(joined.len(), 1);
    assert_eq!(joined[0].title, "bad entry, C");
    let one_bad = parse_window_list("X|1,2|3,4|maybe|true, C|1,2|3,4|false|true").unwrap();
    assert_eq!(one_bad.len(), 1);
    assert_eq!(one_bad[0].title, "C");
}

#[test]
fn get_all_windows_reads_output_and_errors() {
    let ws = get_all_windows(&out("A|0,0|100,100|false|true\n")).unwrap();
    assert_eq!(ws.len(), 1);
    assert_eq!(get_all_windows(&out("error: no process")).err().unwrap().message, "error: no process");
    assert_eq!(get_all_windows(&failed("boom")).err().unwrap().message, "ウィンドウ一覧の取得に失敗しました: boom");
    assert_eq!(get_all_windows(&not_run("cannot start")).err().unwrap().message, "cannot start");
}

#[test]
fn get_window_info_reads_one_window() {
    let w = get_window_info(&out("Doc|5,6|7,8|false|true")).unwrap();
    assert_eq!(w.position, (5, 6));
    assert_eq!(w.size, (7, 8));
    assert_eq!(get_window_info(&failed("e")).err().unwrap().message, "ウィンドウ情報の取得に失敗しました: e");
    let script = get_window_info_script("Safari", Some("Dev"));
    assert!(script.contains("first window whose name contains \"Dev\""));
    assert!(get_window_info_script("Safari", None).contains("set targetWindow to window 1"));
}

#[test]
fn find_window_by_title_returns_first_match() {
    let ws = vec![
        WindowInfo { title: "Inbox".to_string(), position: (0, 0), size: (1, 1), minimized: false, visible: true },
        WindowInfo { title: "Dev Tools".to_string(), position: (1, 1), size: (2, 2), minimized: false, visible: true },
        WindowInfo { title: "Dev Notes".to_string(), position: (2, 2), size: (3, 3), minimized: false, visible: true },
    ];
    let found = find_window_by_title(Ok(ws), "Dev").unwrap().unwrap();
    assert_eq!(found.title, "Dev Tools");
    let none = find_window_by_title(Ok(vec![]), "Dev").unwrap();
    assert!(none.is_none());
}

#[test]
fn resize_window_reports_success_and_errors() {
    let r = resize_window(&out("success"), Some((10, 20)), Some((300, 400))).unwrap();
    assert_eq!(r.status, "success");
    assert_eq!(r.message, "ウィンドウをリサイズしました");
    assert_eq!(r.new_position, Some((10, 20)));
    assert_eq!(r.new_size, Some((300, 400)));
    assert_eq!(resize_window(&out("error: x"), None, None).err().unwrap().message, "error: x");
    assert_eq!(resize_window(&failed("bad"), None, None).err().unwrap().message, "ウィンドウのリサイズに失敗しました: bad");
    let script = resize_window_script("Safari", None, Some((10, -20)), Some((300, 400)));
    assert!(script.contains("set position of targetWindow to {10, -20}"));
    assert!(script.contains("set size of targetWindow to {300, 400}"));
}

#[test]
fn create_new_window_reads_output() {
    assert!(create_new_window(&out("ok")).is_ok());
    assert_eq!(create_new_window(&out("error: no menu")).err().unwrap().message, "error: no menu");
    assert_eq!(create_new_window(&failed("x")).err().unwrap().message, "新規ウィンドウ作成に失敗しました: x");
}

#[test]
fn app_scripts_escape_the_name() {
    let s = is_app_running_script("My \"App\"");
    assert!(s.contains("application process \"My \\\"App\\\"\" exists"));
    assert!(activate_app_script("Safari").contains("tell application \"Safari\"\n    activate\n    reopen"));
}

#[test]
fn is_app_running_reads_true_and_false() {
    assert!(is_app_running(&out("true\n")).unwrap());
    assert!(!is_app_running(&out("false")).unwrap());
    assert_eq!(is_app_running(&failed("e")).err().unwrap().message, "アプリの起動状態確認に失敗しました: e");
}

#[test]
fn get_app_process_id_cases() {
    assert_eq!(get_app_process_id(&out(" 123\n")).unwrap(), Some(123));
    assert_eq!(get_app_process_id(&out("")).unwrap(), None);
    assert_eq!(get_app_process_id(&failed("e")).unwrap(), None);
    assert_eq!(get_app_process_id(&out("abc")).err().unwrap().message, "プロセスIDのパースに失敗しました: abc");
}

#[test]
fn launch_or_activate_app_of_a_running_app() {
    let (mut launcher, first) = launch_or_activate_app("Safari", 3000);
    match first {
        LaunchAction::Run(s) => assert_eq!(s, is_app_running_script("Safari")),
        _ => panic!("expected a script"),
    }
    match launcher.step(LaunchEvent::Ran(out("true"))) {
        LaunchAction::Run(s) => assert_eq!(s, activate_app_script("Safari")),
        _ => panic!("expected the activate script"),
    }
    match launcher.step(LaunchEvent::Ran(out(""))) {
        LaunchAction::Run(s) => assert!(s.contains("unix id of application process \"Safari\"")),
        _ => panic!("expected the pid query"),
    }
    match launcher.step(LaunchEvent::Ran(out("42"))) {
        LaunchAction::Done(Ok(r)) => {
            assert_eq!(r.status, "success");
            assert_eq!(r.message, "アプリケーション 'Safari' は既に起動しています");
            assert_eq!(r.process_id, Some(42));
            assert!(r.was_already_running);
        },
        _ => panic!("expected the result"),
    }
}

#[test]
fn launch_or_activate_app_launches_and_waits() {
    let (mut launcher, _) = launch_or_activate_app("Notes", 1500);
    match launcher.step(LaunchEvent::Ran(out("false"))) {
        LaunchAction::Run(s) => assert!(s.contains("launch\n    activate\n    reopen")),
        _ => panic!("expected the launch script"),
    }
    match launcher.step(LaunchEvent::Ran(out(""))) {
        LaunchAction::Sleep(ms) => assert_eq!(ms, 1500),
        _ => panic!("expected a wait"),
    }
    match launcher.step(LaunchEvent::Slept) {
        LaunchAction::Run(_) => {},
        _ => panic!("expected the pid query"),
    }
    match launcher.step(LaunchEvent::Ran(out(""))) {
        LaunchAction::Done(Ok(r)) => {
            assert_eq!(r.message, "アプリケーション 'Notes' を起動しました");
            assert_eq!(r.process_id, None);
            assert!(!r.was_already_running);
        },
        _ => panic!("expected the result"),
    }
}

#[test]
fn launch_failure_is_reported() {
    let (mut launcher, _) = launch_or_activate_app("Nope", 10);
    launcher.step(LaunchEvent::Ran(out("false")));
    match launcher.step(LaunchEvent::Ran(failed("not found"))) {
        LaunchAction::Done(Err(e)) => assert_eq!(e.message, "アプリの起動に失敗しました: not found"),
        _ => panic!("expected a failure"),
    }
}

#[test]
fn get_running_applications_parses_entries() {
    let apps = get_running_applications(&out("Finder|123, Safari|, Bad, Preview|x\n")).unwrap();
    assert_eq!(apps.len(), 3);
    assert_eq!(apps[0].name, "Finder");
    assert_eq!(apps[0].process_id, Some(123));
    assert_eq!(apps[1].name, "Safari");
    assert_eq!(apps[1].process_id, None);
    assert_eq!(apps[2].name, "Preview");
    assert_eq!(apps[2].process_id, None);
    assert_eq!(get_running_applications(&out("")).err().unwrap().message, "実行中のアプリケーションが見つかりません");
    assert_eq!(
        get_running_applications(&failed("e")).err().unwrap().message,
        "実行中アプリケーション一覧の取得に失敗しました: e"
    );
}

const TWO_DISPLAYS: &str = "[{\"name\":\"Built-in\",\"width\":1440,\"height\":900,\"origin_x\":0,\"origin_y\":0},{\"name\":\"DELL\",\"width\":2560,\"height\":1440,\"origin_x\":1440,\"origin_y\":-200}]\n";

#[test]
fn get_all_connected_displays_parses_json() {
    let ds = get_all_connected_displays(&out(TWO_DISPLAYS)).unwrap();
    assert_eq!(ds.len(), 2);
    assert_eq!(ds[0].name, "Built-in");
    assert_eq!(ds[0].width, 1440);
    assert_eq!(ds[1].name, "DELL");
    assert_eq!(ds[1].origin_x, 1440);
    assert_eq!(ds[1].origin_y, -200);
}

#[test]
fn get_all_connected_displays_errors() {
    assert_eq!(
        get_all_connected_displays(&out("error: ディスプレイが接続されていません")).err().unwrap().message,
        "error: ディスプレイが接続されていません"
    );
    assert!(get_all_connected_displays(&out("not json")).err().unwrap().message.starts_with("ディスプレイ情報のパースに失敗しました: "));
    assert_eq!(get_all_connected_displays(&out("{}")).err().unwrap().message, "ディスプレイ情報が配列形式ではありません");
    assert_eq!(
        get_all_connected_displays(&out("[{\"name\":\"A\",\"height\":1,\"origin_x\":0,\"origin_y\":0}]")).err().unwrap().message,
        "ディスプレイ幅の取得に失敗しました"
    );
    assert_eq!(
        get_all_connected_displays(&out("[{\"width\":1}]")).err().unwrap().message,
        "ディスプレイ名の取得に失敗しました"
    );
    assert_eq!(get_all_connected_displays(&failed("x")).err().unwrap().message, "ディスプレイ情報取得に失敗しました: x");
    assert!(get_all_connected_displays(&out("[]")).unwrap().is_empty());
}

#[test]
fn from_json_value_reads_fields_in_order_and_truncates() {
    let f = DisplayFields { name: Some("X".to_string()), width: Some(4294967297), height: Some(2), origin_x: Some(-3), origin_y: Some(4) };
    let d = from_json_value(&f).unwrap();
    assert_eq!(d.width, 1);
    assert_eq!(d.origin_x, -3);
    let missing = DisplayFields { name: Some("X".to_string()), width: Some(1), height: None, origin_x: None, origin_y: Some(0) };
    assert_eq!(from_json_value(&missing).err().unwrap().message, "ディスプレイ高さの取得に失敗しました");
    let no_x = DisplayFields { name: Some("X".to_string()), width: Some(1), height: Some(1), origin_x: None, origin_y: None };
    assert_eq!(from_json_value(&no_x).err().unwrap().message, "ディスプレイ原点X座標の取得に失敗しました");
    let no_y = DisplayFields { name: Some("X".to_string()), width: Some(1), height: Some(1), origin_x: Some(1), origin_y: None };
    assert_eq!(from_json_value(&no_y).err().unwrap().message, "ディスプレイ原点Y座標の取得に失敗しました");
}

#[test]
fn displays_from_json_gives_one_display_per_element() {
    let items = vec![
        DisplayFields { name: Some("A".to_string()), width: Some(1), height: Some(2), origin_x: Some(3), origin_y: Some(4) },
        DisplayFields { name: Some("B".to_string()), width: Some(5), height: Some(6), origin_x: Some(7), origin_y: Some(8) },
    ];
    let ds = displays_from_json(Ok(Some(items))).unwrap();
    assert_eq!(ds.len(), 2);
    assert_eq!(ds[1].name, "B");
    assert_eq!(ds[1].origin_y, 8);
    assert_eq!(displays_from_json(Err("eof".to_string())).err().unwrap().message, "ディスプレイ情報のパースに失敗しました: eof");
}

#[test]
fn get_display_info_chooses_by_name() {
    assert_eq!(get_display_info(&out(TWO_DISPLAYS), Some("DELL")).unwrap().width, 2560);
    assert_eq!(get_display_info(&out(TWO_DISPLAYS), None).unwrap().name, "Built-in");
    assert_eq!(get_display_info(&out(TWO_DISPLAYS), Some("")).unwrap().name, "Built-in");
    assert_eq!(
        get_display_info(&out(TWO_DISPLAYS), Some("LG")).err().unwrap().message,
        "指定されたディスプレイ 'LG' が見つかりません"
    );
    assert_eq!(get_display_info(&out("[]"), None).err().unwrap().message, "接続されているディスプレイが見つかりません");
}

#[test]
fn name_match_condition_joins_candidates() {
    assert_eq!(build_name_match_condition("n", &["左", "Left"]), "n is \"左\" or n is \"Left\"");
    assert_eq!(build_name_match_condition("n", &["a\"b"]), "n is \"a\\\"b\"");
    assert_eq!(build_name_match_condition("n", &[]), "");
}

#[test]
fn menu_scripts_name_the_items() {
    let tile = tile_window_via_menu_script("Safari", &TileKeyword::Left);
    assert!(tile.contains("tell application \"Safari\" to activate"));
    assert!(tile.contains("移動とサイズ変更"));
    assert!(tile.contains("n is \"左\" or n is \"Left\""));
    assert!(tile.contains("メニュー項目が見つかりません: 左"));
    let full = tile_window_via_menu_script("Safari", &TileKeyword::FullScreen);
    assert!(!full.contains("set mrItem"));
    assert!(full.contains("n is \"画面全体に表示\" or n is \"Enter Full Screen\""));
    let mv = move_window_to_display_via_menu_script("Safari", "DELL");
    assert!(mv.contains("n is \"DELLに移動\" or n is \"Move to DELL\""));
    assert!(mv.contains("return \"Error: ディスプレイ移動メニュー項目が見つかりません\""));
}

#[test]
fn menu_actions_read_output() {
    assert!(tile_window_via_menu(&out("Success\n")).is_ok());
    assert_eq!(tile_window_via_menu(&out("Error: x")).err().unwrap().message, "Error: x");
    let empty = Ok(ScriptOutput { success: true, stdout: "  ".to_string(), stderr: "why".to_string() });
    assert_eq!(tile_window_via_menu(&empty).err().unwrap().message, "OS標準タイリング操作に失敗しました: why");
    assert_eq!(
        move_window_to_display_via_menu(&failed("denied")).err().unwrap().message,
        "ディスプレイ移動メニュー操作に失敗しました: denied"
    );
    let e = move_window_to_display_via_menu(&out("Error: ディスプレイ移動メニュー項目が見つかりません")).err().unwrap();
    assert!(e.is_display_menu_item_not_found());
    let other = WindowMenuError { message: "Error: ウインドウメニューが見つかりません".to_string() };
    assert!(!other.is_display_menu_item_not_found());
}

#[test]
fn a_printed_window_entry_reads_back() {
    for (t, x, y, w, h, m, v) in [("Doc, draft", -1440, 0, 800, 600, false, true), ("", i32::MIN, i32::MAX, 0, -1, true, false)] {
        let entry = format!("{}|{},{}|{},{}|{}|{}", t, x, y, w, h, m, v);
        let win = parse_single_window(&entry).unwrap();
        assert_eq!(win.title, t);
        assert_eq!(win.position, (x, y));
        assert_eq!(win.size, (w, h));
        assert_eq!((win.minimized, win.visible), (m, v));
    }
}

#[test]
fn escaped_text_is_safe_in_a_string_literal() {
    let e = escape_applescript_string("say \"hi\"\r\nand \\ bye");
    assert!(!e.contains('\n') && !e.contains('\r'));
    let cs: Vec<char> = e.chars().collect();
    for i in 0..cs.len() {
        if cs[i] == '"' {
            assert!(i > 0 && cs[i - 1] == '\\');
        }
    }
    assert_eq!(escape_applescript_string("plain text 123"), "plain text 123");
}
