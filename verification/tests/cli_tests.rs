use apptidying::cli::{load_report, load_timeout, logger_config, save_report, Cli, Commands};
use apptidying::config::{AppSettings, LogRotationConfig};
use apptidying::loader::{LoadError, LoadResult};
use apptidying::logger::NotificationLevel;
use apptidying::saver::{SaveError, SaveResult};

#[test]
fn timeout_defaults_to_three_seconds() {
    assert_eq!(load_timeout(None), 3000);
    let mut s = AppSettings { version: "1.0".to_string(), notification: None, timeout: None, log_rotation: None };
    assert_eq!(load_timeout(Some(&s)), 3000);
    s.timeout = Some(5000);
    assert_eq!(load_timeout(Some(&s)), 5000);
}

#[test]
fn logger_configuration_from_flags_and_settings() {
    let s = AppSettings {
        version: "1.0".to_string(),
        notification: None,
        timeout: None,
        log_rotation: Some(LogRotationConfig { rotation_type: "size".to_string(), max_size_mb: 2, max_files: 3 }),
    };
    let c = logger_config(true, false, Some(&s));
    assert!(c.debug_mode);
    assert!(!c.silent_mode);
    assert_eq!(c.log_rotation_config.unwrap().max_files, 3);
    assert!(logger_config(false, true, None).silent_mode);
}

#[test]
fn load_reports() {
    let ok = load_report(&Ok(LoadResult { all_success: true, success_count: 3, failure_count: 0, failed_apps: vec![] }));
    assert!(ok.level == NotificationLevel::Info);
    assert_eq!(ok.message, "ウィンドウレイアウトを正常に復元しました");
    assert!(!ok.failed);
    let part = load_report(&Ok(LoadResult { all_success: false, success_count: 2, failure_count: 1, failed_apps: vec!["A".to_string()] }));
    assert!(part.level == NotificationLevel::Warn);
    assert_eq!(part.message, "一部のウィンドウ配置に失敗しました（成功: 2, 失敗: 1）");
    let err = load_report(&Err(LoadError { message: "x".to_string() }));
    assert!(err.level == NotificationLevel::Error);
    assert_eq!(err.message, "ウィンドウレイアウトの復元に失敗しました: x");
    assert!(err.failed);
}

#[test]
fn save_reports() {
    let ok = save_report(&Ok(SaveResult { all_success: true, saved_app_count: 4, saved_window_count: 4, skipped_window_count: 7, failed_apps: vec![] }));
    assert_eq!(ok.message, "ウィンドウレイアウトを保存しました（アプリ: 4, ウィンドウ: 4）");
    let part = save_report(&Ok(SaveResult {
        all_success: false,
        saved_app_count: 1,
        saved_window_count: 1,
        skipped_window_count: 10,
        failed_apps: vec!["A".to_string(), "B".to_string()],
    }));
    assert!(part.level == NotificationLevel::Warn);
    assert_eq!(part.message, "一部のウィンドウ情報取得に失敗しました（保存: 1, スキップ: 10, 失敗アプリ: A, B）");
    let err = save_report(&Err(SaveError { message: "y".to_string() }));
    assert_eq!(err.message, "ウィンドウレイアウトの保存に失敗しました: y");
    assert!(err.failed);
}

#[test]
fn command_line_values() {
    let c = Cli { command: Commands::Save { path: None, own: true }, verbose: false, silent: true };
    assert!(matches!(c.command, Commands::Save { own: true, .. }));
    let l = Commands::Load { path: Some("/tmp/layout.json".to_string()) };
    assert!(matches!(l, Commands::Load { path: Some(ref p) } if p == "/tmp/layout.json"));
}
