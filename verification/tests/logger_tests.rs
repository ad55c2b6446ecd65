use apptidying::config::{LogRotationConfig, NotificationConfig};
use apptidying::logger::{
    create_dialog_message, escape_applescript_string_for_test, get_log_file_path,
    get_notification_config, init, init_simple, log_file_path_under, log_line, notification_message,
    notification_method, read_recent_logs, recent_log_lines, rotation_error_script, rotation_plan,
    should_rotate_log, show_notification, text_lines_of, LoggerConfig, NotificationLevel,
    NotificationMethod, NotificationOutput,
};

fn config(info: &str, warn: &str, error: &str, silent: bool) -> LoggerConfig {
    LoggerConfig {
        debug_mode: false,
        silent_mode: silent,
        notification_config: Some(NotificationConfig { info: info.to_string(), warn: warn.to_string(), error: error.to_string() }),
        log_rotation_config: None,
    }
}

#[test]
fn simple_configuration() {
    let c = init_simple();
    assert!(!c.debug_mode);
    assert!(!c.silent_mode);
    let n = get_notification_config(Some(&c)).unwrap();
    assert_eq!(n.error, "dialog");
    assert!(c.log_rotation_config.is_none());
}

#[test]
fn last_init_gives_the_notification_settings() {
    let mut current: Option<LoggerConfig> = None;
    assert!(get_notification_config(current.as_ref()).is_none());
    init(&mut current, init_simple());
    let n = get_notification_config(current.as_ref()).unwrap();
    assert_eq!(n.info, "notification");
    assert_eq!(n.warn, "notification");
    assert_eq!(n.error, "dialog");
    init(&mut current, config("none", "dialog", "none", false));
    let n = get_notification_config(current.as_ref()).unwrap();
    assert_eq!(n.info, "none");
    assert_eq!(n.warn, "dialog");
    assert_eq!(n.error, "none");
    let mut plain = init_simple();
    plain.notification_config = None;
    init(&mut current, plain);
    assert!(get_notification_config(current.as_ref()).is_none());
}

#[test]
fn message_texts() {
    assert_eq!(notification_message(NotificationLevel::Warn, "x"), "[WARN] x");
    assert_eq!(log_line("2024-01-02 03:04:05", NotificationLevel::Error, "bad"), "[2024-01-02 03:04:05] [ERROR] bad");
    assert_eq!(create_dialog_message(&NotificationLevel::Info, "hi", Some("/p")), "hi");
    assert_eq!(
        create_dialog_message(&NotificationLevel::Error, "bad", Some("/l/apptidying.log")),
        "bad\n\n詳細はログファイルを参照してください:\n/l/apptidying.log"
    );
    assert_eq!(
        create_dialog_message(&NotificationLevel::Error, "bad", None),
        "bad\n\n詳細はログファイルを参照してください:\n~/Library/Application Support/biz.nosetech.apptidying/apptidying.log"
    );
    assert_eq!(escape_applescript_string_for_test("\"q\""), "\\\"q\\\"");
}

#[test]
fn notification_methods() {
    assert!(notification_method(None, NotificationLevel::Info) == NotificationMethod::NotificationCenter);
    assert!(notification_method(None, NotificationLevel::Error) == NotificationMethod::Dialog);
    let c = config("none", "dialog", "sparkle", false);
    assert!(notification_method(Some(&c), NotificationLevel::Info) == NotificationMethod::Nothing);
    assert!(notification_method(Some(&c), NotificationLevel::Warn) == NotificationMethod::Dialog);
    assert!(notification_method(Some(&c), NotificationLevel::Error) == NotificationMethod::Dialog);
    let odd = config("sparkle", "sparkle", "notification", false);
    assert!(notification_method(Some(&odd), NotificationLevel::Info) == NotificationMethod::NotificationCenter);
    assert!(notification_method(Some(&odd), NotificationLevel::Error) == NotificationMethod::NotificationCenter);
}

#[test]
fn showing_in_and_out_of_a_terminal() {
    let quiet = config("notification", "notification", "dialog", true);
    assert!(matches!(show_notification(Some(&quiet), NotificationLevel::Info, "m", true, None), NotificationOutput::Nothing));
    match show_notification(None, NotificationLevel::Info, "m", true, None) {
        NotificationOutput::Print(s) => assert_eq!(s, "[INFO] m"),
        _ => panic!("expected a printed line"),
    }
    match show_notification(Some(&quiet), NotificationLevel::Info, "say \"hi\"", false, None) {
        NotificationOutput::Run(s) => assert_eq!(s, "display notification \"say \\\"hi\\\"\" with title \"App Tidying\""),
        _ => panic!("expected a notification"),
    }
    match show_notification(None, NotificationLevel::Error, "bad", false, Some("/l")) {
        NotificationOutput::Run(s) => assert_eq!(
            s,
            "display dialog \"bad\\n\\n詳細はログファイルを参照してください:\\n/l\" buttons {\"OK\"} default button \"OK\" with icon stop"
        ),
        _ => panic!("expected a dialog"),
    }
    let none = config("none", "none", "none", false);
    assert!(matches!(show_notification(Some(&none), NotificationLevel::Error, "x", false, None), NotificationOutput::Nothing));
    assert!(rotation_error_script("disk full").contains("App Tidying: ログローテーションエラー\\n\\ndisk full"));
}

#[test]
fn rotation_threshold_in_bytes() {
    assert!(!should_rotate_log(None, None));
    assert!(should_rotate_log(Some(10 * 1024 * 1024), None));
    assert!(!should_rotate_log(Some(10 * 1024 * 1024 - 1), None));
    let r = LogRotationConfig { rotation_type: "size".to_string(), max_size_mb: 1, max_files: 3 };
    assert!(should_rotate_log(Some(1048576), Some(&r)));
    assert!(!should_rotate_log(Some(1048575), Some(&r)));
}

#[test]
fn rotation_shifts_files_oldest_first() {
    let (oldest, moves) = rotation_plan("/d", 3);
    assert_eq!(oldest, "/d/apptidying.log.2");
    assert_eq!(
        moves,
        vec![
            ("/d/apptidying.log.1".to_string(), "/d/apptidying.log.2".to_string()),
            ("/d/apptidying.log".to_string(), "/d/apptidying.log.1".to_string()),
        ]
    );
    let (only, none) = rotation_plan("/d", 1);
    assert_eq!(only, "/d/apptidying.log.0");
    assert!(none.is_empty());
    let (_, chain) = rotation_plan("/d", 12);
    assert_eq!(chain[0].0, "/d/apptidying.log.10");
    assert_eq!(chain[0].1, "/d/apptidying.log.11");
    for k in 0..chain.len() - 1 {
        assert_eq!(chain[k + 1].1, chain[k].0);
    }
}

#[test]
fn recent_lines_of_the_log() {
    assert_eq!(text_lines_of("a\nb\r\nc\n"), vec!["a".to_string(), "b".to_string(), "c".to_string()]);
    assert_eq!(text_lines_of("a\r"), vec!["a\r".to_string()]);
    assert_eq!(text_lines_of("\n"), vec!["".to_string()]);
    assert!(text_lines_of("").is_empty());
    assert_eq!(recent_log_lines("a\nb\r\nc\n", 2), "b\nc");
    assert_eq!(recent_log_lines("a\nb", 5), "a\nb");
    assert_eq!(recent_log_lines("a\nb", 0), "");
    assert_eq!(read_recent_logs(None, 5), "");
    assert_eq!(read_recent_logs(Some("1\n2\n3\n4\n5\n6\n"), 5), "2\n3\n4\n5\n6");
}

#[test]
fn log_file_location() {
    assert_eq!(log_file_path_under("/Users/me"), "/Users/me/Library/Application Support/biz.nosetech.apptidying/apptidying.log");
    let p = get_log_file_path().unwrap();
    assert!(p.ends_with("/Library/Application Support/biz.nosetech.apptidying/apptidying.log"));
}
