//! The command line and what each command reports when it ends.
use vstd::prelude::*;
use crate::config::AppSettings;
use crate::loader::{LoadError, LoadResult};
use crate::logger::{LoggerConfig, NotificationLevel};
use crate::saver::{SaveError, SaveResult};
use crate::text::{concat2, join, join_strings, nat_decimal, push_nat_decimal, string_views, to_owned_string};

verus! {

/// The command line: a command and the global flags.
#[derive(Debug)]
pub struct Cli {
    pub command: Commands,
    /// Log debug output too.
    pub verbose: bool,
    /// Print nothing on the terminal.
    pub silent: bool,
}

/// The commands.
#[derive(Debug)]
pub enum Commands {
    /// Restore the layout of `path`, or of the default layout file.
    Load { path: Option<String> },
    /// Save the current layout to `path`, or to the default layout file;
    /// with `own`, the windows of the terminal that runs the command too.
    Save { path: Option<String>, own: bool },
}

/// How long a launched application is given to come up: the settings'
/// `timeout`, or 3000 milliseconds.
pub open spec fn timeout_of(settings: Option<AppSettings>) -> u64 {
    match settings {
        Some(s) => match s.timeout {
            Some(t) => t,
            None => 3000,
        },
        None => 3000,
    }
}

pub open spec fn opt_settings(settings: Option<&AppSettings>) -> Option<AppSettings> {
    match settings {
        Some(s) => Some(*s),
        None => None,
    }
}

/// The application launch timeout in milliseconds.
pub fn load_timeout(settings: Option<&AppSettings>) -> (r: u64)
    ensures
        r == timeout_of(opt_settings(settings)),
{
    match settings {
        Some(s) => match s.timeout {
            Some(t) => t,
            None => 3000,
        },
        None => 3000,
    }
}

/// The logger configuration of a run: the flags of the command line and the
/// notification and rotation settings, when there are settings.
pub fn logger_config(verbose: bool, silent: bool, settings: Option<&AppSettings>) -> (r: LoggerConfig)
    ensures
        r.debug_mode == verbose,
        r.silent_mode == silent,
        r.notification_config == match opt_settings(settings) {
            Some(s) => s.notification,
            None => None,
        },
        r.log_rotation_config == match opt_settings(settings) {
            Some(s) => s.log_rotation,
            None => None,
        },
{
    let (notification_config, log_rotation_config) = match settings {
        Some(s) => (
            match &s.notification {
                Some(n) => Some(n.copy()),
                None => None,
            },
            match &s.log_rotation {
                Some(l) => Some(l.copy()),
                None => None,
            },
        ),
        None => (None, None),
    };
    LoggerConfig { debug_mode: verbose, silent_mode: silent, notification_config, log_rotation_config }
}

/// What a command shows when it ends: the level and the message, and
/// whether the program then exits with a failure.
#[derive(Debug)]
pub struct Report {
    pub level: NotificationLevel,
    pub message: String,
    pub failed: bool,
}

fn push_count(s: &mut String, n: usize)
    ensures
        final(s)@ == old(s)@ + nat_decimal(n as nat),
{
    push_nat_decimal(s, n as u64);
}

/// What the end of a load shows.
pub open spec fn load_report_spec(success: bool, all_success: bool, success_count: int, failure_count: int, error: Seq<char>) -> (NotificationLevel, Seq<char>, bool) {
    if !success {
        (NotificationLevel::Error, "ウィンドウレイアウトの復元に失敗しました: "@ + error, true)
    } else if all_success {
        (NotificationLevel::Info, "ウィンドウレイアウトを正常に復元しました"@, false)
    } else {
        (NotificationLevel::Warn, "一部のウィンドウ配置に失敗しました（成功: "@ + nat_decimal(success_count as nat)
            + ", 失敗: "@ + nat_decimal(failure_count as nat) + "）"@, false)
    }
}

/// What the end of a load shows: success, partial failure, or failure.
pub fn load_report(result: &Result<LoadResult, LoadError>) -> (r: Report)
    ensures
        match result {
            Ok(res) => (r.level, r.message@, r.failed) == load_report_spec(true, res.all_success,
                res.success_count as int, res.failure_count as int, Seq::empty()),
            Err(e) => (r.level, r.message@, r.failed) == load_report_spec(false, false, 0, 0, e.message@),
        },
{
    match result {
        Ok(res) => {
            if res.all_success {
                Report { level: NotificationLevel::Info, message: to_owned_string("ウィンドウレイアウトを正常に復元しました"), failed: false }
            } else {
                let mut m = to_owned_string("一部のウィンドウ配置に失敗しました（成功: ");
                push_count(&mut m, res.success_count);
                m.append(", 失敗: ");
                push_count(&mut m, res.failure_count);
                m.append("）");
                Report { level: NotificationLevel::Warn, message: m, failed: false }
            }
        },
        Err(e) => Report {
            level: NotificationLevel::Error,
            message: concat2("ウィンドウレイアウトの復元に失敗しました: ", e.message.as_str()),
            failed: true,
        },
    }
}

/// What the end of a save shows.
pub open spec fn save_report_spec(res: Result<SaveResult, SaveError>) -> (NotificationLevel, Seq<char>, bool) {
    match res {
        Err(e) => (NotificationLevel::Error, "ウィンドウレイアウトの保存に失敗しました: "@ + e.message@, true),
        Ok(r) => if r.all_success {
            (NotificationLevel::Info, "ウィンドウレイアウトを保存しました（アプリ: "@ + nat_decimal(r.saved_app_count as nat)
                + ", ウィンドウ: "@ + nat_decimal(r.saved_window_count as nat) + "）"@, false)
        } else {
            (NotificationLevel::Warn, "一部のウィンドウ情報取得に失敗しました（保存: "@ + nat_decimal(r.saved_window_count as nat)
                + ", スキップ: "@ + nat_decimal(r.skipped_window_count as nat) + ", 失敗アプリ: "@
                + join(string_views(r.failed_apps@), ", "@) + "）"@, false)
        },
    }
}

/// What the end of a save shows: success, partial failure, or failure.
pub fn save_report(result: &Result<SaveResult, SaveError>) -> (r: Report)
    ensures
        (r.level, r.message@, r.failed) == save_report_spec(*result),
{
    match result {
        Ok(res) => {
            if res.all_success {
                let mut m = to_owned_string("ウィンドウレイアウトを保存しました（アプリ: ");
                push_count(&mut m, res.saved_app_count);
                m.append(", ウィンドウ: ");
                push_count(&mut m, res.saved_window_count);
                m.append("）");
                Report { level: NotificationLevel::Info, message: m, failed: false }
            } else {
                let mut m = to_owned_string("一部のウィンドウ情報取得に失敗しました（保存: ");
                push_count(&mut m, res.saved_window_count);
                m.append(", スキップ: ");
                push_count(&mut m, res.skipped_window_count);
                m.append(", 失敗アプリ: ");
                let apps = join_strings(&res.failed_apps, ", ");
                m.append(apps.as_str());
                m.append("）");
                Report { level: NotificationLevel::Warn, message: m, failed: false }
            }
        },
        Err(e) => Report {
            level: NotificationLevel::Error,
            message: concat2("ウィンドウレイアウトの保存に失敗しました: ", e.message.as_str()),
            failed: true,
        },
    }
}

} // verus!
