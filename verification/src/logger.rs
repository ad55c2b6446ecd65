//! What gets logged and how messages reach the user.
//!
//! Writing files, reading the clock and running `osascript` happen outside
//! the library; this module decides the texts, the way a message is shown,
//! and when and how the log file is rotated.
use vstd::prelude::*;
use crate::config::{app_dir_rel, home_error_message, path_join, path_join_str, LogRotationConfig, NotificationConfig};
use crate::applescript::utils::escape_applescript_string;
use crate::text::{
    concat2, concat3, escape, join, nat_decimal, push_decimal, split, split_chars, string_from_chars,
    chars_of, to_owned_string, views,
};

verus! {

/// The level of a message to the user.
#[derive(Debug, Clone, Copy, PartialEq, Eq, Structural)]
pub enum NotificationLevel {
    Info,
    Warn,
    Error,
}

/// How logging and notification behave.
#[derive(Debug)]
pub struct LoggerConfig {
    /// Log `DEBUG` messages too.
    pub debug_mode: bool,
    /// Print nothing on the terminal.
    pub silent_mode: bool,
    pub notification_config: Option<NotificationConfig>,
    pub log_rotation_config: Option<LogRotationConfig>,
}

/// The configuration of plain logging: no debug output, printed messages,
/// the default notification methods, no rotation settings.
pub fn init_simple() -> (r: LoggerConfig)
    ensures
        !r.debug_mode,
        !r.silent_mode,
        r.notification_config matches Some(n) && n.info@ == "notification"@ && n.warn@ == "notification"@
            && n.error@ == "dialog"@,
        r.log_rotation_config is None,
{
    LoggerConfig {
        debug_mode: false,
        silent_mode: false,
        notification_config: Some(NotificationConfig::default()),
        log_rotation_config: None,
    }
}

/// Makes `config` the current logger configuration, in place of whatever
/// `current` held.
pub fn init(current: &mut Option<LoggerConfig>, config: LoggerConfig)
    ensures
        *final(current) == init_step(*old(current), config),
{
    *current = Some(config);
}

/// The current configuration after `init` with `config`.
pub open spec fn init_step(current: Option<LoggerConfig>, config: LoggerConfig) -> Option<LoggerConfig> {
    Some(config)
}

/// The current configuration after the given calls of `init`, in order,
/// starting from none.
pub open spec fn after_inits(inits: Seq<LoggerConfig>) -> Option<LoggerConfig>
    decreases inits.len(),
{
    if inits.len() == 0 {
        None
    } else {
        init_step(after_inits(inits.drop_last()), inits.last())
    }
}

/// The notification settings of the current configuration, if any.
pub open spec fn current_notification_config(current: Option<LoggerConfig>) -> Option<NotificationConfig> {
    match current {
        Some(c) => c.notification_config,
        None => None,
    }
}

/// The notification settings of the current logger configuration: `None`
/// where there is no configuration or it has no notification settings.
pub fn get_notification_config(current: Option<&LoggerConfig>) -> (r: Option<NotificationConfig>)
    ensures
        r == current_notification_config(opt_config(current)),
{
    match current {
        Some(c) => match &c.notification_config {
            Some(n) => Some(n.copy()),
            None => None,
        },
        None => None,
    }
}

/// The notification settings read after a series of `init` calls are those
/// of the last one; before the first there are none.
pub proof fn law_last_init_wins(inits: Seq<LoggerConfig>)
    ensures
        current_notification_config(after_inits(inits)) == (if inits.len() == 0 {
            None
        } else {
            inits.last().notification_config
        }),
{
}

/// The name of a level as messages show it.
pub open spec fn level_name(level: NotificationLevel) -> Seq<char> {
    match level {
        NotificationLevel::Info => "INFO"@,
        NotificationLevel::Warn => "WARN"@,
        NotificationLevel::Error => "ERROR"@,
    }
}

fn level_str(level: NotificationLevel) -> (r: &'static str)
    ensures
        r@ == level_name(level),
{
    match level {
        NotificationLevel::Info => "INFO",
        NotificationLevel::Warn => "WARN",
        NotificationLevel::Error => "ERROR",
    }
}

/// `[LEVEL] message`, as a message is printed.
pub open spec fn output_message(level: NotificationLevel, message: Seq<char>) -> Seq<char> {
    "["@ + level_name(level) + "] "@ + message
}

/// The printed form of a message.
pub fn notification_message(level: NotificationLevel, message: &str) -> (r: String)
    ensures
        r@ == output_message(level, message@),
{
    let head = concat3("[", level_str(level), "] ");
    concat2(head.as_str(), message)
}

/// `[timestamp] [LEVEL] message`, as a message goes into the log file.
pub fn log_line(timestamp: &str, level: NotificationLevel, message: &str) -> (r: String)
    ensures
        r@ == "["@ + timestamp@ + "] "@ + output_message(level, message@),
{
    let head = concat3("[", timestamp, "] ");
    let body = notification_message(level, message);
    concat2(head.as_str(), body.as_str())
}

/// A way of showing a message outside a terminal.
#[derive(Debug, Clone, Copy, PartialEq, Eq, Structural)]
pub enum NotificationMethod {
    Nothing,
    NotificationCenter,
    Dialog,
}

/// The method that a configured value names: `none`, `notification` or
/// `dialog`; any other value falls back to the notification center for
/// information and warnings and to a dialog for errors.
pub open spec fn method_of(value: Seq<char>, level: NotificationLevel) -> NotificationMethod {
    if value == "none"@ {
        NotificationMethod::Nothing
    } else if value == "notification"@ {
        NotificationMethod::NotificationCenter
    } else if value == "dialog"@ {
        NotificationMethod::Dialog
    } else if level == NotificationLevel::Error {
        NotificationMethod::Dialog
    } else {
        NotificationMethod::NotificationCenter
    }
}

/// The configured method for a level: the notification settings of the
/// configuration, or the defaults (notification center, notification
/// center, dialog).
pub open spec fn configured_method(config: Option<LoggerConfig>, level: NotificationLevel) -> NotificationMethod {
    let n = match config {
        Some(c) => c.notification_config,
        None => None,
    };
    let value = match n {
        Some(n) => match level {
            NotificationLevel::Info => n.info@,
            NotificationLevel::Warn => n.warn@,
            NotificationLevel::Error => n.error@,
        },
        None => match level {
            NotificationLevel::Error => "dialog"@,
            _ => "notification"@,
        },
    };
    method_of(value, level)
}

pub open spec fn opt_config(config: Option<&LoggerConfig>) -> Option<LoggerConfig> {
    match config {
        Some(c) => Some(*c),
        None => None,
    }
}

/// How a message of `level` is shown outside a terminal.
pub fn notification_method(config: Option<&LoggerConfig>, level: NotificationLevel) -> (r: NotificationMethod)
    ensures
        r == configured_method(opt_config(config), level),
{
    let fallback = NotificationConfig::default();
    let n: &NotificationConfig = match config {
        Some(c) => match &c.notification_config {
            Some(n) => n,
            None => &fallback,
        },
        None => &fallback,
    };
    let value: &str = match level {
        NotificationLevel::Info => n.info.as_str(),
        NotificationLevel::Warn => n.warn.as_str(),
        NotificationLevel::Error => n.error.as_str(),
    };
    if crate::text::str_eq(value, "none") {
        NotificationMethod::Nothing
    } else if crate::text::str_eq(value, "notification") {
        NotificationMethod::NotificationCenter
    } else if crate::text::str_eq(value, "dialog") {
        NotificationMethod::Dialog
    } else {
        match level {
            NotificationLevel::Error => NotificationMethod::Dialog,
            _ => NotificationMethod::NotificationCenter,
        }
    }
}

/// The log file used in messages when its path is unknown.
pub open spec fn fallback_log_path() -> Seq<char> {
    "~/Library/Application Support/biz.nosetech.apptidying/apptidying.log"@
}

/// The text of a dialog: an error points to the log file (`log_file_path`,
/// or the usual place when it is unknown); other levels show the message
/// as it is.
pub open spec fn dialog_message(level: NotificationLevel, message: Seq<char>, log_file_path: Option<Seq<char>>) -> Seq<char> {
    match level {
        NotificationLevel::Error => message + "\n\n詳細はログファイルを参照してください:\n"@ + match log_file_path {
            Some(p) => p,
            None => fallback_log_path(),
        },
        _ => message,
    }
}

pub open spec fn opt_str(o: Option<&str>) -> Option<Seq<char>> {
    match o {
        Some(s) => Some(s@),
        None => None,
    }
}

/// The text of a dialog for a message.
pub fn create_dialog_message(level: &NotificationLevel, message: &str, log_file_path: Option<&str>) -> (r: String)
    ensures
        r@ == dialog_message(*level, message@, opt_str(log_file_path)),
{
    match level {
        NotificationLevel::Error => {
            let path = match log_file_path {
                Some(p) => p,
                None => "~/Library/Application Support/biz.nosetech.apptidying/apptidying.log",
            };
            concat3(message, "\n\n詳細はログファイルを参照してください:\n", path)
        },
        _ => to_owned_string(message),
    }
}

/// The script that shows a message in the notification center.
pub open spec fn notification_center_script(message: Seq<char>) -> Seq<char> {
    "display notification \""@ + escape(message) + "\" with title \"App Tidying\""@
}

fn center_script(message: &str) -> (r: String)
    ensures
        r@ == notification_center_script(message@),
{
    let e = escape_applescript_string(message);
    concat3("display notification \"", e.as_str(), "\" with title \"App Tidying\"")
}

/// The icon of a dialog of each level.
pub open spec fn dialog_icon(level: NotificationLevel) -> Seq<char> {
    match level {
        NotificationLevel::Info => "note"@,
        NotificationLevel::Warn => "caution"@,
        NotificationLevel::Error => "stop"@,
    }
}

/// The script that shows a message in a dialog with an OK button.
pub open spec fn dialog_script(level: NotificationLevel, message: Seq<char>, log_file_path: Option<Seq<char>>) -> Seq<char> {
    "display dialog \""@ + escape(dialog_message(level, message, log_file_path))
        + "\" buttons {\"OK\"} default button \"OK\" with icon "@ + dialog_icon(level)
}

fn show_dialog_script(level: NotificationLevel, message: &str, log_file_path: Option<&str>) -> (r: String)
    ensures
        r@ == dialog_script(level, message@, opt_str(log_file_path)),
{
    let text = create_dialog_message(&level, message, log_file_path);
    let e = escape_applescript_string(text.as_str());
    let icon: &str = match level {
        NotificationLevel::Info => "note",
        NotificationLevel::Warn => "caution",
        NotificationLevel::Error => "stop",
    };
    let head = concat3("display dialog \"", e.as_str(), "\" buttons {\"OK\"} default button \"OK\" with icon ");
    concat2(head.as_str(), icon)
}

/// The script that reports a failed log rotation in the notification center.
pub fn rotation_error_script(error_message: &str) -> (r: String)
    ensures
        r@ == notification_center_script("App Tidying: ログローテーションエラー\n\n"@ + error_message@),
{
    let text = concat2("App Tidying: ログローテーションエラー\n\n", error_message);
    center_script(text.as_str())
}

/// What showing a message comes to.
#[derive(Debug)]
pub enum NotificationOutput {
    /// Print this line on standard output.
    Print(String),
    /// Run this AppleScript.
    Run(String),
    /// Show nothing.
    Nothing,
}

/// How a message reaches the user: on a terminal it is printed unless the
/// configuration is silent; elsewhere it goes to the notification center, a
/// dialog or nowhere, as the configuration says for its level.
pub fn show_notification(config: Option<&LoggerConfig>, level: NotificationLevel, message: &str, in_terminal: bool, log_file_path: Option<&str>) -> (r: NotificationOutput)
    ensures
        in_terminal ==> (if opt_config(config) matches Some(c) && c.silent_mode {
            r is Nothing
        } else {
            r matches NotificationOutput::Print(s) && s@ == output_message(level, message@)
        }),
        !in_terminal ==> match configured_method(opt_config(config), level) {
            NotificationMethod::Nothing => r is Nothing,
            NotificationMethod::NotificationCenter => r matches NotificationOutput::Run(s) && s@ == notification_center_script(message@),
            NotificationMethod::Dialog => r matches NotificationOutput::Run(s) && s@ == dialog_script(level, message@, opt_str(log_file_path)),
        },
{
    if in_terminal {
        let silent = match config {
            Some(c) => c.silent_mode,
            None => false,
        };
        if silent {
            NotificationOutput::Nothing
        } else {
            NotificationOutput::Print(notification_message(level, message))
        }
    } else {
        match notification_method(config, level) {
            NotificationMethod::Nothing => NotificationOutput::Nothing,
            NotificationMethod::NotificationCenter => NotificationOutput::Run(center_script(message)),
            NotificationMethod::Dialog => NotificationOutput::Run(show_dialog_script(level, message, log_file_path)),
        }
    }
}

/// Escapes text for an AppleScript string literal.
pub fn escape_applescript_string_for_test(s: &str) -> (r: String)
    ensures
        r@ == escape(s@),
{
    escape_applescript_string(s)
}

// ---------------------------------------------------------------------------
// The log file
// ---------------------------------------------------------------------------

/// The log file's name.
pub open spec fn log_file_name() -> Seq<char> {
    "apptidying.log"@
}

/// The log file below a home directory.
pub fn log_file_path_under(home: &str) -> (r: String)
    ensures
        r@ == path_join(path_join(home@, app_dir_rel()), log_file_name()),
{
    let dir = path_join_str(home, "Library/Application Support/biz.nosetech.apptidying");
    path_join_str(dir.as_str(), "apptidying.log")
}

/// The size in bytes at which the log file is rotated: `max_size_mb`
/// mebibytes, 10 without rotation settings.
pub open spec fn rotation_threshold(rotation: Option<LogRotationConfig>) -> int {
    match rotation {
        Some(r) => r.max_size_mb * 1048576,
        None => 10485760int,
    }
}

pub open spec fn opt_rotation(rotation: Option<&LogRotationConfig>) -> Option<LogRotationConfig> {
    match rotation {
        Some(r) => Some(*r),
        None => None,
    }
}

/// Whether the log file is due for rotation: it exists (`file_size` is its
/// size) and is at least as large as the threshold.
pub fn should_rotate_log(file_size: Option<u64>, rotation: Option<&LogRotationConfig>) -> (r: bool)
    requires
        rotation_threshold(opt_rotation(rotation)) <= u64::MAX,
    ensures
        r == (file_size matches Some(n) && n >= rotation_threshold(opt_rotation(rotation))),
{
    match file_size {
        None => false,
        Some(n) => {
            let max_size_mb: u64 = match rotation {
                Some(r) => r.max_size_mb,
                None => 10,
            };
            n >= max_size_mb * 1024 * 1024
        },
    }
}

/// The number of log files kept: `max_files`, 5 without rotation settings.
pub open spec fn kept_files(rotation: Option<LogRotationConfig>) -> int {
    match rotation {
        Some(r) => r.max_files as int,
        None => 5,
    }
}

/// The name of the `i`-th older log file: `apptidying.log.i`.
pub open spec fn numbered_log(dir: Seq<char>, i: int) -> Seq<char> {
    path_join(dir, "apptidying.log."@ + nat_decimal(i as nat))
}

fn numbered_log_path(dir: &str, i: u32) -> (r: String)
    ensures
        r@ == numbered_log(dir@, i as int),
{
    let mut name = to_owned_string("apptidying.log.");
    push_decimal(&mut name, i as i64);
    path_join_str(dir, name.as_str())
}

/// The renames of a rotation with `max_files` files in `dir`, in order:
/// the `k`-th moves file `max_files - 1 - k` to `max_files - k`, the current
/// log file being file 0.
pub open spec fn rotation_move(dir: Seq<char>, max_files: int, k: int) -> (Seq<char>, Seq<char>) {
    let i = max_files - 1 - k;
    (if i == 1 { path_join(dir, log_file_name()) } else { numbered_log(dir, i - 1) }, numbered_log(dir, i))
}

/// What a rotation does in the log directory: remove the oldest file
/// (`apptidying.log.<max_files - 1>`), then shift every file one place
/// older, the oldest first.
pub fn rotation_plan(log_dir: &str, max_files: u32) -> (r: (String, Vec<(String, String)>))
    requires
        max_files >= 1,
    ensures
        r.0@ == numbered_log(log_dir@, max_files - 1),
        r.1@.len() == max_files - 1,
        forall|k: int| 0 <= k < r.1@.len() ==> (#[trigger] r.1@[k]).0@ == rotation_move(log_dir@, max_files as int, k).0
            && r.1@[k].1@ == rotation_move(log_dir@, max_files as int, k).1,
{
    let oldest = numbered_log_path(log_dir, max_files - 1);
    let mut moves: Vec<(String, String)> = Vec::new();
    let mut i: u32 = max_files - 1;
    while i >= 1
        invariant
            i <= max_files - 1,
            moves@.len() == max_files - 1 - i,
            forall|k: int| 0 <= k < moves@.len() ==> (#[trigger] moves@[k]).0@ == rotation_move(log_dir@, max_files as int, k).0
                && moves@[k].1@ == rotation_move(log_dir@, max_files as int, k).1,
        decreases i,
    {
        let src = if i == 1 {
            path_join_str(log_dir, "apptidying.log")
        } else {
            numbered_log_path(log_dir, i - 1)
        };
        let dst = numbered_log_path(log_dir, i);
        moves.push((src, dst));
        i = i - 1;
    }
    (oldest, moves)
}

// ---------------------------------------------------------------------------
// Reading the recent log
// ---------------------------------------------------------------------------

/// A line with the `\r` of a `\r\n` ending taken off.
pub open spec fn strip_cr(l: Seq<char>) -> Seq<char> {
    if l.len() > 0 && l.last() == '\r' {
        l.drop_last()
    } else {
        l
    }
}

/// The lines of a text as `str::lines` gives them: split at `\n`, a final
/// `\n` ending no extra line, and the `\r` before a `\n` taken off.
pub open spec fn text_lines(s: Seq<char>) -> Seq<Seq<char>> {
    if s.len() == 0 {
        Seq::empty()
    } else if s.last() == '\n' {
        split(s.drop_last(), '\n').map_values(|l: Seq<char>| strip_cr(l))
    } else {
        let parts = split(s, '\n');
        parts.drop_last().map_values(|l: Seq<char>| strip_cr(l)).push(parts.last())
    }
}

/// The last `n` lines of a text (all of them when it has fewer), joined
/// with `\n`.
pub open spec fn recent_lines(s: Seq<char>, n: int) -> Seq<char> {
    let ls = text_lines(s);
    let start = if ls.len() > n { ls.len() - n } else { 0 };
    join(ls.skip(start), "\n"@)
}

fn take_chars(s: &[char], n: usize) -> (r: Vec<char>)
    requires
        n <= s@.len(),
    ensures
        r@ == s@.take(n as int),
{
    let mut r: Vec<char> = Vec::new();
    let mut i: usize = 0;
    while i < n
        invariant
            i <= n <= s@.len(),
            r@ == s@.take(i as int),
        decreases n - i,
    {
        r.push(s[i]);
        i = i + 1;
        assert(r@ =~= s@.take(i as int));
    }
    r
}

fn strip_cr_string(l: &Vec<char>) -> (r: String)
    ensures
        r@ == strip_cr(l@),
{
    if l.len() > 0 && l[l.len() - 1] == '\r' {
        let t = take_chars(l.as_slice(), l.len() - 1);
        assert(t@ =~= l@.drop_last());
        string_from_chars(t.as_slice())
    } else {
        string_from_chars(l.as_slice())
    }
}

/// The lines of a text, as `str::lines` gives them.
pub fn text_lines_of(s: &str) -> (r: Vec<String>)
    ensures
        crate::text::string_views(r@) == text_lines(s@),
{
    let cs = chars_of(s);
    let mut r: Vec<String> = Vec::new();
    if cs.len() == 0 {
        assert(crate::text::string_views(r@) =~= text_lines(s@));
        return r;
    }
    let ends_with_newline = cs[cs.len() - 1] == '\n';
    let body = if ends_with_newline { take_chars(cs.as_slice(), cs.len() - 1) } else { take_chars(cs.as_slice(), cs.len()) };
    assert(ends_with_newline ==> body@ =~= s@.drop_last());
    assert(!ends_with_newline ==> body@ =~= s@);
    let parts = split_chars(body.as_slice(), '\n');
    let ghost pv = views(parts@);
    proof {
        crate::text::lemma_split_nonempty(body@, '\n');
    }
    let stripped = if ends_with_newline { parts.len() } else { parts.len() - 1 };
    let mut i: usize = 0;
    while i < parts.len()
        invariant
            i <= parts@.len(),
            pv == views(parts@),
            pv == split(body@, '\n'),
            pv.len() >= 1,
            stripped == (if ends_with_newline { pv.len() } else { (pv.len() - 1) as nat }),
            crate::text::string_views(r@) == (if i <= stripped {
                pv.take(i as int).map_values(|l: Seq<char>| strip_cr(l))
            } else {
                pv.take(stripped as int).map_values(|l: Seq<char>| strip_cr(l)).push(pv[stripped as int])
            }),
        decreases parts@.len() - i,
    {
        assert(pv[i as int] == parts@[i as int]@);
        let ghost before = crate::text::string_views(r@);
        if i < stripped {
            let l = strip_cr_string(&parts[i]);
            r.push(l);
            assert(crate::text::string_views(r@) =~= before.push(strip_cr(pv[i as int])));
            assert(pv.take(i + 1).map_values(|l: Seq<char>| strip_cr(l)) =~= pv.take(i as int).map_values(|l: Seq<char>| strip_cr(l)).push(strip_cr(pv[i as int])));
        } else {
            let l = string_from_chars(parts[i].as_slice());
            r.push(l);
            assert(crate::text::string_views(r@) =~= before.push(pv[i as int]));
        }
        i = i + 1;
    }
    proof {
        if ends_with_newline {
            assert(pv.take(pv.len() as int) =~= pv);
        } else {
            assert(pv.take(stripped as int) =~= pv.drop_last());
        }
    }
    r
}

/// The last `lines` lines of a log text, joined with `\n`.
pub fn recent_log_lines(content: &str, lines: usize) -> (r: String)
    ensures
        r@ == recent_lines(content@, lines as int),
{
    let all = text_lines_of(content);
    let start = if all.len() > lines { all.len() - lines } else { 0 };
    let mut tail: Vec<String> = Vec::new();
    let mut i: usize = start;
    let ghost lv = crate::text::string_views(all@);
    while i < all.len()
        invariant
            start <= i <= all@.len(),
            lv == crate::text::string_views(all@),
            crate::text::string_views(tail@) == lv.subrange(start as int, i as int),
        decreases all@.len() - i,
    {
        let ghost before = crate::text::string_views(tail@);
        tail.push(all[i].clone());
        assert(crate::text::string_views(tail@) =~= before.push(lv[i as int]));
        assert(lv.subrange(start as int, i + 1) =~= lv.subrange(start as int, i as int).push(lv[i as int]));
        i = i + 1;
    }
    assert(lv.subrange(start as int, lv.len() as int) =~= lv.skip(start as int));
    crate::text::join_strings(&tail, "\n")
}

/// The recent lines of the log: nothing when there is no log file
/// (`content` is `None`), else its last `lines` lines.
pub fn read_recent_logs(content: Option<&str>, lines: usize) -> (r: String)
    ensures
        r@ == match content {
            Some(c) => recent_lines(c@, lines as int),
            None => Seq::<char>::empty(),
        },
{
    match content {
        Some(c) => recent_log_lines(c, lines),
        None => String::new(),
    }
}

/// The log file, `~/Library/Application Support/biz.nosetech.apptidying/apptidying.log`.
pub fn get_log_file_path() -> (r: Result<String, String>)
    ensures
        match r {
            Ok(p) => exists|h: Seq<char>| p@ == path_join(path_join(h, app_dir_rel()), log_file_name()),
            Err(m) => m@ == home_error_message(),
        },
{
    match crate::config::home_dir() {
        Some(h) => {
            let p = log_file_path_under(h.as_str());
            assert(p@ == path_join(path_join(h@, app_dir_rel()), log_file_name()));
            Ok(p)
        },
        None => Err(to_owned_string("ホームディレクトリの取得に失敗しました")),
    }
}

/// A rotation never overwrites a file that it still has to move: the first
/// rename goes to the file that was just removed, each later one to the
/// file that the rename before it moved away, and the last one moves the
/// current log file.
pub proof fn law_rotation_chain(dir: Seq<char>, max_files: int)
    requires
        max_files >= 2,
    ensures
        rotation_move(dir, max_files, 0).1 == numbered_log(dir, max_files - 1),
        forall|k: int| 0 <= k < max_files - 2 ==> #[trigger] rotation_move(dir, max_files, k + 1).1 == rotation_move(dir, max_files, k).0,
        rotation_move(dir, max_files, max_files - 2).0 == path_join(dir, log_file_name()),
{
}

/// Without notification settings, information and warnings go to the
/// notification center and errors to a dialog.
pub proof fn law_default_notification(level: NotificationLevel)
    ensures
        configured_method(None, level) == (if level == NotificationLevel::Error {
            NotificationMethod::Dialog
        } else {
            NotificationMethod::NotificationCenter
        }),
{
    reveal_strlit("dialog");
    reveal_strlit("notification");
    reveal_strlit("none");
    assert("dialog"@.len() != "none"@.len());
    assert("dialog"@.len() != "notification"@.len());
    assert("notification"@.len() != "none"@.len());
}

/// Silent mode only quiets the terminal: outside a terminal a message is
/// shown the same way whether or not the configuration is silent.
pub proof fn law_silent_only_in_terminal(c: LoggerConfig, level: NotificationLevel)
    ensures
        configured_method(Some(c), level) == configured_method(Some(LoggerConfig { silent_mode: !c.silent_mode, ..c }), level),
{
}

} // verus!
