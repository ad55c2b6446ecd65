//! Applications: launching, activating, and listing them.
use vstd::prelude::*;
use crate::applescript::osascript::{checked_output, run_text, ScriptOutput};
use crate::applescript::scripts::{
    ACTIVATE_HEAD, ACTIVATE_TAIL, IS_RUNNING_HEAD, IS_RUNNING_TAIL, LAUNCH_HEAD, LAUNCH_TAIL,
    PROCESS_ID_HEAD, PROCESS_ID_TAIL, RUNNING_APPS_SCRIPT,
};
use crate::applescript::utils::escape_applescript_string;
use crate::text::{
    chars_eq, chars_of, chars_rfind, concat2, concat3, escape, last_index_of, parse_i32,
    parse_i32_chars, split, split_chars, string_from_chars, to_owned_string, trim, trim_chars,
    views,
};

verus! {

/// A failure to run a script about an application.
#[derive(Debug)]
pub struct AppLaunchError {
    pub message: String,
}

/// An application that runs now, and whether it already did before.
#[derive(Debug)]
pub struct AppLaunchResult {
    pub status: String,
    pub message: String,
    pub process_id: Option<i32>,
    pub was_already_running: bool,
}

/// A running application with a user interface.
#[derive(Debug)]
pub struct AppInfo {
    pub name: String,
    pub process_id: Option<i32>,
}

/// A failure to list the running applications.
#[derive(Debug)]
pub struct RunningAppsError {
    pub message: String,
}

impl AppInfo {
    /// A copy of this application's information.
    pub fn copy(&self) -> (r: AppInfo)
        ensures
            r == *self,
    {
        AppInfo { name: self.name.clone(), process_id: self.process_id }
    }
}

/// A script about one application: a fixed head, the escaped name, a fixed tail.
pub open spec fn app_script(head: Seq<char>, app: Seq<char>, tail: Seq<char>) -> Seq<char> {
    head + escape(app) + tail
}

fn build_app_script(head: &str, app_name: &str, tail: &str) -> (r: String)
    ensures
        r@ == app_script(head@, app_name@, tail@),
{
    let e = escape_applescript_string(app_name);
    concat3(head, e.as_str(), tail)
}

/// The script that asks whether `app_name` runs.
pub fn is_app_running_script(app_name: &str) -> (r: String)
    ensures
        r@ == app_script(IS_RUNNING_HEAD@, app_name@, IS_RUNNING_TAIL@),
{
    build_app_script(IS_RUNNING_HEAD, app_name, IS_RUNNING_TAIL)
}

/// The script that asks for the process id of `app_name`.
pub fn get_app_process_id_script(app_name: &str) -> (r: String)
    ensures
        r@ == app_script(PROCESS_ID_HEAD@, app_name@, PROCESS_ID_TAIL@),
{
    build_app_script(PROCESS_ID_HEAD, app_name, PROCESS_ID_TAIL)
}

/// The script that launches `app_name`.
pub fn launch_app_script(app_name: &str) -> (r: String)
    ensures
        r@ == app_script(LAUNCH_HEAD@, app_name@, LAUNCH_TAIL@),
{
    build_app_script(LAUNCH_HEAD, app_name, LAUNCH_TAIL)
}

/// The script that brings `app_name` to the front with its windows shown.
pub fn activate_app_script(app_name: &str) -> (r: String)
    ensures
        r@ == app_script(ACTIVATE_HEAD@, app_name@, ACTIVATE_TAIL@),
{
    build_app_script(ACTIVATE_HEAD, app_name, ACTIVATE_TAIL)
}

/// Whether the running check says the application runs.
pub open spec fn running_result(run: Result<ScriptOutput, AppLaunchError>) -> Result<bool, Seq<char>> {
    match run_text(run, "アプリの起動状態確認に失敗しました: "@) {
        Err(m) => Err(m),
        Ok(t) => Ok(t == "true"@),
    }
}

/// Reads what the running check printed.
pub fn is_app_running(run: &Result<ScriptOutput, AppLaunchError>) -> (r: Result<bool, AppLaunchError>)
    ensures
        match r {
            Ok(b) => running_result(*run) == Ok::<bool, Seq<char>>(b),
            Err(e) => running_result(*run) == Err::<bool, Seq<char>>(e.message@),
        },
{
    match checked_output(run, "アプリの起動状態確認に失敗しました: ") {
        Err(m) => Err(AppLaunchError { message: m }),
        Ok(t) => {
            let yes = chars_of("true");
            Ok(chars_eq(t.as_slice(), yes.as_slice()))
        },
    }
}

/// The process id that the query printed: none when the query failed or
/// printed nothing.
pub open spec fn pid_result(run: Result<ScriptOutput, AppLaunchError>) -> Result<Option<i32>, Seq<char>> {
    match run {
        Err(e) => Err(e.message@),
        Ok(o) => if !o.success {
            Ok(None)
        } else {
            let t = trim(o.stdout@);
            if t.len() == 0 {
                Ok(None)
            } else if parse_i32(t) is Some {
                Ok(parse_i32(t))
            } else {
                Err("プロセスIDのパースに失敗しました: "@ + t)
            }
        },
    }
}

/// Reads what the process id query printed.
pub fn get_app_process_id(run: &Result<ScriptOutput, AppLaunchError>) -> (r: Result<Option<i32>, AppLaunchError>)
    ensures
        match r {
            Ok(p) => pid_result(*run) == Ok::<Option<i32>, Seq<char>>(p),
            Err(e) => pid_result(*run) == Err::<Option<i32>, Seq<char>>(e.message@),
        },
{
    match run {
        Err(e) => Err(AppLaunchError { message: e.message.clone() }),
        Ok(o) => {
            if !o.success {
                return Ok(None);
            }
            let cs = chars_of(o.stdout.as_str());
            let t = trim_chars(cs.as_slice());
            if t.len() == 0 {
                return Ok(None);
            }
            match parse_i32_chars(t.as_slice()) {
                Some(p) => Ok(Some(p)),
                None => {
                    let ts = string_from_chars(t.as_slice());
                    Err(AppLaunchError { message: concat2("プロセスIDのパースに失敗しました: ", ts.as_str()) })
                },
            }
        },
    }
}

/// Whether a script whose output does not matter succeeded.
pub open spec fn plain_result(run: Result<ScriptOutput, AppLaunchError>, failure: Seq<char>) -> Result<(), Seq<char>> {
    match run_text(run, failure) {
        Err(m) => Err(m),
        Ok(_) => Ok(()),
    }
}

fn plain_outcome(run: &Result<ScriptOutput, AppLaunchError>, failure: &str) -> (r: Result<(), AppLaunchError>)
    ensures
        match r {
            Ok(()) => plain_result(*run, failure@) is Ok,
            Err(e) => plain_result(*run, failure@) == Err::<(), Seq<char>>(e.message@),
        },
{
    match checked_output(run, failure) {
        Err(m) => Err(AppLaunchError { message: m }),
        Ok(_) => Ok(()),
    }
}

/// Reads what the launch script printed.
pub fn launch_app(run: &Result<ScriptOutput, AppLaunchError>) -> (r: Result<(), AppLaunchError>)
    ensures
        match r {
            Ok(()) => plain_result(*run, "アプリの起動に失敗しました: "@) is Ok,
            Err(e) => plain_result(*run, "アプリの起動に失敗しました: "@) == Err::<(), Seq<char>>(e.message@),
        },
{
    plain_outcome(run, "アプリの起動に失敗しました: ")
}

/// Reads what the activate script printed.
pub fn activate_app(run: &Result<ScriptOutput, AppLaunchError>) -> (r: Result<(), AppLaunchError>)
    ensures
        match r {
            Ok(()) => plain_result(*run, "アプリの活性化に失敗しました: "@) is Ok,
            Err(e) => plain_result(*run, "アプリの活性化に失敗しました: "@) == Err::<(), Seq<char>>(e.message@),
        },
{
    plain_outcome(run, "アプリの活性化に失敗しました: ")
}

/// Where launching or activating an application stands.
#[derive(Debug)]
pub enum LaunchStage {
    /// Waiting for the running check.
    CheckRunning,
    /// Waiting for the activate script of an application that ran already.
    Activating,
    /// Waiting for the launch script.
    Launching,
    /// Waiting for the launched application to come up.
    Waiting,
    /// Waiting for the process id query.
    ReadingPid { already_running: bool },
    /// Done.
    Finished,
}

/// What the caller does next for a launch.
#[derive(Debug)]
pub enum LaunchAction {
    /// Run this AppleScript and report the output.
    Run(String),
    /// Sleep this many milliseconds and report it.
    Sleep(u64),
    /// The launch is over with this result.
    Done(Result<AppLaunchResult, AppLaunchError>),
}

/// What happened to the last action.
#[derive(Debug)]
pub enum LaunchEvent {
    Ran(Result<ScriptOutput, AppLaunchError>),
    Slept,
}

/// Launching or activating one application, one script at a time.
#[derive(Debug)]
pub struct AppLauncher {
    pub app_name: String,
    pub timeout_ms: u64,
    pub stage: LaunchStage,
}

/// The message of a successful launch.
pub open spec fn launch_message(app: Seq<char>, already_running: bool) -> Seq<char> {
    if already_running {
        "アプリケーション '"@ + app + "' は既に起動しています"@
    } else {
        "アプリケーション '"@ + app + "' を起動しました"@
    }
}

/// Whether a launch result is the success for `app`.
pub open spec fn launch_success(r: AppLaunchResult, app: Seq<char>, pid: Option<i32>, already_running: bool) -> bool {
    &&& r.status@ == "success"@
    &&& r.message@ == launch_message(app, already_running)
    &&& r.process_id == pid
    &&& r.was_already_running == already_running
}

/// One step of a launch: how `new` and `action` follow from `old` and `event`.
pub open spec fn launch_transition(old: AppLauncher, event: LaunchEvent, new: AppLauncher, action: LaunchAction) -> bool {
    &&& new.app_name == old.app_name
    &&& new.timeout_ms == old.timeout_ms
    &&& match (old.stage, event) {
        (LaunchStage::CheckRunning, LaunchEvent::Ran(run)) => match running_result(run) {
            Err(m) => (new.stage is Finished && (action matches LaunchAction::Done(Err(e)) && e.message@ == m)),
            Ok(true) => (new.stage is Activating && (action matches LaunchAction::Run(s)
                && s@ == app_script(ACTIVATE_HEAD@, old.app_name@, ACTIVATE_TAIL@))),
            Ok(false) => (new.stage is Launching && (action matches LaunchAction::Run(s)
                && s@ == app_script(LAUNCH_HEAD@, old.app_name@, LAUNCH_TAIL@))),
        },
        (LaunchStage::Activating, LaunchEvent::Ran(run)) => match plain_result(run, "アプリの活性化に失敗しました: "@) {
            Err(m) => (new.stage is Finished && (action matches LaunchAction::Done(Err(e)) && e.message@ == m)),
            Ok(()) => (new.stage == (LaunchStage::ReadingPid { already_running: true }) && (action matches LaunchAction::Run(s)
                && s@ == app_script(PROCESS_ID_HEAD@, old.app_name@, PROCESS_ID_TAIL@))),
        },
        (LaunchStage::Launching, LaunchEvent::Ran(run)) => match plain_result(run, "アプリの起動に失敗しました: "@) {
            Err(m) => (new.stage is Finished && (action matches LaunchAction::Done(Err(e)) && e.message@ == m)),
            Ok(()) => (new.stage is Waiting && action == LaunchAction::Sleep(old.timeout_ms)),
        },
        (LaunchStage::Waiting, LaunchEvent::Slept) => (new.stage == (LaunchStage::ReadingPid { already_running: false })
            && (action matches LaunchAction::Run(s) && s@ == app_script(PROCESS_ID_HEAD@, old.app_name@, PROCESS_ID_TAIL@))),
        (LaunchStage::ReadingPid { already_running }, LaunchEvent::Ran(run)) => (new.stage is Finished && match pid_result(run) {
            Err(m) => (action matches LaunchAction::Done(Err(e)) && e.message@ == m),
            Ok(pid) => (action matches LaunchAction::Done(Ok(res)) && launch_success(res, old.app_name@, pid, already_running)),
        }),
        _ => false,
    }
}

impl AppLauncher {
    /// Whether `event` answers the action of the current stage.
    pub open spec fn expects(&self, event: LaunchEvent) -> bool {
        match self.stage {
            LaunchStage::Waiting => event is Slept,
            LaunchStage::Finished => false,
            _ => event is Ran,
        }
    }

    /// Takes in what happened to the last action and says what to do next.
    pub fn step(&mut self, event: LaunchEvent) -> (action: LaunchAction)
        requires
            old(self).expects(event),
        ensures
            launch_transition(*old(self), event, *final(self), action),
    {
        match (&self.stage, event) {
            (LaunchStage::CheckRunning, LaunchEvent::Ran(run)) => match is_app_running(&run) {
                Err(e) => {
                    self.stage = LaunchStage::Finished;
                    LaunchAction::Done(Err(e))
                },
                Ok(true) => {
                    self.stage = LaunchStage::Activating;
                    LaunchAction::Run(activate_app_script(self.app_name.as_str()))
                },
                Ok(false) => {
                    self.stage = LaunchStage::Launching;
                    LaunchAction::Run(launch_app_script(self.app_name.as_str()))
                },
            },
            (LaunchStage::Activating, LaunchEvent::Ran(run)) => match activate_app(&run) {
                Err(e) => {
                    self.stage = LaunchStage::Finished;
                    LaunchAction::Done(Err(e))
                },
                Ok(()) => {
                    self.stage = LaunchStage::ReadingPid { already_running: true };
                    LaunchAction::Run(get_app_process_id_script(self.app_name.as_str()))
                },
            },
            (LaunchStage::Launching, LaunchEvent::Ran(run)) => match launch_app(&run) {
                Err(e) => {
                    self.stage = LaunchStage::Finished;
                    LaunchAction::Done(Err(e))
                },
                Ok(()) => {
                    self.stage = LaunchStage::Waiting;
                    LaunchAction::Sleep(self.timeout_ms)
                },
            },
            (LaunchStage::Waiting, LaunchEvent::Slept) => {
                self.stage = LaunchStage::ReadingPid { already_running: false };
                LaunchAction::Run(get_app_process_id_script(self.app_name.as_str()))
            },
            (LaunchStage::ReadingPid { already_running }, LaunchEvent::Ran(run)) => {
                let already = *already_running;
                self.stage = LaunchStage::Finished;
                match get_app_process_id(&run) {
                    Err(e) => LaunchAction::Done(Err(e)),
                    Ok(process_id) => {
                        let message = if already {
                            concat3("アプリケーション '", self.app_name.as_str(), "' は既に起動しています")
                        } else {
                            concat3("アプリケーション '", self.app_name.as_str(), "' を起動しました")
                        };
                        LaunchAction::Done(Ok(AppLaunchResult {
                            status: to_owned_string("success"),
                            message,
                            process_id,
                            was_already_running: already,
                        }))
                    },
                }
            },
            _ => {
                proof {
                    assert(false);
                }
                LaunchAction::Sleep(0)
            },
        }
    }
}

/// Starts launching or activating `app_name`: first ask whether it runs.
/// An application that runs already is activated; one that does not is
/// launched and given `timeout_ms` milliseconds to come up; then its process
/// id is read.
pub fn launch_or_activate_app(app_name: &str, timeout_ms: u64) -> (r: (AppLauncher, LaunchAction))
    ensures
        r.0.app_name@ == app_name@,
        r.0.timeout_ms == timeout_ms,
        r.0.stage is CheckRunning,
        r.1 matches LaunchAction::Run(s) && s@ == app_script(IS_RUNNING_HEAD@, app_name@, IS_RUNNING_TAIL@),
{
    let launcher = AppLauncher {
        app_name: to_owned_string(app_name),
        timeout_ms,
        stage: LaunchStage::CheckRunning,
    };
    let action = LaunchAction::Run(is_app_running_script(app_name));
    (launcher, action)
}

/// The query for the running applications with a user interface.
pub fn get_running_applications_script() -> (r: &'static str)
    ensures
        r@ == RUNNING_APPS_SCRIPT@,
{
    RUNNING_APPS_SCRIPT
}

/// One entry `name|pid` (or `name|`) of the application list: the name is
/// everything before the last `|`; a pid that does not parse is left out.
/// Blank entries and entries without `|` give nothing.
pub open spec fn app_entry(e: Seq<char>) -> Option<(Seq<char>, Option<i32>)> {
    let t = trim(e);
    if t.len() == 0 {
        None
    } else {
        match last_index_of(t, '|') {
            None => None,
            Some(p) => {
                let pid_text = t.skip(p + 1);
                Some((t.take(p), if pid_text.len() == 0 { None } else { parse_i32(pid_text) }))
            },
        }
    }
}

/// The applications of a list of entries, in order.
pub open spec fn app_entries(es: Seq<Seq<char>>) -> Seq<(Seq<char>, Option<i32>)>
    decreases es.len(),
{
    if es.len() == 0 {
        Seq::empty()
    } else {
        match app_entry(es.last()) {
            Some(a) => app_entries(es.drop_last()).push(a),
            None => app_entries(es.drop_last()),
        }
    }
}

/// The applications that the list query printed, entries separated by commas.
pub open spec fn running_apps(out: Seq<char>) -> Seq<(Seq<char>, Option<i32>)> {
    app_entries(split(out, ','))
}

pub open spec fn app_view(a: AppInfo) -> (Seq<char>, Option<i32>) {
    (a.name@, a.process_id)
}

pub open spec fn app_views(v: Seq<AppInfo>) -> Seq<(Seq<char>, Option<i32>)> {
    v.map_values(|a: AppInfo| app_view(a))
}

fn app_from_entry(e: &[char]) -> (r: Option<AppInfo>)
    ensures
        match r {
            Some(a) => app_entry(e@) == Some(app_view(a)),
            None => app_entry(e@).is_none(),
        },
{
    let t = trim_chars(e);
    if t.len() == 0 {
        return None;
    }
    match chars_rfind(t.as_slice(), '|') {
        None => None,
        Some(p) => {
            let mut name_chars: Vec<char> = Vec::new();
            let mut i: usize = 0;
            while i < p
                invariant
                    p < t@.len(),
                    i <= p,
                    name_chars@ == t@.take(i as int),
                decreases p - i,
            {
                name_chars.push(t[i]);
                i = i + 1;
                assert(name_chars@ =~= t@.take(i as int));
            }
            let mut pid_chars: Vec<char> = Vec::new();
            let mut j: usize = p + 1;
            while j < t.len()
                invariant
                    p < t@.len(),
                    p + 1 <= j <= t@.len(),
                    pid_chars@ == t@.subrange(p + 1, j as int),
                decreases t@.len() - j,
            {
                pid_chars.push(t[j]);
                j = j + 1;
                assert(pid_chars@ =~= t@.subrange(p + 1, j as int));
            }
            assert(pid_chars@ =~= t@.skip(p + 1));
            let process_id = if pid_chars.len() == 0 {
                None
            } else {
                parse_i32_chars(pid_chars.as_slice())
            };
            Some(AppInfo { name: string_from_chars(name_chars.as_slice()), process_id })
        },
    }
}

/// The applications that the list query reports, or the failure message.
/// An empty list is a failure.
pub open spec fn running_list(run: Result<ScriptOutput, AppLaunchError>) -> Result<Seq<(Seq<char>, Option<i32>)>, Seq<char>> {
    match run {
        Err(e) => Err(e.message@),
        Ok(o) => if !o.success {
            Err("実行中アプリケーション一覧の取得に失敗しました: "@ + o.stderr@)
        } else if running_apps(o.stdout@).len() == 0 {
            Err("実行中のアプリケーションが見つかりません"@)
        } else {
            Ok(running_apps(o.stdout@))
        },
    }
}

/// Reads the application list that the list query printed.
pub fn get_running_applications(run: &Result<ScriptOutput, AppLaunchError>) -> (r: Result<Vec<AppInfo>, RunningAppsError>)
    ensures
        match running_list(*run) {
            Ok(l) => r matches Ok(apps) && app_views(apps@) == l,
            Err(m) => r matches Err(e) && e.message@ == m,
        },
{
    let o = match run {
        Err(e) => {
            return Err(RunningAppsError { message: e.message.clone() });
        },
        Ok(o) => o,
    };
    if !o.success {
        return Err(RunningAppsError { message: concat2("実行中アプリケーション一覧の取得に失敗しました: ", o.stderr.as_str()) });
    }
    let cs = chars_of(o.stdout.as_str());
    let entries = split_chars(cs.as_slice(), ',');
    let ghost es = views(entries@);
    let mut apps: Vec<AppInfo> = Vec::new();
    let mut i: usize = 0;
    assert(es.take(0) =~= Seq::<Seq<char>>::empty());
    assert(app_views(apps@) =~= Seq::empty());
    while i < entries.len()
        invariant
            es == views(entries@),
            es == split(o.stdout@, ','),
            i <= entries@.len(),
            app_views(apps@) == app_entries(es.take(i as int)),
        decreases entries@.len() - i,
    {
        assert(es.take(i + 1).drop_last() =~= es.take(i as int));
        assert(es[i as int] == entries@[i as int]@);
        let ghost before = apps@;
        match app_from_entry(entries[i].as_slice()) {
            Some(a) => {
                apps.push(a);
                assert(app_views(apps@) =~= app_views(before).push(app_view(a)));
            },
            None => {},
        }
        i = i + 1;
    }
    assert(es.take(es.len() as int) =~= es);
    if apps.len() == 0 {
        return Err(RunningAppsError { message: to_owned_string("実行中のアプリケーションが見つかりません") });
    }
    Ok(apps)
}

} // verus!
