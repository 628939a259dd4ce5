//! The launcher window's state and what each event does to it: messages
//! from the background proxy jobs, button presses, and the event log.
//!
//! The time of day that stamps the log is read by the caller (the local
//! clock of the system) and handed in as `now`.

use core::time::Duration;
use std::time::Instant;
use vstd::prelude::*;

use crate::clock::{duration_secs, instant_elapsed, instant_now, uptime_str, uptime_text};
use crate::lookup::CommandOutput;
use crate::proxy::{loopback, no_credential};
use crate::text::{texts, is_blank, is_blank_text, lossy_text, push_char, push_decimal, trim, trim_text, utf8_lossy};
use crate::ui::{
    Rgba, ACCENT, ACCENT_BG, ACCENT_DIM, ACCENT_LINE, ACCENT_TEXT, CARD, ERR, ERR_TEXT, LINE, TEXT_2,
    TEXT_DIM, WARN, WARN_BG, WARN_ICON, WARN_LINE,
};

verus! {

/// Severity of a log entry.
#[derive(Clone, Copy, PartialEq, Eq, Structural, Debug)]
pub enum LogLevel {
    Info,
    Success,
    Warn,
    Error,
}

impl LogLevel {
    /// Text colour of entries of this level.
    pub fn color(self) -> (r: Rgba)
        ensures
            r == match self {
                LogLevel::Info => TEXT_2,
                LogLevel::Success => ACCENT_TEXT,
                LogLevel::Warn => WARN,
                LogLevel::Error => ERR_TEXT,
            },
    {
        match self {
            LogLevel::Info => TEXT_2,
            LogLevel::Success => ACCENT_TEXT,
            LogLevel::Warn => WARN,
            LogLevel::Error => ERR_TEXT,
        }
    }
}

/// One line of the event log.
#[derive(Debug)]
pub struct LogEntry {
    pub time: String,
    pub msg: String,
    pub level: LogLevel,
}

/// The proxy as the window sees it; it decides the status card and which
/// buttons are active.
#[derive(Clone, Copy, PartialEq, Eq, Structural, Debug)]
pub enum Status {
    Running,
    Starting,
    Stopped,
}

/// Messages from the background jobs to the window.
#[derive(Debug)]
pub enum ProxyMsg {
    Started(u16),
    AlreadyRunning(u16),
    Stopped,
    Failed(String),
    Log(String),
    /// Result of the one probe of the port when the window opens.
    Probe(bool),
}

/// State of the launcher window.
#[derive(Debug)]
pub struct App {
    pub model: String,
    pub cred_path: String,
    pub cred_warning: Option<String>,
    pub log: Vec<LogEntry>,
    pub proxy_running: bool,
    pub busy: bool,
    pub port: u16,
    /// When the proxy came up, for the uptime in the status card.
    pub proxy_since: Option<Instant>,
    /// Time of the last probe of the port, shown while the proxy is down.
    pub last_probe: Option<String>,
    /// The model to launch Codex with once the proxy that is being started
    /// answers.
    pub pending_launch: Option<String>,
}

/// `new` is `old` with one more entry, of text `msg` and level `level`,
/// stamped with the time of day `now`.
pub open spec fn logged(old: Seq<LogEntry>, new: Seq<LogEntry>, msg: Seq<char>, level: LogLevel, now: Seq<char>) -> bool {
    &&& new.len() == old.len() + 1
    &&& forall|i: int| 0 <= i < old.len() ==> new[i] == old[i]
    &&& new.last().msg@ == msg
    &&& new.last().level == level
    &&& new.last().time@ == now
}

/// `new` is `old` with two more entries, both stamped `now`.
pub open spec fn logged2(
    old: Seq<LogEntry>,
    new: Seq<LogEntry>,
    msg1: Seq<char>,
    level1: LogLevel,
    msg2: Seq<char>,
    level2: LogLevel,
    now: Seq<char>,
) -> bool {
    &&& new.len() == old.len() + 2
    &&& logged(old, new.drop_last(), msg1, level1, now)
    &&& logged(new.drop_last(), new, msg2, level2, now)
}

/// `old` is a prefix of `new`: the log only ever grows at its end.
pub open spec fn log_extends(old: Seq<LogEntry>, new: Seq<LogEntry>) -> bool {
    &&& old.len() <= new.len()
    &&& forall|i: int| 0 <= i < old.len() ==> new[i] == old[i]
}

/// The settings the user chose stay as they are.
pub open spec fn settings_kept(old: App, new: App) -> bool {
    &&& new.model == old.model
    &&& new.cred_path == old.cred_path
    &&& new.cred_warning == old.cred_warning
    &&& new.port == old.port
}

/// Everything but the log stays as it is.
pub open spec fn all_but_log_kept(old: App, new: App) -> bool {
    &&& settings_kept(old, new)
    &&& new.proxy_running == old.proxy_running
    &&& new.busy == old.busy
    &&& new.proxy_since == old.proxy_since
    &&& new.last_probe == old.last_probe
    &&& new.pending_launch == old.pending_launch
}

pub open spec fn status_of(a: App) -> Status {
    if a.busy {
        Status::Starting
    } else if a.proxy_running {
        Status::Running
    } else {
        Status::Stopped
    }
}

pub open spec fn msg_started(port: u16) -> Seq<char> {
    "Проксі запущено на 127.0.0.1:"@ + crate::text::decimal(port as nat)
}

pub open spec fn msg_already_running(port: u16) -> Seq<char> {
    "Проксі вже працює на 127.0.0.1:"@ + crate::text::decimal(port as nat)
}

pub open spec fn msg_not_answering(port: u16) -> Seq<char> {
    "Проксі 127.0.0.1:"@ + crate::text::decimal(port as nat) + " не відповідає"@
}

pub open spec fn msg_launching(model: Seq<char>) -> Seq<char> {
    "Запускаю Codex з моделлю "@ + model + "…"@
}

/// The proxy answered after a start (`first` says how): the window shows
/// it running, and a launch of Codex that waited for it is asked for now,
/// with its model, and logged.
pub open spec fn reported_up(old: App, new: App, first: Seq<char>, now: Seq<char>, r: Option<String>) -> bool {
    &&& new.proxy_running && !new.busy
    &&& new.proxy_since is Some
    &&& new.last_probe == old.last_probe
    &&& new.pending_launch is None
    &&& r == old.pending_launch
    &&& match old.pending_launch {
        None => logged(old.log@, new.log@, first, LogLevel::Success, now),
        Some(m) => logged2(
            old.log@,
            new.log@,
            first,
            LogLevel::Success,
            msg_launching(m@),
            LogLevel::Info,
            now,
        ),
    }
}

/// What a message from a background job does to the window, at time of day
/// `now`; `r` is the model Codex is now to be launched with, if any.
pub open spec fn handled(old: App, msg: ProxyMsg, now: Seq<char>, new: App, r: Option<String>) -> bool {
    &&& settings_kept(old, new)
    &&& match msg {
        ProxyMsg::Started(p) => reported_up(old, new, msg_started(p), now, r),
        ProxyMsg::AlreadyRunning(p) => {
            &&& reported_up(old, new, msg_already_running(p), now, r)
            &&& old.proxy_since is Some ==> new.proxy_since == old.proxy_since
        },
        ProxyMsg::Stopped => {
            &&& !new.proxy_running && !new.busy
            &&& new.proxy_since is None
            &&& new.last_probe matches Some(t) && t@ == now
            &&& new.pending_launch is None && r is None
            &&& logged(old.log@, new.log@, "Проксі зупинено"@, LogLevel::Info, now)
        },
        ProxyMsg::Failed(e) => {
            &&& new.proxy_running == old.proxy_running && !new.busy
            &&& new.proxy_since == old.proxy_since
            &&& new.last_probe == old.last_probe
            &&& new.pending_launch is None && r is None
            &&& logged(old.log@, new.log@, "Помилка: "@ + e@, LogLevel::Error, now)
        },
        ProxyMsg::Log(m) => {
            &&& new.proxy_running == old.proxy_running && !new.busy
            &&& new.proxy_since == old.proxy_since
            &&& new.last_probe == old.last_probe
            &&& new.pending_launch is None && r is None
            &&& logged(old.log@, new.log@, m@, LogLevel::Info, now)
        },
        ProxyMsg::Probe(alive) => {
            &&& new.busy == old.busy
            &&& new.pending_launch == old.pending_launch && r is None
            &&& new.last_probe matches Some(t) && t@ == now
            &&& if alive && !old.proxy_running {
                &&& new.proxy_running
                &&& new.proxy_since is Some
                &&& logged(old.log@, new.log@, msg_already_running(old.port), LogLevel::Success, now)
            } else if !alive {
                &&& new.proxy_running == old.proxy_running
                &&& new.proxy_since == old.proxy_since
                &&& logged(old.log@, new.log@, msg_not_answering(old.port), LogLevel::Warn, now)
            } else {
                &&& new.proxy_running == old.proxy_running
                &&& new.proxy_since == old.proxy_since
                &&& new.log@ == old.log@
            }
        },
    }
}

fn loopback_text(prefix: &str, port: u16) -> (r: String)
    ensures
        r@ == prefix@ + crate::text::decimal(port as nat),
{
    let mut s = String::from_str(prefix);
    push_decimal(&mut s, port as u64);
    s
}

fn launching_text(model: &str) -> (r: String)
    ensures
        r@ == msg_launching(model@),
{
    let mut m = String::from_str("Запускаю Codex з моделлю ");
    m.append(model);
    m.append("…");
    m
}

impl App {
    /// What the status card shows.
    pub fn status(&self) -> (r: Status)
        ensures
            r == status_of(*self),
    {
        if self.busy {
            Status::Starting
        } else if self.proxy_running {
            Status::Running
        } else {
            Status::Stopped
        }
    }

    /// Appends an entry to the log, stamped with the time of day `now`.
    pub fn add_log(&mut self, msg: &str, level: LogLevel, now: &str)
        ensures
            logged(old(self).log@, final(self).log@, msg@, level, now@),
            all_but_log_kept(*old(self), *final(self)),
    {
        self.log.push(LogEntry { time: String::from_str(now), msg: String::from_str(msg), level });
    }

    /// The proxy answered after a start; `first` is the entry that says so.
    /// Returns the model of a launch that waited for it.
    fn proxy_up(&mut self, first: &str, now: &str) -> (r: Option<String>)
        requires
            old(self).proxy_since is Some,
        ensures
            final(self).proxy_running && !final(self).busy,
            final(self).proxy_since == old(self).proxy_since,
            final(self).last_probe == old(self).last_probe,
            final(self).pending_launch is None,
            r == old(self).pending_launch,
            settings_kept(*old(self), *final(self)),
            match old(self).pending_launch {
                None => logged(old(self).log@, final(self).log@, first@, LogLevel::Success, now@),
                Some(m) => logged2(
                    old(self).log@,
                    final(self).log@,
                    first@,
                    LogLevel::Success,
                    msg_launching(m@),
                    LogLevel::Info,
                    now@,
                ),
            },
    {
        self.proxy_running = true;
        self.busy = false;
        self.add_log(first, LogLevel::Success, now);
        let ghost mid = self.log@;
        let pending = match &self.pending_launch {
            Some(m) => Some(m.clone()),
            None => None,
        };
        self.pending_launch = None;
        if let Some(m) = &pending {
            let t = launching_text(m.as_str());
            self.add_log(t.as_str(), LogLevel::Info, now);
            assert(self.log@.drop_last() =~= mid);
        }
        pending
    }

    /// Takes in one message from a background job, at time of day `now`.
    /// Returns the model Codex is now to be launched with: that of a launch
    /// that waited for the proxy to come up.
    pub fn handle_msg(&mut self, msg: &ProxyMsg, now: &str) -> (r: Option<String>)
        ensures
            handled(*old(self), *msg, now@, *final(self), r),
    {
        match msg {
            ProxyMsg::Started(port) => {
                self.proxy_since = Some(instant_now());
                let m = loopback_text("Проксі запущено на 127.0.0.1:", *port);
                self.proxy_up(m.as_str(), now)
            },
            ProxyMsg::AlreadyRunning(port) => {
                if self.proxy_since.is_none() {
                    self.proxy_since = Some(instant_now());
                }
                let m = loopback_text("Проксі вже працює на 127.0.0.1:", *port);
                self.proxy_up(m.as_str(), now)
            },
            ProxyMsg::Stopped => {
                self.proxy_running = false;
                self.busy = false;
                self.proxy_since = None;
                self.pending_launch = None;
                self.last_probe = Some(String::from_str(now));
                self.add_log("Проксі зупинено", LogLevel::Info, now);
                None
            },
            ProxyMsg::Failed(e) => {
                self.busy = false;
                self.pending_launch = None;
                let mut m = String::from_str("Помилка: ");
                m.append(e.as_str());
                self.add_log(m.as_str(), LogLevel::Error, now);
                None
            },
            ProxyMsg::Log(m) => {
                self.busy = false;
                self.pending_launch = None;
                self.add_log(m.as_str(), LogLevel::Info, now);
                None
            },
            ProxyMsg::Probe(alive) => {
                self.last_probe = Some(String::from_str(now));
                if *alive && !self.proxy_running {
                    self.proxy_running = true;
                    self.proxy_since = Some(instant_now());
                    let m = loopback_text("Проксі вже працює на 127.0.0.1:", self.port);
                    self.add_log(m.as_str(), LogLevel::Success, now);
                } else if !*alive {
                    let mut m = loopback_text("Проксі 127.0.0.1:", self.port);
                    m.append(" не відповідає");
                    self.add_log(m.as_str(), LogLevel::Warn, now);
                }
                None
            },
        }
    }
}

/// `states` runs through the messages `msgs`, all taken in at time of day
/// `now`: each state is the one before it after one message, and
/// `results[i]` is what taking in `msgs[i]` asked to launch.
pub open spec fn runs_through(
    states: Seq<App>,
    msgs: Seq<ProxyMsg>,
    now: Seq<char>,
    results: Seq<Option<String>>,
) -> bool {
    &&& states.len() == msgs.len() + 1
    &&& results.len() == msgs.len()
    &&& forall|i: int| #![trigger msgs[i]] 0 <= i < msgs.len() ==> handled(states[i], msgs[i], now, states[i + 1], results[i])
}

/// `new` is `old` after each message of `msgs`, taken in order at time of
/// day `now`, with `results` what each asked to launch.
pub open spec fn handled_all(old: App, msgs: Seq<ProxyMsg>, now: Seq<char>, new: App, results: Seq<Option<String>>) -> bool {
    exists|states: Seq<App>| #[trigger] runs_through(states, msgs, now, results) && states[0] == old && states.last() == new
}

/// What a background start of the proxy needs.
#[derive(Debug)]
pub struct StartRequest {
    pub port: u16,
    pub cred: String,
}

/// What pressing "launch Codex" leads to.
#[derive(Debug)]
pub enum LaunchStep {
    /// A job is under way; nothing happens.
    Busy,
    /// The proxy is down: it is started first, and Codex is launched when
    /// the start answers that the proxy is up (see `handle_msg`).
    StartProxy(StartRequest),
    /// Launch Codex with this model, then report with `codex_launched`.
    Launch(String),
}

/// "Start proxy" pressed in `old` at time of day `now`: refused while a job
/// is under way; otherwise the window turns busy, logs it, and asks for a
/// start with its port and credential path.
pub open spec fn start_pressed(old: App, now: Seq<char>, new: App, r: Option<StartRequest>) -> bool {
    if old.busy {
        r is None && new == old
    } else {
        &&& r matches Some(req) && req.port == old.port && req.cred@ == old.cred_path@
        &&& new.busy
        &&& settings_kept(old, new)
        &&& new.proxy_running == old.proxy_running
        &&& new.proxy_since == old.proxy_since
        &&& new.last_probe == old.last_probe
        &&& new.pending_launch == old.pending_launch
        &&& logged(old.log@, new.log@, "Запускаю проксі…"@, LogLevel::Info, now)
    }
}

/// "Stop proxy" pressed in `old` at time of day `now`: refused while a job
/// is under way; otherwise the window turns busy, logs it, and asks for a
/// stop.
pub open spec fn stop_pressed(old: App, now: Seq<char>, new: App, r: bool) -> bool {
    if old.busy {
        !r && new == old
    } else {
        &&& r
        &&& new.busy
        &&& settings_kept(old, new)
        &&& new.proxy_running == old.proxy_running
        &&& new.proxy_since == old.proxy_since
        &&& new.last_probe == old.last_probe
        &&& new.pending_launch == old.pending_launch
        &&& logged(old.log@, new.log@, "Зупиняю проксі…"@, LogLevel::Info, now)
    }
}

/// "Launch Codex" pressed in `old` at time of day `now`, the proxy
/// answering or not. A proxy that does not answer is started first, and
/// the chosen model waits for it.
pub open spec fn launch_pressed(old: App, listening: bool, now: Seq<char>, new: App, r: LaunchStep) -> bool {
    if old.busy {
        r is Busy && new == old
    } else if !listening {
        &&& r matches LaunchStep::StartProxy(req) && req.port == old.port && req.cred@ == old.cred_path@
        &&& new.busy && !new.proxy_running
        &&& new.proxy_since is None
        &&& new.pending_launch matches Some(m) && m@ == old.model@
        &&& settings_kept(old, new)
        &&& new.last_probe == old.last_probe
        &&& logged2(
            old.log@,
            new.log@,
            "Проксі не працює — запускаю спочатку"@,
            LogLevel::Warn,
            "Запускаю проксі…"@,
            LogLevel::Info,
            now,
        )
    } else {
        &&& r matches LaunchStep::Launch(m) && m@ == old.model@
        &&& all_but_log_kept(old, new)
        &&& logged(old.log@, new.log@, msg_launching(old.model@), LogLevel::Info, now)
    }
}

impl App {
    /// Takes in every message that arrived from the background jobs, in the
    /// order they arrived, at time of day `now`. Returns, for each message,
    /// the model Codex is now to be launched with, if any.
    pub fn poll_log(&mut self, msgs: &Vec<ProxyMsg>, now: &str) -> (r: Vec<Option<String>>)
        ensures
            handled_all(*old(self), msgs@, now@, *final(self), r@),
    {
        let ghost start = *self;
        let ghost mut states: Seq<App> = seq![*self];
        let mut results: Vec<Option<String>> = Vec::new();
        let mut i: usize = 0;
        while i < msgs.len()
            invariant
                i <= msgs@.len(),
                runs_through(states, msgs@.take(i as int), now@, results@),
                states[0] == start,
                states.last() == *self,
            decreases msgs@.len() - i,
        {
            let ghost before = *self;
            let ghost prev_results = results@;
            let res = self.handle_msg(&msgs[i], now);
            results.push(res);
            proof {
                let t = msgs@.take(i + 1);
                let prev = states;
                states = states.push(*self);
                assert forall|j: int| #![trigger t[j]] 0 <= j < t.len() implies handled(
                    states[j],
                    t[j],
                    now@,
                    states[j + 1],
                    results@[j],
                ) by {
                    if j < i {
                        assert(t[j] == msgs@.take(i as int)[j]);
                        assert(states[j] == prev[j]);
                        assert(states[j + 1] == prev[j + 1]);
                        assert(results@[j] == prev_results[j]);
                    } else {
                        assert(t[j] == msgs@[i as int]);
                        assert(states[j] == before);
                    }
                }
            }
            i = i + 1;
        }
        assert(msgs@.take(msgs@.len() as int) =~= msgs@);
        results
    }

    /// "Start proxy": unless a job is under way, marks the window busy, logs
    /// it and asks for a background start with the port and the credential
    /// path.
    pub fn start_proxy_bg(&mut self, now: &str) -> (r: Option<StartRequest>)
        ensures
            start_pressed(*old(self), now@, *final(self), r),
    {
        if self.busy {
            return None;
        }
        self.busy = true;
        let req = StartRequest { port: self.port, cred: self.cred_path.clone() };
        self.add_log("Запускаю проксі…", LogLevel::Info, now);
        Some(req)
    }

    /// "Stop proxy": unless a job is under way, marks the window busy, logs
    /// it and asks for a background stop (`true`).
    pub fn stop_proxy(&mut self, now: &str) -> (r: bool)
        ensures
            stop_pressed(*old(self), now@, *final(self), r),
    {
        if self.busy {
            return false;
        }
        self.busy = true;
        self.add_log("Зупиняю проксі…", LogLevel::Info, now);
        true
    }

    /// "Launch Codex", given whether the proxy answers on its port. While a
    /// job is under way nothing happens. A proxy that does not answer is
    /// marked down and started first; the chosen model waits until the
    /// start answers. Otherwise Codex is to be launched with the chosen
    /// model now.
    pub fn launch_codex(&mut self, listening: bool, now: &str) -> (r: LaunchStep)
        ensures
            launch_pressed(*old(self), listening, now@, *final(self), r),
    {
        if self.busy {
            return LaunchStep::Busy;
        }
        if !listening {
            self.proxy_running = false;
            self.proxy_since = None;
            self.pending_launch = Some(self.model.clone());
            self.add_log("Проксі не працює — запускаю спочатку", LogLevel::Warn, now);
            let ghost mid = self.log@;
            let req = self.start_proxy_bg(now);
            assert(self.log@.drop_last() =~= mid);
            return match req {
                Some(req) => LaunchStep::StartProxy(req),
                None => LaunchStep::Busy,
            };
        }
        let model = self.model.clone();
        let m = launching_text(model.as_str());
        self.add_log(m.as_str(), LogLevel::Info, now);
        LaunchStep::Launch(model)
    }

    /// Logs how the launch of Codex with `model` went.
    pub fn codex_launched(&mut self, model: &str, result: &Result<(), String>, now: &str)
        ensures
            all_but_log_kept(*old(self), *final(self)),
            match result {
                Ok(_) => logged(
                    old(self).log@,
                    final(self).log@,
                    "Codex запущено (модель: "@ + model@ + ")"@,
                    LogLevel::Success,
                    now@,
                ),
                Err(e) => logged(
                    old(self).log@,
                    final(self).log@,
                    "Помилка запуску Codex: "@ + e@,
                    LogLevel::Error,
                    now@,
                ),
            },
    {
        match result {
            Ok(()) => {
                let mut m = String::from_str("Codex запущено (модель: ");
                m.append(model);
                m.append(")");
                self.add_log(m.as_str(), LogLevel::Success, now);
            },
            Err(e) => {
                let mut m = String::from_str("Помилка запуску Codex: ");
                m.append(e.as_str());
                self.add_log(m.as_str(), LogLevel::Error, now);
            },
        }
    }
}

/// The models offered in the model list, the first one chosen at start.
pub open spec fn model_names() -> Seq<Seq<char>> {
    seq!["glm-5.2"@, "gpt-5.6-sol"@, "gpt-5.6-terra"@, "gpt-5.6-luna"@, "gpt-6-astra"@]
}

/// The models offered in the model list.
pub fn models() -> (r: Vec<String>)
    ensures
        texts(r@) == model_names(),
{
    let mut v: Vec<String> = Vec::new();
    v.push(String::from_str("glm-5.2"));
    v.push(String::from_str("gpt-5.6-sol"));
    v.push(String::from_str("gpt-5.6-terra"));
    v.push(String::from_str("gpt-5.6-luna"));
    v.push(String::from_str("gpt-6-astra"));
    assert(texts(v@) =~= model_names());
    v
}

/// The warning shown beside the credential field: there is one exactly when
/// no credential file was found, and it says so.
pub fn credential_warning(cred: &Option<String>) -> (r: Option<String>)
    ensures
        cred is Some ==> r is None,
        cred is None ==> (r matches Some(w) && w@ == no_credential()),
{
    match cred {
        Some(_) => None,
        None => Some(String::from_str("Credential-файл не знайдено (~/.umod/*.env)")),
    }
}

/// A nonempty run of characters that stands in `path`.
pub open spec fn piece_of(n: Seq<char>, path: Seq<char>) -> bool {
    &&& n.len() > 0
    &&& exists|i: int, j: int| 0 <= i <= j <= path.len() && #[trigger] path.subrange(i, j) == n
}

/// A path of one plain component: not empty, not `.` or `..`, and without
/// any character that separates components or opens a drive prefix on
/// some system (`/`, `\`, `:`).
pub open spec fn one_plain_component(path: Seq<char>) -> bool {
    &&& path.len() > 0
    &&& path != "."@
    &&& path != ".."@
    &&& !path.contains('/')
    &&& !path.contains('\\')
    &&& !path.contains(':')
}

/// What holds of the file name std's `Path::file_name` finds in `path`, on
/// every system: a name, where there is one, is a nonempty run of the
/// path's own characters, and a path of one plain component is its own
/// name.
pub open spec fn file_name_outcome(path: Seq<char>, name: Option<String>) -> bool {
    &&& name matches Some(n) ==> piece_of(n@, path)
    &&& one_plain_component(path) ==> (name matches Some(n) && n@ == path)
}

/// The log the window opens with, all stamped `now`: a greeting; then
/// "Credential: " and the credential file's name, exactly when there is a
/// name; then the warning, exactly when there is one.
pub open spec fn opening_log(log: Seq<LogEntry>, file_name: Option<String>, warning: Option<String>, now: Seq<char>) -> bool {
    let k: int = if file_name is Some { 1 } else { 0 };
    &&& log.len() == 1 + k + (if warning is Some { 1int } else { 0int })
    &&& log[0].msg@ == "UMOD Codex GUI готовий"@ && log[0].level == LogLevel::Info
    &&& file_name matches Some(n) ==> log[1].msg@ == "Credential: "@ + n@ && log[1].level == LogLevel::Info
    &&& warning matches Some(m) ==> log[1 + k].msg@ == m@ && log[1 + k].level == LogLevel::Warn
    &&& forall|i: int| 0 <= i < log.len() ==> (#[trigger] log[i].time@) == now
}

/// The last component of `path`, as std's `Path::file_name` gives it: the
/// name of the file or directory the path ends in; none where the path ends
/// in `..` or has no component. Which characters separate components
/// depends on the system (`/`, and on Windows also `\` and drive and
/// network prefixes), so the result gets no name: the contract says what
/// holds on every system (`file_name_outcome`), and leaves unsaid which
/// run of the path a name is when the path has several components.
/// `r` is the window as it opens, at time of day `now`, for the credential
/// file `cred` with file name `file_name`.
pub open spec fn opened(r: App, cred: Option<String>, file_name: Option<String>, port: u16, now: Seq<char>) -> bool {
    &&& r.model@ == model_names()[0]
    &&& cred matches Some(c) ==> r.cred_path@ == c@
    &&& cred is None ==> r.cred_path@.len() == 0
    &&& cred is Some ==> r.cred_warning is None
    &&& cred is None ==> (r.cred_warning matches Some(w) && w@ == no_credential())
    &&& opening_log(r.log@, file_name, r.cred_warning, now)
    &&& !r.proxy_running && !r.busy
    &&& r.port == port
    &&& r.proxy_since is None
    &&& r.last_probe is None
    &&& r.pending_launch is None
}

#[verifier::external_body]
fn path_file_name(path: &str) -> (r: Option<String>)
    ensures
        file_name_outcome(path@, r),
{
    match std::path::Path::new(path).file_name() {
        Some(n) => Some(n.to_string_lossy().into_owned()),
        None => None,
    }
}

/// The log as text: each entry as `time message`, one per line.
pub open spec fn log_text(es: Seq<LogEntry>) -> Seq<char>
    decreases es.len(),
{
    if es.len() == 0 {
        seq![]
    } else if es.len() == 1 {
        es[0].time@ + seq![' '] + es[0].msg@
    } else {
        log_text(es.drop_last()) + seq!['\n'] + es.last().time@ + seq![' '] + es.last().msg@
    }
}

/// Which buttons can be pressed.
#[derive(Clone, Copy, PartialEq, Eq, Structural, Debug)]
pub struct ActionStates {
    pub launch: bool,
    pub start_proxy: bool,
    pub stop_proxy: bool,
}

/// What the status card shows.
#[derive(Debug)]
pub struct StatusCard {
    pub dot: Rgba,
    pub title: String,
    pub tint: Rgba,
    pub fill: Rgba,
    pub line: Rgba,
    pub sub_tint: Rgba,
    pub subtitle: String,
    /// The note on the right: uptime while running, time of the last probe
    /// while stopped.
    pub aside: Option<String>,
}

/// Which buttons can be pressed in state `a`: nothing while a job is under
/// way; launching needs a credential path; the proxy can be started while
/// down and stopped while running.
pub open spec fn actions_of(a: App) -> ActionStates {
    ActionStates {
        launch: !a.busy && !is_blank(a.cred_path@),
        start_proxy: !a.busy && !a.proxy_running,
        stop_proxy: !a.busy && a.proxy_running,
    }
}

/// How the credential row looks.
#[derive(Debug)]
pub struct CredentialLook {
    /// Outline of the path field, when it is to stand out.
    pub field_outline: Option<Rgba>,
    /// Fill and outline of the browse button.
    pub button_frame: (Rgba, Rgba),
    pub button_tint: Rgba,
    /// The note under the row, and whether it is a warning.
    pub note: String,
    pub note_is_warning: bool,
}

/// `r` is the status card of `a` when the proxy has been up for `up_for`:
/// colours and title by status, the address, and the note on the right:
/// the uptime while running, the time of the last probe while down.
pub open spec fn shows_card(a: App, up_for: Option<Duration>, r: StatusCard) -> bool {
    let s = status_of(a);
    &&& (r.dot, r.title@, r.tint, r.fill, r.line, r.sub_tint) == status_palette(s)
    &&& s is Starting ==> r.subtitle@ == loopback(a.port) + " — чекаю до 20 с"@
    &&& !(s is Starting) ==> r.subtitle@ == loopback(a.port)
    &&& s is Starting ==> r.aside is None
    &&& s is Running ==> match up_for {
        Some(d) => r.aside matches Some(n) && n@ == uptime_text(duration_secs(d) as nat),
        None => r.aside is None,
    }
    &&& s is Stopped ==> match a.last_probe {
        Some(t) => r.aside matches Some(n) && n@ == "перевірено "@ + t@,
        None => r.aside is None,
    }
}

/// Colours and title of the status card for each status.
pub open spec fn status_palette(s: Status) -> (Rgba, Seq<char>, Rgba, Rgba, Rgba, Rgba) {
    match s {
        Status::Running => (ACCENT, "ПРОКСІ ПРАЦЮЄ"@, ACCENT_TEXT, ACCENT_BG, ACCENT_LINE, ACCENT_DIM),
        Status::Starting => (WARN, "ЗАПУСКАЄТЬСЯ…"@, WARN, CARD, LINE, TEXT_DIM),
        Status::Stopped => (ERR, "ПРОКСІ НЕ ПРАЦЮЄ"@, ERR, CARD, LINE, TEXT_DIM),
    }
}

/// The path in the chosen output of the file dialog: its trimmed text when
/// the dialog succeeded and the text is not blank.
pub open spec fn dialog_choice(output: Option<CommandOutput>) -> Option<Seq<char>> {
    match output {
        Some(o) => if o.success && trim(utf8_lossy(o.stdout@)).len() > 0 {
            Some(trim(utf8_lossy(o.stdout@)))
        } else {
            None
        },
        None => None,
    }
}

/// Reads the file the user picked out of the output of the file dialog;
/// `None` when no dialog ran.
pub fn rfd_file_dialog(output: &Option<CommandOutput>) -> (r: Option<String>)
    ensures
        r matches Some(p) ==> dialog_choice(*output) == Some(p@),
        r is None <==> dialog_choice(*output) is None,
{
    match output {
        Some(o) => {
            if !o.success {
                return None;
            }
            let text = lossy_text(o.stdout.as_slice());
            let t = trim_text(text.as_str());
            if t.as_str().unicode_len() > 0 {
                Some(t)
            } else {
                None
            }
        },
        None => None,
    }
}

impl ProxyMsg {
    /// What a background start reports: the proxy already answered, it was
    /// started, or it failed with a message.
    pub fn start_outcome(port: u16, already_listening: bool, result: Result<(), String>) -> (r: ProxyMsg)
        ensures
            already_listening ==> r == ProxyMsg::AlreadyRunning(port),
            !already_listening && result is Ok ==> r == ProxyMsg::Started(port),
            !already_listening ==> (result matches Err(e) ==> r == ProxyMsg::Failed(e)),
    {
        if already_listening {
            ProxyMsg::AlreadyRunning(port)
        } else {
            match result {
                Ok(()) => ProxyMsg::Started(port),
                Err(e) => ProxyMsg::Failed(e),
            }
        }
    }

    /// What a background stop reports: `None` when no proxy had been
    /// started by the window, else how stopping it went.
    pub fn stop_outcome(result: Option<Result<(), String>>) -> (r: ProxyMsg)
        ensures
            result is None ==> (r matches ProxyMsg::Log(m) && m@ == "Проксі не було запущено"@),
            result matches Some(Ok(_)) ==> r == ProxyMsg::Stopped,
            result matches Some(Err(e)) ==> r == ProxyMsg::Failed(e),
    {
        match result {
            None => ProxyMsg::Log(String::from_str("Проксі не було запущено")),
            Some(Ok(())) => ProxyMsg::Stopped,
            Some(Err(e)) => ProxyMsg::Failed(e),
        }
    }

    /// The started proxy could not be kept for a later stop.
    pub fn handle_not_kept() -> (r: ProxyMsg)
        ensures
            r matches ProxyMsg::Failed(m) && m@ == "Не вдалося зберегти handle проксі"@,
    {
        ProxyMsg::Failed(String::from_str("Не вдалося зберегти handle проксі"))
    }

    /// The kept proxy could not be reached to stop it.
    pub fn handle_unavailable() -> (r: ProxyMsg)
        ensures
            r matches ProxyMsg::Failed(m) && m@ == "Не вдалося отримати доступ до handle"@,
    {
        ProxyMsg::Failed(String::from_str("Не вдалося отримати доступ до handle"))
    }
}

impl App {
    /// The window as it opens, at time of day `now`: the first model
    /// chosen, the credential file found (if any) in the path field and its
    /// file name (as std's `Path::file_name` gives it) in the log, the proxy
    /// taken as down until the first probe answers.
    pub fn new(cred: Option<String>, port: u16, now: &str) -> (r: App)
        ensures
            cred is None ==> opened(r, cred, None, port, now@),
            cred matches Some(c) ==> exists|n: Option<String>|
                file_name_outcome(c@, n) && #[trigger] opened(r, cred, n, port, now@),
    {
        let file_name = match &cred {
            Some(c) => path_file_name(c.as_str()),
            None => None,
        };
        App::with_file_name(cred, file_name, port, now)
    }

    /// The window as it opens, at time of day `now`, for the credential
    /// file `cred` whose file name is `file_name`: the first model chosen,
    /// the credential path in the path field, the name in the log when
    /// there is one, the proxy taken as down until the first probe answers.
    pub fn with_file_name(cred: Option<String>, file_name: Option<String>, port: u16, now: &str) -> (r: App)
        ensures
            opened(r, cred, file_name, port, now@),
    {
        let warning = credential_warning(&cred);
        let mut log: Vec<LogEntry> = Vec::new();
        log.push(LogEntry { time: String::from_str(now), msg: String::from_str("UMOD Codex GUI готовий"), level: LogLevel::Info });
        if let Some(name) = &file_name {
            let mut m = String::from_str("Credential: ");
            m.append(name.as_str());
            log.push(LogEntry { time: String::from_str(now), msg: m, level: LogLevel::Info });
        }
        if let Some(w) = &warning {
            log.push(LogEntry { time: String::from_str(now), msg: w.clone(), level: LogLevel::Warn });
        }
        let cred_path = match cred {
            Some(c) => c,
            None => String::new(),
        };
        App {
            model: String::from_str("glm-5.2"),
            cred_path,
            cred_warning: warning,
            log,
            proxy_running: false,
            busy: false,
            port,
            proxy_since: None,
            last_probe: None,
            pending_launch: None,
        }
    }

    /// The log as text for the clipboard: `time message` per entry, one per
    /// line.
    pub fn log_as_text(&self) -> (r: String)
        ensures
            r@ == log_text(self.log@),
    {
        let mut s = String::new();
        let mut i: usize = 0;
        while i < self.log.len()
            invariant
                i <= self.log@.len(),
                s@ == log_text(self.log@.take(i as int)),
            decreases self.log@.len() - i,
        {
            let ghost before = s@;
            if i > 0 {
                push_char(&mut s, '\n');
            }
            s.append(self.log[i].time.as_str());
            push_char(&mut s, ' ');
            s.append(self.log[i].msg.as_str());
            proof {
                let t = self.log@.take(i + 1);
                assert(t.drop_last() =~= self.log@.take(i as int));
                assert(t.last() == self.log@[i as int]);
                if i == 0 {
                    assert(t.len() == 1);
                    assert(s@ =~= log_text(t));
                } else {
                    assert(s@ =~= log_text(t));
                }
            }
            i = i + 1;
        }
        assert(self.log@.take(self.log@.len() as int) =~= self.log@);
        s
    }

    /// Which buttons can be pressed: nothing while a job is under way;
    /// launching needs a credential path; the proxy can be started while
    /// down and stopped while running.
    pub fn action_states(&self) -> (r: ActionStates)
        ensures
            r == actions_of(*self),
    {
        ActionStates {
            launch: !self.busy && !is_blank_text(self.cred_path.as_str()),
            start_proxy: !self.busy && !self.proxy_running,
            stop_proxy: !self.busy && self.proxy_running,
        }
    }

    /// How soon the window redraws: often while a job is under way.
    pub fn repaint_after_ms(&self) -> (r: u64)
        ensures
            r == (if self.busy { 100u64 } else { 1000u64 }),
    {
        if self.busy {
            100
        } else {
            1000
        }
    }

    /// The user picked a credential file: it is used, and the warning goes.
    pub fn choose_credential_file(&mut self, path: String)
        ensures
            final(self).cred_path == path,
            final(self).cred_warning is None,
            final(self).model == old(self).model,
            final(self).port == old(self).port,
            final(self).log == old(self).log,
            final(self).proxy_running == old(self).proxy_running,
            final(self).busy == old(self).busy,
            final(self).proxy_since == old(self).proxy_since,
            final(self).last_probe == old(self).last_probe,
            final(self).pending_launch == old(self).pending_launch,
    {
        self.cred_path = path;
        self.cred_warning = None;
    }

    /// What the status card shows for the current state; while the proxy
    /// runs, the note is its uptime, read from the clock now.
    pub fn status_card(&self) -> (r: StatusCard)
        ensures
            exists|u: Option<Duration>| #[trigger] shows_card(*self, u, r)
                && (u is Some <==> (status_of(*self) is Running && self.proxy_since is Some)),
            (r.dot, r.title@, r.tint, r.fill, r.line, r.sub_tint) == status_palette(status_of(*self)),
            status_of(*self) is Starting ==> r.subtitle@ == loopback(self.port) + " — чекаю до 20 с"@,
            !(status_of(*self) is Starting) ==> r.subtitle@ == loopback(self.port),
            status_of(*self) is Starting ==> r.aside is None,
            status_of(*self) is Running ==> (r.aside is Some <==> self.proxy_since is Some),
            status_of(*self) is Running ==> (r.aside matches Some(a) ==> exists|secs: nat|
                a@ == uptime_text(secs)),
            status_of(*self) is Stopped ==> match self.last_probe {
                Some(t) => r.aside matches Some(a) && a@ == "перевірено "@ + t@,
                None => r.aside is None,
            },
    {
        let up_for = if !self.busy && self.proxy_running {
            match &self.proxy_since {
                Some(t) => Some(instant_elapsed(t)),
                None => None,
            }
        } else {
            None
        };
        let r = self.status_card_after(up_for);
        proof {
            if let Some(d) = up_for {
                assert(r.aside matches Some(a) && a@ == uptime_text(duration_secs(d) as nat));
            }
        }
        r
    }

    /// What the status card shows when the proxy has been up for `up_for`
    /// (`None`: no uptime is known).
    pub fn status_card_after(&self, up_for: Option<Duration>) -> (r: StatusCard)
        ensures
            shows_card(*self, up_for, r),
    {
        let status = self.status();
        let (dot, title, tint, fill, line, sub_tint) = match status {
            Status::Running => (ACCENT, "ПРОКСІ ПРАЦЮЄ", ACCENT_TEXT, ACCENT_BG, ACCENT_LINE, ACCENT_DIM),
            Status::Starting => (WARN, "ЗАПУСКАЄТЬСЯ…", WARN, CARD, LINE, TEXT_DIM),
            Status::Stopped => (ERR, "ПРОКСІ НЕ ПРАЦЮЄ", ERR, CARD, LINE, TEXT_DIM),
        };
        let mut subtitle = String::from_str("127.0.0.1:");
        push_decimal(&mut subtitle, self.port as u64);
        if status == Status::Starting {
            subtitle.append(" — чекаю до 20 с");
        }
        let aside = match status {
            Status::Running => match up_for {
                Some(d) => Some(uptime_str(d)),
                None => None,
            },
            Status::Stopped => match &self.last_probe {
                Some(t) => {
                    let mut a = String::from_str("перевірено ");
                    a.append(t.as_str());
                    Some(a)
                },
                None => None,
            },
            Status::Starting => None,
        };
        StatusCard { dot, title: String::from_str(title), tint, fill, line, sub_tint, subtitle, aside }
    }

    /// How the credential row looks: it stands out while there is a
    /// warning, and the note under it is the warning, or else a hint that
    /// depends on whether the proxy runs.
    pub fn credential_look(&self) -> (r: CredentialLook)
        ensures
            match self.cred_warning {
                Some(w) => {
                    &&& r.field_outline == Some(WARN_LINE)
                    &&& r.button_frame == (WARN_BG, WARN_LINE)
                    &&& r.button_tint == WARN_ICON
                    &&& r.note@ == w@ && r.note_is_warning
                },
                None => {
                    &&& r.field_outline is None
                    &&& r.button_frame == (CARD, LINE)
                    &&& r.button_tint == TEXT_2
                    &&& !r.note_is_warning
                    &&& r.note@ == (if self.proxy_running {
                        "Токен оновлюється за 5 хв до закінчення"@
                    } else {
                        "Знайдено автоматично в ~/.umod/"@
                    })
                },
            },
    {
        match &self.cred_warning {
            Some(w) => CredentialLook {
                field_outline: Some(WARN_LINE),
                button_frame: (WARN_BG, WARN_LINE),
                button_tint: WARN_ICON,
                note: w.clone(),
                note_is_warning: true,
            },
            None => CredentialLook {
                field_outline: None,
                button_frame: (CARD, LINE),
                button_tint: TEXT_2,
                note: if self.proxy_running {
                    String::from_str("Токен оновлюється за 5 хв до закінчення")
                } else {
                    String::from_str("Знайдено автоматично в ~/.umod/")
                },
                note_is_warning: false,
            },
        }
    }
}

} // verus!
