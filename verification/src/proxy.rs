//! The local token proxy: its port, its state, how it is brought up and how
//! it is stopped.

use vstd::prelude::*;

use crate::lookup::{
    advanced, credential_choice, first_env_file, names_vec, python_names, script_choice, search_wf,
    FileProbe, PathSearch, SearchAction, SearchPhase, UmodDir,
};
use crate::text::{decimal, decimal_string, push_decimal, texts};

verus! {

/// Port the proxy listens on unless `UMOD_PROXY_PORT` says otherwise.
pub const DEFAULT_PORT: u16 = 8787;

/// Value of an ASCII digit.
pub open spec fn digit_value(c: char) -> nat {
    ((c as u32) - ('0' as u32)) as nat
}

pub open spec fn is_digit(c: char) -> bool {
    '0' as u32 <= c as u32 <= '9' as u32
}

/// Value of a string of decimal digits.
pub open spec fn digits_value(s: Seq<char>) -> nat
    decreases s.len(),
{
    if s.len() == 0 {
        0
    } else {
        digits_value(s.drop_last()) * 10 + digit_value(s.last())
    }
}

/// The digits part of a number: the text after an optional leading `+`.
pub open spec fn unsigned_digits(s: Seq<char>) -> Seq<char> {
    if s.len() > 0 && s[0] == '+' {
        s.drop_first()
    } else {
        s
    }
}

pub open spec fn all_digits(s: Seq<char>) -> bool {
    forall|i: int| 0 <= i < s.len() ==> is_digit(#[trigger] s[i])
}

/// What `str::parse::<u16>` gives: an optional `+`, then at least one
/// decimal digit and nothing else, with a value that fits in 16 bits.
pub open spec fn parse_u16(s: Seq<char>) -> Option<u16> {
    let body = unsigned_digits(s);
    if body.len() > 0 && all_digits(body) && digits_value(body) <= 65535 {
        Some(digits_value(body) as u16)
    } else {
        None
    }
}

/// The proxy port for the value of `UMOD_PROXY_PORT` (`None` when unset).
pub open spec fn port_for(value: Option<Seq<char>>) -> u16 {
    match value {
        Some(v) => match parse_u16(v) {
            Some(p) => p,
            None => DEFAULT_PORT,
        },
        None => DEFAULT_PORT,
    }
}

proof fn lemma_digits_prefix(s: Seq<char>, k: int)
    requires
        0 <= k <= s.len(),
    ensures
        digits_value(s.take(k)) <= digits_value(s),
    decreases s.len() - k,
{
    if k < s.len() {
        lemma_digits_prefix(s.drop_last(), k);
        assert(s.drop_last().take(k) =~= s.take(k));
    } else {
        assert(s.take(k) =~= s);
    }
}

/// Parses a port number as `str::parse::<u16>` does.
pub fn parse_port(s: &str) -> (r: Option<u16>)
    ensures
        r == parse_u16(s@),
{
    let n = s.unicode_len();
    let start: usize = if n > 0 && s.get_char(0) == '+' { 1 } else { 0 };
    let ghost body = unsigned_digits(s@);
    assert(body =~= s@.subrange(start as int, n as int));
    if start == n {
        return None;
    }
    let mut value: u32 = 0;
    let mut i: usize = start;
    while i < n
        invariant
            n == s@.len(),
            start <= i <= n,
            body =~= s@.subrange(start as int, n as int),
            body == unsigned_digits(s@),
            value <= 65535,
            value == digits_value(body.take(i - start)),
            forall|j: int| 0 <= j < i - start ==> is_digit(#[trigger] body[j]),
        decreases n - i,
    {
        let c = s.get_char(i);
        let ghost k = (i - start) as int;
        if !((c as u32) >= ('0' as u32) && (c as u32) <= ('9' as u32)) {
            assert(body[k] == c);
            assert(!is_digit(body[k]));
            return None;
        }
        assert(body[k] == c);
        assert(body.take(k + 1).drop_last() =~= body.take(k));
        let next = value * 10 + ((c as u32) - ('0' as u32));
        assert(body.take(k + 1).last() == c);
        assert(digits_value(body.take(k + 1)) == next);
        if next > 65535 {
            proof {
                lemma_digits_prefix(body, k + 1);
            }
            return None;
        }
        value = next;
        i = i + 1;
    }
    assert(body.take(n - start) =~= body);
    Some(value as u16)
}

/// The proxy port for the value of `UMOD_PROXY_PORT`: that value when it
/// parses as a port, 8787 otherwise.
pub fn proxy_port(value: Option<&str>) -> (r: u16)
    ensures
        r == port_for(
            match value {
                Some(v) => Some(v@),
                None => None,
            },
        ),
{
    match value {
        Some(v) => match parse_port(v) {
            Some(p) => p,
            None => DEFAULT_PORT,
        },
        None => DEFAULT_PORT,
    }
}

/// `127.0.0.1:<port>`, the only address the proxy listens on.
pub open spec fn loopback(port: u16) -> Seq<char> {
    "127.0.0.1:"@ + decimal(port as nat)
}

/// Prefix of the message when the proxy process cannot be killed.
pub open spec fn stop_failed(err: Seq<char>) -> Seq<char> {
    "Не вдалося зупинити проксі: "@ + err
}

/// State of the proxy as this launcher runs it: the port, the running
/// process (`C` is the handle of a child process), and the credential file.
pub struct ProxyState<C> {
    pub port: u16,
    pub child: Option<C>,
    pub cred_path: Option<String>,
}

impl<C> ProxyState<C> {
    /// A proxy on `port` that this launcher has not started.
    pub fn new(port: u16) -> (r: Self)
        ensures
            r.port == port,
            r.child is None,
            r.cred_path is None,
    {
        ProxyState { port, child: None, cred_path: None }
    }

    /// The state a background start works on: `cred` is taken as the
    /// credential file unless it is empty.
    pub fn for_start(port: u16, cred: &str) -> (r: Self)
        ensures
            r.port == port,
            r.child is None,
            cred@.len() == 0 ==> r.cred_path is None,
            cred@.len() > 0 ==> (r.cred_path matches Some(p) && p@ == cred@),
    {
        let mut state = ProxyState::new(port);
        if cred.unicode_len() > 0 {
            state.cred_path = Some(String::from_str(cred));
        }
        state
    }

    /// The address to probe: `127.0.0.1:<port>`.
    pub fn listen_addr(&self) -> (r: String)
        ensures
            r@ == loopback(self.port),
    {
        let mut s = String::from_str("127.0.0.1:");
        push_decimal(&mut s, self.port as u64);
        s
    }

    /// Stops the proxy this launcher started: hands the process to `kill`
    /// and forgets it. Without a process there is nothing to do.
    pub fn stop<K: FnOnce(C) -> Result<(), String>>(&mut self, kill: K) -> (r: Result<(), String>)
        requires
            old(self).child matches Some(c) ==> call_requires(kill, (c,)),
        ensures
            final(self).child is None,
            final(self).port == old(self).port,
            final(self).cred_path == old(self).cred_path,
            old(self).child is None ==> r is Ok,
            old(self).child matches Some(c) ==> exists|k: Result<(), String>|
                #[trigger] call_ensures(kill, (c,), k) && match (k, r) {
                    (Ok(_), Ok(_)) => true,
                    (Err(e), Err(m)) => m@ == stop_failed(e@),
                    _ => false,
                },
    {
        match self.child.take() {
            Some(c) => {
                let k = kill(c);
                match k {
                    Ok(()) => Ok(()),
                    Err(e) => {
                        let mut m = String::from_str("Не вдалося зупинити проксі: ");
                        m.append(e.as_str());
                        Err(m)
                    },
                }
            },
            None => Ok(()),
        }
    }
}


/// How long the proxy gets to start answering, in milliseconds.
pub const STARTUP_LIMIT_MS: u64 = 20000;

/// Pause between two probes while the proxy starts, in milliseconds.
pub const POLL_INTERVAL_MS: u64 = 500;

pub open spec fn no_credential() -> Seq<char> {
    "Credential-файл не знайдено (~/.umod/*.env)"@
}

pub open spec fn no_proxy_script() -> Seq<char> {
    "umod-token-proxy не знайдено"@
}

pub open spec fn no_python() -> Seq<char> {
    "Python не знайдено на PATH"@
}

pub open spec fn startup_timeout() -> Seq<char> {
    "Проксі не піднявся за 20 секунд (див. %TEMP%\\umod-proxy.err)"@
}

/// Placeholder key handed to the proxy and to Codex: the proxy puts the
/// real token in place of it.
pub open spec fn proxy_key_placeholder() -> Seq<char> {
    "local-proxy-injects-real-auth"@
}

/// An environment variable for a child process.
#[derive(Debug)]
pub struct EnvVar {
    pub name: String,
    pub value: String,
}

/// How to run the proxy: `python script` with these variables set.
#[derive(Debug)]
pub struct SpawnRequest {
    pub python: String,
    pub script: String,
    pub env: Vec<EnvVar>,
}

/// Where a start of the proxy stands.
#[derive(Debug)]
pub enum StartPhase {
    /// Waiting to learn whether the port already answers.
    CheckPort,
    /// Waiting for the search for a credential file.
    FindCredential,
    /// Waiting for the search for the proxy script.
    FindScript { cred: String },
    /// Waiting for the search for Python.
    FindPython { cred: String, script: String },
    /// Waiting for the proxy process to be spawned.
    Launch,
    /// The process runs; waiting for the port to answer.
    Await,
    /// The start has its result.
    Done,
}

/// What the caller does next while the proxy starts.
#[derive(Debug)]
pub enum StartAction {
    /// Probe the port; answer `Probed`.
    ProbePort,
    /// Look for the credential file; answer `Found`.
    FindCredential,
    /// Look for the proxy script; answer `Found`.
    FindProxyScript,
    /// Look for Python; answer `Found`.
    FindPython,
    /// Spawn the proxy (its output goes to log files); answer `Spawned`.
    Spawn(SpawnRequest),
    /// Measure the time since the spawn; answer `Clock`.
    CheckClock,
    /// Wait `POLL_INTERVAL_MS`; answer `Paused`.
    Pause,
    /// The start is over, with this result.
    Finish(Result<(), String>),
}

/// What the caller reports back while the proxy starts.
#[derive(Debug)]
pub enum StartEvent<C> {
    Probed(bool),
    Found(Option<String>),
    /// The spawned process, or the message why it could not be spawned.
    Spawned(Result<C, String>),
    /// Milliseconds since the process was spawned.
    Clock(u64),
    Paused,
}

/// The event answers the action that led to `phase`.
pub open spec fn start_answers<C>(phase: StartPhase, event: StartEvent<C>) -> bool {
    match phase {
        StartPhase::CheckPort => event is Probed,
        StartPhase::FindCredential => event is Found,
        StartPhase::FindScript { .. } => event is Found,
        StartPhase::FindPython { .. } => event is Found,
        StartPhase::Launch => event is Spawned,
        StartPhase::Await => event is Clock || event is Probed || event is Paused,
        StartPhase::Done => false,
    }
}

/// The start ends with the error `msg`.
pub open spec fn fails_with(r: (StartPhase, StartAction), msg: Seq<char>) -> bool {
    &&& r.0 is Done
    &&& r.1 matches StartAction::Finish(res) && res matches Err(m) && m@ == msg
}

/// The start ends successfully.
pub open spec fn succeeds(r: (StartPhase, StartAction)) -> bool {
    &&& r.0 is Done
    &&& r.1 matches StartAction::Finish(res) && res is Ok
}

/// The variables the proxy runs with.
pub open spec fn proxy_env(env: Seq<EnvVar>, cred: Seq<char>, port: u16) -> bool {
    &&& env.len() == 3
    &&& env[0].name@ == "UMOD_CRED"@ && env[0].value@ == cred
    &&& env[1].name@ == "UMOD_PROXY_PORT"@ && env[1].value@ == decimal(port as nat)
    &&& env[2].name@ == "UMOD_PROXY_KEY"@ && env[2].value@ == proxy_key_placeholder()
}

/// One step of a start of the proxy, from `old` in `phase` after `event`,
/// to `new` with the next phase and action `r`.
pub open spec fn start_step<C>(
    old: ProxyState<C>,
    phase: StartPhase,
    event: StartEvent<C>,
    new: ProxyState<C>,
    r: (StartPhase, StartAction),
) -> bool {
    match phase {
        StartPhase::CheckPort => match event {
            StartEvent::Probed(true) => new == old && succeeds(r),
            _ => match old.cred_path {
                Some(c) => {
                    &&& new == old
                    &&& r.0 matches StartPhase::FindScript { cred } && cred@ == c@
                    &&& r.1 is FindProxyScript
                },
                None => new == old && r.0 is FindCredential && r.1 is FindCredential,
            },
        },
        StartPhase::FindCredential => match event {
            StartEvent::Found(Some(c)) => {
                &&& new.port == old.port && new.child == old.child
                &&& new.cred_path matches Some(p) && p@ == c@
                &&& r.0 matches StartPhase::FindScript { cred } && cred@ == c@
                &&& r.1 is FindProxyScript
            },
            _ => new == old && fails_with(r, no_credential()),
        },
        StartPhase::FindScript { cred } => match event {
            StartEvent::Found(Some(s)) => {
                &&& new == old
                &&& r.0 matches StartPhase::FindPython { cred: c2, script } && c2@ == cred@ && script@
                    == s@
                &&& r.1 is FindPython
            },
            _ => new == old && fails_with(r, no_proxy_script()),
        },
        StartPhase::FindPython { cred, script } => match event {
            StartEvent::Found(Some(py)) => {
                &&& new == old
                &&& r.0 is Launch
                &&& r.1 matches StartAction::Spawn(req) && req.python@ == py@ && req.script@
                    == script@ && proxy_env(req.env@, cred@, old.port)
            },
            _ => new == old && fails_with(r, no_python()),
        },
        StartPhase::Launch => match event {
            StartEvent::Spawned(Ok(c)) => {
                &&& new.port == old.port && new.cred_path == old.cred_path
                &&& new.child == Some(c)
                &&& r.0 is Await && r.1 is CheckClock
            },
            StartEvent::Spawned(Err(m)) => new == old && fails_with(r, m@),
            _ => false,
        },
        StartPhase::Await => match event {
            StartEvent::Clock(ms) => if ms >= STARTUP_LIMIT_MS {
                new == old && fails_with(r, startup_timeout())
            } else {
                new == old && r.0 is Await && r.1 is ProbePort
            },
            StartEvent::Probed(true) => new == old && succeeds(r),
            StartEvent::Probed(false) => new == old && r.0 is Await && r.1 is Pause,
            _ => new == old && r.0 is Await && r.1 is CheckClock,
        },
        StartPhase::Done => false,
    }
}

fn finish_err(msg: &str) -> (r: (StartPhase, StartAction))
    ensures
        fails_with(r, msg@),
{
    (StartPhase::Done, StartAction::Finish(Err(String::from_str(msg))))
}

fn env_var(name: &str, value: String) -> (r: EnvVar)
    ensures
        r.name@ == name@,
        r.value@ == value@,
{
    EnvVar { name: String::from_str(name), value }
}

/// `Не вдалося створити <path>: <err>`: a log file of the proxy could not
/// be created.
pub fn create_failed_message(path: &str, err: &str) -> (r: String)
    ensures
        r@ == "Не вдалося створити "@ + path@ + ": "@ + err@,
{
    let mut m = String::from_str("Не вдалося створити ");
    m.append(path);
    m.append(": ");
    m.append(err);
    m
}

/// `Не вдалося запустити проксі: <err>`: the proxy process could not be
/// spawned.
pub fn spawn_failed_message(err: &str) -> (r: String)
    ensures
        r@ == "Не вдалося запустити проксі: "@ + err@,
{
    let mut m = String::from_str("Не вдалося запустити проксі: ");
    m.append(err);
    m
}

impl<C> ProxyState<C> {
    /// The first step of a start: probe the port.
    pub fn begin_start(&self) -> (r: (StartPhase, StartAction))
        ensures
            r.0 is CheckPort,
            r.1 is ProbePort,
    {
        (StartPhase::CheckPort, StartAction::ProbePort)
    }

    /// Brings the proxy up, one step per call: takes the answer to the last
    /// action and says what to do next. A proxy that already answers is
    /// left alone; otherwise the credential file (the one set, or the one
    /// found), the proxy script and Python are needed, in that order, before
    /// the proxy is spawned; then the port is probed every
    /// `POLL_INTERVAL_MS` until it answers or `STARTUP_LIMIT_MS` have passed.
    pub fn start(&mut self, phase: StartPhase, event: StartEvent<C>) -> (r: (StartPhase, StartAction))
        requires
            start_answers(phase, event),
        ensures
            start_step(*old(self), phase, event, *final(self), r),
    {
        match phase {
            StartPhase::CheckPort => match event {
                StartEvent::Probed(true) => (StartPhase::Done, StartAction::Finish(Ok(()))),
                _ => match &self.cred_path {
                    Some(c) => (StartPhase::FindScript { cred: c.clone() }, StartAction::FindProxyScript),
                    None => (StartPhase::FindCredential, StartAction::FindCredential),
                },
            },
            StartPhase::FindCredential => match event {
                StartEvent::Found(Some(c)) => {
                    self.cred_path = Some(c.clone());
                    (StartPhase::FindScript { cred: c }, StartAction::FindProxyScript)
                },
                _ => finish_err("Credential-файл не знайдено (~/.umod/*.env)"),
            },
            StartPhase::FindScript { cred } => match event {
                StartEvent::Found(Some(s)) => (StartPhase::FindPython { cred, script: s }, StartAction::FindPython),
                _ => finish_err("umod-token-proxy не знайдено"),
            },
            StartPhase::FindPython { cred, script } => match event {
                StartEvent::Found(Some(py)) => {
                    let mut env: Vec<EnvVar> = Vec::new();
                    env.push(env_var("UMOD_CRED", cred));
                    env.push(env_var("UMOD_PROXY_PORT", decimal_string(self.port as u64)));
                    env.push(env_var("UMOD_PROXY_KEY", String::from_str("local-proxy-injects-real-auth")));
                    (StartPhase::Launch, StartAction::Spawn(SpawnRequest { python: py, script, env }))
                },
                _ => finish_err("Python не знайдено на PATH"),
            },
            StartPhase::Launch => match event {
                StartEvent::Spawned(Ok(c)) => {
                    self.child = Some(c);
                    (StartPhase::Await, StartAction::CheckClock)
                },
                StartEvent::Spawned(Err(m)) => (StartPhase::Done, StartAction::Finish(Err(m))),
                _ => (StartPhase::Done, StartAction::Finish(Ok(()))),
            },
            StartPhase::Await => match event {
                StartEvent::Clock(ms) => if ms >= STARTUP_LIMIT_MS {
                    finish_err("Проксі не піднявся за 20 секунд (див. %TEMP%\\umod-proxy.err)")
                } else {
                    (StartPhase::Await, StartAction::ProbePort)
                },
                StartEvent::Probed(true) => (StartPhase::Done, StartAction::Finish(Ok(()))),
                StartEvent::Probed(false) => (StartPhase::Await, StartAction::Pause),
                _ => (StartPhase::Await, StartAction::CheckClock),
            },
            StartPhase::Done => (StartPhase::Done, StartAction::Finish(Ok(()))),
        }
    }
}

impl<C> ProxyState<C> {
    /// Looks for the credential file in what was found on disk: the file
    /// `UMOD_CRED` names, `~/.umod/credential.env`, or the first `*.env`
    /// file of `~/.umod`.
    pub fn find_credential(from_env: &Option<FileProbe>, umod: &Option<UmodDir>) -> (r: Option<String>)
        ensures
            r matches Some(p) ==> credential_choice(*from_env, *umod) == Some(p@),
            r is None <==> credential_choice(*from_env, *umod) is None,
    {
        if let Some(p) = from_env {
            if p.is_file {
                return Some(p.path.clone());
            }
        }
        match umod {
            None => None,
            Some(d) => {
                if d.neutral.is_file {
                    Some(d.neutral.path.clone())
                } else {
                    match &d.entries {
                        Some(es) => first_env_file(es),
                        None => None,
                    }
                }
            },
        }
    }

    /// Looks for the proxy script among the probed candidates: the file
    /// `UMOD_PROXY_BIN` names, the client on the desktop (`None` without a
    /// home directory), the one beside the executable.
    pub fn find_proxy_script(
        from_env: &Option<FileProbe>,
        desktop: &Option<FileProbe>,
        beside_exe: &Option<FileProbe>,
    ) -> (r: Option<String>)
        ensures
            r matches Some(p) ==> script_choice(*from_env, *desktop, *beside_exe) == Some(p@),
            r is None <==> script_choice(*from_env, *desktop, *beside_exe) is None,
    {
        if let Some(p) = from_env {
            if p.is_file {
                return Some(p.path.clone());
            }
        }
        if let Some(p) = desktop {
            if p.is_file {
                return Some(p.path.clone());
            }
        }
        if let Some(p) = beside_exe {
            if p.is_file {
                return Some(p.path.clone());
            }
        }
        None
    }

    /// Starts the search for Python: `python`, `python3`, `py` on `PATH`.
    pub fn find_python() -> (r: (PathSearch, SearchAction))
        ensures
            texts(r.0.names@) == python_names(),
            search_wf(r.0),
            r.0.last is None,
            advanced(PathSearch { names: r.0.names, next: 0, last: None, phase: SearchPhase::Done }, r.0, r.1),
    {
        PathSearch::begin(None, names_vec("python", "python3", "py"), None)
    }
}

} // verus!
