//! Properties that hold across the operations of the launcher.

use vstd::prelude::*;

use core::time::Duration;

use crate::app::{
    actions_of, handled, handled_all, launch_pressed, log_extends, runs_through, shows_card,
    start_pressed, status_of, stop_pressed, App, LaunchStep, ProxyMsg, StartRequest, Status,
    StatusCard,
};
use crate::clock::duration_secs;
use crate::codex::{launch_command, CommandSpec, Platform};
use crate::lookup::{
    credential_choice, env_files, is_env_file, lemma_env_files_first, lemma_env_files_prefix,
    search_measure, search_step, search_wf, DirEntry, FileProbe, PathSearch, SearchAction,
    SearchEvent, UmodDir,
};
use crate::proxy::{
    all_digits, digit_value, digits_value, fails_with, is_digit, parse_u16, port_for, start_step,
    proxy_key_placeholder, startup_timeout, succeeds, unsigned_digits, ProxyState, StartAction,
    StartEvent, StartPhase, STARTUP_LIMIT_MS,
};
use crate::text::{decimal, digit_char, is_blank, texts};

verus! {

proof fn lemma_digit_char(d: nat)
    requires
        d < 10,
    ensures
        is_digit(digit_char(d)),
        digit_value(digit_char(d)) == d,
        digit_char(d) != '+',
{
}

proof fn lemma_decimal_digits(n: nat)
    ensures
        decimal(n).len() >= 1,
        all_digits(decimal(n)),
        digits_value(decimal(n)) == n,
    decreases n,
{
    if n < 10 {
        lemma_digit_char(n);
        let d = decimal(n);
        assert(d.drop_last() =~= Seq::<char>::empty());
        assert(d.last() == digit_char(n));
        assert(digits_value(d) == digits_value(d.drop_last()) * 10 + digit_value(d.last()));
    } else {
        lemma_decimal_digits(n / 10);
        lemma_digit_char(n % 10);
        let d = decimal(n);
        assert(d.drop_last() =~= decimal(n / 10));
        assert(forall|i: int| 0 <= i < d.len() - 1 ==> d[i] == decimal(n / 10)[i]);
        assert(d.last() == digit_char(n % 10));
        assert(digits_value(d) == digits_value(d.drop_last()) * 10 + digit_value(d.last()));
        assert((n / 10) * 10 + n % 10 == n) by (nonlinear_arith);
    }
}

/// The port written into `UMOD_PROXY_PORT` for the proxy and into the
/// window's messages reads back as the same port: writing a port in decimal
/// and parsing it as the launcher parses `UMOD_PROXY_PORT` gives the port.
pub proof fn law_port_text_round_trip(port: u16)
    ensures
        parse_u16(decimal(port as nat)) == Some(port),
        port_for(Some(decimal(port as nat))) == port,
{
    lemma_decimal_digits(port as nat);
    let d = decimal(port as nat);
    lemma_first_digit(port as nat);
    assert(unsigned_digits(d) == d);
}

proof fn lemma_first_digit(n: nat)
    ensures
        decimal(n)[0] != '+',
    decreases n,
{
    if n < 10 {
        lemma_digit_char(n);
    } else {
        lemma_first_digit(n / 10);
        lemma_decimal_digits(n / 10);
    }
}

/// The buttons follow the status card: while a job is under way (the card
/// says "starting") no proxy button can be pressed; while the proxy runs it
/// can be stopped but not started; while it is down it can be started but
/// not stopped. Launching Codex is possible exactly when no job runs and a
/// credential path is given.
pub proof fn law_buttons_follow_status(a: App)
    ensures
        status_of(a) is Starting ==> !actions_of(a).launch && !actions_of(a).start_proxy
            && !actions_of(a).stop_proxy,
        status_of(a) is Running ==> actions_of(a).stop_proxy && !actions_of(a).start_proxy,
        status_of(a) is Stopped ==> actions_of(a).start_proxy && !actions_of(a).stop_proxy,
        actions_of(a).launch <==> !(status_of(a) is Starting) && !is_blank(a.cred_path@),
{
}

/// Every answer of a background job ends the busy state: after `Started`,
/// `AlreadyRunning`, `Stopped`, `Failed` or a plain log message the window
/// accepts presses again; after `Started` and `AlreadyRunning` it shows the
/// proxy running, after `Stopped` it shows it down. Only the answers that
/// report the proxy up ask for a launch of Codex, and then the proxy runs.
pub proof fn law_replies_end_busy(old: App, msg: ProxyMsg, now: Seq<char>, new: App, r: Option<String>)
    requires
        handled(old, msg, now, new, r),
    ensures
        !(msg is Probe) ==> !new.busy,
        msg is Started || msg is AlreadyRunning ==> status_of(new) == Status::Running,
        msg is Stopped ==> status_of(new) == Status::Stopped,
        r is Some ==> (msg is Started || msg is AlreadyRunning) && status_of(new) == Status::Running,
        msg is Probe ==> new.busy == old.busy,
{
}

/// The event log only grows at its end: however many messages arrive,
/// every earlier entry stays where it was, unchanged, and each message adds
/// at most two entries (the answer, and the launch it lets go ahead).
pub proof fn law_log_only_grows(old: App, msgs: Seq<ProxyMsg>, now: Seq<char>, new: App, results: Seq<Option<String>>)
    requires
        handled_all(old, msgs, now, new, results),
    ensures
        log_extends(old.log@, new.log@),
        new.log@.len() <= old.log@.len() + 2 * msgs.len(),
{
    let states = choose|states: Seq<App>| #[trigger] runs_through(states, msgs, now, results) && states[0] == old
        && states.last() == new;
    lemma_prefix_chain(states, msgs, now, results, msgs.len() as int);
}

proof fn lemma_prefix_chain(states: Seq<App>, msgs: Seq<ProxyMsg>, now: Seq<char>, results: Seq<Option<String>>, k: int)
    requires
        runs_through(states, msgs, now, results),
        0 <= k <= msgs.len(),
    ensures
        log_extends(states[0].log@, states[k].log@),
        states[k].log@.len() <= states[0].log@.len() + 2 * k,
    decreases k,
{
    if k > 0 {
        lemma_prefix_chain(states, msgs, now, results, k - 1);
        assert(handled(states[k - 1], msgs[k - 1], now, states[k], results[k - 1]));
        let a = states[k - 1].log@;
        let b = states[k].log@;
        if b.len() == a.len() + 2 {
            assert forall|i: int| 0 <= i < a.len() implies b[i] == a[i] by {
                assert(b.drop_last()[i] == b[i]);
            }
        }
    }
}

/// Rank of a phase of a start: each step before the wait for the port
/// lowers it.
pub open spec fn start_rank(p: StartPhase) -> nat {
    match p {
        StartPhase::CheckPort => 5,
        StartPhase::FindCredential => 4,
        StartPhase::FindScript { .. } => 3,
        StartPhase::FindPython { .. } => 2,
        StartPhase::Launch => 1,
        StartPhase::Await => 0,
        StartPhase::Done => 0,
    }
}

/// A start of the proxy moves forward: every step before the spawned
/// process is awaited leads to a later phase or to the end, and while the
/// process is awaited each step either keeps waiting or ends the start. A
/// start never goes back.
pub proof fn law_start_moves_forward<C>(
    old: ProxyState<C>,
    phase: StartPhase,
    event: StartEvent<C>,
    new: ProxyState<C>,
    r: (StartPhase, StartAction),
)
    requires
        start_step(old, phase, event, new, r),
    ensures
        !(phase is Await) ==> (r.0 is Done || start_rank(r.0) < start_rank(phase)),
        phase is Await ==> (r.0 is Await || r.0 is Done),
        r.0 is Done <==> r.1 is Finish,
{
}

/// The wait for the port is bounded: once `STARTUP_LIMIT_MS` have passed
/// since the spawn, the start ends with the time-out error; a port that
/// answers in time ends it successfully.
pub proof fn law_start_wait_bounded<C>(
    old: ProxyState<C>,
    event: StartEvent<C>,
    new: ProxyState<C>,
    r: (StartPhase, StartAction),
)
    requires
        start_step(old, StartPhase::Await, event, new, r),
    ensures
        (event matches StartEvent::Clock(ms) && ms >= STARTUP_LIMIT_MS) ==> fails_with(r, startup_timeout()),
        (event matches StartEvent::Probed(b) && b) ==> succeeds(r),
        new == old,
{
}

/// A start touches the state only to remember the credential file it found
/// and the process it spawned: the port never changes, the credential path
/// changes only when the credential search answers, and the child only when
/// the spawn succeeds.
pub proof fn law_start_changes_little<C>(
    old: ProxyState<C>,
    phase: StartPhase,
    event: StartEvent<C>,
    new: ProxyState<C>,
    r: (StartPhase, StartAction),
)
    requires
        start_step(old, phase, event, new, r),
    ensures
        new.port == old.port,
        !(phase is FindCredential) ==> new.cred_path == old.cred_path,
        !(phase is Launch && (event matches StartEvent::Spawned(res) && res is Ok)) ==> new.child
            == old.child,
{
}

/// A proxy that already answers is left alone: the start ends at once,
/// successfully, with the state unchanged.
pub proof fn law_running_proxy_left_alone<C>(
    old: ProxyState<C>,
    new: ProxyState<C>,
    r: (StartPhase, StartAction),
)
    requires
        start_step(old, StartPhase::CheckPort, StartEvent::Probed(true), new, r),
    ensures
        new == old,
        succeeds(r),
{
}

/// A search for an executable ends: each answer lowers its measure, so it
/// gives its result after at most `2 * names + 4` answers.
pub proof fn law_search_ends(old: PathSearch, event: SearchEvent, new: PathSearch, a: SearchAction)
    requires
        search_wf(old),
        search_step(old, event, new, a),
    ensures
        search_measure(new) < search_measure(old),
        search_wf(new),
{
}


/// A start under way cannot be doubled: once "start proxy" has been
/// accepted, pressing "start proxy", "stop proxy" or "launch Codex" again
/// before the job answers is refused and changes nothing.
pub proof fn law_one_job_at_a_time(
    a0: App,
    now: Seq<char>,
    a1: App,
    r1: Option<StartRequest>,
    a2: App,
    r2: Option<StartRequest>,
    a3: App,
    r3: bool,
    listening: bool,
    a4: App,
    r4: LaunchStep,
)
    requires
        start_pressed(a0, now, a1, r1),
        r1 is Some,
        start_pressed(a1, now, a2, r2),
        stop_pressed(a2, now, a3, r3),
        launch_pressed(a3, listening, now, a4, r4),
    ensures
        r2 is None && a2 == a1,
        !r3 && a3 == a1,
        r4 is Busy && a4 == a1,
        status_of(a4) == Status::Starting,
{
}

/// Codex is launched only against a proxy that answers: pressing "launch
/// Codex" asks for the launch at once, with the chosen model, only when the
/// proxy answered and no job was under way; while the proxy is down it
/// starts the proxy instead, shows it starting and keeps the chosen model
/// waiting.
pub proof fn law_codex_needs_running_proxy(old: App, listening: bool, now: Seq<char>, new: App, r: LaunchStep)
    requires
        launch_pressed(old, listening, now, new, r),
    ensures
        r is Launch ==> listening && !old.busy,
        r matches LaunchStep::Launch(m) ==> m@ == old.model@,
        !old.busy && !listening ==> r is StartProxy && status_of(new) == Status::Starting
            && (new.pending_launch matches Some(m) && m@ == old.model@),
        log_extends(old.log@, new.log@),
{
    if !old.busy && !listening {
        let b = new.log@;
        assert forall|i: int| 0 <= i < old.log@.len() implies b[i] == old.log@[i] by {
            assert(b.drop_last()[i] == b[i]);
        }
    }
}

/// "Launch Codex" with the proxy down goes on by itself: once the start it
/// asked for answers that the proxy is up (`Started` or `AlreadyRunning`),
/// Codex is to be launched with the model chosen at the press, and the
/// window shows the proxy running; if the start fails instead, no launch
/// follows and none stays waiting.
pub proof fn law_launch_follows_start(
    a0: App,
    now: Seq<char>,
    a1: App,
    r1: LaunchStep,
    msg: ProxyMsg,
    later: Seq<char>,
    a2: App,
    r2: Option<String>,
)
    requires
        launch_pressed(a0, false, now, a1, r1),
        !a0.busy,
        handled(a1, msg, later, a2, r2),
    ensures
        r1 is StartProxy,
        msg is Started || msg is AlreadyRunning ==> (r2 matches Some(m) && m@ == a0.model@)
            && status_of(a2) == Status::Running && a2.pending_launch is None,
        msg is Failed || msg is Stopped || msg is Log ==> r2 is None && a2.pending_launch is None
            && !a2.busy,
{
}

/// The credential set on the state reaches the proxy: when the state holds
/// a credential path `c` and the port does not answer, the start goes on to
/// the script search carrying `c` (no search for a credential), and once
/// the script and Python are found, the process is to be spawned with that
/// script and Python and with `UMOD_CRED` set to `c`, `UMOD_PROXY_PORT` to
/// the state's port and `UMOD_PROXY_KEY` to the placeholder key.
pub proof fn law_set_credential_reaches_proxy<C>(
    s0: ProxyState<C>,
    c: String,
    s1: ProxyState<C>,
    r1: (StartPhase, StartAction),
    script: String,
    s2: ProxyState<C>,
    r2: (StartPhase, StartAction),
    python: String,
    s3: ProxyState<C>,
    r3: (StartPhase, StartAction),
)
    requires
        s0.cred_path == Some(c),
        start_step(s0, StartPhase::CheckPort, StartEvent::Probed(false), s1, r1),
        start_step(s1, r1.0, StartEvent::Found(Some(script)), s2, r2),
        start_step(s2, r2.0, StartEvent::Found(Some(python)), s3, r3),
    ensures
        r1.0 matches StartPhase::FindScript { cred } && cred@ == c@,
        r1.1 is FindProxyScript,
        s3 == s0,
        r3.1 matches StartAction::Spawn(req) && {
            &&& req.python@ == python@
            &&& req.script@ == script@
            &&& req.env@.len() == 3
            &&& req.env@[0].name@ == "UMOD_CRED"@ && req.env@[0].value@ == c@
            &&& req.env@[1].name@ == "UMOD_PROXY_PORT"@ && req.env@[1].value@ == decimal(s0.port as nat)
            &&& req.env@[2].name@ == "UMOD_PROXY_KEY"@ && req.env@[2].value@ == proxy_key_placeholder()
        },
{
}

/// A credential found by the search reaches the proxy the same way: when
/// no credential path is set, the start searches for one, remembers the
/// one found, and the spawn sets `UMOD_CRED` to it.
pub proof fn law_found_credential_reaches_proxy<C>(
    s0: ProxyState<C>,
    s1: ProxyState<C>,
    r1: (StartPhase, StartAction),
    c: String,
    s2: ProxyState<C>,
    r2: (StartPhase, StartAction),
    script: String,
    s3: ProxyState<C>,
    r3: (StartPhase, StartAction),
    python: String,
    s4: ProxyState<C>,
    r4: (StartPhase, StartAction),
)
    requires
        s0.cred_path is None,
        start_step(s0, StartPhase::CheckPort, StartEvent::Probed(false), s1, r1),
        start_step(s1, r1.0, StartEvent::Found(Some(c)), s2, r2),
        start_step(s2, r2.0, StartEvent::Found(Some(script)), s3, r3),
        start_step(s3, r3.0, StartEvent::Found(Some(python)), s4, r4),
    ensures
        r1.1 is FindCredential,
        s4.cred_path matches Some(p) && p@ == c@,
        s4.port == s0.port,
        r4.1 matches StartAction::Spawn(req) && req.env@.len() == 3 && req.env@[0].name@ == "UMOD_CRED"@
            && req.env@[0].value@ == c@ && req.script@ == script@ && req.python@ == python@,
{
}

/// "Launch Codex" with the proxy down asks for the very start that "start
/// proxy" would ask for: the request carries the window's port and the
/// credential path in its field at the press.
pub proof fn law_launch_starts_with_chosen_credential(
    old: App,
    now: Seq<char>,
    new: App,
    r: LaunchStep,
    other: App,
    r2: Option<StartRequest>,
)
    requires
        !old.busy,
        launch_pressed(old, false, now, new, r),
        start_pressed(old, now, other, r2),
    ensures
        r matches LaunchStep::StartProxy(req) && req.cred@ == old.cred_path@ && req.port == old.port,
        r matches LaunchStep::StartProxy(req) && (r2 matches Some(q) && q.cred@ == req.cred@ && q.port
            == req.port),
{
}

/// Codex gets the model it was given, on every system: after `--model`
/// stands the model (on Windows, in the `start` line, the text after
/// `--model ` up to ` --port`), together with the profile `umod` and the
/// Codex that was found; the proxy's key and port are in its environment.
pub proof fn law_codex_gets_its_model(
    c: CommandSpec,
    platform: Platform,
    codex: Seq<char>,
    model: Seq<char>,
    port: u16,
    key: Seq<char>,
)
    requires
        launch_command(c, platform, codex, model, port, key),
    ensures
        platform != Platform::Windows ==> {
            let n = c.args@.len();
            &&& n >= 6
            &&& c.args@[n - 1]@ == model
            &&& c.args@[n - 2]@ == "--model"@
            &&& c.args@[n - 3]@ == "umod"@
            &&& c.args@[n - 4]@ == "--profile"@
            &&& c.args@[n - 5]@ == codex
        },
        platform == Platform::Windows ==> {
            &&& c.program@ == "cmd"@
            &&& c.args@.len() == 2
            &&& c.args@[0]@ == "/c"@
            &&& exists|head: Seq<char>| {
                let tail = "\" --profile umod --model "@;
                &&& head.len() >= tail.len()
                &&& head.subrange(head.len() - tail.len(), head.len() as int) == tail
                &&& c.args@[1]@ == #[trigger] head.add(model) + " --port "@ + decimal(port as nat)
            }
        },
        c.env@.len() == 2,
        c.env@[0].name@ == "UMOD_PROXY_KEY"@ && c.env@[0].value@ == key,
        c.env@[1].name@ == "UMOD_PROXY_PORT"@ && c.env@[1].value@ == decimal(port as nat),
{
    assert(texts(c.args@).len() == c.args@.len());
    assert forall|i: int| 0 <= i < c.args@.len() implies #[trigger] texts(c.args@)[i] == c.args@[i]@ by {}
    if platform == Platform::Windows {
        let tail = "\" --profile umod --model "@;
        let head = "start \"Codex UMOD\" \""@ + codex + tail;
        assert(head.subrange(head.len() - tail.len(), head.len() as int) =~= tail);
        assert(texts(c.args@)[1] == c.args@[1]@);
        assert(c.args@[1]@ =~= head.add(model) + " --port "@ + decimal(port as nat));
    } else {
        let n = c.args@.len() as int;
        assert(texts(c.args@)[n - 1] == c.args@[n - 1]@);
        assert(texts(c.args@)[n - 2] == c.args@[n - 2]@);
        assert(texts(c.args@)[n - 3] == c.args@[n - 3]@);
        assert(texts(c.args@)[n - 4] == c.args@[n - 4]@);
        assert(texts(c.args@)[n - 5] == c.args@[n - 5]@);
    }
}

/// The credential file is chosen in the documented order: the file
/// `UMOD_CRED` names wins; else `~/.umod/credential.env` when it is a file,
/// whatever the listing of `~/.umod` holds; only when it is no file is the
/// listing consulted, and then the choice is the path of the first listed
/// regular `*.env` file, and there is none exactly when the listing holds
/// no such file.
pub proof fn law_credential_order(from_env: Option<FileProbe>, umod: Option<UmodDir>)
    ensures
        (from_env matches Some(p) && p.is_file) ==> credential_choice(from_env, umod) == Some(
            from_env->0.path@,
        ),
        !(from_env matches Some(p) && p.is_file) && umod is None ==> credential_choice(from_env, umod)
            is None,
        !(from_env matches Some(p) && p.is_file) && (umod matches Some(d) && d.neutral.is_file)
            ==> credential_choice(from_env, umod) == Some(umod->0.neutral.path@),
        !(from_env matches Some(p) && p.is_file) && (umod matches Some(d) && !d.neutral.is_file
            && d.entries is None) ==> credential_choice(from_env, umod) is None,
        !(from_env matches Some(p) && p.is_file) && (umod matches Some(d) && !d.neutral.is_file
            && d.entries is Some) ==> {
            let es = umod->0.entries->0@;
            &&& credential_choice(from_env, umod) is None <==> forall|j: int|
                0 <= j < es.len() ==> !is_env_file(#[trigger] es[j])
            &&& forall|i: int|
                0 <= i < es.len() && is_env_file(#[trigger] es[i]) && (forall|j: int|
                    0 <= j < i ==> !is_env_file(#[trigger] es[j])) ==> credential_choice(from_env, umod)
                    == Some(es[i].path@)
        },
{
    if !(from_env matches Some(p) && p.is_file) && (umod matches Some(d) && !d.neutral.is_file
        && d.entries is Some) {
        let es = umod->0.entries->0@;
        assert(es.take(es.len() as int) =~= es);
        if forall|j: int| 0 <= j < es.len() ==> !is_env_file(#[trigger] es[j]) {
            lemma_env_files_prefix(es, es.len() as int);
        } else {
            let j = choose|j: int| 0 <= j < es.len() && is_env_file(#[trigger] es[j]);
            let k = lemma_first_env(es, j);
            lemma_env_files_first(es, k, es.len() as int);
        }
        assert forall|i: int|
            0 <= i < es.len() && is_env_file(#[trigger] es[i]) && (forall|j: int|
                0 <= j < i ==> !is_env_file(#[trigger] es[j])) implies credential_choice(from_env, umod)
            == Some(es[i].path@) by {
            lemma_env_files_first(es, i, es.len() as int);
        }
    }
}

proof fn lemma_first_env(es: Seq<DirEntry>, i: int) -> (k: int)
    requires
        0 <= i < es.len(),
        is_env_file(es[i]),
    ensures
        0 <= k <= i,
        is_env_file(es[k]),
        forall|j: int| 0 <= j < k ==> !is_env_file(#[trigger] es[j]),
    decreases i,
{
    if exists|j: int| 0 <= j < i && is_env_file(#[trigger] es[j]) {
        let j = choose|j: int| 0 <= j < i && is_env_file(#[trigger] es[j]);
        lemma_first_env(es, j)
    } else {
        i
    }
}

/// The status card of a running proxy tells how long it has been up: for a
/// proxy up `d`, the note is "щойно піднято" under a minute, else "аптайм"
/// with the whole minutes, and from an hour on with the whole hours and the
/// minutes past them.
pub proof fn law_card_shows_uptime(a: App, d: Duration, r: StatusCard)
    requires
        status_of(a) is Running,
        shows_card(a, Some(d), r),
    ensures
        r.aside matches Some(n) && {
            let secs = duration_secs(d) as nat;
            &&& secs < 60 ==> n@ == "щойно піднято"@
            &&& 60 <= secs < 3600 ==> n@ == "аптайм "@ + decimal(secs / 60) + " хв"@
            &&& 3600 <= secs ==> n@ == "аптайм "@ + decimal(secs / 3600) + " год "@ + decimal(
                (secs % 3600) / 60,
            ) + " хв"@
        },
{
}

} // verus!
