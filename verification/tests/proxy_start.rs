use umod_codex::proxy::{
    create_failed_message, parse_port, proxy_port, spawn_failed_message, ProxyState, StartAction,
    StartEvent, StartPhase, DEFAULT_PORT, POLL_INTERVAL_MS, STARTUP_LIMIT_MS,
};
use umod_codex::text::decimal_string;

#[test]
fn port_parsing_follows_str_parse() {
    for s in ["8787", "+8787", "0", "65535", "65536", "", "+", "-1", " 8787", "87a7", "0008787", "١٢"] {
        assert_eq!(parse_port(s), s.parse::<u16>().ok(), "{s:?}");
    }
}

#[test]
fn proxy_port_defaults_to_8787() {
    assert_eq!(DEFAULT_PORT, 8787);
    assert_eq!(proxy_port(None), 8787);
    assert_eq!(proxy_port(Some("9000")), 9000);
    assert_eq!(proxy_port(Some("not a port")), 8787);
    assert_eq!(proxy_port(Some("70000")), 8787);
}

#[test]
fn port_text_round_trip() {
    for p in [0u16, 1, 80, 8787, 65535] {
        assert_eq!(proxy_port(Some(decimal_string(p as u64).as_str())), p);
    }
}

#[test]
fn new_state_and_address() {
    let s: ProxyState<u32> = ProxyState::new(8787);
    assert_eq!(s.port, 8787);
    assert!(s.child.is_none());
    assert!(s.cred_path.is_none());
    assert_eq!(s.listen_addr(), "127.0.0.1:8787");
    let t: ProxyState<u32> = ProxyState::for_start(9000, "");
    assert!(t.cred_path.is_none());
    let u: ProxyState<u32> = ProxyState::for_start(9000, "C:\\a.env");
    assert_eq!(u.cred_path.as_deref(), Some("C:\\a.env"));
}

#[test]
fn stop_kills_once() {
    let mut s: ProxyState<u32> = ProxyState::new(8787);
    s.child = Some(42);
    let mut killed = Vec::new();
    assert_eq!(s.stop(|pid| { killed.push(pid); Ok(()) }), Ok(()));
    assert_eq!(killed, vec![42]);
    assert!(s.child.is_none());
    // Stopping again has nothing to kill.
    assert_eq!(s.stop(|_| panic!("no process to kill")), Ok(()));
}

#[test]
fn stop_reports_kill_failure() {
    let mut s: ProxyState<u32> = ProxyState::new(8787);
    s.child = Some(7);
    let r = s.stop(|_| Err("access denied".to_string()));
    assert_eq!(r, Err("Не вдалося зупинити проксі: access denied".to_string()));
    assert!(s.child.is_none());
}

fn finish(a: StartAction) -> Result<(), String> {
    match a {
        StartAction::Finish(r) => r,
        other => panic!("expected Finish, got {other:?}"),
    }
}

#[test]
fn start_when_already_listening() {
    let mut s: ProxyState<u32> = ProxyState::new(8787);
    let (p, a) = s.begin_start();
    assert!(matches!(p, StartPhase::CheckPort));
    assert!(matches!(a, StartAction::ProbePort));
    let (p, a) = s.start(p, StartEvent::Probed(true));
    assert!(matches!(p, StartPhase::Done));
    assert_eq!(finish(a), Ok(()));
    assert!(s.cred_path.is_none() && s.child.is_none());
}

#[test]
fn start_without_credential() {
    let mut s: ProxyState<u32> = ProxyState::new(8787);
    let (p, _) = s.begin_start();
    let (p, a) = s.start(p, StartEvent::Probed(false));
    assert!(matches!(a, StartAction::FindCredential));
    let (_, a) = s.start(p, StartEvent::Found(None));
    assert_eq!(finish(a), Err("Credential-файл не знайдено (~/.umod/*.env)".to_string()));
}

#[test]
fn start_without_script_keeps_found_credential() {
    let mut s: ProxyState<u32> = ProxyState::new(8787);
    let (p, _) = s.begin_start();
    let (p, _) = s.start(p, StartEvent::Probed(false));
    let (p, a) = s.start(p, StartEvent::Found(Some("/h/.umod/credential.env".to_string())));
    assert!(matches!(a, StartAction::FindProxyScript));
    assert_eq!(s.cred_path.as_deref(), Some("/h/.umod/credential.env"));
    let (_, a) = s.start(p, StartEvent::Found(None));
    assert_eq!(finish(a), Err("umod-token-proxy не знайдено".to_string()));
    assert_eq!(s.cred_path.as_deref(), Some("/h/.umod/credential.env"));
}

#[test]
fn start_without_python() {
    let mut s: ProxyState<u32> = ProxyState::for_start(8787, "/c.env");
    let (p, _) = s.begin_start();
    let (p, a) = s.start(p, StartEvent::Probed(false));
    // A credential already set is not searched for.
    assert!(matches!(a, StartAction::FindProxyScript));
    let (p, a) = s.start(p, StartEvent::Found(Some("/bin/umod-token-proxy".to_string())));
    assert!(matches!(a, StartAction::FindPython));
    let (_, a) = s.start(p, StartEvent::Found(None));
    assert_eq!(finish(a), Err("Python не знайдено на PATH".to_string()));
}

fn run_to_spawn(s: &mut ProxyState<u32>) -> StartPhase {
    let (p, _) = s.begin_start();
    let (p, _) = s.start(p, StartEvent::Probed(false));
    let (p, _) = s.start(p, StartEvent::Found(Some("/h/c.env".to_string())));
    let (p, _) = s.start(p, StartEvent::Found(Some("/h/bin/umod-token-proxy".to_string())));
    let (p, a) = s.start(p, StartEvent::Found(Some("/usr/bin/python3".to_string())));
    match a {
        StartAction::Spawn(req) => {
            assert_eq!(req.python, "/usr/bin/python3");
            assert_eq!(req.script, "/h/bin/umod-token-proxy");
            let env: Vec<(String, String)> = req.env.into_iter().map(|e| (e.name, e.value)).collect();
            assert_eq!(
                env,
                vec![
                    ("UMOD_CRED".to_string(), "/h/c.env".to_string()),
                    ("UMOD_PROXY_PORT".to_string(), "9100".to_string()),
                    ("UMOD_PROXY_KEY".to_string(), "local-proxy-injects-real-auth".to_string()),
                ]
            );
        }
        other => panic!("expected Spawn, got {other:?}"),
    }
    p
}

#[test]
fn start_spawns_and_waits_for_the_port() {
    let mut s: ProxyState<u32> = ProxyState::new(9100);
    let p = run_to_spawn(&mut s);
    let (p, a) = s.start(p, StartEvent::Spawned(Ok(1234)));
    assert_eq!(s.child, Some(1234));
    assert!(matches!(a, StartAction::CheckClock));
    let (p, a) = s.start(p, StartEvent::Clock(0));
    assert!(matches!(a, StartAction::ProbePort));
    let (p, a) = s.start(p, StartEvent::Probed(false));
    assert!(matches!(a, StartAction::Pause));
    assert_eq!(POLL_INTERVAL_MS, 500);
    let (p, a) = s.start(p, StartEvent::Paused);
    assert!(matches!(a, StartAction::CheckClock));
    let (p, a) = s.start(p, StartEvent::Clock(500));
    assert!(matches!(a, StartAction::ProbePort));
    let (p, a) = s.start(p, StartEvent::Probed(true));
    assert!(matches!(p, StartPhase::Done));
    assert_eq!(finish(a), Ok(()));
}

#[test]
fn start_times_out_after_twenty_seconds() {
    let mut s: ProxyState<u32> = ProxyState::new(9100);
    let p = run_to_spawn(&mut s);
    let (p, _) = s.start(p, StartEvent::Spawned(Ok(1)));
    let (p, a) = s.start(p, StartEvent::Clock(STARTUP_LIMIT_MS - 1));
    assert!(matches!(a, StartAction::ProbePort));
    let (p, _) = s.start(p, StartEvent::Probed(false));
    let (p, _) = s.start(p, StartEvent::Paused);
    let (_, a) = s.start(p, StartEvent::Clock(STARTUP_LIMIT_MS));
    assert_eq!(
        finish(a),
        Err("Проксі не піднявся за 20 секунд (див. %TEMP%\\umod-proxy.err)".to_string())
    );
    assert_eq!(s.child, Some(1));
}

#[test]
fn start_spawn_failure() {
    let mut s: ProxyState<u32> = ProxyState::new(9100);
    let p = run_to_spawn(&mut s);
    let msg = spawn_failed_message("not found");
    assert_eq!(msg, "Не вдалося запустити проксі: not found");
    let (_, a) = s.start(p, StartEvent::Spawned(Err(msg.clone())));
    assert_eq!(finish(a), Err(msg));
    assert!(s.child.is_none());
}

#[test]
fn log_file_failure_message() {
    assert_eq!(
        create_failed_message("/tmp/umod-proxy.log", "denied"),
        "Не вдалося створити /tmp/umod-proxy.log: denied"
    );
}
