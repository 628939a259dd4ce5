use umod_codex::codex::{launch, launch_failed_message, CommandSpec, Platform};

fn env(c: &CommandSpec) -> Vec<(String, String)> {
    c.env.iter().map(|e| (e.name.clone(), e.value.clone())).collect()
}

#[test]
fn launch_needs_codex() {
    let r = launch("glm-5.2", 8787, None, None, Platform::Windows);
    assert_eq!(r.err().as_deref(), Some("Codex не знайдено на PATH"));
}

#[test]
fn launch_on_windows() {
    let c = launch("gpt-5.6-sol", 8787, Some("C:\\npm\\codex.cmd".to_string()), None, Platform::Windows).unwrap();
    assert_eq!(c.program, "cmd");
    assert_eq!(
        c.args,
        vec![
            "/c".to_string(),
            "start \"Codex UMOD\" \"C:\\npm\\codex.cmd\" --profile umod --model gpt-5.6-sol --port 8787".to_string()
        ]
    );
    assert_eq!(
        env(&c),
        vec![
            ("UMOD_PROXY_KEY".to_string(), "local-proxy-injects-real-auth".to_string()),
            ("UMOD_PROXY_PORT".to_string(), "8787".to_string()),
        ]
    );
}

#[test]
fn launch_on_macos_with_own_key() {
    let c = launch("gpt-6-astra", 9000, Some("/usr/local/bin/codex".to_string()), Some("k".to_string()), Platform::MacOs).unwrap();
    assert_eq!(c.program, "open");
    assert_eq!(
        c.args,
        ["-a", "Terminal", "--", "/usr/local/bin/codex", "--profile", "umod", "--model", "gpt-6-astra"]
            .map(String::from)
            .to_vec()
    );
    assert_eq!(env(&c)[0], ("UMOD_PROXY_KEY".to_string(), "k".to_string()));
    assert_eq!(env(&c)[1], ("UMOD_PROXY_PORT".to_string(), "9000".to_string()));
}

#[test]
fn launch_on_other_unix() {
    let c = launch("glm-5.2", 8787, Some("/usr/bin/codex".to_string()), None, Platform::OtherUnix).unwrap();
    assert_eq!(c.program, "x-terminal-emulator");
    assert_eq!(
        c.args,
        ["-e", "/usr/bin/codex", "--profile", "umod", "--model", "glm-5.2"].map(String::from).to_vec()
    );
}

#[test]
fn launch_failure_message() {
    assert_eq!(launch_failed_message("no terminal"), "Не вдалося запустити Codex: no terminal");
}
