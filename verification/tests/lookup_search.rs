use umod_codex::codex::find_codex;
use umod_codex::lookup::{ends_with_env, CommandOutput, DirEntry, FileProbe, SearchAction, SearchEvent, UmodDir};
use umod_codex::proxy::ProxyState;

type State = ProxyState<u32>;

fn probe(path: &str, is_file: bool) -> FileProbe {
    FileProbe { path: path.to_string(), is_file }
}

fn entry(name: &str) -> DirEntry {
    DirEntry { name: name.to_string(), path: format!("/h/.umod/{name}"), is_file: true }
}

fn dir_entry(name: &str) -> DirEntry {
    DirEntry { name: name.to_string(), path: format!("/h/.umod/{name}"), is_file: false }
}

#[test]
fn env_extension_as_path_extension() {
    for name in ["a.env", "credential.env", ".env", "env", "a.envx", "a.env.bak", "x.ENV", "..env", "a.b.env"] {
        let by_path = std::path::Path::new(name).extension().and_then(|x| x.to_str()) == Some("env");
        assert_eq!(ends_with_env(name), by_path, "{name}");
    }
}

#[test]
fn credential_from_env_wins() {
    let umod = Some(UmodDir { neutral: probe("/h/.umod/credential.env", true), entries: None });
    let r = State::find_credential(&Some(probe("/x/my.env", true)), &umod);
    assert_eq!(r.as_deref(), Some("/x/my.env"));
    // A path in UMOD_CRED that is no file is passed over.
    let r = State::find_credential(&Some(probe("/x/missing.env", false)), &umod);
    assert_eq!(r.as_deref(), Some("/h/.umod/credential.env"));
}

#[test]
fn credential_needs_home() {
    assert_eq!(State::find_credential(&None, &None), None);
    assert_eq!(State::find_credential(&Some(probe("/x/missing.env", false)), &None), None);
}

#[test]
fn credential_single_env_file() {
    let umod = Some(UmodDir {
        neutral: probe("/h/.umod/credential.env", false),
        entries: Some(vec![entry("readme.txt"), entry("work.env"), entry("bin")]),
    });
    assert_eq!(State::find_credential(&None, &umod).as_deref(), Some("/h/.umod/work.env"));
}

#[test]
fn credential_first_of_several_env_files() {
    let two = Some(UmodDir {
        neutral: probe("/h/.umod/credential.env", false),
        entries: Some(vec![entry("notes"), entry("a.env"), entry("b.env")]),
    });
    assert_eq!(State::find_credential(&None, &two).as_deref(), Some("/h/.umod/a.env"));
}

#[test]
fn credential_env_directory_is_no_file() {
    let with_dir = Some(UmodDir {
        neutral: probe("/h/.umod/credential.env", false),
        entries: Some(vec![dir_entry("old.env"), entry("work.env")]),
    });
    assert_eq!(State::find_credential(&None, &with_dir).as_deref(), Some("/h/.umod/work.env"));
    let only_dir = Some(UmodDir {
        neutral: probe("/h/.umod/credential.env", false),
        entries: Some(vec![dir_entry("x.env")]),
    });
    assert_eq!(State::find_credential(&None, &only_dir), None);
}

#[test]
fn credential_missing() {
    let none = Some(UmodDir {
        neutral: probe("/h/.umod/credential.env", false),
        entries: Some(vec![entry(".env"), entry("notes")]),
    });
    assert_eq!(State::find_credential(&None, &none), None);
    let unreadable = Some(UmodDir { neutral: probe("/h/.umod/credential.env", false), entries: None });
    assert_eq!(State::find_credential(&None, &unreadable), None);
}

#[test]
fn proxy_script_order() {
    let desktop = Some(probe("/h/Desktop/umod-codex-client/bin/umod-token-proxy", true));
    let exe = Some(probe("/opt/app/bin/umod-token-proxy", true));
    assert_eq!(State::find_proxy_script(&Some(probe("/e/p", true)), &desktop, &exe).as_deref(), Some("/e/p"));
    assert_eq!(
        State::find_proxy_script(&Some(probe("/e/missing", false)), &desktop, &exe).as_deref(),
        Some("/h/Desktop/umod-codex-client/bin/umod-token-proxy")
    );
    let desktop_none = Some(probe("/h/Desktop/umod-codex-client/bin/umod-token-proxy", false));
    assert_eq!(State::find_proxy_script(&None, &desktop_none, &exe).as_deref(), Some("/opt/app/bin/umod-token-proxy"));
    assert_eq!(State::find_proxy_script(&None, &desktop_none, &Some(probe("/o/x", false))), None);
    // Without a home directory the script beside the executable is still found.
    assert_eq!(State::find_proxy_script(&None, &None, &exe).as_deref(), Some("/opt/app/bin/umod-token-proxy"));
    assert_eq!(State::find_proxy_script(&None, &None, &None), None);
}

fn ran(success: bool, out: &str) -> SearchEvent {
    SearchEvent::Ran(Some(CommandOutput { success, stdout: out.as_bytes().to_vec() }))
}

#[test]
fn python_search_tries_names_in_order() {
    let (mut s, a) = State::find_python();
    assert!(matches!(&a, SearchAction::RunWhere(n) if n == "python"));
    let a = s.step(ran(false, ""));
    assert!(matches!(&a, SearchAction::RunWhere(n) if n == "python3"));
    let a = s.step(ran(true, "/usr/bin/python3\n"));
    assert!(matches!(&a, SearchAction::CheckFile(p) if p == "/usr/bin/python3"));
    let a = s.step(SearchEvent::Checked(true));
    assert!(matches!(&a, SearchAction::Finish(Some(p)) if p == "/usr/bin/python3"));
}

#[test]
fn python_search_gives_up() {
    let (mut s, _) = State::find_python();
    let a = s.step(SearchEvent::Ran(None));
    assert!(matches!(&a, SearchAction::RunWhere(n) if n == "python3"));
    let a = s.step(ran(true, "C:\\py\\python3.exe\r\n"));
    assert!(matches!(&a, SearchAction::CheckFile(p) if p == "C:\\py\\python3.exe"));
    let a = s.step(SearchEvent::Checked(false));
    assert!(matches!(&a, SearchAction::RunWhere(n) if n == "py"));
    let a = s.step(ran(true, ""));
    assert!(matches!(a, SearchAction::Finish(None)));
}

#[test]
fn codex_search_env_first() {
    let (mut s, a) = find_codex(Some("/opt/codex".to_string()), None);
    assert!(matches!(&a, SearchAction::CheckFile(p) if p == "/opt/codex"));
    let a = s.step(SearchEvent::Checked(true));
    assert!(matches!(&a, SearchAction::Finish(Some(p)) if p == "/opt/codex"));

    let (mut s, _) = find_codex(Some("/nowhere".to_string()), None);
    let a = s.step(SearchEvent::Checked(false));
    assert!(matches!(&a, SearchAction::RunWhere(n) if n == "codex.cmd"));

    let (_, a) = find_codex(None, None);
    assert!(matches!(&a, SearchAction::RunWhere(n) if n == "codex.cmd"));
}

#[test]
fn codex_search_ends_with_desktop_wrapper() {
    let wrapper = "/h/Desktop/umod-codex-client/bin/codex-umod".to_string();
    let (mut s, a) = find_codex(None, Some(wrapper.clone()));
    assert!(matches!(&a, SearchAction::RunWhere(n) if n == "codex.cmd"));
    let a = s.step(ran(false, ""));
    assert!(matches!(&a, SearchAction::RunWhere(n) if n == "codex"));
    let a = s.step(SearchEvent::Ran(None));
    assert!(matches!(&a, SearchAction::RunWhere(n) if n == "codex.exe"));
    let a = s.step(ran(true, ""));
    assert!(matches!(&a, SearchAction::CheckFile(p) if *p == wrapper));
    let a = s.step(SearchEvent::Checked(true));
    assert!(matches!(&a, SearchAction::Finish(Some(p)) if *p == wrapper));

    let (mut s, _) = find_codex(None, Some(wrapper.clone()));
    s.step(ran(false, ""));
    s.step(ran(false, ""));
    let a = s.step(ran(false, ""));
    assert!(matches!(&a, SearchAction::CheckFile(_)));
    assert!(matches!(s.step(SearchEvent::Checked(false)), SearchAction::Finish(None)));

    // A name found on PATH comes before the wrapper.
    let (mut s, _) = find_codex(None, Some(wrapper));
    let a = s.step(ran(true, "/usr/bin/codex.cmd\n"));
    assert!(matches!(&a, SearchAction::CheckFile(p) if p == "/usr/bin/codex.cmd"));
    assert!(matches!(s.step(SearchEvent::Checked(true)), SearchAction::Finish(Some(p)) if p == "/usr/bin/codex.cmd"));
}

#[test]
fn search_ends_within_bound() {
    let (mut s, mut a) = find_codex(Some("/x".to_string()), Some("/w".to_string()));
    let mut steps = 0;
    loop {
        let ev = match a {
            SearchAction::CheckFile(_) => SearchEvent::Checked(false),
            SearchAction::RunWhere(_) => ran(true, "/some/path\n"),
            SearchAction::Finish(r) => {
                assert_eq!(r, None);
                break;
            }
        };
        a = s.step(ev);
        steps += 1;
    }
    assert_eq!(steps, 2 * 3 + 2);
    assert!(steps <= 2 * 3 + 4);
}
