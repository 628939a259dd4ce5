//! Starting Codex CLI with the `umod` profile in a new terminal window.

use vstd::prelude::*;

use crate::lookup::{
    advanced, codex_names, names_vec, search_wf, PathSearch, SearchAction, SearchPhase,
};
use crate::proxy::{proxy_key_placeholder, EnvVar};
use crate::text::{decimal, push_decimal, texts};

verus! {

/// The system the launcher runs on, which decides how a terminal window is
/// opened.
#[derive(Clone, Copy, PartialEq, Eq, Structural, Debug)]
pub enum Platform {
    Windows,
    MacOs,
    OtherUnix,
}

/// A program to spawn, with its arguments and extra environment.
#[derive(Debug)]
pub struct CommandSpec {
    pub program: String,
    pub args: Vec<String>,
    pub env: Vec<EnvVar>,
}

pub open spec fn codex_not_found() -> Seq<char> {
    "Codex не знайдено на PATH"@
}

/// The command line `cmd /c` runs on Windows: `start` opens a window titled
/// "Codex UMOD" running Codex.
pub open spec fn windows_start_line(codex: Seq<char>, model: Seq<char>, port: u16) -> Seq<char> {
    "start \"Codex UMOD\" \""@ + codex + "\" --profile umod --model "@ + model + " --port "@
        + decimal(port as nat)
}

/// Program and arguments that open Codex in a new terminal window.
pub open spec fn launch_argv(platform: Platform, codex: Seq<char>, model: Seq<char>, port: u16) -> (
    Seq<char>,
    Seq<Seq<char>>,
) {
    match platform {
        Platform::Windows => ("cmd"@, seq!["/c"@, windows_start_line(codex, model, port)]),
        Platform::MacOs => (
            "open"@,
            seq!["-a"@, "Terminal"@, "--"@, codex, "--profile"@, "umod"@, "--model"@, model],
        ),
        Platform::OtherUnix => (
            "x-terminal-emulator"@,
            seq!["-e"@, codex, "--profile"@, "umod"@, "--model"@, model],
        ),
    }
}

/// The command that launches Codex, as the spec of `launch` fixes it.
pub open spec fn launch_command(
    c: CommandSpec,
    platform: Platform,
    codex: Seq<char>,
    model: Seq<char>,
    port: u16,
    key: Seq<char>,
) -> bool {
    &&& c.program@ == launch_argv(platform, codex, model, port).0
    &&& texts(c.args@) == launch_argv(platform, codex, model, port).1
    &&& c.env@.len() == 2
    &&& c.env@[0].name@ == "UMOD_PROXY_KEY"@ && c.env@[0].value@ == key
    &&& c.env@[1].name@ == "UMOD_PROXY_PORT"@ && c.env@[1].value@ == decimal(port as nat)
}

fn text(s: &str) -> (r: String)
    ensures
        r@ == s@,
{
    String::from_str(s)
}

/// The command that opens Codex with `model` against the proxy on `port`.
/// `codex` is where Codex was found (`None`: nowhere); `proxy_key` is the
/// value of `UMOD_PROXY_KEY`, the placeholder key when unset.
pub fn launch(model: &str, port: u16, codex: Option<String>, proxy_key: Option<String>, platform: Platform) -> (r:
    Result<CommandSpec, String>)
    ensures
        codex is None ==> (r matches Err(m) && m@ == codex_not_found()),
        codex matches Some(c) ==> (r matches Ok(cmd) && launch_command(
            cmd,
            platform,
            c@,
            model@,
            port,
            match proxy_key {
                Some(k) => k@,
                None => proxy_key_placeholder(),
            },
        )),
{
    let codex = match codex {
        Some(c) => c,
        None => return Err(text("Codex не знайдено на PATH")),
    };
    let key = match proxy_key {
        Some(k) => k,
        None => text("local-proxy-injects-real-auth"),
    };
    let mut port_text = String::new();
    push_decimal(&mut port_text, port as u64);
    let mut env: Vec<EnvVar> = Vec::new();
    env.push(EnvVar { name: text("UMOD_PROXY_KEY"), value: key });
    env.push(EnvVar { name: text("UMOD_PROXY_PORT"), value: port_text.clone() });
    let mut args: Vec<String> = Vec::new();
    let program = match platform {
        Platform::Windows => {
            let mut line = text("start \"Codex UMOD\" \"");
            line.append(codex.as_str());
            line.append("\" --profile umod --model ");
            line.append(model);
            line.append(" --port ");
            line.append(port_text.as_str());
            args.push(text("/c"));
            args.push(line);
            text("cmd")
        },
        Platform::MacOs => {
            args.push(text("-a"));
            args.push(text("Terminal"));
            args.push(text("--"));
            args.push(codex);
            args.push(text("--profile"));
            args.push(text("umod"));
            args.push(text("--model"));
            args.push(text(model));
            text("open")
        },
        Platform::OtherUnix => {
            args.push(text("-e"));
            args.push(codex);
            args.push(text("--profile"));
            args.push(text("umod"));
            args.push(text("--model"));
            args.push(text(model));
            text("x-terminal-emulator")
        },
    };
    let cmd = CommandSpec { program, args, env };
    proof {
        let argv = launch_argv(platform, codex@, model@, port);
        assert(texts(cmd.args@) =~= argv.1);
    }
    Ok(cmd)
}

/// `Не вдалося запустити Codex: <err>`: the terminal could not be started.
pub fn launch_failed_message(err: &str) -> (r: String)
    ensures
        r@ == "Не вдалося запустити Codex: "@ + err@,
{
    let mut m = text("Не вдалося запустити Codex: ");
    m.append(err);
    m
}

/// Starts the search for Codex: the path in `UMOD_CODEX_BIN`, if set, then
/// `codex.cmd`, `codex`, `codex.exe` on `PATH`, then `desktop_wrapper`,
/// the shell wrapper `~/Desktop/umod-codex-client/bin/codex-umod` (`None`
/// without a home directory).
pub fn find_codex(from_env: Option<String>, desktop_wrapper: Option<String>) -> (r: (
    PathSearch,
    SearchAction,
))
    ensures
        texts(r.0.names@) == codex_names(),
        r.0.last == desktop_wrapper,
        search_wf(r.0),
        match from_env {
            Some(p) => {
                &&& r.0.next == 0
                &&& r.0.phase matches SearchPhase::CheckEnv { path } && path@ == p@
                &&& r.1 matches SearchAction::CheckFile(q) && q@ == p@
            },
            None => advanced(
                PathSearch { names: r.0.names, next: 0, last: desktop_wrapper, phase: SearchPhase::Done },
                r.0,
                r.1,
            ),
        },
{
    PathSearch::begin(from_env, names_vec("codex.cmd", "codex", "codex.exe"), desktop_wrapper)
}

} // verus!
