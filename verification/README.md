# umod_codex

A launcher for Codex CLI with the `umod` profile: it keeps the local token
proxy (`umod-token-proxy` on `127.0.0.1:8787` by default) running and opens
Codex in a terminal window.

The decisions of the launcher are a Verus library under `src/`, proved
against their contracts:

- `text`: decimal numbers, whitespace trimming, the first line of a
  command's output;
- `clock`: time-of-day stamps for the log, proxy uptime;
- `ui`: the palette and the look of buttons in each state, the icons;
- `lookup`: choosing the credential file and the proxy script among the
  probed paths, and the search for an executable on `PATH`;
- `proxy`: the proxy port, the proxy state, the step-by-step start of the
  proxy and its stop;
- `codex`: the command that opens Codex on each platform;
- `app`: the state of the window and what each message, button and answer
  does to it;
- `laws`: properties across operations.

`app/` is the program around it: the egui window, the file system, network
probes, processes and threads. It carries out the actions the library asks
for and reports back what happened.
