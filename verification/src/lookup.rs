//! Where the launcher finds its files and programs: the credential file,
//! the proxy script, and executables reported by `where`.

use vstd::prelude::*;

use crate::text::{reported_path, texts, utf8_lossy, where_candidate};

verus! {

/// A path and whether a regular file stands there.
#[derive(Debug)]
pub struct FileProbe {
    pub path: String,
    pub is_file: bool,
}

/// One entry of a directory listing: its file name, its full path, and
/// whether it is a regular file.
#[derive(Debug)]
pub struct DirEntry {
    pub name: String,
    pub path: String,
    pub is_file: bool,
}

/// What the launcher sees in `~/.umod`: `credential.env`, and the listing
/// of the directory (`None` when it is no directory or cannot be read).
#[derive(Debug)]
pub struct UmodDir {
    pub neutral: FileProbe,
    pub entries: Option<Vec<DirEntry>>,
}

/// A file name whose extension is `env`: the text after its last dot, where
/// that dot does not open the name.
pub open spec fn has_env_extension(name: Seq<char>) -> bool {
    name.len() >= 5 && name.subrange(name.len() - 4, name.len() as int) == ".env"@
}

/// An entry that is a regular file with the extension `env`.
pub open spec fn is_env_file(e: DirEntry) -> bool {
    e.is_file && has_env_extension(e.name@)
}

/// Paths of the listed `*.env` files, in listing order.
pub open spec fn env_files(es: Seq<DirEntry>) -> Seq<Seq<char>>
    decreases es.len(),
{
    if es.len() == 0 {
        seq![]
    } else {
        let sub = env_files(es.drop_last());
        if is_env_file(es.last()) {
            sub.push(es.last().path@)
        } else {
            sub
        }
    }
}

/// The probe found a file.
pub open spec fn hit(p: Option<FileProbe>) -> bool {
    p matches Some(q) && q.is_file
}

/// The credential file: the one `UMOD_CRED` names if it is a file; else,
/// with a home directory, `~/.umod/credential.env` if it is a file; else
/// the first `*.env` file of `~/.umod` in listing order, if there is any.
pub open spec fn credential_choice(from_env: Option<FileProbe>, umod: Option<UmodDir>) -> Option<
    Seq<char>,
> {
    if hit(from_env) {
        Some(from_env->0.path@)
    } else {
        match umod {
            None => None,
            Some(d) => if d.neutral.is_file {
                Some(d.neutral.path@)
            } else {
                match d.entries {
                    Some(es) => if env_files(es@).len() > 0 {
                        Some(env_files(es@)[0])
                    } else {
                        None
                    },
                    None => None,
                }
            },
        }
    }
}

/// The proxy script: the first of these that is a file: the one
/// `UMOD_PROXY_BIN` names, `~/Desktop/umod-codex-client/bin/umod-token-proxy`
/// (`None` without a home directory), `bin/umod-token-proxy` beside the
/// executable.
pub open spec fn script_choice(
    from_env: Option<FileProbe>,
    desktop: Option<FileProbe>,
    beside_exe: Option<FileProbe>,
) -> Option<Seq<char>> {
    if hit(from_env) {
        Some(from_env->0.path@)
    } else if hit(desktop) {
        Some(desktop->0.path@)
    } else if hit(beside_exe) {
        Some(beside_exe->0.path@)
    } else {
        None
    }
}

pub(crate) proof fn lemma_env_files_prefix(es: Seq<DirEntry>, i: int)
    requires
        0 <= i <= es.len(),
        forall|j: int| 0 <= j < i ==> !is_env_file(#[trigger] es[j]),
    ensures
        env_files(es.take(i)).len() == 0,
    decreases i,
{
    if i > 0 {
        assert(es.take(i).drop_last() =~= es.take(i - 1));
        lemma_env_files_prefix(es, i - 1);
    }
}

pub(crate) proof fn lemma_env_files_first(es: Seq<DirEntry>, i: int, k: int)
    requires
        0 <= i < k <= es.len(),
        forall|j: int| 0 <= j < i ==> !is_env_file(#[trigger] es[j]),
        is_env_file(es[i]),
    ensures
        env_files(es.take(k)).len() > 0,
        env_files(es.take(k))[0] == es[i].path@,
    decreases k,
{
    assert(es.take(k).drop_last() =~= es.take(k - 1));
    if k == i + 1 {
        lemma_env_files_prefix(es, i);
        assert(es.take(k).last() == es[i]);
    } else {
        lemma_env_files_first(es, i, k - 1);
    }
}

/// The first `*.env` file of the listing.
pub(crate) fn first_env_file(es: &Vec<DirEntry>) -> (r: Option<String>)
    ensures
        r matches Some(p) ==> env_files(es@).len() > 0 && env_files(es@)[0] == p@,
        r is None <==> env_files(es@).len() == 0,
{
    let mut i: usize = 0;
    while i < es.len()
        invariant
            i <= es@.len(),
            forall|j: int| 0 <= j < i ==> !is_env_file(#[trigger] es@[j]),
        decreases es@.len() - i,
    {
        if es[i].is_file && ends_with_env(es[i].name.as_str()) {
            proof {
                lemma_env_files_first(es@, i as int, es@.len() as int);
                assert(es@.take(es@.len() as int) =~= es@);
            }
            return Some(es[i].path.clone());
        }
        i = i + 1;
    }
    proof {
        lemma_env_files_prefix(es@, i as int);
        assert(es@.take(i as int) =~= es@);
    }
    None
}

/// Whether a file name has the extension `env`.
pub fn ends_with_env(name: &str) -> (r: bool)
    ensures
        r == has_env_extension(name@),
{
    let n = name.unicode_len();
    if n < 5 {
        return false;
    }
    let r = name.get_char(n - 4) == '.' && name.get_char(n - 3) == 'e' && name.get_char(n - 2)
        == 'n' && name.get_char(n - 1) == 'v';
    proof {
        reveal_strlit(".env");
        let tail = name@.subrange(n - 4, n as int);
        if r {
            assert(tail =~= ".env"@);
        } else {
            assert(tail[0] == name@[n - 4]);
            assert(tail[1] == name@[n - 3]);
            assert(tail[2] == name@[n - 2]);
            assert(tail[3] == name@[n - 1]);
            assert(tail != ".env"@);
        }
    }
    r
}

/// Output of a lookup command: whether it succeeded and what it printed.
#[derive(Debug)]
pub struct CommandOutput {
    pub success: bool,
    pub stdout: Vec<u8>,
}

/// Where a search for an executable stands.
#[derive(Debug)]
pub enum SearchPhase {
    /// The path named by an environment variable is being checked.
    CheckEnv { path: String },
    /// `where` runs for `names[next - 1]`.
    Where,
    /// The path `where` reported is being checked.
    CheckCandidate { path: String },
    /// The last fixed path is being checked, after all names.
    CheckLast { path: String },
    /// The search has given its answer.
    Done,
}

/// What the caller does next for a search.
#[derive(Debug)]
pub enum SearchAction {
    /// Check whether a file stands at this path; answer `Checked`.
    CheckFile(String),
    /// Run `where` with this program name; answer `Ran`.
    RunWhere(String),
    /// The search is over; this is its result.
    Finish(Option<String>),
}

/// What the caller reports back.
#[derive(Debug)]
pub enum SearchEvent {
    Checked(bool),
    /// The output of `where`, `None` when it could not be run.
    Ran(Option<CommandOutput>),
}

/// A search for an executable: first the path an environment variable
/// names, then each program name in turn through `where`, then a last
/// fixed path.
#[derive(Debug)]
pub struct PathSearch {
    pub names: Vec<String>,
    pub next: usize,
    pub last: Option<String>,
    pub phase: SearchPhase,
}

/// Names tried on `PATH` for Python.
pub open spec fn python_names() -> Seq<Seq<char>> {
    seq!["python"@, "python3"@, "py"@]
}

/// Names tried on `PATH` for Codex.
pub open spec fn codex_names() -> Seq<Seq<char>> {
    seq!["codex.cmd"@, "codex"@, "codex.exe"@]
}

/// The search is well formed: it has not run more names than it has, and
/// checks the last path only after all of them.
pub open spec fn search_wf(s: PathSearch) -> bool {
    &&& s.next <= s.names@.len()
    &&& s.phase is Where ==> s.next > 0
    &&& s.phase is CheckLast ==> s.next == s.names@.len()
}

/// Steps the search may still take before it answers: each answer the
/// caller gives brings this down.
pub open spec fn search_measure(s: PathSearch) -> nat {
    let left = (s.names@.len() - s.next) as nat;
    match s.phase {
        SearchPhase::CheckEnv { .. } => 2 * left + 4,
        SearchPhase::Where => 2 * left + 3,
        SearchPhase::CheckCandidate { .. } => 2 * left + 2,
        SearchPhase::CheckLast { .. } => 1,
        SearchPhase::Done => 0,
    }
}

/// The answer fits the question the search asked.
pub open spec fn answers(phase: SearchPhase, event: SearchEvent) -> bool {
    match phase {
        SearchPhase::Where => event is Ran,
        SearchPhase::Done => false,
        _ => event is Checked,
    }
}

/// Moving on: run `where` for the next name; with no name left, check the
/// last path, or give up when there is none.
pub open spec fn advanced(old: PathSearch, new: PathSearch, a: SearchAction) -> bool {
    &&& new.names == old.names
    &&& new.last == old.last
    &&& if old.next < old.names@.len() {
        &&& new.next == old.next + 1
        &&& new.phase is Where
        &&& a matches SearchAction::RunWhere(n) && n@ == old.names@[old.next as int]@
    } else {
        &&& new.next == old.next
        &&& match old.last {
            Some(p) => {
                &&& new.phase matches SearchPhase::CheckLast { path } && path@ == p@
                &&& a matches SearchAction::CheckFile(q) && q@ == p@
            },
            None => new.phase is Done && (a matches SearchAction::Finish(r) && r is None),
        }
    }
}

/// The search ends with `path` found.
pub open spec fn found(old: PathSearch, new: PathSearch, a: SearchAction, path: String) -> bool {
    &&& new.names == old.names
    &&& new.next == old.next
    &&& new.last == old.last
    &&& new.phase is Done
    &&& a matches SearchAction::Finish(r) && r matches Some(p) && p@ == path@
}

/// One step of the search, after the answer `event`.
pub open spec fn search_step(old: PathSearch, event: SearchEvent, new: PathSearch, a: SearchAction) -> bool {
    match old.phase {
        SearchPhase::CheckEnv { path } | SearchPhase::CheckCandidate { path } => {
            if event matches SearchEvent::Checked(true) {
                found(old, new, a, path)
            } else {
                advanced(old, new, a)
            }
        },
        SearchPhase::CheckLast { path } => {
            if event matches SearchEvent::Checked(true) {
                found(old, new, a, path)
            } else {
                &&& new.names == old.names && new.next == old.next && new.last == old.last
                &&& new.phase is Done
                &&& a matches SearchAction::Finish(r) && r is None
            }
        },
        SearchPhase::Where => {
            let cand = match event {
                SearchEvent::Ran(Some(out)) => reported_path(out.success, utf8_lossy(out.stdout@)),
                _ => None,
            };
            match cand {
                Some(c) => {
                    &&& new.names == old.names
                    &&& new.next == old.next
                    &&& new.last == old.last
                    &&& new.phase matches SearchPhase::CheckCandidate { path } && path@ == c
                    &&& a matches SearchAction::CheckFile(p) && p@ == c
                },
                None => advanced(old, new, a),
            }
        },
        SearchPhase::Done => false,
    }
}

impl PathSearch {
    fn advance(&mut self) -> (a: SearchAction)
        requires
            old(self).next <= old(self).names@.len(),
        ensures
            advanced(*old(self), *final(self), a),
    {
        if self.next < self.names.len() {
            let name = self.names[self.next].clone();
            self.next = self.next + 1;
            self.phase = SearchPhase::Where;
            SearchAction::RunWhere(name)
        } else {
            match &self.last {
                Some(p) => {
                    let path = p.clone();
                    let q = p.clone();
                    self.phase = SearchPhase::CheckLast { path };
                    SearchAction::CheckFile(q)
                },
                None => {
                    self.phase = SearchPhase::Done;
                    SearchAction::Finish(None)
                },
            }
        }
    }

    /// Starts a search: the path `from_env` first, if given, then `names`
    /// through `where`, then the path `last`, if given.
    pub fn begin(from_env: Option<String>, names: Vec<String>, last: Option<String>) -> (r: (
        PathSearch,
        SearchAction,
    ))
        ensures
            r.0.names == names,
            r.0.last == last,
            search_wf(r.0),
            match from_env {
                Some(p) => {
                    &&& r.0.next == 0
                    &&& r.0.phase matches SearchPhase::CheckEnv { path } && path@ == p@
                    &&& r.1 matches SearchAction::CheckFile(q) && q@ == p@
                },
                None => advanced(
                    PathSearch { names, next: 0, last, phase: SearchPhase::Done },
                    r.0,
                    r.1,
                ),
            },
    {
        match from_env {
            Some(p) => {
                let q = p.clone();
                (
                    PathSearch { names, next: 0, last, phase: SearchPhase::CheckEnv { path: p } },
                    SearchAction::CheckFile(q),
                )
            },
            None => {
                let mut s = PathSearch { names, next: 0, last, phase: SearchPhase::Done };
                let a = s.advance();
                (s, a)
            },
        }
    }

    /// Takes the caller's answer to the last action and says what to do
    /// next.
    pub fn step(&mut self, event: SearchEvent) -> (a: SearchAction)
        requires
            search_wf(*old(self)),
            answers(old(self).phase, event),
        ensures
            search_step(*old(self), event, *final(self), a),
            search_wf(*final(self)),
            search_measure(*final(self)) < search_measure(*old(self)),
            a is Finish <==> final(self).phase is Done,
    {
        let checked = match &self.phase {
            SearchPhase::CheckEnv { path } | SearchPhase::CheckCandidate { path } => Some((path.clone(), false)),
            SearchPhase::CheckLast { path } => Some((path.clone(), true)),
            _ => None,
        };
        if let Some((path, is_last)) = checked {
            return match event {
                SearchEvent::Checked(true) => {
                    self.phase = SearchPhase::Done;
                    SearchAction::Finish(Some(path))
                },
                _ => if is_last {
                    self.phase = SearchPhase::Done;
                    SearchAction::Finish(None)
                } else {
                    self.advance()
                },
            };
        }
        let cand = match &event {
            SearchEvent::Ran(Some(out)) => where_candidate(out.success, out.stdout.as_slice()),
            _ => None,
        };
        match cand {
            Some(c) => {
                let q = c.clone();
                self.phase = SearchPhase::CheckCandidate { path: c };
                SearchAction::CheckFile(q)
            },
            None => self.advance(),
        }
    }
}

pub(crate) fn names_vec(a: &str, b: &str, c: &str) -> (r: Vec<String>)
    ensures
        texts(r@) == seq![a@, b@, c@],
{
    let mut v: Vec<String> = Vec::new();
    v.push(String::from_str(a));
    v.push(String::from_str(b));
    v.push(String::from_str(c));
    assert(texts(v@) =~= seq![a@, b@, c@]);
    v
}

} // verus!
