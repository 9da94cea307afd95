//! Launching an ecosystem: the shell command of a service, the browser's
//! arguments, the wait for readiness before the browser opens, the guard
//! against a second launch, and the summary of a code count.

use vstd::prelude::*;
use crate::config::{work_dir, Ecosystem, Service, ServiceType};
use crate::text::{joined, owned, push_text, same_text};
use crate::seqs::lemma_filter_insert;

verus! {

/// How many readiness checks are made before giving up.
pub const READY_MAX_ATTEMPTS: u32 = 60;

/// Seconds between two readiness checks.
pub const READY_POLL_SECS: u64 = 5;

/// Seconds after a launch before the launch guard is released.
pub const LAUNCH_SETTLE_SECS: u64 = 2;

/// What a readiness check concludes.
#[derive(Clone, Copy, Debug, PartialEq, Eq, Structural)]
pub enum Readiness {
    /// Every service is up: open the browser.
    Ready,
    /// Too many checks failed: stop waiting.
    GaveUp,
    /// Check again later.
    Waiting,
}

/// The count of checks made while waiting for an ecosystem to be ready.
#[derive(Clone, Copy, Debug)]
pub struct ReadinessWatch {
    pub attempt: u32,
    pub max_attempts: u32,
}

/// The guard that lets one launch through at a time.
#[derive(Clone, Copy, Debug)]
pub struct LaunchGuard {
    pub launching: bool,
}

/// One application service to start: its name, its command as shown, the
/// shell command line that runs it (none for an empty command, which cannot
/// be run) and the directory it runs in.
#[derive(Clone, Debug)]
pub struct LaunchStep {
    pub service: String,
    pub display: String,
    pub command: Option<String>,
    pub cwd: String,
}

/// A launch step as values.
pub struct StepView {
    pub service: Seq<char>,
    pub display: Seq<char>,
    pub command: Option<Seq<char>>,
    pub cwd: Seq<char>,
}

impl View for LaunchStep {
    type V = StepView;

    open spec fn view(&self) -> StepView {
        StepView {
            service: self.service@,
            display: self.display@,
            command: match self.command {
                Some(c) => Some(c@),
                None => None,
            },
            cwd: self.cwd@,
        }
    }
}

/// The line counts of one language.
#[derive(Clone, Copy, Debug, PartialEq, Eq, Structural)]
pub struct TokeiLanguage {
    pub blanks: u64,
    pub code: u64,
    pub comments: u64,
}

/// The code statistics of a project.
#[derive(Clone, Debug)]
pub struct ProjectStats {
    pub project_name: String,
    pub languages: Vec<(String, TokeiLanguage)>,
    pub total_lines: u64,
    pub total_code: u64,
    pub total_files: usize,
}

// ---------------------------------------------------------------------------
// Specifications
// ---------------------------------------------------------------------------

/// What a check concludes after `attempt` checks, the last one seeing
/// every service up or not.
pub open spec fn readiness_after(attempt: nat, max_attempts: nat, all_up: bool) -> Readiness {
    if all_up {
        Readiness::Ready
    } else if attempt >= max_attempts {
        Readiness::GaveUp
    } else {
        Readiness::Waiting
    }
}

/// The shell command line of a service's command: the program, a space,
/// and the arguments separated by spaces.
pub open spec fn command_line_text(cmd: Seq<Seq<char>>) -> Seq<char> {
    cmd[0] + " "@ + joined(cmd.drop_first(), " "@)
}

/// The words of a command as values.
pub open spec fn words(cmd: Seq<String>) -> Seq<Seq<char>> {
    cmd.map_values(|w: String| w@)
}

/// A service the launcher starts: an application service with a command.
pub open spec fn is_launched(s: Service) -> bool {
    s.service_type == ServiceType::App && s.command is Some
}

/// The step that starts a launched service of an ecosystem at `path`.
pub open spec fn step_of(s: Service, path: Seq<char>) -> StepView {
    let cmd = words(s.command.unwrap()@);
    StepView {
        service: s.name@,
        display: joined(cmd, " "@),
        command: if cmd.len() >= 1 { Some(command_line_text(cmd)) } else { None },
        cwd: work_dir(s.cwd, path),
    }
}

/// The steps that start an ecosystem's application services, in the order
/// of its services.
pub open spec fn launch_steps(e: Ecosystem) -> Seq<StepView> {
    e.services@.filter(|s: Service| is_launched(s)).map_values(|s: Service| step_of(s, e.path@))
}

/// The arguments given to the browser.
pub open spec fn browser_args_text(profile: Option<Seq<char>>, url: Seq<char>) -> Seq<Seq<char>> {
    match profile {
        Some(p) => seq!["--profile-directory="@ + p, url],
        None => seq![url],
    }
}

/// A language entry as values.
pub open spec fn lang_view(e: (String, TokeiLanguage)) -> (Seq<char>, TokeiLanguage) {
    (e.0@, e.1)
}

/// The entries that are languages, not the overall total.
pub open spec fn languages_only(s: Seq<(Seq<char>, TokeiLanguage)>) -> Seq<(Seq<char>, TokeiLanguage)> {
    s.filter(|e: (Seq<char>, TokeiLanguage)| e.0 != "Total"@)
}

/// The lines of code of the entries.
pub open spec fn sum_code(s: Seq<(Seq<char>, TokeiLanguage)>) -> nat
    decreases s.len(),
{
    if s.len() == 0 {
        0
    } else {
        sum_code(s.drop_last()) + s.last().1.code as nat
    }
}

/// All lines (code, comments and blanks) of the entries.
pub open spec fn sum_lines(s: Seq<(Seq<char>, TokeiLanguage)>) -> nat
    decreases s.len(),
{
    if s.len() == 0 {
        0
    } else {
        sum_lines(s.drop_last()) + s.last().1.code as nat + s.last().1.comments as nat + s.last().1.blanks as nat
    }
}

/// Entries with `c` lines of code.
pub open spec fn code_is(c: u64) -> spec_fn((Seq<char>, TokeiLanguage)) -> bool {
    |e: (Seq<char>, TokeiLanguage)| e.1.code == c
}

/// Entries with the most code first.
pub open spec fn sorted_by_code_desc(s: Seq<(Seq<char>, TokeiLanguage)>) -> bool {
    forall|i: int, j: int| 0 <= i < j < s.len() ==> (#[trigger] s[i]).1.code >= (#[trigger] s[j]).1.code
}

// ---------------------------------------------------------------------------
// Lemmas and laws
// ---------------------------------------------------------------------------

/// The sums of a concatenation are the sums of the parts.
proof fn lemma_sums_add(a: Seq<(Seq<char>, TokeiLanguage)>, b: Seq<(Seq<char>, TokeiLanguage)>)
    ensures
        sum_lines(a + b) == sum_lines(a) + sum_lines(b),
        sum_code(a + b) == sum_code(a) + sum_code(b),
    decreases b.len(),
{
    if b.len() > 0 {
        lemma_sums_add(a, b.drop_last());
        assert((a + b).drop_last() =~= a + b.drop_last());
    }
}

/// Code is part of all lines.
proof fn lemma_code_within_lines(s: Seq<(Seq<char>, TokeiLanguage)>)
    ensures
        sum_code(s) <= sum_lines(s),
    decreases s.len(),
{
    if s.len() > 0 {
        lemma_code_within_lines(s.drop_last());
    }
}

/// The watch gives up on the check that reaches the limit, and not before.
pub proof fn law_gives_up_at_limit(attempt: nat, max_attempts: nat)
    ensures
        attempt + 1 < max_attempts ==> readiness_after(attempt + 1, max_attempts, false) == Readiness::Waiting,
        attempt + 1 == max_attempts ==> readiness_after(attempt + 1, max_attempts, false) == Readiness::GaveUp,
        readiness_after(attempt + 1, max_attempts, true) == Readiness::Ready,
{
}

// ---------------------------------------------------------------------------
// Executable code
// ---------------------------------------------------------------------------

impl ReadinessWatch {
    /// A watch that has made no check yet.
    pub fn new() -> (r: ReadinessWatch)
        ensures
            r.attempt == 0,
            r.max_attempts == READY_MAX_ATTEMPTS,
    {
        ReadinessWatch { attempt: 0, max_attempts: READY_MAX_ATTEMPTS }
    }

    /// Records one more check, which saw every service up or not, and says
    /// what to do.
    pub fn observe(&mut self, all_up: bool) -> (r: Readiness)
        requires
            old(self).attempt < old(self).max_attempts,
        ensures
            final(self).attempt == old(self).attempt + 1,
            final(self).max_attempts == old(self).max_attempts,
            r == readiness_after(final(self).attempt as nat, old(self).max_attempts as nat, all_up),
    {
        self.attempt = self.attempt + 1;
        if all_up {
            Readiness::Ready
        } else if self.attempt >= self.max_attempts {
            Readiness::GaveUp
        } else {
            Readiness::Waiting
        }
    }
}

impl LaunchGuard {
    /// A guard with no launch under way.
    pub fn new() -> (r: LaunchGuard)
        ensures
            !r.launching,
    {
        LaunchGuard { launching: false }
    }

    /// Asks to launch: the launch may go ahead when none is under way, and
    /// the guard is then set.
    pub fn request(&mut self) -> (go_ahead: bool)
        ensures
            go_ahead == !old(self).launching,
            final(self).launching,
    {
        if self.launching {
            false
        } else {
            self.launching = true;
            true
        }
    }

    /// Ends the launch under way: the next request may go ahead again. The
    /// launcher calls this once the settling delay after a launch is over.
    pub fn release(&mut self)
        ensures
            !final(self).launching,
    {
        self.launching = false;
    }
}

/// The shell command line of a service's command.
pub fn command_line(cmd: &Vec<String>) -> (r: String)
    requires
        cmd.len() >= 1,
    ensures
        r@ == command_line_text(cmd@.map_values(|s: String| s@)),
{
    let ghost views = cmd@.map_values(|s: String| s@);
    let mut rest = String::new();
    let mut i: usize = 1;
    assert(views.drop_first().subrange(0, 0) =~= Seq::<Seq<char>>::empty());
    while i < cmd.len()
        invariant
            views == cmd@.map_values(|s: String| s@),
            1 <= i <= cmd.len(),
            rest@ == joined(views.drop_first().subrange(0, i - 1), " "@),
        decreases cmd.len() - i,
    {
        if i > 1 {
            push_text(&mut rest, " ");
        }
        push_text(&mut rest, cmd[i].as_str());
        assert(views.drop_first().subrange(0, i as int).drop_last() =~= views.drop_first().subrange(0, i - 1));
        i = i + 1;
    }
    assert(views.drop_first().subrange(0, cmd.len() - 1) =~= views.drop_first());
    let mut r = cmd[0].clone();
    push_text(&mut r, " ");
    push_text(&mut r, rest.as_str());
    r
}

/// The words of a command joined by spaces, as the launcher shows it.
pub fn command_display(cmd: &Vec<String>) -> (r: String)
    ensures
        r@ == joined(words(cmd@), " "@),
{
    let ghost views = words(cmd@);
    let mut r = String::new();
    let mut i: usize = 0;
    while i < cmd.len()
        invariant
            views == words(cmd@),
            i <= cmd.len(),
            r@ == joined(views.subrange(0, i as int), " "@),
        decreases cmd.len() - i,
    {
        if i > 0 {
            push_text(&mut r, " ");
        }
        push_text(&mut r, cmd[i].as_str());
        assert(views.subrange(0, i + 1).drop_last() =~= views.subrange(0, i as int));
        i = i + 1;
    }
    assert(views.subrange(0, cmd.len() as int) =~= views);
    r
}

/// The step that starts one service, whose command is `cmd`.
fn step_for(s: &Service, cmd: &Vec<String>, path: &str) -> (r: LaunchStep)
    requires
        s.command == Some(*cmd),
    ensures
        r@ == step_of(*s, path@),
{
    let command = if cmd.len() >= 1 { Some(command_line(cmd)) } else { None };
    LaunchStep {
        service: owned(s.name.as_str()),
        display: command_display(cmd),
        command,
        cwd: s.working_directory(path),
    }
}

impl Ecosystem {
    /// The steps that start the application services, in order: each
    /// application service with a command, with its command and directory.
    pub fn launch_plan(&self) -> (r: Vec<LaunchStep>)
        ensures
            r@.map_values(|st: LaunchStep| st@) == launch_steps(*self),
    {
        let ghost pred = |s: Service| is_launched(s);
        let ghost f = |s: Service| step_of(s, self.path@);
        let mut r: Vec<LaunchStep> = Vec::new();
        let mut i: usize = 0;
        while i < self.services.len()
            invariant
                i <= self.services.len(),
                pred == (|s: Service| is_launched(s)),
                f == (|s: Service| step_of(s, self.path@)),
                r@.map_values(|st: LaunchStep| st@) == self.services@.subrange(0, i as int).filter(pred).map_values(f),
            decreases self.services.len() - i,
        {
            let ghost before = r@.map_values(|st: LaunchStep| st@);
            proof {
                self.services@.subrange(0, i as int).lemma_filter_push(self.services@[i as int], pred);
                assert(self.services@.subrange(0, i as int).push(self.services@[i as int])
                    =~= self.services@.subrange(0, i + 1));
            }
            let s = &self.services[i];
            let launched = match &s.command {
                Some(cmd) => if s.service_type == ServiceType::App {
                    Some(step_for(s, cmd, self.path.as_str()))
                } else {
                    None
                },
                None => None,
            };
            if let Some(step) = launched {
                r.push(step);
                assert(r@.map_values(|st: LaunchStep| st@) =~= before.push(f(self.services@[i as int])));
                assert(self.services@.subrange(0, i + 1).filter(pred) == self.services@.subrange(0, i as int).filter(pred).push(self.services@[i as int]));
                assert(self.services@.subrange(0, i + 1).filter(pred).map_values(f) =~= self.services@.subrange(0, i as int).filter(pred).map_values(f).push(f(self.services@[i as int])));
            } else {
                assert(self.services@.subrange(0, i + 1).filter(pred) == self.services@.subrange(0, i as int).filter(pred));
            }
            i = i + 1;
        }
        assert(self.services@.subrange(0, self.services.len() as int) =~= self.services@);
        r
    }
}

/// The arguments given to the browser: the profile directory when one is
/// configured, then the address.
pub fn browser_args(profile: &Option<String>, url: &str) -> (r: Vec<String>)
    ensures
        r@.map_values(|s: String| s@) == browser_args_text(
            match profile {
                Some(p) => Some(p@),
                None => None,
            },
            url@,
        ),
{
    let mut r: Vec<String> = Vec::new();
    match profile {
        Some(p) => {
            let mut a = owned("--profile-directory=");
            push_text(&mut a, p.as_str());
            r.push(a);
        },
        None => {},
    }
    r.push(owned(url));
    assert(r@.map_values(|s: String| s@) =~= browser_args_text(
        match profile {
            Some(p) => Some(p@),
            None => None,
        },
        url@,
    ));
    r
}

/// The position at which a language with `code` lines of code enters the
/// languages `r`, most code first: after every language with as much code.
fn code_position(r: &Vec<(String, TokeiLanguage)>, code: u64) -> (p: usize)
    requires
        sorted_by_code_desc(r@.map_values(|e: (String, TokeiLanguage)| lang_view(e))),
    ensures
        p <= r.len(),
        forall|k: int| 0 <= k < p ==> (#[trigger] r@[k]).1.code >= code,
        forall|k: int| p <= k < r.len() ==> (#[trigger] r@[k]).1.code < code,
{
    let ghost rv = r@.map_values(|e: (String, TokeiLanguage)| lang_view(e));
    let mut p: usize = 0;
    while p < r.len()
        invariant
            rv == r@.map_values(|e: (String, TokeiLanguage)| lang_view(e)),
            sorted_by_code_desc(rv),
            p <= r.len(),
            forall|k: int| 0 <= k < p ==> (#[trigger] r@[k]).1.code >= code,
        decreases r.len() - p,
    {
        if r[p].1.code < code {
            assert forall|k: int| p <= k < r.len() implies (#[trigger] r@[k]).1.code < code by {
                if k > p {
                    assert(rv[p as int].1.code >= rv[k].1.code);
                }
            }
            return p;
        }
        p = p + 1;
    }
    p
}

/// The statistics of a project from its count per language: the overall
/// "Total" entry left out, the languages with the most code first (those
/// with as much code as each other in the order they were given), and the
/// totals of code and of all lines.
pub fn summarize_languages(project_name: &str, entries: &Vec<(String, TokeiLanguage)>) -> (r: ProjectStats)
    requires
        sum_lines(languages_only(entries@.map_values(|e: (String, TokeiLanguage)| lang_view(e)))) <= u64::MAX,
    ensures
        r.project_name@ == project_name@,
        sorted_by_code_desc(r.languages@.map_values(|e: (String, TokeiLanguage)| lang_view(e))),
        r.languages@.map_values(|e: (String, TokeiLanguage)| lang_view(e)).to_multiset() == languages_only(
            entries@.map_values(|e: (String, TokeiLanguage)| lang_view(e)),
        ).to_multiset(),
        forall|c: u64|
            #![trigger code_is(c)]
            r.languages@.map_values(|e: (String, TokeiLanguage)| lang_view(e)).filter(code_is(c)) == languages_only(
                entries@.map_values(|e: (String, TokeiLanguage)| lang_view(e)),
            ).filter(code_is(c)),
        r.total_code == sum_code(languages_only(entries@.map_values(|e: (String, TokeiLanguage)| lang_view(e)))),
        r.total_lines == sum_lines(languages_only(entries@.map_values(|e: (String, TokeiLanguage)| lang_view(e)))),
        r.total_files == 0,
{
    let ghost ev = entries@.map_values(|e: (String, TokeiLanguage)| lang_view(e));
    let ghost pred = |e: (Seq<char>, TokeiLanguage)| e.0 != "Total"@;
    let mut langs: Vec<(String, TokeiLanguage)> = Vec::new();
    let mut total_lines: u64 = 0;
    let mut total_code: u64 = 0;
    let mut i: usize = 0;
    assert(ev.subrange(0, 0).filter(pred) =~= Seq::<(Seq<char>, TokeiLanguage)>::empty()) by {
        reveal(Seq::filter);
    }
    assert(langs@.map_values(|e: (String, TokeiLanguage)| lang_view(e)) =~= Seq::<(Seq<char>, TokeiLanguage)>::empty());
    while i < entries.len()
        invariant
            ev == entries@.map_values(|e: (String, TokeiLanguage)| lang_view(e)),
            pred == (|e: (Seq<char>, TokeiLanguage)| e.0 != "Total"@),
            sum_lines(ev.filter(pred)) <= u64::MAX,
            i <= entries.len(),
            sorted_by_code_desc(langs@.map_values(|e: (String, TokeiLanguage)| lang_view(e))),
            langs@.map_values(|e: (String, TokeiLanguage)| lang_view(e)).to_multiset() == ev.subrange(0, i as int).filter(
                pred,
            ).to_multiset(),
            forall|c: u64|
                #![trigger code_is(c)]
                langs@.map_values(|e: (String, TokeiLanguage)| lang_view(e)).filter(code_is(c)) == ev.subrange(
                    0,
                    i as int,
                ).filter(pred).filter(code_is(c)),
            total_lines == sum_lines(ev.subrange(0, i as int).filter(pred)),
            total_code == sum_code(ev.subrange(0, i as int).filter(pred)),
        decreases entries.len() - i,
    {
        let ghost before = langs@.map_values(|e: (String, TokeiLanguage)| lang_view(e));
        let ghost prev = ev.subrange(0, i as int).filter(pred);
        proof {
            ev.subrange(0, i as int).lemma_filter_push(ev[i as int], pred);
            assert(ev.subrange(0, i as int).push(ev[i as int]) =~= ev.subrange(0, i + 1));
            assert(ev =~= ev.subrange(0, i + 1) + ev.subrange(i + 1, ev.len() as int));
            Seq::filter_distributes_over_add(ev.subrange(0, i + 1), ev.subrange(i + 1, ev.len() as int), pred);
            lemma_sums_add(ev.subrange(0, i + 1).filter(pred), ev.subrange(i + 1, ev.len() as int).filter(pred));
            lemma_code_within_lines(ev.subrange(0, i + 1).filter(pred));
        }
        if !same_text(entries[i].0.as_str(), "Total") {
            let lang = entries[i].1;
            proof {
                assert(prev.push(ev[i as int]).drop_last() =~= prev);
            }
            total_lines = total_lines + lang.code + lang.comments + lang.blanks;
            total_code = total_code + lang.code;
            let p = code_position(&langs, lang.code);
            langs.insert(p, (entries[i].0.clone(), lang));
            proof {
                let x = ev[i as int];
                let after = langs@.map_values(|e: (String, TokeiLanguage)| lang_view(e));
                assert(after =~= before.insert(p as int, x));
                vstd::seq_lib::to_multiset_insert(before, p as int, x);
                vstd::seq_lib::to_multiset_build(prev, x);
                assert forall|c: u64|
                    #![trigger code_is(c)]
                    after.filter(code_is(c)) == prev.push(x).filter(code_is(c)) by {
                    assert forall|j: int| p <= j < before.len() implies (#[trigger] before[j]).1.code != x.1.code by {
                        assert(before[j] == lang_view(langs@[j + 1]));
                    }
                    lemma_filter_insert(before, p as int, x, code_is(c));
                    prev.lemma_filter_push(x, code_is(c));
                }
                assert forall|a: int, b: int| 0 <= a < b < after.len() implies (#[trigger] after[a]).1.code
                    >= (#[trigger] after[b]).1.code by {
                    if b < p {
                        assert(after[a] == before[a] && after[b] == before[b]);
                    } else if b == p {
                        assert(after[a] == before[a]);
                    } else if a < p {
                        assert(after[a] == before[a] && after[b] == before[b - 1]);
                    } else if a == p {
                        assert(after[b] == before[b - 1]);
                    } else {
                        assert(after[a] == before[a - 1] && after[b] == before[b - 1]);
                    }
                }
            }
        }
        i = i + 1;
    }
    assert(ev.subrange(0, i as int) =~= ev);
    ProjectStats { project_name: owned(project_name), languages: langs, total_lines, total_code, total_files: 0 }
}

} // verus!
