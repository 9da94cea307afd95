//! Discovery of projects in a directory: which entries are projects, what
//! kind of project each is, and which of them the configuration names.

use vstd::prelude::*;
use crate::config::{join_path, join_path_text, path_exists};
use crate::seqs::lemma_filter_insert;
use crate::text::{
    chars_of, eq_ignore_ascii_case, eq_ignore_ascii_case_text, join_texts, joined, lemma_lex_refl, lemma_lex_total,
    lemma_lex_trans, lex_le, owned, same_text, starts_with, starts_with_text, text_le,
};

verus! {

/// A project found in the scanned directory.
#[derive(Clone, Debug)]
pub struct DiscoveredProject {
    pub name: String,
    pub path: String,
    pub has_docker_compose: bool,
    pub has_package_json: bool,
    pub has_cargo_toml: bool,
    pub is_configured: bool,
}

/// The scanner of one directory.
#[derive(Clone, Debug)]
pub struct ProjectScanner {
    scan_dir: String,
}

/// An entry listed in the scanned directory.
#[derive(Clone, Debug)]
pub struct DirEntryInfo {
    pub name: String,
    pub path: String,
    pub is_dir: bool,
}

/// An entry with what was found in it.
#[derive(Clone, Debug)]
pub struct ProjectProbe {
    pub name: String,
    pub path: String,
    pub is_dir: bool,
    pub has_docker_compose: bool,
    pub has_package_json: bool,
    pub has_cargo_toml: bool,
}

/// A project as values.
pub struct ProjectView {
    pub name: Seq<char>,
    pub path: Seq<char>,
    pub has_docker_compose: bool,
    pub has_package_json: bool,
    pub has_cargo_toml: bool,
    pub is_configured: bool,
}

impl View for DiscoveredProject {
    type V = ProjectView;

    open spec fn view(&self) -> ProjectView {
        ProjectView {
            name: self.name@,
            path: self.path@,
            has_docker_compose: self.has_docker_compose,
            has_package_json: self.has_package_json,
            has_cargo_toml: self.has_cargo_toml,
            is_configured: self.is_configured,
        }
    }
}

// ---------------------------------------------------------------------------
// Specifications
// ---------------------------------------------------------------------------

/// Entries the scan passes over: hidden ones and build or dependency folders.
pub open spec fn is_skipped_name(n: Seq<char>) -> bool {
    starts_with_text(n, "."@) || n == "node_modules"@ || n == "target"@ || n == "dist"@ || n == "build"@ || n
        == ".git"@
}

/// An entry worth probing: not skipped, and a directory.
pub open spec fn is_candidate(name: Seq<char>, is_dir: bool) -> bool {
    !is_skipped_name(name) && is_dir
}

/// A probed entry is a project: a candidate with at least one marker file.
pub open spec fn is_project(p: ProjectProbe) -> bool {
    is_candidate(p.name@, p.is_dir) && (p.has_docker_compose || p.has_package_json || p.has_cargo_toml)
}

/// The project a probed entry makes.
pub open spec fn project_of(p: ProjectProbe) -> ProjectView {
    ProjectView {
        name: p.name@,
        path: p.path@,
        has_docker_compose: p.has_docker_compose,
        has_package_json: p.has_package_json,
        has_cargo_toml: p.has_cargo_toml,
        is_configured: false,
    }
}

/// Projects in order of their names.
pub open spec fn sorted_by_name(s: Seq<ProjectView>) -> bool {
    forall|i: int, j: int| 0 <= i < j < s.len() ==> lex_le(#[trigger] s[i].name, #[trigger] s[j].name)
}

/// Projects of the given name.
pub open spec fn name_is(k: Seq<char>) -> spec_fn(ProjectView) -> bool {
    |p: ProjectView| p.name == k
}

/// The projects that probed entries make, before sorting.
pub open spec fn projects_of(probes: Seq<ProjectProbe>) -> Seq<ProjectView> {
    probes.filter(|p: ProjectProbe| is_project(p)).map_values(|p: ProjectProbe| project_of(p))
}

/// Whether a configured name matches a project name, ignoring ASCII case.
pub open spec fn is_configured_name(names: Seq<String>, name: Seq<char>) -> bool {
    exists|k: int| 0 <= k < names.len() && eq_ignore_ascii_case_text(#[trigger] names[k]@, name)
}

/// A project with its configured flag set from the configured names.
pub open spec fn marked(p: ProjectView, names: Seq<String>) -> ProjectView {
    ProjectView { is_configured: is_configured_name(names, p.name), ..p }
}

/// The labels of a project's kinds, in order.
pub open spec fn kind_labels(p: ProjectView) -> Seq<Seq<char>> {
    (if p.has_docker_compose { seq!["Docker"@] } else { Seq::empty() }) + (if p.has_package_json {
        seq!["Node.js"@]
    } else {
        Seq::empty()
    }) + (if p.has_cargo_toml { seq!["Rust"@] } else { Seq::empty() })
}

/// The readable kind of a project.
pub open spec fn kind_text(p: ProjectView) -> Seq<char> {
    if kind_labels(p).len() == 0 {
        "Unknown"@
    } else {
        joined(kind_labels(p), " + "@)
    }
}

/// The icon of a project.
pub open spec fn project_icon(p: ProjectView) -> Seq<char> {
    if p.has_docker_compose && p.has_package_json {
        "🐳"@
    } else if p.has_cargo_toml {
        "🦀"@
    } else if p.has_package_json {
        "📦"@
    } else if p.has_docker_compose {
        "🐋"@
    } else {
        "📁"@
    }
}

/// The compose file names a project directory is looked into for, in the
/// order they are tried.
pub open spec fn compose_file_names() -> Seq<Seq<char>> {
    seq!["docker-compose.yml"@, "docker-compose.yaml"@, "docker-compose.full.yml"@, "docker-compose.prod.yml"@]
}

/// The compose files looked for in `dir`.
pub open spec fn compose_candidate_paths(dir: Seq<char>) -> Seq<Seq<char>> {
    compose_file_names().map_values(|f: Seq<char>| join_path_text(dir, f))
}

/// Whether any answer is yes.
pub open spec fn any_true(found: Seq<bool>) -> bool {
    exists|i: int| 0 <= i < found.len() && found[i]
}

// ---------------------------------------------------------------------------
// Laws
// ---------------------------------------------------------------------------

/// The icon of a project follows its marker files: the whale-and-container
/// pair for compose and Node together, the crab for any other Rust project,
/// then the box for Node, the whale for compose alone, and the folder only
/// for a project without any marker file.
pub proof fn law_icon_of_markers(p: ProjectView)
    ensures
        p.has_docker_compose && p.has_package_json ==> project_icon(p) == "🐳"@,
        p.has_cargo_toml && !(p.has_docker_compose && p.has_package_json) ==> project_icon(p) == "🦀"@,
        p.has_package_json && !p.has_docker_compose && !p.has_cargo_toml ==> project_icon(p) == "📦"@,
        p.has_docker_compose && !p.has_package_json && !p.has_cargo_toml ==> project_icon(p) == "🐋"@,
        (project_icon(p) == "📁"@) <==> !(p.has_docker_compose || p.has_package_json || p.has_cargo_toml),
{
    reveal_strlit("🐳");
    reveal_strlit("🦀");
    reveal_strlit("📦");
    reveal_strlit("🐋");
    reveal_strlit("📁");
    assert("🐳"@[0] != "📁"@[0] && "🦀"@[0] != "📁"@[0] && "📦"@[0] != "📁"@[0] && "🐋"@[0] != "📁"@[0]);
}

/// Marking projects twice with the same names is marking them once.
pub proof fn law_mark_idempotent(p: ProjectView, names: Seq<String>)
    ensures
        marked(marked(p, names), names) == marked(p, names),
{
}

/// A project without any marker file is of unknown kind; one with a marker
/// file has at least one kind label.
pub proof fn law_kind_of_markers(p: ProjectView)
    ensures
        !(p.has_docker_compose || p.has_package_json || p.has_cargo_toml) ==> kind_text(p) == "Unknown"@,
        (p.has_docker_compose || p.has_package_json || p.has_cargo_toml) ==> kind_labels(p).len() > 0,
{
    if !(p.has_docker_compose || p.has_package_json || p.has_cargo_toml) {
        assert(kind_labels(p) =~= Seq::<Seq<char>>::empty());
    }
}

// ---------------------------------------------------------------------------
// Executable code
// ---------------------------------------------------------------------------

/// Whether the scan passes over an entry of this name.
pub fn skipped_name(name: &str) -> (r: bool)
    ensures
        r == is_skipped_name(name@),
{
    let cs = chars_of(name);
    starts_with(&cs, ".") || same_text(name, "node_modules") || same_text(name, "target") || same_text(name, "dist")
        || same_text(name, "build") || same_text(name, ".git")
}

/// The compose files looked for in `dir`, in the order they are tried.
pub fn compose_candidates(dir: &str) -> (r: Vec<String>)
    ensures
        r@.map_values(|s: String| s@) == compose_candidate_paths(dir@),
{
    let mut r: Vec<String> = Vec::new();
    r.push(join_path(dir, "docker-compose.yml"));
    r.push(join_path(dir, "docker-compose.yaml"));
    r.push(join_path(dir, "docker-compose.full.yml"));
    r.push(join_path(dir, "docker-compose.prod.yml"));
    assert(r@.map_values(|s: String| s@) =~= compose_candidate_paths(dir@));
    r
}

/// Whether any of the answers is yes.
pub fn any_found(found: &[bool]) -> (r: bool)
    ensures
        r == any_true(found@),
{
    let mut i: usize = 0;
    while i < found.len()
        invariant
            i <= found.len(),
            forall|k: int| 0 <= k < i ==> !found@[k],
        decreases found.len() - i,
    {
        if found[i] {
            return true;
        }
        i = i + 1;
    }
    false
}

/// The manifest files looked for in `dir`: its `package.json` and its
/// `Cargo.toml`.
pub fn manifest_paths(dir: &str) -> (r: (String, String))
    ensures
        r.0@ == join_path_text(dir@, "package.json"@),
        r.1@ == join_path_text(dir@, "Cargo.toml"@),
{
    (join_path(dir, "package.json"), join_path(dir, "Cargo.toml"))
}

/// What was found in `entry`, given the answers for its compose files, its
/// `package.json` and its `Cargo.toml`: a candidate keeps the answers, any
/// other entry has no marker.
pub fn probe_of(entry: &DirEntryInfo, compose: bool, package_json: bool, cargo_toml: bool) -> (r: ProjectProbe)
    ensures
        r.name@ == entry.name@,
        r.path@ == entry.path@,
        r.is_dir == entry.is_dir,
        r.has_docker_compose == (is_candidate(entry.name@, entry.is_dir) && compose),
        r.has_package_json == (is_candidate(entry.name@, entry.is_dir) && package_json),
        r.has_cargo_toml == (is_candidate(entry.name@, entry.is_dir) && cargo_toml),
{
    let candidate = !skipped_name(entry.name.as_str()) && entry.is_dir;
    ProjectProbe {
        name: owned(entry.name.as_str()),
        path: owned(entry.path.as_str()),
        is_dir: entry.is_dir,
        has_docker_compose: candidate && compose,
        has_package_json: candidate && package_json,
        has_cargo_toml: candidate && cargo_toml,
    }
}

/// The position at which `x` enters the sorted projects `r`: after every
/// project whose name is not after `x`.
fn insert_position(r: &Vec<DiscoveredProject>, x: &DiscoveredProject) -> (p: usize)
    requires
        sorted_by_name(r@.map_values(|d: DiscoveredProject| d@)),
    ensures
        p <= r.len(),
        forall|k: int| 0 <= k < p ==> lex_le(#[trigger] r@[k].name@, x.name@),
        forall|k: int| p <= k < r.len() ==> lex_le(x.name@, #[trigger] r@[k].name@),
        forall|k: int| p <= k < r.len() ==> !lex_le(#[trigger] r@[k].name@, x.name@),
{
    let ghost rv = r@.map_values(|d: DiscoveredProject| d@);
    let mut p: usize = 0;
    while p < r.len()
        invariant
            rv == r@.map_values(|d: DiscoveredProject| d@),
            sorted_by_name(rv),
            p <= r.len(),
            forall|k: int| 0 <= k < p ==> lex_le(#[trigger] r@[k].name@, x.name@),
        decreases r.len() - p,
    {
        if !text_le(r[p].name.as_str(), x.name.as_str()) {
            proof {
                lemma_lex_total(r@[p as int].name@, x.name@);
                assert forall|k: int| p <= k < r.len() implies lex_le(x.name@, #[trigger] r@[k].name@) by {
                    if k > p {
                        assert(lex_le(rv[p as int].name, rv[k].name));
                        lemma_lex_trans(x.name@, r@[p as int].name@, r@[k].name@);
                    }
                }
                assert forall|k: int| p <= k < r.len() implies !lex_le(#[trigger] r@[k].name@, x.name@) by {
                    if k > p {
                        assert(lex_le(rv[p as int].name, rv[k].name));
                        if lex_le(r@[k].name@, x.name@) {
                            lemma_lex_trans(r@[p as int].name@, r@[k].name@, x.name@);
                        }
                    }
                }
            }
            return p;
        }
        p = p + 1;
    }
    p
}

/// The projects that the probed entries make, sorted by name (projects of
/// the same name in the order they were probed).
pub fn collect_projects(probes: Vec<ProjectProbe>) -> (r: Vec<DiscoveredProject>)
    ensures
        sorted_by_name(r@.map_values(|d: DiscoveredProject| d@)),
        r@.map_values(|d: DiscoveredProject| d@).to_multiset() == projects_of(probes@).to_multiset(),
        forall|k: Seq<char>|
            #![trigger name_is(k)]
            r@.map_values(|d: DiscoveredProject| d@).filter(name_is(k)) == projects_of(probes@).filter(
                name_is(k),
            ),
{
    let ghost pred = |p: ProjectProbe| is_project(p);
    let ghost f = |p: ProjectProbe| project_of(p);
    let mut r: Vec<DiscoveredProject> = Vec::new();
    let mut i: usize = 0;
    assert(r@.map_values(|d: DiscoveredProject| d@) =~= Seq::<ProjectView>::empty());
    assert(probes@.subrange(0, 0).filter(pred) =~= Seq::<ProjectProbe>::empty()) by {
        reveal(Seq::filter);
    }
    assert(probes@.subrange(0, 0).filter(pred).map_values(f) =~= Seq::<ProjectView>::empty());
    while i < probes.len()
        invariant
            pred == (|p: ProjectProbe| is_project(p)),
            f == (|p: ProjectProbe| project_of(p)),
            i <= probes.len(),
            sorted_by_name(r@.map_values(|d: DiscoveredProject| d@)),
            r@.map_values(|d: DiscoveredProject| d@).to_multiset()
                == probes@.subrange(0, i as int).filter(pred).map_values(f).to_multiset(),
            forall|k: Seq<char>|
                #![trigger name_is(k)]
                r@.map_values(|d: DiscoveredProject| d@).filter(name_is(k)) == probes@.subrange(
                    0,
                    i as int,
                ).filter(pred).map_values(f).filter(name_is(k)),
        decreases probes.len() - i,
    {
        let ghost before = r@.map_values(|d: DiscoveredProject| d@);
        let q = &probes[i];
        proof {
            probes@.subrange(0, i as int).lemma_filter_push(probes@[i as int], pred);
            assert(probes@.subrange(0, i as int).push(probes@[i as int]) =~= probes@.subrange(0, i + 1));
        }
        if !skipped_name(q.name.as_str()) && q.is_dir && (q.has_docker_compose || q.has_package_json
            || q.has_cargo_toml) {
            let x = DiscoveredProject {
                name: q.name.clone(),
                path: q.path.clone(),
                has_docker_compose: q.has_docker_compose,
                has_package_json: q.has_package_json,
                has_cargo_toml: q.has_cargo_toml,
                is_configured: false,
            };
            let p = insert_position(&r, &x);
            r.insert(p, x);
            proof {
                let after = r@.map_values(|d: DiscoveredProject| d@);
                assert(after =~= before.insert(p as int, x@));
                vstd::seq_lib::to_multiset_insert(before, p as int, x@);
                let prev = probes@.subrange(0, i as int).filter(pred);
                assert(prev.push(probes@[i as int]).map_values(f) =~= prev.map_values(f).push(x@));
                vstd::seq_lib::to_multiset_build(prev.map_values(f), x@);
                assert(before.insert(p as int, x@).to_multiset() =~= before.to_multiset().insert(x@));
                assert forall|k: Seq<char>|
                    #![trigger name_is(k)]
                    after.filter(name_is(k)) == prev.push(probes@[i as int]).map_values(f).filter(
                        name_is(k),
                    ) by {
                    assert forall|j: int| p <= j < before.len() implies (#[trigger] before[j]).name != x.name@ by {
                        assert(before[j] == r@[j + 1]@);
                        assert(!lex_le(before[j].name, x.name@));
                        if before[j].name == x.name@ {
                            lemma_lex_refl(x.name@);
                        }
                    }
                    lemma_filter_insert(before, p as int, x@, name_is(k));
                    prev.map_values(f).lemma_filter_push(x@, name_is(k));
                }
                assert forall|a: int, b: int| 0 <= a < b < after.len() implies lex_le(
                    #[trigger] after[a].name,
                    #[trigger] after[b].name,
                ) by {
                    if b < p {
                        assert(after[a] == before[a] && after[b] == before[b]);
                    } else if b == p {
                        assert(after[a] == before[a]);
                    } else if a < p {
                        assert(after[a] == before[a] && after[b] == before[b - 1]);
                        lemma_lex_trans(before[a].name, x.name@, before[b - 1].name);
                    } else if a == p {
                        assert(after[b] == before[b - 1]);
                    } else {
                        assert(after[a] == before[a - 1] && after[b] == before[b - 1]);
                    }
                }
            }
        }
        i = i + 1;
    }
    assert(probes@.subrange(0, i as int) =~= probes@);
    r
}

impl ProjectScanner {
    /// A scanner of the directory `scan_dir`.
    pub fn new(scan_dir: &str) -> (r: ProjectScanner)
        ensures
            r.dir_view() == scan_dir@,
    {
        ProjectScanner { scan_dir: owned(scan_dir) }
    }

    /// The scanned directory, as values.
    pub closed spec fn dir_view(&self) -> Seq<char> {
        self.scan_dir@
    }

    /// The scanned directory.
    pub fn scan_dir(&self) -> (r: &str)
        ensures
            r@ == self.dir_view(),
    {
        self.scan_dir.as_str()
    }

    /// Whether `dir` holds one of the compose files the launcher knows: each
    /// of `compose_candidates(dir)` is looked for on the disk, and the answers
    /// are combined by `any_found`. What the disk answers is not stated.
    pub fn has_docker_compose(&self, dir: &str) -> bool {
        let candidates = compose_candidates(dir);
        let mut found: Vec<bool> = Vec::new();
        let mut i: usize = 0;
        while i < candidates.len()
            invariant
                i <= candidates.len(),
            decreases candidates.len() - i,
        {
            found.push(path_exists(candidates[i].as_str()));
            i = i + 1;
        }
        any_found(found.as_slice())
    }

    /// Probes the listed entries: each candidate is looked into for its
    /// compose files (`has_docker_compose`) and for the files of
    /// `manifest_paths`; other entries are not looked into. Each probe is made
    /// by `probe_of` from the answers. What the disk answers is not stated.
    pub fn probe_entries(&self, entries: &[DirEntryInfo]) -> (r: Vec<ProjectProbe>)
        ensures
            r.len() == entries.len(),
            forall|i: int|
                0 <= i < entries.len() ==> {
                    &&& (#[trigger] r@[i]).name@ == entries@[i].name@
                    &&& r@[i].path@ == entries@[i].path@
                    &&& r@[i].is_dir == entries@[i].is_dir
                    &&& !is_candidate(entries@[i].name@, entries@[i].is_dir) ==> !r@[i].has_docker_compose
                        && !r@[i].has_package_json && !r@[i].has_cargo_toml
                },
    {
        let mut r: Vec<ProjectProbe> = Vec::new();
        let mut i: usize = 0;
        while i < entries.len()
            invariant
                i <= entries.len(),
                r.len() == i,
                forall|k: int|
                    0 <= k < i ==> {
                        &&& (#[trigger] r@[k]).name@ == entries@[k].name@
                        &&& r@[k].path@ == entries@[k].path@
                        &&& r@[k].is_dir == entries@[k].is_dir
                        &&& !is_candidate(entries@[k].name@, entries@[k].is_dir) ==> !r@[k].has_docker_compose
                            && !r@[k].has_package_json && !r@[k].has_cargo_toml
                    },
            decreases entries.len() - i,
        {
            let e = &entries[i];
            let candidate = !skipped_name(e.name.as_str()) && e.is_dir;
            let (dc, pkg, cargo) = if candidate {
                let (package_json, cargo_toml) = manifest_paths(e.path.as_str());
                (
                    self.has_docker_compose(e.path.as_str()),
                    path_exists(package_json.as_str()),
                    path_exists(cargo_toml.as_str()),
                )
            } else {
                (false, false, false)
            };
            r.push(probe_of(e, dc, pkg, cargo));
            i = i + 1;
        }
        r
    }

    /// Sets each project's configured flag: whether a configured name equals
    /// its name up to ASCII case.
    pub fn mark_configured(projects: &mut [DiscoveredProject], configured_names: &[String])
        ensures
            final(projects)@.len() == old(projects)@.len(),
            forall|i: int|
                0 <= i < old(projects)@.len() ==> (#[trigger] final(projects)@[i])@ == marked(
                    old(projects)@[i]@,
                    configured_names@,
                ),
    {
        let mut i: usize = 0;
        while i < projects.len()
            invariant
                i <= projects.len(),
                projects@.len() == old(projects)@.len(),
                forall|k: int| 0 <= k < i ==> (#[trigger] projects@[k])@ == marked(old(projects)@[k]@, configured_names@),
                forall|k: int| i <= k < projects@.len() ==> #[trigger] projects@[k] == old(projects)@[k],
            decreases projects.len() - i,
        {
            let mut found = false;
            let mut j: usize = 0;
            while j < configured_names.len()
                invariant
                    i < projects.len(),
                    j <= configured_names.len(),
                    found == exists|k: int| 0 <= k < j && eq_ignore_ascii_case_text(#[trigger] configured_names@[k]@, projects@[i as int].name@),
                decreases configured_names.len() - j,
            {
                if eq_ignore_ascii_case(configured_names[j].as_str(), projects[i].name.as_str()) {
                    found = true;
                }
                j = j + 1;
            }
            projects[i].is_configured = found;
            i = i + 1;
        }
    }
}

impl DiscoveredProject {
    /// The readable kind of the project: its kinds joined by " + ", or
    /// "Unknown".
    pub fn project_type(&self) -> (r: String)
        ensures
            r@ == kind_text(self@),
    {
        let mut types: Vec<&str> = Vec::new();
        if self.has_docker_compose {
            types.push("Docker");
        }
        if self.has_package_json {
            types.push("Node.js");
        }
        if self.has_cargo_toml {
            types.push("Rust");
        }
        assert(types@.map_values(|p: &str| p@) =~= kind_labels(self@));
        if types.len() == 0 {
            owned("Unknown")
        } else {
            join_texts(&types, " + ")
        }
    }

    /// The icon of the project.
    pub fn icon(&self) -> (r: &'static str)
        ensures
            r@ == project_icon(self@),
    {
        if self.has_docker_compose && self.has_package_json {
            "🐳"
        } else if self.has_cargo_toml {
            "🦀"
        } else if self.has_package_json {
            "📦"
        } else if self.has_docker_compose {
            "🐋"
        } else {
            "📁"
        }
    }
}

} // verus!
