//! The ecosystems configuration: ecosystems, their environments and
//! services, and the lookups the launcher makes on them.

use vstd::prelude::*;
use crate::text::{owned, push_text, same_text};

verus! {

/// How a service runs.
#[derive(Clone, Copy, Debug, PartialEq, Eq, Structural)]
pub enum ServiceType {
    Docker,
    App,
}

/// How a service's health is probed.
#[derive(Clone, Copy, Debug, PartialEq, Eq, Structural)]
pub enum HealthCheckType {
    Tcp,
    Http,
}

/// A named environment ("dev", "prod") of an ecosystem.
#[derive(Clone, Debug)]
pub struct Environment {
    pub browser_url: String,
    pub docker_compose: Option<String>,
}

/// One service of an ecosystem.
#[derive(Clone, Debug)]
pub struct Service {
    pub name: String,
    pub port: u16,
    pub icon: String,
    pub service_type: ServiceType,
    pub health_check: HealthCheckType,
    pub health_path: Option<String>,
    pub command: Option<Vec<String>>,
    pub cwd: Option<String>,
}

/// One ecosystem: a project directory with its compose files and services.
/// `environments` lists the environments by name; a lookup takes the first
/// entry with the name asked for.
#[derive(Clone, Debug)]
pub struct Ecosystem {
    pub name: String,
    pub path: String,
    pub docker_compose: String,
    pub docker_compose_fallback: Option<String>,
    pub icon: String,
    pub color: String,
    pub auto_open_browser: bool,
    pub browser_profile: Option<String>,
    pub environments: Vec<(String, Environment)>,
    pub services: Vec<Service>,
}

/// The whole configuration file.
#[derive(Clone, Debug)]
pub struct EcosystemsConfig {
    pub ecosystem: Vec<Ecosystem>,
}

/// The name of the configuration file.
pub const CONFIG_FILE_NAME: &'static str = "ecosystems.toml";

// ---------------------------------------------------------------------------
// Specifications
// ---------------------------------------------------------------------------

/// The first ecosystem called `name`.
pub open spec fn lookup_ecosystem(ecos: Seq<Ecosystem>, name: Seq<char>) -> Option<Ecosystem>
    decreases ecos.len(),
{
    if ecos.len() == 0 {
        None
    } else if ecos[0].name@ == name {
        Some(ecos[0])
    } else {
        lookup_ecosystem(ecos.drop_first(), name)
    }
}

/// The first environment entry called `key`.
pub open spec fn lookup_environment(envs: Seq<(String, Environment)>, key: Seq<char>) -> Option<Environment>
    decreases envs.len(),
{
    if envs.len() == 0 {
        None
    } else if envs[0].0@ == key {
        Some(envs[0].1)
    } else {
        lookup_environment(envs.drop_first(), key)
    }
}

/// `dir` and `file` joined by a slash.
pub open spec fn join_path_text(dir: Seq<char>, file: Seq<char>) -> Seq<char> {
    dir + "/"@ + file
}

/// Services of the given type.
pub open spec fn of_type(t: ServiceType) -> spec_fn(Service) -> bool {
    |s: Service| s.service_type == t
}

/// The compose file of an ecosystem, given whether its primary file and its
/// fallback exist under the ecosystem's path.
pub open spec fn compose_choice(e: Ecosystem, primary_exists: bool, fallback_exists: bool) -> Seq<char> {
    if primary_exists {
        e.docker_compose@
    } else if e.docker_compose_fallback is Some && fallback_exists {
        e.docker_compose_fallback.unwrap()@
    } else {
        e.docker_compose@
    }
}

/// The browser address configured for an environment.
pub open spec fn browser_url_of(e: Ecosystem, env: Seq<char>) -> Option<Seq<char>> {
    match lookup_environment(e.environments@, env) {
        Some(en) => Some(en.browser_url@),
        None => None,
    }
}

/// The compose file that an environment names, if it names one.
pub open spec fn env_compose_override(e: Ecosystem, env: Seq<char>) -> Option<Seq<char>> {
    match lookup_environment(e.environments@, env) {
        Some(en) => match en.docker_compose {
            Some(f) => Some(f@),
            None => None,
        },
        None => None,
    }
}

/// The working directory of a service inside an ecosystem directory.
pub open spec fn work_dir(cwd: Option<String>, ecosystem_path: Seq<char>) -> Seq<char> {
    match cwd {
        Some(c) => if c@ == "."@ {
            ecosystem_path
        } else {
            join_path_text(ecosystem_path, c@)
        },
        None => ecosystem_path,
    }
}

/// The path probed for an HTTP health check.
pub open spec fn health_path_of(s: Service) -> Seq<char> {
    match s.health_path {
        Some(p) => p@,
        None => "/"@,
    }
}

/// The configuration file to read, given whether it exists in the working
/// directory and, when the executable's directory is known, the candidate
/// there and whether it exists.
pub open spec fn config_path_choice(local_exists: bool, exe_candidate: Option<(Seq<char>, bool)>) -> Seq<char> {
    if local_exists {
        CONFIG_FILE_NAME@
    } else {
        match exe_candidate {
            Some((p, true)) => p,
            _ => CONFIG_FILE_NAME@,
        }
    }
}

// ---------------------------------------------------------------------------
// Laws
// ---------------------------------------------------------------------------

/// Every service is either a Docker service or an application service:
/// the two selections together have as many services as the ecosystem.
pub proof fn law_services_partition(services: Seq<Service>)
    ensures
        services.filter(of_type(ServiceType::Docker)).len()
            + services.filter(of_type(ServiceType::App)).len() == services.len(),
    decreases services.len(),
{
    reveal(Seq::filter);
    if services.len() > 0 {
        law_services_partition(services.drop_last());
    }
}

/// A lookup by name finds an ecosystem of that name, the first one, and
/// finds nothing exactly when no ecosystem has that name.
pub proof fn law_lookup_finds_first_named(ecos: Seq<Ecosystem>, name: Seq<char>)
    ensures
        lookup_ecosystem(ecos, name) is None <==> (forall|i: int| 0 <= i < ecos.len() ==> ecos[i].name@ != name),
        lookup_ecosystem(ecos, name) is Some ==> exists|i: int|
            0 <= i < ecos.len() && ecos[i] == lookup_ecosystem(ecos, name).unwrap() && ecos[i].name@ == name && (
            forall|j: int| 0 <= j < i ==> ecos[j].name@ != name),
    decreases ecos.len(),
{
    if ecos.len() > 0 {
        law_lookup_finds_first_named(ecos.drop_first(), name);
        if ecos[0].name@ != name {
            assert forall|i: int| 0 < i < ecos.len() implies ecos[i] == ecos.drop_first()[i - 1] by {}
            if lookup_ecosystem(ecos, name) is Some {
                let k = choose|k: int|
                    0 <= k < ecos.drop_first().len() && ecos.drop_first()[k] == lookup_ecosystem(ecos, name).unwrap()
                        && ecos.drop_first()[k].name@ == name && (forall|j: int|
                        0 <= j < k ==> ecos.drop_first()[j].name@ != name);
                assert(ecos[k + 1] == ecos.drop_first()[k]);
                assert forall|j: int| 0 <= j < k + 1 implies ecos[j].name@ != name by {
                    if j > 0 {
                        assert(ecos[j] == ecos.drop_first()[j - 1]);
                    }
                }
            } else {
                assert forall|i: int| 0 <= i < ecos.len() implies ecos[i].name@ != name by {
                    if i > 0 {
                        assert(ecos[i] == ecos.drop_first()[i - 1]);
                    }
                }
            }
        } else {
            assert(ecos[0] == lookup_ecosystem(ecos, name).unwrap());
        }
    }
}

/// No two environment entries share a name, as in the configuration file,
/// where environments are a table keyed by name.
pub open spec fn environment_names_distinct(envs: Seq<(String, Environment)>) -> bool {
    forall|i: int, j: int| 0 <= i < j < envs.len() ==> (#[trigger] envs[i]).0@ != (#[trigger] envs[j]).0@
}

/// With distinct names the environments behave as a map from name to
/// environment: the lookup of a name gives an environment exactly when an
/// entry of that name holds it, wherever that entry stands.
pub proof fn law_environment_lookup_is_keyed(envs: Seq<(String, Environment)>, key: Seq<char>, env: Environment)
    requires
        environment_names_distinct(envs),
    ensures
        (lookup_environment(envs, key) == Some(env)) <==> (exists|i: int|
            0 <= i < envs.len() && (#[trigger] envs[i]).0@ == key && envs[i].1 == env),
    decreases envs.len(),
{
    if envs.len() > 0 {
        let rest = envs.drop_first();
        assert forall|i: int, j: int| 0 <= i < j < rest.len() implies (#[trigger] rest[i]).0@ != (#[trigger] rest[j]).0@ by {
            assert(rest[i] == envs[i + 1] && rest[j] == envs[j + 1]);
        }
        law_environment_lookup_is_keyed(rest, key, env);
        if envs[0].0@ == key {
            assert forall|i: int| 0 < i < envs.len() implies (#[trigger] envs[i]).0@ != key by {
                assert(envs[0].0@ != envs[i].0@);
            }
        } else {
            if lookup_environment(envs, key) == Some(env) {
                let i = choose|i: int| 0 <= i < rest.len() && (#[trigger] rest[i]).0@ == key && rest[i].1 == env;
                assert(envs[i + 1] == rest[i]);
            }
            if exists|i: int| 0 <= i < envs.len() && (#[trigger] envs[i]).0@ == key && envs[i].1 == env {
                let i = choose|i: int| 0 <= i < envs.len() && (#[trigger] envs[i]).0@ == key && envs[i].1 == env;
                assert(rest[i - 1] == envs[i]);
            }
        }
    }
}

/// An ecosystem has an environment exactly when a browser address can be
/// read for it.
pub proof fn law_environment_iff_browser_url(e: Ecosystem, env: Seq<char>)
    ensures
        (lookup_environment(e.environments@, env) is Some) == (browser_url_of(e, env) is Some),
{
}

/// An environment's own compose file takes precedence over the ecosystem's.
pub proof fn law_environment_compose_wins(e: Ecosystem, env: Seq<char>, p: bool, f: bool)
    requires
        env_compose_override(e, env) is Some,
    ensures
        env_compose_override(e, env).unwrap() == compose_for_env_choice(e, env, p, f),
{
}

/// The compose file for an environment, given the existence answers.
pub open spec fn compose_for_env_choice(e: Ecosystem, env: Seq<char>, primary_exists: bool, fallback_exists: bool) -> Seq<char> {
    match env_compose_override(e, env) {
        Some(f) => f,
        None => compose_choice(e, primary_exists, fallback_exists),
    }
}

// ---------------------------------------------------------------------------
// Trusted probe of the file system
// ---------------------------------------------------------------------------

/// `std::path::Path::exists`: whether something exists at `path` now. The
/// answer depends on the disk at the moment of the call, so nothing is
/// stated of it.
#[verifier::external_body]
pub(crate) fn path_exists(path: &str) -> bool {
    std::path::Path::new(path).exists()
}

// ---------------------------------------------------------------------------
// Executable code
// ---------------------------------------------------------------------------

/// `dir` and `file` joined by a slash.
pub fn join_path(dir: &str, file: &str) -> (r: String)
    ensures
        r@ == join_path_text(dir@, file@),
{
    let mut r = owned(dir);
    push_text(&mut r, "/");
    push_text(&mut r, file);
    r
}

/// The configuration file to read: the one in the working directory if it
/// exists, else the one beside the executable if that exists, else the one
/// in the working directory.
pub fn choose_config_path(local_exists: bool, exe_candidate: Option<(String, bool)>) -> (r: String)
    ensures
        r@ == config_path_choice(
            local_exists,
            match exe_candidate {
                Some((p, b)) => Some((p@, b)),
                None => None,
            },
        ),
{
    if local_exists {
        return owned(CONFIG_FILE_NAME);
    }
    match exe_candidate {
        Some((p, true)) => p,
        _ => owned(CONFIG_FILE_NAME),
    }
}

impl EcosystemsConfig {
    /// The first ecosystem called `name`.
    pub fn get_ecosystem(&self, name: &str) -> (r: Option<&Ecosystem>)
        ensures
            (r is Some) == (lookup_ecosystem(self.ecosystem@, name@) is Some),
            r is Some ==> *r.unwrap() == lookup_ecosystem(self.ecosystem@, name@).unwrap(),
    {
        let mut i: usize = 0;
        assert(self.ecosystem@.subrange(0, self.ecosystem@.len() as int) =~= self.ecosystem@);
        while i < self.ecosystem.len()
            invariant
                i <= self.ecosystem.len(),
                lookup_ecosystem(self.ecosystem@, name@) == lookup_ecosystem(
                    self.ecosystem@.subrange(i as int, self.ecosystem@.len() as int),
                    name@,
                ),
            decreases self.ecosystem.len() - i,
        {
            let ghost rest = self.ecosystem@.subrange(i as int, self.ecosystem@.len() as int);
            if same_text(self.ecosystem[i].name.as_str(), name) {
                return Some(&self.ecosystem[i]);
            }
            assert(rest.drop_first() =~= self.ecosystem@.subrange(i + 1, self.ecosystem@.len() as int));
            i = i + 1;
        }
        None
    }

    /// The ecosystem selected at start: "hydra" when it is configured, else
    /// none.
    pub fn initial_selection(&self) -> (r: Option<String>)
        ensures
            match r {
                Some(n) => n@ == "hydra"@ && lookup_ecosystem(self.ecosystem@, "hydra"@) is Some,
                None => lookup_ecosystem(self.ecosystem@, "hydra"@) is None,
            },
    {
        let name = "hydra";
        if self.get_ecosystem(name).is_some() {
            Some(owned(name))
        } else {
            None
        }
    }

    /// The names of all ecosystems, in order.
    pub fn ecosystem_names(&self) -> (r: Vec<String>)
        ensures
            r@.map_values(|s: String| s@) == self.ecosystem@.map_values(|e: Ecosystem| e.name@),
    {
        let mut r: Vec<String> = Vec::new();
        let mut i: usize = 0;
        while i < self.ecosystem.len()
            invariant
                i <= self.ecosystem.len(),
                r.len() == i,
                forall|k: int| 0 <= k < i ==> #[trigger] r@[k]@ == self.ecosystem@[k].name@,
            decreases self.ecosystem.len() - i,
        {
            r.push(self.ecosystem[i].name.clone());
            i = i + 1;
        }
        assert(r@.map_values(|s: String| s@) =~= self.ecosystem@.map_values(|e: Ecosystem| e.name@));
        r
    }
}

impl Ecosystem {
    /// The first environment entry called `env`.
    pub fn find_environment(&self, env: &str) -> (r: Option<&Environment>)
        ensures
            (r is Some) == (lookup_environment(self.environments@, env@) is Some),
            r is Some ==> *r.unwrap() == lookup_environment(self.environments@, env@).unwrap(),
    {
        let mut i: usize = 0;
        assert(self.environments@.subrange(0, self.environments@.len() as int) =~= self.environments@);
        while i < self.environments.len()
            invariant
                i <= self.environments.len(),
                lookup_environment(self.environments@, env@) == lookup_environment(
                    self.environments@.subrange(i as int, self.environments@.len() as int),
                    env@,
                ),
            decreases self.environments.len() - i,
        {
            let ghost rest = self.environments@.subrange(i as int, self.environments@.len() as int);
            if same_text(self.environments[i].0.as_str(), env) {
                return Some(&self.environments[i].1);
            }
            assert(rest.drop_first() =~= self.environments@.subrange(
                i + 1,
                self.environments@.len() as int,
            ));
            i = i + 1;
        }
        None
    }

    /// The compose file to use, given whether the primary file and the
    /// fallback exist under the ecosystem's path: the primary if it exists,
    /// else the fallback if there is one and it exists, else the primary.
    pub fn select_docker_compose_file(&self, primary_exists: bool, fallback_exists: bool) -> (r: String)
        ensures
            r@ == compose_choice(*self, primary_exists, fallback_exists),
    {
        if primary_exists {
            return self.docker_compose.clone();
        }
        match &self.docker_compose_fallback {
            Some(fallback) => {
                if fallback_exists {
                    fallback.clone()
                } else {
                    self.docker_compose.clone()
                }
            },
            None => self.docker_compose.clone(),
        }
    }

    /// The paths of the primary compose file and of the fallback, if there
    /// is one, under the ecosystem's path.
    pub fn compose_paths(&self) -> (r: (String, Option<String>))
        ensures
            r.0@ == join_path_text(self.path@, self.docker_compose@),
            match self.docker_compose_fallback {
                Some(f) => r.1 is Some && r.1.unwrap()@ == join_path_text(self.path@, f@),
                None => r.1 is None,
            },
    {
        let primary = join_path(self.path.as_str(), self.docker_compose.as_str());
        let fallback = match &self.docker_compose_fallback {
            Some(f) => Some(join_path(self.path.as_str(), f.as_str())),
            None => None,
        };
        (primary, fallback)
    }

    /// The compose file to use, probing the disk at `compose_paths()`: the
    /// primary first, the fallback only where the primary is missing.
    /// Whatever the disk holds, the answer is the primary file or the fallback.
    pub fn docker_compose_file(&self) -> (r: String)
        ensures
            exists|p: bool, f: bool| r@ == compose_choice(*self, p, f),
    {
        let (primary, fallback) = self.compose_paths();
        if path_exists(primary.as_str()) {
            let r = self.select_docker_compose_file(true, false);
            assert(r@ == compose_choice(*self, true, false));
            return r;
        }
        let fallback_exists = match &fallback {
            Some(fallback_path) => path_exists(fallback_path.as_str()),
            None => false,
        };
        let r = self.select_docker_compose_file(false, fallback_exists);
        assert(r@ == compose_choice(*self, false, fallback_exists));
        r
    }

    /// The Docker services, in order.
    pub fn docker_services(&self) -> (r: Vec<&Service>)
        ensures
            r@.map_values(|s: &Service| *s) == self.services@.filter(of_type(ServiceType::Docker)),
    {
        self.services_of(ServiceType::Docker)
    }

    /// The application services, in order.
    pub fn app_services(&self) -> (r: Vec<&Service>)
        ensures
            r@.map_values(|s: &Service| *s) == self.services@.filter(of_type(ServiceType::App)),
    {
        self.services_of(ServiceType::App)
    }

    /// The services of one type, in order.
    fn services_of(&self, t: ServiceType) -> (r: Vec<&Service>)
        ensures
            r@.map_values(|s: &Service| *s) == self.services@.filter(of_type(t)),
    {
        let mut r: Vec<&Service> = Vec::new();
        let mut i: usize = 0;
        while i < self.services.len()
            invariant
                i <= self.services.len(),
                r@.map_values(|s: &Service| *s) == self.services@.subrange(0, i as int).filter(of_type(t)),
            decreases self.services.len() - i,
        {
            let ghost before = r@.map_values(|s: &Service| *s);
            proof {
                self.services@.subrange(0, i as int).lemma_filter_push(self.services@[i as int], of_type(t));
                assert(self.services@.subrange(0, i as int).push(self.services@[i as int])
                    =~= self.services@.subrange(0, i + 1));
            }
            if self.services[i].service_type == t {
                r.push(&self.services[i]);
                assert(r@.map_values(|s: &Service| *s) =~= before.push(self.services@[i as int]));
            }
            i = i + 1;
        }
        assert(self.services@.subrange(0, i as int) =~= self.services@);
        r
    }

    /// All services, in order.
    pub fn all_services(&self) -> (r: &[Service])
        ensures
            r@ == self.services@,
    {
        self.services.as_slice()
    }

    /// The browser address of an environment, if the environment exists.
    pub fn get_browser_url(&self, env: &str) -> (r: Option<String>)
        ensures
            match r {
                Some(u) => browser_url_of(*self, env@) == Some(u@),
                None => browser_url_of(*self, env@) is None,
            },
    {
        match self.find_environment(env) {
            Some(e) => Some(e.browser_url.clone()),
            None => None,
        }
    }

    /// The compose file for an environment, given whether the ecosystem's
    /// primary compose file and its fallback exist.
    pub fn select_docker_compose_for_env(&self, env: &str, primary_exists: bool, fallback_exists: bool) -> (r: String)
        ensures
            r@ == compose_for_env_choice(*self, env@, primary_exists, fallback_exists),
    {
        match self.find_environment(env) {
            Some(e) => match &e.docker_compose {
                Some(f) => return f.clone(),
                None => {},
            },
            None => {},
        }
        self.select_docker_compose_file(primary_exists, fallback_exists)
    }

    /// The compose file for an environment: the environment's own file if it
    /// names one, else the ecosystem's (probing the disk).
    pub fn get_docker_compose_for_env(&self, env: &str) -> (r: String)
        ensures
            exists|p: bool, f: bool| r@ == compose_for_env_choice(*self, env@, p, f),
    {
        match self.find_environment(env) {
            Some(e) => match &e.docker_compose {
                Some(f) => {
                    let r = f.clone();
                    assert(r@ == compose_for_env_choice(*self, env@, true, true));
                    return r;
                },
                None => {},
            },
            None => {},
        }
        let r = self.docker_compose_file();
        let ghost (p, f) = choose|p: bool, f: bool| r@ == compose_choice(*self, p, f);
        assert(r@ == compose_for_env_choice(*self, env@, p, f));
        r
    }

    /// Whether the ecosystem has an environment called `env`.
    pub fn has_environment(&self, env: &str) -> (r: bool)
        ensures
            r == (lookup_environment(self.environments@, env@) is Some),
    {
        self.find_environment(env).is_some()
    }
}

impl Service {
    /// The working directory of the service inside the ecosystem directory.
    pub fn working_directory(&self, ecosystem_path: &str) -> (r: String)
        ensures
            r@ == work_dir(self.cwd, ecosystem_path@),
    {
        match &self.cwd {
            Some(cwd) => {
                if same_text(cwd.as_str(), ".") {
                    owned(ecosystem_path)
                } else {
                    join_path(ecosystem_path, cwd.as_str())
                }
            },
            None => owned(ecosystem_path),
        }
    }

    /// Whether the service's health is probed over HTTP.
    pub fn is_http_check(&self) -> (r: bool)
        ensures
            r == (self.health_check == HealthCheckType::Http),
    {
        self.health_check == HealthCheckType::Http
    }

    /// The path probed for an HTTP health check ("/" by default).
    pub fn http_health_path(&self) -> (r: &str)
        ensures
            r@ == health_path_of(*self),
    {
        match &self.health_path {
            Some(p) => p.as_str(),
            None => "/",
        }
    }
}

} // verus!
