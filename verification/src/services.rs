//! The stack's services and the decisions around them: which probe checks a
//! service, the health request and how its answer is judged, the compose
//! files to bring the stack up and down, and the status lines shown.

use vstd::prelude::*;
use crate::config::{Service, health_path_of, join_path, join_path_text, HealthCheckType};
use crate::text::{decimal, owned, pad_right_text, push_decimal, push_padded, push_text, same_text};

verus! {

/// A service of the stack: its name, local port, icon and, when it answers
/// HTTP, the path of its health endpoint.
#[derive(Clone, Copy, Debug)]
pub struct Svc {
    pub name: &'static str,
    pub port: u16,
    pub icon: &'static str,
    pub http: Option<&'static str>,
}

/// The observed state of one service.
#[derive(Clone, Debug)]
pub struct ServiceStatus {
    pub name: String,
    pub up: bool,
    pub icon: String,
}

/// How a service is checked.
#[derive(Clone, Copy, Debug)]
pub enum Probe<'a> {
    /// An HTTP GET of `path` on the local `port`.
    Http { port: u16, path: &'a str },
    /// A TCP connection to the local `port`.
    Tcp { port: u16 },
}

/// The compose file used when the full one is absent.
pub const COMPOSE_FILE: &'static str = "docker-compose.yml";

/// The compose file of the full stack.
pub const FULL_COMPOSE_FILE: &'static str = "docker-compose.full.yml";

/// The port of the web interface.
pub const UI_PORT: u16 = 31173;

/// How long a probe waits for a connection or an answer, in milliseconds.
pub const PROBE_TIMEOUT_MS: u64 = 500;

/// How many bytes of a health answer are read.
pub const HEALTH_READ_LEN: usize = 128;

// ---------------------------------------------------------------------------
// Specifications
// ---------------------------------------------------------------------------

/// The Docker services of the stack.
pub open spec fn docker_table() -> Seq<Svc> {
    seq![
        Svc { name: "Redis", port: 31379, icon: "🔴", http: None },
        Svc { name: "Qdrant", port: 31333, icon: "🟣", http: Some("/healthz") },
        Svc { name: "Neo4j", port: 31474, icon: "🟢", http: None },
        Svc { name: "LiteLLM", port: 31300, icon: "🤖", http: Some("/health") },
        Svc { name: "Prometheus", port: 31990, icon: "📊", http: Some("/-/healthy") },
        Svc { name: "Grafana", port: 31900, icon: "📈", http: Some("/api/health") },
    ]
}

/// The application services of the stack.
pub open spec fn app_table() -> Seq<Svc> {
    seq![
        Svc { name: "Backend", port: 31100, icon: "⚙️ ", http: Some("/api/health") },
        Svc { name: "Frontend", port: 31173, icon: "🎨", http: Some("/") },
    ]
}

/// The names of some services.
pub open spec fn names_of(svcs: Seq<Svc>) -> Seq<Seq<char>> {
    svcs.map_values(|s: Svc| s.name@)
}

/// The probe of a stack service: HTTP when it has a health path, else TCP.
pub open spec fn svc_probe_spec(s: Svc) -> Probe<'static> {
    match s.http {
        Some(p) => Probe::Http { port: s.port, path: p },
        None => Probe::Tcp { port: s.port },
    }
}

/// The health request sent to `path` on the local `port`.
pub open spec fn health_request_text(path: Seq<char>, port: u16) -> Seq<char> {
    "GET "@ + path + " HTTP/1.1\r\nHost: 127.0.0.1:"@ + decimal(port as nat) + "\r\nConnection: close\r\n\r\n"@
}

/// The health request of the desktop front end's probes: the same request,
/// with its lines ended by a bare line feed.
pub open spec fn desktop_health_request_text(path: Seq<char>, port: u16) -> Seq<char> {
    "GET "@ + path + " HTTP/1.1\nHost: 127.0.0.1:"@ + decimal(port as nat) + "\nConnection: close\n\n"@
}

/// The bytes of "HTTP/1.1 " followed by a status class digit `d`.
pub open spec fn status_prefix(b: Seq<u8>, d: u8) -> bool {
    &&& b.len() >= 10
    &&& b[0] == 0x48u8 && b[1] == 0x54u8 && b[2] == 0x54u8 && b[3] == 0x50u8 && b[4] == 0x2fu8
    &&& b[5] == 0x31u8 && b[6] == 0x2eu8 && b[7] == 0x31u8 && b[8] == 0x20u8 && b[9] == d
}

/// A health answer is good: more than twelve bytes, starting with an
/// HTTP/1.1 success (2xx) or redirection (3xx) status.
pub open spec fn healthy_answer(b: Seq<u8>) -> bool {
    b.len() > 12 && (status_prefix(b, 0x32u8) || status_prefix(b, 0x33u8))
}

/// The compose files that `down` is run with, given which exist.
pub open spec fn down_files(full_exists: bool, plain_exists: bool) -> Seq<Seq<char>> {
    (if full_exists { seq![FULL_COMPOSE_FILE@] } else { Seq::empty() }) + (if plain_exists {
        seq![COMPOSE_FILE@]
    } else {
        Seq::empty()
    })
}

/// The status report line of a service.
pub open spec fn status_line_text(s: Svc, up: bool) -> Seq<char> {
    s.icon@ + " "@ + pad_right_text(s.name@, 12) + " :"@ + decimal(s.port as nat) + " "@ + (if up {
        "✅"@
    } else {
        "❌"@
    })
}

/// The status row of a service on the dashboard.
pub open spec fn status_row_text(name: Seq<char>, up: bool) -> Seq<char> {
    " "@ + (if up { "●"@ } else { "○"@ }) + " "@ + pad_right_text(name, 10) + " UP"@
}

/// A status as values.
pub struct StatusView {
    pub name: Seq<char>,
    pub up: bool,
    pub icon: Seq<char>,
}

impl View for ServiceStatus {
    type V = StatusView;

    open spec fn view(&self) -> StatusView {
        StatusView { name: self.name@, up: self.up, icon: self.icon@ }
    }
}

/// The statuses whose name is one of `names`.
pub open spec fn statuses_named(st: Seq<StatusView>, names: Seq<Seq<char>>) -> Seq<StatusView> {
    st.filter(|s: StatusView| names.contains(s.name))
}

/// The three parts of a centred band: the margins and the band.
pub open spec fn centered_parts(percent: nat) -> (nat, nat, nat) {
    (((100 - percent) / 2) as nat, percent, ((100 - percent) / 2) as nat)
}

// ---------------------------------------------------------------------------
// Executable code
// ---------------------------------------------------------------------------

/// The Docker services of the stack.
pub fn docker_svcs() -> (r: Vec<Svc>)
    ensures
        r@ == docker_table(),
{
    let r = vec![
        Svc { name: "Redis", port: 31379, icon: "🔴", http: None },
        Svc { name: "Qdrant", port: 31333, icon: "🟣", http: Some("/healthz") },
        Svc { name: "Neo4j", port: 31474, icon: "🟢", http: None },
        Svc { name: "LiteLLM", port: 31300, icon: "🤖", http: Some("/health") },
        Svc { name: "Prometheus", port: 31990, icon: "📊", http: Some("/-/healthy") },
        Svc { name: "Grafana", port: 31900, icon: "📈", http: Some("/api/health") },
    ];
    assert(r@ =~= docker_table());
    r
}

/// The application services of the stack.
pub fn app_svcs() -> (r: Vec<Svc>)
    ensures
        r@ == app_table(),
{
    let r = vec![
        Svc { name: "Backend", port: 31100, icon: "⚙️ ", http: Some("/api/health") },
        Svc { name: "Frontend", port: 31173, icon: "🎨", http: Some("/") },
    ];
    assert(r@ =~= app_table());
    r
}

/// Every service of the stack, Docker services first.
pub fn all_svcs() -> (r: Vec<Svc>)
    ensures
        r@ == docker_table() + app_table(),
{
    let mut r = docker_svcs();
    let mut a = app_svcs();
    r.append(&mut a);
    r
}

/// How a stack service is checked.
pub fn svc_probe(s: &Svc) -> (r: Probe<'static>)
    ensures
        r == svc_probe_spec(*s),
{
    match s.http {
        Some(p) => Probe::Http { port: s.port, path: p },
        None => Probe::Tcp { port: s.port },
    }
}

/// How a configured service is checked: HTTP on its health path when its
/// check is HTTP, else TCP.
pub fn service_probe(s: &Service) -> (r: Probe<'_>)
    ensures
        s.health_check == HealthCheckType::Http ==> (r matches Probe::Http { port, path } && port == s.port
            && path@ == health_path_of(*s)),
        s.health_check == HealthCheckType::Tcp ==> r == (Probe::Tcp { port: s.port }),
{
    if s.is_http_check() {
        Probe::Http { port: s.port, path: s.http_health_path() }
    } else {
        Probe::Tcp { port: s.port }
    }
}

/// The status of a stack service.
pub fn status_of(s: &Svc, up: bool) -> (r: ServiceStatus)
    ensures
        r@ == (StatusView { name: s.name@, up, icon: s.icon@ }),
{
    ServiceStatus { name: owned(s.name), up, icon: owned(s.icon) }
}

/// An answer of more than twelve bytes is healthy exactly when it begins
/// with "HTTP/1.1 2" or "HTTP/1.1 3", whatever the rest of its status.
pub proof fn law_healthy_answers(b: Seq<u8>)
    ensures
        ({
            let ok2 = seq![0x48u8, 0x54u8, 0x54u8, 0x50u8, 0x2fu8, 0x31u8, 0x2eu8, 0x31u8, 0x20u8, 0x32u8];
            let ok3 = seq![0x48u8, 0x54u8, 0x54u8, 0x50u8, 0x2fu8, 0x31u8, 0x2eu8, 0x31u8, 0x20u8, 0x33u8];
            healthy_answer(b) <==> (b.len() > 12 && (b.subrange(0, 10) == ok2 || b.subrange(0, 10) == ok3))
        }),
{
    let ok2 = seq![0x48u8, 0x54u8, 0x54u8, 0x50u8, 0x2fu8, 0x31u8, 0x2eu8, 0x31u8, 0x20u8, 0x32u8];
    let ok3 = seq![0x48u8, 0x54u8, 0x54u8, 0x50u8, 0x2fu8, 0x31u8, 0x2eu8, 0x31u8, 0x20u8, 0x33u8];
    if b.len() > 12 {
        if b.subrange(0, 10) == ok2 {
            assert(b[9] == b.subrange(0, 10)[9]);
        }
        if b.subrange(0, 10) == ok3 {
            assert(b[9] == b.subrange(0, 10)[9]);
        }
        if status_prefix(b, 0x32u8) {
            assert(b.subrange(0, 10) =~= ok2);
        }
        if status_prefix(b, 0x33u8) {
            assert(b.subrange(0, 10) =~= ok3);
        }
    }
}

/// The health request sent to `path` on the local `port`.
pub fn health_request(path: &str, port: u16) -> (r: String)
    ensures
        r@ == health_request_text(path@, port),
{
    let mut r = owned("GET ");
    push_text(&mut r, path);
    push_text(&mut r, " HTTP/1.1\r\nHost: 127.0.0.1:");
    push_decimal(&mut r, port as u64);
    push_text(&mut r, "\r\nConnection: close\r\n\r\n");
    r
}

/// The health request the desktop front end sends to `path` on the local
/// `port`, its lines ended by a bare line feed.
pub fn desktop_health_request(path: &str, port: u16) -> (r: String)
    ensures
        r@ == desktop_health_request_text(path@, port),
{
    let mut r = owned("GET ");
    push_text(&mut r, path);
    push_text(&mut r, " HTTP/1.1\nHost: 127.0.0.1:");
    push_decimal(&mut r, port as u64);
    push_text(&mut r, "\nConnection: close\n\n");
    r
}

/// Whether the bytes start with "HTTP/1.1 " and the status class digit `d`.
fn has_status_prefix(b: &[u8], d: u8) -> (r: bool)
    ensures
        r == status_prefix(b@, d),
{
    b.len() >= 10 && b[0] == 0x48u8 && b[1] == 0x54u8 && b[2] == 0x54u8 && b[3] == 0x50u8 && b[4] == 0x2fu8
        && b[5] == 0x31u8 && b[6] == 0x2eu8 && b[7] == 0x31u8 && b[8] == 0x20u8 && b[9] == d
}

/// Whether the bytes read from a service are a good health answer.
pub fn is_healthy_response(answer: &[u8]) -> (r: bool)
    ensures
        r == healthy_answer(answer@),
{
    answer.len() > 12 && (has_status_prefix(answer, 0x32u8) || has_status_prefix(answer, 0x33u8))
}

/// The compose file to bring the stack up with: the full one if it exists.
pub fn up_compose_file(full_exists: bool) -> (r: &'static str)
    ensures
        r@ == (if full_exists { FULL_COMPOSE_FILE@ } else { COMPOSE_FILE@ }),
{
    if full_exists {
        FULL_COMPOSE_FILE
    } else {
        COMPOSE_FILE
    }
}

/// The compose files to bring the stack down with: each one that exists,
/// the full one first.
pub fn down_compose_files(full_exists: bool, plain_exists: bool) -> (r: Vec<&'static str>)
    ensures
        r@.map_values(|f: &str| f@) == down_files(full_exists, plain_exists),
{
    let mut r: Vec<&'static str> = Vec::new();
    if full_exists {
        r.push(FULL_COMPOSE_FILE);
    }
    if plain_exists {
        r.push(COMPOSE_FILE);
    }
    assert(r@.map_values(|f: &str| f@) =~= down_files(full_exists, plain_exists));
    r
}

/// The path of a compose file in `dir`.
pub fn compose_path(dir: &str, file: &str) -> (r: String)
    ensures
        r@ == join_path_text(dir@, file@),
{
    join_path(dir, file)
}

/// The command-line patterns of the stack's processes that a cleanup ends.
pub fn cleanup_patterns() -> (r: Vec<&'static str>)
    ensures
        r@.map_values(|p: &str| p@) == seq![
            "ts-node.*index-hexa"@,
            "tsx.*index-hexa"@,
            "node.*dist.*index"@,
            "vite.*31173"@,
        ],
{
    let r = vec!["ts-node.*index-hexa", "tsx.*index-hexa", "node.*dist.*index", "vite.*31173"];
    assert(r@.map_values(|p: &str| p@) =~= seq![
        "ts-node.*index-hexa"@,
        "tsx.*index-hexa"@,
        "node.*dist.*index"@,
        "vite.*31173"@,
    ]);
    r
}

/// The status report line of a service.
pub fn status_line(s: &Svc, up: bool) -> (r: String)
    ensures
        r@ == status_line_text(*s, up),
{
    let mut r = owned(s.icon);
    push_text(&mut r, " ");
    push_padded(&mut r, s.name, 12);
    push_text(&mut r, " :");
    push_decimal(&mut r, s.port as u64);
    push_text(&mut r, " ");
    if up {
        push_text(&mut r, "✅");
    } else {
        push_text(&mut r, "❌");
    }
    r
}

/// The status row of a service on the dashboard.
pub fn status_row(name: &str, up: bool) -> (r: String)
    ensures
        r@ == status_row_text(name@, up),
{
    let mut r = owned(" ");
    if up {
        push_text(&mut r, "●");
    } else {
        push_text(&mut r, "○");
    }
    push_text(&mut r, " ");
    push_padded(&mut r, name, 10);
    push_text(&mut r, " UP");
    r
}

/// Whether `name` is the name of one of the services.
fn is_named(svcs: &Vec<Svc>, name: &str) -> (r: bool)
    ensures
        r == names_of(svcs@).contains(name@),
{
    let mut i: usize = 0;
    while i < svcs.len()
        invariant
            i <= svcs.len(),
            forall|k: int| 0 <= k < i ==> svcs@[k].name@ != name@,
        decreases svcs.len() - i,
    {
        if same_text(svcs[i].name, name) {
            assert(names_of(svcs@)[i as int] == name@);
            return true;
        }
        i = i + 1;
    }
    assert forall|k: int| 0 <= k < names_of(svcs@).len() implies names_of(svcs@)[k] != name@ by {
        assert(names_of(svcs@)[k] == svcs@[k].name@);
    }
    false
}

/// The statuses of the services among `svcs`, in order.
fn statuses_among(statuses: &[ServiceStatus], svcs: &Vec<Svc>) -> (r: Vec<ServiceStatus>)
    ensures
        r@.map_values(|s: ServiceStatus| s@) == statuses_named(
            statuses@.map_values(|s: ServiceStatus| s@),
            names_of(svcs@),
        ),
{
    let ghost names = names_of(svcs@);
    let ghost pred = |s: StatusView| names.contains(s.name);
    let ghost sv = statuses@.map_values(|s: ServiceStatus| s@);
    let mut r: Vec<ServiceStatus> = Vec::new();
    let mut i: usize = 0;
    assert(sv.subrange(0, 0).filter(pred) =~= Seq::<StatusView>::empty()) by {
        reveal(Seq::filter);
    }
    while i < statuses.len()
        invariant
            names == names_of(svcs@),
            pred == (|s: StatusView| names.contains(s.name)),
            sv == statuses@.map_values(|s: ServiceStatus| s@),
            i <= statuses.len(),
            r@.map_values(|s: ServiceStatus| s@) == sv.subrange(0, i as int).filter(pred),
        decreases statuses.len() - i,
    {
        let ghost before = r@.map_values(|s: ServiceStatus| s@);
        proof {
            sv.subrange(0, i as int).lemma_filter_push(sv[i as int], pred);
            assert(sv.subrange(0, i as int).push(sv[i as int]) =~= sv.subrange(0, i + 1));
        }
        let s = &statuses[i];
        if is_named(svcs, s.name.as_str()) {
            r.push(ServiceStatus { name: s.name.clone(), up: s.up, icon: s.icon.clone() });
            assert(r@.map_values(|s: ServiceStatus| s@) =~= before.push(sv[i as int]));
        }
        i = i + 1;
    }
    assert(sv.subrange(0, i as int) =~= sv);
    r
}

/// The statuses split into those of Docker services and those of
/// application services, each in order.
pub fn split_statuses(statuses: &[ServiceStatus]) -> (r: (Vec<ServiceStatus>, Vec<ServiceStatus>))
    ensures
        r.0@.map_values(|s: ServiceStatus| s@) == statuses_named(
            statuses@.map_values(|s: ServiceStatus| s@),
            names_of(docker_table()),
        ),
        r.1@.map_values(|s: ServiceStatus| s@) == statuses_named(
            statuses@.map_values(|s: ServiceStatus| s@),
            names_of(app_table()),
        ),
{
    let docker = docker_svcs();
    let apps = app_svcs();
    (statuses_among(statuses, &docker), statuses_among(statuses, &apps))
}

/// The margins and the band of a centred band `percent` wide.
pub fn centered_split(percent: u16) -> (r: (u16, u16, u16))
    requires
        percent <= 100,
    ensures
        (r.0 as nat, r.1 as nat, r.2 as nat) == centered_parts(percent as nat),
{
    let m = (100 - percent) / 2;
    (m, percent, m)
}

} // verus!
