use hydra_nexus::config::{Ecosystem, HealthCheckType, Service, ServiceType};
use hydra_nexus::launch::{
    browser_args, command_display, command_line, summarize_languages, LaunchGuard, Readiness, ReadinessWatch,
    TokeiLanguage,
};

fn lang(code: u64, comments: u64, blanks: u64) -> TokeiLanguage {
    TokeiLanguage { blanks, code, comments }
}

#[test]
fn readiness_gives_up_after_sixty_checks() {
    let mut w = ReadinessWatch::new();
    for _ in 0..59 {
        assert_eq!(w.observe(false), Readiness::Waiting);
    }
    assert_eq!(w.observe(false), Readiness::GaveUp);
    assert_eq!(w.attempt, 60);
    let mut w2 = ReadinessWatch::new();
    assert_eq!(w2.observe(false), Readiness::Waiting);
    assert_eq!(w2.observe(true), Readiness::Ready);
}

#[test]
fn launch_guard_lets_one_through() {
    let mut g = LaunchGuard::new();
    assert!(g.request());
    assert!(!g.request());
    assert!(g.launching);
}

#[test]
fn launch_guard_released_lets_next_through() {
    let mut g = LaunchGuard::new();
    assert!(g.request());
    assert!(!g.request());
    g.release();
    assert!(!g.launching);
    assert!(g.request());
    assert!(!g.request());
}

#[test]
fn command_lines() {
    let cmd = vec!["pnpm".to_string(), "run".to_string(), "dev".to_string()];
    assert_eq!(command_line(&cmd), "pnpm run dev");
    assert_eq!(command_line(&vec!["cargo".to_string()]), "cargo ");
}

#[test]
fn browser_arguments() {
    assert_eq!(
        browser_args(&Some("Profile 1".to_string()), "http://localhost:31173"),
        vec!["--profile-directory=Profile 1".to_string(), "http://localhost:31173".to_string()]
    );
    assert_eq!(browser_args(&None, "http://x"), vec!["http://x".to_string()]);
}

#[test]
fn code_summary() {
    let entries = vec![
        ("Total".to_string(), lang(1000, 100, 10)),
        ("Rust".to_string(), lang(300, 30, 3)),
        ("TypeScript".to_string(), lang(500, 50, 5)),
        ("TOML".to_string(), lang(20, 0, 2)),
    ];
    let s = summarize_languages("hydra", &entries);
    assert_eq!(s.project_name, "hydra");
    let names: Vec<&str> = s.languages.iter().map(|(n, _)| n.as_str()).collect();
    assert_eq!(names, vec!["TypeScript", "Rust", "TOML"]);
    assert_eq!(s.total_code, 820);
    assert_eq!(s.total_lines, 820 + 80 + 10);
    assert_eq!(s.total_files, 0);
}

#[test]
fn code_summary_keeps_order_of_ties() {
    let entries = vec![("A".to_string(), lang(5, 0, 0)), ("B".to_string(), lang(5, 1, 0)), ("C".to_string(), lang(7, 0, 0))];
    let s = summarize_languages("p", &entries);
    let names: Vec<&str> = s.languages.iter().map(|(n, _)| n.as_str()).collect();
    assert_eq!(names, vec!["C", "A", "B"]);
    let empty = summarize_languages("p", &vec![]);
    assert!(empty.languages.is_empty());
    assert_eq!(empty.total_lines, 0);
}

fn service(name: &str, t: ServiceType, command: Option<Vec<&str>>, cwd: Option<&str>) -> Service {
    Service {
        name: name.to_string(),
        port: 3000,
        icon: "x".to_string(),
        service_type: t,
        health_check: HealthCheckType::Tcp,
        health_path: None,
        command: command.map(|c| c.iter().map(|w| w.to_string()).collect()),
        cwd: cwd.map(|c| c.to_string()),
    }
}

#[test]
fn launch_plan_starts_app_services_with_commands() {
    let e = Ecosystem {
        name: "Hydra".to_string(),
        path: "/srv/hydra".to_string(),
        docker_compose: "docker-compose.yml".to_string(),
        docker_compose_fallback: None,
        icon: "h".to_string(),
        color: "#000".to_string(),
        auto_open_browser: false,
        browser_profile: None,
        environments: vec![],
        services: vec![
            service("Redis", ServiceType::Docker, Some(vec!["redis-server"]), None),
            service("Backend", ServiceType::App, Some(vec!["pnpm", "run", "dev"]), Some(".")),
            service("Worker", ServiceType::App, None, None),
            service("Frontend", ServiceType::App, Some(vec!["npm", "start"]), Some("frontend")),
            service("Broken", ServiceType::App, Some(vec![]), None),
        ],
    };
    let plan = e.launch_plan();
    assert_eq!(plan.len(), 3);
    assert_eq!(plan[0].service, "Backend");
    assert_eq!(plan[0].display, "pnpm run dev");
    assert_eq!(plan[0].command, Some("pnpm run dev".to_string()));
    assert_eq!(plan[0].cwd, "/srv/hydra");
    assert_eq!(plan[1].service, "Frontend");
    assert_eq!(plan[1].cwd, "/srv/hydra/frontend");
    assert_eq!(plan[2].service, "Broken");
    assert_eq!(plan[2].display, "");
    assert_eq!(plan[2].command, None);
}

#[test]
fn command_display_joins_words() {
    assert_eq!(command_display(&vec!["cargo".to_string()]), "cargo");
    assert_eq!(command_display(&vec!["a".to_string(), "b".to_string()]), "a b");
    assert_eq!(command_display(&vec![]), "");
}
