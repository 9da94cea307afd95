use hydra_nexus::config::{
    choose_config_path, join_path, EcosystemsConfig, Ecosystem, Environment, HealthCheckType, Service, ServiceType,
};

fn svc(name: &str, t: ServiceType, check: HealthCheckType, path: Option<&str>, cwd: Option<&str>) -> Service {
    Service {
        name: name.to_string(),
        port: 31100,
        icon: "⚙️".to_string(),
        service_type: t,
        health_check: check,
        health_path: path.map(|p| p.to_string()),
        command: Some(vec!["pnpm".to_string(), "dev".to_string()]),
        cwd: cwd.map(|c| c.to_string()),
    }
}

fn eco(name: &str, path: &str) -> Ecosystem {
    Ecosystem {
        name: name.to_string(),
        path: path.to_string(),
        docker_compose: "docker-compose.yml".to_string(),
        docker_compose_fallback: Some("docker-compose.dev.yml".to_string()),
        icon: "🐉".to_string(),
        color: "#00d9ff".to_string(),
        auto_open_browser: true,
        browser_profile: None,
        environments: vec![
            (
                "dev".to_string(),
                Environment { browser_url: "http://localhost:31173".to_string(), docker_compose: None },
            ),
            (
                "prod".to_string(),
                Environment {
                    browser_url: "https://hydra.example".to_string(),
                    docker_compose: Some("docker-compose.prod.yml".to_string()),
                },
            ),
        ],
        services: vec![
            svc("Redis", ServiceType::Docker, HealthCheckType::Tcp, None, None),
            svc("Backend", ServiceType::App, HealthCheckType::Http, Some("/api/health"), Some(".")),
            svc("Qdrant", ServiceType::Docker, HealthCheckType::Http, None, None),
            svc("Frontend", ServiceType::App, HealthCheckType::Http, Some("/"), Some("frontend")),
        ],
    }
}

#[test]
fn get_ecosystem_finds_first_by_name() {
    let mut first = eco("Hydra", "/a");
    first.icon = "first".to_string();
    let mut second = eco("Hydra", "/b");
    second.icon = "second".to_string();
    let config = EcosystemsConfig { ecosystem: vec![eco("Other", "/o"), first, second] };
    let found = config.get_ecosystem("Hydra").expect("Hydra ecosystem should exist");
    assert_eq!(found.icon, "first");
    assert!(config.get_ecosystem("hydra").is_none());
    assert!(config.get_ecosystem("Missing").is_none());
}

#[test]
fn ecosystem_names_in_order() {
    let config = EcosystemsConfig { ecosystem: vec![eco("Hydra", "/a"), eco("Nexus", "/b")] };
    assert_eq!(config.ecosystem_names(), vec!["Hydra".to_string(), "Nexus".to_string()]);
    let empty = EcosystemsConfig { ecosystem: vec![] };
    assert!(empty.ecosystem_names().is_empty());
}

#[test]
fn services_by_type() {
    let e = eco("Hydra", "/a");
    let docker: Vec<&str> = e.docker_services().iter().map(|s| s.name.as_str()).collect();
    let apps: Vec<&str> = e.app_services().iter().map(|s| s.name.as_str()).collect();
    assert_eq!(docker, vec!["Redis", "Qdrant"]);
    assert_eq!(apps, vec!["Backend", "Frontend"]);
    assert_eq!(docker.len() + apps.len(), e.all_services().len());
    assert_eq!(e.all_services().len(), 4);
}

#[test]
fn environments_lookup() {
    let e = eco("Hydra", "/a");
    assert_eq!(e.get_browser_url("dev"), Some("http://localhost:31173".to_string()));
    assert_eq!(e.get_browser_url("prod"), Some("https://hydra.example".to_string()));
    assert_eq!(e.get_browser_url("staging"), None);
    assert!(e.has_environment("dev"));
    assert!(!e.has_environment("staging"));
    assert_eq!(e.get_docker_compose_for_env("prod"), "docker-compose.prod.yml");
}

#[test]
fn compose_selection() {
    let e = eco("Hydra", "/a");
    assert_eq!(e.select_docker_compose_file(true, true), "docker-compose.yml");
    assert_eq!(e.select_docker_compose_file(false, true), "docker-compose.dev.yml");
    assert_eq!(e.select_docker_compose_file(false, false), "docker-compose.yml");
    let mut no_fallback = eco("Hydra", "/a");
    no_fallback.docker_compose_fallback = None;
    assert_eq!(no_fallback.select_docker_compose_file(false, true), "docker-compose.yml");
    assert_eq!(e.select_docker_compose_for_env("prod", false, true), "docker-compose.prod.yml");
    assert_eq!(e.select_docker_compose_for_env("dev", false, true), "docker-compose.dev.yml");
    assert_eq!(e.select_docker_compose_for_env("none", true, false), "docker-compose.yml");
}

#[test]
fn compose_file_on_disk() {
    // "/" holds "tmp" and "etc" on every Linux system, and no "no-such-compose-file".
    let mut e = eco("Hydra", "/");
    e.docker_compose = "no-such-compose-file".to_string();
    e.docker_compose_fallback = Some("tmp".to_string());
    assert_eq!(e.docker_compose_file(), "tmp");
    assert_eq!(e.get_docker_compose_for_env("dev"), "tmp");
    e.docker_compose_fallback = Some("no-such-fallback".to_string());
    assert_eq!(e.docker_compose_file(), "no-such-compose-file");
    e.docker_compose = "etc".to_string();
    e.docker_compose_fallback = Some("tmp".to_string());
    assert_eq!(e.docker_compose_file(), "etc");
    e.docker_compose_fallback = None;
    e.docker_compose = "no-such-compose-file".to_string();
    assert_eq!(e.docker_compose_file(), "no-such-compose-file");
}

#[test]
fn working_directories() {
    let e = eco("Hydra", "/home/x/hydra");
    assert_eq!(e.services[1].working_directory(&e.path), "/home/x/hydra");
    assert_eq!(e.services[3].working_directory(&e.path), "/home/x/hydra/frontend");
    assert_eq!(e.services[0].working_directory(&e.path), "/home/x/hydra");
}

#[test]
fn health_checks() {
    let e = eco("Hydra", "/a");
    assert!(!e.services[0].is_http_check());
    assert!(e.services[1].is_http_check());
    assert_eq!(e.services[1].http_health_path(), "/api/health");
    assert_eq!(e.services[2].http_health_path(), "/");
}

#[test]
fn config_path_choice() {
    assert_eq!(choose_config_path(true, Some(("/bin/ecosystems.toml".to_string(), true))), "ecosystems.toml");
    assert_eq!(choose_config_path(false, Some(("/bin/ecosystems.toml".to_string(), true))), "/bin/ecosystems.toml");
    assert_eq!(choose_config_path(false, Some(("/bin/ecosystems.toml".to_string(), false))), "ecosystems.toml");
    assert_eq!(choose_config_path(false, None), "ecosystems.toml");
    assert_eq!(join_path("/a", "b.yml"), "/a/b.yml");
}

#[test]
fn compose_paths_under_ecosystem() {
    let mut e = eco("Hydra", "/srv/hydra");
    let (primary, fallback) = e.compose_paths();
    assert_eq!(primary, "/srv/hydra/docker-compose.yml");
    assert_eq!(fallback, Some("/srv/hydra/docker-compose.dev.yml".to_string()));
    e.docker_compose_fallback = None;
    assert_eq!(e.compose_paths().1, None);
}

#[test]
fn initial_selection_is_hydra_when_configured() {
    let with = EcosystemsConfig { ecosystem: vec![eco("Other", "/o"), eco("hydra", "/h")] };
    assert_eq!(with.initial_selection(), Some("hydra".to_string()));
    let without = EcosystemsConfig { ecosystem: vec![eco("Other", "/o"), eco("Hydra", "/h")] };
    assert_eq!(without.initial_selection(), None);
}

#[test]
fn environment_lookup_does_not_depend_on_order() {
    let mut e = eco("Hydra", "/h");
    let before_dev = e.find_environment("dev").map(|x| x.browser_url.clone());
    let before_prod = e.find_environment("prod").map(|x| x.browser_url.clone());
    e.environments.reverse();
    assert_eq!(e.find_environment("dev").map(|x| x.browser_url.clone()), before_dev);
    assert_eq!(e.find_environment("prod").map(|x| x.browser_url.clone()), before_prod);
    assert!(e.find_environment("staging").is_none());
}
