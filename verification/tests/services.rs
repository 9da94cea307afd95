use hydra_nexus::services::{
    all_svcs, app_svcs, centered_split, cleanup_patterns, compose_path, docker_svcs, down_compose_files,
    desktop_health_request, health_request, is_healthy_response, split_statuses, status_line, status_of, status_row, svc_probe,
    up_compose_file, Probe, ServiceStatus,
};

#[test]
fn service_tables() {
    let d = docker_svcs();
    let names: Vec<&str> = d.iter().map(|s| s.name).collect();
    assert_eq!(names, vec!["Redis", "Qdrant", "Neo4j", "LiteLLM", "Prometheus", "Grafana"]);
    assert_eq!(d[0].port, 31379);
    assert_eq!(d[5].http, Some("/api/health"));
    let a = app_svcs();
    assert_eq!(a[1].name, "Frontend");
    assert_eq!(a[1].port, 31173);
    assert_eq!(all_svcs().len(), 8);
}

#[test]
fn probes_of_services() {
    let d = docker_svcs();
    assert!(matches!(svc_probe(&d[0]), Probe::Tcp { port: 31379 }));
    match svc_probe(&d[1]) {
        Probe::Http { port, path } => {
            assert_eq!(port, 31333);
            assert_eq!(path, "/healthz");
        }
        _ => panic!("expected an HTTP probe"),
    }
}

#[test]
fn health_request_text() {
    assert_eq!(
        health_request("/api/health", 31100),
        "GET /api/health HTTP/1.1\r\nHost: 127.0.0.1:31100\r\nConnection: close\r\n\r\n"
    );
    assert_eq!(health_request("/", 8), "GET / HTTP/1.1\r\nHost: 127.0.0.1:8\r\nConnection: close\r\n\r\n");
}

#[test]
fn health_answers() {
    assert!(is_healthy_response(b"HTTP/1.1 200 OK\r\n"));
    assert!(is_healthy_response(b"HTTP/1.1 301 Moved"));
    assert!(!is_healthy_response(b"HTTP/1.1 404 Not Found"));
    assert!(!is_healthy_response(b"HTTP/1.1 500 Oops"));
    assert!(!is_healthy_response(b"HTTP/1.1 200"));
    assert!(!is_healthy_response(b"HTTP/1.0 200 OK\r\n"));
    assert!(!is_healthy_response(b""));
}

#[test]
fn compose_files() {
    assert_eq!(up_compose_file(true), "docker-compose.full.yml");
    assert_eq!(up_compose_file(false), "docker-compose.yml");
    assert_eq!(down_compose_files(true, true), vec!["docker-compose.full.yml", "docker-compose.yml"]);
    assert_eq!(down_compose_files(false, true), vec!["docker-compose.yml"]);
    assert!(down_compose_files(false, false).is_empty());
    assert_eq!(compose_path("/srv/hydra", "docker-compose.yml"), "/srv/hydra/docker-compose.yml");
    assert_eq!(cleanup_patterns().len(), 4);
    assert_eq!(cleanup_patterns()[3], "vite.*31173");
}

#[test]
fn status_texts() {
    let d = docker_svcs();
    assert_eq!(status_line(&d[0], true), "🔴 Redis        :31379 ✅");
    assert_eq!(status_line(&d[4], false), "📊 Prometheus   :31990 ❌");
    assert_eq!(status_row("Redis", true), " ● Redis      UP");
    assert_eq!(status_row("Redis", false), " ○ Redis      UP");
    let s = status_of(&d[2], true);
    assert_eq!(s.name, "Neo4j");
    assert!(s.up);
    assert_eq!(s.icon, "🟢");
}

#[test]
fn statuses_are_split() {
    let st = vec![
        ServiceStatus { name: "Backend".to_string(), up: true, icon: String::new() },
        ServiceStatus { name: "Redis".to_string(), up: false, icon: String::new() },
        ServiceStatus { name: "Unknown".to_string(), up: true, icon: String::new() },
        ServiceStatus { name: "Grafana".to_string(), up: true, icon: String::new() },
    ];
    let (docker, apps) = split_statuses(&st);
    let dn: Vec<&str> = docker.iter().map(|s| s.name.as_str()).collect();
    let an: Vec<&str> = apps.iter().map(|s| s.name.as_str()).collect();
    assert_eq!(dn, vec!["Redis", "Grafana"]);
    assert_eq!(an, vec!["Backend"]);
    assert!(!docker[0].up);
}

#[test]
fn centered_band() {
    assert_eq!(centered_split(80), (10, 80, 10));
    assert_eq!(centered_split(60), (20, 60, 20));
    assert_eq!(centered_split(100), (0, 100, 0));
}

#[test]
fn desktop_health_request_uses_line_feeds() {
    assert_eq!(
        desktop_health_request("/api/health", 31100),
        "GET /api/health HTTP/1.1\nHost: 127.0.0.1:31100\nConnection: close\n\n"
    );
}
