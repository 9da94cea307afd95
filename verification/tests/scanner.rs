use hydra_nexus::scanner::{
    any_found, collect_projects, compose_candidates, manifest_paths, probe_of, skipped_name, DirEntryInfo,
    DiscoveredProject, ProjectProbe, ProjectScanner,
};

fn probe(name: &str, is_dir: bool, dc: bool, pkg: bool, cargo: bool) -> ProjectProbe {
    ProjectProbe {
        name: name.to_string(),
        path: format!("/p/{}", name),
        is_dir,
        has_docker_compose: dc,
        has_package_json: pkg,
        has_cargo_toml: cargo,
    }
}

fn project(name: &str, dc: bool, pkg: bool, cargo: bool) -> DiscoveredProject {
    DiscoveredProject {
        name: name.to_string(),
        path: format!("/p/{}", name),
        has_docker_compose: dc,
        has_package_json: pkg,
        has_cargo_toml: cargo,
        is_configured: false,
    }
}

#[test]
fn collect_filters_and_sorts() {
    let probes = vec![
        probe("zeta", true, false, false, true),
        probe(".hidden", true, true, true, true),
        probe("node_modules", true, false, true, false),
        probe("alpha", true, true, false, false),
        probe("file.txt", false, true, false, false),
        probe("empty", true, false, false, false),
        probe("Beta", true, false, true, false),
        probe("target", true, false, false, true),
    ];
    let projects = collect_projects(probes);
    let names: Vec<&str> = projects.iter().map(|p| p.name.as_str()).collect();
    assert_eq!(names, vec!["Beta", "alpha", "zeta"]);
    assert!(projects.iter().all(|p| !p.is_configured));
    assert_eq!(projects[1].path, "/p/alpha");
    assert!(projects[1].has_docker_compose);
}

#[test]
fn skipped_names() {
    for n in [".git", ".cache", "node_modules", "target", "dist", "build"] {
        assert!(skipped_name(n), "{}", n);
    }
    for n in ["hydra", "builds", "my-target", "src"] {
        assert!(!skipped_name(n), "{}", n);
    }
}

#[test]
fn mark_configured_ignores_ascii_case() {
    let mut projects = vec![project("Hydra", true, false, false), project("nexus", false, true, false), project("other", false, false, true)];
    let names = vec!["hydra".to_string(), "NEXUS".to_string()];
    ProjectScanner::mark_configured(&mut projects, &names);
    assert!(projects[0].is_configured);
    assert!(projects[1].is_configured);
    assert!(!projects[2].is_configured);
    ProjectScanner::mark_configured(&mut projects, &names);
    assert!(projects[0].is_configured && projects[1].is_configured && !projects[2].is_configured);
    ProjectScanner::mark_configured(&mut projects, &[]);
    assert!(projects.iter().all(|p| !p.is_configured));
}

#[test]
fn project_types_and_icons() {
    assert_eq!(project("a", true, true, true).project_type(), "Docker + Node.js + Rust");
    assert_eq!(project("a", true, false, false).project_type(), "Docker");
    assert_eq!(project("a", false, true, true).project_type(), "Node.js + Rust");
    assert_eq!(project("a", false, false, false).project_type(), "Unknown");
    assert_eq!(project("a", true, true, false).icon(), "🐳");
    assert_eq!(project("a", true, true, true).icon(), "🐳");
    assert_eq!(project("a", false, true, true).icon(), "🦀");
    assert_eq!(project("a", false, true, false).icon(), "📦");
    assert_eq!(project("a", true, false, false).icon(), "🐋");
    assert_eq!(project("a", false, false, false).icon(), "📁");
}

#[test]
fn probes_follow_entries() {
    let scanner = ProjectScanner::new("/");
    assert_eq!(scanner.scan_dir(), "/");
    let entries = vec![
        DirEntryInfo { name: ".hidden".to_string(), path: "/.hidden".to_string(), is_dir: true },
        DirEntryInfo { name: "etc".to_string(), path: "/etc".to_string(), is_dir: true },
        DirEntryInfo { name: "file".to_string(), path: "/file".to_string(), is_dir: false },
    ];
    let probes = scanner.probe_entries(&entries);
    assert_eq!(probes.len(), 3);
    assert_eq!(probes[1].name, "etc");
    assert_eq!(probes[1].path, "/etc");
    assert!(!probes[0].has_docker_compose && !probes[0].has_package_json && !probes[0].has_cargo_toml);
    assert!(!probes[2].has_docker_compose && !probes[2].has_package_json && !probes[2].has_cargo_toml);
    assert!(!scanner.has_docker_compose("/no/such/dir"));
}

#[test]
fn compose_candidates_in_order() {
    assert_eq!(
        compose_candidates("/srv/app"),
        vec![
            "/srv/app/docker-compose.yml".to_string(),
            "/srv/app/docker-compose.yaml".to_string(),
            "/srv/app/docker-compose.full.yml".to_string(),
            "/srv/app/docker-compose.prod.yml".to_string(),
        ]
    );
}

#[test]
fn any_found_combines_answers() {
    assert!(!any_found(&[]));
    assert!(!any_found(&[false, false, false, false]));
    assert!(any_found(&[false, false, true, false]));
    assert!(any_found(&[true]));
}

#[test]
fn manifest_paths_of_dir() {
    let (pkg, cargo) = manifest_paths("/srv/app");
    assert_eq!(pkg, "/srv/app/package.json");
    assert_eq!(cargo, "/srv/app/Cargo.toml");
}

#[test]
fn probe_of_keeps_answers_of_candidates_only() {
    let dir = DirEntryInfo { name: "api".to_string(), path: "/p/api".to_string(), is_dir: true };
    let p = probe_of(&dir, true, false, true);
    assert_eq!(p.name, "api");
    assert_eq!(p.path, "/p/api");
    assert!(p.is_dir && p.has_docker_compose && !p.has_package_json && p.has_cargo_toml);
    let hidden = DirEntryInfo { name: ".cache".to_string(), path: "/p/.cache".to_string(), is_dir: true };
    let q = probe_of(&hidden, true, true, true);
    assert!(!q.has_docker_compose && !q.has_package_json && !q.has_cargo_toml);
    let file = DirEntryInfo { name: "notes".to_string(), path: "/p/notes".to_string(), is_dir: false };
    let f = probe_of(&file, true, true, true);
    assert!(!f.is_dir && !f.has_docker_compose && !f.has_package_json && !f.has_cargo_toml);
}
