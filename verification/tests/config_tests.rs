use vps_deployer::config::{health_path, sanitize, split_ports, validate, BackendStack, ProjectConfig};
use vps_deployer::projects::{name_le_exec, project_file_name, sort_projects};

fn sample() -> ProjectConfig {
    let mut c = ProjectConfig::default();
    c.project_name = "shop".to_string();
    c.target_dir = "/var/www/shop".to_string();
    c.backend_port = "8000".to_string();
    c.backend_repo = "https://example.com/shop-api.git".to_string();
    c
}

#[test]
fn default_config_values() {
    let c = ProjectConfig::default();
    assert_eq!(c.project_name, "");
    assert_eq!(c.stack, BackendStack::NodeJs);
    assert_eq!(c.branch, "production");
    assert_eq!(c.health_path, "/health");
    assert_eq!(c.api_prefix, "/api/");
    assert_eq!(c.max_body_size, "25m");
    assert_eq!(c.backup_retention, "10");
    assert!(c.ufw_backend && c.ufw_web && c.websocket);
    assert!(c.backup_enabled && c.backup_db && c.backup_uploads && c.backup_cron);
}

#[test]
fn clone_keeps_every_field() {
    let c = sample();
    let d = c.clone();
    assert_eq!(d.project_name, c.project_name);
    assert_eq!(d.target_dir, c.target_dir);
    assert_eq!(d.backend_repo, c.backend_repo);
    assert_eq!(d.stack, c.stack);
}

#[test]
fn service_name_and_staging_dir() {
    let c = sample();
    assert_eq!(c.service_name(), "shop-backend");
    assert_eq!(c.staging_dir(), "/var/www/shop/.vps-deployer");
}

#[test]
fn retention_parses_trims_and_defaults() {
    let mut c = sample();
    c.backup_retention = "10".to_string();
    assert_eq!(c.retention_u32(), 10);
    c.backup_retention = "  3 ".to_string();
    assert_eq!(c.retention_u32(), 3);
    c.backup_retention = "0".to_string();
    assert_eq!(c.retention_u32(), 1);
    c.backup_retention = "abc".to_string();
    assert_eq!(c.retention_u32(), 10);
    c.backup_retention = "".to_string();
    assert_eq!(c.retention_u32(), 10);
    c.backup_retention = "-4".to_string();
    assert_eq!(c.retention_u32(), 10);
    c.backup_retention = "+7".to_string();
    assert_eq!(c.retention_u32(), 7);
    c.backup_retention = "4294967295".to_string();
    assert_eq!(c.retention_u32(), u32::MAX);
    c.backup_retention = "4294967296".to_string();
    assert_eq!(c.retention_u32(), 10);
}

#[test]
fn validate_accepts_a_complete_record() {
    assert_eq!(validate(&sample()), Ok(()));
    let mut c = sample();
    c.backend_repo = String::new();
    c.frontend_repo = "https://example.com/web.git".to_string();
    assert_eq!(validate(&c), Ok(()));
}

#[test]
fn validate_requires_a_project_name() {
    let mut c = sample();
    c.project_name = "   ".to_string();
    assert_eq!(validate(&c), Err("Project Name is required".to_string()));
}

#[test]
fn validate_requires_a_deploy_directory() {
    let mut c = sample();
    c.target_dir = String::new();
    assert_eq!(validate(&c), Err("Deploy Directory is required".to_string()));
}

#[test]
fn validate_requires_a_numeric_port() {
    let mut c = sample();
    for bad in ["", "80a", "65536", " 80", "-1"] {
        c.backend_port = bad.to_string();
        assert_eq!(validate(&c), Err("Backend Port must be a valid number".to_string()), "{bad}");
    }
    c.backend_port = "65535".to_string();
    assert_eq!(validate(&c), Ok(()));
    c.backend_port = "+80".to_string();
    assert_eq!(validate(&c), Ok(()));
}

#[test]
fn validate_requires_a_repository() {
    let mut c = sample();
    c.backend_repo = String::new();
    assert_eq!(
        validate(&c),
        Err("Provide at least one repository (backend or frontend)".to_string())
    );
}

#[test]
fn validate_reports_the_first_broken_rule() {
    let c = ProjectConfig::default();
    assert_eq!(validate(&c), Err("Project Name is required".to_string()));
}

#[test]
fn stack_cycles_both_ways() {
    let all = [
        BackendStack::NodeJs,
        BackendStack::TypeScript,
        BackendStack::Rust,
        BackendStack::Go,
        BackendStack::Python,
    ];
    for (i, s) in all.iter().enumerate() {
        assert_eq!(s.next(), all[(i + 1) % 5]);
        assert_eq!(s.prev(), all[(i + 4) % 5]);
        assert_eq!(s.next().prev(), *s);
        assert_eq!(s.prev().next(), *s);
        assert_eq!(BackendStack::at(i), *s);
        assert_eq!(s.index(), i);
    }
}

#[test]
fn stack_texts() {
    assert_eq!(BackendStack::NodeJs.label(), "Node.js (JavaScript)");
    assert_eq!(BackendStack::Rust.short(), "rust");
    assert_eq!(BackendStack::Go.build_command(), "go build -o app .");
    assert_eq!(BackendStack::TypeScript.build_command(), "npm ci && npm run build");
    assert_eq!(BackendStack::NodeJs.default_entry(), "server.js");
}

#[test]
fn exec_start_per_stack() {
    assert_eq!(
        BackendStack::NodeJs.exec_start("/srv/app/backend", "index.js"),
        "/usr/bin/env node /srv/app/backend/index.js"
    );
    assert_eq!(
        BackendStack::Go.exec_start("/srv/app/backend", "  "),
        "/srv/app/backend/app"
    );
}

#[test]
fn sanitize_replaces_unsafe_characters() {
    assert_eq!(sanitize("my app/1"), "my_app_1");
    assert_eq!(sanitize("ok-name_1.2"), "ok-name_1.2");
    assert_eq!(sanitize("café"), "café");
    assert_eq!(sanitize("a*b?c"), "a_b_c");
}

#[test]
fn project_file_names() {
    assert_eq!(project_file_name("my shop"), "my_shop.json");
    assert_eq!(project_file_name(""), ".json");
}

#[test]
fn split_ports_trims_and_skips_blanks() {
    assert_eq!(split_ports(" 8080, ,9000/tcp ,"), vec!["8080".to_string(), "9000/tcp".to_string()]);
    assert!(split_ports("").is_empty());
    assert_eq!(split_ports("22"), vec!["22".to_string()]);
}

#[test]
fn health_path_gets_a_leading_slash() {
    let mut c = sample();
    c.health_path = "health".to_string();
    assert_eq!(health_path(&c), "/health");
    c.health_path = "/ready".to_string();
    assert_eq!(health_path(&c), "/ready");
}

#[test]
fn names_order_like_string_cmp() {
    let names = ["", "a", "ab", "b", "B", "é", "a b", "ab"];
    for x in names {
        for y in names {
            assert_eq!(name_le_exec(x, y), x <= y, "{x} {y}");
        }
    }
}

#[test]
fn projects_are_sorted_by_name() {
    let mut a = sample();
    a.project_name = "zeta".to_string();
    let mut b = sample();
    b.project_name = "alpha".to_string();
    let mut c = sample();
    c.project_name = "Mid".to_string();
    let sorted = sort_projects(vec![a, b, c]);
    let names: Vec<&str> = sorted.iter().map(|p| p.project_name.as_str()).collect();
    assert_eq!(names, vec!["Mid", "alpha", "zeta"]);
}

#[test]
fn sanitized_names_hold_no_separators() {
    for name in ["../../etc/passwd", "a b", "x\\y", "ok.name-1_", "é/ü"] {
        let s = sanitize(name);
        assert!(!s.contains('/') && !s.contains(' ') && !s.contains('\\'), "{s}");
        assert!(s.chars().all(|c| !c.is_ascii() || c.is_ascii_alphanumeric() || "-_.".contains(c)));
    }
}

#[test]
fn sorting_keeps_every_record() {
    let mut a = sample();
    a.project_name = "b".to_string();
    let mut b = sample();
    b.project_name = "a".to_string();
    b.domain = "x.io".to_string();
    let sorted = sort_projects(vec![a, b]);
    assert_eq!(sorted.len(), 2);
    assert!(sorted.iter().any(|p| p.project_name == "a" && p.domain == "x.io"));
    assert!(sorted.iter().any(|p| p.project_name == "b"));
    assert_eq!(sanitize("a"), "a");
    assert_eq!(sanitize("a/b"), "a_b");
}
