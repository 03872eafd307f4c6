use vps_deployer::config::{BackendStack, ProjectConfig};
use vps_deployer::docs::generate;
use vps_deployer::templates::{backend_service, backup_sh, deploy_sh, nginx_conf, render, service_user};

fn sample() -> ProjectConfig {
    let mut c = ProjectConfig::default();
    c.project_name = "shop".to_string();
    c.target_dir = "/var/www/shop".to_string();
    c.backend_port = "8000".to_string();
    c.backend_repo = "https://example.com/shop-api.git".to_string();
    c.db_dir = "/var/lib/shop/db".to_string();
    c.uploads_dir = "/var/lib/shop/uploads".to_string();
    c.backup_dir = "/var/backups/shop".to_string();
    c.domain = "shop.example.com".to_string();
    c.frontend_dist = "/var/www/shop/frontend/dist".to_string();
    c
}

#[test]
fn render_replaces_longer_keys_first() {
    let out = render("{{DOMAIN_FILE}} / {{DOMAIN}}", &[("DOMAIN", "a.com"), ("DOMAIN_FILE", "a_com")]);
    assert_eq!(out, "a_com / a.com");
    let out = render("{{A}} {{AB}}", &[("A", "1"), ("AB", "2")]);
    assert_eq!(out, "1 2");
}

#[test]
fn render_keeps_unknown_placeholders() {
    assert_eq!(render("{{X}} and {{Y}}", &[("Y", "1")]), "{{X}} and 1");
    assert_eq!(render("no placeholders", &[("Y", "1")]), "no placeholders");
    assert_eq!(render("", &[]), "");
}

#[test]
fn render_replaces_every_occurrence() {
    assert_eq!(render("{{P}}-{{P}}-{{P}}", &[("P", "x")]), "x-x-x");
}

#[test]
fn render_substitutes_in_order_of_length_then_position() {
    // a value may hold a placeholder that a later (shorter or equal, later listed) key fills
    assert_eq!(render("{{LONGER}}", &[("LONGER", "{{S}}"), ("S", "z")]), "z");
    assert_eq!(render("{{AB}}", &[("AB", "{{CD}}"), ("CD", "x")]), "x");
    assert_eq!(render("{{AB}}", &[("CD", "x"), ("AB", "{{CD}}")]), "{{CD}}");
}

#[test]
fn render_measures_keys_in_bytes() {
    // "ÉA" and "ABC" both take three bytes: the one listed first goes first
    assert_eq!(render("{{ÉA}}{{ABC}}", &[("ABC", "{{ÉA}}"), ("ÉA", "y")]), "yy");
    // "ÉÉ" (4 bytes) is longer than "ABC" (3 bytes)
    assert_eq!(render("{{ABC}}", &[("ABC", "{{ÉÉ}}"), ("ÉÉ", "q")]), "{{ÉÉ}}");
}

#[test]
fn deploy_script_is_fully_rendered() {
    let out = deploy_sh(&sample());
    assert!(!out.contains("{{"));
    assert!(out.contains("PROJECT=\"shop\""));
    assert!(out.contains("SERVICE=\"shop-backend\""));
    assert!(out.contains("echo \"==> building backend (Node.js (JavaScript)) ...\""));
    assert!(out.contains("npm ci --omit=dev || npm install --omit=dev"));
    assert!(out.contains("echo '==> no frontend repo configured, skipping'"));
}

#[test]
fn deploy_script_without_backend() {
    let mut c = sample();
    c.backend_repo = String::new();
    c.frontend_repo = "https://example.com/web.git".to_string();
    let out = deploy_sh(&c);
    assert!(out.contains("echo '==> no backend repo configured, skipping'"));
    assert!(out.contains("npm run build --if-present"));
}

#[test]
fn service_unit_is_fully_rendered() {
    let mut c = sample();
    c.stack = BackendStack::Rust;
    let out = backend_service(&c);
    assert!(!out.contains("{{"));
    assert!(out.contains("User=root"));
    assert!(out.contains("WorkingDirectory=/var/www/shop/backend"));
    assert!(out.contains("ExecStart=/var/www/shop/backend/target/release/app"));
    assert!(out.contains("Description=shop backend (rust)"));
    assert!(out.contains("Environment=PORT=8000"));
}

#[test]
fn service_user_defaults_to_root() {
    let mut c = sample();
    assert_eq!(service_user(&c), "root");
    c.service_user = "  deploy ".to_string();
    assert_eq!(service_user(&c), "deploy");
}

#[test]
fn nginx_site_with_and_without_websocket() {
    let c = sample();
    let out = nginx_conf(&c);
    assert!(!out.contains("{{"));
    assert!(out.contains("server_name shop.example.com;"));
    assert!(out.contains("proxy_pass http://127.0.0.1:8000;"));
    assert!(out.contains("proxy_set_header Connection \"upgrade\";"));
    let mut d = sample();
    d.websocket = false;
    assert!(!nginx_conf(&d).contains("Upgrade"));
}

#[test]
fn backup_script_sections_and_retention() {
    let c = sample();
    let out = backup_sh(&c);
    assert!(!out.contains("{{"));
    assert!(out.contains("backing up database directory"));
    assert!(out.contains("backing up uploads directory"));
    assert!(out.contains("keep the newest 10 archives"));
    assert!(out.contains("tail -n +11"));
    let mut d = sample();
    d.backup_db = false;
    d.backup_uploads = false;
    d.backup_retention = " 0 ".to_string();
    let out = backup_sh(&d);
    assert!(out.contains("echo 'nothing selected for backup'"));
    assert!(out.contains("keep the newest 1 archives"));
    assert!(out.contains("tail -n +2"));
}

#[test]
fn backup_script_skips_unset_directories() {
    let mut c = sample();
    c.db_dir = String::new();
    let out = backup_sh(&c);
    assert!(!out.contains("backing up database directory"));
    assert!(out.contains("backing up uploads directory"));
}

#[test]
fn documentation_is_fully_rendered() {
    let out = generate(&sample(), "2024-01-02 03:04:05 UTC");
    assert!(!out.contains("{{"));
    assert!(out.contains("shop"));
    assert!(out.contains("2024-01-02 03:04:05 UTC"));
}

#[test]
fn documentation_values() {
    let mut c = sample();
    c.extra_ports = "9000, 22".to_string();
    let out = generate(&c, "today");
    assert!(out.contains("Allowed: 80/tcp · 443/tcp · 8000/tcp (backend) · 9000 · 22"));
    assert!(out.contains("Cron: `0 3 * * * /var/www/shop/.vps-deployer/backup.sh >> /var/backups/shop/cron.log 2>&1`"));
    assert!(out.contains("| Domain | shop.example.com |"));
    assert!(out.contains("Staged config: `/var/www/shop/.vps-deployer/nginx-shop.example.com.conf`"));
    assert!(out.contains("- Backend: https://example.com/shop-api.git"));
    assert!(out.contains("- Frontend: not configured"));
    assert!(out.contains("| Stack | Node.js (JavaScript) |"));
}

#[test]
fn documentation_without_domain_or_rules() {
    let mut c = sample();
    c.domain = String::new();
    c.ufw_web = false;
    c.ufw_backend = false;
    c.backup_cron = false;
    c.health_path = "ping".to_string();
    let out = generate(&c, "today");
    assert!(out.contains("Allowed: none"));
    assert!(out.contains("Cron: not installed"));
    assert!(out.contains("| Domain | — (nginx/SSL skipped) |"));
    assert!(out.contains("Staged config: `/var/www/shop/.vps-deployer/nginx-<domain>.conf (skipped)`"));
    assert!(out.contains("Installed as: — (no domain configured)"));
    assert!(out.contains("`GET http://127.0.0.1:8000/ping`"));
}
