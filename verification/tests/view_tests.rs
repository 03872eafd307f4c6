use vps_deployer::app::{Notification, Rect, ServiceStatus};
use vps_deployer::config::{BackendStack, ProjectConfig};
use vps_deployer::theme::{ascii_icons, looks_utf8, unicode_icons};
use vps_deployer::text::{pad_left, pad_right, str_contains};
use vps_deployer::view::{
    api_row, delete_label, field_title, header_project, header_status, log_level, log_title,
    log_window, project_row, projects_title, rate_label, review_rows, service_row, services_height,
    stack_line, toast_boxes, toggle_texts, LogLevel,
};

fn sample() -> ProjectConfig {
    let mut c = ProjectConfig::default();
    c.project_name = "shop".to_string();
    c.target_dir = "/var/www/shop".to_string();
    c.db_dir = "/db".to_string();
    c.uploads_dir = "/up".to_string();
    c.backend_port = "8000".to_string();
    c.backend_repo = "https://example.com/api.git".to_string();
    c
}

#[test]
fn the_review_summary() {
    let rows = review_rows(&sample());
    let texts: Vec<(&str, &str)> = rows.iter().map(|(a, b)| (a.as_str(), b.as_str())).collect();
    assert_eq!(
        texts,
        vec![
            (" Project   : ", "shop  (Node.js (JavaScript))"),
            (" Repos     : ", "backend ✓ · frontend — · branch 'production'"),
            (" Dirs      : ", "/var/www/shop  ·  db /db  ·  uploads /up"),
            (" Network   : ", "port 8000 · domain — · health /health"),
            (" Backups   : ", "on · keep 10 · cron daily 03:00"),
            ("", ""),
            ("", " Staged files — edit with vim, then use 'My edits':"),
            ("", "   /var/www/shop/.vps-deployer/deploy.sh"),
            ("", "   /var/www/shop/.vps-deployer/shop-backend.service"),
            ("", "   /var/www/shop/.vps-deployer/nginx-<domain>.conf"),
            ("", "   /var/www/shop/.vps-deployer/backup.sh"),
            ("", "   /var/www/shop/.vps-deployer/DOCUMENTATION.md"),
        ]
    );
}

#[test]
fn the_review_summary_with_a_domain() {
    let mut c = sample();
    c.domain = "a.io".to_string();
    c.backup_enabled = false;
    c.backup_cron = false;
    let rows = review_rows(&c);
    assert_eq!(rows[3].1, "port 8000 · domain a.io · health /health");
    assert_eq!(rows[4].1, "off · keep 10 · cron off");
    assert_eq!(rows[9].1, "   /var/www/shop/.vps-deployer/nginx-a.io.conf");
}

#[test]
fn project_rows_are_aligned() {
    let c = sample();
    let expected = format!(
        " {} {:<18} {:<8} {:<24} {}",
        "▶", "shop", "node", "no-domain", "/var/www/shop"
    );
    assert_eq!(project_row(&c, true), expected);
    let mut d = sample();
    d.project_name = "a-very-long-project-name".to_string();
    d.domain = "é.example".to_string();
    d.stack = BackendStack::Python;
    let expected = format!(
        " {} {:<18} {:<8} {:<24} {}",
        " ", "a-very-long-project-name", "py", "é.example", "/var/www/shop"
    );
    assert_eq!(project_row(&d, false), expected);
}

#[test]
fn padding_like_format() {
    for s in ["", "a", "abcdef", "ééé", "0123456789"] {
        for w in 0..12 {
            assert_eq!(pad_right(s, w), format!("{s:<w$}"));
            assert_eq!(pad_left(s, w), format!("{s:>w$}"));
        }
    }
}

#[test]
fn substring_search() {
    assert!(str_contains("[ERROR] x", "[ERROR]"));
    assert!(str_contains("abc", ""));
    assert!(!str_contains("", "a"));
    assert!(!str_contains("[WARN", "[WARN]"));
    assert!(str_contains("xx[WARN]", "[WARN]"));
}

#[test]
fn field_texts() {
    assert_eq!(field_title("Domain", true), " ▸ Domain ");
    assert_eq!(field_title("Domain", false), "   Domain ");
    let (mark, word, hint) = toggle_texts(true, "opens the port");
    assert_eq!((mark, word), ("   [✓] ", "ON"));
    assert_eq!(hint, Some("   opens the port".to_string()));
    let (mark, word, hint) = toggle_texts(false, "");
    assert_eq!((mark, word), ("   [✗] ", "OFF"));
    assert_eq!(hint, None);
    assert_eq!(stack_line(BackendStack::Rust), "   build: cargo build --release");
    assert_eq!(projects_title(&unicode_icons(), 3), " 📦 Projects on this VPS (3) ");
}

#[test]
fn service_rows() {
    let icons = ascii_icons();
    let up = ServiceStatus { name: "nginx".to_string(), active: true };
    let (dot, name, state) = service_row(&up, &icons);
    assert_eq!(dot, " + ");
    assert_eq!(name, format!("{:<24}", "nginx"));
    assert_eq!(state, "ACTIVE");
    let down = ServiceStatus { name: "ufw".to_string(), active: false };
    assert_eq!(service_row(&down, &icons).2, "DOWN");
    assert_eq!(service_row(&down, &icons).0, " x ");
    let (b, n, d) = api_row(&icons, &"GET /health → 200 OK".to_string());
    assert_eq!(b, " API ");
    assert_eq!(n, format!("{:<24}", "api health"));
    assert_eq!(d, "GET /health → 200 OK");
}

#[test]
fn services_box_height() {
    assert_eq!(services_height(0, false), 3);
    assert_eq!(services_height(1, false), 3);
    assert_eq!(services_height(2, true), 5);
    assert_eq!(services_height(7, false), 9);
    assert_eq!(services_height(6, true), 9);
    assert_eq!(services_height(usize::MAX, true), 9);
}

#[test]
fn log_levels() {
    assert_eq!(log_level("[ERROR] boom"), LogLevel::Error);
    assert_eq!(log_level("x [WARN] y"), LogLevel::Warn);
    assert_eq!(log_level("[WARN] and [ERROR]"), LogLevel::Error);
    assert_eq!(log_level("[INFO] fine"), LogLevel::Plain);
}

#[test]
fn the_log_window() {
    let logs: Vec<String> = (0..10).map(|i| format!("l{i}")).collect();
    let w = log_window(&logs, 0, 3);
    let texts: Vec<&str> = w.iter().map(|p| p.1.as_str()).collect();
    assert_eq!(texts, vec![" l9", " l8", " l7"]);
    let w = log_window(&logs, 2, 3);
    let texts: Vec<&str> = w.iter().map(|p| p.1.as_str()).collect();
    assert_eq!(texts, vec![" l7", " l6", " l5"]);
    // scrolling stops when the oldest line is at the bottom
    let w = log_window(&logs, 100, 3);
    let texts: Vec<&str> = w.iter().map(|p| p.1.as_str()).collect();
    assert_eq!(texts, vec![" l2", " l1", " l0"]);
    // a window taller than the log shows it all
    assert_eq!(log_window(&logs, 5, 20).len(), 10);
    assert!(log_window(&logs, 0, 0).is_empty());
    assert_eq!(log_title(10), " 📜 Activity Log (10 entries) ");
}

#[test]
fn log_window_matches_the_reference() {
    let logs: Vec<String> = (0..25).map(|i| if i % 3 == 0 { format!("[WARN] {i}") } else { format!("{i}") }).collect();
    for scroll in 0..30 {
        for visible in 0..30 {
            let max_scroll = logs.len().saturating_sub(visible);
            let s = scroll.min(max_scroll);
            let expected: Vec<String> = logs.iter().rev().skip(s).take(visible).map(|l| format!(" {l}")).collect();
            let got: Vec<String> = log_window(&logs, scroll, visible).into_iter().map(|p| p.1).collect();
            assert_eq!(got, expected);
        }
    }
}

#[test]
fn the_header() {
    assert_eq!(header_status(false, false, 3), " ● ready ");
    assert_eq!(header_status(true, true, 3), " ... deploying ");
    assert_eq!(header_status(true, false, 0), " ⠋ deploying ");
    assert_eq!(header_status(true, false, 13), " ⠸ deploying ");
    assert_eq!(header_project(&None), " ⌂ no project ");
    assert_eq!(header_project(&Some(sample())), " ⌂ shop ");
}

#[test]
fn the_delete_button() {
    let icons = unicode_icons();
    assert_eq!(delete_label(None, 10_000, &icons), " 🗑  Del ");
    assert_eq!(delete_label(Some(6_000), 10_000, &icons), " ⚠ SURE? ");
    assert_eq!(delete_label(Some(5_000), 10_000, &icons), " 🗑  Del ");
}

#[test]
fn bandwidth_labels() {
    let icons = unicode_icons();
    assert_eq!(rate_label(icons.down, 0), format!(" ▼ {:>9}/s ", "0 B"));
    assert_eq!(rate_label(icons.up, 1), format!(" ▲ {:>9}/s ", "1.0 KiB"));
    assert_eq!(rate_label("v", 2048), format!(" v {:>9}/s ", "2.0 MiB"));
}

fn note(at: u64) -> Notification {
    Notification { message: "m".to_string(), level: "Info".to_string(), created_at: at }
}

#[test]
fn notifications_stack_up_from_the_corner() {
    let ns = vec![note(0), note(1_000), note(9_000), note(9_500)];
    let boxes = toast_boxes(&ns, 10_000, 100, 40);
    assert_eq!(
        boxes,
        vec![
            (3, Rect { x: 55, y: 35, width: 44, height: 3 }),
            (2, Rect { x: 55, y: 32, width: 44, height: 3 }),
        ]
    );
}

#[test]
fn notifications_that_do_not_fit_are_dropped() {
    let ns = vec![note(0), note(0), note(0)];
    let boxes = toast_boxes(&ns, 1, 20, 8);
    assert_eq!(
        boxes,
        vec![
            (2, Rect { x: 1, y: 3, width: 18, height: 3 }),
            (1, Rect { x: 1, y: 0, width: 18, height: 3 }),
        ]
    );
    assert!(toast_boxes(&ns, 1, 20, 4).is_empty());
    assert_eq!(toast_boxes(&ns, 1, 1, 5), vec![(2, Rect { x: 0, y: 0, width: 0, height: 3 })]);
}

#[test]
fn utf8_locales() {
    assert!(looks_utf8(&vec!["en_US.UTF-8".to_string()]));
    assert!(looks_utf8(&vec!["C".to_string(), "de_DE.utf8".to_string()]));
    assert!(!looks_utf8(&vec!["C".to_string(), "POSIX".to_string()]));
    assert!(!looks_utf8(&Vec::new()));
}
