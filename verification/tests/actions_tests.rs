use vps_deployer::actions::{
    choose_disk, disk_usage, health_url, install_cron_command, parse_du_size, probe_due, remove_cron_command,
    service_names, staged_files, transfer_rates, DiskInfo,
};
use vps_deployer::config::ProjectConfig;
use vps_deployer::templates::{backend_service, backup_sh, deploy_sh, nginx_conf};

fn sample() -> ProjectConfig {
    let mut c = ProjectConfig::default();
    c.project_name = "shop".to_string();
    c.target_dir = "/var/www/shop".to_string();
    c.backend_port = "8000".to_string();
    c.backend_repo = "https://example.com/shop-api.git".to_string();
    c.backup_dir = "/var/backups/shop".to_string();
    c.domain = "shop.example.com".to_string();
    c
}

fn disk(mount: &str, total: u64, available: u64) -> DiskInfo {
    DiskInfo { mount_point: mount.to_string(), total, available }
}

#[test]
fn staged_files_in_order() {
    let c = sample();
    let files = staged_files(&c);
    let paths: Vec<&str> = files.iter().map(|f| f.path.as_str()).collect();
    assert_eq!(
        paths,
        vec![
            "/var/www/shop/.vps-deployer/deploy.sh",
            "/var/www/shop/.vps-deployer/shop-backend.service",
            "/var/www/shop/.vps-deployer/nginx-shop.example.com.conf",
            "/var/www/shop/.vps-deployer/backup.sh",
        ]
    );
    let exec: Vec<bool> = files.iter().map(|f| f.executable).collect();
    assert_eq!(exec, vec![true, false, false, true]);
    assert_eq!(files[0].contents, deploy_sh(&c));
    assert_eq!(files[1].contents, backend_service(&c));
    assert_eq!(files[2].contents, nginx_conf(&c));
    assert_eq!(files[3].contents, backup_sh(&c));
}

#[test]
fn staged_files_without_domain_or_backups() {
    let mut c = sample();
    c.domain = String::new();
    c.backup_enabled = false;
    let files = staged_files(&c);
    assert_eq!(files.len(), 2);
}

#[test]
fn cron_commands() {
    let c = sample();
    assert_eq!(
        install_cron_command(&c),
        "(crontab -l 2>/dev/null | grep -v 'vps-deployer:shop' || true; echo '0 3 * * * /usr/bin/env bash '/var/www/shop/.vps-deployer/backup.sh' >> '/var/backups/shop/cron.log' 2>&1 # vps-deployer:shop') | crontab -"
    );
    assert_eq!(
        remove_cron_command(&c),
        "(crontab -l 2>/dev/null | grep -v 'vps-deployer:shop' || true) | crontab -"
    );
}

#[test]
fn watched_services() {
    let c = sample();
    assert_eq!(service_names(Some(&c)), vec!["shop-backend", "nginx", "ufw"]);
    assert_eq!(service_names(None), vec!["nginx", "ufw"]);
}

#[test]
fn du_output_parsing() {
    assert_eq!(parse_du_size("12345\t/var/lib/db\n"), Some(12345));
    assert_eq!(parse_du_size("  77 /x"), Some(77));
    assert_eq!(parse_du_size(""), None);
    assert_eq!(parse_du_size("du: cannot access"), None);
    assert_eq!(parse_du_size("18446744073709551615 /"), Some(u64::MAX));
    assert_eq!(parse_du_size("18446744073709551616 /"), None);
}

#[test]
fn the_longest_matching_mount_wins() {
    let disks = vec![disk("/", 100, 40), disk("/var", 50, 10), disk("/var/www", 30, 30)];
    assert_eq!(disk_usage("/var/www/shop", &disks), Some((30, 0)));
    assert_eq!(disk_usage("/var/lib", &disks), Some((50, 40)));
    assert_eq!(disk_usage("/home", &disks), Some((100, 60)));
    assert_eq!(disk_usage("", &disks), Some((100, 60)));
    // "/varx" is not under "/var": paths compare by whole components
    assert_eq!(disk_usage("/varx", &disks), Some((100, 60)));
}

#[test]
fn the_first_disk_is_the_fallback() {
    let disks = vec![disk("/data", 10, 20), disk("/other", 5, 1)];
    assert_eq!(disk_usage("relative/path", &disks), Some((10, 0)));
    assert_eq!(disk_usage("/x", &Vec::new()), None);
}

#[test]
fn equal_mounts_keep_the_first() {
    let disks = vec![disk("/a", 1, 0), disk("/b", 2, 0), disk("/c", 3, 0)];
    assert_eq!(choose_disk(&disks, &vec![false, true, true]), Some((2, 2)));
    assert_eq!(choose_disk(&disks, &vec![false, false, false]), Some((1, 1)));
}

#[test]
fn health_urls() {
    let mut c = sample();
    assert_eq!(health_url(&c), "http://127.0.0.1:8000/health");
    c.health_path = "ping".to_string();
    assert_eq!(health_url(&c), "http://127.0.0.1:8000/ping");
}

#[test]
fn bandwidth_rates() {
    assert_eq!(transfer_rates(None, 5000, 6000), (0, 0));
    assert_eq!(transfer_rates(Some((1000, 1000)), 1000 + 4096, 1000 + 1023), (4, 0));
    assert_eq!(transfer_rates(Some((5000, 5000)), 100, 100), (0, 0));
}

#[test]
fn slow_probes_every_fifth_tick() {
    let due: Vec<u64> = (1..=12).filter(|n| probe_due(*n)).collect();
    assert_eq!(due, vec![5, 10]);
}
