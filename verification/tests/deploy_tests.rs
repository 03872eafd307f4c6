use vps_deployer::config::ProjectConfig;
use vps_deployer::deploy::{delete_commands, Command};
use vps_deployer::maintenance::{
    backup_step, docs_path, fonts_report, last_line, lines, pull_deploy_command, pull_done, pull_report,
    restart_commands, restart_report, staged_report, BackupStep, FONT_INSTALL,
};
use vps_deployer::rollout::{deploy_step, DeployStep, Outcome};

fn sample() -> ProjectConfig {
    let mut c = ProjectConfig::default();
    c.project_name = "shop".to_string();
    c.target_dir = "/var/www/shop".to_string();
    c.db_dir = "/var/lib/shop/db".to_string();
    c.uploads_dir = "/var/lib/shop/uploads".to_string();
    c.backup_dir = "/var/backups/shop".to_string();
    c.backend_port = "8000".to_string();
    c.extra_ports = "9000, ".to_string();
    c.backend_repo = "https://example.com/shop-api.git".to_string();
    c.domain = "shop.example.com".to_string();
    c
}

fn describe(c: &Command) -> String {
    match c {
        Command::Nothing => "nothing".to_string(),
        Command::Say(s) => format!("say {s}"),
        Command::Exists(s) => format!("exists {s}"),
        Command::Shell(s) => format!("sh {s}"),
        Command::Run { program, args } => format!("run {program} {}", args.join(" ")),
        Command::WriteStaged => "write staged".to_string(),
        Command::Copy { from, to } => format!("copy {from} {to}"),
        Command::RemoveFile(s) => format!("rm {s}"),
        Command::RemoveDir(s) => format!("rmdir {s}"),
        Command::RemoveProjectFile => "rm record".to_string(),
        Command::SaveProject => "save".to_string(),
        Command::Finish(Ok(m)) => format!("ok {m}"),
        Command::Finish(Err(e)) => format!("err {e}"),
    }
}

/// Runs the deployment with `answer` deciding each outcome; returns what
/// was asked for (without the empty steps).
fn run_deploy(cfg: &ProjectConfig, use_staged: bool, answer: &dyn Fn(&Command) -> Outcome) -> Vec<String> {
    let mut step = DeployStep::Start;
    let mut outcome = Outcome::Done;
    let mut seen = Vec::new();
    for _ in 0..500 {
        let (next, cmd) = deploy_step(cfg, use_staged, step, &outcome);
        if !matches!(cmd, Command::Nothing) {
            seen.push(describe(&cmd));
        }
        outcome = answer(&cmd);
        step = next;
        if matches!(cmd, Command::Finish(_)) {
            assert_eq!(step, DeployStep::Done);
            let (after, again) = deploy_step(cfg, use_staged, step, &outcome);
            assert_eq!(after, DeployStep::Done);
            assert!(matches!(again, Command::Nothing));
            return seen;
        }
    }
    panic!("the deployment did not finish");
}

fn all_ok(c: &Command) -> Outcome {
    match c {
        Command::Exists(_) => Outcome::Exists(false),
        Command::Nothing | Command::Say(_) => Outcome::Done,
        _ => Outcome::Output(Ok(String::new())),
    }
}

#[test]
fn a_full_deployment() {
    let seen = run_deploy(&sample(), false, &all_ok);
    let expected = vec![
        "say [INFO] 🚀 deploying 'shop' …",
        "run mkdir -p /var/www/shop",
        "run mkdir -p /var/lib/shop/db",
        "run mkdir -p /var/lib/shop/uploads",
        "run mkdir -p /var/backups/shop",
        "exists /var/www/shop/backend/.git",
        "say [INFO] cloning backend …",
        "run git clone -b production https://example.com/shop-api.git /var/www/shop/backend",
        "say [INFO] building backend (Node.js (JavaScript)) …",
        "sh cd '/var/www/shop/backend' && npm ci --omit=dev || npm install --omit=dev",
        "say [INFO] generating staged files …",
        "write staged",
        "say [INFO] installing systemd unit …",
        "copy /var/www/shop/.vps-deployer/shop-backend.service /etc/systemd/system/shop-backend.service",
        "run systemctl daemon-reload",
        "run systemctl enable --now shop-backend",
        "say [INFO] installing nginx vhost for shop.example.com …",
        "copy /var/www/shop/.vps-deployer/nginx-shop.example.com.conf /etc/nginx/sites-available/shop.example.com",
        "run ln -sf /etc/nginx/sites-available/shop.example.com /etc/nginx/sites-enabled/shop.example.com",
        "run nginx -t",
        "run systemctl reload nginx",
        "say [WARN] no certbot email → skipping SSL",
        "say [INFO] configuring UFW …",
        "run ufw allow 80/tcp",
        "run ufw allow 443/tcp",
        "run ufw allow 8000/tcp",
        "run ufw allow 9000",
        "sh (crontab -l 2>/dev/null | grep -v 'vps-deployer:shop' || true; echo '0 3 * * * /usr/bin/env bash '/var/www/shop/.vps-deployer/backup.sh' >> '/var/backups/shop/cron.log' 2>&1 # vps-deployer:shop') | crontab -",
        "save",
        "ok Deployment finished 🎉",
    ];
    assert_eq!(seen, expected);
}

#[test]
fn an_existing_checkout_is_pulled() {
    let mut c = sample();
    c.frontend_repo = "https://example.com/web.git".to_string();
    let answer = |cmd: &Command| match cmd {
        Command::Exists(_) => Outcome::Exists(true),
        other => all_ok(other),
    };
    let seen = run_deploy(&c, true, &answer);
    assert!(seen.contains(&"say [INFO] backend exists → git pull".to_string()));
    assert!(seen.contains(&"sh cd '/var/www/shop/backend' && git pull --ff-only || true".to_string()));
    assert!(seen.contains(&"say [INFO] frontend exists → git pull".to_string()));
    assert!(seen.contains(&"exists /var/www/shop/.vps-deployer/deploy.sh".to_string()));
    assert!(seen.contains(&"say [INFO] using YOUR staged files (vim edits preserved)".to_string()));
    assert!(!seen.contains(&"write staged".to_string()));
}

#[test]
fn a_failed_clone_falls_back_then_stops() {
    let answer = |cmd: &Command| match cmd {
        Command::Run { program, args } if program == "git" => {
            if args.len() == 5 {
                Outcome::Output(Err("no such branch".to_string()))
            } else {
                Outcome::Output(Err("repository not found".to_string()))
            }
        }
        other => all_ok(other),
    };
    let seen = run_deploy(&sample(), false, &answer);
    let n = seen.len();
    assert_eq!(seen[n - 2], "run git clone https://example.com/shop-api.git /var/www/shop/backend");
    assert_eq!(seen[n - 1], "err backend clone failed: repository not found");
}

#[test]
fn a_fallback_clone_that_works_goes_on() {
    let answer = |cmd: &Command| match cmd {
        Command::Run { program, args } if program == "git" && args.len() == 5 => {
            Outcome::Output(Err("no such branch".to_string()))
        }
        other => all_ok(other),
    };
    let seen = run_deploy(&sample(), false, &answer);
    assert_eq!(seen.last().unwrap(), "ok Deployment finished 🎉");
}

#[test]
fn a_failed_build_stops() {
    let answer = |cmd: &Command| match cmd {
        Command::Shell(s) if s.contains("npm ci") => Outcome::Output(Err("npm exploded".to_string())),
        other => all_ok(other),
    };
    let seen = run_deploy(&sample(), false, &answer);
    assert_eq!(seen.last().unwrap(), "err backend build failed: npm exploded");
}

#[test]
fn staging_errors_stop() {
    let answer = |cmd: &Command| match cmd {
        Command::WriteStaged => Outcome::Output(Err("create /x: denied".to_string())),
        other => all_ok(other),
    };
    let seen = run_deploy(&sample(), false, &answer);
    assert_eq!(seen.last().unwrap(), "err create /x: denied");
}

#[test]
fn installing_the_unit_needs_root() {
    let answer = |cmd: &Command| match cmd {
        Command::Copy { .. } => Outcome::Output(Err("Permission denied (os error 13)".to_string())),
        other => all_ok(other),
    };
    let seen = run_deploy(&sample(), false, &answer);
    assert_eq!(
        seen.last().unwrap(),
        "err install unit: Permission denied (os error 13) (run the TUI with sudo?)"
    );
}

#[test]
fn reload_and_enable_errors_stop() {
    let reload = |cmd: &Command| match cmd {
        Command::Run { args, .. } if args.len() == 1 && args[0] == "daemon-reload" => {
            Outcome::Output(Err("reload failed".to_string()))
        }
        other => all_ok(other),
    };
    assert_eq!(run_deploy(&sample(), false, &reload).last().unwrap(), "err reload failed");
    let enable = |cmd: &Command| match cmd {
        Command::Run { args, .. } if args.len() == 3 && args[0] == "enable" => {
            Outcome::Output(Err("unit not found".to_string()))
        }
        other => all_ok(other),
    };
    assert_eq!(
        run_deploy(&sample(), false, &enable).last().unwrap(),
        "err enable shop-backend: unit not found"
    );
}

#[test]
fn nginx_and_certbot_problems_only_warn() {
    let mut c = sample();
    c.cert_email = "ops@example.com".to_string();
    let answer = |cmd: &Command| match cmd {
        Command::Run { program, .. } if program == "nginx" => Outcome::Output(Err("syntax error".to_string())),
        Command::Run { program, .. } if program == "certbot" => Outcome::Output(Err("rate limited".to_string())),
        other => all_ok(other),
    };
    let seen = run_deploy(&c, false, &answer);
    assert!(seen.contains(&"say [WARN] nginx -t failed: syntax error".to_string()));
    assert!(!seen.contains(&"run systemctl reload nginx".to_string()));
    assert!(seen.contains(&"say [INFO] requesting Let's Encrypt certificate …".to_string()));
    assert!(seen.contains(&"run certbot --nginx -d shop.example.com --non-interactive --agree-tos --redirect -m ops@example.com".to_string()));
    assert!(seen.contains(&"say [WARN] certbot: rate limited".to_string()));
    assert_eq!(seen.last().unwrap(), "ok Deployment finished 🎉");
}

#[test]
fn a_certificate_success_is_reported() {
    let mut c = sample();
    c.cert_email = "ops@example.com".to_string();
    let seen = run_deploy(&c, false, &all_ok);
    assert!(seen.contains(&"say [INFO] ✅ SSL installed".to_string()));
}

#[test]
fn a_site_without_domain_skips_nginx() {
    let mut c = sample();
    c.domain = String::new();
    c.ufw_web = false;
    c.ufw_backend = false;
    c.extra_ports = String::new();
    c.backup_cron = false;
    let seen = run_deploy(&c, false, &all_ok);
    assert!(!seen.iter().any(|s| s.contains("nginx")));
    assert!(!seen.iter().any(|s| s.starts_with("run ufw")));
    assert!(seen.contains(&"sh (crontab -l 2>/dev/null | grep -v 'vps-deployer:shop' || true) | crontab -".to_string()));
}

#[test]
fn a_failed_save_only_warns() {
    let answer = |cmd: &Command| match cmd {
        Command::SaveProject => Outcome::Output(Err("cannot resolve config dir".to_string())),
        other => all_ok(other),
    };
    let seen = run_deploy(&sample(), false, &answer);
    let n = seen.len();
    assert_eq!(seen[n - 2], "say [WARN] could not save project file: cannot resolve config dir");
    assert_eq!(seen[n - 1], "ok Deployment finished 🎉");
}

#[test]
fn deletion_removes_every_trace() {
    let seen: Vec<String> = delete_commands(&sample()).iter().map(describe).collect();
    let expected = vec![
        "say [INFO] 🧹 removing every footprint …",
        "run systemctl stop shop-backend",
        "run systemctl disable shop-backend",
        "rm /etc/systemd/system/shop-backend.service",
        "run systemctl daemon-reload",
        "run systemctl reset-failed",
        "rm /etc/nginx/sites-available/shop.example.com",
        "rm /etc/nginx/sites-enabled/shop.example.com",
        "run certbot delete --cert-name shop.example.com --non-interactive",
        "run nginx -t",
        "run systemctl reload nginx",
        "sh (crontab -l 2>/dev/null | grep -v 'vps-deployer:shop' || true) | crontab -",
        "run ufw delete allow 8000/tcp",
        "run ufw delete allow 9000",
        "rmdir /var/www/shop",
        "rmdir /var/lib/shop/db",
        "rmdir /var/lib/shop/uploads",
        "rmdir /var/backups/shop",
        "rm record",
        "ok Project removed without a trace 🧹",
    ];
    assert_eq!(seen, expected);
}

#[test]
fn deletion_of_a_minimal_project() {
    let mut c = sample();
    c.domain = String::new();
    c.db_dir = String::new();
    c.uploads_dir = String::new();
    c.backup_dir = String::new();
    c.ufw_backend = false;
    c.extra_ports = String::new();
    let seen: Vec<String> = delete_commands(&c).iter().map(describe).collect();
    assert_eq!(seen.len(), 10);
    assert_eq!(seen[7], "rmdir /var/www/shop");
}

fn run_backup(cfg: &ProjectConfig, answer: &dyn Fn(&Command) -> Outcome) -> Vec<String> {
    let mut step = BackupStep::Start;
    let mut outcome = Outcome::Done;
    let mut seen = Vec::new();
    for _ in 0..20 {
        let (next, cmd) = backup_step(cfg, step, &outcome);
        seen.push(describe(&cmd));
        outcome = answer(&cmd);
        step = next;
        if matches!(cmd, Command::Finish(_)) {
            assert_eq!(step, BackupStep::Done);
            return seen;
        }
    }
    panic!("the backup did not finish");
}

#[test]
fn a_backup_needs_a_directory() {
    let mut c = sample();
    c.backup_dir = String::new();
    assert_eq!(run_backup(&c, &all_ok), vec!["err Backup directory not set"]);
}

#[test]
fn a_backup_keeps_an_edited_script() {
    let answer = |cmd: &Command| match cmd {
        Command::Exists(_) => Outcome::Exists(true),
        Command::Shell(_) => Outcome::Output(Ok("==> backing up\nbackup written: /b/shop-1.tar.gz".to_string())),
        other => all_ok(other),
    };
    let seen = run_backup(&sample(), &answer);
    assert_eq!(
        seen,
        vec![
            "run mkdir -p /var/backups/shop",
            "exists /var/www/shop/.vps-deployer/backup.sh",
            "sh bash '/var/www/shop/.vps-deployer/backup.sh'",
            "ok Backup OK — backup written: /b/shop-1.tar.gz",
        ]
    );
}

#[test]
fn a_backup_stages_a_missing_script() {
    let seen = run_backup(&sample(), &all_ok);
    assert_eq!(seen[2], "write staged");
    assert_eq!(seen[3], "sh bash '/var/www/shop/.vps-deployer/backup.sh'");
    assert_eq!(seen[4], "ok Backup OK — done");
    let fail = |cmd: &Command| match cmd {
        Command::WriteStaged => Outcome::Output(Err("disk full".to_string())),
        other => all_ok(other),
    };
    assert_eq!(run_backup(&sample(), &fail).last().unwrap(), "err disk full");
    let broken = |cmd: &Command| match cmd {
        Command::Shell(_) => Outcome::Output(Err("tar: error".to_string())),
        other => all_ok(other),
    };
    assert_eq!(run_backup(&sample(), &broken).last().unwrap(), "err backup failed: tar: error");
}

#[test]
fn lines_like_str_lines() {
    let samples = [
        "", "\n", "a", "a\n", "a\nb", "a\r\nb\r\n", "a\n\nb", "x\r", "\r\n", "a\rb\n", "\n\n", "é\nü\r\n\r",
    ];
    for s in samples {
        let expected: Vec<String> = s.lines().map(|l| l.to_string()).collect();
        assert_eq!(lines(s), expected, "{s:?}");
    }
}

#[test]
fn the_last_line_or_done() {
    assert_eq!(last_line(""), "done");
    assert_eq!(last_line("one\ntwo"), "two");
    assert_eq!(last_line("one\ntwo\n"), "two");
    assert_eq!(last_line("one\n\n"), "");
}

#[test]
fn the_deploy_script_report() {
    let cfg = sample();
    assert_eq!(pull_deploy_command(&cfg), "cd '/var/www/shop' && bash ./deploy.sh 2>&1");
    let out: String = (1..=20).map(|i| format!("line {i}")).collect::<Vec<_>>().join("\n");
    let report = pull_report(&out);
    let expected: Vec<String> = out.lines().rev().take(15).map(|l| format!("[INFO] {l}")).collect();
    assert_eq!(report, expected);
    assert_eq!(report[0], "[INFO] line 20");
    assert_eq!(report.len(), 15);
    assert_eq!(pull_report("only"), vec!["[INFO] only"]);
    assert!(pull_report("").is_empty());
    assert_eq!(pull_done(&Ok("x".to_string())), Ok("Pull & deploy finished".to_string()));
    assert_eq!(pull_done(&Err("e".to_string())), Err("e".to_string()));
}

#[test]
fn restarting() {
    let cmds: Vec<String> = restart_commands(&sample()).iter().map(describe).collect();
    assert_eq!(cmds, vec!["run systemctl restart shop-backend", "run systemctl reload nginx"]);
    let ok = Ok(String::new());
    assert_eq!(restart_report(&ok, &ok), Ok("Services restarted ↻".to_string()));
    assert_eq!(
        restart_report(&Err("a".to_string()), &ok),
        Err("restart failed: a | ok".to_string())
    );
    assert_eq!(
        restart_report(&ok, &Err("b".to_string())),
        Err("restart failed: ok | b".to_string())
    );
}

#[test]
fn small_reports() {
    assert!(FONT_INSTALL.starts_with("apt-get install -y locales fonts-noto fonts-noto-color-emoji"));
    assert_eq!(
        fonts_report(&Ok("installed".to_string())),
        Ok("Packages installed — reopen the TUI in a UTF-8 terminal (LANG=en_US.UTF-8)".to_string())
    );
    assert_eq!(fonts_report(&Err("e".to_string())), Err("e".to_string()));
    let cfg = sample();
    assert_eq!(
        staged_report(&cfg, &Ok(())),
        Ok("files staged at /var/www/shop/.vps-deployer — review with vim".to_string())
    );
    assert_eq!(staged_report(&cfg, &Err("no".to_string())), Err("no".to_string()));
    assert_eq!(docs_path(&cfg), "/var/www/shop/.vps-deployer/DOCUMENTATION.md");
}
