//! Project documentation: the "Get docs" button renders a Markdown file
//! with the project's real values.

use vstd::prelude::*;
use vstd::string::*;
use crate::config::{
    health_path, health_path_of, port_list, service_name_of, split_ports, stack_build_command,
    stack_exec_start, stack_label, staging_dir_of, ConfigView, ProjectConfig,
};
use crate::templates::{
    backend_dir_of, render, render_view, service_user, service_user_of, var_views, VarView,
};
use crate::text::{chars_of, concat2, concat3, extend_str, join, join_strings, string_of, views};

verus! {

/// DOCUMENTATION.md: how the project is laid out on the server and how to
/// operate it.
pub const DOC_TPL: &'static str = "# {{PROJECT}}: deployment documentation

Written on {{DATE}}.

## Overview

| | |
|---|---|
| Stack | {{STACK}} |
| Branch | `{{BRANCH}}` |
| Backend port | {{PORT}} |
| Domain | {{DOMAIN}} |
| Health check | `GET http://127.0.0.1:{{PORT}}{{HEALTH}}` |
| Service user | {{USER}} |

## Repositories

- Backend: {{BE_REPO}}
- Frontend: {{FE_REPO}}

## Directories

| Purpose | Path |
|---|---|
| Deploy root | `{{TARGET_DIR}}` |
| Staged files | `{{STAGING}}` |
| Database | `{{DB_DIR}}` |
| Uploads | `{{UPLOADS_DIR}}` |
| Backups | `{{BACKUP_DIR}}` |
| Frontend build | `{{DIST}}` |

## Backend service

- systemd unit: `{{SERVICE}}.service`
- ExecStart: `{{EXEC_START}}`
- Build command: `{{BUILD_CMD}}`

    sudo systemctl status {{SERVICE}}
    sudo systemctl restart {{SERVICE}}
    sudo journalctl -u {{SERVICE}} -f

## nginx

- Staged config: `{{STAGING}}/{{DOMAIN_FILE}}`
- Installed as: {{NGINX_INSTALLED}}
- API prefix `{{PREFIX}}` is proxied to port {{PORT}}
- Largest request body: {{MAX_BODY}}

## Firewall (UFW)

Allowed: {{UFW_RULES}}

## Backups

- Script: `{{STAGING}}/backup.sh`
- Archives kept: {{RETENTION}}
- Cron: {{CRON_LINE}}

## Redeploying

    cd {{TARGET_DIR}} && bash ./deploy.sh
";

/// The domain as the documentation shows it.
pub open spec fn domain_display(c: ConfigView) -> Seq<char> {
    if c.domain.len() == 0 {
        "— (nginx/SSL skipped)"@
    } else {
        c.domain
    }
}

/// The name of the staged nginx file as the documentation shows it.
pub open spec fn domain_file(c: ConfigView) -> Seq<char> {
    if c.domain.len() == 0 {
        "nginx-<domain>.conf (skipped)"@
    } else {
        "nginx-"@ + c.domain + ".conf"@
    }
}

/// Where the nginx configuration is installed, as the documentation says.
pub open spec fn nginx_installed(c: ConfigView) -> Seq<char> {
    if c.domain.len() == 0 {
        "— (no domain configured)"@
    } else {
        "`/etc/nginx/sites-available/"@ + c.domain + "` (symlinked into sites-enabled)"@
    }
}

/// A repository address, or `not configured` when blank.
pub open spec fn repo_display(repo: Seq<char>) -> Seq<char> {
    if repo.len() == 0 {
        "not configured"@
    } else {
        repo
    }
}

/// The crontab line of the daily backup, when one is installed.
pub open spec fn cron_display(c: ConfigView) -> Seq<char> {
    if c.backup_enabled && c.backup_cron {
        "`0 3 * * * "@ + staging_dir_of(c) + "/backup.sh >> "@ + c.backup_dir + "/cron.log 2>&1`"@
    } else {
        "not installed"@
    }
}

/// The firewall rules that a deployment opens, in order: web ports,
/// the backend port, then the extra ports.
pub open spec fn ufw_rule_list(c: ConfigView) -> Seq<Seq<char>> {
    let web = if c.ufw_web {
        seq!["80/tcp · 443/tcp"@]
    } else {
        Seq::<Seq<char>>::empty()
    };
    let be = if c.ufw_backend {
        seq![c.backend_port + "/tcp (backend)"@]
    } else {
        Seq::<Seq<char>>::empty()
    };
    web + be + port_list(c.extra_ports)
}

/// The firewall rules as the documentation lists them.
pub open spec fn ufw_display(c: ConfigView) -> Seq<char> {
    if ufw_rule_list(c).len() == 0 {
        "none"@
    } else {
        join(ufw_rule_list(c), " · "@)
    }
}

/// The variables of the documentation.
pub open spec fn doc_vars(c: ConfigView, date: Seq<char>) -> Seq<VarView> {
    seq![
        ("PROJECT"@, c.project_name),
        ("DATE"@, date),
        ("STACK"@, stack_label(c.stack)),
        ("BRANCH"@, c.branch),
        ("PORT"@, c.backend_port),
        ("DOMAIN"@, domain_display(c)),
        ("DOMAIN_FILE"@, domain_file(c)),
        ("NGINX_INSTALLED"@, nginx_installed(c)),
        ("HEALTH"@, health_path_of(c)),
        ("USER"@, service_user_of(c)),
        ("TARGET_DIR"@, c.target_dir),
        ("BE_REPO"@, repo_display(c.backend_repo)),
        ("FE_REPO"@, repo_display(c.frontend_repo)),
        ("SERVICE"@, service_name_of(c)),
        ("STAGING"@, staging_dir_of(c)),
        ("DB_DIR"@, c.db_dir),
        ("UPLOADS_DIR"@, c.uploads_dir),
        ("BACKUP_DIR"@, c.backup_dir),
        ("EXEC_START"@, stack_exec_start(c.stack, backend_dir_of(c), c.entry_point)),
        ("DIST"@, c.frontend_dist),
        ("PREFIX"@, c.api_prefix),
        ("MAX_BODY"@, c.max_body_size),
        ("UFW_RULES"@, ufw_display(c)),
        ("BUILD_CMD"@, stack_build_command(c.stack)),
        ("CRON_LINE"@, cron_display(c)),
        ("RETENTION"@, c.backup_retention),
    ]
}

/// A string's text, or `fallback` when it is empty.
fn or_else(s: &String, fallback: &str) -> (r: String)
    ensures
        r@ == (if s@.len() == 0 {
            fallback@
        } else {
            s@
        }),
{
    if s.as_str().is_empty() {
        String::from_str(fallback)
    } else {
        s.clone()
    }
}

/// The firewall rules of a deployment.
fn ufw_rules(cfg: &ProjectConfig) -> (r: Vec<String>)
    ensures
        views(r@) == ufw_rule_list(cfg@),
{
    let mut v: Vec<String> = Vec::new();
    if cfg.ufw_web {
        v.push(String::from_str("80/tcp · 443/tcp"));
    }
    if cfg.ufw_backend {
        v.push(concat2(cfg.backend_port.as_str(), "/tcp (backend)"));
    }
    let ghost head = v@;
    let extra = split_ports(cfg.extra_ports.as_str());
    let mut i: usize = 0;
    while i < extra.len()
        invariant
            i <= extra.len(),
            views(v@) == views(head) + views(extra@).take(i as int),
        decreases extra.len() - i,
    {
        let ghost before = v@;
        v.push(extra[i].clone());
        assert(views(extra@).take(i + 1) =~= views(extra@).take(i as int).push(extra@[i as int]@));
        assert(views(v@) =~= views(before).push(extra@[i as int]@));
        i += 1;
    }
    assert(views(extra@).take(extra.len() as int) =~= views(extra@));
    assert(views(v@) =~= ufw_rule_list(cfg@));
    v
}

/// Renders the documentation of a project, written on `date`.
pub fn generate(cfg: &ProjectConfig, date: &str) -> (r: String)
    ensures
        r@ == render_view(DOC_TPL@, doc_vars(cfg@, date@)),
{
    let staging = cfg.staging_dir();
    let svc = cfg.service_name();
    let user = service_user(cfg);
    let domain_disp = or_else(&cfg.domain, "— (nginx/SSL skipped)");
    let domain_file_text: String = if cfg.domain.as_str().is_empty() {
        String::from_str("nginx-<domain>.conf (skipped)")
    } else {
        concat3("nginx-", cfg.domain.as_str(), ".conf")
    };
    let installed: String = if cfg.domain.as_str().is_empty() {
        String::from_str("— (no domain configured)")
    } else {
        concat3(
            "`/etc/nginx/sites-available/",
            cfg.domain.as_str(),
            "` (symlinked into sites-enabled)",
        )
    };
    let be_repo = or_else(&cfg.backend_repo, "not configured");
    let fe_repo = or_else(&cfg.frontend_repo, "not configured");
    let cron_line: String = if cfg.backup_enabled && cfg.backup_cron {
        let mut v: Vec<char> = chars_of("`0 3 * * * ");
        extend_str(&mut v, staging.as_str());
        extend_str(&mut v, "/backup.sh >> ");
        extend_str(&mut v, cfg.backup_dir.as_str());
        extend_str(&mut v, "/cron.log 2>&1`");
        string_of(&v)
    } else {
        String::from_str("not installed")
    };
    let rules = ufw_rules(cfg);
    let rules_text: String = if rules.len() == 0 {
        String::from_str("none")
    } else {
        join_strings(&rules, " · ")
    };
    let health = health_path(cfg);
    let be_dir = concat2(cfg.target_dir.as_str(), "/backend");
    let exec = cfg.stack.exec_start(be_dir.as_str(), cfg.entry_point.as_str());
    let vars = vec![
        ("PROJECT", cfg.project_name.as_str()),
        ("DATE", date),
        ("STACK", cfg.stack.label()),
        ("BRANCH", cfg.branch.as_str()),
        ("PORT", cfg.backend_port.as_str()),
        ("DOMAIN", domain_disp.as_str()),
        ("DOMAIN_FILE", domain_file_text.as_str()),
        ("NGINX_INSTALLED", installed.as_str()),
        ("HEALTH", health.as_str()),
        ("USER", user.as_str()),
        ("TARGET_DIR", cfg.target_dir.as_str()),
        ("BE_REPO", be_repo.as_str()),
        ("FE_REPO", fe_repo.as_str()),
        ("SERVICE", svc.as_str()),
        ("STAGING", staging.as_str()),
        ("DB_DIR", cfg.db_dir.as_str()),
        ("UPLOADS_DIR", cfg.uploads_dir.as_str()),
        ("BACKUP_DIR", cfg.backup_dir.as_str()),
        ("EXEC_START", exec.as_str()),
        ("DIST", cfg.frontend_dist.as_str()),
        ("PREFIX", cfg.api_prefix.as_str()),
        ("MAX_BODY", cfg.max_body_size.as_str()),
        ("UFW_RULES", rules_text.as_str()),
        ("BUILD_CMD", cfg.stack.build_command()),
        ("CRON_LINE", cron_line.as_str()),
        ("RETENTION", cfg.backup_retention.as_str()),
    ];
    assert(var_views(vars@) =~= doc_vars(cfg@, date@));
    render(DOC_TPL, vars.as_slice())
}

/// The firewall list of the documentation follows the toggles one by
/// one: the web rule first exactly when web ports are open, then the
/// backend rule exactly when the backend port is open (whatever the web
/// toggle says), then one entry per listed extra port. With the backend
/// port closed, its number makes no difference to the list.
pub proof fn lemma_ufw_rules_follow_toggles(c: ConfigView, other_port: Seq<char>)
    ensures
        ufw_rule_list(c).len() == (if c.ufw_web { 1int } else { 0int }) + (if c.ufw_backend {
            1int
        } else {
            0int
        }) + port_list(c.extra_ports).len(),
        c.ufw_web ==> ufw_rule_list(c)[0] == "80/tcp · 443/tcp"@,
        c.ufw_backend ==> ufw_rule_list(c)[if c.ufw_web { 1int } else { 0int }] == c.backend_port
            + "/tcp (backend)"@,
        !c.ufw_backend ==> ufw_rule_list(c) == ufw_rule_list(ConfigView { backend_port: other_port, ..c }),
        forall|k: int|
            0 <= k < port_list(c.extra_ports).len() ==> ufw_rule_list(c)[(if c.ufw_web { 1int } else {
                0int
            }) + (if c.ufw_backend { 1int } else { 0int }) + k] == #[trigger] port_list(c.extra_ports)[k],
        doc_vars(c, Seq::empty()).contains(("UFW_RULES"@, ufw_display(c))),
{
    assert(doc_vars(c, Seq::empty())[22] == ("UFW_RULES"@, ufw_display(c)));
}

} // verus!
