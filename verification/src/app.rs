//! Application state: tabs, form fields, projects, logs and notifications.

use vstd::prelude::*;
use vstd::string::*;
use crate::config::{stack_default_entry, BackendStack, ConfigView, ProjectConfig};
use crate::text::{
    concat2, concat3, is_trimmed, lemma_trim_idempotent, lemma_trim_trimmed, lemma_trimmed_trim, trim,
    trim_str,
};
use crate::theme::{is_unicode_set, unicode_icons, Icons};

verus! {

/// Number of bandwidth samples kept for the sparklines.
pub const HISTORY: usize = 60;

/// Most log lines kept.
pub const MAX_LOGS: usize = 1000;

/// Most notifications kept.
pub const MAX_NOTIFICATIONS: usize = 6;

// ───────────────────────── tabs ─────────────────────────

/// The tabs of the left half.
#[derive(Debug, Clone, Copy, PartialEq, Eq, Structural)]
pub enum LeftTab {
    Repos,
    Dirs,
    Ports,
    Nginx,
    Backup,
    Projects,
    Review,
}

/// Position of a tab in the tab bar.
pub open spec fn tab_index(t: LeftTab) -> nat {
    match t {
        LeftTab::Repos => 0,
        LeftTab::Dirs => 1,
        LeftTab::Ports => 2,
        LeftTab::Nginx => 3,
        LeftTab::Backup => 4,
        LeftTab::Projects => 5,
        LeftTab::Review => 6,
    }
}

/// The tab at position `i` of the tab bar (`i < 7`).
pub open spec fn tab_at(i: nat) -> LeftTab {
    if i == 0 {
        LeftTab::Repos
    } else if i == 1 {
        LeftTab::Dirs
    } else if i == 2 {
        LeftTab::Ports
    } else if i == 3 {
        LeftTab::Nginx
    } else if i == 4 {
        LeftTab::Backup
    } else if i == 5 {
        LeftTab::Projects
    } else {
        LeftTab::Review
    }
}

/// The title of a tab in the tab bar.
pub open spec fn tab_title(t: LeftTab) -> Seq<char> {
    match t {
        LeftTab::Repos => "1·Repos"@,
        LeftTab::Dirs => "2·Dirs"@,
        LeftTab::Ports => "3·Ports"@,
        LeftTab::Nginx => "4·Nginx"@,
        LeftTab::Backup => "5·Backup"@,
        LeftTab::Projects => "6·Projects"@,
        LeftTab::Review => "7·Review"@,
    }
}

impl LeftTab {
    /// The position of the tab in the tab bar.
    pub fn idx(self) -> (i: usize)
        ensures
            i == tab_index(self),
            i < 7,
    {
        match self {
            LeftTab::Repos => 0,
            LeftTab::Dirs => 1,
            LeftTab::Ports => 2,
            LeftTab::Nginx => 3,
            LeftTab::Backup => 4,
            LeftTab::Projects => 5,
            LeftTab::Review => 6,
        }
    }

    /// The tab at position `i` of the tab bar.
    pub fn at(i: usize) -> (t: LeftTab)
        requires
            i < 7,
        ensures
            t == tab_at(i as nat),
            tab_index(t) == i,
    {
        if i == 0 {
            LeftTab::Repos
        } else if i == 1 {
            LeftTab::Dirs
        } else if i == 2 {
            LeftTab::Ports
        } else if i == 3 {
            LeftTab::Nginx
        } else if i == 4 {
            LeftTab::Backup
        } else if i == 5 {
            LeftTab::Projects
        } else {
            LeftTab::Review
        }
    }

    /// The title of the tab.
    pub fn title(self) -> (r: &'static str)
        ensures
            r@ == tab_title(self),
    {
        match self {
            LeftTab::Repos => "1·Repos",
            LeftTab::Dirs => "2·Dirs",
            LeftTab::Ports => "3·Ports",
            LeftTab::Nginx => "4·Nginx",
            LeftTab::Backup => "5·Backup",
            LeftTab::Projects => "6·Projects",
            LeftTab::Review => "7·Review",
        }
    }

    /// The tab to the right (Review wraps to Repos).
    pub fn next(self) -> (r: LeftTab)
        ensures
            r == tab_at((tab_index(self) + 1) % 7),
    {
        LeftTab::at((self.idx() + 1) % 7)
    }

    /// The tab to the left (Repos wraps to Review).
    pub fn prev(self) -> (r: LeftTab)
        ensures
            r == tab_at((tab_index(self) + 6) % 7),
    {
        LeftTab::at((self.idx() + 6) % 7)
    }
}

/// Moving one tab right then one tab left (or the other way round)
/// returns to the tab one started from.
pub proof fn lemma_tab_prev_next(t: LeftTab)
    ensures
        tab_at((tab_index(tab_at((tab_index(t) + 1) % 7)) + 6) % 7) == t,
        tab_at((tab_index(tab_at((tab_index(t) + 6) % 7)) + 1) % 7) == t,
{
}

// ───────────────────────── form fields ─────────────────────────

/// One field of a form tab. The text of a `Text` field is edited in the
/// terminal; `value` holds what it currently contains.
pub enum FormField {
    Text { label: &'static str, placeholder: &'static str, value: String },
    Toggle { label: &'static str, hint: &'static str, value: bool },
    Stack { label: &'static str, value: BackendStack },
}

/// A form tab: its fields and which one has the focus.
pub struct FormTab {
    pub fields: Vec<FormField>,
    pub focus: usize,
}

/// Number of fields of each tab.
pub open spec fn layout_len(t: int) -> nat {
    if t == 0 {
        7
    } else if t == 1 {
        4
    } else if t == 2 {
        5
    } else if t == 3 {
        6
    } else if t == 4 {
        5
    } else {
        0
    }
}

/// Kind (0 text, 1 toggle, 2 stack), label and placeholder or hint of
/// field `i` of tab `t`.
pub open spec fn field_desc(t: int, i: int) -> (nat, Seq<char>, Seq<char>) {
    if t == 0 {
        if i == 0 {
            (0, "Project Name *"@, "my-awesome-app"@)
        } else if i == 1 {
            (2, "Backend Stack * (◀ ▶ to change)"@, Seq::empty())
        } else if i == 2 {
            (0, "Backend Entry Point"@, "blank = stack default (e.g. server.js)"@)
        } else if i == 3 {
            (0, "Backend Repo URL (optional)"@, "https://github.com/org/backend.git"@)
        } else if i == 4 {
            (0, "Frontend Repo URL (optional)"@, "https://github.com/org/frontend.git"@)
        } else if i == 5 {
            (0, "Production Branch"@, "production"@)
        } else {
            (0, "Systemd Service User"@, "blank = root"@)
        }
    } else if t == 1 {
        if i == 0 {
            (0, "Deploy Directory *"@, "/var/www/myapp"@)
        } else if i == 1 {
            (0, "Database Directory"@, "/var/lib/myapp/db"@)
        } else if i == 2 {
            (0, "Uploads Directory"@, "/var/lib/myapp/uploads"@)
        } else {
            (0, "Backup Directory"@, "blank = <deploy>/backups"@)
        }
    } else if t == 2 {
        if i == 0 {
            (0, "Backend Port *"@, "8000"@)
        } else if i == 1 {
            (0, "Extra UFW Ports (comma separated)"@, "8080, 9000/tcp"@)
        } else if i == 2 {
            (0, "API Health Path"@, "/health"@)
        } else if i == 3 {
            (1, "Allow backend port in UFW"@, "opens <port>/tcp in the firewall"@)
        } else {
            (1, "Open HTTP/HTTPS (80, 443)"@, "required for nginx + certbot"@)
        }
    } else if t == 3 {
        if i == 0 {
            (0, "Domain"@, "example.com (blank = skip nginx/SSL)"@)
        } else if i == 1 {
            (0, "Certbot Email"@, "admin@example.com"@)
        } else if i == 2 {
            (0, "API Proxy Prefix"@, "/api/"@)
        } else if i == 3 {
            (0, "Frontend Dist Directory"@, "blank = <deploy>/frontend/dist"@)
        } else if i == 4 {
            (0, "Client Max Body Size"@, "25m"@)
        } else {
            (1, "WebSocket proxy support"@, "adds Upgrade/Connection headers"@)
        }
    } else {
        if i == 0 {
            (1, "Enable backups"@, "tar.gz snapshots of db + uploads"@)
        } else if i == 1 {
            (0, "Backups to Keep (retention)"@, "10"@)
        } else if i == 2 {
            (1, "Include Database directory"@, ""@)
        } else if i == 3 {
            (1, "Include Uploads directory"@, ""@)
        } else {
            (1, "Install daily cron job (03:00)"@, "runs backup.sh automatically"@)
        }
    }
}

/// Whether field `f` has the kind, label and placeholder or hint that
/// field `i` of tab `t` has.
pub open spec fn field_shape(f: FormField, t: int, i: int) -> bool {
    let d = field_desc(t, i);
    match f {
        FormField::Text { label, placeholder, .. } => d.0 == 0 && label@ == d.1 && placeholder@
            == d.2,
        FormField::Toggle { label, hint, .. } => d.0 == 1 && label@ == d.1 && hint@ == d.2,
        FormField::Stack { label, .. } => d.0 == 2 && label@ == d.1,
    }
}

/// Whether the tabs have the fields of the deployer's forms, and each form
/// tab has the focus on one of its fields.
pub open spec fn tabs_shaped(tabs: Seq<FormTab>) -> bool {
    &&& tabs.len() == 7
    &&& forall|t: int| 0 <= t < 7 ==> #[trigger] tabs[t].fields@.len() == layout_len(t)
    &&& forall|t: int, i: int|
        0 <= t < 7 && 0 <= i < layout_len(t) ==> field_shape(#[trigger] tabs[t].fields@[i], t, i)
    &&& forall|t: int| 0 <= t < 5 ==> #[trigger] tabs[t].focus < tabs[t].fields@.len()
}

/// The text of field `i` of tab `t`; empty when that field is not a text field.
pub open spec fn text_at(tabs: Seq<FormTab>, t: int, i: int) -> Seq<char> {
    if 0 <= t < tabs.len() && 0 <= i < tabs[t].fields@.len() {
        match tabs[t].fields@[i] {
            FormField::Text { value, .. } => value@,
            _ => Seq::empty(),
        }
    } else {
        Seq::empty()
    }
}

/// Whether field `i` of tab `t` is a toggle that is on.
pub open spec fn toggle_at(tabs: Seq<FormTab>, t: int, i: int) -> bool {
    if 0 <= t < tabs.len() && 0 <= i < tabs[t].fields@.len() {
        match tabs[t].fields@[i] {
            FormField::Toggle { value, .. } => value,
            _ => false,
        }
    } else {
        false
    }
}

/// The stack chosen in the first tab (Node.js when the field is missing).
pub open spec fn form_stack(tabs: Seq<FormTab>) -> BackendStack {
    if 0 < tabs.len() && 1 < tabs[0].fields@.len() {
        match tabs[0].fields@[1] {
            FormField::Stack { value, .. } => value,
            _ => BackendStack::NodeJs,
        }
    } else {
        BackendStack::NodeJs
    }
}

/// Whether every form field holds its starting value: empty texts,
/// toggles on, Node.js, and the focus on each tab's first field.
pub open spec fn tabs_fresh(tabs: Seq<FormTab>) -> bool {
    &&& tabs_shaped(tabs)
    &&& forall|t: int| 0 <= t < 7 ==> #[trigger] tabs[t].focus == 0
    &&& forall|t: int, i: int|
        0 <= t < 7 && 0 <= i < layout_len(t) ==> match #[trigger] tabs[t].fields@[i] {
            FormField::Text { value, .. } => value@.len() == 0,
            FormField::Toggle { value, .. } => value,
            FormField::Stack { value, .. } => value == BackendStack::NodeJs,
        }
}

fn text(label: &'static str, placeholder: &'static str) -> (f: FormField)
    ensures
        f matches FormField::Text { label: l, placeholder: p, value } && l == label && p
            == placeholder && value@.len() == 0,
{
    FormField::Text { label, placeholder, value: String::new() }
}

fn toggle(label: &'static str, hint: &'static str, value: bool) -> (f: FormField)
    ensures
        f == (FormField::Toggle { label, hint, value }),
{
    FormField::Toggle { label, hint, value }
}

/// The forms of a new project.
pub fn fresh_tabs() -> (tabs: Vec<FormTab>)
    ensures
        tabs_fresh(tabs@),
{
    let t0 = FormTab {
        focus: 0,
        fields: vec![
            text("Project Name *", "my-awesome-app"),
            FormField::Stack {
                label: "Backend Stack * (◀ ▶ to change)",
                value: BackendStack::NodeJs,
            },
            text("Backend Entry Point", "blank = stack default (e.g. server.js)"),
            text("Backend Repo URL (optional)", "https://github.com/org/backend.git"),
            text("Frontend Repo URL (optional)", "https://github.com/org/frontend.git"),
            text("Production Branch", "production"),
            text("Systemd Service User", "blank = root"),
        ],
    };
    let t1 = FormTab {
        focus: 0,
        fields: vec![
            text("Deploy Directory *", "/var/www/myapp"),
            text("Database Directory", "/var/lib/myapp/db"),
            text("Uploads Directory", "/var/lib/myapp/uploads"),
            text("Backup Directory", "blank = <deploy>/backups"),
        ],
    };
    let t2 = FormTab {
        focus: 0,
        fields: vec![
            text("Backend Port *", "8000"),
            text("Extra UFW Ports (comma separated)", "8080, 9000/tcp"),
            text("API Health Path", "/health"),
            toggle("Allow backend port in UFW", "opens <port>/tcp in the firewall", true),
            toggle("Open HTTP/HTTPS (80, 443)", "required for nginx + certbot", true),
        ],
    };
    let t3 = FormTab {
        focus: 0,
        fields: vec![
            text("Domain", "example.com (blank = skip nginx/SSL)"),
            text("Certbot Email", "admin@example.com"),
            text("API Proxy Prefix", "/api/"),
            text("Frontend Dist Directory", "blank = <deploy>/frontend/dist"),
            text("Client Max Body Size", "25m"),
            toggle("WebSocket proxy support", "adds Upgrade/Connection headers", true),
        ],
    };
    let t4 = FormTab {
        focus: 0,
        fields: vec![
            toggle("Enable backups", "tar.gz snapshots of db + uploads", true),
            text("Backups to Keep (retention)", "10"),
            toggle("Include Database directory", "", true),
            toggle("Include Uploads directory", "", true),
            toggle("Install daily cron job (03:00)", "runs backup.sh automatically", true),
        ],
    };
    let t5 = FormTab { focus: 0, fields: Vec::new() };
    let t6 = FormTab { focus: 0, fields: Vec::new() };
    let tabs = vec![t0, t1, t2, t3, t4, t5, t6];
    assert(tabs_fresh(tabs@));
    tabs
}

// ───────────────────────── form ↔ project record ─────────────────────────

/// A text that falls back to `d` when blank.
pub open spec fn default_if_empty(s: Seq<char>, d: Seq<char>) -> Seq<char> {
    if s.len() == 0 {
        d
    } else {
        s
    }
}

/// The project record that the forms describe: the trimmed texts, the
/// toggles and the stack, with defaults for the blank fields that have one.
pub open spec fn collected(tabs: Seq<FormTab>) -> ConfigView {
    let stack = form_stack(tabs);
    let target = trim(text_at(tabs, 1, 0));
    let backup = trim(text_at(tabs, 1, 3));
    let dist = trim(text_at(tabs, 3, 3));
    ConfigView {
        project_name: trim(text_at(tabs, 0, 0)),
        stack: stack,
        entry_point: default_if_empty(trim(text_at(tabs, 0, 2)), stack_default_entry(stack)),
        backend_repo: trim(text_at(tabs, 0, 3)),
        frontend_repo: trim(text_at(tabs, 0, 4)),
        branch: default_if_empty(trim(text_at(tabs, 0, 5)), "production"@),
        service_user: trim(text_at(tabs, 0, 6)),
        target_dir: target,
        db_dir: trim(text_at(tabs, 1, 1)),
        uploads_dir: trim(text_at(tabs, 1, 2)),
        backup_dir: if backup.len() == 0 && target.len() > 0 {
            target + "/backups"@
        } else {
            backup
        },
        backend_port: trim(text_at(tabs, 2, 0)),
        extra_ports: trim(text_at(tabs, 2, 1)),
        health_path: default_if_empty(trim(text_at(tabs, 2, 2)), "/health"@),
        ufw_backend: toggle_at(tabs, 2, 3),
        ufw_web: toggle_at(tabs, 2, 4),
        domain: trim(text_at(tabs, 3, 0)),
        cert_email: trim(text_at(tabs, 3, 1)),
        api_prefix: default_if_empty(trim(text_at(tabs, 3, 2)), "/api/"@),
        frontend_dist: if dist.len() == 0 && target.len() > 0 {
            target + "/frontend/dist"@
        } else {
            dist
        },
        max_body_size: default_if_empty(trim(text_at(tabs, 3, 4)), "25m"@),
        websocket: toggle_at(tabs, 3, 5),
        backup_enabled: toggle_at(tabs, 4, 0),
        backup_retention: default_if_empty(trim(text_at(tabs, 4, 1)), "10"@),
        backup_db: toggle_at(tabs, 4, 2),
        backup_uploads: toggle_at(tabs, 4, 3),
        backup_cron: toggle_at(tabs, 4, 4),
    }
}

/// The text of the project record that text field `i` of tab `t` shows.
pub open spec fn text_source(c: ConfigView, t: int, i: int) -> Seq<char> {
    if t == 0 {
        if i == 0 {
            c.project_name
        } else if i == 2 {
            c.entry_point
        } else if i == 3 {
            c.backend_repo
        } else if i == 4 {
            c.frontend_repo
        } else if i == 5 {
            c.branch
        } else {
            c.service_user
        }
    } else if t == 1 {
        if i == 0 {
            c.target_dir
        } else if i == 1 {
            c.db_dir
        } else if i == 2 {
            c.uploads_dir
        } else {
            c.backup_dir
        }
    } else if t == 2 {
        if i == 0 {
            c.backend_port
        } else if i == 1 {
            c.extra_ports
        } else {
            c.health_path
        }
    } else if t == 3 {
        if i == 0 {
            c.domain
        } else if i == 1 {
            c.cert_email
        } else if i == 2 {
            c.api_prefix
        } else if i == 3 {
            c.frontend_dist
        } else {
            c.max_body_size
        }
    } else {
        c.backup_retention
    }
}

/// The switch of the project record that toggle `i` of tab `t` shows.
pub open spec fn toggle_source(c: ConfigView, t: int, i: int) -> bool {
    if t == 2 {
        if i == 3 {
            c.ufw_backend
        } else {
            c.ufw_web
        }
    } else if t == 3 {
        c.websocket
    } else {
        if i == 0 {
            c.backup_enabled
        } else if i == 2 {
            c.backup_db
        } else if i == 3 {
            c.backup_uploads
        } else {
            c.backup_cron
        }
    }
}

/// Field `n` is field `o` after `prefill` with the record `c`: texts get
/// the record's text appended, toggles and the stack take the record's value.
pub open spec fn field_prefilled(o: FormField, n: FormField, c: ConfigView, t: int, i: int) -> bool {
    match (o, n) {
        (
            FormField::Text { label: l1, placeholder: p1, value: v1 },
            FormField::Text { label: l2, placeholder: p2, value: v2 },
        ) => l1 == l2 && p1 == p2 && v2@ == v1@ + text_source(c, t, i),
        (
            FormField::Toggle { label: l1, hint: h1, .. },
            FormField::Toggle { label: l2, hint: h2, value: v2 },
        ) => l1 == l2 && h1 == h2 && v2 == toggle_source(c, t, i),
        (FormField::Stack { label: l1, .. }, FormField::Stack { label: l2, value: v2 }) => l1 == l2
            && v2 == c.stack,
        _ => false,
    }
}

/// The tabs `new` are the tabs `old` after `prefill` with the record `c`.
pub open spec fn tabs_prefilled(old: Seq<FormTab>, new: Seq<FormTab>, c: ConfigView) -> bool {
    &&& new.len() == old.len()
    &&& forall|t: int|
        0 <= t < old.len() ==> #[trigger] new[t].focus == old[t].focus && new[t].fields@.len()
            == old[t].fields@.len()
    &&& forall|t: int, i: int|
        0 <= t < old.len() && 0 <= i < old[t].fields@.len() ==> field_prefilled(
            old[t].fields@[i],
            #[trigger] new[t].fields@[i],
            c,
            t,
            i,
        )
}

/// The forms show exactly the record `c`, with the focus on each tab's
/// first field.
pub open spec fn form_holds(tabs: Seq<FormTab>, c: ConfigView) -> bool {
    &&& tabs_shaped(tabs)
    &&& forall|t: int| 0 <= t < 7 ==> #[trigger] tabs[t].focus == 0
    &&& forall|t: int, i: int|
        0 <= t < 7 && 0 <= i < layout_len(t) ==> match #[trigger] tabs[t].fields@[i] {
            FormField::Text { value, .. } => value@ == text_source(c, t, i),
            FormField::Toggle { value, .. } => value == toggle_source(c, t, i),
            FormField::Stack { value, .. } => value == c.stack,
        }
}

/// A default with no white space at either end.
proof fn lemma_default_normal(s: Seq<char>, d: Seq<char>)
    requires
        is_trimmed(d),
        d.len() > 0,
    ensures
        trim(default_if_empty(trim(s), d)) == default_if_empty(trim(s), d),
        default_if_empty(trim(s), d).len() > 0,
{
    lemma_trim_idempotent(s);
    lemma_trimmed_trim(d);
}

/// A directory under a trimmed, non-empty one has no white space at
/// either end.
proof fn lemma_under_normal(t: Seq<char>, sub: Seq<char>)
    requires
        is_trimmed(t),
        t.len() > 0,
        is_trimmed(sub),
        sub.len() > 0,
    ensures
        trim(t + sub) == t + sub,
{
    assert((t + sub)[0] == t[0]);
    assert((t + sub).last() == sub.last());
    lemma_trimmed_trim(t + sub);
}

/// A directory field with a derived default: trimmed, and set as soon as
/// the deploy directory is.
proof fn lemma_derived_normal(field: Seq<char>, target: Seq<char>, sub: Seq<char>)
    requires
        target == trim(target),
        is_trimmed(sub),
        sub.len() > 0,
    ensures
        ({
            let f = trim(field);
            let v = if f.len() == 0 && target.len() > 0 {
                target + sub
            } else {
                f
            };
            trim(v) == v && (v.len() > 0 || target.len() == 0)
        }),
{
    lemma_trim_idempotent(field);
    lemma_trim_trimmed(target);
    if trim(field).len() == 0 && target.len() > 0 {
        lemma_under_normal(target, sub);
    }
}

/// Whatever the forms hold, the record they describe is normal: its
/// texts are trimmed and its defaults are filled in.
pub proof fn lemma_collected_normal(tabs: Seq<FormTab>)
    ensures
        config_normal(collected(tabs)),
{
    let c = collected(tabs);
    reveal_strlit("production");
    reveal_strlit("/health");
    reveal_strlit("/api/");
    reveal_strlit("25m");
    reveal_strlit("10");
    reveal_strlit("/backups");
    reveal_strlit("/frontend/dist");
    reveal_strlit("server.js");
    reveal_strlit("main.js");
    reveal_strlit("app");
    reveal_strlit("main.py");
    let st = form_stack(tabs);
    assert(is_trimmed(stack_default_entry(st)) && stack_default_entry(st).len() > 0);
    lemma_default_normal(text_at(tabs, 0, 2), stack_default_entry(st));
    lemma_default_normal(text_at(tabs, 0, 5), "production"@);
    lemma_default_normal(text_at(tabs, 2, 2), "/health"@);
    lemma_default_normal(text_at(tabs, 3, 2), "/api/"@);
    lemma_default_normal(text_at(tabs, 3, 4), "25m"@);
    lemma_default_normal(text_at(tabs, 4, 1), "10"@);
    lemma_trim_idempotent(text_at(tabs, 0, 0));
    lemma_trim_idempotent(text_at(tabs, 0, 3));
    lemma_trim_idempotent(text_at(tabs, 0, 4));
    lemma_trim_idempotent(text_at(tabs, 0, 6));
    lemma_trim_idempotent(text_at(tabs, 1, 0));
    lemma_trim_idempotent(text_at(tabs, 1, 1));
    lemma_trim_idempotent(text_at(tabs, 1, 2));
    lemma_trim_idempotent(text_at(tabs, 2, 0));
    lemma_trim_idempotent(text_at(tabs, 2, 1));
    lemma_trim_idempotent(text_at(tabs, 3, 0));
    lemma_trim_idempotent(text_at(tabs, 3, 1));
    lemma_derived_normal(text_at(tabs, 1, 3), c.target_dir, "/backups"@);
    lemma_derived_normal(text_at(tabs, 3, 3), c.target_dir, "/frontend/dist"@);
}

/// What the forms describe survives a reload: loading the record that the
/// forms describe into fresh forms describes the same record again.
pub proof fn lemma_reload_keeps_record(tabs: Seq<FormTab>, fresh: Seq<FormTab>, reloaded: Seq<FormTab>)
    requires
        tabs_fresh(fresh),
        tabs_prefilled(fresh, reloaded, collected(tabs)),
    ensures
        collected(reloaded) == collected(tabs),
{
    lemma_prefill_fresh(fresh, reloaded, collected(tabs));
    lemma_collected_normal(tabs);
    lemma_collect_form(reloaded, collected(tabs));
}

/// Whether the record is one that the forms give back as it is: its texts
/// have no surrounding white space, and every field with a default is set
/// (the backup and frontend directories as soon as the deploy directory is).
pub open spec fn config_normal(c: ConfigView) -> bool {
    &&& trim(c.project_name) == c.project_name
    &&& trim(c.entry_point) == c.entry_point
    &&& trim(c.backend_repo) == c.backend_repo
    &&& trim(c.frontend_repo) == c.frontend_repo
    &&& trim(c.branch) == c.branch
    &&& trim(c.service_user) == c.service_user
    &&& trim(c.target_dir) == c.target_dir
    &&& trim(c.db_dir) == c.db_dir
    &&& trim(c.uploads_dir) == c.uploads_dir
    &&& trim(c.backup_dir) == c.backup_dir
    &&& trim(c.backend_port) == c.backend_port
    &&& trim(c.extra_ports) == c.extra_ports
    &&& trim(c.health_path) == c.health_path
    &&& trim(c.domain) == c.domain
    &&& trim(c.cert_email) == c.cert_email
    &&& trim(c.api_prefix) == c.api_prefix
    &&& trim(c.frontend_dist) == c.frontend_dist
    &&& trim(c.max_body_size) == c.max_body_size
    &&& trim(c.backup_retention) == c.backup_retention
    &&& c.entry_point.len() > 0
    &&& c.branch.len() > 0
    &&& c.health_path.len() > 0
    &&& c.api_prefix.len() > 0
    &&& c.max_body_size.len() > 0
    &&& c.backup_retention.len() > 0
    &&& (c.backup_dir.len() > 0 || c.target_dir.len() == 0)
    &&& (c.frontend_dist.len() > 0 || c.target_dir.len() == 0)
}

/// Prefilling keeps the shape of the forms.
pub proof fn lemma_prefill_shape(old: Seq<FormTab>, new: Seq<FormTab>, c: ConfigView)
    requires
        tabs_shaped(old),
        tabs_prefilled(old, new, c),
    ensures
        tabs_shaped(new),
{
    assert forall|t: int| 0 <= t < 7 implies #[trigger] new[t].fields@.len() == layout_len(t) by {
        assert(old[t].fields@.len() == layout_len(t));
        assert(new[t].focus == old[t].focus);
    }
    assert forall|t: int, i: int| 0 <= t < 7 && 0 <= i < layout_len(t) implies field_shape(
        #[trigger] new[t].fields@[i],
        t,
        i,
    ) by {
        assert(field_shape(old[t].fields@[i], t, i));
        assert(field_prefilled(old[t].fields@[i], new[t].fields@[i], c, t, i));
    }
    assert forall|t: int| 0 <= t < 5 implies #[trigger] new[t].focus < new[t].fields@.len() by {
        assert(old[t].focus < old[t].fields@.len());
        assert(old[t].fields@.len() == layout_len(t));
    }
}

/// The text of the project record that text field `i` of tab `t` shows.
fn source_text<'a>(cfg: &'a ProjectConfig, t: usize, i: usize) -> (r: &'a str)
    ensures
        r@ == text_source(cfg@, t as int, i as int),
{
    if t == 0 {
        if i == 0 {
            cfg.project_name.as_str()
        } else if i == 2 {
            cfg.entry_point.as_str()
        } else if i == 3 {
            cfg.backend_repo.as_str()
        } else if i == 4 {
            cfg.frontend_repo.as_str()
        } else if i == 5 {
            cfg.branch.as_str()
        } else {
            cfg.service_user.as_str()
        }
    } else if t == 1 {
        if i == 0 {
            cfg.target_dir.as_str()
        } else if i == 1 {
            cfg.db_dir.as_str()
        } else if i == 2 {
            cfg.uploads_dir.as_str()
        } else {
            cfg.backup_dir.as_str()
        }
    } else if t == 2 {
        if i == 0 {
            cfg.backend_port.as_str()
        } else if i == 1 {
            cfg.extra_ports.as_str()
        } else {
            cfg.health_path.as_str()
        }
    } else if t == 3 {
        if i == 0 {
            cfg.domain.as_str()
        } else if i == 1 {
            cfg.cert_email.as_str()
        } else if i == 2 {
            cfg.api_prefix.as_str()
        } else if i == 3 {
            cfg.frontend_dist.as_str()
        } else {
            cfg.max_body_size.as_str()
        }
    } else {
        cfg.backup_retention.as_str()
    }
}

/// The switch of the project record that toggle `i` of tab `t` shows.
fn source_toggle(cfg: &ProjectConfig, t: usize, i: usize) -> (r: bool)
    ensures
        r == toggle_source(cfg@, t as int, i as int),
{
    if t == 2 {
        if i == 3 {
            cfg.ufw_backend
        } else {
            cfg.ufw_web
        }
    } else if t == 3 {
        cfg.websocket
    } else {
        if i == 0 {
            cfg.backup_enabled
        } else if i == 2 {
            cfg.backup_db
        } else if i == 3 {
            cfg.backup_uploads
        } else {
            cfg.backup_cron
        }
    }
}

/// Fills one field with what the record `cfg` holds for it.
fn prefill_field(f: &mut FormField, cfg: &ProjectConfig, t: usize, i: usize)
    ensures
        field_prefilled(*old(f), *final(f), cfg@, t as int, i as int),
{
    match f {
        FormField::Text { value, .. } => {
            value.append(source_text(cfg, t, i));
        },
        FormField::Toggle { value, .. } => {
            *value = source_toggle(cfg, t, i);
        },
        FormField::Stack { value, .. } => {
            *value = cfg.stack;
        },
    }
}

/// Prefilling fresh forms with a record makes them show that record.
pub proof fn lemma_prefill_fresh(old: Seq<FormTab>, new: Seq<FormTab>, c: ConfigView)
    requires
        tabs_fresh(old),
        tabs_prefilled(old, new, c),
    ensures
        form_holds(new, c),
{
    assert forall|t: int| 0 <= t < 7 implies #[trigger] new[t].fields@.len() == layout_len(t) by {
        assert(old[t].fields@.len() == layout_len(t));
        assert(new[t].focus == old[t].focus);
    }
    assert forall|t: int, i: int| 0 <= t < 7 && 0 <= i < layout_len(t) implies field_shape(
        #[trigger] new[t].fields@[i],
        t,
        i,
    ) by {
        assert(field_shape(old[t].fields@[i], t, i));
        assert(field_prefilled(old[t].fields@[i], new[t].fields@[i], c, t, i));
    }
    assert forall|t: int, i: int| 0 <= t < 7 && 0 <= i < layout_len(t) implies match #[trigger] new[t].fields@[i] {
        FormField::Text { value, .. } => value@ == text_source(c, t, i),
        FormField::Toggle { value, .. } => value == toggle_source(c, t, i),
        FormField::Stack { value, .. } => value == c.stack,
    } by {
        assert(field_prefilled(old[t].fields@[i], new[t].fields@[i], c, t, i));
        match old[t].fields@[i] {
            FormField::Text { value, .. } => {
                assert(value@.len() == 0);
                assert(value@ + text_source(c, t, i) =~= text_source(c, t, i));
            },
            _ => {},
        }
    }
    assert forall|t: int| 0 <= t < 5 implies #[trigger] new[t].focus < new[t].fields@.len() by {
        assert(old[t].focus < old[t].fields@.len());
        assert(old[t].fields@.len() == layout_len(t));
    }
    assert forall|t: int| 0 <= t < 7 implies #[trigger] new[t].focus == 0 by {
        assert(old[t].focus == 0);
    }
}

/// A form that shows a normal record gives that record back.
pub proof fn lemma_collect_form(tabs: Seq<FormTab>, c: ConfigView)
    requires
        form_holds(tabs, c),
        config_normal(c),
    ensures
        collected(tabs) == c,
{
    assert(field_shape(tabs[0].fields@[0], 0, 0));
    assert(text_at(tabs, 0, 0) == c.project_name);
    assert(field_shape(tabs[0].fields@[1], 0, 1));
    assert(form_stack(tabs) == c.stack);
    assert(field_shape(tabs[0].fields@[2], 0, 2));
    assert(text_at(tabs, 0, 2) == c.entry_point);
    assert(field_shape(tabs[0].fields@[3], 0, 3));
    assert(text_at(tabs, 0, 3) == c.backend_repo);
    assert(field_shape(tabs[0].fields@[4], 0, 4));
    assert(text_at(tabs, 0, 4) == c.frontend_repo);
    assert(field_shape(tabs[0].fields@[5], 0, 5));
    assert(text_at(tabs, 0, 5) == c.branch);
    assert(field_shape(tabs[0].fields@[6], 0, 6));
    assert(text_at(tabs, 0, 6) == c.service_user);
    assert(field_shape(tabs[1].fields@[0], 1, 0));
    assert(text_at(tabs, 1, 0) == c.target_dir);
    assert(field_shape(tabs[1].fields@[1], 1, 1));
    assert(text_at(tabs, 1, 1) == c.db_dir);
    assert(field_shape(tabs[1].fields@[2], 1, 2));
    assert(text_at(tabs, 1, 2) == c.uploads_dir);
    assert(field_shape(tabs[1].fields@[3], 1, 3));
    assert(text_at(tabs, 1, 3) == c.backup_dir);
    assert(field_shape(tabs[2].fields@[0], 2, 0));
    assert(text_at(tabs, 2, 0) == c.backend_port);
    assert(field_shape(tabs[2].fields@[1], 2, 1));
    assert(text_at(tabs, 2, 1) == c.extra_ports);
    assert(field_shape(tabs[2].fields@[2], 2, 2));
    assert(text_at(tabs, 2, 2) == c.health_path);
    assert(field_shape(tabs[2].fields@[3], 2, 3));
    assert(toggle_at(tabs, 2, 3) == c.ufw_backend);
    assert(field_shape(tabs[2].fields@[4], 2, 4));
    assert(toggle_at(tabs, 2, 4) == c.ufw_web);
    assert(field_shape(tabs[3].fields@[0], 3, 0));
    assert(text_at(tabs, 3, 0) == c.domain);
    assert(field_shape(tabs[3].fields@[1], 3, 1));
    assert(text_at(tabs, 3, 1) == c.cert_email);
    assert(field_shape(tabs[3].fields@[2], 3, 2));
    assert(text_at(tabs, 3, 2) == c.api_prefix);
    assert(field_shape(tabs[3].fields@[3], 3, 3));
    assert(text_at(tabs, 3, 3) == c.frontend_dist);
    assert(field_shape(tabs[3].fields@[4], 3, 4));
    assert(text_at(tabs, 3, 4) == c.max_body_size);
    assert(field_shape(tabs[3].fields@[5], 3, 5));
    assert(toggle_at(tabs, 3, 5) == c.websocket);
    assert(field_shape(tabs[4].fields@[0], 4, 0));
    assert(toggle_at(tabs, 4, 0) == c.backup_enabled);
    assert(field_shape(tabs[4].fields@[1], 4, 1));
    assert(text_at(tabs, 4, 1) == c.backup_retention);
    assert(field_shape(tabs[4].fields@[2], 4, 2));
    assert(toggle_at(tabs, 4, 2) == c.backup_db);
    assert(field_shape(tabs[4].fields@[3], 4, 3));
    assert(toggle_at(tabs, 4, 3) == c.backup_uploads);
    assert(field_shape(tabs[4].fields@[4], 4, 4));
    assert(toggle_at(tabs, 4, 4) == c.backup_cron);
}

// ───────────────────────── application state ─────────────────────────

/// The buttons and what they do.
#[derive(Debug, Clone, Copy, PartialEq, Eq, Structural)]
pub enum Action {
    DeployRegen,
    DeployStaged,
    WriteFiles,
    PullDeploy,
    TestApi,
    Restart,
    Delete,
    LoadProject,
    BackupNow,
    DeleteProjectSel,
    NewProject,
    GetDocs,
}

/// What a spot of the screen does when clicked.
#[derive(Debug, Clone, Copy, PartialEq, Eq, Structural)]
pub enum Click {
    Tab(LeftTab),
    Field { tab: LeftTab, idx: usize },
    Project(usize),
    Button(Action),
}

/// A rectangle of terminal cells.
#[derive(Debug, Clone, Copy, PartialEq, Eq, Structural)]
pub struct Rect {
    pub x: u16,
    pub y: u16,
    pub width: u16,
    pub height: u16,
}

/// Whether the cell at (`col`, `row`) lies inside `r`.
pub open spec fn rect_contains(r: Rect, col: int, row: int) -> bool {
    r.x <= col < r.x + r.width && r.y <= row < r.y + r.height
}

/// Whether the cell at (`col`, `row`) lies inside `r`.
pub fn contains(r: &Rect, col: u16, row: u16) -> (b: bool)
    ensures
        b == rect_contains(*r, col as int, row as int),
{
    col >= r.x && (col as u32) < (r.x as u32) + (r.width as u32) && row >= r.y && (row as u32)
        < (r.y as u32) + (r.height as u32)
}

/// Whether a systemd unit is running.
pub struct ServiceStatus {
    pub name: String,
    pub active: bool,
}

/// A message shown for a few seconds in a corner of the screen;
/// `created_at` is in milliseconds on the application's clock.
pub struct Notification {
    pub message: String,
    pub level: String,
    pub created_at: u64,
}

/// Everything the interface shows and edits, apart from the live metrics.
pub struct App {
    pub tabs: Vec<FormTab>,
    pub left_tab: LeftTab,
    pub projects: Vec<ProjectConfig>,
    pub projects_focus: usize,
    pub deployed: Option<ProjectConfig>,
    pub pending_delete: Option<ProjectConfig>,
    /// When the first press of a delete button happened (milliseconds).
    pub confirm_delete: Option<u64>,
    /// The project whose server the monitor probes.
    pub monitored: Option<ProjectConfig>,
    pub rx_hist: Vec<u64>,
    pub tx_hist: Vec<u64>,
    pub services: Vec<ServiceStatus>,
    pub api_status: Option<(bool, String)>,
    pub logs: Vec<String>,
    pub log_scroll: usize,
    pub notifications: Vec<Notification>,
    pub click_map: Vec<(Rect, Click)>,
    pub hover: Option<Click>,
    pub deploying: bool,
    pub tick: u64,
    pub should_quit: bool,
    pub font_gate: bool,
    pub gate_busy: bool,
    pub ascii: bool,
    pub icons: Icons,
    pub last_key: String,
}

/// `s` with `x` added at the end and, when that makes it longer than
/// `max`, its first element dropped.
pub open spec fn push_bounded<T>(s: Seq<T>, x: T, max: nat) -> Seq<T> {
    if s.len() + 1 > max {
        s.push(x).drop_first()
    } else {
        s.push(x)
    }
}

/// Adding to a bounded sequence keeps it bounded and puts the new element
/// last.
pub proof fn lemma_push_bounded<T>(s: Seq<T>, x: T, max: nat)
    requires
        max >= 1,
    ensures
        push_bounded(s, x, max).last() == x,
        push_bounded(s, x, max).len() == if s.len() + 1 > max {
            s.len()
        } else {
            s.len() + 1
        },
        s.len() <= max ==> push_bounded(s, x, max).len() <= max,
{
}

/// `new` is `old` with a notification of the given text, level and time
/// added, and the oldest dropped when there would be more than six.
pub open spec fn notified(
    old: Seq<Notification>,
    new: Seq<Notification>,
    msg: Seq<char>,
    level: Seq<char>,
    now: u64,
) -> bool {
    let kept = if old.len() + 1 > MAX_NOTIFICATIONS {
        old.drop_first()
    } else {
        old
    };
    &&& new.len() == kept.len() + 1
    &&& new.drop_last() == kept
    &&& new.last().message@ == msg
    &&& new.last().level@ == level
    &&& new.last().created_at == now
}

/// The first log line of a session.
pub const WELCOME: &'static str = "[INFO] VPS Deployer started — mouse enabled";

impl App {
    /// The state invariant: well-shaped forms, bounded logs and
    /// notifications, and full bandwidth histories.
    pub open spec fn wf(&self) -> bool {
        &&& tabs_shaped(self.tabs@)
        &&& self.logs@.len() <= MAX_LOGS
        &&& self.log_scroll <= MAX_LOGS
        &&& self.notifications@.len() <= MAX_NOTIFICATIONS
        &&& self.rx_hist@.len() == HISTORY
        &&& self.tx_hist@.len() == HISTORY
    }

    /// A new session over the saved `projects`.
    pub fn new(projects: Vec<ProjectConfig>) -> (app: App)
        ensures
            app.wf(),
            tabs_fresh(app.tabs@),
            app.left_tab == LeftTab::Repos,
            app.projects == projects,
            app.projects_focus == 0,
            app.deployed is None,
            app.pending_delete is None,
            app.confirm_delete is None,
            app.monitored is None,
            app.rx_hist@ == Seq::new(HISTORY as nat, |i: int| 0u64),
            app.tx_hist@ == Seq::new(HISTORY as nat, |i: int| 0u64),
            app.services@.len() == 0,
            app.api_status is None,
            app.logs@.len() == 1,
            app.logs@[0]@ == WELCOME@,
            app.log_scroll == 0,
            app.notifications@.len() == 0,
            app.click_map@.len() == 0,
            app.hover is None,
            !app.deploying,
            app.tick == 0,
            !app.should_quit,
            !app.font_gate,
            !app.gate_busy,
            !app.ascii,
            is_unicode_set(app.icons),
            app.last_key@ == "none yet"@,
    {
        let mut rx: Vec<u64> = Vec::new();
        let mut tx: Vec<u64> = Vec::new();
        let mut i: usize = 0;
        while i < HISTORY
            invariant
                i <= HISTORY,
                rx@ == Seq::new(i as nat, |k: int| 0u64),
                tx@ == Seq::new(i as nat, |k: int| 0u64),
            decreases HISTORY - i,
        {
            rx.push(0);
            tx.push(0);
            i += 1;
            assert(rx@ =~= Seq::new(i as nat, |k: int| 0u64));
            assert(tx@ =~= Seq::new(i as nat, |k: int| 0u64));
        }
        let mut logs: Vec<String> = Vec::new();
        logs.push(String::from_str(WELCOME));
        App {
            tabs: fresh_tabs(),
            left_tab: LeftTab::Repos,
            projects,
            projects_focus: 0,
            deployed: None,
            pending_delete: None,
            confirm_delete: None,
            monitored: None,
            rx_hist: rx,
            tx_hist: tx,
            services: Vec::new(),
            api_status: None,
            logs,
            log_scroll: 0,
            notifications: Vec::new(),
            click_map: Vec::new(),
            hover: None,
            deploying: false,
            tick: 0,
            should_quit: false,
            font_gate: false,
            gate_busy: false,
            ascii: false,
            icons: unicode_icons(),
            last_key: String::from_str("none yet"),
        }
    }

    /// Replaces the project list by a freshly read one and keeps the
    /// selection inside it.
    pub fn refresh_projects(&mut self, projects: Vec<ProjectConfig>)
        ensures
            final(self).projects == projects,
            final(self).projects_focus == (if projects@.len() == 0 {
                0
            } else if old(self).projects_focus < projects@.len() - 1 {
                old(self).projects_focus as int
            } else {
                projects@.len() - 1
            }),
            *final(self) == (App {
                projects: final(self).projects,
                projects_focus: final(self).projects_focus,
                ..*old(self)
            }),
    {
        self.projects = projects;
        if self.projects.len() > 0 {
            let last = self.projects.len() - 1;
            if self.projects_focus > last {
                self.projects_focus = last;
            }
        } else {
            self.projects_focus = 0;
        }
    }

    /// Adds a line to the activity log, dropping the oldest line beyond
    /// the thousandth.
    pub fn push_log(&mut self, log: String)
        ensures
            final(self).logs@ == push_bounded(old(self).logs@, log, MAX_LOGS as nat),
            *final(self) == (App { logs: final(self).logs, ..*old(self) }),
    {
        self.logs.push(log);
        if self.logs.len() > MAX_LOGS {
            self.logs.remove(0);
        }
    }

    /// Shows a notification of the given level ("Info", "Warning",
    /// "Error"), dropping the oldest beyond the sixth.
    pub fn notify(&mut self, msg: String, level: &str, now: u64)
        ensures
            notified(old(self).notifications@, final(self).notifications@, msg@, level@, now),
            *final(self) == (App { notifications: final(self).notifications, ..*old(self) }),
    {
        let ghost before = self.notifications@;
        let n = Notification { message: msg, level: String::from_str(level), created_at: now };
        self.notifications.push(n);
        if self.notifications.len() > MAX_NOTIFICATIONS {
            self.notifications.remove(0);
            assert(self.notifications@ =~= before.drop_first().push(n));
            assert(self.notifications@.drop_last() =~= before.drop_first());
        } else {
            assert(self.notifications@.drop_last() =~= before);
        }
    }

    /// The trimmed text of field `idx` of tab `tab`; empty for anything
    /// but a text field.
    fn text_of(&self, tab: usize, idx: usize) -> (r: String)
        ensures
            r@ == trim(text_at(self.tabs@, tab as int, idx as int)),
    {
        if tab < self.tabs.len() && idx < self.tabs[tab].fields.len() {
            match &self.tabs[tab].fields[idx] {
                FormField::Text { value, .. } => trim_str(value.as_str()),
                _ => String::new(),
            }
        } else {
            String::new()
        }
    }

    /// Whether field `idx` of tab `tab` is a toggle that is on.
    fn toggle_of(&self, tab: usize, idx: usize) -> (r: bool)
        ensures
            r == toggle_at(self.tabs@, tab as int, idx as int),
    {
        if tab < self.tabs.len() && idx < self.tabs[tab].fields.len() {
            match &self.tabs[tab].fields[idx] {
                FormField::Toggle { value, .. } => *value,
                _ => false,
            }
        } else {
            false
        }
    }

    /// Types `s` into text field `idx` of tab `tab`, after what it holds.
    pub fn set_text(&mut self, tab: usize, idx: usize, s: &str)
        requires
            tab < old(self).tabs@.len(),
            idx < old(self).tabs@[tab as int].fields@.len(),
        ensures
            final(self).tabs@.len() == old(self).tabs@.len(),
            forall|k: int|
                0 <= k < old(self).tabs@.len() && k != tab ==> #[trigger] final(self).tabs@[k]
                    == old(self).tabs@[k],
            final(self).tabs@[tab as int].focus == old(self).tabs@[tab as int].focus,
            final(self).tabs@[tab as int].fields@.len() == old(self).tabs@[tab as int].fields@.len(),
            forall|j: int|
                0 <= j < old(self).tabs@[tab as int].fields@.len() && j != idx
                    ==> #[trigger] final(self).tabs@[tab as int].fields@[j] == old(self).tabs@[tab as int].fields@[j],
            match old(self).tabs@[tab as int].fields@[idx as int] {
                FormField::Text { label, placeholder, value } => final(self).tabs@[tab as int].fields@[idx as int] matches FormField::Text {
                    label: l,
                    placeholder: p,
                    value: v,
                } && l == label && p == placeholder && v@ == value@ + s@,
                other => final(self).tabs@[tab as int].fields@[idx as int] == other,
            },
            *final(self) == (App { tabs: final(self).tabs, ..*old(self) }),
    {
        if s.is_empty() {
            assert(forall|v: Seq<char>| v + s@ =~= v);
            return ;
        }
        match &mut self.tabs[tab].fields[idx] {
            FormField::Text { value, .. } => {
                value.append(s);
            },
            _ => {},
        }
    }

    /// Puts the text that the terminal editor of field `idx` of tab `tab`
    /// now holds into the form.
    pub fn sync_text(&mut self, tab: usize, idx: usize, text: String)
        ensures
            final(self).tabs@.len() == old(self).tabs@.len(),
            forall|k: int|
                0 <= k < old(self).tabs@.len() && k != tab ==> #[trigger] final(self).tabs@[k]
                    == old(self).tabs@[k],
            tab < old(self).tabs@.len() ==> {
                &&& final(self).tabs@[tab as int].focus == old(self).tabs@[tab as int].focus
                &&& final(self).tabs@[tab as int].fields@.len() == old(self).tabs@[tab as int].fields@.len()
                &&& forall|j: int|
                    0 <= j < old(self).tabs@[tab as int].fields@.len() && j != idx
                        ==> #[trigger] final(self).tabs@[tab as int].fields@[j] == old(self).tabs@[tab as int].fields@[j]
                &&& idx < old(self).tabs@[tab as int].fields@.len() ==> match old(self).tabs@[tab as int].fields@[idx as int] {
                    FormField::Text { label, placeholder, .. } => final(self).tabs@[tab as int].fields@[idx as int] == (FormField::Text {
                        label,
                        placeholder,
                        value: text,
                    }),
                    other => final(self).tabs@[tab as int].fields@[idx as int] == other,
                }
            },
            *final(self) == (App { tabs: final(self).tabs, ..*old(self) }),
    {
        if tab < self.tabs.len() && idx < self.tabs[tab].fields.len() {
            match &mut self.tabs[tab].fields[idx] {
                FormField::Text { value, .. } => {
                    *value = text;
                },
                _ => {},
            }
        }
    }

    /// Fills the forms with a project record: its texts are typed into the
    /// text fields, its switches and stack are set.
    pub fn prefill(&mut self, cfg: &ProjectConfig)
        requires
            tabs_shaped(old(self).tabs@),
        ensures
            tabs_prefilled(old(self).tabs@, final(self).tabs@, cfg@),
            tabs_shaped(final(self).tabs@),
            *final(self) == (App { tabs: final(self).tabs, ..*old(self) }),
    {
        let ghost old_tabs = self.tabs@;
        let n = self.tabs.len();
        let mut t: usize = 0;
        while t < n
            invariant
                t <= n == old_tabs.len() == self.tabs@.len(),
                old_tabs == old(self).tabs@,
                forall|k: int| 0 <= k < n ==> #[trigger] self.tabs@[k].focus == old_tabs[k].focus,
                forall|k: int|
                    0 <= k < n ==> #[trigger] self.tabs@[k].fields@.len() == old_tabs[k].fields@.len(),
                forall|k: int, j: int|
                    0 <= k < t && 0 <= j < old_tabs[k].fields@.len() ==> field_prefilled(
                        old_tabs[k].fields@[j],
                        #[trigger] self.tabs@[k].fields@[j],
                        cfg@,
                        k,
                        j,
                    ),
                forall|k: int| t <= k < n ==> #[trigger] self.tabs@[k] == old_tabs[k],
                *self == (App { tabs: self.tabs, ..*old(self) }),
            decreases n - t,
        {
            let m = self.tabs[t].fields.len();
            let mut i: usize = 0;
            while i < m
                invariant
                    t < n == old_tabs.len() == self.tabs@.len(),
                    i <= m == old_tabs[t as int].fields@.len(),
                    old_tabs == old(self).tabs@,
                    forall|k: int| 0 <= k < n ==> #[trigger] self.tabs@[k].focus == old_tabs[k].focus,
                    forall|k: int|
                        0 <= k < n ==> #[trigger] self.tabs@[k].fields@.len() == old_tabs[k].fields@.len(),
                    forall|k: int, j: int|
                        0 <= k < t && 0 <= j < old_tabs[k].fields@.len() ==> field_prefilled(
                            old_tabs[k].fields@[j],
                            #[trigger] self.tabs@[k].fields@[j],
                            cfg@,
                            k,
                            j,
                        ),
                    forall|j: int|
                        0 <= j < i ==> field_prefilled(
                            old_tabs[t as int].fields@[j],
                            #[trigger] self.tabs@[t as int].fields@[j],
                            cfg@,
                            t as int,
                            j,
                        ),
                    forall|j: int|
                        i <= j < m ==> #[trigger] self.tabs@[t as int].fields@[j]
                            == old_tabs[t as int].fields@[j],
                    forall|k: int| t < k < n ==> #[trigger] self.tabs@[k] == old_tabs[k],
                    *self == (App { tabs: self.tabs, ..*old(self) }),
                decreases m - i,
            {
                let ghost before = self.tabs@;
                prefill_field(&mut self.tabs[t].fields[i], cfg, t, i);
                assert(self.tabs@.len() == before.len());
                assert(forall|k: int| 0 <= k < n && k != t ==> self.tabs@[k] == before[k]);
                assert(self.tabs@[t as int].focus == before[t as int].focus);
                assert(self.tabs@[t as int].fields@.len() == before[t as int].fields@.len());
                assert(forall|j: int| 0 <= j < m && j != i ==> self.tabs@[t as int].fields@[j] == before[t as int].fields@[j]);
                i += 1;
            }
            t += 1;
        }
        proof {
            lemma_prefill_shape(old_tabs, self.tabs@, cfg@);
        }
    }

    /// Starts a new project: fresh forms on the first tab.
    pub fn reset_form(&mut self, now: u64)
        ensures
            tabs_fresh(final(self).tabs@),
            final(self).deployed is None,
            final(self).left_tab == LeftTab::Repos,
            notified(
                old(self).notifications@,
                final(self).notifications@,
                "New project form ready"@,
                "Info"@,
                now,
            ),
            *final(self) == (App {
                tabs: final(self).tabs,
                deployed: None,
                left_tab: LeftTab::Repos,
                notifications: final(self).notifications,
                ..*old(self)
            }),
    {
        self.tabs = fresh_tabs();
        self.deployed = None;
        self.left_tab = LeftTab::Repos;
        self.notify(String::from_str("New project form ready"), "Info", now);
    }

    /// Opens a saved project for editing: the forms show it, it becomes
    /// the deployed project, and the Review tab opens.
    pub fn load_project(&mut self, cfg: ProjectConfig, now: u64)
        ensures
            form_holds(final(self).tabs@, cfg@),
            final(self).deployed == Some(cfg),
            final(self).left_tab == LeftTab::Review,
            notified(
                old(self).notifications@,
                final(self).notifications@,
                "'"@ + cfg@.project_name + "' loaded — edit anything, then deploy"@,
                "Info"@,
                now,
            ),
            *final(self) == (App {
                tabs: final(self).tabs,
                deployed: Some(cfg),
                left_tab: LeftTab::Review,
                notifications: final(self).notifications,
                ..*old(self)
            }),
    {
        self.tabs = fresh_tabs();
        let ghost fresh = self.tabs@;
        self.prefill(&cfg);
        proof {
            lemma_prefill_fresh(fresh, self.tabs@, cfg@);
        }
        let msg = concat3("'", cfg.project_name.as_str(), "' loaded — edit anything, then deploy");
        self.deployed = Some(cfg);
        self.left_tab = LeftTab::Review;
        self.notify(msg, "Info", now);
    }

    /// Adds one bandwidth sample to each history, dropping the oldest
    /// beyond the sixtieth.
    pub fn record_rates(&mut self, rx: u64, tx: u64)
        ensures
            final(self).rx_hist@ == push_bounded(old(self).rx_hist@, rx, HISTORY as nat),
            final(self).tx_hist@ == push_bounded(old(self).tx_hist@, tx, HISTORY as nat),
            *final(self) == (App {
                rx_hist: final(self).rx_hist,
                tx_hist: final(self).tx_hist,
                ..*old(self)
            }),
    {
        self.rx_hist.push(rx);
        if self.rx_hist.len() > HISTORY {
            self.rx_hist.remove(0);
        }
        self.tx_hist.push(tx);
        if self.tx_hist.len() > HISTORY {
            self.tx_hist.remove(0);
        }
    }

    /// The project record that the forms describe.
    pub fn collect_config(&self) -> (cfg: ProjectConfig)
        ensures
            cfg@ == collected(self.tabs@),
    {
        let stack = if self.tabs.len() > 0 && self.tabs[0].fields.len() > 1 {
            match &self.tabs[0].fields[1] {
                FormField::Stack { value, .. } => *value,
                _ => BackendStack::NodeJs,
            }
        } else {
            BackendStack::NodeJs
        };
        let project_name = self.text_of(0, 0);
        let entry = self.text_of(0, 2);
        let entry_point = if entry.as_str().is_empty() {
            String::from_str(stack.default_entry())
        } else {
            entry
        };
        let backend_repo = self.text_of(0, 3);
        let frontend_repo = self.text_of(0, 4);
        let b = self.text_of(0, 5);
        let branch = if b.as_str().is_empty() {
            String::from_str("production")
        } else {
            b
        };
        let service_user = self.text_of(0, 6);
        let target_dir = self.text_of(1, 0);
        let db_dir = self.text_of(1, 1);
        let uploads_dir = self.text_of(1, 2);
        let bd = self.text_of(1, 3);
        let backup_dir = if bd.as_str().is_empty() && !target_dir.as_str().is_empty() {
            concat2(target_dir.as_str(), "/backups")
        } else {
            bd
        };
        let backend_port = self.text_of(2, 0);
        let extra_ports = self.text_of(2, 1);
        let h = self.text_of(2, 2);
        let health_path = if h.as_str().is_empty() {
            String::from_str("/health")
        } else {
            h
        };
        let domain = self.text_of(3, 0);
        let cert_email = self.text_of(3, 1);
        let a = self.text_of(3, 2);
        let api_prefix = if a.as_str().is_empty() {
            String::from_str("/api/")
        } else {
            a
        };
        let fd = self.text_of(3, 3);
        let frontend_dist = if fd.as_str().is_empty() && !target_dir.as_str().is_empty() {
            concat2(target_dir.as_str(), "/frontend/dist")
        } else {
            fd
        };
        let m = self.text_of(3, 4);
        let max_body_size = if m.as_str().is_empty() {
            String::from_str("25m")
        } else {
            m
        };
        let r = self.text_of(4, 1);
        let backup_retention = if r.as_str().is_empty() {
            String::from_str("10")
        } else {
            r
        };
        ProjectConfig {
            project_name,
            stack,
            entry_point,
            backend_repo,
            frontend_repo,
            branch,
            service_user,
            target_dir,
            db_dir,
            uploads_dir,
            backup_dir,
            backend_port,
            extra_ports,
            health_path,
            ufw_backend: self.toggle_of(2, 3),
            ufw_web: self.toggle_of(2, 4),
            domain,
            cert_email,
            api_prefix,
            frontend_dist,
            max_body_size,
            websocket: self.toggle_of(3, 5),
            backup_enabled: self.toggle_of(4, 0),
            backup_retention,
            backup_db: self.toggle_of(4, 2),
            backup_uploads: self.toggle_of(4, 3),
            backup_cron: self.toggle_of(4, 4),
        }
    }
}

} // verus!
