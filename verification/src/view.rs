//! What the screen shows, as text: the review summary, the project list,
//! the form fields, the services, the activity log window, the header and
//! the notification placement. Colors and widgets are left to the caller.

use vstd::prelude::*;
use vstd::string::*;
use crate::app::{Notification, Rect, ServiceStatus};
use crate::config::{service_name_of, stack_build_command, stack_label, stack_short, staging_dir_of, BackendStack, ConfigView, ProjectConfig};
use crate::text::{concat2, concat3, decimal, dec, has_sub, pad_left, pad_left_view, pad_right, pad_right_view, str_contains};
use crate::theme::Icons;
use crate::ui::{human, human_view};

verus! {

// ───────────────────────── review ─────────────────────────

/// `text`, or `fallback` when `text` is empty.
pub open spec fn or_dash(text: Seq<char>, fallback: Seq<char>) -> Seq<char> {
    if text.len() == 0 {
        fallback
    } else {
        text
    }
}

/// "✓" when a repository is set, else "—".
pub open spec fn mark_of(repo: Seq<char>) -> Seq<char> {
    if repo.len() == 0 {
        "—"@
    } else {
        "✓"@
    }
}

/// The rows of the review screen, as (label, text) pairs: five summary
/// rows, a blank row, and the staged files that can be edited.
pub open spec fn review_view(c: ConfigView) -> Seq<(Seq<char>, Seq<char>)> {
    let staging = staging_dir_of(c);
    seq![
        (" Project   : "@, c.project_name + "  ("@ + stack_label(c.stack) + ")"@),
        (
            " Repos     : "@,
            "backend "@ + mark_of(c.backend_repo) + " · frontend "@ + mark_of(c.frontend_repo)
                + " · branch '"@ + c.branch + "'"@,
        ),
        (
            " Dirs      : "@,
            c.target_dir + "  ·  db "@ + c.db_dir + "  ·  uploads "@ + c.uploads_dir,
        ),
        (
            " Network   : "@,
            "port "@ + c.backend_port + " · domain "@ + or_dash(c.domain, "—"@) + " · health "@
                + c.health_path,
        ),
        (
            " Backups   : "@,
            (if c.backup_enabled {
                "on"@
            } else {
                "off"@
            }) + " · keep "@ + c.backup_retention + " · cron "@ + (if c.backup_cron {
                "daily 03:00"@
            } else {
                "off"@
            }),
        ),
        (Seq::<char>::empty(), Seq::<char>::empty()),
        (Seq::<char>::empty(), " Staged files — edit with vim, then use 'My edits':"@),
        (Seq::<char>::empty(), "   "@ + staging + "/deploy.sh"@),
        (Seq::<char>::empty(), "   "@ + staging + "/"@ + service_name_of(c) + ".service"@),
        (
            Seq::<char>::empty(),
            "   "@ + staging + "/nginx-"@ + or_dash(c.domain, "<domain>"@) + ".conf"@,
        ),
        (Seq::<char>::empty(), "   "@ + staging + "/backup.sh"@),
        (Seq::<char>::empty(), "   "@ + staging + "/DOCUMENTATION.md"@),
    ]
}

/// The views of (label, text) rows.
pub open spec fn row_views(v: Seq<(String, String)>) -> Seq<(Seq<char>, Seq<char>)> {
    v.map_values(|p: (String, String)| (p.0@, p.1@))
}

/// A string from a slice.
fn owned(s: &str) -> (r: String)
    ensures
        r@ == s@,
{
    String::from_str(s)
}

/// `text`, or `fallback` when it is empty.
fn or_fallback(text: &String, fallback: &str) -> (r: String)
    ensures
        r@ == or_dash(text@, fallback@),
{
    if text.as_str().is_empty() {
        owned(fallback)
    } else {
        text.clone()
    }
}

/// "✓" or "—".
fn mark(repo: &String) -> (r: &'static str)
    ensures
        r@ == mark_of(repo@),
{
    if repo.as_str().is_empty() {
        "—"
    } else {
        "✓"
    }
}

/// Concatenation of a string and three slices.
fn cat4(a: &str, b: &str, c: &str, d: &str) -> (r: String)
    ensures
        r@ == a@ + b@ + c@ + d@,
{
    let ab = concat2(a, b);
    concat3(ab.as_str(), c, d)
}

/// The rows of the review screen for the configuration in the form.
pub fn review_rows(cfg: &ProjectConfig) -> (r: Vec<(String, String)>)
    ensures
        row_views(r@) == review_view(cfg@),
{
    let staging = cfg.staging_dir();
    let mut r: Vec<(String, String)> = Vec::new();
    let project = cat4(cfg.project_name.as_str(), "  (", cfg.stack.label(), ")");
    r.push((owned(" Project   : "), project));
    let repos1 = cat4("backend ", mark(&cfg.backend_repo), " · frontend ", mark(&cfg.frontend_repo));
    let repos = cat4(repos1.as_str(), " · branch '", cfg.branch.as_str(), "'");
    r.push((owned(" Repos     : "), repos));
    let dirs1 = cat4(cfg.target_dir.as_str(), "  ·  db ", cfg.db_dir.as_str(), "  ·  uploads ");
    let dirs = concat2(dirs1.as_str(), cfg.uploads_dir.as_str());
    r.push((owned(" Dirs      : "), dirs));
    let domain = or_fallback(&cfg.domain, "—");
    let net1 = cat4("port ", cfg.backend_port.as_str(), " · domain ", domain.as_str());
    let net = concat3(net1.as_str(), " · health ", cfg.health_path.as_str());
    r.push((owned(" Network   : "), net));
    let on = if cfg.backup_enabled {
        "on"
    } else {
        "off"
    };
    let cron = if cfg.backup_cron {
        "daily 03:00"
    } else {
        "off"
    };
    let backups1 = cat4(on, " · keep ", cfg.backup_retention.as_str(), " · cron ");
    let backups = concat2(backups1.as_str(), cron);
    r.push((owned(" Backups   : "), backups));
    r.push((String::new(), String::new()));
    r.push((String::new(), owned(" Staged files — edit with vim, then use 'My edits':")));
    r.push((String::new(), concat3("   ", staging.as_str(), "/deploy.sh")));
    let svc = cfg.service_name();
    let unit = cat4("   ", staging.as_str(), "/", svc.as_str());
    r.push((String::new(), concat2(unit.as_str(), ".service")));
    let nginx_domain = or_fallback(&cfg.domain, "<domain>");
    let nginx1 = cat4("   ", staging.as_str(), "/nginx-", nginx_domain.as_str());
    r.push((String::new(), concat2(nginx1.as_str(), ".conf")));
    r.push((String::new(), concat3("   ", staging.as_str(), "/backup.sh")));
    r.push((String::new(), concat3("   ", staging.as_str(), "/DOCUMENTATION.md")));
    assert(row_views(r@) =~= review_view(cfg@));
    r
}


// ───────────────────────── project list ─────────────────────────

/// One row of the project list: a marker for the selected project, then
/// name, stack, domain ("no-domain" when unset) in aligned columns, and
/// the deploy directory.
pub open spec fn project_row_view(c: ConfigView, selected: bool) -> Seq<char> {
    " "@ + (if selected {
        "▶"@
    } else {
        " "@
    }) + " "@ + pad_right_view(c.project_name, 18) + " "@ + pad_right_view(stack_short(c.stack), 8)
        + " "@ + pad_right_view(or_dash(c.domain, "no-domain"@), 24) + " "@ + c.target_dir
}

/// One row of the project list.
pub fn project_row(cfg: &ProjectConfig, selected: bool) -> (r: String)
    ensures
        r@ == project_row_view(cfg@, selected),
{
    let marker = if selected {
        "▶"
    } else {
        " "
    };
    let name = pad_right(cfg.project_name.as_str(), 18);
    let stack = pad_right(cfg.stack.short(), 8);
    let domain = or_fallback(&cfg.domain, "no-domain");
    let domain = pad_right(domain.as_str(), 24);
    let a = cat4(" ", marker, " ", name.as_str());
    let b = cat4(a.as_str(), " ", stack.as_str(), " ");
    let c = cat4(b.as_str(), domain.as_str(), " ", cfg.target_dir.as_str());
    c
}

/// The title of the project list.
pub open spec fn projects_title_view(package: Seq<char>, n: nat) -> Seq<char> {
    " "@ + package + " Projects on this VPS ("@ + dec(n) + ") "@
}

/// The title of the project list, with the number of projects.
pub fn projects_title(icons: &Icons, n: usize) -> (r: String)
    ensures
        r@ == projects_title_view(icons.package@, n as nat),
{
    let count = decimal(n as u64);
    let a = cat4(" ", icons.package, " Projects on this VPS (", count.as_str());
    concat2(a.as_str(), ") ")
}

// ───────────────────────── form fields ─────────────────────────

/// The title of a field's box: an arrow on the focused field.
pub open spec fn field_title_view(label: Seq<char>, focused: bool) -> Seq<char> {
    " "@ + (if focused {
        "▸"@
    } else {
        " "@
    }) + " "@ + label + " "@
}

/// The title of a field's box.
pub fn field_title(label: &str, focused: bool) -> (r: String)
    ensures
        r@ == field_title_view(label@, focused),
{
    let arrow = if focused {
        "▸"
    } else {
        " "
    };
    let head = cat4(" ", arrow, " ", label);
    concat2(head.as_str(), " ")
}


/// The mark, the state word, and the hint line of a toggle field.
pub open spec fn toggle_view(value: bool, hint: Seq<char>) -> (Seq<char>, Seq<char>, Option<Seq<char>>) {
    (
        if value {
            "   [✓] "@
        } else {
            "   [✗] "@
        },
        if value {
            "ON"@
        } else {
            "OFF"@
        },
        if hint.len() == 0 {
            None
        } else {
            Some("   "@ + hint)
        },
    )
}

/// The texts of a toggle field.
pub fn toggle_texts(value: bool, hint: &str) -> (r: (&'static str, &'static str, Option<String>))
    ensures
        r.0@ == toggle_view(value, hint@).0,
        r.1@ == toggle_view(value, hint@).1,
        match r.2 {
            Some(h) => toggle_view(value, hint@).2 == Some(h@),
            None => toggle_view(value, hint@).2 is None,
        },
{
    let hint_line = if hint.is_empty() {
        None
    } else {
        Some(concat2("   ", hint))
    };
    if value {
        ("   [✓] ", "ON", hint_line)
    } else {
        ("   [✗] ", "OFF", hint_line)
    }
}

/// The second line of the stack field: the build command.
pub open spec fn stack_line_view(s: BackendStack) -> Seq<char> {
    "   build: "@ + stack_build_command(s)
}

/// The second line of the stack field.
pub fn stack_line(s: BackendStack) -> (r: String)
    ensures
        r@ == stack_line_view(s),
{
    concat2("   build: ", s.build_command())
}

// ───────────────────────── services ─────────────────────────

/// A row of the services box: a dot, the name in a column of 24, and the
/// state.
pub open spec fn service_row_view(s: ServiceStatus, icons: Icons) -> (Seq<char>, Seq<char>, Seq<char>) {
    (
        " "@ + (if s.active {
            icons.dot_ok@
        } else {
            icons.dot_bad@
        }) + " "@,
        pad_right_view(s.name@, 24),
        if s.active {
            "ACTIVE"@
        } else {
            "DOWN"@
        },
    )
}

/// A row of the services box.
pub fn service_row(s: &ServiceStatus, icons: &Icons) -> (r: (String, String, &'static str))
    ensures
        r.0@ == service_row_view(*s, *icons).0,
        r.1@ == service_row_view(*s, *icons).1,
        r.2@ == service_row_view(*s, *icons).2,
{
    let dot = if s.active {
        icons.dot_ok
    } else {
        icons.dot_bad
    };
    let state = if s.active {
        "ACTIVE"
    } else {
        "DOWN"
    };
    (concat3(" ", dot, " "), pad_right(s.name.as_str(), 24), state)
}

/// The row of the services box for the API health probe.
pub open spec fn api_row_view(icons: Icons, detail: Seq<char>) -> (Seq<char>, Seq<char>, Seq<char>) {
    (" "@ + icons.bolt@ + " "@, pad_right_view("api health"@, 24), detail)
}

/// The row of the services box for the API health probe.
pub fn api_row(icons: &Icons, detail: &String) -> (r: (String, String, String))
    ensures
        r.0@ == api_row_view(*icons, detail@).0,
        r.1@ == api_row_view(*icons, detail@).1,
        r.2@ == api_row_view(*icons, detail@).2,
{
    (concat3(" ", icons.bolt, " "), pad_right("api health", 24), detail.clone())
}

/// The height of the services box: room for its rows and borders, at
/// least 3 and at most 9.
pub open spec fn services_height_view(rows: nat) -> nat {
    let h = rows + 2;
    if h < 3 {
        3
    } else if h > 9 {
        9
    } else {
        h
    }
}

/// The height of the services box for `services` service rows and, when
/// `has_api`, the API row.
pub fn services_height(services: usize, has_api: bool) -> (h: u16)
    ensures
        h == services_height_view(services as nat + if has_api { 1nat } else { 0nat }),
{
    let extra: usize = if has_api {
        1
    } else {
        0
    };
    if services >= 7 || services + extra >= 7 {
        9
    } else {
        let h = services + extra + 2;
        if h < 3 {
            3
        } else {
            h as u16
        }
    }
}

// ───────────────────────── activity log ─────────────────────────

/// How a log line is colored.
#[derive(Debug, Clone, Copy, PartialEq, Eq, Structural)]
pub enum LogLevel {
    Error,
    Warn,
    Plain,
}

/// The level of a log line: errors and warnings are recognised by their
/// tag anywhere in the line.
pub open spec fn log_level_view(line: Seq<char>) -> LogLevel {
    if has_sub(line, "[ERROR]"@) {
        LogLevel::Error
    } else if has_sub(line, "[WARN]"@) {
        LogLevel::Warn
    } else {
        LogLevel::Plain
    }
}

/// The level of a log line.
pub fn log_level(line: &str) -> (r: LogLevel)
    ensures
        r == log_level_view(line@),
{
    if str_contains(line, "[ERROR]") {
        LogLevel::Error
    } else if str_contains(line, "[WARN]") {
        LogLevel::Warn
    } else {
        LogLevel::Plain
    }
}

/// How far the log view is scrolled: the requested scroll, at most so
/// far that the oldest line sits at the bottom of the `visible` rows.
pub open spec fn scroll_view(len: nat, scroll: nat, visible: nat) -> nat {
    let max_scroll = if len > visible {
        (len - visible) as nat
    } else {
        0nat
    };
    if scroll < max_scroll {
        scroll
    } else {
        max_scroll
    }
}

/// The lines the log panel shows: newest first, after skipping the
/// scrolled-over lines, at most `visible` of them, each indented by one
/// space and with its level.
pub open spec fn log_window_view(logs: Seq<Seq<char>>, scroll: nat, visible: nat) -> Seq<(LogLevel, Seq<char>)> {
    let s = scroll_view(logs.len(), scroll, visible);
    let rest = (logs.len() - s) as nat;
    let n = if rest < visible {
        rest
    } else {
        visible
    };
    Seq::new(n, |j: int| {
        let l = logs[logs.len() - 1 - s - j];
        (log_level_view(l), " "@ + l)
    })
}

/// The lines the log panel shows.
pub fn log_window(logs: &Vec<String>, scroll: usize, visible: usize) -> (r: Vec<(LogLevel, String)>)
    ensures
        r@.map_values(|p: (LogLevel, String)| (p.0, p.1@)) == log_window_view(
            crate::text::views(logs@),
            scroll as nat,
            visible as nat,
        ),
{
    let len = logs.len();
    let max_scroll = if len > visible {
        len - visible
    } else {
        0
    };
    let s = if scroll < max_scroll {
        scroll
    } else {
        max_scroll
    };
    let rest = len - s;
    let n = if rest < visible {
        rest
    } else {
        visible
    };
    let ghost lv = crate::text::views(logs@);
    let mut r: Vec<(LogLevel, String)> = Vec::new();
    let mut j: usize = 0;
    while j < n
        invariant
            lv == crate::text::views(logs@),
            len == logs@.len(),
            s == scroll_view(len as nat, scroll as nat, visible as nat),
            n == (if (len - s) < visible { (len - s) as nat } else { visible as nat }),
            s <= len,
            j <= n,
            n + s <= len,
            r@.len() == j,
            forall|k: int| 0 <= k < j ==> (#[trigger] r@[k]).0 == log_level_view(lv[len - 1 - s - k])
                && r@[k].1@ == " "@ + lv[len - 1 - s - k],
        decreases n - j,
    {
        let line = &logs[len - 1 - s - j];
        proof {
            assert(lv[len - 1 - s - j] == logs@[len - 1 - s - j]@);
        }
        r.push((log_level(line.as_str()), concat2(" ", line.as_str())));
        j += 1;
    }
    assert(r@.map_values(|p: (LogLevel, String)| (p.0, p.1@)) =~= log_window_view(
        lv,
        scroll as nat,
        visible as nat,
    ));
    r
}

/// The title of the log panel, with the number of lines.
pub open spec fn log_title_view(n: nat) -> Seq<char> {
    " 📜 Activity Log ("@ + dec(n) + " entries) "@
}

/// The title of the log panel.
pub fn log_title(n: usize) -> (r: String)
    ensures
        r@ == log_title_view(n as nat),
{
    let count = decimal(n as u64);
    concat3(" 📜 Activity Log (", count.as_str(), " entries) ")
}


// ───────────────────────── header, buttons, bandwidth ─────────────────────────

/// The spinner frame shown at tick `tick`.
pub open spec fn spinner_view(tick: u64) -> char {
    let k = tick % 10;
    if k == 0 {
        '⠋'
    } else if k == 1 {
        '⠙'
    } else if k == 2 {
        '⠹'
    } else if k == 3 {
        '⠸'
    } else if k == 4 {
        '⠼'
    } else if k == 5 {
        '⠴'
    } else if k == 6 {
        '⠦'
    } else if k == 7 {
        '⠧'
    } else if k == 8 {
        '⠇'
    } else {
        '⠏'
    }
}

/// The status shown in the header: a spinner (dots in ASCII mode) while a
/// job runs, else "ready".
pub open spec fn header_status_view(deploying: bool, ascii: bool, tick: u64) -> Seq<char> {
    if deploying {
        " "@ + (if ascii {
            "..."@
        } else {
            seq![spinner_view(tick)]
        }) + " deploying "@
    } else {
        " ● ready "@
    }
}

/// The status shown in the header.
pub fn header_status(deploying: bool, ascii: bool, tick: u64) -> (r: String)
    ensures
        r@ == header_status_view(deploying, ascii, tick),
{
    if !deploying {
        return owned(" ● ready ");
    }
    if ascii {
        return concat3(" ", "...", " deploying ");
    }
    let k = tick % 10;
    let c = if k == 0 {
        '⠋'
    } else if k == 1 {
        '⠙'
    } else if k == 2 {
        '⠹'
    } else if k == 3 {
        '⠸'
    } else if k == 4 {
        '⠼'
    } else if k == 5 {
        '⠴'
    } else if k == 6 {
        '⠦'
    } else if k == 7 {
        '⠧'
    } else if k == 8 {
        '⠇'
    } else {
        '⠏'
    };
    let mut v: Vec<char> = crate::text::chars_of(" ");
    v.push(c);
    crate::text::extend_str(&mut v, " deploying ");
    let r = crate::text::string_of(&v);
    proof {
        reveal_strlit(" ");
        reveal_strlit(" deploying ");
        reveal_strlit("...");
    }
    assert(r@ =~= header_status_view(deploying, ascii, tick));
    r
}

/// The project named in the header.
pub open spec fn header_project_view(deployed: Option<ConfigView>) -> Seq<char> {
    let name = match deployed {
        Some(c) => c.project_name,
        None => "no project"@,
    };
    " ⌂ "@ + name + " "@
}

/// The project named in the header.
pub fn header_project(deployed: &Option<ProjectConfig>) -> (r: String)
    ensures
        r@ == header_project_view(crate::input::opt_view(*deployed)),
{
    match deployed {
        Some(c) => concat3(" ⌂ ", c.project_name.as_str(), " "),
        None => concat3(" ⌂ ", "no project", " "),
    }
}

/// The label of the delete button: a confirmation question while the
/// first press is less than five seconds old.
pub open spec fn delete_label_view(confirm: Option<u64>, now: u64, trash: Seq<char>) -> Seq<char> {
    if confirm matches Some(t) && (now < t || now - t < 5000) {
        " ⚠ SURE? "@
    } else {
        " "@ + trash + " Del "@
    }
}

/// The label of the delete button at time `now` (milliseconds).
pub fn delete_label(confirm: Option<u64>, now: u64, icons: &Icons) -> (r: String)
    ensures
        r@ == delete_label_view(confirm, now, icons.trash@),
{
    let armed = match confirm {
        Some(t) => now < t || now - t < 5000,
        None => false,
    };
    if armed {
        owned(" ⚠ SURE? ")
    } else {
        concat3(" ", icons.trash, " Del ")
    }
}

/// The rate shown beside a bandwidth graph: `rate` KiB/s in human units,
/// right-aligned in nine columns.
pub open spec fn rate_label_view(icon: Seq<char>, rate: nat) -> Seq<char> {
    " "@ + icon + " "@ + pad_left_view(human_view(rate * 1024), 9) + "/s "@
}

/// The rate shown beside a bandwidth graph.
pub fn rate_label(icon: &str, rate: u64) -> (r: String)
    requires
        rate * 1024 <= u64::MAX,
    ensures
        r@ == rate_label_view(icon@, rate as nat),
{
    let h = human(rate * 1024);
    let padded = pad_left(h.as_str(), 9);
    let head = cat4(" ", icon, " ", padded.as_str());
    concat2(head.as_str(), "/s ")
}

// ───────────────────────── notifications ─────────────────────────

/// Whether a notification made at `created` is still shown at `now`: for
/// five seconds (times in milliseconds).
pub open spec fn toast_fresh(created: u64, now: u64) -> bool {
    now < created || now - created < 5000
}

/// The boxes of the notifications still shown, newest first, stacked
/// upwards from the bottom-right corner of a `width` × `height` screen, as
/// (index, box) pairs; those that do not fit are left out, with all older
/// ones.
pub open spec fn toasts_view(ns: Seq<Notification>, k: nat, now: u64, width: nat, height: nat, y: nat) -> Seq<(nat, Rect)>
    decreases k,
{
    if k == 0 || k > ns.len() {
        Seq::empty()
    } else {
        let i = (k - 1) as nat;
        if !toast_fresh(ns[i as int].created_at, now) {
            toasts_view(ns, i, now, width, height, y)
        } else if height < y + 4 {
            Seq::empty()
        } else {
            let w = if width < 46 {
                if width < 2 {
                    0nat
                } else {
                    (width - 2) as nat
                }
            } else {
                44nat
            };
            let x = if width < w + 1 {
                0nat
            } else {
                (width - w - 1) as nat
            };
            let top = if height < y + 4 {
                0nat
            } else {
                (height - y - 4) as nat
            };
            seq![(i, Rect { x: x as u16, y: top as u16, width: w as u16, height: 3 })] + toasts_view(
                ns,
                i,
                now,
                width,
                height,
                y + 3,
            )
        }
    }
}

/// Where the notifications go on a `width` × `height` screen at `now`.
pub fn toast_boxes(ns: &Vec<Notification>, now: u64, width: u16, height: u16) -> (r: Vec<(usize, Rect)>)
    ensures
        r@.map_values(|p: (usize, Rect)| (p.0 as nat, p.1)) == toasts_view(
            ns@,
            ns@.len(),
            now,
            width as nat,
            height as nat,
            1,
        ),
{
    let w: u16 = if width < 46 {
        if width < 2 {
            0
        } else {
            width - 2
        }
    } else {
        44
    };
    let x: u16 = if width < w + 1 {
        0
    } else {
        width - w - 1
    };
    let mut r: Vec<(usize, Rect)> = Vec::new();
    let mut k: usize = ns.len();
    let mut y: u16 = 1;
    while k > 0
        invariant
            k <= ns@.len(),
            y >= 1,
            y as int <= height as int + 1,
            w == (if width < 46 { if width < 2 { 0 } else { width - 2 } } else { 44 }),
            x == (if width < w + 1 { 0 } else { width - w - 1 }),
            r@.map_values(|p: (usize, Rect)| (p.0 as nat, p.1)) + toasts_view(
                ns@,
                k as nat,
                now,
                width as nat,
                height as nat,
                y as nat,
            ) == toasts_view(ns@, ns@.len(), now, width as nat, height as nat, 1),
        ensures
            r@.map_values(|p: (usize, Rect)| (p.0 as nat, p.1)) == toasts_view(
                ns@,
                ns@.len(),
                now,
                width as nat,
                height as nat,
                1,
            ),
        decreases k,
    {
        let i = k - 1;
        let created = ns[i].created_at;
        let fresh = now < created || now - created < 5000;
        if !fresh {
            k = i;
        } else if (height as u32) < (y as u32) + 4 {
            assert(toasts_view(ns@, k as nat, now, width as nat, height as nat, y as nat) =~= Seq::empty());
            assert(r@.map_values(|p: (usize, Rect)| (p.0 as nat, p.1)) + Seq::<(nat, Rect)>::empty()
                =~= r@.map_values(|p: (usize, Rect)| (p.0 as nat, p.1)));
            break;
        } else {
            let top = height - y - 4;
            let ghost before = r@;
            r.push((i, Rect { x, y: top, width: w, height: 3 }));
            assert(r@.map_values(|p: (usize, Rect)| (p.0 as nat, p.1)) =~= before.map_values(
                |p: (usize, Rect)| (p.0 as nat, p.1),
            ).push((i as nat, Rect { x, y: top, width: w, height: 3 })));
            k = i;
            y = y + 3;
        }
    }
    r
}

} // verus!
