//! Renders the editable template files (deploy.sh, systemd, nginx, backup).

use vstd::prelude::*;
use vstd::string::*;
use crate::config::{
    retention_of, service_name_of, stack_exec_start, stack_label, stack_build_command, stack_short,
    ConfigView, ProjectConfig,
};
use crate::text::{
    chars_of, concat2, dec, decimal, extend_str, replace_all, replace_vec, string_of, trim,
    trim_str,
};

verus! {

// ───────────────────────── the renderer ─────────────────────────

/// Number of bytes that `c` takes in UTF-8.
pub open spec fn utf8_width(c: char) -> nat {
    let u = c as u32;
    if u < 0x80 {
        1
    } else if u < 0x800 {
        2
    } else if u < 0x10000 {
        3
    } else {
        4
    }
}

/// Number of bytes that `s` takes in UTF-8, which is what `str::len` counts.
pub open spec fn byte_len(s: Seq<char>) -> nat
    decreases s.len(),
{
    if s.len() == 0 {
        0
    } else {
        byte_len(s.drop_last()) + utf8_width(s.last())
    }
}

/// The placeholder that stands for `key` in a template: `{{key}}`.
pub open spec fn placeholder(key: Seq<char>) -> Seq<char> {
    seq!['{', '{'] + key + seq!['}', '}']
}

/// A template variable: its name and its value.
pub type VarView = (Seq<char>, Seq<char>);

/// The views of the variables handed to `render`.
pub open spec fn var_views(vars: Seq<(&str, &str)>) -> Seq<VarView> {
    vars.map_values(|p: (&str, &str)| (p.0@, p.1@))
}

/// The variables whose name is `l` bytes long, in their given order.
pub open spec fn with_len(vars: Seq<VarView>, l: nat) -> Seq<VarView>
    decreases vars.len(),
{
    if vars.len() == 0 {
        Seq::<VarView>::empty()
    } else {
        let p = with_len(vars.drop_last(), l);
        if byte_len(vars.last().0) == l {
            p.push(vars.last())
        } else {
            p
        }
    }
}

/// The variables whose name is at most `l` bytes long: the longest names
/// first, and names of one length in their given order.
pub open spec fn lengths_from(vars: Seq<VarView>, l: nat) -> Seq<VarView>
    decreases l,
{
    if l == 0 {
        with_len(vars, 0)
    } else {
        with_len(vars, l) + lengths_from(vars, (l - 1) as nat)
    }
}

/// The byte length of the longest variable name (0 when there is none).
pub open spec fn max_key_len(vars: Seq<VarView>) -> nat
    decreases vars.len(),
{
    if vars.len() == 0 {
        0
    } else {
        let m = max_key_len(vars.drop_last());
        let k = byte_len(vars.last().0);
        if k > m {
            k
        } else {
            m
        }
    }
}

/// All variables ordered by the byte length of their names, longest
/// first; variables whose names are equally long keep their given order
/// (a stable sort).
pub open spec fn longest_first(vars: Seq<VarView>) -> Seq<VarView> {
    lengths_from(vars, max_key_len(vars))
}

/// `s` after replacing, for each variable in turn, every `{{name}}` by
/// the variable's value.
pub open spec fn substitute(s: Seq<char>, subs: Seq<VarView>) -> Seq<char>
    decreases subs.len(),
{
    if subs.len() == 0 {
        s
    } else {
        replace_all(
            substitute(s, subs.drop_last()),
            placeholder(subs.last().0),
            subs.last().1,
        )
    }
}

/// What `render` gives: the template with its placeholders substituted,
/// the variables with the longest names first.
pub open spec fn render_view(tpl: Seq<char>, vars: Seq<VarView>) -> Seq<char> {
    substitute(tpl, longest_first(vars))
}

/// Substituting one list of variables and then another is substituting
/// their concatenation.
pub proof fn lemma_substitute_concat(s: Seq<char>, a: Seq<VarView>, b: Seq<VarView>)
    ensures
        substitute(s, a + b) == substitute(substitute(s, a), b),
    decreases b.len(),
{
    if b.len() == 0 {
        assert(a + b =~= a);
    } else {
        assert((a + b).drop_last() =~= a + b.drop_last());
        lemma_substitute_concat(s, a, b.drop_last());
    }
}

proof fn lemma_max_key_len(vars: Seq<VarView>, i: int)
    requires
        0 <= i < vars.len(),
    ensures
        byte_len(vars[i].0) <= max_key_len(vars),
    decreases vars.len(),
{
    if i < vars.len() - 1 {
        lemma_max_key_len(vars.drop_last(), i);
    }
}

/// Number of bytes that `c` takes in UTF-8.
fn char_width(c: char) -> (w: u128)
    ensures
        w == utf8_width(c),
{
    let u = c as u32;
    if u < 0x80 {
        1
    } else if u < 0x800 {
        2
    } else if u < 0x10000 {
        3
    } else {
        4
    }
}

/// Number of bytes that `s` takes in UTF-8.
fn utf8_len(s: &Vec<char>) -> (n: u128)
    ensures
        n == byte_len(s@),
{
    let mut n: u128 = 0;
    let mut i: usize = 0;
    while i < s.len()
        invariant
            i <= s.len(),
            n == byte_len(s@.take(i as int)),
            n <= 4 * i,
        decreases s.len() - i,
    {
        assert(s@.take(i + 1).drop_last() =~= s@.take(i as int));
        n = n + char_width(s[i]);
        i += 1;
    }
    assert(s@.take(s.len() as int) =~= s@);
    n
}

/// The characters of `{{key}}`.
fn placeholder_chars(key: &str) -> (p: Vec<char>)
    ensures
        p@ == placeholder(key@),
{
    let mut p: Vec<char> = Vec::new();
    p.push('{');
    p.push('{');
    extend_str(&mut p, key);
    p.push('}');
    p.push('}');
    assert(p@ =~= placeholder(key@));
    p
}

/// Renders a template: every `{{NAME}}` is replaced by the value given for
/// `NAME`. Longer names are substituted first, so that `{{DOMAIN_FILE}}`
/// is not broken by a substitution of `{{DOMAIN}}`.
pub fn render(tpl: &str, vars: &[(&str, &str)]) -> (out: String)
    ensures
        out@ == render_view(tpl@, var_views(vars@)),
{
    let ghost vv = var_views(vars@);
    let n = vars.len();
    let mut m: u128 = 0;
    let mut i: usize = 0;
    while i < n
        invariant
            i <= n == vars@.len() == vv.len(),
            vv == var_views(vars@),
            m == max_key_len(vv.take(i as int)),
        decreases n - i,
    {
        assert(vv.take(i + 1).drop_last() =~= vv.take(i as int));
        let key = chars_of(vars[i].0);
        let k = utf8_len(&key);
        if k > m {
            m = k;
        }
        i += 1;
    }
    assert(vv.take(n as int) =~= vv);
    let mut out = chars_of(tpl);
    let mut l: u128 = m;
    assert(render_view(tpl@, vv) == substitute(out@, lengths_from(vv, l as nat)));
    loop
        invariant_except_break
            render_view(tpl@, vv) == substitute(out@, lengths_from(vv, l as nat)),
        invariant
            n == vars@.len() == vv.len(),
            vv == var_views(vars@),
        ensures
            render_view(tpl@, vv) == out@,
        decreases l,
    {
        let ghost out0 = out@;
        let mut j: usize = 0;
        while j < n
            invariant
                j <= n == vars@.len() == vv.len(),
                vv == var_views(vars@),
                out@ == substitute(out0, with_len(vv.take(j as int), l as nat)),
            decreases n - j,
        {
            assert(vv.take(j + 1).drop_last() =~= vv.take(j as int));
            let (key, value) = vars[j];
            assert(vv.take(j + 1).last() == vv[j as int]);
            assert(vv[j as int] == (key@, value@));
            let kc = chars_of(key);
            let ghost prev = with_len(vv.take(j as int), l as nat);
            if utf8_len(&kc) == l {
                let pat = placeholder_chars(key);
                let rep = chars_of(value);
                out = replace_vec(&out, &pat, &rep);
                assert(with_len(vv.take(j + 1), l as nat) == prev.push(vv[j as int]));
                assert(prev.push(vv[j as int]).drop_last() =~= prev);
            } else {
                assert(with_len(vv.take(j + 1), l as nat) == prev);
            }
            j += 1;
        }
        assert(vv.take(n as int) =~= vv);
        assert(out@ == substitute(out0, with_len(vv, l as nat)));
        if l == 0 {
            break ;
        }
        proof {
            lemma_substitute_concat(out0, with_len(vv, l as nat), lengths_from(vv, (l - 1) as nat));
        }
        l = l - 1;
    }
    string_of(&out)
}

// ───────────────────────── the templates ─────────────────────────

/// deploy.sh: pulls both repositories, rebuilds and restarts the service.
pub const DEPLOY_TPL: &'static str = "#!/usr/bin/env bash
# deploy.sh for {{PROJECT}}: pull, build and restart.
# Edit freely; the \"My edits\" deploy keeps this file as it is.
set -euo pipefail

PROJECT=\"{{PROJECT}}\"
BRANCH=\"{{BRANCH}}\"
ROOT=\"{{ROOT}}\"
SERVICE=\"{{SERVICE}}\"
BACKEND_DIR=\"$ROOT/backend\"
FRONTEND_DIR=\"$ROOT/frontend\"

echo \"==> deploying $PROJECT (branch $BRANCH)\"

# backend
{{BACKEND_BLOCK}}

# frontend
{{FRONTEND_BLOCK}}

echo \"==> $PROJECT deployed\"
";

/// The systemd unit of the backend.
pub const SERVICE_TPL: &'static str = "[Unit]
Description={{PROJECT}} backend ({{STACK}})
After=network.target

[Service]
Type=simple
User={{USER}}
WorkingDirectory={{BACKEND_DIR}}
ExecStart={{EXEC_START}}
Restart=always
RestartSec=3
Environment=PORT={{PORT}}
Environment=DB_DIR={{DB_DIR}}
Environment=UPLOADS_DIR={{UPLOADS_DIR}}

[Install]
WantedBy=multi-user.target
";

/// The nginx virtual host: static frontend plus a proxied API prefix.
pub const NGINX_TPL: &'static str = "# nginx virtual host for {{PROJECT}}
server {
    listen 80;
    server_name {{DOMAIN}};

    root {{DIST}};
    index index.html;
    client_max_body_size {{MAX_BODY}};

    location {{PREFIX}} {
        proxy_pass http://127.0.0.1:{{PORT}};
        proxy_http_version 1.1;
        proxy_set_header Host $host;
        proxy_set_header X-Real-IP $remote_addr;
        proxy_set_header X-Forwarded-For $proxy_add_x_forwarded_for;
        proxy_set_header X-Forwarded-Proto $scheme;
{{WEBSOCKET_BLOCK}}
    }

    location / {
        try_files $uri $uri/ /index.html;
    }
}
";

/// backup.sh: a tar.gz snapshot of the data directories, with retention.
pub const BACKUP_TPL: &'static str = "#!/usr/bin/env bash
# backup.sh for {{PROJECT}}: snapshot of the data directories.
set -euo pipefail

BACKUP_DIR=\"{{BACKUP_DIR}}\"
STAMP=\"$(date +%Y%m%d-%H%M%S)\"
TMP=\"$(mktemp -d)\"
trap 'rm -rf \"$TMP\"' EXIT

mkdir -p \"$BACKUP_DIR\"
{{SECTIONS}}

ARCHIVE=\"$BACKUP_DIR/{{PROJECT}}-$STAMP.tar.gz\"
tar -czf \"$ARCHIVE\" -C \"$TMP\" .

# keep the newest {{RETENTION}} archives
ls -1t \"$BACKUP_DIR\"/{{PROJECT}}-*.tar.gz 2>/dev/null | tail -n +{{RETENTION_PLUS_1}} | xargs -r rm -f
echo \"backup written: $ARCHIVE\"
";

/// The backend part of deploy.sh when no backend repository is configured.
pub const NO_BACKEND: &'static str = "echo '==> no backend repo configured, skipping'";

/// The frontend part of deploy.sh when no frontend repository is configured.
pub const NO_FRONTEND: &'static str = "echo '==> no frontend repo configured, skipping'";

/// The backend part of deploy.sh, up to the stack's name.
pub const BACKEND_HEAD: &'static str = "if [ -d \"$BACKEND_DIR/.git\" ]; then
  cd \"$BACKEND_DIR\"
  git fetch --all --prune
  git checkout \"$BRANCH\"
  git pull origin \"$BRANCH\"
  echo \"==> building backend (";

/// The backend part of deploy.sh, between the stack's name and its build command.
pub const BACKEND_MID: &'static str = ") ...\"
  ";

/// The backend part of deploy.sh, after the build command.
pub const BACKEND_TAIL: &'static str = "
  sudo systemctl restart \"$SERVICE\" || true
else
  echo \"!! backend not cloned yet, skipping\"
fi";

/// The frontend part of deploy.sh: pull and build when already cloned.
pub const FRONTEND_BLOCK: &'static str = "if [ -d \"$FRONTEND_DIR/.git\" ]; then
  cd \"$FRONTEND_DIR\"
  git fetch --all --prune
  git checkout \"$BRANCH\"
  git pull origin \"$BRANCH\"
  if [ -f package.json ]; then
    echo \"==> building frontend ...\"
    npm ci
    npm run build --if-present
  fi
else
  echo \"!! frontend not cloned yet, skipping\"
fi";

/// The proxy headers that let WebSocket connections through nginx.
pub const WEBSOCKET_HEADERS: &'static str = "        proxy_set_header Upgrade $http_upgrade;
        proxy_set_header Connection \"upgrade\";";

/// The start of a backup section, up to the directory it copies.
pub const DB_HEAD: &'static str = "if [ -d \"";

/// The database section of backup.sh, between the two mentions of its directory.
pub const DB_MID: &'static str = "\" ]; then
  echo \"==> backing up database directory\"
  mkdir -p \"$TMP/db\"
  cp -a \"";

/// The end of the database section of backup.sh.
pub const DB_TAIL: &'static str = "/.\" \"$TMP/db/\"
fi
";

/// The uploads section of backup.sh, between the two mentions of its directory.
pub const UPLOADS_MID: &'static str = "\" ]; then
  echo \"==> backing up uploads directory\"
  mkdir -p \"$TMP/uploads\"
  cp -a \"";

/// The end of the uploads section of backup.sh.
pub const UPLOADS_TAIL: &'static str = "/.\" \"$TMP/uploads/\"
fi
";

/// The backup sections when neither directory is selected.
pub const NOTHING_TO_BACK_UP: &'static str = "echo 'nothing selected for backup'";

// ───────────────────────── deploy.sh ─────────────────────────

/// The backend part of deploy.sh.
pub open spec fn backend_block(c: ConfigView) -> Seq<char> {
    if c.backend_repo.len() == 0 {
        NO_BACKEND@
    } else {
        BACKEND_HEAD@ + stack_label(c.stack) + BACKEND_MID@ + stack_build_command(c.stack)
            + BACKEND_TAIL@
    }
}

/// The frontend part of deploy.sh.
pub open spec fn frontend_block(c: ConfigView) -> Seq<char> {
    if c.frontend_repo.len() == 0 {
        NO_FRONTEND@
    } else {
        FRONTEND_BLOCK@
    }
}

/// The variables of deploy.sh.
pub open spec fn deploy_vars(c: ConfigView) -> Seq<VarView> {
    seq![
        ("PROJECT"@, c.project_name),
        ("BRANCH"@, c.branch),
        ("ROOT"@, c.target_dir),
        ("SERVICE"@, service_name_of(c)),
        ("BACKEND_BLOCK"@, backend_block(c)),
        ("FRONTEND_BLOCK"@, frontend_block(c)),
    ]
}

/// The staged deploy.sh of a project.
pub fn deploy_sh(cfg: &ProjectConfig) -> (r: String)
    ensures
        r@ == render_view(DEPLOY_TPL@, deploy_vars(cfg@)),
{
    let backend: String = if cfg.backend_repo.as_str().is_empty() {
        String::from_str(NO_BACKEND)
    } else {
        let mut v: Vec<char> = chars_of(BACKEND_HEAD);
        extend_str(&mut v, cfg.stack.label());
        extend_str(&mut v, BACKEND_MID);
        extend_str(&mut v, cfg.stack.build_command());
        extend_str(&mut v, BACKEND_TAIL);
        string_of(&v)
    };
    let frontend: String = if cfg.frontend_repo.as_str().is_empty() {
        String::from_str(NO_FRONTEND)
    } else {
        String::from_str(FRONTEND_BLOCK)
    };
    let service = cfg.service_name();
    let vars = vec![
        ("PROJECT", cfg.project_name.as_str()),
        ("BRANCH", cfg.branch.as_str()),
        ("ROOT", cfg.target_dir.as_str()),
        ("SERVICE", service.as_str()),
        ("BACKEND_BLOCK", backend.as_str()),
        ("FRONTEND_BLOCK", frontend.as_str()),
    ];
    assert(var_views(vars@) =~= deploy_vars(cfg@));
    render(DEPLOY_TPL, vars.as_slice())
}

// ───────────────────────── the systemd unit ─────────────────────────

/// The user the service runs as: the configured one, or `root` when blank.
pub open spec fn service_user_of(c: ConfigView) -> Seq<char> {
    if trim(c.service_user).len() == 0 {
        "root"@
    } else {
        trim(c.service_user)
    }
}

/// Where the backend is checked out: `<target>/backend`.
pub open spec fn backend_dir_of(c: ConfigView) -> Seq<char> {
    c.target_dir + "/backend"@
}

/// The variables of the systemd unit.
pub open spec fn service_vars(c: ConfigView) -> Seq<VarView> {
    seq![
        ("PROJECT"@, c.project_name),
        ("STACK"@, stack_short(c.stack)),
        ("USER"@, service_user_of(c)),
        ("BACKEND_DIR"@, backend_dir_of(c)),
        ("PORT"@, c.backend_port),
        ("DB_DIR"@, c.db_dir),
        ("UPLOADS_DIR"@, c.uploads_dir),
        ("EXEC_START"@, stack_exec_start(c.stack, backend_dir_of(c), c.entry_point)),
    ]
}

/// The user the service runs as.
pub fn service_user(cfg: &ProjectConfig) -> (r: String)
    ensures
        r@ == service_user_of(cfg@),
{
    let t = trim_str(cfg.service_user.as_str());
    if t.as_str().is_empty() {
        String::from_str("root")
    } else {
        t
    }
}

/// The staged systemd unit of a project's backend.
pub fn backend_service(cfg: &ProjectConfig) -> (r: String)
    ensures
        r@ == render_view(SERVICE_TPL@, service_vars(cfg@)),
{
    let be_dir = concat2(cfg.target_dir.as_str(), "/backend");
    let user = service_user(cfg);
    let exec = cfg.stack.exec_start(be_dir.as_str(), cfg.entry_point.as_str());
    let vars = vec![
        ("PROJECT", cfg.project_name.as_str()),
        ("STACK", cfg.stack.short()),
        ("USER", user.as_str()),
        ("BACKEND_DIR", be_dir.as_str()),
        ("PORT", cfg.backend_port.as_str()),
        ("DB_DIR", cfg.db_dir.as_str()),
        ("UPLOADS_DIR", cfg.uploads_dir.as_str()),
        ("EXEC_START", exec.as_str()),
    ];
    assert(var_views(vars@) =~= service_vars(cfg@));
    render(SERVICE_TPL, vars.as_slice())
}

// ───────────────────────── nginx ─────────────────────────

/// The variables of the nginx virtual host.
pub open spec fn nginx_vars(c: ConfigView) -> Seq<VarView> {
    seq![
        ("PROJECT"@, c.project_name),
        ("DOMAIN"@, c.domain),
        ("DIST"@, c.frontend_dist),
        ("MAX_BODY"@, c.max_body_size),
        ("PREFIX"@, c.api_prefix),
        ("PORT"@, c.backend_port),
        ("WEBSOCKET_BLOCK"@, if c.websocket { WEBSOCKET_HEADERS@ } else { ""@ }),
    ]
}

/// The staged nginx site of a project.
pub fn nginx_conf(cfg: &ProjectConfig) -> (r: String)
    ensures
        r@ == render_view(NGINX_TPL@, nginx_vars(cfg@)),
{
    let ws: &str = if cfg.websocket {
        WEBSOCKET_HEADERS
    } else {
        ""
    };
    let vars = vec![
        ("PROJECT", cfg.project_name.as_str()),
        ("DOMAIN", cfg.domain.as_str()),
        ("DIST", cfg.frontend_dist.as_str()),
        ("MAX_BODY", cfg.max_body_size.as_str()),
        ("PREFIX", cfg.api_prefix.as_str()),
        ("PORT", cfg.backend_port.as_str()),
        ("WEBSOCKET_BLOCK", ws),
    ];
    assert(var_views(vars@) =~= nginx_vars(cfg@));
    render(NGINX_TPL, vars.as_slice())
}

// ───────────────────────── backup.sh ─────────────────────────

/// The copy steps of backup.sh: the database directory and the uploads
/// directory, each when selected and set.
pub open spec fn backup_sections(c: ConfigView) -> Seq<char> {
    let db = if c.backup_db && c.db_dir.len() > 0 {
        DB_HEAD@ + c.db_dir + DB_MID@ + c.db_dir + DB_TAIL@
    } else {
        Seq::<char>::empty()
    };
    let up = if c.backup_uploads && c.uploads_dir.len() > 0 {
        DB_HEAD@ + c.uploads_dir + UPLOADS_MID@ + c.uploads_dir + UPLOADS_TAIL@
    } else {
        Seq::<char>::empty()
    };
    if (db + up).len() == 0 {
        NOTHING_TO_BACK_UP@
    } else {
        db + up
    }
}

/// The variables of backup.sh.
pub open spec fn backup_vars(c: ConfigView) -> Seq<VarView> {
    seq![
        ("PROJECT"@, c.project_name),
        ("BACKUP_DIR"@, c.backup_dir),
        ("SECTIONS"@, backup_sections(c)),
        ("RETENTION"@, dec(retention_of(c))),
        ("RETENTION_PLUS_1"@, dec(retention_of(c) + 1)),
    ]
}

/// The uploads section of backup.sh for the directory `dir`.
pub open spec fn uploads_section(dir: Seq<char>) -> Seq<char> {
    DB_HEAD@ + dir + UPLOADS_MID@ + dir + UPLOADS_TAIL@
}

/// The uploads directory is backed up exactly when its toggle is on and
/// it is set, whatever the database toggle says: then the sections end
/// with its section; otherwise the uploads directory makes no difference
/// to the sections. The same holds of the database directory and its
/// toggle. The sections are what backup.sh receives.
pub proof fn lemma_backup_sections_follow_toggles(c: ConfigView, other: Seq<char>)
    ensures
        c.backup_uploads && c.uploads_dir.len() > 0 ==> ({
            let s = backup_sections(c);
            let u = uploads_section(c.uploads_dir);
            s.len() >= u.len() && s.subrange(s.len() - u.len(), s.len() as int) == u
        }),
        !(c.backup_uploads && c.uploads_dir.len() > 0) ==> backup_sections(c) == backup_sections(
            ConfigView { uploads_dir: other, backup_uploads: false, ..c },
        ),
        !(c.backup_db && c.db_dir.len() > 0) ==> backup_sections(c) == backup_sections(
            ConfigView { db_dir: other, backup_db: false, ..c },
        ),
        backup_vars(c).contains(("SECTIONS"@, backup_sections(c))),
{
    let u = uploads_section(c.uploads_dir);
    let db = if c.backup_db && c.db_dir.len() > 0 {
        DB_HEAD@ + c.db_dir + DB_MID@ + c.db_dir + DB_TAIL@
    } else {
        Seq::<char>::empty()
    };
    if c.backup_uploads && c.uploads_dir.len() > 0 {
        assert(u.len() > 0) by {
            assert(u.len() >= c.uploads_dir.len());
        }
        assert(backup_sections(c) == db + u);
        assert((db + u).subrange(db.len() as int, (db + u).len() as int) =~= u);
    }
    assert(backup_vars(c)[2] == ("SECTIONS"@, backup_sections(c)));
}

/// The staged backup.sh of a project.
pub fn backup_sh(cfg: &ProjectConfig) -> (r: String)
    requires
        retention_of(cfg@) < 0xffff_ffff,
    ensures
        r@ == render_view(BACKUP_TPL@, backup_vars(cfg@)),
{
    let mut sections: Vec<char> = Vec::new();
    if cfg.backup_db && !cfg.db_dir.as_str().is_empty() {
        extend_str(&mut sections, DB_HEAD);
        extend_str(&mut sections, cfg.db_dir.as_str());
        extend_str(&mut sections, DB_MID);
        extend_str(&mut sections, cfg.db_dir.as_str());
        extend_str(&mut sections, DB_TAIL);
    }
    let ghost db = sections@;
    if cfg.backup_uploads && !cfg.uploads_dir.as_str().is_empty() {
        extend_str(&mut sections, DB_HEAD);
        extend_str(&mut sections, cfg.uploads_dir.as_str());
        extend_str(&mut sections, UPLOADS_MID);
        extend_str(&mut sections, cfg.uploads_dir.as_str());
        extend_str(&mut sections, UPLOADS_TAIL);
    }
    let sections_text: String = if sections.len() == 0 {
        String::from_str(NOTHING_TO_BACK_UP)
    } else {
        string_of(&sections)
    };
    assert(sections_text@ == backup_sections(cfg@));
    let retention = cfg.retention_u32();
    let keep = decimal(retention as u64);
    let keep_plus_1 = decimal(retention as u64 + 1);
    let vars = vec![
        ("PROJECT", cfg.project_name.as_str()),
        ("BACKUP_DIR", cfg.backup_dir.as_str()),
        ("SECTIONS", sections_text.as_str()),
        ("RETENTION", keep.as_str()),
        ("RETENTION_PLUS_1", keep_plus_1.as_str()),
    ];
    assert(var_views(vars@) =~= backup_vars(cfg@));
    render(BACKUP_TPL, vars.as_slice())
}

} // verus!
