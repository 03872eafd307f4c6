//! Project configuration model: backend stacks, the project record, its
//! derived names, and validation.

use vstd::prelude::*;
use vstd::string::*;
use crate::text::{
    chars_of, concat2, concat3, parse_unsigned, parse_unsigned_str, push_char, split_char, split_vec,
    string_of, trim, trim_str, trim_vec, views,
};

verus! {

// ───────────────────────── backend stacks ─────────────────────────

/// The language and toolchain of a project's backend.
#[derive(Debug, Clone, Copy, PartialEq, Eq, Structural)]
pub enum BackendStack {
    NodeJs,
    TypeScript,
    Rust,
    Go,
    Python,
}

/// Position of a stack in the cycle NodeJs → TypeScript → Rust → Go → Python.
pub open spec fn stack_index(s: BackendStack) -> nat {
    match s {
        BackendStack::NodeJs => 0,
        BackendStack::TypeScript => 1,
        BackendStack::Rust => 2,
        BackendStack::Go => 3,
        BackendStack::Python => 4,
    }
}

/// The stack at position `i` of the cycle (`i < 5`).
pub open spec fn stack_at(i: nat) -> BackendStack {
    if i == 0 {
        BackendStack::NodeJs
    } else if i == 1 {
        BackendStack::TypeScript
    } else if i == 2 {
        BackendStack::Rust
    } else if i == 3 {
        BackendStack::Go
    } else {
        BackendStack::Python
    }
}

/// The name of a stack as the forms show it.
pub open spec fn stack_label(s: BackendStack) -> Seq<char> {
    match s {
        BackendStack::NodeJs => "Node.js (JavaScript)"@,
        BackendStack::TypeScript => "Node.js (TypeScript)"@,
        BackendStack::Rust => "Rust (cargo)"@,
        BackendStack::Go => "Go (go build)"@,
        BackendStack::Python => "Python 3"@,
    }
}

/// The short name of a stack, for lists and the systemd description.
pub open spec fn stack_short(s: BackendStack) -> Seq<char> {
    match s {
        BackendStack::NodeJs => "node"@,
        BackendStack::TypeScript => "ts"@,
        BackendStack::Rust => "rust"@,
        BackendStack::Go => "go"@,
        BackendStack::Python => "py"@,
    }
}

/// The command that builds a backend of this stack.
pub open spec fn stack_build_command(s: BackendStack) -> Seq<char> {
    match s {
        BackendStack::NodeJs => "npm ci --omit=dev || npm install --omit=dev"@,
        BackendStack::TypeScript => "npm ci && npm run build"@,
        BackendStack::Rust => "cargo build --release"@,
        BackendStack::Go => "go build -o app ."@,
        BackendStack::Python => "python3 -m pip install -r requirements.txt"@,
    }
}

/// The entry point used when the form leaves it blank.
pub open spec fn stack_default_entry(s: BackendStack) -> Seq<char> {
    match s {
        BackendStack::NodeJs => "server.js"@,
        BackendStack::TypeScript => "main.js"@,
        BackendStack::Rust => "app"@,
        BackendStack::Go => "app"@,
        BackendStack::Python => "main.py"@,
    }
}

/// The `ExecStart` command line of the systemd unit for a backend living
/// in `dir`; a blank `entry` stands for the stack's default entry point.
pub open spec fn stack_exec_start(s: BackendStack, dir: Seq<char>, entry: Seq<char>) -> Seq<char> {
    let e = if trim(entry).len() == 0 {
        stack_default_entry(s)
    } else {
        trim(entry)
    };
    match s {
        BackendStack::NodeJs => "/usr/bin/env node "@ + dir + "/"@ + e,
        BackendStack::TypeScript => "/usr/bin/env node "@ + dir + "/dist/"@ + e,
        BackendStack::Rust => dir + "/target/release/"@ + e,
        BackendStack::Go => dir + "/"@ + e,
        BackendStack::Python => "/usr/bin/env python3 "@ + dir + "/"@ + e,
    }
}

impl BackendStack {
    /// Position of this stack in the cycle of stacks.
    pub fn index(self) -> (i: usize)
        ensures
            i == stack_index(self),
    {
        match self {
            BackendStack::NodeJs => 0,
            BackendStack::TypeScript => 1,
            BackendStack::Rust => 2,
            BackendStack::Go => 3,
            BackendStack::Python => 4,
        }
    }

    /// The stack at position `i` of the cycle.
    pub fn at(i: usize) -> (s: BackendStack)
        requires
            i < 5,
        ensures
            s == stack_at(i as nat),
            stack_index(s) == i,
    {
        if i == 0 {
            BackendStack::NodeJs
        } else if i == 1 {
            BackendStack::TypeScript
        } else if i == 2 {
            BackendStack::Rust
        } else if i == 3 {
            BackendStack::Go
        } else {
            BackendStack::Python
        }
    }

    /// The name of the stack.
    pub fn label(self) -> (r: &'static str)
        ensures
            r@ == stack_label(self),
    {
        match self {
            BackendStack::NodeJs => "Node.js (JavaScript)",
            BackendStack::TypeScript => "Node.js (TypeScript)",
            BackendStack::Rust => "Rust (cargo)",
            BackendStack::Go => "Go (go build)",
            BackendStack::Python => "Python 3",
        }
    }

    /// The short name of the stack.
    pub fn short(self) -> (r: &'static str)
        ensures
            r@ == stack_short(self),
    {
        match self {
            BackendStack::NodeJs => "node",
            BackendStack::TypeScript => "ts",
            BackendStack::Rust => "rust",
            BackendStack::Go => "go",
            BackendStack::Python => "py",
        }
    }

    /// The stack after this one in the cycle (Python wraps to NodeJs).
    pub fn next(self) -> (r: BackendStack)
        ensures
            r == stack_at((stack_index(self) + 1) % 5),
    {
        BackendStack::at((self.index() + 1) % 5)
    }

    /// The stack before this one in the cycle (NodeJs wraps to Python).
    pub fn prev(self) -> (r: BackendStack)
        ensures
            r == stack_at((stack_index(self) + 4) % 5),
    {
        BackendStack::at((self.index() + 4) % 5)
    }

    /// Build command — written into deploy.sh and run on first deploy.
    pub fn build_command(self) -> (r: &'static str)
        ensures
            r@ == stack_build_command(self),
    {
        match self {
            BackendStack::NodeJs => "npm ci --omit=dev || npm install --omit=dev",
            BackendStack::TypeScript => "npm ci && npm run build",
            BackendStack::Rust => "cargo build --release",
            BackendStack::Go => "go build -o app .",
            BackendStack::Python => "python3 -m pip install -r requirements.txt",
        }
    }

    /// The entry point used when none is given.
    pub fn default_entry(self) -> (r: &'static str)
        ensures
            r@ == stack_default_entry(self),
    {
        match self {
            BackendStack::NodeJs => "server.js",
            BackendStack::TypeScript => "main.js",
            BackendStack::Rust => "app",
            BackendStack::Go => "app",
            BackendStack::Python => "main.py",
        }
    }

    /// ExecStart for the systemd unit.
    pub fn exec_start(self, dir: &str, entry: &str) -> (r: String)
        ensures
            r@ == stack_exec_start(self, dir@, entry@),
    {
        let t = trim_str(entry);
        let e: String = if t.as_str().is_empty() {
            String::from_str(self.default_entry())
        } else {
            t
        };
        match self {
            BackendStack::NodeJs => concat3(concat2("/usr/bin/env node ", dir).as_str(), "/", e.as_str()),
            BackendStack::TypeScript => concat3(concat2("/usr/bin/env node ", dir).as_str(), "/dist/", e.as_str()),
            BackendStack::Rust => concat3(dir, "/target/release/", e.as_str()),
            BackendStack::Go => concat3(dir, "/", e.as_str()),
            BackendStack::Python => concat3(concat2("/usr/bin/env python3 ", dir).as_str(), "/", e.as_str()),
        }
    }
}

/// Stepping forward then back through the stacks returns to the start.
pub proof fn lemma_stack_prev_next(s: BackendStack)
    ensures
        stack_at((stack_index(stack_at((stack_index(s) + 1) % 5)) + 4) % 5) == s,
        stack_at((stack_index(stack_at((stack_index(s) + 4) % 5)) + 1) % 5) == s,
{
}

// ───────────────────────── the project record ─────────────────────────

/// Everything the deployer knows about one project.
pub struct ProjectConfig {
    // repos & stack
    pub project_name: String,
    pub stack: BackendStack,
    pub entry_point: String,
    pub backend_repo: String,
    pub frontend_repo: String,
    pub branch: String,
    pub service_user: String,
    // directories
    pub target_dir: String,
    pub db_dir: String,
    pub uploads_dir: String,
    pub backup_dir: String,
    // ports & firewall
    pub backend_port: String,
    pub extra_ports: String,
    pub health_path: String,
    pub ufw_backend: bool,
    pub ufw_web: bool,
    // nginx
    pub domain: String,
    pub cert_email: String,
    pub api_prefix: String,
    pub frontend_dist: String,
    pub max_body_size: String,
    pub websocket: bool,
    // backup
    pub backup_enabled: bool,
    pub backup_retention: String,
    pub backup_db: bool,
    pub backup_uploads: bool,
    pub backup_cron: bool,
}

/// A project record with its texts as character sequences.
pub struct ConfigView {
    pub project_name: Seq<char>,
    pub stack: BackendStack,
    pub entry_point: Seq<char>,
    pub backend_repo: Seq<char>,
    pub frontend_repo: Seq<char>,
    pub branch: Seq<char>,
    pub service_user: Seq<char>,
    pub target_dir: Seq<char>,
    pub db_dir: Seq<char>,
    pub uploads_dir: Seq<char>,
    pub backup_dir: Seq<char>,
    pub backend_port: Seq<char>,
    pub extra_ports: Seq<char>,
    pub health_path: Seq<char>,
    pub ufw_backend: bool,
    pub ufw_web: bool,
    pub domain: Seq<char>,
    pub cert_email: Seq<char>,
    pub api_prefix: Seq<char>,
    pub frontend_dist: Seq<char>,
    pub max_body_size: Seq<char>,
    pub websocket: bool,
    pub backup_enabled: bool,
    pub backup_retention: Seq<char>,
    pub backup_db: bool,
    pub backup_uploads: bool,
    pub backup_cron: bool,
}

impl View for ProjectConfig {
    type V = ConfigView;

    open spec fn view(&self) -> ConfigView {
        ConfigView {
            project_name: self.project_name@,
            stack: self.stack,
            entry_point: self.entry_point@,
            backend_repo: self.backend_repo@,
            frontend_repo: self.frontend_repo@,
            branch: self.branch@,
            service_user: self.service_user@,
            target_dir: self.target_dir@,
            db_dir: self.db_dir@,
            uploads_dir: self.uploads_dir@,
            backup_dir: self.backup_dir@,
            backend_port: self.backend_port@,
            extra_ports: self.extra_ports@,
            health_path: self.health_path@,
            ufw_backend: self.ufw_backend,
            ufw_web: self.ufw_web,
            domain: self.domain@,
            cert_email: self.cert_email@,
            api_prefix: self.api_prefix@,
            frontend_dist: self.frontend_dist@,
            max_body_size: self.max_body_size@,
            websocket: self.websocket,
            backup_enabled: self.backup_enabled,
            backup_retention: self.backup_retention@,
            backup_db: self.backup_db,
            backup_uploads: self.backup_uploads,
            backup_cron: self.backup_cron,
        }
    }
}

/// The record a new project starts from.
pub open spec fn default_config() -> ConfigView {
    ConfigView {
        project_name: Seq::empty(),
        stack: BackendStack::NodeJs,
        entry_point: Seq::empty(),
        backend_repo: Seq::empty(),
        frontend_repo: Seq::empty(),
        branch: "production"@,
        service_user: Seq::empty(),
        target_dir: Seq::empty(),
        db_dir: Seq::empty(),
        uploads_dir: Seq::empty(),
        backup_dir: Seq::empty(),
        backend_port: Seq::empty(),
        extra_ports: Seq::empty(),
        health_path: "/health"@,
        ufw_backend: true,
        ufw_web: true,
        domain: Seq::empty(),
        cert_email: Seq::empty(),
        api_prefix: "/api/"@,
        frontend_dist: Seq::empty(),
        max_body_size: "25m"@,
        websocket: true,
        backup_enabled: true,
        backup_retention: "10"@,
        backup_db: true,
        backup_uploads: true,
        backup_cron: true,
    }
}

impl Default for ProjectConfig {
    fn default() -> (r: Self)
        ensures
            r@ == default_config(),
    {
        ProjectConfig {
            project_name: String::new(),
            stack: BackendStack::NodeJs,
            entry_point: String::new(),
            backend_repo: String::new(),
            frontend_repo: String::new(),
            branch: String::from_str("production"),
            service_user: String::new(),
            target_dir: String::new(),
            db_dir: String::new(),
            uploads_dir: String::new(),
            backup_dir: String::new(),
            backend_port: String::new(),
            extra_ports: String::new(),
            health_path: String::from_str("/health"),
            ufw_backend: true,
            ufw_web: true,
            domain: String::new(),
            cert_email: String::new(),
            api_prefix: String::from_str("/api/"),
            frontend_dist: String::new(),
            max_body_size: String::from_str("25m"),
            websocket: true,
            backup_enabled: true,
            backup_retention: String::from_str("10"),
            backup_db: true,
            backup_uploads: true,
            backup_cron: true,
        }
    }
}

impl Clone for ProjectConfig {
    fn clone(&self) -> (r: Self)
        ensures
            r@ == self@,
    {
        ProjectConfig {
            project_name: self.project_name.clone(),
            stack: self.stack,
            entry_point: self.entry_point.clone(),
            backend_repo: self.backend_repo.clone(),
            frontend_repo: self.frontend_repo.clone(),
            branch: self.branch.clone(),
            service_user: self.service_user.clone(),
            target_dir: self.target_dir.clone(),
            db_dir: self.db_dir.clone(),
            uploads_dir: self.uploads_dir.clone(),
            backup_dir: self.backup_dir.clone(),
            backend_port: self.backend_port.clone(),
            extra_ports: self.extra_ports.clone(),
            health_path: self.health_path.clone(),
            ufw_backend: self.ufw_backend,
            ufw_web: self.ufw_web,
            domain: self.domain.clone(),
            cert_email: self.cert_email.clone(),
            api_prefix: self.api_prefix.clone(),
            frontend_dist: self.frontend_dist.clone(),
            max_body_size: self.max_body_size.clone(),
            websocket: self.websocket,
            backup_enabled: self.backup_enabled,
            backup_retention: self.backup_retention.clone(),
            backup_db: self.backup_db,
            backup_uploads: self.backup_uploads,
            backup_cron: self.backup_cron,
        }
    }
}

/// Name of the project's systemd service: `<project>-backend`.
pub open spec fn service_name_of(c: ConfigView) -> Seq<char> {
    c.project_name + "-backend"@
}

/// Directory where the editable files are staged: `<target>/.vps-deployer`.
pub open spec fn staging_dir_of(c: ConfigView) -> Seq<char> {
    c.target_dir + "/.vps-deployer"@
}

/// Number of backups to keep: the retention text as a `u32`, 10 when it
/// does not parse, and never less than 1.
pub open spec fn retention_of(c: ConfigView) -> nat {
    let n = match parse_unsigned(trim(c.backup_retention), 0xffff_ffff) {
        Some(n) => n,
        None => 10,
    };
    if n < 1 {
        1
    } else {
        n
    }
}

/// What `validate` answers: the first rule that the record breaks.
pub open spec fn validation_of(c: ConfigView) -> Result<(), Seq<char>> {
    if trim(c.project_name).len() == 0 {
        Err("Project Name is required"@)
    } else if trim(c.target_dir).len() == 0 {
        Err("Deploy Directory is required"@)
    } else if parse_unsigned(c.backend_port, 0xffff) is None {
        Err("Backend Port must be a valid number"@)
    } else if c.backend_repo.len() == 0 && c.frontend_repo.len() == 0 {
        Err("Provide at least one repository (backend or frontend)"@)
    } else {
        Ok(())
    }
}

impl ProjectConfig {
    /// The systemd unit of the backend.
    pub fn service_name(&self) -> (r: String)
        ensures
            r@ == service_name_of(self@),
    {
        concat2(self.project_name.as_str(), "-backend")
    }

    /// Where the editable files are staged.
    pub fn staging_dir(&self) -> (r: String)
        ensures
            r@ == staging_dir_of(self@),
    {
        concat2(self.target_dir.as_str(), "/.vps-deployer")
    }

    /// The number of backups to keep.
    pub fn retention_u32(&self) -> (r: u32)
        ensures
            r == retention_of(self@),
            r >= 1,
    {
        let t = trim_str(self.backup_retention.as_str());
        let n: u64 = match parse_unsigned_str(t.as_str(), 0xffff_ffff) {
            Some(n) => n,
            None => 10,
        };
        if n < 1 {
            1
        } else {
            n as u32
        }
    }
}

/// Checks that a project record can be deployed.
pub fn validate(cfg: &ProjectConfig) -> (r: Result<(), String>)
    ensures
        match (r, validation_of(cfg@)) {
            (Ok(()), Ok(())) => true,
            (Err(e), Err(m)) => e@ == m,
            _ => false,
        },
{
    if trim_str(cfg.project_name.as_str()).as_str().is_empty() {
        return Err(String::from_str("Project Name is required"));
    }
    if trim_str(cfg.target_dir.as_str()).as_str().is_empty() {
        return Err(String::from_str("Deploy Directory is required"));
    }
    if parse_unsigned_str(cfg.backend_port.as_str(), 0xffff).is_none() {
        return Err(String::from_str("Backend Port must be a valid number"));
    }
    if cfg.backend_repo.as_str().is_empty() && cfg.frontend_repo.as_str().is_empty() {
        return Err(String::from_str("Provide at least one repository (backend or frontend)"));
    }
    Ok(())
}

// ───────────────────────── file names ─────────────────────────

/// Whether `c` is alphabetic or numeric in Unicode, as
/// `char::is_alphanumeric` decides.
pub uninterp spec fn char_is_alphanumeric(c: char) -> bool;

/// Whether `c` is an ASCII letter or digit.
pub open spec fn is_ascii_alnum(c: char) -> bool {
    ('0' <= c && c <= '9') || ('A' <= c && c <= 'Z') || ('a' <= c && c <= 'z')
}

/// `char::is_alphanumeric` from std. Its answer comes from Unicode tables,
/// which are not restated here: the contract names the result, and says
/// only that among ASCII characters exactly the letters and digits are
/// alphanumeric.
#[verifier::external_body]
fn is_alphanumeric(c: char) -> (b: bool)
    ensures
        b == char_is_alphanumeric(c),
        (c as u32) < 128 ==> (b <==> is_ascii_alnum(c)),
{
    c.is_alphanumeric()
}

/// Whether `c` may stand in a project file name as it is, given whether
/// it is alphanumeric.
pub open spec fn keeps_char(c: char, alphanumeric: bool) -> bool {
    alphanumeric || c == '-' || c == '_' || c == '.'
}

/// `name` with each character kept where it may stand in a file name and
/// replaced by `_` elsewhere, given which characters are alphanumeric.
pub open spec fn sanitized_with(name: Seq<char>, alphanumeric: Seq<bool>) -> Seq<char> {
    Seq::new(name.len(), |i: int| if keeps_char(name[i], alphanumeric[i]) { name[i] } else { '_' })
}

/// The alphanumeric flags of the characters of `name`.
pub open spec fn alphanumeric_flags(name: Seq<char>) -> Seq<bool> {
    name.map_values(|c: char| char_is_alphanumeric(c))
}

/// `name` with every character that may not stand in a file name
/// replaced by `_`, given for each character whether it is alphanumeric.
pub fn sanitize_with(name: &str, alphanumeric: &Vec<bool>) -> (r: String)
    requires
        alphanumeric@.len() == name@.len(),
    ensures
        r@ == sanitized_with(name@, alphanumeric@),
{
    let v = chars_of(name);
    let mut out = String::new();
    let mut i: usize = 0;
    while i < v.len()
        invariant
            i <= v.len() == alphanumeric@.len(),
            v@ == name@,
            out@ == sanitized_with(v@.take(i as int), alphanumeric@.take(i as int)),
        decreases v.len() - i,
    {
        let c = v[i];
        let d = if alphanumeric[i] || c == '-' || c == '_' || c == '.' {
            c
        } else {
            '_'
        };
        push_char(&mut out, d);
        assert(sanitized_with(v@.take(i + 1), alphanumeric@.take(i + 1)) =~= sanitized_with(
            v@.take(i as int),
            alphanumeric@.take(i as int),
        ).push(d));
        i += 1;
    }
    assert(v@.take(v.len() as int) =~= v@);
    assert(alphanumeric@.take(v.len() as int) =~= alphanumeric@);
    out
}

/// Turns a project name into a safe file-name stem: among ASCII
/// characters only letters, digits, `-`, `_` and `.` remain, so no path
/// separator or space does.
pub fn sanitize(name: &str) -> (r: String)
    ensures
        r@ == sanitized_with(name@, alphanumeric_flags(name@)),
        forall|i: int|
            0 <= i < r@.len() && (#[trigger] r@[i] as u32) < 128 ==> is_ascii_alnum(r@[i]) || r@[i]
                == '-' || r@[i] == '_' || r@[i] == '.',
        r@.len() == name@.len(),
        forall|i: int|
            0 <= i < name@.len() && (#[trigger] name@[i] as u32) < 128 ==> (r@[i] == (if is_ascii_alnum(
                name@[i],
            ) || name@[i] == '-' || name@[i] == '_' || name@[i] == '.' {
                name@[i]
            } else {
                '_'
            })),
{
    let v = chars_of(name);
    let mut flags: Vec<bool> = Vec::new();
    let mut i: usize = 0;
    while i < v.len()
        invariant
            i <= v.len(),
            v@ == name@,
            flags@ == alphanumeric_flags(v@.take(i as int)),
            forall|j: int|
                0 <= j < i && (#[trigger] v@[j] as u32) < 128 ==> (flags@[j] <==> is_ascii_alnum(v@[j])),
        decreases v.len() - i,
    {
        flags.push(is_alphanumeric(v[i]));
        assert(alphanumeric_flags(v@.take(i + 1)) =~= alphanumeric_flags(v@.take(i as int)).push(
            char_is_alphanumeric(v@[i as int]),
        ));
        i += 1;
    }
    assert(v@.take(v.len() as int) =~= v@);
    let r = sanitize_with(name, &flags);
    assert forall|i: int|
        0 <= i < r@.len() && (#[trigger] r@[i] as u32) < 128 implies is_ascii_alnum(r@[i]) || r@[i]
            == '-' || r@[i] == '_' || r@[i] == '.' by {
        if keeps_char(v@[i], flags@[i]) {
            assert(r@[i] == v@[i]);
        }
    }
    assert forall|i: int| 0 <= i < name@.len() && (#[trigger] name@[i] as u32) < 128 implies (r@[i] == (
    if is_ascii_alnum(name@[i]) || name@[i] == '-' || name@[i] == '_' || name@[i] == '.' {
        name@[i]
    } else {
        '_'
    })) by {
        assert(v@[i] == name@[i]);
    }
    r
}

// ───────────────────────── ports and health ─────────────────────────

/// The non-blank pieces of `pieces`, each without surrounding white space.
pub open spec fn trimmed_nonblank(pieces: Seq<Seq<char>>) -> Seq<Seq<char>>
    decreases pieces.len(),
{
    if pieces.len() == 0 {
        Seq::<Seq<char>>::empty()
    } else {
        let p = trimmed_nonblank(pieces.drop_last());
        if trim(pieces.last()).len() > 0 {
            p.push(trim(pieces.last()))
        } else {
            p
        }
    }
}

/// The extra firewall ports of a comma separated list: each entry
/// trimmed, blank entries left out.
pub open spec fn port_list(s: Seq<char>) -> Seq<Seq<char>> {
    trimmed_nonblank(split_char(s, ','))
}

/// Every non-blank entry of a comma separated list is in the port list,
/// trimmed.
pub proof fn lemma_port_list_has(s: Seq<char>, i: int)
    requires
        0 <= i < split_char(s, ',').len(),
        trim(split_char(s, ',')[i]).len() > 0,
    ensures
        port_list(s).contains(trim(split_char(s, ',')[i])),
{
    lemma_trimmed_nonblank_has(split_char(s, ','), i);
}

proof fn lemma_trimmed_nonblank_has(pieces: Seq<Seq<char>>, i: int)
    requires
        0 <= i < pieces.len(),
        trim(pieces[i]).len() > 0,
    ensures
        trimmed_nonblank(pieces).contains(trim(pieces[i])),
    decreases pieces.len(),
{
    let p = trimmed_nonblank(pieces.drop_last());
    if i == pieces.len() - 1 {
        assert(trimmed_nonblank(pieces).last() == trim(pieces[i]));
    } else {
        lemma_trimmed_nonblank_has(pieces.drop_last(), i);
        let j = choose|j: int| 0 <= j < p.len() && p[j] == trim(pieces[i]);
        assert(trimmed_nonblank(pieces)[j] == trim(pieces[i]));
    }
}

/// The entries of a comma separated port list, trimmed, without blanks.
pub fn split_ports(s: &str) -> (r: Vec<String>)
    ensures
        views(r@) == port_list(s@),
{
    let v = chars_of(s);
    let pieces = split_vec(&v, ',');
    let ghost ps = split_char(s@, ',');
    let mut out: Vec<String> = Vec::new();
    let mut i: usize = 0;
    while i < pieces.len()
        invariant
            i <= pieces.len() == ps.len(),
            ps == split_char(s@, ','),
            forall|k: int| 0 <= k < pieces@.len() ==> #[trigger] pieces@[k]@ == ps[k],
            views(out@) == trimmed_nonblank(ps.take(i as int)),
        decreases pieces.len() - i,
    {
        assert(ps.take(i + 1).drop_last() =~= ps.take(i as int));
        assert(ps.take(i + 1).last() == pieces@[i as int]@);
        let t = trim_vec(&pieces[i]);
        if t.len() > 0 {
            let ghost before = out@;
            out.push(string_of(&t));
            assert(views(out@) =~= views(before).push(t@));
        }
        i += 1;
    }
    assert(ps.take(pieces.len() as int) =~= ps);
    out
}

/// The health-check path with exactly the leading `/` that a URL needs.
pub open spec fn health_path_of(c: ConfigView) -> Seq<char> {
    if c.health_path.len() > 0 && c.health_path[0] == '/' {
        c.health_path
    } else {
        "/"@ + c.health_path
    }
}

/// The path that the API health check requests.
pub fn health_path(cfg: &ProjectConfig) -> (r: String)
    ensures
        r@ == health_path_of(cfg@),
{
    let v = chars_of(cfg.health_path.as_str());
    if v.len() > 0 && v[0] == '/' {
        cfg.health_path.clone()
    } else {
        concat2("/", cfg.health_path.as_str())
    }
}

} // verus!
