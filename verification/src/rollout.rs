//! The deployment procedure as a step machine. Each step looks at what the
//! previous command gave back and names the next command; the caller runs
//! the commands and feeds their outcomes back until the machine is `Done`.

use vstd::prelude::*;
use vstd::string::*;
use crate::actions::{install_cron_command, install_cron_view, remove_cron_command, remove_cron_view};
use crate::config::{
    lemma_port_list_has, port_list, service_name_of, split_ports, stack_build_command, stack_label, staging_dir_of,
    ConfigView, ProjectConfig,
};
use crate::deploy::{result_view, run, strings2, strings3, Command, CommandView};
use crate::text::{concat2, concat3, split_char, trim, views};

verus! {

/// What running a command gave back.
pub enum Outcome {
    /// Nothing to report.
    Done,
    /// Whether the path asked about exists.
    Exists(bool),
    /// The command's trimmed output, or its error text.
    Output(Result<String, String>),
}

/// An outcome with its texts as character sequences.
pub enum OutcomeView {
    Done,
    Exists(bool),
    Output(Result<Seq<char>, Seq<char>>),
}

impl View for Outcome {
    type V = OutcomeView;

    open spec fn view(&self) -> OutcomeView {
        match self {
            Outcome::Done => OutcomeView::Done,
            Outcome::Exists(b) => OutcomeView::Exists(*b),
            Outcome::Output(r) => OutcomeView::Output(result_view(*r)),
        }
    }
}

/// The result an outcome stands for; an outcome that carries none counts
/// as success with no output.
pub open spec fn out_of(o: OutcomeView) -> Result<Seq<char>, Seq<char>> {
    match o {
        OutcomeView::Output(r) => r,
        _ => Ok(Seq::<char>::empty()),
    }
}

/// The answer an outcome gives to an existence question; an outcome that
/// carries none counts as "missing".
pub open spec fn exists_of(o: OutcomeView) -> bool {
    match o {
        OutcomeView::Exists(b) => b,
        _ => false,
    }
}

/// Which of the two repositories a step is about.
#[derive(Debug, Clone, Copy, PartialEq, Eq, Structural)]
pub enum Side {
    Backend,
    Frontend,
}

/// Where the deployment stands.
#[derive(Debug, Clone, Copy, PartialEq, Eq, Structural)]
pub enum DeployStep {
    Start,
    /// Create the `i`-th project directory.
    Dir(usize),
    /// Look for an existing checkout.
    Repo(Side),
    /// Pull or clone, depending on what was found.
    RepoFound(Side),
    /// Update the existing checkout.
    Pull(Side),
    /// Clone the configured branch.
    CloneBranch(Side),
    /// Fall back to the default branch when that failed.
    CloneDefault(Side),
    /// The fallback clone has run.
    Cloned(Side),
    Build,
    BuildRun,
    Built,
    Staged,
    StagedFound,
    StagedWrite,
    StagedWritten,
    Unit,
    UnitCopy,
    UnitCopied,
    Reloaded,
    Enabled,
    Nginx,
    NginxCopy,
    NginxCopied,
    NginxLinked,
    NginxTested,
    Cert,
    CertRun,
    CertDone,
    Ufw,
    UfwWeb,
    UfwWebTls,
    UfwBackend,
    /// Open the `i`-th extra port.
    UfwExtra(usize),
    Cron,
    Save,
    Saved,
    FinishOk,
    Done,
}

/// The repository URL of a side.
pub open spec fn side_repo(c: ConfigView, side: Side) -> Seq<char> {
    match side {
        Side::Backend => c.backend_repo,
        Side::Frontend => c.frontend_repo,
    }
}

/// The word for a side in messages.
pub open spec fn side_word(side: Side) -> Seq<char> {
    match side {
        Side::Backend => "backend"@,
        Side::Frontend => "frontend"@,
    }
}

/// The checkout directory of a side: `<target>/backend` or `<target>/frontend`.
pub open spec fn side_dir(c: ConfigView, side: Side) -> Seq<char> {
    c.target_dir + "/"@ + side_word(side)
}

/// The step after a side's repository is in place.
pub open spec fn after_repo(side: Side) -> DeployStep {
    match side {
        Side::Backend => DeployStep::Repo(Side::Frontend),
        Side::Frontend => DeployStep::Build,
    }
}

/// The `i`-th directory the deployment creates: target, database,
/// uploads, backups.
pub open spec fn project_dir(c: ConfigView, i: int) -> Seq<char> {
    if i == 0 {
        c.target_dir
    } else if i == 1 {
        c.db_dir
    } else if i == 2 {
        c.uploads_dir
    } else {
        c.backup_dir
    }
}

/// `cmd` when `cond` holds, else nothing.
pub open spec fn when(cond: bool, cmd: CommandView) -> CommandView {
    if cond {
        cmd
    } else {
        CommandView::Nothing
    }
}

/// The firewall rule that opens the backend port.
pub open spec fn backend_rule(c: ConfigView) -> Seq<char> {
    c.backend_port + "/tcp"@
}

/// Fetching, building and staging: the steps up to the installation.
pub open spec fn prepare_next(c: ConfigView, use_staged: bool, s: DeployStep, o: OutcomeView) -> (
    DeployStep,
    CommandView,
) {
    let staging = staging_dir_of(c);
    let be = side_dir(c, Side::Backend);
    match s {
        DeployStep::Start => (
            DeployStep::Dir(0),
            CommandView::Say("[INFO] 🚀 deploying '"@ + c.project_name + "' …"@),
        ),
        DeployStep::Dir(i) => (
            if i < 3 {
                DeployStep::Dir((i + 1) as usize)
            } else {
                DeployStep::Repo(Side::Backend)
            },
            when(
                i <= 3 && project_dir(c, i as int).len() > 0,
                CommandView::Run("mkdir"@, seq!["-p"@, project_dir(c, i as int)]),
            ),
        ),
        DeployStep::Repo(side) => if side_repo(c, side).len() == 0 {
            (after_repo(side), CommandView::Nothing)
        } else {
            (DeployStep::RepoFound(side), CommandView::Exists(side_dir(c, side) + "/.git"@))
        },
        DeployStep::RepoFound(side) => if exists_of(o) {
            (
                DeployStep::Pull(side),
                CommandView::Say("[INFO] "@ + side_word(side) + " exists → git pull"@),
            )
        } else {
            (
                DeployStep::CloneBranch(side),
                CommandView::Say("[INFO] cloning "@ + side_word(side) + " …"@),
            )
        },
        DeployStep::Pull(side) => (
            after_repo(side),
            CommandView::Shell("cd '"@ + side_dir(c, side) + "' && git pull --ff-only || true"@),
        ),
        DeployStep::CloneBranch(side) => (
            DeployStep::CloneDefault(side),
            CommandView::Run(
                "git"@,
                seq!["clone"@, "-b"@, c.branch, side_repo(c, side), side_dir(c, side)],
            ),
        ),
        DeployStep::CloneDefault(side) => match out_of(o) {
            Ok(_) => (after_repo(side), CommandView::Nothing),
            Err(_) => (
                DeployStep::Cloned(side),
                CommandView::Run("git"@, seq!["clone"@, side_repo(c, side), side_dir(c, side)]),
            ),
        },
        DeployStep::Cloned(side) => match out_of(o) {
            Ok(_) => (after_repo(side), CommandView::Nothing),
            Err(e) => (
                DeployStep::Done,
                CommandView::Finish(Err(side_word(side) + " clone failed: "@ + e)),
            ),
        },
        DeployStep::Build => if c.backend_repo.len() == 0 {
            (DeployStep::Staged, CommandView::Nothing)
        } else {
            (
                DeployStep::BuildRun,
                CommandView::Say("[INFO] building backend ("@ + stack_label(c.stack) + ") …"@),
            )
        },
        DeployStep::BuildRun => (
            DeployStep::Built,
            CommandView::Shell("cd '"@ + be + "' && "@ + stack_build_command(c.stack)),
        ),
        DeployStep::Built => match out_of(o) {
            Ok(_) => (DeployStep::Staged, CommandView::Nothing),
            Err(e) => (DeployStep::Done, CommandView::Finish(Err("backend build failed: "@ + e))),
        },
        DeployStep::Staged => if use_staged {
            (DeployStep::StagedFound, CommandView::Exists(staging + "/deploy.sh"@))
        } else {
            (DeployStep::StagedWrite, CommandView::Say("[INFO] generating staged files …"@))
        },
        DeployStep::StagedFound => if exists_of(o) {
            (
                DeployStep::Unit,
                CommandView::Say("[INFO] using YOUR staged files (vim edits preserved)"@),
            )
        } else {
            (DeployStep::StagedWrite, CommandView::Say("[INFO] generating staged files …"@))
        },
        DeployStep::StagedWrite => (DeployStep::StagedWritten, CommandView::WriteStaged),
        DeployStep::StagedWritten => match out_of(o) {
            Ok(_) => (DeployStep::Unit, CommandView::Nothing),
            Err(e) => (DeployStep::Done, CommandView::Finish(Err(e))),
        },
        _ => (DeployStep::Done, CommandView::Nothing),
    }
}

/// Installing the staged files: the systemd unit and the nginx site.
pub open spec fn install_next(c: ConfigView, s: DeployStep, o: OutcomeView) -> (
    DeployStep,
    CommandView,
) {
    let staging = staging_dir_of(c);
    let svc = service_name_of(c);
    let avail = "/etc/nginx/sites-available/"@ + c.domain;
    match s {
        DeployStep::Unit => (
            DeployStep::UnitCopy,
            CommandView::Say("[INFO] installing systemd unit …"@),
        ),
        DeployStep::UnitCopy => (
            DeployStep::UnitCopied,
            CommandView::Copy(
                staging + "/"@ + svc + ".service"@,
                "/etc/systemd/system/"@ + svc + ".service"@,
            ),
        ),
        DeployStep::UnitCopied => match out_of(o) {
            Ok(_) => (DeployStep::Reloaded, CommandView::Run("systemctl"@, seq!["daemon-reload"@])),
            Err(e) => (
                DeployStep::Done,
                CommandView::Finish(Err("install unit: "@ + e + " (run the TUI with sudo?)"@)),
            ),
        },
        DeployStep::Reloaded => match out_of(o) {
            Ok(_) => (
                DeployStep::Enabled,
                CommandView::Run("systemctl"@, seq!["enable"@, "--now"@, svc]),
            ),
            Err(e) => (DeployStep::Done, CommandView::Finish(Err(e))),
        },
        DeployStep::Enabled => match out_of(o) {
            Ok(_) => (DeployStep::Nginx, CommandView::Nothing),
            Err(e) => (
                DeployStep::Done,
                CommandView::Finish(Err("enable "@ + svc + ": "@ + e)),
            ),
        },
        DeployStep::Nginx => if c.domain.len() == 0 {
            (DeployStep::Ufw, CommandView::Nothing)
        } else {
            (
                DeployStep::NginxCopy,
                CommandView::Say("[INFO] installing nginx vhost for "@ + c.domain + " …"@),
            )
        },
        DeployStep::NginxCopy => (
            DeployStep::NginxCopied,
            CommandView::Copy(staging + "/nginx-"@ + c.domain + ".conf"@, avail),
        ),
        DeployStep::NginxCopied => match out_of(o) {
            Ok(_) => (
                DeployStep::NginxLinked,
                CommandView::Run(
                    "ln"@,
                    seq!["-sf"@, avail, "/etc/nginx/sites-enabled/"@ + c.domain],
                ),
            ),
            Err(e) => (
                DeployStep::Done,
                CommandView::Finish(Err("install nginx conf: "@ + e)),
            ),
        },
        DeployStep::NginxLinked => (
            DeployStep::NginxTested,
            CommandView::Run("nginx"@, seq!["-t"@]),
        ),
        DeployStep::NginxTested => match out_of(o) {
            Ok(_) => (DeployStep::Cert, CommandView::Run("systemctl"@, seq!["reload"@, "nginx"@])),
            Err(e) => (DeployStep::Cert, CommandView::Say("[WARN] nginx -t failed: "@ + e)),
        },
        DeployStep::Cert => if c.cert_email.len() > 0 {
            (
                DeployStep::CertRun,
                CommandView::Say("[INFO] requesting Let's Encrypt certificate …"@),
            )
        } else {
            (DeployStep::Ufw, CommandView::Say("[WARN] no certbot email → skipping SSL"@))
        },
        DeployStep::CertRun => (
            DeployStep::CertDone,
            CommandView::Run(
                "certbot"@,
                seq![
                    "--nginx"@,
                    "-d"@,
                    c.domain,
                    "--non-interactive"@,
                    "--agree-tos"@,
                    "--redirect"@,
                    "-m"@,
                    c.cert_email,
                ],
            ),
        ),
        DeployStep::CertDone => match out_of(o) {
            Ok(_) => (DeployStep::Ufw, CommandView::Say("[INFO] ✅ SSL installed"@)),
            Err(e) => (DeployStep::Ufw, CommandView::Say("[WARN] certbot: "@ + e)),
        },
        _ => (DeployStep::Done, CommandView::Nothing),
    }
}

/// The firewall, the backup schedule, saving the record and the report.
pub open spec fn finish_next(c: ConfigView, s: DeployStep, o: OutcomeView) -> (
    DeployStep,
    CommandView,
) {
    let ports = port_list(c.extra_ports);
    match s {
        DeployStep::Ufw => (DeployStep::UfwWeb, CommandView::Say("[INFO] configuring UFW …"@)),
        DeployStep::UfwWeb => (
            DeployStep::UfwWebTls,
            when(c.ufw_web, CommandView::Run("ufw"@, seq!["allow"@, "80/tcp"@])),
        ),
        DeployStep::UfwWebTls => (
            DeployStep::UfwBackend,
            when(c.ufw_web, CommandView::Run("ufw"@, seq!["allow"@, "443/tcp"@])),
        ),
        DeployStep::UfwBackend => (
            DeployStep::UfwExtra(0),
            when(c.ufw_backend, CommandView::Run("ufw"@, seq!["allow"@, backend_rule(c)])),
        ),
        DeployStep::UfwExtra(i) => if i < ports.len() {
            (
                DeployStep::UfwExtra((i + 1) as usize),
                CommandView::Run("ufw"@, seq!["allow"@, ports[i as int]]),
            )
        } else {
            (DeployStep::Cron, CommandView::Nothing)
        },
        DeployStep::Cron => (
            DeployStep::Save,
            CommandView::Shell(
                if c.backup_enabled && c.backup_cron {
                    install_cron_view(c)
                } else {
                    remove_cron_view(c)
                },
            ),
        ),
        DeployStep::Save => (DeployStep::Saved, CommandView::SaveProject),
        DeployStep::Saved => match out_of(o) {
            Ok(_) => (DeployStep::FinishOk, CommandView::Nothing),
            Err(e) => (
                DeployStep::FinishOk,
                CommandView::Say("[WARN] could not save project file: "@ + e),
            ),
        },
        DeployStep::FinishOk => (
            DeployStep::Done,
            CommandView::Finish(Ok("Deployment finished 🎉"@)),
        ),
        _ => (DeployStep::Done, CommandView::Nothing),
    }
}

/// Which part of the procedure a step belongs to: 0 preparing, 1
/// installing, 2 finishing.
pub open spec fn phase(s: DeployStep) -> int {
    match s {
        DeployStep::Unit | DeployStep::UnitCopy | DeployStep::UnitCopied | DeployStep::Reloaded
        | DeployStep::Enabled | DeployStep::Nginx | DeployStep::NginxCopy
        | DeployStep::NginxCopied | DeployStep::NginxLinked | DeployStep::NginxTested
        | DeployStep::Cert | DeployStep::CertRun | DeployStep::CertDone => 1,
        DeployStep::Ufw | DeployStep::UfwWeb | DeployStep::UfwWebTls | DeployStep::UfwBackend
        | DeployStep::UfwExtra(_) | DeployStep::Cron | DeployStep::Save | DeployStep::Saved
        | DeployStep::FinishOk | DeployStep::Done => 2,
        _ => 0,
    }
}

/// One step of the deployment of `c` (from the staged files when
/// `use_staged`): from step `s`, where the last command gave `o`, to the
/// next step and the command to run now.
pub open spec fn deploy_next(c: ConfigView, use_staged: bool, s: DeployStep, o: OutcomeView) -> (
    DeployStep,
    CommandView,
) {
    if phase(s) == 0 {
        prepare_next(c, use_staged, s, o)
    } else if phase(s) == 1 {
        install_next(c, s, o)
    } else {
        finish_next(c, s, o)
    }
}

/// The result an outcome carries.
fn outcome_result(o: &Outcome) -> (r: Result<String, String>)
    ensures
        result_view(r) == out_of(o@),
{
    match o {
        Outcome::Output(r) => match r {
            Ok(m) => Ok(m.clone()),
            Err(e) => Err(e.clone()),
        },
        _ => Ok(String::new()),
    }
}

/// The existence answer an outcome carries.
fn outcome_exists(o: &Outcome) -> (b: bool)
    ensures
        b == exists_of(o@),
{
    match o {
        Outcome::Exists(b) => *b,
        _ => false,
    }
}

/// Appends one argument.
fn push_arg(v: &mut Vec<String>, a: &str)
    ensures
        views(final(v)@) == views(old(v)@).push(a@),
{
    let ghost before = v@;
    v.push(String::from_str(a));
    assert(views(v@) =~= views(before).push(a@));
}

/// A one-argument program call.
fn run1(program: &str, a: &str) -> (c: Command)
    ensures
        c@ == CommandView::Run(program@, seq![a@]),
{
    let mut v: Vec<String> = Vec::new();
    push_arg(&mut v, a);
    assert(views(v@) =~= seq![a@]);
    run(program, v)
}

/// The repository URL of a side.
fn repo_of(cfg: &ProjectConfig, side: Side) -> (r: &String)
    ensures
        r@ == side_repo(cfg@, side),
{
    match side {
        Side::Backend => &cfg.backend_repo,
        Side::Frontend => &cfg.frontend_repo,
    }
}

/// The word for a side.
fn word_of(side: Side) -> (r: &'static str)
    ensures
        r@ == side_word(side),
{
    match side {
        Side::Backend => "backend",
        Side::Frontend => "frontend",
    }
}

/// The checkout directory of a side.
fn dir_of(cfg: &ProjectConfig, side: Side) -> (r: String)
    ensures
        r@ == side_dir(cfg@, side),
{
    concat3(cfg.target_dir.as_str(), "/", word_of(side))
}

/// The step after a side's repository.
fn next_after_repo(side: Side) -> (r: DeployStep)
    ensures
        r == after_repo(side),
{
    match side {
        Side::Backend => DeployStep::Repo(Side::Frontend),
        Side::Frontend => DeployStep::Build,
    }
}

/// The `i`-th project directory.
fn dir_at(cfg: &ProjectConfig, i: usize) -> (r: &String)
    ensures
        r@ == project_dir(cfg@, i as int),
{
    if i == 0 {
        &cfg.target_dir
    } else if i == 1 {
        &cfg.db_dir
    } else if i == 2 {
        &cfg.uploads_dir
    } else {
        &cfg.backup_dir
    }
}

/// A `Finish` with an error.
fn fail(e: String) -> (c: Command)
    ensures
        c@ == CommandView::Finish(Err(e@)),
{
    Command::Finish(Err(e))
}

/// The steps up to the installation.
fn prepare_step(cfg: &ProjectConfig, use_staged: bool, s: DeployStep, o: &Outcome) -> (r: (
    DeployStep,
    Command,
))
    requires
        phase(s) == 0,
    ensures
        r.0 == prepare_next(cfg@, use_staged, s, o@).0,
        r.1@ == prepare_next(cfg@, use_staged, s, o@).1,
{
    match s {
        DeployStep::Start => {
            let msg = concat3("[INFO] 🚀 deploying '", cfg.project_name.as_str(), "' …");
            (DeployStep::Dir(0), Command::Say(msg))
        },
        DeployStep::Dir(i) => {
            let next = if i < 3 {
                DeployStep::Dir(i + 1)
            } else {
                DeployStep::Repo(Side::Backend)
            };
            if i <= 3 && !dir_at(cfg, i).as_str().is_empty() {
                (next, run("mkdir", strings2("-p", dir_at(cfg, i).as_str())))
            } else {
                (next, Command::Nothing)
            }
        },
        DeployStep::Repo(side) => {
            if repo_of(cfg, side).as_str().is_empty() {
                (next_after_repo(side), Command::Nothing)
            } else {
                let d = dir_of(cfg, side);
                (DeployStep::RepoFound(side), Command::Exists(concat2(d.as_str(), "/.git")))
            }
        },
        DeployStep::RepoFound(side) => {
            if outcome_exists(o) {
                let msg = concat3("[INFO] ", word_of(side), " exists → git pull");
                (DeployStep::Pull(side), Command::Say(msg))
            } else {
                let msg = concat3("[INFO] cloning ", word_of(side), " …");
                (DeployStep::CloneBranch(side), Command::Say(msg))
            }
        },
        DeployStep::Pull(side) => {
            let d = dir_of(cfg, side);
            let line = concat3("cd '", d.as_str(), "' && git pull --ff-only || true");
            (next_after_repo(side), Command::Shell(line))
        },
        DeployStep::CloneBranch(side) => {
            let d = dir_of(cfg, side);
            let mut args: Vec<String> = Vec::new();
            push_arg(&mut args, "clone");
            push_arg(&mut args, "-b");
            push_arg(&mut args, cfg.branch.as_str());
            push_arg(&mut args, repo_of(cfg, side).as_str());
            push_arg(&mut args, d.as_str());
            assert(views(args@) =~= seq![
                "clone"@,
                "-b"@,
                cfg@.branch,
                side_repo(cfg@, side),
                side_dir(cfg@, side),
            ]);
            (DeployStep::CloneDefault(side), run("git", args))
        },
        DeployStep::CloneDefault(side) => {
            match outcome_result(o) {
                Ok(_) => (next_after_repo(side), Command::Nothing),
                Err(_) => {
                    let d = dir_of(cfg, side);
                    (
                        DeployStep::Cloned(side),
                        run("git", strings3("clone", repo_of(cfg, side).as_str(), d.as_str())),
                    )
                },
            }
        },
        DeployStep::Cloned(side) => {
            match outcome_result(o) {
                Ok(_) => (next_after_repo(side), Command::Nothing),
                Err(e) => {
                    let msg = concat3(word_of(side), " clone failed: ", e.as_str());
                    (DeployStep::Done, fail(msg))
                },
            }
        },
        DeployStep::Build => {
            if cfg.backend_repo.as_str().is_empty() {
                (DeployStep::Staged, Command::Nothing)
            } else {
                let msg = concat3("[INFO] building backend (", cfg.stack.label(), ") …");
                (DeployStep::BuildRun, Command::Say(msg))
            }
        },
        DeployStep::BuildRun => {
            let d = dir_of(cfg, Side::Backend);
            let head = concat3("cd '", d.as_str(), "' && ");
            let line = concat2(head.as_str(), cfg.stack.build_command());
            (DeployStep::Built, Command::Shell(line))
        },
        DeployStep::Built => {
            match outcome_result(o) {
                Ok(_) => (DeployStep::Staged, Command::Nothing),
                Err(e) => (DeployStep::Done, fail(concat2("backend build failed: ", e.as_str()))),
            }
        },
        DeployStep::Staged => {
            if use_staged {
                let staging = cfg.staging_dir();
                (DeployStep::StagedFound, Command::Exists(concat2(staging.as_str(), "/deploy.sh")))
            } else {
                (
                    DeployStep::StagedWrite,
                    Command::Say(String::from_str("[INFO] generating staged files …")),
                )
            }
        },
        DeployStep::StagedFound => {
            if outcome_exists(o) {
                (
                    DeployStep::Unit,
                    Command::Say(
                        String::from_str("[INFO] using YOUR staged files (vim edits preserved)"),
                    ),
                )
            } else {
                (
                    DeployStep::StagedWrite,
                    Command::Say(String::from_str("[INFO] generating staged files …")),
                )
            }
        },
        DeployStep::StagedWrite => (DeployStep::StagedWritten, Command::WriteStaged),
        _ => {
            match outcome_result(o) {
                Ok(_) => (DeployStep::Unit, Command::Nothing),
                Err(e) => (DeployStep::Done, fail(e)),
            }
        },
    }
}

/// Installing the unit and the nginx site.
fn install_step(cfg: &ProjectConfig, s: DeployStep, o: &Outcome) -> (r: (DeployStep, Command))
    requires
        phase(s) == 1,
    ensures
        r.0 == install_next(cfg@, s, o@).0,
        r.1@ == install_next(cfg@, s, o@).1,
{
    match s {
        DeployStep::Unit => (
            DeployStep::UnitCopy,
            Command::Say(String::from_str("[INFO] installing systemd unit …")),
        ),
        DeployStep::UnitCopy => {
            let staging = cfg.staging_dir();
            let svc = cfg.service_name();
            let head = concat3(staging.as_str(), "/", svc.as_str());
            let from = concat2(head.as_str(), ".service");
            let to = concat3("/etc/systemd/system/", svc.as_str(), ".service");
            (DeployStep::UnitCopied, Command::Copy { from, to })
        },
        DeployStep::UnitCopied => {
            match outcome_result(o) {
                Ok(_) => (DeployStep::Reloaded, run1("systemctl", "daemon-reload")),
                Err(e) => (
                    DeployStep::Done,
                    fail(concat3("install unit: ", e.as_str(), " (run the TUI with sudo?)")),
                ),
            }
        },
        DeployStep::Reloaded => {
            match outcome_result(o) {
                Ok(_) => {
                    let svc = cfg.service_name();
                    (DeployStep::Enabled, run("systemctl", strings3("enable", "--now", svc.as_str())))
                },
                Err(e) => (DeployStep::Done, fail(e)),
            }
        },
        DeployStep::Enabled => {
            match outcome_result(o) {
                Ok(_) => (DeployStep::Nginx, Command::Nothing),
                Err(e) => {
                    let svc = cfg.service_name();
                    let head = concat3("enable ", svc.as_str(), ": ");
                    (DeployStep::Done, fail(concat2(head.as_str(), e.as_str())))
                },
            }
        },
        DeployStep::Nginx => {
            if cfg.domain.as_str().is_empty() {
                (DeployStep::Ufw, Command::Nothing)
            } else {
                let msg = concat3("[INFO] installing nginx vhost for ", cfg.domain.as_str(), " …");
                (DeployStep::NginxCopy, Command::Say(msg))
            }
        },
        DeployStep::NginxCopy => {
            let staging = cfg.staging_dir();
            let head = concat3(staging.as_str(), "/nginx-", cfg.domain.as_str());
            let from = concat2(head.as_str(), ".conf");
            let to = concat2("/etc/nginx/sites-available/", cfg.domain.as_str());
            (DeployStep::NginxCopied, Command::Copy { from, to })
        },
        DeployStep::NginxCopied => {
            match outcome_result(o) {
                Ok(_) => {
                    let avail = concat2("/etc/nginx/sites-available/", cfg.domain.as_str());
                    let enabled = concat2("/etc/nginx/sites-enabled/", cfg.domain.as_str());
                    (
                        DeployStep::NginxLinked,
                        run("ln", strings3("-sf", avail.as_str(), enabled.as_str())),
                    )
                },
                Err(e) => (DeployStep::Done, fail(concat2("install nginx conf: ", e.as_str()))),
            }
        },
        DeployStep::NginxLinked => (DeployStep::NginxTested, run1("nginx", "-t")),
        DeployStep::NginxTested => {
            match outcome_result(o) {
                Ok(_) => (DeployStep::Cert, run("systemctl", strings2("reload", "nginx"))),
                Err(e) => (
                    DeployStep::Cert,
                    Command::Say(concat2("[WARN] nginx -t failed: ", e.as_str())),
                ),
            }
        },
        DeployStep::Cert => {
            if !cfg.cert_email.as_str().is_empty() {
                (
                    DeployStep::CertRun,
                    Command::Say(String::from_str("[INFO] requesting Let's Encrypt certificate …")),
                )
            } else {
                (
                    DeployStep::Ufw,
                    Command::Say(String::from_str("[WARN] no certbot email → skipping SSL")),
                )
            }
        },
        DeployStep::CertRun => {
            let mut args: Vec<String> = Vec::new();
            push_arg(&mut args, "--nginx");
            push_arg(&mut args, "-d");
            push_arg(&mut args, cfg.domain.as_str());
            push_arg(&mut args, "--non-interactive");
            push_arg(&mut args, "--agree-tos");
            push_arg(&mut args, "--redirect");
            push_arg(&mut args, "-m");
            push_arg(&mut args, cfg.cert_email.as_str());
            assert(views(args@) =~= seq![
                "--nginx"@,
                "-d"@,
                cfg@.domain,
                "--non-interactive"@,
                "--agree-tos"@,
                "--redirect"@,
                "-m"@,
                cfg@.cert_email,
            ]);
            (DeployStep::CertDone, run("certbot", args))
        },
        _ => {
            match outcome_result(o) {
                Ok(_) => (DeployStep::Ufw, Command::Say(String::from_str("[INFO] ✅ SSL installed"))),
                Err(e) => (DeployStep::Ufw, Command::Say(concat2("[WARN] certbot: ", e.as_str()))),
            }
        },
    }
}

/// The firewall, the backup schedule, saving and the report.
fn finish_step(cfg: &ProjectConfig, s: DeployStep, o: &Outcome) -> (r: (DeployStep, Command))
    requires
        phase(s) == 2,
    ensures
        r.0 == finish_next(cfg@, s, o@).0,
        r.1@ == finish_next(cfg@, s, o@).1,
{
    match s {
        DeployStep::Ufw => (
            DeployStep::UfwWeb,
            Command::Say(String::from_str("[INFO] configuring UFW …")),
        ),
        DeployStep::UfwWeb => {
            if cfg.ufw_web {
                (DeployStep::UfwWebTls, run("ufw", strings2("allow", "80/tcp")))
            } else {
                (DeployStep::UfwWebTls, Command::Nothing)
            }
        },
        DeployStep::UfwWebTls => {
            if cfg.ufw_web {
                (DeployStep::UfwBackend, run("ufw", strings2("allow", "443/tcp")))
            } else {
                (DeployStep::UfwBackend, Command::Nothing)
            }
        },
        DeployStep::UfwBackend => {
            if cfg.ufw_backend {
                let rule = concat2(cfg.backend_port.as_str(), "/tcp");
                (DeployStep::UfwExtra(0), run("ufw", strings2("allow", rule.as_str())))
            } else {
                (DeployStep::UfwExtra(0), Command::Nothing)
            }
        },
        DeployStep::UfwExtra(i) => {
            let ports = split_ports(cfg.extra_ports.as_str());
            if i < ports.len() {
                proof {
                    assert(views(ports@)[i as int] == ports@[i as int]@);
                }
                (DeployStep::UfwExtra(i + 1), run("ufw", strings2("allow", ports[i].as_str())))
            } else {
                (DeployStep::Cron, Command::Nothing)
            }
        },
        DeployStep::Cron => {
            if cfg.backup_enabled && cfg.backup_cron {
                (DeployStep::Save, Command::Shell(install_cron_command(cfg)))
            } else {
                (DeployStep::Save, Command::Shell(remove_cron_command(cfg)))
            }
        },
        DeployStep::Save => (DeployStep::Saved, Command::SaveProject),
        DeployStep::Saved => {
            match outcome_result(o) {
                Ok(_) => (DeployStep::FinishOk, Command::Nothing),
                Err(e) => (
                    DeployStep::FinishOk,
                    Command::Say(concat2("[WARN] could not save project file: ", e.as_str())),
                ),
            }
        },
        DeployStep::FinishOk => (
            DeployStep::Done,
            Command::Finish(Ok(String::from_str("Deployment finished 🎉"))),
        ),
        _ => (DeployStep::Done, Command::Nothing),
    }
}

/// One step of the deployment of `cfg`, from the staged files when
/// `use_staged`: given the step reached and what the last command gave
/// back, the next step and the command to run now.
pub fn deploy_step(cfg: &ProjectConfig, use_staged: bool, step: DeployStep, outcome: &Outcome) -> (r: (
    DeployStep,
    Command,
))
    ensures
        r.0 == deploy_next(cfg@, use_staged, step, outcome@).0,
        r.1@ == deploy_next(cfg@, use_staged, step, outcome@).1,
{
    match step {
        DeployStep::Unit | DeployStep::UnitCopy | DeployStep::UnitCopied | DeployStep::Reloaded
        | DeployStep::Enabled | DeployStep::Nginx | DeployStep::NginxCopy
        | DeployStep::NginxCopied | DeployStep::NginxLinked | DeployStep::NginxTested
        | DeployStep::Cert | DeployStep::CertRun | DeployStep::CertDone => install_step(
            cfg,
            step,
            outcome,
        ),
        DeployStep::Ufw | DeployStep::UfwWeb | DeployStep::UfwWebTls | DeployStep::UfwBackend
        | DeployStep::UfwExtra(_) | DeployStep::Cron | DeployStep::Save | DeployStep::Saved
        | DeployStep::FinishOk | DeployStep::Done => finish_step(cfg, step, outcome),
        _ => prepare_step(cfg, use_staged, step, outcome),
    }
}

/// Where the steps about a side's repository start counting.
pub open spec fn side_base(side: Side) -> nat {
    match side {
        Side::Backend => 35,
        Side::Frontend => 30,
    }
}

/// How many steps at most remain before the deployment of `c` is done.
pub open spec fn deploy_rank(c: ConfigView, s: DeployStep) -> nat {
    let n = port_list(c.extra_ports).len();
    match s {
        DeployStep::Done => 0,
        DeployStep::FinishOk => 1,
        DeployStep::Saved => 2,
        DeployStep::Save => 3,
        DeployStep::Cron => 4,
        DeployStep::UfwExtra(i) => 5 + (if i < n {
            (n - i) as nat
        } else {
            0nat
        }),
        DeployStep::UfwBackend => 6 + n,
        DeployStep::UfwWebTls => 7 + n,
        DeployStep::UfwWeb => 8 + n,
        DeployStep::Ufw => 9 + n,
        DeployStep::CertDone => 10 + n,
        DeployStep::CertRun => 11 + n,
        DeployStep::Cert => 12 + n,
        DeployStep::NginxTested => 13 + n,
        DeployStep::NginxLinked => 14 + n,
        DeployStep::NginxCopied => 15 + n,
        DeployStep::NginxCopy => 16 + n,
        DeployStep::Nginx => 17 + n,
        DeployStep::Enabled => 18 + n,
        DeployStep::Reloaded => 19 + n,
        DeployStep::UnitCopied => 20 + n,
        DeployStep::UnitCopy => 21 + n,
        DeployStep::Unit => 22 + n,
        DeployStep::StagedWritten => 23 + n,
        DeployStep::StagedWrite => 24 + n,
        DeployStep::StagedFound => 25 + n,
        DeployStep::Staged => 26 + n,
        DeployStep::Built => 27 + n,
        DeployStep::BuildRun => 28 + n,
        DeployStep::Build => 29 + n,
        DeployStep::Cloned(side) => side_base(side) + n,
        DeployStep::CloneDefault(side) => side_base(side) + 1 + n,
        DeployStep::Pull(side) => side_base(side) + 1 + n,
        DeployStep::CloneBranch(side) => side_base(side) + 2 + n,
        DeployStep::RepoFound(side) => side_base(side) + 3 + n,
        DeployStep::Repo(side) => side_base(side) + 4 + n,
        DeployStep::Dir(i) => 40 + (if i < 3 {
            (3 - i) as nat
        } else {
            0nat
        }) + n,
        DeployStep::Start => 44 + n,
    }
}

proof fn lemma_prepare_rank(c: ConfigView, use_staged: bool, s: DeployStep, o: OutcomeView)
    requires
        phase(s) == 0,
    ensures
        deploy_rank(c, prepare_next(c, use_staged, s, o).0) < deploy_rank(c, s),
{
    let n = port_list(c.extra_ports).len();
    let next = prepare_next(c, use_staged, s, o).0;
    match s {
        DeployStep::Dir(i) => {
            if i < 3 {
                assert(deploy_rank(c, DeployStep::Dir((i + 1) as usize)) == 40 + (3 - i - 1) + n);
            }
        },
        DeployStep::Repo(side) => {
            assert(next == after_repo(side) || next == DeployStep::RepoFound(side));
        },
        DeployStep::RepoFound(side) => {
            assert(next == DeployStep::Pull(side) || next == DeployStep::CloneBranch(side));
        },
        DeployStep::Pull(side) => {
            assert(next == after_repo(side));
        },
        DeployStep::CloneBranch(side) => {
            assert(next == DeployStep::CloneDefault(side));
        },
        DeployStep::CloneDefault(side) => {
            assert(next == after_repo(side) || next == DeployStep::Cloned(side));
        },
        DeployStep::Cloned(side) => {
            assert(next == after_repo(side) || next == DeployStep::Done);
        },
        _ => {},
    }
}

proof fn lemma_install_rank(c: ConfigView, s: DeployStep, o: OutcomeView)
    requires
        phase(s) == 1,
    ensures
        deploy_rank(c, install_next(c, s, o).0) < deploy_rank(c, s),
{
}

proof fn lemma_finish_rank(c: ConfigView, s: DeployStep, o: OutcomeView)
    requires
        phase(s) == 2,
        s != DeployStep::Done,
        port_list(c.extra_ports).len() < usize::MAX,
    ensures
        deploy_rank(c, finish_next(c, s, o).0) < deploy_rank(c, s),
{
    let n = port_list(c.extra_ports).len();
    match s {
        DeployStep::UfwExtra(i) => {
            if i < n {
                assert(deploy_rank(c, DeployStep::UfwExtra((i + 1) as usize)) == 5 + (n - i - 1));
            }
        },
        _ => {},
    }
}

/// The deployment always comes to an end: every step before `Done` moves
/// strictly closer to it, whatever the commands gave back, and `Done`
/// stays put and asks for nothing. (The list of extra ports is held in
/// memory, so its length is below `usize::MAX`.)
pub proof fn lemma_deploy_terminates(c: ConfigView, use_staged: bool, s: DeployStep, o: OutcomeView)
    requires
        port_list(c.extra_ports).len() < usize::MAX,
    ensures
        s != DeployStep::Done ==> deploy_rank(c, deploy_next(c, use_staged, s, o).0) < deploy_rank(c, s),
        s == DeployStep::Done ==> deploy_next(c, use_staged, s, o) == (DeployStep::Done, CommandView::Nothing),
{
    if s != DeployStep::Done {
        if phase(s) == 0 {
            lemma_prepare_rank(c, use_staged, s, o);
        } else if phase(s) == 1 {
            lemma_install_rank(c, s, o);
        } else {
            lemma_finish_rank(c, s, o);
        }
    }
}

/// The deployment reports its result exactly when it reaches `Done`.
pub proof fn lemma_deploy_finish_iff_done(c: ConfigView, use_staged: bool, s: DeployStep, o: OutcomeView)
    requires
        s != DeployStep::Done,
    ensures
        deploy_next(c, use_staged, s, o).0 == DeployStep::Done <==> deploy_next(
            c,
            use_staged,
            s,
            o,
        ).1 is Finish,
{
}

/// Success is reported only after the project record was saved: the
/// success report comes from `FinishOk` alone, which only `Saved`
/// reaches, which only the `SaveProject` command of `Save` reaches.
pub proof fn lemma_deploy_success_after_save(c: ConfigView, use_staged: bool, s: DeployStep, o: OutcomeView)
    ensures
        deploy_next(c, use_staged, s, o).1 matches CommandView::Finish(Ok(_)) ==> s == DeployStep::FinishOk,
        deploy_next(c, use_staged, s, o).0 == DeployStep::FinishOk ==> s == DeployStep::Saved,
        deploy_next(c, use_staged, s, o).0 == DeployStep::Saved ==> s == DeployStep::Save
            && deploy_next(c, use_staged, s, o).1 == CommandView::SaveProject,
{
}

/// Edited staged files are kept: the files are staged anew only on the
/// step that stages them, which is reached from a deployment that does not
/// use the staged files, or from one that did not find them.
pub proof fn lemma_deploy_keeps_staged_edits(c: ConfigView, use_staged: bool, s: DeployStep, o: OutcomeView)
    ensures
        deploy_next(c, use_staged, s, o).1 == CommandView::WriteStaged ==> s == DeployStep::StagedWrite,
        deploy_next(c, use_staged, s, o).0 == DeployStep::StagedWrite ==> (s == DeployStep::Staged && !use_staged)
            || (s == DeployStep::StagedFound && !exists_of(o)),
        use_staged && exists_of(o) ==> deploy_next(c, use_staged, DeployStep::StagedFound, o).0
            == DeployStep::Unit,
{
}

/// Each repository is looked for, pulled and cloned in its own checkout:
/// `<target>/backend` for the backend and `<target>/frontend` for the
/// frontend. The backend comes first, then the frontend, then the build.
pub proof fn lemma_repos_use_their_own_checkout(c: ConfigView, u: bool, o: OutcomeView)
    ensures
        deploy_next(c, u, DeployStep::Pull(Side::Backend), o) == (
            DeployStep::Repo(Side::Frontend),
            CommandView::Shell("cd '"@ + c.target_dir + "/backend"@ + "' && git pull --ff-only || true"@),
        ),
        deploy_next(c, u, DeployStep::Pull(Side::Frontend), o) == (
            DeployStep::Build,
            CommandView::Shell("cd '"@ + c.target_dir + "/frontend"@ + "' && git pull --ff-only || true"@),
        ),
        c.backend_repo.len() > 0 ==> deploy_next(c, u, DeployStep::Repo(Side::Backend), o).1
            == CommandView::Exists(c.target_dir + "/backend"@ + "/.git"@),
        c.frontend_repo.len() > 0 ==> deploy_next(c, u, DeployStep::Repo(Side::Frontend), o).1
            == CommandView::Exists(c.target_dir + "/frontend"@ + "/.git"@),
        deploy_next(c, u, DeployStep::CloneBranch(Side::Backend), o).1 == CommandView::Run(
            "git"@,
            seq!["clone"@, "-b"@, c.branch, c.backend_repo, c.target_dir + "/backend"@],
        ),
        deploy_next(c, u, DeployStep::CloneBranch(Side::Frontend), o).1 == CommandView::Run(
            "git"@,
            seq!["clone"@, "-b"@, c.branch, c.frontend_repo, c.target_dir + "/frontend"@],
        ),
{
    reveal_strlit("/");
    reveal_strlit("backend");
    reveal_strlit("frontend");
    reveal_strlit("/backend");
    reveal_strlit("/frontend");
    assert(c.target_dir + "/"@ + "backend"@ =~= c.target_dir + "/backend"@);
    assert(c.target_dir + "/"@ + "frontend"@ =~= c.target_dir + "/frontend"@);
    assert("cd '"@ + side_dir(c, Side::Backend) + "' && git pull --ff-only || true"@ =~= "cd '"@
        + c.target_dir + "/backend"@ + "' && git pull --ff-only || true"@);
    assert("cd '"@ + side_dir(c, Side::Frontend) + "' && git pull --ff-only || true"@ =~= "cd '"@
        + c.target_dir + "/frontend"@ + "' && git pull --ff-only || true"@);
}

/// Deploying opens the firewall as the toggles say: 80 and 443 exactly
/// when web ports are to be open, the backend port exactly when it is to
/// be open (whatever the web toggle says), and every non-blank entry of
/// the extra ports, trimmed, on its own step.
pub proof fn lemma_deploy_opens_the_firewall(c: ConfigView, u: bool, o: OutcomeView, i: int)
    requires
        port_list(c.extra_ports).len() < usize::MAX,
    ensures
        deploy_next(c, u, DeployStep::UfwWeb, o).1 == (if c.ufw_web {
            CommandView::Run("ufw"@, seq!["allow"@, "80/tcp"@])
        } else {
            CommandView::Nothing
        }),
        deploy_next(c, u, DeployStep::UfwWebTls, o).1 == (if c.ufw_web {
            CommandView::Run("ufw"@, seq!["allow"@, "443/tcp"@])
        } else {
            CommandView::Nothing
        }),
        deploy_next(c, u, DeployStep::UfwBackend, o).1 == (if c.ufw_backend {
            CommandView::Run("ufw"@, seq!["allow"@, c.backend_port + "/tcp"@])
        } else {
            CommandView::Nothing
        }),
        0 <= i < split_char(c.extra_ports, ',').len() && trim(split_char(c.extra_ports, ',')[i]).len()
            > 0 ==> exists|j: usize|
            #![trigger deploy_next(c, u, DeployStep::UfwExtra(j), o)]
            deploy_next(c, u, DeployStep::UfwExtra(j), o) == (
                DeployStep::UfwExtra((j + 1) as usize),
                CommandView::Run("ufw"@, seq!["allow"@, trim(split_char(c.extra_ports, ',')[i])]),
            ),
{
    if 0 <= i < split_char(c.extra_ports, ',').len() && trim(split_char(c.extra_ports, ',')[i]).len() > 0 {
        lemma_port_list_has(c.extra_ports, i);
        let pl = port_list(c.extra_ports);
        let j = choose|j: int| 0 <= j < pl.len() && pl[j] == trim(split_char(c.extra_ports, ',')[i]);
        let ju = j as usize;
        assert(deploy_next(c, u, DeployStep::UfwExtra(ju), o) == (
            DeployStep::UfwExtra((ju + 1) as usize),
            CommandView::Run("ufw"@, seq!["allow"@, trim(split_char(c.extra_ports, ',')[i])]),
        ));
    }
}

} // verus!
