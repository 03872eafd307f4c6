//! The system commands that the procedures ask for, and the removal of a
//! project from the server as the sequence of commands it runs.

use vstd::prelude::*;
use vstd::string::*;
use crate::actions::{remove_cron_command, remove_cron_view};
use crate::config::{lemma_port_list_has, port_list, service_name_of, split_ports, ConfigView, ProjectConfig};
use crate::text::{concat2, concat3, split_char, trim, views};

verus! {

/// A system operation that the procedures ask for.
pub enum Command {
    /// Nothing to run; go on with the next step.
    Nothing,
    /// Add a line to the activity log.
    Say(String),
    /// Whether a path exists.
    Exists(String),
    /// A `bash -c` command line.
    Shell(String),
    /// A program with its arguments.
    Run { program: String, args: Vec<String> },
    /// Write the editable files into the staging directory.
    WriteStaged,
    /// Copy a file.
    Copy { from: String, to: String },
    /// Remove a file; the outcome does not matter.
    RemoveFile(String),
    /// Remove a directory tree; the outcome does not matter.
    RemoveDir(String),
    /// Remove the saved project record.
    RemoveProjectFile,
    /// Save the project record.
    SaveProject,
    /// The procedure ends with this result.
    Finish(Result<String, String>),
}

/// A command with its texts as character sequences.
pub enum CommandView {
    Nothing,
    Say(Seq<char>),
    Exists(Seq<char>),
    Shell(Seq<char>),
    Run(Seq<char>, Seq<Seq<char>>),
    WriteStaged,
    Copy(Seq<char>, Seq<char>),
    RemoveFile(Seq<char>),
    RemoveDir(Seq<char>),
    RemoveProjectFile,
    SaveProject,
    Finish(Result<Seq<char>, Seq<char>>),
}

impl View for Command {
    type V = CommandView;

    open spec fn view(&self) -> CommandView {
        match self {
            Command::Nothing => CommandView::Nothing,
            Command::Say(s) => CommandView::Say(s@),
            Command::Exists(s) => CommandView::Exists(s@),
            Command::Shell(s) => CommandView::Shell(s@),
            Command::Run { program, args } => CommandView::Run(program@, views(args@)),
            Command::WriteStaged => CommandView::WriteStaged,
            Command::Copy { from, to } => CommandView::Copy(from@, to@),
            Command::RemoveFile(s) => CommandView::RemoveFile(s@),
            Command::RemoveDir(s) => CommandView::RemoveDir(s@),
            Command::RemoveProjectFile => CommandView::RemoveProjectFile,
            Command::SaveProject => CommandView::SaveProject,
            Command::Finish(r) => CommandView::Finish(result_view(*r)),
        }
    }
}

/// A result with its texts as character sequences.
pub open spec fn result_view(r: Result<String, String>) -> Result<Seq<char>, Seq<char>> {
    match r {
        Ok(m) => Ok(m@),
        Err(e) => Err(e@),
    }
}

/// The views of a list of commands.
pub open spec fn command_views(v: Seq<Command>) -> Seq<CommandView> {
    v.map_values(|c: Command| c@)
}

/// `program` with arguments, from string slices.
pub(crate) fn run(program: &str, args: Vec<String>) -> (c: Command)
    ensures
        c@ == CommandView::Run(program@, views(args@)),
{
    Command::Run { program: String::from_str(program), args }
}

/// Two owned strings.
pub(crate) fn strings2(a: &str, b: &str) -> (v: Vec<String>)
    ensures
        views(v@) == seq![a@, b@],
{
    let v = vec![String::from_str(a), String::from_str(b)];
    assert(views(v@) =~= seq![a@, b@]);
    v
}

/// Three owned strings.
pub(crate) fn strings3(a: &str, b: &str, c: &str) -> (v: Vec<String>)
    ensures
        views(v@) == seq![a@, b@, c@],
{
    let v = vec![String::from_str(a), String::from_str(b), String::from_str(c)];
    assert(views(v@) =~= seq![a@, b@, c@]);
    v
}

/// Four owned strings.
pub(crate) fn strings4(a: &str, b: &str, c: &str, d: &str) -> (v: Vec<String>)
    ensures
        views(v@) == seq![a@, b@, c@, d@],
{
    let v = vec![String::from_str(a), String::from_str(b), String::from_str(c), String::from_str(d)];
    assert(views(v@) =~= seq![a@, b@, c@, d@]);
    v
}

// ───────────────────────── deletion ─────────────────────────

/// The commands that remove the firewall rule of each extra port.
pub open spec fn ufw_delete_extra(ports: Seq<Seq<char>>) -> Seq<CommandView> {
    ports.map_values(|p: Seq<char>| CommandView::Run("ufw"@, seq!["delete"@, "allow"@, p]))
}

/// Stopping and removing the service unit.
pub open spec fn delete_service(svc: Seq<char>) -> Seq<CommandView> {
    seq![
        CommandView::Say("[INFO] 🧹 removing every footprint …"@),
        CommandView::Run("systemctl"@, seq!["stop"@, svc]),
        CommandView::Run("systemctl"@, seq!["disable"@, svc]),
        CommandView::RemoveFile("/etc/systemd/system/"@ + svc + ".service"@),
        CommandView::Run("systemctl"@, seq!["daemon-reload"@]),
        CommandView::Run("systemctl"@, seq!["reset-failed"@]),
    ]
}

/// Removing the nginx site and its certificate, when there is a domain.
pub open spec fn delete_nginx(domain: Seq<char>) -> Seq<CommandView> {
    if domain.len() > 0 {
        seq![
            CommandView::RemoveFile("/etc/nginx/sites-available/"@ + domain),
            CommandView::RemoveFile("/etc/nginx/sites-enabled/"@ + domain),
            CommandView::Run("certbot"@, seq!["delete"@, "--cert-name"@, domain, "--non-interactive"@]),
            CommandView::Run("nginx"@, seq!["-t"@]),
            CommandView::Run("systemctl"@, seq!["reload"@, "nginx"@]),
        ]
    } else {
        Seq::<CommandView>::empty()
    }
}

/// Removing the crontab line and the firewall rules.
pub open spec fn delete_rules(c: ConfigView) -> Seq<CommandView> {
    seq![CommandView::Shell(remove_cron_view(c))] + (if c.ufw_backend {
        seq![CommandView::Run("ufw"@, seq!["delete"@, "allow"@, c.backend_port + "/tcp"@])]
    } else {
        Seq::<CommandView>::empty()
    }) + ufw_delete_extra(port_list(c.extra_ports))
}

/// Removing a directory when it is set.
pub open spec fn remove_if_set(dir: Seq<char>) -> Seq<CommandView> {
    if dir.len() > 0 {
        seq![CommandView::RemoveDir(dir)]
    } else {
        Seq::<CommandView>::empty()
    }
}

/// Removing the directories, the saved record, and the final report.
pub open spec fn delete_tail(c: ConfigView) -> Seq<CommandView> {
    seq![CommandView::RemoveDir(c.target_dir)] + remove_if_set(c.db_dir) + remove_if_set(
        c.uploads_dir,
    ) + remove_if_set(c.backup_dir) + seq![
        CommandView::RemoveProjectFile,
        CommandView::Finish(Ok("Project removed without a trace 🧹"@)),
    ]
}

/// Everything "Delete" runs, in order: stop and remove the service, the
/// nginx site and certificate, the crontab line, the firewall rules, the
/// directories and the saved record; then it reports success. The outcome
/// of each command is ignored.
pub open spec fn delete_plan(c: ConfigView) -> Seq<CommandView> {
    delete_service(service_name_of(c)) + delete_nginx(c.domain) + delete_rules(c) + delete_tail(c)
}

/// Pushes `RemoveDir(dir)` when `dir` is set.
fn push_remove_if_set(v: &mut Vec<Command>, dir: &String)
    ensures
        command_views(final(v)@) == command_views(old(v)@) + remove_if_set(dir@),
{
    let ghost before = command_views(v@);
    if !dir.as_str().is_empty() {
        v.push(Command::RemoveDir(dir.clone()));
        assert(command_views(v@) =~= before + remove_if_set(dir@));
    } else {
        assert(command_views(v@) =~= before + remove_if_set(dir@));
    }
}

/// The commands that remove every trace of a project.
pub fn delete_commands(cfg: &ProjectConfig) -> (r: Vec<Command>)
    ensures
        command_views(r@) == delete_plan(cfg@),
{
    let svc = cfg.service_name();
    let mut v: Vec<Command> = Vec::new();
    v.push(Command::Say(String::from_str("[INFO] 🧹 removing every footprint …")));
    v.push(run("systemctl", strings2("stop", svc.as_str())));
    v.push(run("systemctl", strings2("disable", svc.as_str())));
    v.push(Command::RemoveFile(concat3("/etc/systemd/system/", svc.as_str(), ".service")));
    let mut a: Vec<String> = Vec::new();
    a.push(String::from_str("daemon-reload"));
    assert(views(a@) =~= seq!["daemon-reload"@]);
    v.push(run("systemctl", a));
    let mut b: Vec<String> = Vec::new();
    b.push(String::from_str("reset-failed"));
    assert(views(b@) =~= seq!["reset-failed"@]);
    v.push(run("systemctl", b));
    let ghost p1 = delete_service(service_name_of(cfg@));
    assert(command_views(v@) =~= p1);
    if !cfg.domain.as_str().is_empty() {
        v.push(Command::RemoveFile(concat2("/etc/nginx/sites-available/", cfg.domain.as_str())));
        v.push(Command::RemoveFile(concat2("/etc/nginx/sites-enabled/", cfg.domain.as_str())));
        v.push(
            run(
                "certbot",
                strings4("delete", "--cert-name", cfg.domain.as_str(), "--non-interactive"),
            ),
        );
        let mut t: Vec<String> = Vec::new();
        t.push(String::from_str("-t"));
        assert(views(t@) =~= seq!["-t"@]);
        v.push(run("nginx", t));
        v.push(run("systemctl", strings2("reload", "nginx")));
    }
    let ghost p2 = p1 + delete_nginx(cfg@.domain);
    assert(command_views(v@) =~= p2);
    v.push(Command::Shell(remove_cron_command(cfg)));
    if cfg.ufw_backend {
        let rule = concat2(cfg.backend_port.as_str(), "/tcp");
        v.push(run("ufw", strings3("delete", "allow", rule.as_str())));
    }
    let ghost before_ports = command_views(v@);
    let ports = split_ports(cfg.extra_ports.as_str());
    let mut i: usize = 0;
    while i < ports.len()
        invariant
            i <= ports@.len(),
            views(ports@) == port_list(cfg@.extra_ports),
            command_views(v@) == before_ports + ufw_delete_extra(views(ports@).take(i as int)),
        decreases ports@.len() - i,
    {
        let ghost prev = v@;
        v.push(run("ufw", strings3("delete", "allow", ports[i].as_str())));
        assert(views(ports@).take(i + 1) =~= views(ports@).take(i as int).push(ports@[i as int]@));
        assert(command_views(v@) =~= command_views(prev).push(v@.last()@));
        assert(ufw_delete_extra(views(ports@).take(i + 1)) =~= ufw_delete_extra(views(ports@).take(i as int)).push(
            CommandView::Run("ufw"@, seq!["delete"@, "allow"@, ports@[i as int]@]),
        ));
        i += 1;
    }
    assert(views(ports@).take(ports@.len() as int) =~= views(ports@));
    let ghost p3 = p2 + delete_rules(cfg@);
    assert(command_views(v@) =~= p3);
    let ghost prev = v@;
    v.push(Command::RemoveDir(cfg.target_dir.clone()));
    assert(command_views(v@) =~= command_views(prev).push(CommandView::RemoveDir(cfg@.target_dir)));
    let ghost t0 = seq![CommandView::RemoveDir(cfg@.target_dir)];
    assert(command_views(v@) =~= p3 + t0);
    push_remove_if_set(&mut v, &cfg.db_dir);
    let ghost t1 = t0 + remove_if_set(cfg@.db_dir);
    assert(command_views(v@) =~= p3 + t1);
    push_remove_if_set(&mut v, &cfg.uploads_dir);
    let ghost t2 = t1 + remove_if_set(cfg@.uploads_dir);
    assert(command_views(v@) =~= p3 + t2);
    push_remove_if_set(&mut v, &cfg.backup_dir);
    let ghost t3 = t2 + remove_if_set(cfg@.backup_dir);
    assert(command_views(v@) =~= p3 + t3);
    let ghost prev2 = v@;
    v.push(Command::RemoveProjectFile);
    v.push(Command::Finish(Ok(String::from_str("Project removed without a trace 🧹"))));
    assert(command_views(v@) =~= command_views(prev2) + seq![
        CommandView::RemoveProjectFile,
        CommandView::Finish(Ok("Project removed without a trace 🧹"@)),
    ]);
    assert(delete_tail(cfg@) =~= t3 + seq![
        CommandView::RemoveProjectFile,
        CommandView::Finish(Ok("Project removed without a trace 🧹"@)),
    ]);
    assert(command_views(v@) =~= p3 + delete_tail(cfg@));
    v
}

/// Removing a project closes the firewall rule of every extra port it
/// listed: each non-blank entry of the comma separated list, trimmed.
pub proof fn lemma_delete_closes_every_extra_port(c: ConfigView, i: int)
    requires
        0 <= i < split_char(c.extra_ports, ',').len(),
        trim(split_char(c.extra_ports, ',')[i]).len() > 0,
    ensures
        delete_plan(c).contains(
            CommandView::Run("ufw"@, seq!["delete"@, "allow"@, trim(split_char(c.extra_ports, ',')[i])]),
        ),
{
    lemma_port_list_has(c.extra_ports, i);
    let pl = port_list(c.extra_ports);
    let p = trim(split_char(c.extra_ports, ',')[i]);
    let x = CommandView::Run("ufw"@, seq!["delete"@, "allow"@, p]);
    let j = choose|j: int| 0 <= j < pl.len() && pl[j] == p;
    assert(ufw_delete_extra(pl)[j] == x);
    let a = seq![CommandView::Shell(remove_cron_view(c))] + (if c.ufw_backend {
        seq![CommandView::Run("ufw"@, seq!["delete"@, "allow"@, c.backend_port + "/tcp"@])]
    } else {
        Seq::<CommandView>::empty()
    });
    assert(delete_rules(c) == a + ufw_delete_extra(pl));
    assert(delete_rules(c)[a.len() + j] == x);
    let pre = delete_service(service_name_of(c)) + delete_nginx(c.domain);
    assert(delete_plan(c) == pre + delete_rules(c) + delete_tail(c));
    assert(delete_plan(c)[pre.len() + a.len() + j] == x);
}

} // verus!
