//! The smaller procedures behind the buttons: backups, restarts, running
//! the staged deploy script, installing fonts, staging files, and the
//! reports shown when they end.

use vstd::prelude::*;
use vstd::string::*;
use crate::config::{service_name_of, staging_dir_of, ConfigView, ProjectConfig};
use crate::deploy::{result_view, run, strings2, Command, CommandView};
use crate::rollout::{exists_of, out_of, Outcome, OutcomeView};
use crate::text::{
    chars_of, concat2, concat3, lemma_split_char_nonempty, split_char, split_vec, string_of, views,
};

verus! {

// ───────────────────────── lines ─────────────────────────

/// A line with the carriage return of a CRLF ending removed.
pub open spec fn strip_cr(l: Seq<char>) -> Seq<char> {
    if l.len() > 0 && l.last() == '\r' {
        l.drop_last()
    } else {
        l
    }
}

/// The lines of `s`, as `str::lines` gives them: `s` split at each `\n`,
/// a `\r` just before a `\n` dropped with it, and no empty line after a
/// final `\n`.
pub open spec fn lines_of(s: Seq<char>) -> Seq<Seq<char>> {
    let parts = split_char(s, '\n');
    let k = parts.len() - 1;
    let ended = parts.take(k).map_values(|l: Seq<char>| strip_cr(l));
    if parts[k].len() == 0 {
        ended
    } else {
        ended.push(parts[k])
    }
}

/// `l` without a final carriage return.
fn strip_cr_vec(l: &Vec<char>) -> (r: Vec<char>)
    ensures
        r@ == strip_cr(l@),
{
    let mut r: Vec<char> = Vec::new();
    let n = if l.len() > 0 && l[l.len() - 1] == '\r' {
        l.len() - 1
    } else {
        l.len()
    };
    let mut i: usize = 0;
    while i < n
        invariant
            n <= l@.len(),
            i <= n,
            r@ == l@.take(i as int),
        decreases n - i,
    {
        r.push(l[i]);
        assert(l@.take(i as int).push(l@[i as int]) =~= l@.take(i + 1));
        i += 1;
    }
    assert(r@ =~= strip_cr(l@));
    r
}

/// The lines of `s`.
pub fn lines(s: &str) -> (r: Vec<String>)
    ensures
        views(r@) == lines_of(s@),
{
    let chars = chars_of(s);
    let parts = split_vec(&chars, '\n');
    proof {
        lemma_split_char_nonempty(s@, '\n');
    }
    let k = parts.len() - 1;
    let ghost all = split_char(s@, '\n');
    let mut r: Vec<String> = Vec::new();
    let mut i: usize = 0;
    while i < k
        invariant
            chars@ == s@,
            all == split_char(s@, '\n'),
            parts@.len() == all.len(),
            forall|j: int| 0 <= j < parts@.len() ==> #[trigger] parts@[j]@ == all[j],
            k == all.len() - 1,
            i <= k,
            views(r@) == all.take(i as int).map_values(|l: Seq<char>| strip_cr(l)),
        decreases k - i,
    {
        let ghost before = r@;
        let line = strip_cr_vec(&parts[i]);
        r.push(string_of(&line));
        assert(parts@[i as int]@ == all[i as int]);
        assert(views(r@) =~= views(before).push(strip_cr(all[i as int])));
        assert(all.take(i + 1).map_values(|l: Seq<char>| strip_cr(l)) =~= all.take(
            i as int,
        ).map_values(|l: Seq<char>| strip_cr(l)).push(strip_cr(all[i as int])));
        i += 1;
    }
    assert(parts@[k as int]@ == all[k as int]);
    if parts[k].len() > 0 {
        let ghost before = r@;
        r.push(string_of(&parts[k]));
        assert(views(r@) =~= views(before).push(all[k as int]));
    }
    r
}

/// The last line of a command's output, or "done" when it printed nothing.
pub open spec fn last_line_or_done(out: Seq<char>) -> Seq<char> {
    if lines_of(out).len() == 0 {
        "done"@
    } else {
        lines_of(out).last()
    }
}

/// The last line of `out`, or "done" when there is none.
pub fn last_line(out: &str) -> (r: String)
    ensures
        r@ == last_line_or_done(out@),
{
    let ls = lines(out);
    if ls.len() == 0 {
        String::from_str("done")
    } else {
        proof {
            assert(views(ls@).last() == ls@.last()@);
        }
        ls[ls.len() - 1].clone()
    }
}

// ───────────────────────── backup ─────────────────────────

/// Where a backup run stands.
#[derive(Debug, Clone, Copy, PartialEq, Eq, Structural)]
pub enum BackupStep {
    Start,
    /// Look for the staged backup script.
    Check,
    /// Run the script, or stage the files first when it is missing.
    Found,
    /// The files were staged.
    Written,
    /// The script has run.
    Ran,
    Done,
}

/// The staged backup script of `c`.
pub open spec fn backup_script(c: ConfigView) -> Seq<char> {
    staging_dir_of(c) + "/backup.sh"@
}

/// The shell line that runs the backup script.
pub open spec fn backup_run_line(c: ConfigView) -> Seq<char> {
    "bash '"@ + backup_script(c) + "'"@
}

/// One step of a backup of `c`: it needs a backup directory, creates it,
/// stages the files when the script is missing (edits to an existing
/// script are kept), runs the script, and reports its last output line.
pub open spec fn backup_next(c: ConfigView, s: BackupStep, o: OutcomeView) -> (BackupStep, CommandView) {
    match s {
        BackupStep::Start => if c.backup_dir.len() == 0 {
            (BackupStep::Done, CommandView::Finish(Err("Backup directory not set"@)))
        } else {
            (BackupStep::Check, CommandView::Run("mkdir"@, seq!["-p"@, c.backup_dir]))
        },
        BackupStep::Check => (BackupStep::Found, CommandView::Exists(backup_script(c))),
        BackupStep::Found => if exists_of(o) {
            (BackupStep::Ran, CommandView::Shell(backup_run_line(c)))
        } else {
            (BackupStep::Written, CommandView::WriteStaged)
        },
        BackupStep::Written => match out_of(o) {
            Ok(_) => (BackupStep::Ran, CommandView::Shell(backup_run_line(c))),
            Err(e) => (BackupStep::Done, CommandView::Finish(Err(e))),
        },
        BackupStep::Ran => match out_of(o) {
            Ok(out) => (
                BackupStep::Done,
                CommandView::Finish(Ok("Backup OK — "@ + last_line_or_done(out))),
            ),
            Err(e) => (BackupStep::Done, CommandView::Finish(Err("backup failed: "@ + e))),
        },
        BackupStep::Done => (BackupStep::Done, CommandView::Nothing),
    }
}

/// How many steps at most remain before a backup is done.
pub open spec fn backup_rank(s: BackupStep) -> nat {
    match s {
        BackupStep::Start => 5,
        BackupStep::Check => 4,
        BackupStep::Found => 3,
        BackupStep::Written => 2,
        BackupStep::Ran => 1,
        BackupStep::Done => 0,
    }
}

/// The result an outcome carries.
fn result_of(o: &Outcome) -> (r: Result<String, String>)
    ensures
        result_view(r) == out_of(o@),
{
    match o {
        Outcome::Output(r) => match r {
            Ok(m) => Ok(m.clone()),
            Err(e) => Err(e.clone()),
        },
        _ => Ok(String::new()),
    }
}

/// The shell line that runs the backup script.
fn backup_line(cfg: &ProjectConfig) -> (r: String)
    ensures
        r@ == backup_run_line(cfg@),
{
    let staging = cfg.staging_dir();
    let script = concat2(staging.as_str(), "/backup.sh");
    concat3("bash '", script.as_str(), "'")
}

/// One step of a backup of `cfg`: given the step reached and what the
/// last command gave back, the next step and the command to run now.
pub fn backup_step(cfg: &ProjectConfig, step: BackupStep, outcome: &Outcome) -> (r: (
    BackupStep,
    Command,
))
    ensures
        r.0 == backup_next(cfg@, step, outcome@).0,
        r.1@ == backup_next(cfg@, step, outcome@).1,
{
    match step {
        BackupStep::Start => {
            if cfg.backup_dir.as_str().is_empty() {
                (
                    BackupStep::Done,
                    Command::Finish(Err(String::from_str("Backup directory not set"))),
                )
            } else {
                (BackupStep::Check, run("mkdir", strings2("-p", cfg.backup_dir.as_str())))
            }
        },
        BackupStep::Check => {
            let staging = cfg.staging_dir();
            (BackupStep::Found, Command::Exists(concat2(staging.as_str(), "/backup.sh")))
        },
        BackupStep::Found => {
            let found = match outcome {
                Outcome::Exists(b) => *b,
                _ => false,
            };
            if found {
                (BackupStep::Ran, Command::Shell(backup_line(cfg)))
            } else {
                (BackupStep::Written, Command::WriteStaged)
            }
        },
        BackupStep::Written => {
            match result_of(outcome) {
                Ok(_) => (BackupStep::Ran, Command::Shell(backup_line(cfg))),
                Err(e) => (BackupStep::Done, Command::Finish(Err(e))),
            }
        },
        BackupStep::Ran => {
            match result_of(outcome) {
                Ok(out) => {
                    let last = last_line(out.as_str());
                    (BackupStep::Done, Command::Finish(Ok(concat2("Backup OK — ", last.as_str()))))
                },
                Err(e) => (
                    BackupStep::Done,
                    Command::Finish(Err(concat2("backup failed: ", e.as_str()))),
                ),
            }
        },
        BackupStep::Done => (BackupStep::Done, Command::Nothing),
    }
}

/// A backup always comes to an end, and its result is reported exactly
/// when it does.
pub proof fn lemma_backup_terminates(c: ConfigView, s: BackupStep, o: OutcomeView)
    ensures
        s != BackupStep::Done ==> backup_rank(backup_next(c, s, o).0) < backup_rank(s),
        s != BackupStep::Done ==> (backup_next(c, s, o).0 == BackupStep::Done <==> backup_next(
            c,
            s,
            o,
        ).1 is Finish),
        s == BackupStep::Done ==> backup_next(c, s, o) == (BackupStep::Done, CommandView::Nothing),
{
}

/// A backup keeps an edited script: the files are staged only when the
/// script was not found.
pub proof fn lemma_backup_keeps_script(c: ConfigView, s: BackupStep, o: OutcomeView)
    ensures
        backup_next(c, s, o).1 == CommandView::WriteStaged ==> s == BackupStep::Found && !exists_of(o),
        s == BackupStep::Found && exists_of(o) ==> backup_next(c, s, o).1 == CommandView::Shell(
            backup_run_line(c),
        ),
{
}

// ───────────────────────── pull & deploy ─────────────────────────

/// The shell line that runs the staged deploy script in the project
/// directory, with its errors in its output.
pub open spec fn pull_deploy_line(c: ConfigView) -> Seq<char> {
    "cd '"@ + c.target_dir + "' && bash ./deploy.sh 2>&1"@
}

/// The shell line that runs the staged deploy script.
pub fn pull_deploy_command(cfg: &ProjectConfig) -> (r: String)
    ensures
        r@ == pull_deploy_line(cfg@),
{
    concat3("cd '", cfg.target_dir.as_str(), "' && bash ./deploy.sh 2>&1")
}

/// At most this many output lines of the deploy script are logged.
pub const PULL_TAIL: usize = 15;

/// The log lines for the output of the deploy script: its last lines,
/// newest first, at most `PULL_TAIL` of them, each marked as information.
pub open spec fn pull_report_view(out: Seq<char>) -> Seq<Seq<char>> {
    let ls = lines_of(out);
    let n = if ls.len() < PULL_TAIL {
        ls.len()
    } else {
        PULL_TAIL as nat
    };
    Seq::new(n, |j: int| "[INFO] "@ + ls[ls.len() - 1 - j])
}

/// The log lines for the output of the deploy script.
pub fn pull_report(out: &str) -> (r: Vec<String>)
    ensures
        views(r@) == pull_report_view(out@),
{
    let ls = lines(out);
    let n = if ls.len() < PULL_TAIL {
        ls.len()
    } else {
        PULL_TAIL
    };
    let mut r: Vec<String> = Vec::new();
    let mut j: usize = 0;
    while j < n
        invariant
            n <= ls@.len(),
            n <= PULL_TAIL,
            n == (if ls@.len() < PULL_TAIL { ls@.len() } else { PULL_TAIL as nat }),
            views(ls@) == lines_of(out@),
            j <= n,
            r@.len() == j,
            forall|k: int| 0 <= k < j ==> #[trigger] r@[k]@ == "[INFO] "@ + lines_of(out@)[ls@.len() - 1 - k],
        decreases n - j,
    {
        let line = concat2("[INFO] ", ls[ls.len() - 1 - j].as_str());
        proof {
            assert(views(ls@)[ls@.len() - 1 - j] == ls@[ls@.len() - 1 - j]@);
        }
        r.push(line);
        j += 1;
    }
    assert(views(r@) =~= pull_report_view(out@));
    r
}

/// The result of the deploy script as the deployment report.
pub open spec fn pull_done_view(r: Result<Seq<char>, Seq<char>>) -> Result<Seq<char>, Seq<char>> {
    match r {
        Ok(_) => Ok("Pull & deploy finished"@),
        Err(e) => Err(e),
    }
}

/// The deployment report for the result of the deploy script.
pub fn pull_done(r: &Result<String, String>) -> (d: Result<String, String>)
    ensures
        result_view(d) == pull_done_view(result_view(*r)),
{
    match r {
        Ok(_) => Ok(String::from_str("Pull & deploy finished")),
        Err(e) => Err(e.clone()),
    }
}

// ───────────────────────── restart ─────────────────────────

/// The commands that restart the backend service and reload nginx.
pub open spec fn restart_plan(c: ConfigView) -> Seq<CommandView> {
    seq![
        CommandView::Run("systemctl"@, seq!["restart"@, service_name_of(c)]),
        CommandView::Run("systemctl"@, seq!["reload"@, "nginx"@]),
    ]
}

/// The commands that restart the backend service and reload nginx.
pub fn restart_commands(cfg: &ProjectConfig) -> (r: Vec<Command>)
    ensures
        crate::deploy::command_views(r@) == restart_plan(cfg@),
{
    let svc = cfg.service_name();
    let mut r: Vec<Command> = Vec::new();
    r.push(run("systemctl", strings2("restart", svc.as_str())));
    r.push(run("systemctl", strings2("reload", "nginx")));
    assert(crate::deploy::command_views(r@) =~= restart_plan(cfg@));
    r
}

/// An error text, or "ok" for a success.
pub open spec fn error_or_ok(r: Result<Seq<char>, Seq<char>>) -> Seq<char> {
    match r {
        Ok(_) => "ok"@,
        Err(e) => e,
    }
}

/// The report of a restart from the results of its two commands: success
/// when both succeeded, else both outcomes.
pub open spec fn restart_report_view(service: Result<Seq<char>, Seq<char>>, nginx: Result<
    Seq<char>,
    Seq<char>,
>) -> Result<Seq<char>, Seq<char>> {
    if service is Ok && nginx is Ok {
        Ok("Services restarted ↻"@)
    } else {
        Err("restart failed: "@ + error_or_ok(service) + " | "@ + error_or_ok(nginx))
    }
}

/// An error text, or "ok".
fn error_text(r: &Result<String, String>) -> (t: String)
    ensures
        t@ == error_or_ok(result_view(*r)),
{
    match r {
        Ok(_) => String::from_str("ok"),
        Err(e) => e.clone(),
    }
}

/// The report of a restart.
pub fn restart_report(service: &Result<String, String>, nginx: &Result<String, String>) -> (r: Result<
    String,
    String,
>)
    ensures
        result_view(r) == restart_report_view(result_view(*service), result_view(*nginx)),
{
    if service.is_ok() && nginx.is_ok() {
        Ok(String::from_str("Services restarted ↻"))
    } else {
        let a = error_text(service);
        let b = error_text(nginx);
        let head = concat3("restart failed: ", a.as_str(), " | ");
        Err(concat2(head.as_str(), b.as_str()))
    }
}

// ───────────────────────── fonts, staging, docs ─────────────────────────

/// The shell line that installs the locale and the fonts.
pub const FONT_INSTALL: &'static str = "apt-get install -y locales fonts-noto fonts-noto-color-emoji >/dev/null 2>&1; locale-gen en_US.UTF-8 >/dev/null 2>&1; echo installed";

/// The report of the font installation.
pub open spec fn fonts_report_view(r: Result<Seq<char>, Seq<char>>) -> Result<Seq<char>, Seq<char>> {
    match r {
        Ok(_) => Ok("Packages installed — reopen the TUI in a UTF-8 terminal (LANG=en_US.UTF-8)"@),
        Err(e) => Err(e),
    }
}

/// The report of the font installation.
pub fn fonts_report(r: &Result<String, String>) -> (d: Result<String, String>)
    ensures
        result_view(d) == fonts_report_view(result_view(*r)),
{
    match r {
        Ok(_) => Ok(
            String::from_str(
                "Packages installed — reopen the TUI in a UTF-8 terminal (LANG=en_US.UTF-8)",
            ),
        ),
        Err(e) => Err(e.clone()),
    }
}

/// The report of staging the files.
pub open spec fn staged_report_view(c: ConfigView, r: Result<(), Seq<char>>) -> Result<Seq<char>, Seq<char>> {
    match r {
        Ok(_) => Ok("files staged at "@ + staging_dir_of(c) + " — review with vim"@),
        Err(e) => Err(e),
    }
}

/// The report of staging the files of `cfg`.
pub fn staged_report(cfg: &ProjectConfig, r: &Result<(), String>) -> (d: Result<String, String>)
    ensures
        result_view(d) == staged_report_view(
            cfg@,
            match *r {
                Ok(u) => Ok(u),
                Err(e) => Err(e@),
            },
        ),
{
    match r {
        Ok(_) => {
            let staging = cfg.staging_dir();
            Ok(concat3("files staged at ", staging.as_str(), " — review with vim"))
        },
        Err(e) => Err(e.clone()),
    }
}

/// Where the documentation of `c` is written.
pub open spec fn docs_path_of(c: ConfigView) -> Seq<char> {
    staging_dir_of(c) + "/DOCUMENTATION.md"@
}

/// Where the documentation of `cfg` is written.
pub fn docs_path(cfg: &ProjectConfig) -> (r: String)
    ensures
        r@ == docs_path_of(cfg@),
{
    let staging = cfg.staging_dir();
    concat2(staging.as_str(), "/DOCUMENTATION.md")
}

} // verus!
