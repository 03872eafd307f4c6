//! What the shell and system operations compute before they run: the files
//! to stage, the crontab commands, the services to watch, how `du` output
//! and the mounted disks are read, the health-check address and the
//! bandwidth rates.

use vstd::prelude::*;
use vstd::string::*;
use crate::config::{
    health_path, health_path_of, retention_of, service_name_of, staging_dir_of, ConfigView,
    ProjectConfig,
};
use crate::templates::{
    backend_service, backup_sh, backup_vars, deploy_sh, deploy_vars, nginx_conf, nginx_vars,
    render_view, service_vars, BACKUP_TPL, DEPLOY_TPL, NGINX_TPL, SERVICE_TPL, byte_len,
};
use crate::text::{
    chars_of, concat2, concat3, extend_str, is_whitespace, is_ws, parse_unsigned, parse_unsigned_str,
    string_of, sub_chars, trim_start, views,
};

verus! {

// ───────────────────────── staged files ─────────────────────────

/// A file to write into the staging directory.
pub struct StagedFile {
    pub path: String,
    pub contents: String,
    /// Whether the file is a script to mark executable.
    pub executable: bool,
}

/// The staged files as (path, contents, executable) triples.
pub open spec fn staged_views(v: Seq<StagedFile>) -> Seq<(Seq<char>, Seq<char>, bool)> {
    v.map_values(|f: StagedFile| (f.path@, f.contents@, f.executable))
}

/// The files that "Files" stages, in the order they are written: deploy.sh,
/// the systemd unit, the nginx site when a domain is set, and backup.sh
/// when backups are enabled.
pub open spec fn staged_plan(c: ConfigView) -> Seq<(Seq<char>, Seq<char>, bool)> {
    let s = staging_dir_of(c);
    let base = seq![
        (s + "/deploy.sh"@, render_view(DEPLOY_TPL@, deploy_vars(c)), true),
        (s + "/"@ + service_name_of(c) + ".service"@, render_view(SERVICE_TPL@, service_vars(c)), false),
    ];
    let with_nginx = if c.domain.len() > 0 {
        base.push((s + "/nginx-"@ + c.domain + ".conf"@, render_view(NGINX_TPL@, nginx_vars(c)), false))
    } else {
        base
    };
    if c.backup_enabled {
        with_nginx.push((s + "/backup.sh"@, render_view(BACKUP_TPL@, backup_vars(c)), true))
    } else {
        with_nginx
    }
}

/// The editable files of a project, ready to be written.
pub fn staged_files(cfg: &ProjectConfig) -> (r: Vec<StagedFile>)
    requires
        cfg.backup_enabled ==> retention_of(cfg@) < 0xffff_ffff,
    ensures
        staged_views(r@) == staged_plan(cfg@),
{
    let staging = cfg.staging_dir();
    let svc = cfg.service_name();
    let mut files: Vec<StagedFile> = Vec::new();
    files.push(
        StagedFile {
            path: concat2(staging.as_str(), "/deploy.sh"),
            contents: deploy_sh(cfg),
            executable: true,
        },
    );
    files.push(
        StagedFile {
            path: concat3(concat2(staging.as_str(), "/").as_str(), svc.as_str(), ".service"),
            contents: backend_service(cfg),
            executable: false,
        },
    );
    if !cfg.domain.as_str().is_empty() {
        files.push(
            StagedFile {
                path: concat3(concat2(staging.as_str(), "/nginx-").as_str(), cfg.domain.as_str(), ".conf"),
                contents: nginx_conf(cfg),
                executable: false,
            },
        );
    }
    if cfg.backup_enabled {
        files.push(
            StagedFile {
                path: concat2(staging.as_str(), "/backup.sh"),
                contents: backup_sh(cfg),
                executable: true,
            },
        );
    }
    assert(staged_views(files@) =~= staged_plan(cfg@));
    files
}

// ───────────────────────── crontab ─────────────────────────

/// The marker that tags a project's crontab line.
pub open spec fn cron_tag(c: ConfigView) -> Seq<char> {
    "vps-deployer:"@ + c.project_name
}

/// The daily 03:00 backup line of a project.
pub open spec fn cron_line(c: ConfigView) -> Seq<char> {
    "0 3 * * * /usr/bin/env bash '"@ + staging_dir_of(c) + "/backup.sh' >> '"@ + c.backup_dir
        + "/cron.log' 2>&1 # "@ + cron_tag(c)
}

/// The shell command that replaces the project's crontab line by a fresh one.
pub open spec fn install_cron_view(c: ConfigView) -> Seq<char> {
    "(crontab -l 2>/dev/null | grep -v '"@ + cron_tag(c) + "' || true; echo '"@ + cron_line(c)
        + "') | crontab -"@
}

/// The shell command that removes the project's crontab line.
pub open spec fn remove_cron_view(c: ConfigView) -> Seq<char> {
    "(crontab -l 2>/dev/null | grep -v '"@ + cron_tag(c) + "' || true) | crontab -"@
}

/// The shell command that installs the project's daily backup line.
pub fn install_cron_command(cfg: &ProjectConfig) -> (r: String)
    ensures
        r@ == install_cron_view(cfg@),
{
    let staging = cfg.staging_dir();
    let mut v: Vec<char> = chars_of("(crontab -l 2>/dev/null | grep -v '");
    extend_str(&mut v, "vps-deployer:");
    extend_str(&mut v, cfg.project_name.as_str());
    extend_str(&mut v, "' || true; echo '");
    extend_str(&mut v, "0 3 * * * /usr/bin/env bash '");
    extend_str(&mut v, staging.as_str());
    extend_str(&mut v, "/backup.sh' >> '");
    extend_str(&mut v, cfg.backup_dir.as_str());
    extend_str(&mut v, "/cron.log' 2>&1 # ");
    extend_str(&mut v, "vps-deployer:");
    extend_str(&mut v, cfg.project_name.as_str());
    extend_str(&mut v, "') | crontab -");
    assert(v@ =~= install_cron_view(cfg@));
    string_of(&v)
}

/// The shell command that removes the project's backup line.
pub fn remove_cron_command(cfg: &ProjectConfig) -> (r: String)
    ensures
        r@ == remove_cron_view(cfg@),
{
    let mut v: Vec<char> = chars_of("(crontab -l 2>/dev/null | grep -v '");
    extend_str(&mut v, "vps-deployer:");
    extend_str(&mut v, cfg.project_name.as_str());
    extend_str(&mut v, "' || true) | crontab -");
    assert(v@ =~= remove_cron_view(cfg@));
    string_of(&v)
}

// ───────────────────────── services ─────────────────────────

/// The systemd units the monitor watches: the project's backend first
/// when a project is watched, then nginx and ufw.
pub open spec fn watched_services(c: Option<ConfigView>) -> Seq<Seq<char>> {
    match c {
        Some(c) => seq![service_name_of(c), "nginx"@, "ufw"@],
        None => seq!["nginx"@, "ufw"@],
    }
}

/// The systemd units to watch for a project, or for none.
pub fn service_names(cfg: Option<&ProjectConfig>) -> (r: Vec<String>)
    ensures
        views(r@) == watched_services(match cfg {
            Some(c) => Some(c@),
            None => None,
        }),
{
    let mut names: Vec<String> = Vec::new();
    if let Some(c) = cfg {
        names.push(c.service_name());
    }
    names.push(String::from_str("nginx"));
    names.push(String::from_str("ufw"));
    assert(views(names@) =~= watched_services(match cfg {
        Some(c) => Some(c@),
        None => None,
    }));
    names
}

// ───────────────────────── du output ─────────────────────────

/// The characters of `s` up to its first white space.
pub open spec fn word_prefix(s: Seq<char>) -> Seq<char>
    decreases s.len(),
{
    if s.len() == 0 || is_ws(s[0]) {
        Seq::<char>::empty()
    } else {
        seq![s[0]] + word_prefix(s.drop_first())
    }
}

/// The first white-space separated word of `s` (empty when there is none).
pub open spec fn first_word(s: Seq<char>) -> Seq<char> {
    word_prefix(trim_start(s))
}

/// The size in bytes that `du -sb` reports: its first word as a number.
pub open spec fn du_size(out: Seq<char>) -> Option<nat> {
    parse_unsigned(first_word(out), 0xffff_ffff_ffff_ffff)
}

proof fn lemma_word_prefix_take(s: Seq<char>, j: int)
    requires
        0 <= j <= s.len(),
        forall|k: int| 0 <= k < j ==> !is_ws(#[trigger] s[k]),
        j == s.len() || is_ws(s[j]),
    ensures
        word_prefix(s) == s.take(j),
    decreases j,
{
    if j == 0 {
        assert(s.take(0) =~= Seq::<char>::empty());
    } else {
        lemma_word_prefix_take(s.drop_first(), j - 1);
        assert(seq![s[0]] + s.drop_first().take(j - 1) =~= s.take(j));
    }
}

/// Reads the size that `du -sb <dir>` printed.
pub fn parse_du_size(out: &str) -> (r: Option<u64>)
    ensures
        match du_size(out@) {
            Some(n) => r == Some(n as u64),
            None => r is None,
        },
{
    let v = chars_of(out);
    let mut lo: usize = 0;
    assert(v@.skip(0) =~= v@);
    while lo < v.len() && is_whitespace(v[lo])
        invariant
            lo <= v.len(),
            v@ == out@,
            trim_start(v@) == trim_start(v@.skip(lo as int)),
        decreases v.len() - lo,
    {
        assert(v@.skip(lo as int).drop_first() =~= v@.skip(lo + 1));
        lo += 1;
    }
    let ghost t = v@.skip(lo as int);
    assert(trim_start(t) == t);
    let mut hi = lo;
    while hi < v.len() && !is_whitespace(v[hi])
        invariant
            lo <= hi <= v.len(),
            t == v@.skip(lo as int),
            forall|k: int| 0 <= k < hi - lo ==> !is_ws(#[trigger] t[k]),
        decreases v.len() - hi,
    {
        hi += 1;
    }
    proof {
        lemma_word_prefix_take(t, hi - lo);
        assert(t.take(hi - lo) =~= v@.subrange(lo as int, hi as int));
    }
    let word = string_of(&sub_chars(&v, lo, hi));
    parse_unsigned_str(word.as_str(), 0xffff_ffff_ffff_ffff)
}

// ───────────────────────── disks ─────────────────────────

/// A mounted file system: where it is mounted, its size and free space.
pub struct DiskInfo {
    pub mount_point: String,
    pub total: u64,
    pub available: u64,
}

/// Whether `base` is a leading run of whole components of `path`, as
/// `std::path::Path::starts_with` decides.
pub uninterp spec fn path_starts_with(path: Seq<char>, base: Seq<char>) -> bool;

/// `std::path::Path::starts_with` from std. It compares paths component by
/// component after std's own normalisation, which is not restated here: the
/// contract only names the result.
#[verifier::external_body]
fn starts_with_path(path: &str, base: &str) -> (b: bool)
    ensures
        b == path_starts_with(path@, base@),
{
    std::path::Path::new(path).starts_with(base)
}

/// Among the disks whose mount point lies above the path (`under[i]`),
/// the index of the first with the longest mount point.
pub open spec fn best_disk(disks: Seq<DiskInfo>, under: Seq<bool>) -> Option<int>
    decreases disks.len(),
{
    if disks.len() == 0 {
        None
    } else {
        let i = disks.len() - 1;
        let b = best_disk(disks.drop_last(), under.take(i));
        if under[i] && (b is None || byte_len(disks[i].mount_point@) > byte_len(
            disks[b->0].mount_point@,
        )) {
            Some(i)
        } else {
            b
        }
    }
}

/// Total and used bytes of the disk a path lives on: the disk with the
/// longest mount point above the path, or else the first disk.
pub open spec fn disk_usage_view(disks: Seq<DiskInfo>, under: Seq<bool>) -> Option<(u64, u64)> {
    let d = match best_disk(disks, under) {
        Some(i) => Some(disks[i]),
        None => if disks.len() > 0 {
            Some(disks[0])
        } else {
            None
        },
    };
    match d {
        Some(d) => Some(
            (d.total, if d.available > d.total {
                0u64
            } else {
                (d.total - d.available) as u64
            }),
        ),
        None => None,
    }
}

proof fn lemma_best_disk_in_range(disks: Seq<DiskInfo>, under: Seq<bool>)
    ensures
        best_disk(disks, under) matches Some(i) ==> 0 <= i < disks.len(),
    decreases disks.len(),
{
    if disks.len() > 0 {
        lemma_best_disk_in_range(disks.drop_last(), under.take(disks.len() - 1));
    }
}

/// The byte length of a string, as `str::len` counts it.
fn str_bytes(s: &str) -> (n: u128)
    ensures
        n == byte_len(s@),
{
    let v = chars_of(s);
    let mut n: u128 = 0;
    let mut i: usize = 0;
    while i < v.len()
        invariant
            i <= v.len(),
            v@ == s@,
            n == byte_len(v@.take(i as int)),
            n <= 4 * i,
        decreases v.len() - i,
    {
        assert(v@.take(i + 1).drop_last() =~= v@.take(i as int));
        let u = v[i] as u32;
        let w: u128 = if u < 0x80 {
            1
        } else if u < 0x800 {
            2
        } else if u < 0x10000 {
            3
        } else {
            4
        };
        n = n + w;
        i += 1;
    }
    assert(v@.take(v.len() as int) =~= v@);
    n
}

/// Total and used bytes of the disk a path lives on, given for each disk
/// whether its mount point lies above the path.
pub fn choose_disk(disks: &Vec<DiskInfo>, under: &Vec<bool>) -> (r: Option<(u64, u64)>)
    requires
        under@.len() == disks@.len(),
    ensures
        r == disk_usage_view(disks@, under@),
{
    let mut best: Option<usize> = None;
    let mut best_len: u128 = 0;
    let mut i: usize = 0;
    while i < disks.len()
        invariant
            i <= disks@.len() == under@.len(),
            best == (match best_disk(disks@.take(i as int), under@.take(i as int)) {
                Some(k) => Some(k as usize),
                None => None::<usize>,
            }),
            best matches Some(k) ==> k < i && best_len == byte_len(disks@[k as int].mount_point@),
        decreases disks@.len() - i,
    {
        proof {
            lemma_best_disk_in_range(disks@.take(i as int), under@.take(i as int));
            assert(disks@.take(i + 1).drop_last() =~= disks@.take(i as int));
            assert(under@.take(i + 1).take(i as int) =~= under@.take(i as int));
            if let Some(k) = best {
                assert(disks@.take(i as int)[k as int] == disks@[k as int]);
            }
        }
        let len = str_bytes(disks[i].mount_point.as_str());
        if under[i] && (best.is_none() || len > best_len) {
            best = Some(i);
            best_len = len;
        }
        i += 1;
    }
    assert(disks@.take(disks@.len() as int) =~= disks@);
    assert(under@.take(disks@.len() as int) =~= under@);
    proof {
        lemma_best_disk_in_range(disks@, under@);
    }
    let pick: Option<usize> = match best {
        Some(k) => Some(k),
        None => if disks.len() > 0 {
            Some(0)
        } else {
            None
        },
    };
    match pick {
        Some(k) => {
            let total = disks[k].total;
            let avail = disks[k].available;
            Some((total, if avail > total { 0 } else { total - avail }))
        },
        None => None,
    }
}

/// Whether each disk's mount point lies above `path`.
pub open spec fn mounts_above(path: Seq<char>, disks: Seq<DiskInfo>) -> Seq<bool> {
    disks.map_values(|d: DiskInfo| path_starts_with(path, d.mount_point@))
}

/// The path whose disk is measured: `path`, or `/` when it is empty.
pub open spec fn probe_path(path: Seq<char>) -> Seq<char> {
    if path.len() == 0 {
        "/"@
    } else {
        path
    }
}

/// Total and used bytes of the disk that `path` lives on.
pub fn disk_usage(path: &str, disks: &Vec<DiskInfo>) -> (r: Option<(u64, u64)>)
    ensures
        r == disk_usage_view(disks@, mounts_above(probe_path(path@), disks@)),
{
    let p: &str = if path.is_empty() {
        "/"
    } else {
        path
    };
    let mut under: Vec<bool> = Vec::new();
    let mut i: usize = 0;
    while i < disks.len()
        invariant
            i <= disks@.len(),
            p@ == probe_path(path@),
            under@ == mounts_above(p@, disks@.take(i as int)),
        decreases disks@.len() - i,
    {
        under.push(starts_with_path(p, disks[i].mount_point.as_str()));
        assert(mounts_above(p@, disks@.take(i + 1)) =~= mounts_above(p@, disks@.take(i as int)).push(
            path_starts_with(p@, disks@[i as int].mount_point@),
        ));
        i += 1;
    }
    assert(disks@.take(disks@.len() as int) =~= disks@);
    choose_disk(disks, &under)
}

// ───────────────────────── health and rates ─────────────────────────

/// The address of the API health check: the backend port on the loopback
/// interface, and the health path.
pub open spec fn health_url_of(c: ConfigView) -> Seq<char> {
    "http://127.0.0.1:"@ + c.backend_port + health_path_of(c)
}

/// The address of the API health check.
pub fn health_url(cfg: &ProjectConfig) -> (r: String)
    ensures
        r@ == health_url_of(cfg@),
{
    let path = health_path(cfg);
    concat3("http://127.0.0.1:", cfg.backend_port.as_str(), path.as_str())
}

/// KiB per second received and sent since the previous sample a second
/// ago; zero before the first sample.
pub open spec fn rates_view(prev: Option<(u64, u64)>, rx: u64, tx: u64) -> (u64, u64) {
    match prev {
        Some((pr, pt)) => (
            ((if rx >= pr { rx - pr } else { 0 }) / 1024) as u64,
            ((if tx >= pt { tx - pt } else { 0 }) / 1024) as u64,
        ),
        None => (0, 0),
    }
}

/// The bandwidth rates between two byte-counter samples.
pub fn transfer_rates(prev: Option<(u64, u64)>, rx: u64, tx: u64) -> (r: (u64, u64))
    ensures
        r == rates_view(prev, rx, tx),
{
    match prev {
        Some((pr, pt)) => (rx.saturating_sub(pr) / 1024, tx.saturating_sub(pt) / 1024),
        None => (0, 0),
    }
}

/// Whether the monitor's tick `tick` (one a second) is also one for the
/// slower probes of services, directory sizes and the API: every fifth.
pub fn probe_due(tick: u64) -> (b: bool)
    ensures
        b == (tick % 5 == 0),
{
    tick % 5 == 0
}

} // verus!
