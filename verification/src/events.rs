//! What the background tasks report back, and how the state takes it in.

use vstd::prelude::*;
use vstd::string::*;
use crate::app::{lemma_push_bounded, notified, push_bounded, App, ServiceStatus, MAX_LOGS};
use crate::text::concat2;
use crate::theme::{ascii_icons, is_ascii_set};

verus! {

/// A report from a background task.
pub enum Event {
    /// The state of the watched services.
    Heavy { services: Vec<ServiceStatus> },
    /// The answer of the API health check.
    ApiHealth { ok: bool, detail: String },
    /// A line for the activity log.
    Log(String),
    /// A notification to show.
    Notify { msg: String, level: String },
    /// A deployment finished.
    DeployDone(Result<String, String>),
    /// A project was deleted.
    Deleted(Result<String, String>),
    /// A short-lived result (backup, restart).
    Toast(Result<String, String>),
    /// The font installation finished.
    GateDone(Result<String, String>),
    /// The documentation was written to the given file, or could not be.
    DocsWritten(Result<String, String>),
    /// The editable files were staged (with the report to show), or could
    /// not be.
    FilesStaged(Result<String, String>),
}

/// Work left for the caller after an event.
pub enum Followup {
    Nothing,
    /// Read the saved projects again and hand them to `refresh_projects`.
    RefreshProjects,
}

/// `new` is `old` with the line `line` added to the log.
pub open spec fn logged(old: Seq<String>, new: Seq<String>, line: Seq<char>) -> bool {
    &&& new == push_bounded(old, new.last(), MAX_LOGS as nat)
    &&& new.last()@ == line
}

/// What taking in `ev` at time `now` does.
pub open spec fn apply_post(old: App, new: App, ev: Event, now: u64, f: Followup) -> bool {
    match ev {
        Event::Heavy { services } => new == (App { services, ..old }) && f is Nothing,
        Event::ApiHealth { ok, detail } => {
            &&& f is Nothing
            &&& logged(
                old.logs@,
                new.logs@,
                (if ok {
                    "[INFO]"@
                } else {
                    "[WARN]"@
                }) + " API health: "@ + detail@,
            )
            &&& new.api_status matches Some((b, d)) && b == ok && d@ == detail@
            &&& new == (App { logs: new.logs, api_status: new.api_status, ..old })
        },
        Event::Log(l) => new.logs@ == push_bounded(old.logs@, l, MAX_LOGS as nat) && new == (App {
            logs: new.logs,
            ..old
        }) && f is Nothing,
        Event::Notify { msg, level } => {
            &&& notified(old.notifications@, new.notifications@, msg@, level@, now)
            &&& new == (App { notifications: new.notifications, ..old })
            &&& f is Nothing
        },
        Event::DeployDone(res) => {
            &&& f is RefreshProjects
            &&& match res {
                Ok(m) => notified(old.notifications@, new.notifications@, m@, "Info"@, now)
                    && logged(old.logs@, new.logs@, "[INFO] ✅ deploy done"@),
                Err(e) => notified(old.notifications@, new.notifications@, e@, "Error"@, now)
                    && logged(old.logs@, new.logs@, "[ERROR] "@ + e@),
            }
            &&& new == (App {
                deploying: false,
                notifications: new.notifications,
                logs: new.logs,
                ..old
            })
        },
        Event::Deleted(res) => {
            &&& f is RefreshProjects
            &&& match res {
                Ok(m) => notified(old.notifications@, new.notifications@, m@, "Info"@, now),
                Err(e) => notified(old.notifications@, new.notifications@, e@, "Error"@, now),
            }
            &&& new.services@.len() == 0
            &&& new == (App {
                deploying: false,
                deployed: None,
                api_status: None,
                services: new.services,
                monitored: None,
                notifications: new.notifications,
                ..old
            })
        },
        Event::Toast(res) => {
            &&& f is Nothing
            &&& match res {
                Ok(m) => notified(old.notifications@, new.notifications@, m@, "Info"@, now)
                    && logged(old.logs@, new.logs@, "[INFO] "@ + m@),
                Err(e) => notified(old.notifications@, new.notifications@, e@, "Error"@, now)
                    && logged(old.logs@, new.logs@, "[ERROR] "@ + e@),
            }
            &&& new == (App { notifications: new.notifications, logs: new.logs, ..old })
        },
        Event::GateDone(res) => {
            &&& f is Nothing
            &&& match res {
                Ok(m) => notified(old.notifications@, new.notifications@, m@, "Info"@, now)
                    && new == (App {
                    gate_busy: false,
                    font_gate: false,
                    notifications: new.notifications,
                    ..old
                }),
                Err(e) => notified(old.notifications@, new.notifications@, e@, "Warning"@, now)
                    && is_ascii_set(new.icons) && new == (App {
                    gate_busy: false,
                    font_gate: false,
                    ascii: true,
                    icons: new.icons,
                    notifications: new.notifications,
                    ..old
                }),
            }
        },
        Event::DocsWritten(res) => {
            &&& f is Nothing
            &&& match res {
                Ok(path) => notified(old.notifications@, new.notifications@, "📖 docs: "@ + path@, "Info"@, now)
                    && logged(old.logs@, new.logs@, "[INFO] 📖 docs written to "@ + path@)
                    && new == (App { notifications: new.notifications, logs: new.logs, ..old }),
                Err(e) => notified(old.notifications@, new.notifications@, e@, "Error"@, now)
                    && new == (App { notifications: new.notifications, ..old }),
            }
        },
        Event::FilesStaged(res) => {
            &&& f is Nothing
            &&& match res {
                Ok(m) => notified(old.notifications@, new.notifications@, m@, "Info"@, now),
                Err(e) => notified(old.notifications@, new.notifications@, e@, "Error"@, now),
            }
            &&& new == (App { notifications: new.notifications, ..old })
        },
    }
}

impl App {
    /// Adds a line to the log, and says so in terms of `logged`.
    fn log_line(&mut self, line: String)
        ensures
            logged(old(self).logs@, final(self).logs@, line@),
            *final(self) == (App { logs: final(self).logs, ..*old(self) }),
    {
        let ghost before = self.logs@;
        self.push_log(line);
        proof {
            lemma_push_bounded(before, line, MAX_LOGS as nat);
        }
    }

    /// Takes in a report from a background task at time `now`.
    #[verifier::rlimit(40)]
    pub fn apply(&mut self, ev: Event, now: u64) -> (f: Followup)
        requires
            old(self).wf(),
        ensures
            apply_post(*old(self), *final(self), ev, now, f),
            final(self).wf(),
    {
        match ev {
            Event::Heavy { services } => {
                self.services = services;
                Followup::Nothing
            },
            Event::ApiHealth { ok, detail } => {
                let tag: &str = if ok {
                    "[INFO]"
                } else {
                    "[WARN]"
                };
                let line = concat2(concat2(tag, " API health: ").as_str(), detail.as_str());
                self.log_line(line);
                self.api_status = Some((ok, detail));
                Followup::Nothing
            },
            Event::Log(l) => {
                self.push_log(l);
                Followup::Nothing
            },
            Event::Notify { msg, level } => {
                self.notify(msg, level.as_str(), now);
                Followup::Nothing
            },
            Event::DeployDone(res) => {
                self.deploying = false;
                match res {
                    Ok(m) => {
                        self.notify(m, "Info", now);
                        self.log_line(String::from_str("[INFO] ✅ deploy done"));
                    },
                    Err(e) => {
                        let line = concat2("[ERROR] ", e.as_str());
                        self.notify(e, "Error", now);
                        self.log_line(line);
                    },
                }
                Followup::RefreshProjects
            },
            Event::Deleted(res) => {
                self.deploying = false;
                self.deployed = None;
                self.api_status = None;
                self.services = Vec::new();
                self.monitored = None;
                match res {
                    Ok(m) => self.notify(m, "Info", now),
                    Err(e) => self.notify(e, "Error", now),
                }
                Followup::RefreshProjects
            },
            Event::Toast(res) => {
                match res {
                    Ok(m) => {
                        let line = concat2("[INFO] ", m.as_str());
                        self.notify(m, "Info", now);
                        self.log_line(line);
                    },
                    Err(e) => {
                        let line = concat2("[ERROR] ", e.as_str());
                        self.notify(e, "Error", now);
                        self.log_line(line);
                    },
                }
                Followup::Nothing
            },
            Event::GateDone(res) => {
                self.gate_busy = false;
                self.font_gate = false;
                match res {
                    Ok(m) => self.notify(m, "Info", now),
                    Err(e) => {
                        self.notify(e, "Warning", now);
                        self.ascii = true;
                        self.icons = ascii_icons();
                    },
                }
                Followup::Nothing
            },
            Event::DocsWritten(res) => {
                match res {
                    Ok(path) => {
                        self.log_line(concat2("[INFO] 📖 docs written to ", path.as_str()));
                        self.notify(concat2("📖 docs: ", path.as_str()), "Info", now);
                    },
                    Err(e) => self.notify(e, "Error", now),
                }
                Followup::Nothing
            },
            Event::FilesStaged(res) => {
                match res {
                    Ok(m) => self.notify(m, "Info", now),
                    Err(e) => self.notify(e, "Error", now),
                }
                Followup::Nothing
            },
        }
    }
}

} // verus!
