//! Keyboard and mouse handling and action dispatch. Each input changes the
//! application state and names at most one piece of outside work (an
//! `Effect`) for the caller to perform.

use vstd::prelude::*;
use vstd::string::*;
use crate::app::{
    collected, lemma_push_bounded, notified, push_bounded, rect_contains, tab_at, tab_index, App, Action, Click,
    FormField, LeftTab, Rect, contains, form_holds, MAX_LOGS,
};
use crate::config::{stack_at, stack_index, validate, validation_of, ConfigView, ProjectConfig};
use crate::text::concat3;
use crate::theme::{ascii_icons, is_ascii_set};

verus! {

/// Outside work that an input asks for.
pub enum Effect {
    /// Nothing to do.
    Nothing,
    /// Leave the program.
    Quit,
    /// Hand the key to the text editor of field `idx` of tab `tab`.
    EditText { tab: usize, idx: usize },
    /// Install the locale and font packages.
    InstallFonts,
    /// Deploy the project, from the staged files when `use_staged`.
    Deploy { cfg: ProjectConfig, use_staged: bool },
    /// Create the deploy directory and stage the editable files.
    WriteFiles(ProjectConfig),
    /// Run the staged deploy.sh.
    PullDeploy(ProjectConfig),
    /// Probe the API health endpoint.
    TestApi(ProjectConfig),
    /// Restart the backend service and reload nginx.
    Restart(ProjectConfig),
    /// Remove every trace of the project from the server.
    DeleteProject(ProjectConfig),
    /// Run the backup script.
    Backup(ProjectConfig),
    /// Write the project documentation.
    WriteDocs(ProjectConfig),
}

/// The keys the interface reacts to.
#[derive(Debug, Clone, Copy, PartialEq, Eq, Structural)]
pub enum KeyCode {
    Char(char),
    F(u8),
    Up,
    Down,
    Left,
    Right,
    Enter,
    Tab,
    BackTab,
    PageUp,
    PageDown,
    Other,
}

/// A key press, and whether Control was held.
#[derive(Debug, Clone, Copy, PartialEq, Eq, Structural)]
pub struct Key {
    pub code: KeyCode,
    pub ctrl: bool,
}

/// What the mouse did.
#[derive(Debug, Clone, Copy, PartialEq, Eq, Structural)]
pub enum MouseKind {
    Moved,
    LeftDown,
    ScrollUp,
    ScrollDown,
    Other,
}

/// A mouse event at a terminal cell.
#[derive(Debug, Clone, Copy, PartialEq, Eq, Structural)]
pub struct Mouse {
    pub kind: MouseKind,
    pub column: u16,
    pub row: u16,
}

// ───────────────────────── views ─────────────────────────

/// The view of an optional record.
pub open spec fn opt_view(o: Option<ProjectConfig>) -> Option<ConfigView> {
    match o {
        Some(c) => Some(c@),
        None => None,
    }
}

/// The project selected in the project list, if the selection is on one.
pub open spec fn selected_project(a: App) -> Option<ConfigView> {
    if a.projects_focus < a.projects@.len() {
        Some(a.projects@[a.projects_focus as int]@)
    } else {
        None
    }
}

/// `new` is `old` with only a notification added.
pub open spec fn only_notified(old: App, new: App, msg: Seq<char>, level: Seq<char>, now: u64) -> bool {
    &&& notified(old.notifications@, new.notifications@, msg, level, now)
    &&& new == (App { notifications: new.notifications, ..old })
}

/// What the delete buttons do for the project `target`: the first press
/// arms the deletion and asks for a second press; a second press within
/// five seconds on the same project deletes it.
pub open spec fn delete_post(old: App, new: App, target: Option<ConfigView>, now: u64, e: Effect) -> bool {
    match target {
        None => only_notified(old, new, "Nothing to delete"@, "Warning"@, now) && e is Nothing,
        Some(c) => {
            let armed = (old.confirm_delete matches Some(t) && now < t + 5000) && (
            old.pending_delete matches Some(p) && p@.project_name == c.project_name);
            if armed {
                let was_deployed = old.deployed matches Some(d) && d@.project_name == c.project_name;
                &&& e matches Effect::DeleteProject(cfg) && cfg@ == c
                &&& new == (App {
                    confirm_delete: None,
                    pending_delete: None,
                    deploying: true,
                    deployed: if was_deployed {
                        None
                    } else {
                        old.deployed
                    },
                    monitored: if was_deployed {
                        None
                    } else {
                        old.monitored
                    },
                    ..old
                })
            } else {
                &&& e is Nothing
                &&& new.pending_delete matches Some(p) && p@ == c
                &&& new.confirm_delete == Some(now)
                &&& notified(
                    old.notifications@,
                    new.notifications@,
                    "⚠ press DELETE again to erase '"@ + c.project_name + "'"@,
                    "Warning"@,
                    now,
                )
                &&& new == (App {
                    pending_delete: new.pending_delete,
                    confirm_delete: Some(now),
                    notifications: new.notifications,
                    ..old
                })
            }
        },
    }
}

/// Deleting takes two presses on the same project: from an unarmed state
/// the first press only asks for confirmation; a second press less than
/// five seconds later deletes the project and disarms, while a later one
/// only asks again.
pub proof fn lemma_delete_needs_two_presses(
    a0: App,
    a1: App,
    a2: App,
    c: ConfigView,
    t1: u64,
    t2: u64,
    e1: Effect,
    e2: Effect,
)
    requires
        a0.confirm_delete is None,
        delete_post(a0, a1, Some(c), t1, e1),
        delete_post(a1, a2, Some(c), t2, e2),
    ensures
        e1 is Nothing,
        t2 < t1 + 5000 ==> (e2 matches Effect::DeleteProject(cfg) && cfg@ == c),
        t2 < t1 + 5000 ==> a2.confirm_delete is None && a2.pending_delete is None,
        t2 >= t1 + 5000 ==> e2 is Nothing && a2.confirm_delete == Some(t2),
{
}

/// A deployment is only ever started for a record that passes
/// validation, whichever button asked for it.
pub proof fn lemma_deploys_are_valid(old: App, new: App, action: Action, now: u64, e: Effect)
    requires
        trigger_post(old, new, action, now, e),
    ensures
        e matches Effect::Deploy { cfg, .. } ==> validation_of(cfg@) is Ok,
{
    match action {
        Action::DeployRegen | Action::DeployStaged => {},
        _ => {},
    }
}

/// The two deploy buttons differ only in where the staged files come
/// from: on a form that passes validation, "Deploy" regenerates them from
/// the form and "My edits" uses the staged files; both deploy the form's
/// record. On a form that fails validation neither deploys.
pub proof fn lemma_deploy_buttons(old: App, new: App, now: u64, e: Effect, staged: bool)
    requires
        trigger_post(old, new, if staged { Action::DeployStaged } else { Action::DeployRegen }, now, e),
    ensures
        validation_of(collected(old.tabs@)) is Ok ==> (e matches Effect::Deploy { cfg, use_staged }
            && use_staged == staged && cfg@ == collected(old.tabs@)),
        validation_of(collected(old.tabs@)) is Err ==> e is Nothing,
{
}

/// The project the documentation is written for: on the Projects tab the
/// selected project or else the deployed one; elsewhere the deployed
/// project or else the forms, when they name a deploy directory.
pub open spec fn docs_target(a: App) -> Option<ConfigView> {
    if a.left_tab == LeftTab::Projects {
        match selected_project(a) {
            Some(c) => Some(c),
            None => opt_view(a.deployed),
        }
    } else if a.deployed is Some {
        opt_view(a.deployed)
    } else if collected(a.tabs@).target_dir.len() == 0 {
        None
    } else {
        Some(collected(a.tabs@))
    }
}

/// The project that "Backup" backs up: the selected one, or else the
/// deployed one.
pub open spec fn backup_target(a: App) -> Option<ConfigView> {
    match selected_project(a) {
        Some(c) => Some(c),
        None => opt_view(a.deployed),
    }
}

/// What pressing the button of `action` does, at time `now`.
pub open spec fn trigger_post(old: App, new: App, action: Action, now: u64, e: Effect) -> bool {
    match action {
        Action::DeployRegen | Action::DeployStaged => {
            let c = collected(old.tabs@);
            match validation_of(c) {
                Err(m) => only_notified(old, new, m, "Error"@, now) && e is Nothing,
                Ok(_) => {
                    &&& e matches Effect::Deploy { cfg, use_staged } && cfg@ == c && use_staged == (
                    action == Action::DeployStaged)
                    &&& opt_view(new.deployed) == Some(c)
                    &&& opt_view(new.monitored) == Some(c)
                    &&& new == (App {
                        deploying: true,
                        deployed: new.deployed,
                        monitored: new.monitored,
                        ..old
                    })
                },
            }
        },
        Action::WriteFiles => {
            let c = collected(old.tabs@);
            if c.target_dir.len() == 0 {
                only_notified(old, new, "Deploy Directory is required first"@, "Error"@, now)
                    && e is Nothing
            } else {
                new == old && (e matches Effect::WriteFiles(cfg) && cfg@ == c)
            }
        },
        Action::PullDeploy => match old.deployed {
            Some(d) => {
                &&& e matches Effect::PullDeploy(cfg) && cfg@ == d@
                &&& new.logs@.len() == push_bounded(old.logs@, new.logs@.last(), MAX_LOGS as nat).len()
                &&& new.logs@ == push_bounded(old.logs@, new.logs@.last(), MAX_LOGS as nat)
                &&& new.logs@.last()@ == "[INFO] ⇩ running deploy.sh (pull + build)…"@
                &&& new == (App { deploying: true, logs: new.logs, ..old })
            },
            None => only_notified(old, new, "Deploy a project first"@, "Warning"@, now) && e is Nothing,
        },
        Action::TestApi => match old.deployed {
            Some(d) => new == old && (e matches Effect::TestApi(cfg) && cfg@ == d@),
            None => only_notified(old, new, "No deployed project"@, "Warning"@, now) && e is Nothing,
        },
        Action::Restart => match old.deployed {
            Some(d) => new == old && (e matches Effect::Restart(cfg) && cfg@ == d@),
            None => only_notified(old, new, "No deployed project"@, "Warning"@, now) && e is Nothing,
        },
        Action::Delete => delete_post(old, new, opt_view(old.deployed), now, e),
        Action::DeleteProjectSel => delete_post(old, new, selected_project(old), now, e),
        Action::LoadProject => match selected_project(old) {
            Some(c) => {
                &&& e is Nothing
                &&& opt_view(new.monitored) == Some(c)
                &&& opt_view(new.deployed) == Some(c)
                &&& form_holds(new.tabs@, c)
                &&& notified(
                    old.notifications@,
                    new.notifications@,
                    "'"@ + c.project_name + "' loaded — edit anything, then deploy"@,
                    "Info"@,
                    now,
                )
                &&& new == (App {
                    tabs: new.tabs,
                    monitored: new.monitored,
                    deployed: new.deployed,
                    left_tab: LeftTab::Review,
                    notifications: new.notifications,
                    ..old
                })
            },
            None => only_notified(old, new, "No project selected"@, "Warning"@, now) && e is Nothing,
        },
        Action::BackupNow => match backup_target(old) {
            Some(c) => {
                &&& e matches Effect::Backup(cfg) && cfg@ == c
                &&& only_notified(old, new, "Backing up '"@ + c.project_name + "'…"@, "Info"@, now)
            },
            None => only_notified(old, new, "No project to back up"@, "Warning"@, now) && e is Nothing,
        },
        Action::NewProject => {
            &&& e is Nothing
            &&& crate::app::tabs_fresh(new.tabs@)
            &&& notified(old.notifications@, new.notifications@, "New project form ready"@, "Info"@, now)
            &&& new == (App {
                tabs: new.tabs,
                deployed: None,
                left_tab: LeftTab::Repos,
                notifications: new.notifications,
                ..old
            })
        },
        Action::GetDocs => match docs_target(old) {
            Some(c) => new == old && (e matches Effect::WriteDocs(cfg) && cfg@ == c),
            None => only_notified(
                old,
                new,
                "Fill at least the Deploy Directory first"@,
                "Warning"@,
                now,
            ) && e is Nothing,
        },
    }
}

/// Whether the key typed now would go into a text field: the current tab
/// is a form and its focused field is a text field.
pub open spec fn typing_in_text(a: App) -> bool {
    match a.left_tab {
        LeftTab::Projects | LeftTab::Review => false,
        _ => {
            let t = tab_index(a.left_tab) as int;
            let f = a.tabs@[t].focus as int;
            f < a.tabs@[t].fields@.len() && a.tabs@[t].fields@[f] is Text
        },
    }
}

/// `new` differs from `old` only in the focus of tab `t`, which is `x`.
pub open spec fn focus_moved(old: Seq<crate::app::FormTab>, new: Seq<crate::app::FormTab>, t: int, x: int) -> bool {
    &&& new.len() == old.len()
    &&& forall|k: int| 0 <= k < old.len() && k != t ==> #[trigger] new[k] == old[k]
    &&& new[t].fields == old[t].fields
    &&& new[t].focus == x
}

/// `new` differs from `old` only in field `f` of tab `t`, which is `nf`.
pub open spec fn field_set(
    old: Seq<crate::app::FormTab>,
    new: Seq<crate::app::FormTab>,
    t: int,
    f: int,
    nf: FormField,
) -> bool {
    &&& new.len() == old.len()
    &&& forall|k: int| 0 <= k < old.len() && k != t ==> #[trigger] new[k] == old[k]
    &&& new[t].focus == old[t].focus
    &&& new[t].fields@ == old[t].fields@.update(f, nf)
}

/// The keys of the terminal-capability screen: `q` quits, `c` continues
/// with ASCII icons, `i` installs fonts and locales (once at a time).
pub open spec fn gate_post(old: App, new: App, key: Key, e: Effect) -> bool {
    match key.code {
        KeyCode::Char('q') => new == old && e is Quit,
        KeyCode::Char('c') => {
            &&& e is Nothing
            &&& is_ascii_set(new.icons)
            &&& new.logs@ == push_bounded(old.logs@, new.logs@.last(), MAX_LOGS as nat)
            &&& new.logs@.last()@ == "[INFO] continuing in ASCII-safe mode"@
            &&& new == (App {
                ascii: true,
                icons: new.icons,
                font_gate: false,
                logs: new.logs,
                ..old
            })
        },
        KeyCode::Char('i') if !old.gate_busy => new == (App { gate_busy: true, ..old })
            && e is InstallFonts,
        _ => new == old && e is Nothing,
    }
}

/// The keys of the Projects tab: Up/k and Down/j move the selection
/// round the list; Enter, b, d, n, g press Load, Backup, Delete, New, Docs.
pub open spec fn projects_post(old: App, new: App, key: Key, now: u64, e: Effect) -> bool {
    let n = old.projects@.len();
    let f = old.projects_focus as int;
    if (key.code == KeyCode::Up || key.code == KeyCode::Char('k')) && n > 0 {
        new == (App { projects_focus: ((f + n - 1) % (n as int)) as usize, ..old }) && e is Nothing
    } else if (key.code == KeyCode::Down || key.code == KeyCode::Char('j')) && n > 0 {
        new == (App { projects_focus: ((f + 1) % (n as int)) as usize, ..old }) && e is Nothing
    } else {
        match key.code {
            KeyCode::Enter => trigger_post(old, new, Action::LoadProject, now, e),
            KeyCode::Char('b') => trigger_post(old, new, Action::BackupNow, now, e),
            KeyCode::Char('d') => trigger_post(old, new, Action::DeleteProjectSel, now, e),
            KeyCode::Char('n') => trigger_post(old, new, Action::NewProject, now, e),
            KeyCode::Char('g') => trigger_post(old, new, Action::GetDocs, now, e),
            _ => new == old && e is Nothing,
        }
    }
}

/// The keys of a form tab: Up/BackTab and Down/Tab move the focus round
/// the fields; Enter, Space and the arrows flip a toggle; Enter/Right and
/// Left cycle the stack; Enter leaves a text field for the next one, and
/// every other key is typed into it.
pub open spec fn form_post(old: App, new: App, key: Key, e: Effect) -> bool {
    let t = tab_index(old.left_tab) as int;
    let len = old.tabs@[t].fields@.len() as int;
    let f = old.tabs@[t].focus as int;
    if key.code == KeyCode::Up || key.code == KeyCode::BackTab {
        focus_moved(old.tabs@, new.tabs@, t, (f + len - 1) % len) && new == (App {
            tabs: new.tabs,
            ..old
        }) && e is Nothing
    } else if key.code == KeyCode::Down || key.code == KeyCode::Tab {
        focus_moved(old.tabs@, new.tabs@, t, (f + 1) % len) && new == (App { tabs: new.tabs, ..old })
            && e is Nothing
    } else {
        match old.tabs@[t].fields@[f] {
            FormField::Toggle { label, hint, value } => {
                if key.code == KeyCode::Enter || key.code == KeyCode::Char(' ') || key.code
                    == KeyCode::Left || key.code == KeyCode::Right {
                    field_set(
                        old.tabs@,
                        new.tabs@,
                        t,
                        f,
                        FormField::Toggle { label, hint, value: !value },
                    ) && new == (App { tabs: new.tabs, ..old }) && e is Nothing
                } else {
                    new == old && e is Nothing
                }
            },
            FormField::Stack { label, value } => {
                if key.code == KeyCode::Enter || key.code == KeyCode::Right {
                    field_set(
                        old.tabs@,
                        new.tabs@,
                        t,
                        f,
                        FormField::Stack { label, value: stack_at((stack_index(value) + 1) % 5) },
                    ) && new == (App { tabs: new.tabs, ..old }) && e is Nothing
                } else if key.code == KeyCode::Left {
                    field_set(
                        old.tabs@,
                        new.tabs@,
                        t,
                        f,
                        FormField::Stack { label, value: stack_at((stack_index(value) + 4) % 5) },
                    ) && new == (App { tabs: new.tabs, ..old }) && e is Nothing
                } else {
                    new == old && e is Nothing
                }
            },
            FormField::Text { .. } => {
                if key.code == KeyCode::Enter {
                    focus_moved(old.tabs@, new.tabs@, t, (f + 1) % len) && new == (App {
                        tabs: new.tabs,
                        ..old
                    }) && e is Nothing
                } else {
                    new == old && (e matches Effect::EditText { tab, idx } && tab == t && idx == f)
                }
            },
        }
    }
}

/// What a key press does, at time `now`.
pub open spec fn key_post(old: App, new: App, key: Key, now: u64, e: Effect) -> bool {
    if old.font_gate {
        gate_post(old, new, key, e)
    } else if key.ctrl && (key.code == KeyCode::Char('q') || key.code == KeyCode::Char('c')) {
        new == old && e is Quit
    } else if key.code is F && 1 <= key.code->F_0 <= 7 {
        new == (App { left_tab: tab_at((key.code->F_0 - 1) as nat), ..old }) && e is Nothing
    } else if key.code == KeyCode::PageDown {
        new == (App { left_tab: tab_at((tab_index(old.left_tab) + 1) % 7), ..old }) && e is Nothing
    } else if key.code == KeyCode::PageUp {
        new == (App { left_tab: tab_at((tab_index(old.left_tab) + 6) % 7), ..old }) && e is Nothing
    } else if key.code is Char && 49 <= (key.code->Char_0 as u32) <= 55 && !typing_in_text(old) {
        new == (App { left_tab: tab_at(((key.code->Char_0 as u32) - 49) as nat), ..old })
            && e is Nothing
    } else if old.left_tab == LeftTab::Projects {
        projects_post(old, new, key, now, e)
    } else if old.left_tab == LeftTab::Review {
        match key.code {
            KeyCode::Enter => trigger_post(old, new, Action::DeployRegen, now, e),
            KeyCode::Char('e') => trigger_post(old, new, Action::DeployStaged, now, e),
            KeyCode::Char('w') => trigger_post(old, new, Action::WriteFiles, now, e),
            KeyCode::Char('g') => trigger_post(old, new, Action::GetDocs, now, e),
            _ => new == old && e is Nothing,
        }
    } else {
        form_post(old, new, key, e)
    }
}

/// A click on a field keeps the forms well shaped.
proof fn lemma_clicked_shaped(
    old: Seq<crate::app::FormTab>,
    new: Seq<crate::app::FormTab>,
    t: int,
    idx: int,
)
    requires
        crate::app::tabs_shaped(old),
        field_clicked(old, new, t, idx),
        0 <= t < 7,
        0 <= idx < old[t].fields@.len(),
    ensures
        crate::app::tabs_shaped(new),
{
    assert(old[t].fields@.len() == crate::app::layout_len(t));
    assert(crate::app::field_shape(old[t].fields@[idx], t, idx));
    assert forall|k: int| 0 <= k < 7 implies #[trigger] new[k].fields@.len() == crate::app::layout_len(k) by {
        if k != t {
            assert(new[k] == old[k]);
        }
        assert(old[k].fields@.len() == crate::app::layout_len(k));
    }
    assert forall|k: int, i: int| 0 <= k < 7 && 0 <= i < crate::app::layout_len(k) implies crate::app::field_shape(
        #[trigger] new[k].fields@[i],
        k,
        i,
    ) by {
        if k != t {
            assert(new[k] == old[k]);
        }
        assert(crate::app::field_shape(old[k].fields@[i], k, i));
    }
    assert forall|k: int| 0 <= k < 5 implies #[trigger] new[k].focus < new[k].fields@.len() by {
        if k != t {
            assert(new[k] == old[k]);
        }
        assert(old[k].focus < old[k].fields@.len());
    }
}

/// Moving the focus inside its tab keeps the forms well shaped.
proof fn lemma_focus_moved_shaped(
    old: Seq<crate::app::FormTab>,
    new: Seq<crate::app::FormTab>,
    t: int,
    x: int,
)
    requires
        crate::app::tabs_shaped(old),
        focus_moved(old, new, t, x),
        0 <= t < 5,
        0 <= x < old[t].fields@.len(),
    ensures
        crate::app::tabs_shaped(new),
{
    assert forall|k: int| 0 <= k < 7 implies #[trigger] new[k].fields@.len() == crate::app::layout_len(k) by {
        if k != t {
            assert(new[k] == old[k]);
        }
        assert(old[k].fields@.len() == crate::app::layout_len(k));
    }
    assert forall|k: int, i: int| 0 <= k < 7 && 0 <= i < crate::app::layout_len(k) implies crate::app::field_shape(
        #[trigger] new[k].fields@[i],
        k,
        i,
    ) by {
        if k != t {
            assert(new[k] == old[k]);
        }
        assert(crate::app::field_shape(old[k].fields@[i], k, i));
    }
    assert forall|k: int| 0 <= k < 5 implies #[trigger] new[k].focus < new[k].fields@.len() by {
        if k != t {
            assert(new[k] == old[k]);
        }
        assert(old[k].focus < old[k].fields@.len());
    }
}

/// Changing one field for one of the same shape keeps the forms well shaped.
proof fn lemma_field_set_shaped(
    old: Seq<crate::app::FormTab>,
    new: Seq<crate::app::FormTab>,
    t: int,
    f: int,
    nf: FormField,
)
    requires
        crate::app::tabs_shaped(old),
        field_set(old, new, t, f, nf),
        0 <= t < 7,
        0 <= f < old[t].fields@.len(),
        crate::app::field_shape(nf, t, f),
    ensures
        crate::app::tabs_shaped(new),
{
    assert forall|k: int| 0 <= k < 7 implies #[trigger] new[k].fields@.len() == crate::app::layout_len(k) by {
        if k != t {
            assert(new[k] == old[k]);
        }
        assert(old[k].fields@.len() == crate::app::layout_len(k));
    }
    assert forall|k: int, i: int| 0 <= k < 7 && 0 <= i < crate::app::layout_len(k) implies crate::app::field_shape(
        #[trigger] new[k].fields@[i],
        k,
        i,
    ) by {
        if k != t {
            assert(new[k] == old[k]);
        }
        assert(crate::app::field_shape(old[k].fields@[i], k, i));
    }
    assert forall|k: int| 0 <= k < 5 implies #[trigger] new[k].focus < new[k].fields@.len() by {
        if k != t {
            assert(new[k] == old[k]);
        }
        assert(old[k].focus < old[k].fields@.len());
    }
}

/// What the screen shows at a cell: the last of the clickable spots drawn
/// there, if any.
pub open spec fn hit(map: Seq<(Rect, Click)>, col: int, row: int) -> Option<Click>
    decreases map.len(),
{
    if map.len() == 0 {
        None
    } else if rect_contains(map.last().0, col, row) {
        Some(map.last().1)
    } else {
        hit(map.drop_last(), col, row)
    }
}

/// `new` is `old` after a click on field `idx` of tab `t`: the focus moves
/// there, and a toggle flips.
pub open spec fn field_clicked(
    old: Seq<crate::app::FormTab>,
    new: Seq<crate::app::FormTab>,
    t: int,
    idx: int,
) -> bool {
    &&& new.len() == old.len()
    &&& forall|k: int| 0 <= k < old.len() && k != t ==> #[trigger] new[k] == old[k]
    &&& new[t].focus == idx
    &&& new[t].fields@ == match old[t].fields@[idx] {
        FormField::Toggle { label, hint, value } => old[t].fields@.update(
            idx,
            FormField::Toggle { label, hint, value: !value },
        ),
        _ => old[t].fields@,
    }
}

/// What a mouse event does, at time `now`: moving highlights what is under
/// the pointer; a left click selects a tab, a field (flipping a toggle) or
/// a project, or presses a button; the wheel scrolls the log two lines.
pub open spec fn mouse_post(old: App, new: App, m: Mouse, now: u64, e: Effect) -> bool {
    let h = hit(old.click_map@, m.column as int, m.row as int);
    match m.kind {
        MouseKind::Moved => new == (App { hover: h, ..old }) && e is Nothing,
        MouseKind::LeftDown => match h {
            None => new == old && e is Nothing,
            Some(Click::Tab(t)) => new == (App { left_tab: t, ..old }) && e is Nothing,
            Some(Click::Field { tab, idx }) => {
                let k = tab_index(tab) as int;
                &&& e is Nothing
                &&& if idx < old.tabs@[k].fields@.len() {
                    field_clicked(old.tabs@, new.tabs@, k, idx as int) && new == (App {
                        left_tab: tab,
                        tabs: new.tabs,
                        ..old
                    })
                } else {
                    new == (App { left_tab: tab, ..old })
                }
            },
            Some(Click::Project(i)) => new == (App { projects_focus: i, ..old }) && e is Nothing,
            Some(Click::Button(a)) => trigger_post(old, new, a, now, e),
        },
        MouseKind::ScrollUp => {
            let top = if old.logs@.len() == 0 {
                0
            } else {
                old.logs@.len() - 1
            };
            new == (App {
                log_scroll: if old.log_scroll + 2 < top {
                    (old.log_scroll + 2) as usize
                } else {
                    top as usize
                },
                ..old
            }) && e is Nothing
        },
        MouseKind::ScrollDown => new == (App {
            log_scroll: if old.log_scroll < 2 {
                0
            } else {
                (old.log_scroll - 2) as usize
            },
            ..old
        }) && e is Nothing,
        MouseKind::Other => new == old && e is Nothing,
    }
}

impl App {
    /// What was drawn last at (`col`, `row`).
    fn find_click(&self, col: u16, row: u16) -> (r: Option<Click>)
        ensures
            r == hit(self.click_map@, col as int, row as int),
    {
        let mut i = self.click_map.len();
        assert(self.click_map@.take(i as int) =~= self.click_map@);
        while i > 0
            invariant
                i <= self.click_map@.len(),
                hit(self.click_map@, col as int, row as int) == hit(
                    self.click_map@.take(i as int),
                    col as int,
                    row as int,
                ),
            decreases i,
        {
            let (r, c) = self.click_map[i - 1];
            assert(self.click_map@.take(i as int).drop_last() =~= self.click_map@.take(i - 1));
            if contains(&r, col, row) {
                return Some(c);
            }
            i -= 1;
        }
        None
    }

    /// Handles a mouse event at time `now`.
    pub fn handle_mouse(&mut self, m: Mouse, now: u64) -> (e: Effect)
        requires
            old(self).wf(),
        ensures
            mouse_post(*old(self), *final(self), m, now, e),
            final(self).wf(),
    {
        assert(self.click_map@.take(self.click_map@.len() as int) =~= self.click_map@);
        match m.kind {
            MouseKind::Moved => {
                self.hover = self.find_click(m.column, m.row);
                Effect::Nothing
            },
            MouseKind::LeftDown => match self.find_click(m.column, m.row) {
                None => Effect::Nothing,
                Some(Click::Tab(t)) => {
                    self.left_tab = t;
                    Effect::Nothing
                },
                Some(Click::Field { tab, idx }) => {
                    self.left_tab = tab;
                    let k = tab.idx();
                    if idx < self.tabs[k].fields.len() {
                        let ghost old_tabs = self.tabs@;
                        self.tabs[k].focus = idx;
                        let is_toggle = match &self.tabs[k].fields[idx] {
                            FormField::Toggle { .. } => true,
                            _ => false,
                        };
                        if is_toggle {
                            match &mut self.tabs[k].fields[idx] {
                                FormField::Toggle { value, .. } => {
                                    *value = !*value;
                                },
                                _ => {},
                            }
                        }
                        proof {
                            assert(self.tabs@[k as int].fields@ =~= match old_tabs[k as int].fields@[idx as int] {
                                FormField::Toggle { label, hint, value } => old_tabs[k as int].fields@.update(
                                    idx as int,
                                    FormField::Toggle { label, hint, value: !value },
                                ),
                                _ => old_tabs[k as int].fields@,
                            });
                            lemma_clicked_shaped(old_tabs, self.tabs@, k as int, idx as int);
                        }
                    }
                    Effect::Nothing
                },
                Some(Click::Project(i)) => {
                    self.projects_focus = i;
                    Effect::Nothing
                },
                Some(Click::Button(a)) => self.trigger(a, now),
            },
            MouseKind::ScrollUp => {
                let top = if self.logs.len() == 0 {
                    0
                } else {
                    self.logs.len() - 1
                };
                self.log_scroll = if self.log_scroll + 2 < top {
                    self.log_scroll + 2
                } else {
                    top
                };
                Effect::Nothing
            },
            MouseKind::ScrollDown => {
                self.log_scroll = if self.log_scroll < 2 {
                    0
                } else {
                    self.log_scroll - 2
                };
                Effect::Nothing
            },
            MouseKind::Other => Effect::Nothing,
        }
    }

    /// The selected project, if the selection is on one.
    fn selected(&self) -> (r: Option<ProjectConfig>)
        ensures
            opt_view(r) == selected_project(*self),
    {
        if self.projects_focus < self.projects.len() {
            Some(self.projects[self.projects_focus].clone())
        } else {
            None
        }
    }

    /// A copy of the deployed project.
    fn deployed_copy(&self) -> (r: Option<ProjectConfig>)
        ensures
            opt_view(r) == opt_view(self.deployed),
    {
        match &self.deployed {
            Some(d) => Some(d.clone()),
            None => None,
        }
    }

    /// Runs the button `action` at time `now`.
    #[verifier::rlimit(40)]
    pub fn trigger(&mut self, action: Action, now: u64) -> (e: Effect)
        requires
            old(self).wf(),
        ensures
            trigger_post(*old(self), *final(self), action, now, e),
            final(self).wf(),
    {
        match action {
            Action::DeployRegen | Action::DeployStaged => {
                let cfg = self.collect_config();
                match validate(&cfg) {
                    Err(m) => {
                        self.notify(m, "Error", now);
                        Effect::Nothing
                    },
                    Ok(()) => {
                        let use_staged = action == Action::DeployStaged;
                        self.deploying = true;
                        self.deployed = Some(cfg.clone());
                        self.monitored = Some(cfg.clone());
                        Effect::Deploy { cfg, use_staged }
                    },
                }
            },
            Action::WriteFiles => {
                let cfg = self.collect_config();
                if cfg.target_dir.as_str().is_empty() {
                    self.notify(String::from_str("Deploy Directory is required first"), "Error", now);
                    Effect::Nothing
                } else {
                    Effect::WriteFiles(cfg)
                }
            },
            Action::PullDeploy => match self.deployed_copy() {
                Some(cfg) => {
                    self.deploying = true;
                    let line = String::from_str("[INFO] ⇩ running deploy.sh (pull + build)…");
                    self.push_log(line);
                    Effect::PullDeploy(cfg)
                },
                None => {
                    self.notify(String::from_str("Deploy a project first"), "Warning", now);
                    Effect::Nothing
                },
            },
            Action::TestApi => match self.deployed_copy() {
                Some(cfg) => Effect::TestApi(cfg),
                None => {
                    self.notify(String::from_str("No deployed project"), "Warning", now);
                    Effect::Nothing
                },
            },
            Action::Restart => match self.deployed_copy() {
                Some(cfg) => Effect::Restart(cfg),
                None => {
                    self.notify(String::from_str("No deployed project"), "Warning", now);
                    Effect::Nothing
                },
            },
            Action::Delete => {
                let target = self.deployed_copy();
                self.delete_flow(target, now)
            },
            Action::DeleteProjectSel => {
                let target = self.selected();
                self.delete_flow(target, now)
            },
            Action::LoadProject => match self.selected() {
                Some(cfg) => {
                    self.monitored = Some(cfg.clone());
                    self.load_project(cfg, now);
                    Effect::Nothing
                },
                None => {
                    self.notify(String::from_str("No project selected"), "Warning", now);
                    Effect::Nothing
                },
            },
            Action::BackupNow => {
                let target = match self.selected() {
                    Some(c) => Some(c),
                    None => self.deployed_copy(),
                };
                match target {
                    Some(cfg) => {
                        let msg = concat3("Backing up '", cfg.project_name.as_str(), "'…");
                        self.notify(msg, "Info", now);
                        Effect::Backup(cfg)
                    },
                    None => {
                        self.notify(String::from_str("No project to back up"), "Warning", now);
                        Effect::Nothing
                    },
                }
            },
            Action::NewProject => {
                self.reset_form(now);
                Effect::Nothing
            },
            Action::GetDocs => {
                let target = if self.left_tab == LeftTab::Projects {
                    match self.selected() {
                        Some(c) => Some(c),
                        None => self.deployed_copy(),
                    }
                } else if self.deployed.is_some() {
                    self.deployed_copy()
                } else {
                    let c = self.collect_config();
                    if c.target_dir.as_str().is_empty() {
                        None
                    } else {
                        Some(c)
                    }
                };
                match target {
                    Some(cfg) => Effect::WriteDocs(cfg),
                    None => {
                        self.notify(
                            String::from_str("Fill at least the Deploy Directory first"),
                            "Warning",
                            now,
                        );
                        Effect::Nothing
                    },
                }
            },
        }
    }

    /// Handles a key press at time `now`.
    pub fn handle_key(&mut self, key: Key, now: u64) -> (e: Effect)
        requires
            old(self).wf(),
        ensures
            key_post(*old(self), *final(self), key, now, e),
            final(self).wf(),
    {
        if self.font_gate {
            return self.gate_key(key);
        }
        if key.ctrl && (key.code == KeyCode::Char('q') || key.code == KeyCode::Char('c')) {
            return Effect::Quit;
        }
        match key.code {
            KeyCode::F(n) if 1 <= n && n <= 7 => {
                self.left_tab = LeftTab::at((n - 1) as usize);
                return Effect::Nothing;
            },
            KeyCode::PageDown => {
                self.left_tab = self.left_tab.next();
                return Effect::Nothing;
            },
            KeyCode::PageUp => {
                self.left_tab = self.left_tab.prev();
                return Effect::Nothing;
            },
            _ => {},
        }
        if let KeyCode::Char(c) = key.code {
            if 49 <= c as u32 && c as u32 <= 55 {
                let typing = match self.left_tab {
                    LeftTab::Projects | LeftTab::Review => false,
                    _ => {
                        let t = self.left_tab.idx();
                        let f = self.tabs[t].focus;
                        f < self.tabs[t].fields.len() && match &self.tabs[t].fields[f] {
                            FormField::Text { .. } => true,
                            _ => false,
                        }
                    },
                };
                if !typing {
                    self.left_tab = LeftTab::at((c as u32 - 49) as usize);
                    return Effect::Nothing;
                }
            }
        }
        match self.left_tab {
            LeftTab::Projects => {
                return self.projects_key(key, now);
            },
            LeftTab::Review => {
                return match key.code {
                    KeyCode::Enter => self.trigger(Action::DeployRegen, now),
                    KeyCode::Char('e') => self.trigger(Action::DeployStaged, now),
                    KeyCode::Char('w') => self.trigger(Action::WriteFiles, now),
                    KeyCode::Char('g') => self.trigger(Action::GetDocs, now),
                    _ => Effect::Nothing,
                };
            },
            _ => {},
        }
        self.form_key(key)
    }

    /// The keys of a form tab.
    fn form_key(&mut self, key: Key) -> (e: Effect)
        requires
            old(self).wf(),
            tab_index(old(self).left_tab) < 5,
        ensures
            form_post(*old(self), *final(self), key, e),
            final(self).wf(),
    {
        let ghost old_tabs = self.tabs@;
        let t = self.left_tab.idx();
        let len = self.tabs[t].fields.len();
        let f = self.tabs[t].focus;
        assert(old_tabs[t as int].fields@.len() == crate::app::layout_len(t as int));
        assert(old_tabs[t as int].focus < old_tabs[t as int].fields@.len());
        if key.code == KeyCode::Up || key.code == KeyCode::BackTab {
            self.tabs[t].focus = (f + len - 1) % len;
            proof {
                lemma_focus_moved_shaped(old_tabs, self.tabs@, t as int, self.tabs@[t as int].focus as int);
            }
            return Effect::Nothing;
        }
        if key.code == KeyCode::Down || key.code == KeyCode::Tab {
            self.tabs[t].focus = (f + 1) % len;
            proof {
                lemma_focus_moved_shaped(old_tabs, self.tabs@, t as int, self.tabs@[t as int].focus as int);
            }
            return Effect::Nothing;
        }
        assert(crate::app::field_shape(old_tabs[t as int].fields@[f as int], t as int, f as int));
        let kind: u8 = match &self.tabs[t].fields[f] {
            FormField::Text { .. } => 0,
            FormField::Toggle { .. } => 1,
            FormField::Stack { .. } => 2,
        };
        if kind == 0 {
            if key.code == KeyCode::Enter {
                self.tabs[t].focus = (f + 1) % len;
                proof {
                    lemma_focus_moved_shaped(old_tabs, self.tabs@, t as int, self.tabs@[t as int].focus as int);
                }
                return Effect::Nothing;
            } else {
                return Effect::EditText { tab: t, idx: f };
            }
        }
        let flip = kind == 1 && (key.code == KeyCode::Enter || key.code == KeyCode::Char(' ')
            || key.code == KeyCode::Left || key.code == KeyCode::Right);
        let forward = kind == 2 && (key.code == KeyCode::Enter || key.code == KeyCode::Right);
        let backward = kind == 2 && key.code == KeyCode::Left;
        if !(flip || forward || backward) {
            return Effect::Nothing;
        }
        match &mut self.tabs[t].fields[f] {
            FormField::Toggle { value, .. } => {
                *value = !*value;
            },
            FormField::Stack { value, .. } => {
                if forward {
                    *value = value.next();
                } else {
                    *value = value.prev();
                }
            },
            FormField::Text { .. } => {},
        }
        proof {
            let nf = self.tabs@[t as int].fields@[f as int];
            assert(self.tabs@[t as int].fields@ =~= old_tabs[t as int].fields@.update(f as int, nf));
            lemma_field_set_shaped(old_tabs, self.tabs@, t as int, f as int, nf);
        }
        Effect::Nothing
    }

    /// The keys of the terminal-capability screen.
    fn gate_key(&mut self, key: Key) -> (e: Effect)
        requires
            old(self).wf(),
        ensures
            gate_post(*old(self), *final(self), key, e),
            final(self).wf(),
    {
        match key.code {
            KeyCode::Char('q') => Effect::Quit,
            KeyCode::Char('c') => {
                self.ascii = true;
                self.icons = ascii_icons();
                self.font_gate = false;
                let line = String::from_str("[INFO] continuing in ASCII-safe mode");
                let ghost logs = self.logs@;
                self.push_log(line);
                proof {
                    lemma_push_bounded(logs, line, MAX_LOGS as nat);
                }
                assert(is_ascii_set(self.icons));
                assert(self.logs@.last()@ == "[INFO] continuing in ASCII-safe mode"@);
                assert(self.logs@ == push_bounded(old(self).logs@, self.logs@.last(), MAX_LOGS as nat));
                assert(self.wf());
                Effect::Nothing
            },
            KeyCode::Char('i') => {
                if !self.gate_busy {
                    self.gate_busy = true;
                    Effect::InstallFonts
                } else {
                    Effect::Nothing
                }
            },
            _ => Effect::Nothing,
        }
    }

    /// The keys of the Projects tab.
    fn projects_key(&mut self, key: Key, now: u64) -> (e: Effect)
        requires
            old(self).wf(),
        ensures
            projects_post(*old(self), *final(self), key, now, e),
            final(self).wf(),
    {
        let n = self.projects.len();
        let f = self.projects_focus;
        if (key.code == KeyCode::Up || key.code == KeyCode::Char('k')) && n > 0 {
            self.projects_focus = if f % n == 0 {
                n - 1
            } else {
                f % n - 1
            };
            assert((if f % n == 0 { n - 1 } else { f % n - 1 }) == (f + n - 1) % (n as int))
                by (nonlinear_arith)
                requires
                    n > 0,
            ;
            return Effect::Nothing;
        }
        if (key.code == KeyCode::Down || key.code == KeyCode::Char('j')) && n > 0 {
            self.projects_focus = (f % n + 1) % n;
            assert(((f as int) % (n as int) + 1) % (n as int) == (f + 1) % (n as int))
                by (nonlinear_arith)
                requires
                    n > 0,
            ;
            return Effect::Nothing;
        }
        match key.code {
            KeyCode::Enter => self.trigger(Action::LoadProject, now),
            KeyCode::Char('b') => self.trigger(Action::BackupNow, now),
            KeyCode::Char('d') => self.trigger(Action::DeleteProjectSel, now),
            KeyCode::Char('n') => self.trigger(Action::NewProject, now),
            KeyCode::Char('g') => self.trigger(Action::GetDocs, now),
            _ => Effect::Nothing,
        }
    }

    /// The two presses of a delete button, for the project `target`.
    pub fn delete_flow(&mut self, target: Option<ProjectConfig>, now: u64) -> (e: Effect)
        ensures
            delete_post(*old(self), *final(self), opt_view(target), now, e),
    {
        let cfg = match target {
            Some(c) => c,
            None => {
                self.notify(String::from_str("Nothing to delete"), "Warning", now);
                return Effect::Nothing;
            },
        };
        let in_time = match self.confirm_delete {
            Some(t) => now < t || now - t < 5000,
            None => false,
        };
        let same = match &self.pending_delete {
            Some(p) => p.project_name == cfg.project_name,
            None => false,
        };
        if in_time && same {
            self.confirm_delete = None;
            self.pending_delete = None;
            self.deploying = true;
            let was_deployed = match &self.deployed {
                Some(d) => d.project_name == cfg.project_name,
                None => false,
            };
            if was_deployed {
                self.deployed = None;
                self.monitored = None;
            }
            Effect::DeleteProject(cfg)
        } else {
            let msg = concat3("⚠ press DELETE again to erase '", cfg.project_name.as_str(), "'");
            self.pending_delete = Some(cfg);
            self.confirm_delete = Some(now);
            self.notify(msg, "Warning", now);
            Effect::Nothing
        }
    }
}

} // verus!
