use vps_deployer::app::{fresh_tabs, App, Action, Click, FormField, LeftTab, Rect, HISTORY, MAX_LOGS, WELCOME};
use vps_deployer::config::{BackendStack, ProjectConfig};
use vps_deployer::events::{Event, Followup};
use vps_deployer::input::{Effect, Key, KeyCode, Mouse, MouseKind};

fn key(code: KeyCode) -> Key {
    Key { code, ctrl: false }
}

fn sample(name: &str) -> ProjectConfig {
    let mut c = ProjectConfig::default();
    c.project_name = name.to_string();
    c.target_dir = format!("/var/www/{name}");
    c.backend_port = "8000".to_string();
    c.backend_repo = "https://example.com/api.git".to_string();
    c.domain = format!("{name}.example.com");
    c
}

fn text_value(app: &App, tab: usize, idx: usize) -> String {
    match &app.tabs[tab].fields[idx] {
        FormField::Text { value, .. } => value.clone(),
        _ => panic!("not a text field"),
    }
}

fn toggle_value(app: &App, tab: usize, idx: usize) -> bool {
    match &app.tabs[tab].fields[idx] {
        FormField::Toggle { value, .. } => *value,
        _ => panic!("not a toggle"),
    }
}

#[test]
fn new_app_starts_on_the_first_tab() {
    let app = App::new(vec![sample("a")]);
    assert_eq!(app.left_tab, LeftTab::Repos);
    assert_eq!(app.logs, vec![WELCOME.to_string()]);
    assert_eq!(app.rx_hist, vec![0; HISTORY]);
    assert_eq!(app.tx_hist.len(), HISTORY);
    assert_eq!(app.projects.len(), 1);
    assert!(!app.deploying && !app.should_quit && !app.font_gate && !app.ascii);
    assert_eq!(app.last_key, "none yet");
}

#[test]
fn fresh_form_layout() {
    let tabs = fresh_tabs();
    let lens: Vec<usize> = tabs.iter().map(|t| t.fields.len()).collect();
    assert_eq!(lens, vec![7, 4, 5, 6, 5, 0, 0]);
    assert!(tabs.iter().all(|t| t.focus == 0));
    match &tabs[0].fields[1] {
        FormField::Stack { value, .. } => assert_eq!(*value, BackendStack::NodeJs),
        _ => panic!("stack field expected"),
    }
    match &tabs[0].fields[0] {
        FormField::Text { label, placeholder, value } => {
            assert_eq!(*label, "Project Name *");
            assert_eq!(*placeholder, "my-awesome-app");
            assert!(value.is_empty());
        }
        _ => panic!("text field expected"),
    }
}

#[test]
fn tabs_cycle_both_ways() {
    let mut t = LeftTab::Repos;
    for _ in 0..7 {
        assert_eq!(t.next().prev(), t);
        t = t.next();
    }
    assert_eq!(t, LeftTab::Repos);
    assert_eq!(LeftTab::Repos.prev(), LeftTab::Review);
    assert_eq!(LeftTab::Review.title(), "7·Review");
    assert_eq!(LeftTab::at(5), LeftTab::Projects);
    assert_eq!(LeftTab::Projects.idx(), 5);
}

#[test]
fn the_log_keeps_the_last_thousand_lines() {
    let mut app = App::new(Vec::new());
    for i in 0..1500 {
        app.push_log(format!("line {i}"));
    }
    assert_eq!(app.logs.len(), MAX_LOGS);
    assert_eq!(app.logs.last().unwrap(), "line 1499");
    assert_eq!(app.logs[0], "line 500");
}

#[test]
fn notifications_keep_the_last_six() {
    let mut app = App::new(Vec::new());
    for i in 0..10 {
        app.notify(format!("n{i}"), "Info", i);
    }
    assert_eq!(app.notifications.len(), 6);
    assert_eq!(app.notifications[0].message, "n4");
    assert_eq!(app.notifications[5].message, "n9");
    assert_eq!(app.notifications[5].level, "Info");
    assert_eq!(app.notifications[5].created_at, 9);
}

#[test]
fn rates_history_keeps_its_length() {
    let mut app = App::new(Vec::new());
    for i in 0..100 {
        app.record_rates(i, 2 * i);
    }
    assert_eq!(app.rx_hist.len(), HISTORY);
    assert_eq!(*app.rx_hist.last().unwrap(), 99);
    assert_eq!(*app.tx_hist.last().unwrap(), 198);
    assert_eq!(app.rx_hist[0], 40);
}

#[test]
fn collect_uses_defaults_for_blank_fields() {
    let app = App::new(Vec::new());
    let c = app.collect_config();
    assert_eq!(c.project_name, "");
    assert_eq!(c.branch, "production");
    assert_eq!(c.entry_point, "server.js");
    assert_eq!(c.health_path, "/health");
    assert_eq!(c.api_prefix, "/api/");
    assert_eq!(c.max_body_size, "25m");
    assert_eq!(c.backup_retention, "10");
    assert_eq!(c.backup_dir, "");
    assert_eq!(c.frontend_dist, "");
}

#[test]
fn collect_trims_and_derives_directories() {
    let mut app = App::new(Vec::new());
    app.set_text(0, 0, "  shop  ");
    app.set_text(1, 0, " /srv/shop ");
    let c = app.collect_config();
    assert_eq!(c.project_name, "shop");
    assert_eq!(c.target_dir, "/srv/shop");
    assert_eq!(c.backup_dir, "/srv/shop/backups");
    assert_eq!(c.frontend_dist, "/srv/shop/frontend/dist");
}

#[test]
fn set_text_appends_and_sync_text_replaces() {
    let mut app = App::new(Vec::new());
    app.set_text(0, 0, "ab");
    app.set_text(0, 0, "cd");
    assert_eq!(text_value(&app, 0, 0), "abcd");
    app.sync_text(0, 0, "xyz".to_string());
    assert_eq!(text_value(&app, 0, 0), "xyz");
}

#[test]
fn load_then_collect_gives_the_record_back() {
    let mut app = App::new(Vec::new());
    let mut c = sample("shop");
    c.stack = BackendStack::Go;
    c.entry_point = "app".to_string();
    c.backup_dir = "/var/backups/shop".to_string();
    c.frontend_dist = "/var/www/shop/dist".to_string();
    c.ufw_web = false;
    c.websocket = false;
    c.backup_cron = false;
    app.load_project(c.clone(), 100);
    assert_eq!(app.left_tab, LeftTab::Review);
    assert_eq!(app.deployed.as_ref().unwrap().project_name, "shop");
    assert_eq!(app.notifications.last().unwrap().message, "'shop' loaded — edit anything, then deploy");
    let d = app.collect_config();
    assert_eq!(d.project_name, c.project_name);
    assert_eq!(d.stack, c.stack);
    assert_eq!(d.entry_point, c.entry_point);
    assert_eq!(d.target_dir, c.target_dir);
    assert_eq!(d.backup_dir, c.backup_dir);
    assert_eq!(d.frontend_dist, c.frontend_dist);
    assert_eq!(d.domain, c.domain);
    assert_eq!(d.ufw_web, c.ufw_web);
    assert_eq!(d.websocket, c.websocket);
    assert_eq!(d.backup_cron, c.backup_cron);
    assert_eq!(d.branch, c.branch);
}

#[test]
fn reset_form_clears_the_forms() {
    let mut app = App::new(Vec::new());
    app.load_project(sample("shop"), 1);
    app.reset_form(2);
    assert!(app.deployed.is_none());
    assert_eq!(app.left_tab, LeftTab::Repos);
    assert_eq!(text_value(&app, 0, 0), "");
    assert_eq!(app.notifications.last().unwrap().message, "New project form ready");
}

#[test]
fn refresh_keeps_the_selection_inside_the_list() {
    let mut app = App::new(vec![sample("a"), sample("b"), sample("c")]);
    app.projects_focus = 2;
    app.refresh_projects(vec![sample("a")]);
    assert_eq!(app.projects_focus, 0);
    app.refresh_projects(Vec::new());
    assert_eq!(app.projects_focus, 0);
}

#[test]
fn function_keys_and_pages_switch_tabs() {
    let mut app = App::new(Vec::new());
    assert!(matches!(app.handle_key(key(KeyCode::F(3)), 0), Effect::Nothing));
    assert_eq!(app.left_tab, LeftTab::Ports);
    app.handle_key(key(KeyCode::PageDown), 0);
    assert_eq!(app.left_tab, LeftTab::Nginx);
    app.handle_key(key(KeyCode::PageUp), 0);
    app.handle_key(key(KeyCode::PageUp), 0);
    assert_eq!(app.left_tab, LeftTab::Dirs);
    app.handle_key(key(KeyCode::F(9)), 0);
    assert_eq!(app.left_tab, LeftTab::Dirs);
}

#[test]
fn control_q_and_control_c_quit() {
    let mut app = App::new(Vec::new());
    assert!(matches!(app.handle_key(Key { code: KeyCode::Char('q'), ctrl: true }, 0), Effect::Quit));
    assert!(matches!(app.handle_key(Key { code: KeyCode::Char('c'), ctrl: true }, 0), Effect::Quit));
}

#[test]
fn number_keys_switch_tabs_unless_typing() {
    let mut app = App::new(Vec::new());
    // the first field of the first tab is a text field: the digit is typed
    assert!(matches!(app.handle_key(key(KeyCode::Char('6')), 0), Effect::EditText { tab: 0, idx: 0 }));
    assert_eq!(app.left_tab, LeftTab::Repos);
    app.handle_key(key(KeyCode::F(6)), 0);
    app.handle_key(key(KeyCode::Char('7')), 0);
    assert_eq!(app.left_tab, LeftTab::Review);
    app.handle_key(key(KeyCode::Char('2')), 0);
    assert_eq!(app.left_tab, LeftTab::Dirs);
}

#[test]
fn form_keys_move_focus_and_edit() {
    let mut app = App::new(Vec::new());
    app.handle_key(key(KeyCode::Down), 0);
    assert_eq!(app.tabs[0].focus, 1);
    // the stack field cycles with the arrows
    app.handle_key(key(KeyCode::Right), 0);
    app.handle_key(key(KeyCode::Right), 0);
    app.handle_key(key(KeyCode::Left), 0);
    match &app.tabs[0].fields[1] {
        FormField::Stack { value, .. } => assert_eq!(*value, BackendStack::TypeScript),
        _ => panic!(),
    }
    app.handle_key(key(KeyCode::Up), 0);
    app.handle_key(key(KeyCode::Up), 0);
    assert_eq!(app.tabs[0].focus, 6);
    // Enter on a text field moves on
    app.handle_key(key(KeyCode::Enter), 0);
    assert_eq!(app.tabs[0].focus, 0);
}

#[test]
fn toggles_flip_with_space_enter_and_arrows() {
    let mut app = App::new(Vec::new());
    app.handle_key(key(KeyCode::F(5)), 0);
    assert!(toggle_value(&app, 4, 0));
    app.handle_key(key(KeyCode::Char(' ')), 0);
    assert!(!toggle_value(&app, 4, 0));
    app.handle_key(key(KeyCode::Enter), 0);
    assert!(toggle_value(&app, 4, 0));
    app.handle_key(key(KeyCode::Char('x')), 0);
    assert!(toggle_value(&app, 4, 0));
}

#[test]
fn deploying_an_incomplete_form_is_refused() {
    let mut app = App::new(Vec::new());
    let e = app.trigger(Action::DeployRegen, 10);
    assert!(matches!(e, Effect::Nothing));
    assert!(!app.deploying);
    let n = app.notifications.last().unwrap();
    assert_eq!(n.message, "Project Name is required");
    assert_eq!(n.level, "Error");
}

#[test]
fn deploying_a_complete_form() {
    let mut app = App::new(Vec::new());
    app.load_project(sample("shop"), 0);
    match app.trigger(Action::DeployStaged, 10) {
        Effect::Deploy { cfg, use_staged } => {
            assert!(use_staged);
            assert_eq!(cfg.project_name, "shop");
        }
        _ => panic!("deploy expected"),
    }
    assert!(app.deploying);
    assert_eq!(app.monitored.as_ref().unwrap().project_name, "shop");
}

#[test]
fn actions_that_need_a_deployed_project() {
    let mut app = App::new(Vec::new());
    assert!(matches!(app.trigger(Action::PullDeploy, 0), Effect::Nothing));
    assert_eq!(app.notifications.last().unwrap().message, "Deploy a project first");
    assert!(matches!(app.trigger(Action::TestApi, 0), Effect::Nothing));
    assert_eq!(app.notifications.last().unwrap().message, "No deployed project");
    assert!(matches!(app.trigger(Action::Restart, 0), Effect::Nothing));
    assert!(matches!(app.trigger(Action::Delete, 0), Effect::Nothing));
    assert_eq!(app.notifications.last().unwrap().message, "Nothing to delete");
    app.deployed = Some(sample("shop"));
    assert!(matches!(app.trigger(Action::Restart, 0), Effect::Restart(_)));
    assert!(matches!(app.trigger(Action::TestApi, 0), Effect::TestApi(_)));
    assert!(matches!(app.trigger(Action::PullDeploy, 0), Effect::PullDeploy(_)));
    assert!(app.deploying);
    assert_eq!(app.logs.last().unwrap(), "[INFO] ⇩ running deploy.sh (pull + build)…");
}

#[test]
fn deleting_needs_a_second_press_within_five_seconds() {
    let mut app = App::new(vec![sample("shop")]);
    app.deployed = Some(sample("shop"));
    assert!(matches!(app.trigger(Action::Delete, 1_000), Effect::Nothing));
    assert_eq!(app.notifications.last().unwrap().message, "⚠ press DELETE again to erase 'shop'");
    assert_eq!(app.confirm_delete, Some(1_000));
    // too late: asks again
    assert!(matches!(app.trigger(Action::Delete, 6_000), Effect::Nothing));
    assert_eq!(app.confirm_delete, Some(6_000));
    // in time: deletes
    match app.trigger(Action::Delete, 10_999) {
        Effect::DeleteProject(c) => assert_eq!(c.project_name, "shop"),
        _ => panic!("delete expected"),
    }
    assert!(app.deployed.is_none());
    assert!(app.confirm_delete.is_none() && app.pending_delete.is_none());
    assert!(app.deploying);
}

#[test]
fn deleting_another_project_asks_again() {
    let mut app = App::new(vec![sample("a"), sample("b")]);
    app.left_tab = LeftTab::Projects;
    app.trigger(Action::DeleteProjectSel, 0);
    app.projects_focus = 1;
    assert!(matches!(app.trigger(Action::DeleteProjectSel, 100), Effect::Nothing));
    assert_eq!(app.pending_delete.as_ref().unwrap().project_name, "b");
}

#[test]
fn backup_prefers_the_selected_project() {
    let mut app = App::new(vec![sample("a")]);
    app.deployed = Some(sample("b"));
    match app.trigger(Action::BackupNow, 0) {
        Effect::Backup(c) => assert_eq!(c.project_name, "a"),
        _ => panic!(),
    }
    assert_eq!(app.notifications.last().unwrap().message, "Backing up 'a'…");
    let mut empty = App::new(Vec::new());
    assert!(matches!(empty.trigger(Action::BackupNow, 0), Effect::Nothing));
    assert_eq!(empty.notifications.last().unwrap().message, "No project to back up");
}

#[test]
fn docs_target_rules() {
    let mut app = App::new(Vec::new());
    assert!(matches!(app.trigger(Action::GetDocs, 0), Effect::Nothing));
    assert_eq!(app.notifications.last().unwrap().message, "Fill at least the Deploy Directory first");
    app.set_text(1, 0, "/srv/x");
    match app.trigger(Action::GetDocs, 0) {
        Effect::WriteDocs(c) => assert_eq!(c.target_dir, "/srv/x"),
        _ => panic!(),
    }
    app.deployed = Some(sample("d"));
    match app.trigger(Action::GetDocs, 0) {
        Effect::WriteDocs(c) => assert_eq!(c.project_name, "d"),
        _ => panic!(),
    }
}

#[test]
fn write_files_needs_a_directory() {
    let mut app = App::new(Vec::new());
    assert!(matches!(app.trigger(Action::WriteFiles, 0), Effect::Nothing));
    assert_eq!(app.notifications.last().unwrap().message, "Deploy Directory is required first");
    app.set_text(1, 0, "/srv/x");
    assert!(matches!(app.trigger(Action::WriteFiles, 0), Effect::WriteFiles(_)));
}

#[test]
fn projects_tab_keys() {
    let mut app = App::new(vec![sample("a"), sample("b")]);
    app.handle_key(key(KeyCode::F(6)), 0);
    app.handle_key(key(KeyCode::Down), 0);
    assert_eq!(app.projects_focus, 1);
    app.handle_key(key(KeyCode::Char('j')), 0);
    assert_eq!(app.projects_focus, 0);
    app.handle_key(key(KeyCode::Up), 0);
    assert_eq!(app.projects_focus, 1);
    app.handle_key(key(KeyCode::Char('k')), 0);
    assert_eq!(app.projects_focus, 0);
    app.handle_key(key(KeyCode::Enter), 5);
    assert_eq!(app.left_tab, LeftTab::Review);
    assert_eq!(app.deployed.as_ref().unwrap().project_name, "a");
}

#[test]
fn review_tab_keys() {
    let mut app = App::new(Vec::new());
    app.handle_key(key(KeyCode::F(7)), 0);
    assert!(matches!(app.handle_key(key(KeyCode::Char('w')), 0), Effect::Nothing));
    app.set_text(1, 0, "/srv/x");
    assert!(matches!(app.handle_key(key(KeyCode::Char('g')), 0), Effect::WriteDocs(_)));
}

#[test]
fn the_font_gate_keys() {
    let mut app = App::new(Vec::new());
    app.font_gate = true;
    assert!(matches!(app.handle_key(key(KeyCode::Char('i')), 0), Effect::InstallFonts));
    assert!(app.gate_busy);
    assert!(matches!(app.handle_key(key(KeyCode::Char('i')), 0), Effect::Nothing));
    app.handle_key(key(KeyCode::Char('c')), 0);
    assert!(!app.font_gate && app.ascii);
    assert_eq!(app.icons.rocket, ">>");
    assert_eq!(app.logs.last().unwrap(), "[INFO] continuing in ASCII-safe mode");
    let mut q = App::new(Vec::new());
    q.font_gate = true;
    assert!(matches!(q.handle_key(key(KeyCode::Char('q')), 0), Effect::Quit));
}

#[test]
fn mouse_clicks_follow_the_click_map() {
    let mut app = App::new(Vec::new());
    app.click_map.push((Rect { x: 0, y: 0, width: 10, height: 1 }, Click::Tab(LeftTab::Backup)));
    app.click_map.push((Rect { x: 0, y: 2, width: 10, height: 3 }, Click::Field { tab: LeftTab::Backup, idx: 2 }));
    app.handle_mouse(Mouse { kind: MouseKind::LeftDown, column: 3, row: 0 }, 0);
    assert_eq!(app.left_tab, LeftTab::Backup);
    app.handle_mouse(Mouse { kind: MouseKind::Moved, column: 3, row: 3 }, 0);
    assert_eq!(app.hover, Some(Click::Field { tab: LeftTab::Backup, idx: 2 }));
    app.handle_mouse(Mouse { kind: MouseKind::LeftDown, column: 3, row: 3 }, 0);
    assert_eq!(app.tabs[4].focus, 2);
    assert!(!toggle_value(&app, 4, 2));
    app.handle_mouse(Mouse { kind: MouseKind::Moved, column: 30, row: 30 }, 0);
    assert_eq!(app.hover, None);
}

#[test]
fn the_latest_click_area_wins() {
    let mut app = App::new(vec![sample("a"), sample("b")]);
    app.click_map.push((Rect { x: 0, y: 0, width: 10, height: 10 }, Click::Project(0)));
    app.click_map.push((Rect { x: 0, y: 0, width: 10, height: 10 }, Click::Project(1)));
    app.handle_mouse(Mouse { kind: MouseKind::LeftDown, column: 1, row: 1 }, 0);
    assert_eq!(app.projects_focus, 1);
}

#[test]
fn mouse_wheel_scrolls_the_log() {
    let mut app = App::new(Vec::new());
    for i in 0..5 {
        app.push_log(format!("{i}"));
    }
    app.handle_mouse(Mouse { kind: MouseKind::ScrollUp, column: 0, row: 0 }, 0);
    assert_eq!(app.log_scroll, 2);
    app.handle_mouse(Mouse { kind: MouseKind::ScrollUp, column: 0, row: 0 }, 0);
    app.handle_mouse(Mouse { kind: MouseKind::ScrollUp, column: 0, row: 0 }, 0);
    assert_eq!(app.log_scroll, 5);
    app.handle_mouse(Mouse { kind: MouseKind::ScrollDown, column: 0, row: 0 }, 0);
    assert_eq!(app.log_scroll, 3);
    for _ in 0..3 {
        app.handle_mouse(Mouse { kind: MouseKind::ScrollDown, column: 0, row: 0 }, 0);
    }
    assert_eq!(app.log_scroll, 0);
}

#[test]
fn a_clicked_button_runs_its_action() {
    let mut app = App::new(Vec::new());
    app.click_map.push((Rect { x: 5, y: 5, width: 4, height: 2 }, Click::Button(Action::NewProject)));
    app.handle_mouse(Mouse { kind: MouseKind::LeftDown, column: 8, row: 6 }, 7);
    assert_eq!(app.notifications.last().unwrap().message, "New project form ready");
    app.handle_mouse(Mouse { kind: MouseKind::LeftDown, column: 9, row: 6 }, 8);
    assert_eq!(app.notifications.len(), 1);
}

#[test]
fn events_update_the_state() {
    let mut app = App::new(Vec::new());
    app.deploying = true;
    assert!(matches!(app.apply(Event::DeployDone(Ok("Deployment finished 🎉".to_string())), 1), Followup::RefreshProjects));
    assert!(!app.deploying);
    assert_eq!(app.logs.last().unwrap(), "[INFO] ✅ deploy done");
    assert_eq!(app.notifications.last().unwrap().message, "Deployment finished 🎉");
    app.apply(Event::DeployDone(Err("backend build failed: x".to_string())), 2);
    assert_eq!(app.logs.last().unwrap(), "[ERROR] backend build failed: x");
    assert_eq!(app.notifications.last().unwrap().level, "Error");
    app.apply(Event::ApiHealth { ok: false, detail: "unreachable".to_string() }, 3);
    assert_eq!(app.logs.last().unwrap(), "[WARN] API health: unreachable");
    assert_eq!(app.api_status, Some((false, "unreachable".to_string())));
    app.apply(Event::Toast(Ok("Backup OK — done".to_string())), 4);
    assert_eq!(app.logs.last().unwrap(), "[INFO] Backup OK — done");
    app.apply(Event::Log("hello".to_string()), 5);
    assert_eq!(app.logs.last().unwrap(), "hello");
    app.apply(Event::Notify { msg: "m".to_string(), level: "Warning".to_string() }, 6);
    assert_eq!(app.notifications.last().unwrap().level, "Warning");
}

#[test]
fn deleted_event_forgets_the_project() {
    let mut app = App::new(Vec::new());
    app.deployed = Some(sample("shop"));
    app.monitored = Some(sample("shop"));
    app.api_status = Some((true, "ok".to_string()));
    app.deploying = true;
    let f = app.apply(Event::Deleted(Ok("Project removed without a trace 🧹".to_string())), 9);
    assert!(matches!(f, Followup::RefreshProjects));
    assert!(app.deployed.is_none() && app.monitored.is_none() && app.api_status.is_none());
    assert!(app.services.is_empty() && !app.deploying);
}

#[test]
fn gate_done_falls_back_to_ascii_on_failure() {
    let mut app = App::new(Vec::new());
    app.font_gate = true;
    app.gate_busy = true;
    app.apply(Event::GateDone(Err("apt failed".to_string())), 0);
    assert!(!app.font_gate && !app.gate_busy && app.ascii);
    assert_eq!(app.icons.trash, "DEL");
    assert_eq!(app.notifications.last().unwrap().level, "Warning");
    let mut ok = App::new(Vec::new());
    ok.font_gate = true;
    ok.apply(Event::GateDone(Ok("fine".to_string())), 0);
    assert!(!ok.font_gate && !ok.ascii);
}

#[test]
fn a_form_survives_a_reload() {
    let mut app = App::new(Vec::new());
    app.set_text(0, 0, "  shop ");
    app.set_text(0, 5, "\tmain\n");
    app.set_text(1, 0, " /srv/shop");
    app.set_text(3, 0, "shop.io ");
    app.handle_key(key(KeyCode::Down), 0);
    app.handle_key(key(KeyCode::Right), 0);
    let first = app.collect_config();
    app.load_project(first.clone(), 1);
    let second = app.collect_config();
    assert_eq!(second.project_name, "shop");
    assert_eq!(second.branch, "main");
    assert_eq!(second.stack, BackendStack::TypeScript);
    assert_eq!(second.entry_point, "main.js");
    for (a, b) in [
        (&first.project_name, &second.project_name),
        (&first.entry_point, &second.entry_point),
        (&first.branch, &second.branch),
        (&first.target_dir, &second.target_dir),
        (&first.backup_dir, &second.backup_dir),
        (&first.frontend_dist, &second.frontend_dist),
        (&first.domain, &second.domain),
        (&first.health_path, &second.health_path),
        (&first.api_prefix, &second.api_prefix),
        (&first.max_body_size, &second.max_body_size),
        (&first.backup_retention, &second.backup_retention),
    ] {
        assert_eq!(a, b);
    }
    assert_eq!(first.stack, second.stack);
}

#[test]
fn docs_and_staging_reports() {
    let mut app = App::new(Vec::new());
    app.apply(Event::DocsWritten(Ok("/srv/x/.vps-deployer/DOCUMENTATION.md".to_string())), 1);
    assert_eq!(app.logs.last().unwrap(), "[INFO] 📖 docs written to /srv/x/.vps-deployer/DOCUMENTATION.md");
    let n = app.notifications.last().unwrap();
    assert_eq!((n.message.as_str(), n.level.as_str()), ("📖 docs: /srv/x/.vps-deployer/DOCUMENTATION.md", "Info"));
    let lines = app.logs.len();
    app.apply(Event::DocsWritten(Err("write docs: denied".to_string())), 2);
    assert_eq!(app.logs.len(), lines);
    assert_eq!(app.notifications.last().unwrap().level, "Error");
    app.apply(Event::FilesStaged(Ok("files staged".to_string())), 3);
    assert_eq!(app.notifications.last().unwrap().level, "Info");
    app.apply(Event::FilesStaged(Err("create /x: denied".to_string())), 4);
    assert_eq!(app.notifications.last().unwrap().message, "create /x: denied");
    assert_eq!(app.notifications.last().unwrap().level, "Error");
}
