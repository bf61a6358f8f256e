use waybar_hovermenu::config::{Config, ModuleConfig};
use waybar_hovermenu::menu::{rest_of_plan, Launch, MenuError, MenuManager, Plan};
use waybar_hovermenu::modules::Reading;
use waybar_hovermenu::window::{menu_targets, pids_to_terminate, WindowInfo};
use waybar_hovermenu::watcher::{CursorWatch, LeaveDebounce, Step, LEAVE_CHECKS, WATCH_CLOSE_AFTER};

fn manager(hover: bool) -> MenuManager {
    let mut config = Config::default();
    config.daemon.hover = hover;
    MenuManager::new(config, Some("/home/ada".to_string()))
}

fn plan(r: Result<Plan, MenuError>) -> Plan {
    match r {
        Ok(p) => p,
        Err(e) => panic!("declined: {:?}", e),
    }
}

fn is_idle(p: &Plan) -> bool {
    !p.close_menus && p.launch.is_none() && p.watch.is_none() && p.highlight.is_none() && !p.nudge_pointer
}

fn state(m: &MenuManager) -> (Option<String>, Option<String>) {
    (m.open_module.clone(), m.pinned.clone())
}

fn bare_module(command: Option<&str>, enabled: bool) -> ModuleConfig {
    ModuleConfig {
        enabled,
        kind: "tui".to_string(),
        command: command.map(|c| c.to_string()),
        window_class: None,
        size: [600, 400],
        position: "top-right".to_string(),
        action: None,
        poll_interval: None,
        watch_dir: None,
    }
}

#[test]
fn hover_opens_closed_module_unpinned() {
    let mut m = manager(true);
    let p = plan(m.hover("audio"));
    assert_eq!(state(&m), (Some("audio".to_string()), None));
    assert!(p.close_menus);
    assert!(matches!(p.launch, Some(Launch::Gui(ref s)) if s == "GTK_THEME=Adwaita:dark pavucontrol"));
    assert_eq!(p.watch, Some(1));
    assert!(p.highlight.is_none());
    assert!(!p.nudge_pointer);
}

#[test]
fn second_hover_on_open_module_is_noop() {
    let mut m = manager(true);
    plan(m.hover("audio"));
    let p = plan(m.hover("audio"));
    assert!(is_idle(&p));
    assert_eq!(state(&m), (Some("audio".to_string()), None));
    assert_eq!(m.generation(), 1);
}

#[test]
fn hover_on_other_module_closes_and_switches() {
    let mut m = manager(true);
    plan(m.hover("audio"));
    let p = plan(m.hover("bluetooth"));
    assert!(p.close_menus);
    assert_eq!(state(&m), (Some("bluetooth".to_string()), None));
    assert!(matches!(p.launch, Some(Launch::Terminal(ref s)) if s == "foot -T WAYBAR-MENU: bluetooth bluetui"));
    assert_eq!(p.watch, Some(2));
}

#[test]
fn hover_is_ignored_in_click_only_mode() {
    let mut m = manager(false);
    let p = plan(m.hover("audio"));
    assert!(is_idle(&p));
    assert_eq!(state(&m), (None, None));
    assert!(!m.leave());
}

#[test]
fn click_pins_then_second_click_unpins_and_closes() {
    let mut m = manager(true);
    let p = plan(m.click("audio"));
    assert_eq!(state(&m), (Some("audio".to_string()), Some("audio".to_string())));
    assert!(p.close_menus && p.nudge_pointer);
    assert_eq!(p.highlight.as_deref(), Some("audio"));
    let p = plan(m.click("audio"));
    assert_eq!(state(&m), (None, None));
    assert!(p.close_menus && p.nudge_pointer && p.launch.is_none());
}

#[test]
fn click_on_hovered_menu_pins_it_in_place() {
    let mut m = manager(true);
    plan(m.hover("network"));
    let p = plan(m.click("network"));
    assert_eq!(state(&m), (Some("network".to_string()), Some("network".to_string())));
    assert!(!p.close_menus && p.launch.is_none());
    assert_eq!(p.highlight.as_deref(), Some("network"));
    assert_eq!(m.generation(), 1);
}

#[test]
fn click_only_mode_toggles_menu() {
    let mut m = manager(false);
    let p = plan(m.click("mail"));
    assert_eq!(state(&m), (Some("mail".to_string()), None));
    assert!(p.watch.is_none() && p.close_menus && p.nudge_pointer);
    assert_eq!(m.generation(), 0);
    let p = plan(m.click("mail"));
    assert_eq!(state(&m), (None, None));
    assert!(p.close_menus && p.launch.is_none());
}

#[test]
fn click_only_mode_switches_module() {
    let mut m = manager(false);
    plan(m.click("mail"));
    let p = plan(m.click("calendar"));
    assert!(p.close_menus);
    assert_eq!(state(&m), (Some("calendar".to_string()), None));
    assert!(matches!(p.launch, Some(Launch::Terminal(ref s)) if s == "foot -T WAYBAR-MENU: calendar /home/ada/.local/bin/calentui"));
}

#[test]
fn leave_with_pinned_module_does_nothing() {
    let mut m = manager(true);
    plan(m.click("audio"));
    assert!(!m.leave());
    assert!(!m.close_unpinned());
    assert_eq!(state(&m), (Some("audio".to_string()), Some("audio".to_string())));
}

#[test]
fn leave_outside_for_whole_window_closes_once() {
    let mut m = manager(true);
    plan(m.hover("audio"));
    assert!(m.leave());
    let mut d = LeaveDebounce::new();
    let mut closes = 0;
    for _ in 0..LEAVE_CHECKS {
        match d.observe(false) {
            Step::Close => {
                if m.close_unpinned() {
                    closes += 1;
                }
            }
            Step::Wait => {}
            Step::Stop => panic!("stopped while outside"),
        }
    }
    assert_eq!(closes, 1);
    assert_eq!(state(&m), (None, None));
}

#[test]
fn leave_stops_on_safe_observation() {
    let mut d = LeaveDebounce::new();
    assert_eq!(d.observe(false), Step::Wait);
    assert_eq!(d.observe(true), Step::Stop);
}

#[test]
fn close_all_twice_is_noop_second_time() {
    let mut m = manager(true);
    plan(m.hover("cpu"));
    let first = m.close_all_menus();
    assert!(first.close_menus);
    let after_first = state(&m);
    let second = m.close_all_menus();
    assert!(second.close_menus && second.launch.is_none());
    assert_eq!(state(&m), after_first);
    assert_eq!(state(&m), (None, None));
}

#[test]
fn generation_counts_opened_menus() {
    let mut m = manager(true);
    let modules = ["audio", "bluetooth", "network", "cpu", "battery"];
    for (i, module) in modules.iter().enumerate() {
        let p = plan(m.hover(module));
        assert_eq!(p.watch, Some(i as u64 + 1));
    }
    assert_eq!(m.generation(), 5);
    assert!(!m.watcher_active(4));
    assert!(m.watcher_active(5));
    assert!(!m.watcher_close(3));
    assert_eq!(state(&m), (Some("battery".to_string()), None));
    assert!(m.watcher_close(5));
    assert_eq!(state(&m), (None, None));
}

#[test]
fn watcher_stops_when_menu_pinned() {
    let mut m = manager(true);
    plan(m.hover("audio"));
    plan(m.click("audio"));
    assert!(!m.watcher_active(1));
}

#[test]
fn cursor_watch_closes_after_consecutive_outside_polls() {
    let mut w = CursorWatch::new(7);
    assert_eq!(w.observe(false), Step::Wait);
    assert_eq!(w.observe(true), Step::Wait);
    assert_eq!(w.outside, 0);
    for _ in 1..WATCH_CLOSE_AFTER {
        assert_eq!(w.observe(false), Step::Wait);
    }
    assert_eq!(w.observe(false), Step::Close);
    assert_eq!(w.generation, 7);
}

#[test]
fn unknown_module_is_declined() {
    let mut m = manager(true);
    assert!(matches!(m.hover("printer"), Err(MenuError::ModuleNotFound)));
    assert!(matches!(m.click("printer"), Err(MenuError::ModuleNotFound)));
    assert_eq!(state(&m), (None, None));
}

#[test]
fn module_without_command_is_declined() {
    let mut config = Config::default();
    config.daemon.hover = true;
    config.modules.push(("clock".to_string(), bare_module(None, true)));
    let mut m = MenuManager::new(config, None);
    assert!(matches!(m.hover("clock"), Err(MenuError::NoCommand)));
    assert_eq!(state(&m), (None, None));
    assert_eq!(m.generation(), 0);
}

#[test]
fn disabled_module_is_ignored() {
    let mut config = Config::default();
    config.modules.insert(0, ("audio".to_string(), bare_module(Some("mixer"), false)));
    let mut m = MenuManager::new(config, None);
    let p = plan(m.click("audio"));
    assert!(is_idle(&p));
    assert_eq!(state(&m), (None, None));
}

#[test]
fn failed_launch_falls_back_to_closed() {
    let mut m = manager(true);
    plan(m.click("mail"));
    m.launch_failed("audio");
    assert_eq!(state(&m), (Some("mail".to_string()), Some("mail".to_string())));
    m.launch_failed("mail");
    assert_eq!(state(&m), (None, None));
}

#[test]
fn highlight_follows_mode() {
    let mut m = manager(true);
    plan(m.hover("audio"));
    assert!(!m.highlighted("audio"));
    plan(m.click("audio"));
    assert!(m.highlighted("audio"));
    let mut c = manager(false);
    plan(c.click("mail"));
    assert!(c.highlighted("mail"));
    assert!(!c.highlighted("audio"));
}

#[test]
fn queries_report_state() {
    let mut m = manager(true);
    plan(m.click("cpu"));
    assert!(m.is_pinned("cpu"));
    assert!(!m.is_pinned("audio"));
    assert!(m.has_pinned());
    assert!(m.is_menu_open("cpu"));
    assert!(!m.is_menu_open("mail"));
}

#[test]
fn action_command_expands_home() {
    let m = manager(true);
    assert_eq!(m.action_command("mail").as_deref(), Some("mbsync -a"));
    assert_eq!(m.action_command("cpu"), None);
    assert_eq!(m.action_command("printer"), None);
    assert_eq!(m.expand_path("~/.local/share/mail"), "/home/ada/.local/share/mail");
    assert_eq!(m.expand_path("~bob/x"), "~bob/x");
    assert_eq!(m.expand_path("~"), "/home/ada");
    let n = MenuManager::new(Config::default(), None);
    assert_eq!(n.expand_path("~/x"), "~/x");
}

#[test]
fn terminal_template_is_filled() {
    let mut config = Config::default();
    config.daemon.terminal_cmd = "kitty --title '{title}' -e {command} # {title}".to_string();
    let mut m = MenuManager::new(config, Some("/h".to_string()));
    let p = plan(m.click("battery"));
    assert!(matches!(p.launch, Some(Launch::Terminal(ref s))
        if s == "kitty --title 'WAYBAR-MENU: battery' -e /h/.local/bin/powertui # WAYBAR-MENU: battery"));
}

fn menu_window(title: &str, class: &str, pid: i32) -> WindowInfo {
    WindowInfo {
        address: format!("0x{}", pid),
        title: title.to_string(),
        class: class.to_string(),
        pid,
        at: Some((0, 40)),
        size: Some((600, 400)),
    }
}

#[test]
fn hover_switch_terminates_previous_menu_before_launch() {
    let mut m = manager(true);
    plan(m.hover("audio"));
    let windows = vec![menu_window("Volume Control", "org.pulseaudio.pavucontrol", 4242)];
    let p = plan(m.hover("bluetooth"));
    assert!(p.close_menus && p.launch.is_some());
    let targets = menu_targets(&m.config, &windows);
    assert_eq!(pids_to_terminate(&targets), vec![4242]);
    assert!(m.is_menu_open("bluetooth") && !m.is_menu_open("audio") && !m.has_pinned());
}

#[test]
fn click_only_switch_terminates_previous_menu() {
    let mut m = manager(false);
    plan(m.click("mail"));
    let windows = vec![menu_window("WAYBAR-MENU: mail", "foot", 77)];
    let p = plan(m.click("calendar"));
    assert!(p.close_menus && p.launch.is_some());
    assert_eq!(pids_to_terminate(&menu_targets(&m.config, &windows)), vec![77]);
    assert!(m.is_menu_open("calendar") && !m.is_menu_open("mail") && !m.has_pinned());
}

#[test]
fn rest_of_plan_after_launch() {
    let mut m = manager(true);
    let p = plan(m.click("audio"));
    let rest = rest_of_plan(p, true);
    assert!(!rest.close_menus && rest.launch.is_none());
    assert_eq!(rest.watch, Some(1));
    assert_eq!(rest.highlight.as_deref(), Some("audio"));
    assert!(rest.nudge_pointer);
    let mut n = manager(true);
    let q = plan(n.click("audio"));
    let failed = rest_of_plan(q, false);
    assert!(is_idle(&failed));
}

#[test]
fn status_reply_follows_highlight() {
    let mut m = manager(true);
    assert_eq!(m.status_json("mail", &Reading::Mail { unread: 2 }), "{\"text\":\"\u{f0e0} 2\"}");
    plan(m.click("mail"));
    assert_eq!(m.status_json("mail", &Reading::Mail { unread: 0 }), "{\"text\":\"\u{f0e0}\",\"class\":\"pinned\"}");
    let mut c = manager(false);
    plan(c.click("cpu"));
    assert_eq!(c.status_json("cpu", &Reading::Cpu { stat: String::new() }), "{\"text\":\"\u{f2db} ?%\",\"class\":\"pinned\"}");
}
