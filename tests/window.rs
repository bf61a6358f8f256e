use waybar_hovermenu::config::Config;
use waybar_hovermenu::window::{
    close_animation, cursor_in_safe_zone, fallback_cursor_y, find_menu_window, is_cursor_over_menu, menu_targets, pids_to_terminate,
    WindowInfo,
};

fn window(address: &str, title: &str, class: &str, pid: i32, at: (i32, i32), size: (i32, i32)) -> WindowInfo {
    WindowInfo {
        address: address.to_string(),
        title: title.to_string(),
        class: class.to_string(),
        pid,
        at: Some(at),
        size: Some(size),
    }
}

fn windows() -> Vec<WindowInfo> {
    vec![
        window("0x1", "WAYBAR-MENU: bluetooth", "foot", 10, (1000, 40), (600, 400)),
        window("0x2", "Volume Control", "org.pulseaudio.pavucontrol", 0, (100, 40), (600, 400)),
        window("0x3", "editor", "code", 12, (0, 0), (1920, 1080)),
    ]
}

#[test]
fn safe_zone_covers_bar_and_menus_with_margin() {
    let c = Config::default();
    let ws = windows();
    assert!(cursor_in_safe_zone(&c, &ws, 500, 32));
    assert!(!cursor_in_safe_zone(&c, &ws, 1800, 600));
    assert!(is_cursor_over_menu(&c, &ws, 990, 30));
    assert!(is_cursor_over_menu(&c, &ws, 1609, 449));
    assert!(!is_cursor_over_menu(&c, &ws, 1610, 200));
    assert!(!is_cursor_over_menu(&c, &ws, 989, 200));
    let mut partial = windows();
    partial[0].size = None;
    assert!(!is_cursor_over_menu(&c, &partial, 1200, 200));
}

#[test]
fn close_targets_are_menu_windows() {
    let c = Config::default();
    let targets = menu_targets(&c, &windows());
    assert_eq!(targets, vec![("0x1".to_string(), 10), ("0x2".to_string(), 0)]);
    assert_eq!(pids_to_terminate(&targets), vec![10]);
    assert!(menu_targets(&c, &Vec::new()).is_empty());
}

#[test]
fn close_animation_frames() {
    let frames = close_animation();
    assert_eq!(frames.len(), 8);
    assert_eq!(frames[0], (-60, 88));
    assert_eq!(frames[7], (-480, 4));
}

#[test]
fn module_window_lookup() {
    let c = Config::default();
    let ws = windows();
    let audio = c.get_module("audio").unwrap();
    assert_eq!(find_menu_window("audio", audio, &ws).as_deref(), Some("0x2"));
    let bt = c.get_module("bluetooth").unwrap();
    assert_eq!(find_menu_window("bluetooth", bt, &ws).as_deref(), Some("0x1"));
    let mail = c.get_module("mail").unwrap();
    assert_eq!(find_menu_window("mail", mail, &ws), None);
}

#[test]
fn cursor_fallback_lies_below_bar() {
    assert_eq!(fallback_cursor_y(32), 100);
    assert_eq!(fallback_cursor_y(100), 101);
    assert_eq!(fallback_cursor_y(u32::MAX), i32::MAX);
}
