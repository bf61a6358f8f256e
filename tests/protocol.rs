use waybar_hovermenu::config::{default_kind, default_position, default_size, default_socket_path, default_terminal_cmd, default_true, default_waybar_height, Config};
use waybar_hovermenu::control::{parse_request, Request};

#[test]
fn request_lines() {
    assert!(matches!(parse_request("follow audio\n"), Some(Request::Follow(ref m)) if m == "audio"));
    assert!(matches!(parse_request("  status cpu extra"), Some(Request::Status(ref m)) if m == "cpu"));
    assert!(matches!(parse_request("hover mail"), Some(Request::Hover(ref m)) if m == "mail"));
    assert!(matches!(parse_request("click mail"), Some(Request::Click(ref m)) if m == "mail"));
    assert!(matches!(parse_request("action mail"), Some(Request::Action(ref m)) if m == "mail"));
    assert!(matches!(parse_request("leave"), Some(Request::Leave)));
    assert!(matches!(parse_request("jump audio"), Some(Request::Unknown(ref c)) if c == "jump"));
    assert!(parse_request("   \n").is_none());
    assert!(parse_request("click").is_none());
}

#[test]
fn default_configuration() {
    let c = Config::default();
    assert_eq!(c.modules.len(), 8);
    assert!(!c.daemon.hover);
    assert_eq!(c.daemon.waybar_height, 32);
    let audio = c.get_module("audio").unwrap();
    assert_eq!(audio.kind, "gui");
    assert_eq!(audio.window_class.as_deref(), Some("org.pulseaudio.pavucontrol"));
    assert_eq!(c.get_module("cpu").unwrap().size, [900, 600]);
    assert!(c.get_module("printer").is_none());
    assert_eq!(c.cpu_poll_seconds(), 3);
    assert_eq!(c.mail_watch_dir(), "~/.local/share/mail");
    assert_eq!(default_terminal_cmd(), "foot -T {title} {command}");
    assert_eq!(default_socket_path(), "/tmp/waybar-hovermenu.sock");
    assert_eq!((default_waybar_height(), default_true()), (32, true));
    assert_eq!((default_kind(), default_size(), default_position()), ("tui".to_string(), [600, 400], "top-right".to_string()));
}

#[test]
fn watcher_settings_follow_configuration() {
    let mut c = Config::default();
    c.modules.retain(|(n, _)| n != "cpu" && n != "mail");
    assert_eq!(c.cpu_poll_seconds(), 3);
    let mut d = Config::default();
    for (name, m) in d.modules.iter_mut() {
        if name == "cpu" {
            m.poll_interval = Some(9);
        }
        if name == "mail" {
            m.watch_dir = Some("/var/mail".to_string());
        }
    }
    assert_eq!(d.cpu_poll_seconds(), 9);
    assert_eq!(d.mail_watch_dir(), "/var/mail");
}

#[test]
fn default_module_names_are_distinct() {
    let c = Config::default();
    let mut names: Vec<&str> = c.modules.iter().map(|(n, _)| n.as_str()).collect();
    names.sort();
    names.dedup();
    assert_eq!(names.len(), c.modules.len());
}
