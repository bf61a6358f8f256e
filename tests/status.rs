use waybar_hovermenu::modules::{
    get_audio_status, get_battery_status, get_bluetooth_status, get_calendar_status, get_cpu_status,
    get_localsend_status, get_mail_status, get_network_status, get_status, get_surfshark_status, get_vpn_status,
    is_battery_supply, is_power_event, is_sink_change, is_unread_message, probe_for, Probe, Reading,
};
use waybar_hovermenu::status::ModuleStatus;

fn some(s: &str) -> Option<String> {
    Some(s.to_string())
}

#[test]
fn status_of_unpinned_closed_module_has_no_class() {
    let st = get_status("mail", false, &Reading::Mail { unread: 0 });
    assert_eq!(st.class, "");
    let json: serde_json::Value = serde_json::from_str(&st.to_json()).unwrap();
    assert!(json.get("class").is_none());
    assert_eq!(json.get("text").and_then(|t| t.as_str()), Some("\u{f0e0}"));
}

#[test]
fn status_of_pinned_module_has_pinned_class() {
    let st = get_status("mail", true, &Reading::Mail { unread: 3 });
    assert_eq!(st.class, "pinned");
    assert_eq!(st.to_json(), "{\"text\":\"\u{f0e0} 3\",\"class\":\"pinned\"}");
}

#[test]
fn json_omits_empty_class_and_tooltip() {
    assert_eq!(ModuleStatus::new("x").to_json(), "{\"text\":\"x\"}");
    let full = ModuleStatus::new("a \"b\"").with_class("c").with_tooltip("t\n");
    assert_eq!(full.to_json(), "{\"text\":\"a \\\"b\\\"\",\"class\":\"c\",\"tooltip\":\"t\\n\"}");
    let tip = ModuleStatus::new("x").with_tooltip("t");
    let v: serde_json::Value = serde_json::from_str(&tip.to_json()).unwrap();
    assert!(v.get("class").is_none());
    assert_eq!(v.get("tooltip").and_then(|t| t.as_str()), Some("t"));
}

#[test]
fn json_fields_list_members_in_order() {
    let st = ModuleStatus::new("x").with_class("c");
    assert_eq!(st.json_fields(), vec![("text".to_string(), "x".to_string()), ("class".to_string(), "c".to_string())]);
}

#[test]
fn builders_set_fields() {
    let st = ModuleStatus::new("t").with_class("k").with_tooltip("tip");
    assert_eq!((st.text.as_str(), st.class.as_str(), st.tooltip.as_str()), ("t", "k", "tip"));
}

#[test]
fn audio_status_texts() {
    assert_eq!(get_audio_status(&some("Mute: yes\n"), &some("40")).text, "\u{f6a9}");
    assert_eq!(get_audio_status(&some("Mute: no\n"), &some(" 0\n")).text, "\u{f026} 0%");
    assert_eq!(get_audio_status(&some("Mute: no"), &some("49\n")).text, "\u{f027} 49%");
    assert_eq!(get_audio_status(&None, &some("50")).text, "\u{f028} 50%");
    assert_eq!(get_audio_status(&None, &some("loud")).text, "\u{f026} 0%");
}

#[test]
fn bluetooth_status_texts() {
    assert_eq!(get_bluetooth_status(&some("Powered: no"), &None).text, "\u{f293} off");
    let devices = some("Device AA:BB:CC:DD:EE:FF My  Head Phones\nDevice 11:22 Other\n");
    assert_eq!(get_bluetooth_status(&some("Powered: yes"), &devices).text, "\u{f293} My Head Phones");
    assert_eq!(get_bluetooth_status(&some("Powered: yes"), &some("")).text, "\u{f293} on");
    assert_eq!(get_bluetooth_status(&some("Powered: yes"), &some("Device AA")).text, "\u{f293} on");
}

#[test]
fn network_status_texts() {
    let station = some("  State      connected\n  Connected network     HomeNet\n");
    assert_eq!(get_network_status(&station, &None).text, "\u{f1eb} HomeNet");
    let links = some("1: lo: <LOOPBACK,UP> state UNKNOWN\n2: enp3s0: <BROADCAST,UP> mtu 1500 state UP mode\n");
    assert_eq!(get_network_status(&some("  State  disconnected\n"), &links).text, "\u{f796}");
    let wifi_only = some("3: wlan0: <UP> state UP\n");
    assert_eq!(get_network_status(&None, &wifi_only).text, "\u{f1eb} off");
}

#[test]
fn cpu_status_texts() {
    assert_eq!(get_cpu_status("cpu  100 5 100 800 0 0\ncpu0 1 2 3 4\n").text, "\u{f2db} 20%");
    assert_eq!(get_cpu_status("cpu 1 2 3\n").text, "\u{f2db} ?%");
    assert_eq!(get_cpu_status("cpu 0 7 0 0\n").text, "\u{f2db} ?%");
    assert_eq!(get_cpu_status("").text, "\u{f2db} ?%");
}

#[test]
fn battery_status_texts() {
    assert_eq!(get_battery_status(&None).text, "");
    assert_eq!(get_battery_status(&Some((some("100\n"), some("Full\n")))).text, "\u{f1e6}");
    assert_eq!(get_battery_status(&Some((some("42\n"), some("Charging\n")))).text, "\u{f0e7} 42%");
    assert_eq!(get_battery_status(&Some((some("80"), some("Discharging")))).text, "\u{f240} 80%");
    assert_eq!(get_battery_status(&Some((some("51"), None))).text, "\u{f241} 51%");
    assert_eq!(get_battery_status(&Some((some("26"), None))).text, "\u{f242} 26%");
    assert_eq!(get_battery_status(&Some((some("11"), None))).text, "\u{f243} 11%");
    assert_eq!(get_battery_status(&Some((None, None))).text, "\u{f244} ?%");
}

#[test]
fn other_status_texts() {
    assert_eq!(get_mail_status(0).text, "\u{f0e0}");
    assert_eq!(get_mail_status(12).text, "\u{f0e0} 12");
    assert_eq!(get_calendar_status(&some("Mon 01 Jan 09:30\n")).text, "\u{f073} Mon 01 Jan 09:30");
    assert_eq!(get_calendar_status(&None).text, "\u{f073} ???");
    assert_eq!(get_vpn_status(&some("5: wg0: <POINTOPOINT,UP,LOWER_UP>")).text, "\u{f3ed}");
    assert_eq!(get_vpn_status(&None).text, "\u{f3ed} off");
    assert_eq!(get_localsend_status().text, "\u{2191}\u{2193}");
    assert_eq!(get_surfshark_status().text, "\u{f21b}");
}

#[test]
fn status_dispatches_by_module() {
    assert_eq!(get_status("printer", false, &Reading::Nothing).text, "?");
    assert_eq!(get_status("localsend", false, &Reading::Nothing).text, "\u{2191}\u{2193}");
    assert_eq!(get_status("cpu", false, &Reading::Nothing).text, "\u{f2db} ?%");
    let r = Reading::Vpn { link: some("UP") };
    assert_eq!(get_status("vpn", false, &r).text, "\u{f3ed}");
    assert_eq!(probe_for("battery"), Probe::Battery);
    assert_eq!(probe_for("surfshark"), Probe::Nothing);
}

#[test]
fn json_escapes_follow_stated_rules() {
    let st = ModuleStatus::new("q\"b\\s/\u{8}\u{c}\n\r\t\u{1}\u{1f} \u{7f}é\u{f0e0}");
    assert_eq!(
        st.to_json(),
        "{\"text\":\"q\\\"b\\\\s/\\b\\f\\n\\r\\t\\u0001\\u001f \u{7f}é\u{f0e0}\"}"
    );
}

#[test]
fn event_lines_and_files() {
    assert!(is_sink_change("Event 'change' on sink #52"));
    assert!(!is_sink_change("Event 'change' on source #3"));
    assert!(is_power_event("[12:00] device changed: /org/freedesktop/UPower/devices/line_power_AC"));
    assert!(is_power_event("battery_BAT0"));
    assert!(!is_power_event("daemon changed"));
    assert!(is_battery_supply("Battery\n"));
    assert!(is_battery_supply("BATTERY"));
    assert!(!is_battery_supply("Mains\n"));
    assert!(!is_battery_supply("batteryx"));
    assert!(is_unread_message("new", "INBOX"));
    assert!(!is_unread_message("cur", "INBOX"));
    assert!(!is_unread_message("new", "Sent"));
}
