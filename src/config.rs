//! Daemon and per-module configuration, with the built-in defaults.
use vstd::prelude::*;
use vstd::string::StringExecFns;
use crate::text::str_eq;

verus! {

/// Daemon-wide settings.
pub struct DaemonConfig {
    /// Terminal launch template; `{title}` and `{command}` are substituted.
    pub terminal_cmd: String,
    /// Height of the bar strip in pixels; the cursor is "in the bar" at or above it.
    pub waybar_height: u32,
    /// Path of the control socket.
    pub socket_path: String,
    /// Hover-to-open mode. When false, menus open and close by click only.
    pub hover: bool,
}

/// Settings of one menu module.
pub struct ModuleConfig {
    pub enabled: bool,
    /// Menu kind: `"tui"` or `"gui"`.
    pub kind: String,
    /// Command that runs the menu.
    pub command: Option<String>,
    /// Window class that identifies a GUI menu's window.
    pub window_class: Option<String>,
    /// Window size, width then height.
    pub size: [u32; 2],
    /// `"top-right"` or `"top-left"`.
    pub position: String,
    /// Quick-action command.
    pub action: Option<String>,
    /// Poll interval in seconds, for modules that poll.
    pub poll_interval: Option<u64>,
    /// Directory to watch (the mail module).
    pub watch_dir: Option<String>,
}

/// What a module's settings say, as mathematical values.
pub struct ModuleView {
    pub enabled: bool,
    pub kind: Seq<char>,
    pub command: Option<Seq<char>>,
    pub window_class: Option<Seq<char>>,
    pub width: u32,
    pub height: u32,
    pub position: Seq<char>,
    pub action: Option<Seq<char>>,
    pub poll_interval: Option<u64>,
    pub watch_dir: Option<Seq<char>>,
}

impl View for ModuleConfig {
    type V = ModuleView;

    open spec fn view(&self) -> ModuleView {
        ModuleView {
            enabled: self.enabled,
            kind: self.kind@,
            command: self.command.deep_view(),
            window_class: self.window_class.deep_view(),
            width: self.size@[0],
            height: self.size@[1],
            position: self.position@,
            action: self.action.deep_view(),
            poll_interval: self.poll_interval,
            watch_dir: self.watch_dir.deep_view(),
        }
    }
}

/// The name of the GUI menu kind.
pub open spec fn gui_kind() -> Seq<char> {
    "gui"@
}

impl ModuleView {
    /// A GUI menu is launched directly and matched by its window class;
    /// any other kind runs in a terminal and is matched by its title.
    pub open spec fn is_gui(self) -> bool {
        self.kind == gui_kind()
    }
}

/// Whole configuration: the daemon settings and the modules by name.
pub struct Config {
    pub daemon: DaemonConfig,
    /// Modules by name. Names are unique in the defaults (`names_unique`)
    /// and in a file, whose modules are a table; were one to occur twice,
    /// lookups find its first entry.
    pub modules: Vec<(String, ModuleConfig)>,
}

/// The settings of the first entry named `name`.
pub open spec fn entry_lookup(entries: Seq<(String, ModuleConfig)>, name: Seq<char>) -> Option<ModuleConfig>
    decreases entries.len(),
{
    if entries.len() == 0 {
        None
    } else if entries[0].0@ == name {
        Some(entries[0].1)
    } else {
        entry_lookup(entries.drop_first(), name)
    }
}

/// Entries as (name, settings) values.
pub open spec fn entries_view(entries: Seq<(String, ModuleConfig)>) -> Seq<(Seq<char>, ModuleView)> {
    entries.map_values(|e: (String, ModuleConfig)| (e.0@, e.1@))
}

impl Config {
    /// No two module entries share a name.
    pub open spec fn names_unique(&self) -> bool {
        forall|i: int, j: int|
            0 <= i < j < self.modules@.len() ==> (#[trigger] self.modules@[i]).0@ != (#[trigger] self.modules@[j]).0@
    }

    /// The settings of module `name`, if it is configured.
    pub open spec fn module(&self, name: Seq<char>) -> Option<ModuleConfig> {
        entry_lookup(self.modules@, name)
    }

    /// Looks a module up by name.
    pub fn get_module(&self, name: &str) -> (r: Option<&ModuleConfig>)
        ensures
            match r {
                Some(m) => self.module(name@) == Some(*m),
                None => self.module(name@).is_none(),
            },
    {
        let n = self.modules.len();
        let mut i: usize = 0;
        assert(self.modules@.subrange(0, n as int) =~= self.modules@);
        while i < n
            invariant
                n == self.modules@.len(),
                i <= n,
                entry_lookup(self.modules@, name@) == entry_lookup(self.modules@.subrange(i as int, n as int), name@),
            decreases n - i,
        {
            let entry = &self.modules[i];
            proof {
                let rest = self.modules@.subrange(i as int, n as int);
                assert(rest.drop_first() =~= self.modules@.subrange(i + 1, n as int));
            }
            if str_eq(entry.0.as_str(), name) {
                return Some(&entry.1);
            }
            i += 1;
        }
        None
    }
}


/// Default terminal launch template.
pub fn default_terminal_cmd() -> (r: String)
    ensures
        r@ == "foot -T {title} {command}"@,
{
    String::from_str("foot -T {title} {command}")
}

/// Default bar height.
pub fn default_waybar_height() -> (r: u32)
    ensures
        r == 32,
{
    32
}

/// Default control socket path.
pub fn default_socket_path() -> (r: String)
    ensures
        r@ == "/tmp/waybar-hovermenu.sock"@,
{
    String::from_str("/tmp/waybar-hovermenu.sock")
}

/// Modules are enabled unless configured otherwise.
pub fn default_true() -> (r: bool)
    ensures
        r,
{
    true
}

/// Default menu kind.
pub fn default_kind() -> (r: String)
    ensures
        r@ == "tui"@,
{
    String::from_str("tui")
}

/// Default window size.
pub fn default_size() -> (r: [u32; 2])
    ensures
        r@ == seq![600u32, 400u32],
{
    let r: [u32; 2] = [600, 400];
    assert(r@ =~= seq![600u32, 400u32]);
    r
}

/// Default window position.
pub fn default_position() -> (r: String)
    ensures
        r@ == "top-right"@,
{
    String::from_str("top-right")
}

impl Default for DaemonConfig {
    fn default() -> (r: Self)
        ensures
            r.terminal_cmd@ == "foot -T {title} {command}"@,
            r.waybar_height == 32,
            r.socket_path@ == "/tmp/waybar-hovermenu.sock"@,
            !r.hover,
    {
        DaemonConfig {
            terminal_cmd: default_terminal_cmd(),
            waybar_height: default_waybar_height(),
            socket_path: default_socket_path(),
            hover: false,
        }
    }
}

/// The characters of an optional string slice.
pub open spec fn opt_chars(s: Option<&str>) -> Option<Seq<char>> {
    match s {
        Some(x) => Some(x@),
        None => None,
    }
}

fn owned(s: Option<&str>) -> (r: Option<String>)
    ensures
        r.deep_view() == opt_chars(s),
{
    match s {
        Some(x) => Some(String::from_str(x)),
        None => None,
    }
}

fn module_entry(
    name: &str,
    kind: &str,
    command: &str,
    window_class: Option<&str>,
    width: u32,
    height: u32,
    position: &str,
    action: Option<&str>,
    poll_interval: Option<u64>,
    watch_dir: Option<&str>,
) -> (r: (String, ModuleConfig))
    ensures
        r.0@ == name@,
        r.1@ == (ModuleView {
            enabled: true,
            kind: kind@,
            command: Some(command@),
            window_class: opt_chars(window_class),
            width,
            height,
            position: position@,
            action: opt_chars(action),
            poll_interval,
            watch_dir: opt_chars(watch_dir),
        }),
{
    let size: [u32; 2] = [width, height];
    let m = ModuleConfig {
        enabled: true,
        kind: String::from_str(kind),
        command: Some(String::from_str(command)),
        window_class: owned(window_class),
        size,
        position: String::from_str(position),
        action: owned(action),
        poll_interval,
        watch_dir: owned(watch_dir),
    };
    (String::from_str(name), m)
}

/// The modules configured when no configuration file exists.
pub open spec fn default_entries() -> Seq<(Seq<char>, ModuleView)> {
    seq![
        ("audio"@, ModuleView {
            enabled: true,
            kind: "gui"@,
            command: Some("pavucontrol"@),
            window_class: Some("org.pulseaudio.pavucontrol"@),
            width: 600,
            height: 400,
            position: "top-right"@,
            action: Some("pactl set-sink-mute @DEFAULT_SINK@ toggle"@),
            poll_interval: None,
            watch_dir: None,
        }),
        ("bluetooth"@, ModuleView {
            enabled: true,
            kind: "tui"@,
            command: Some("bluetui"@),
            window_class: None,
            width: 600,
            height: 400,
            position: "top-right"@,
            action: Some("bluetoothctl power off || bluetoothctl power on"@),
            poll_interval: None,
            watch_dir: None,
        }),
        ("network"@, ModuleView {
            enabled: true,
            kind: "tui"@,
            command: Some("impala"@),
            window_class: None,
            width: 600,
            height: 400,
            position: "top-right"@,
            action: Some("nmcli radio wifi off || nmcli radio wifi on"@),
            poll_interval: None,
            watch_dir: None,
        }),
        ("cpu"@, ModuleView {
            enabled: true,
            kind: "tui"@,
            command: Some("/usr/bin/btop"@),
            window_class: None,
            width: 900,
            height: 600,
            position: "top-right"@,
            action: None,
            poll_interval: Some(3u64),
            watch_dir: None,
        }),
        ("battery"@, ModuleView {
            enabled: true,
            kind: "tui"@,
            command: Some("~/.local/bin/powertui"@),
            window_class: None,
            width: 600,
            height: 400,
            position: "top-right"@,
            action: None,
            poll_interval: Some(30u64),
            watch_dir: None,
        }),
        ("mail"@, ModuleView {
            enabled: true,
            kind: "tui"@,
            command: Some("mailtui"@),
            window_class: None,
            width: 600,
            height: 400,
            position: "top-left"@,
            action: Some("mbsync -a"@),
            poll_interval: None,
            watch_dir: Some("~/.local/share/mail"@),
        }),
        ("calendar"@, ModuleView {
            enabled: true,
            kind: "tui"@,
            command: Some("~/.local/bin/calentui"@),
            window_class: None,
            width: 600,
            height: 400,
            position: "top-right"@,
            action: None,
            poll_interval: None,
            watch_dir: None,
        }),
        ("localsend"@, ModuleView {
            enabled: true,
            kind: "gui"@,
            command: Some("flatpak run org.localsend.localsend_app"@),
            window_class: Some("localsend"@),
            width: 400,
            height: 500,
            position: "top-left"@,
            action: None,
            poll_interval: None,
            watch_dir: None,
        }),
    ]
}

impl Default for Config {
    fn default() -> (r: Self)
        ensures
            r.daemon.terminal_cmd@ == "foot -T {title} {command}"@,
            r.daemon.waybar_height == 32,
            r.daemon.socket_path@ == "/tmp/waybar-hovermenu.sock"@,
            !r.daemon.hover,
            entries_view(r.modules@) == default_entries(),
            r.names_unique(),
    {
        let mut modules: Vec<(String, ModuleConfig)> = Vec::new();
    modules.push(module_entry(
        "audio",
        "gui",
        "pavucontrol",
        Some("org.pulseaudio.pavucontrol"),
        600,
        400,
        "top-right",
        Some("pactl set-sink-mute @DEFAULT_SINK@ toggle"),
        None,
        None,
    ));
    modules.push(module_entry(
        "bluetooth",
        "tui",
        "bluetui",
        None,
        600,
        400,
        "top-right",
        Some("bluetoothctl power off || bluetoothctl power on"),
        None,
        None,
    ));
    modules.push(module_entry(
        "network",
        "tui",
        "impala",
        None,
        600,
        400,
        "top-right",
        Some("nmcli radio wifi off || nmcli radio wifi on"),
        None,
        None,
    ));
    modules.push(module_entry(
        "cpu",
        "tui",
        "/usr/bin/btop",
        None,
        900,
        600,
        "top-right",
        None,
        Some(3u64),
        None,
    ));
    modules.push(module_entry(
        "battery",
        "tui",
        "~/.local/bin/powertui",
        None,
        600,
        400,
        "top-right",
        None,
        Some(30u64),
        None,
    ));
    modules.push(module_entry(
        "mail",
        "tui",
        "mailtui",
        None,
        600,
        400,
        "top-left",
        Some("mbsync -a"),
        None,
        Some("~/.local/share/mail"),
    ));
    modules.push(module_entry(
        "calendar",
        "tui",
        "~/.local/bin/calentui",
        None,
        600,
        400,
        "top-right",
        None,
        None,
        None,
    ));
    modules.push(module_entry(
        "localsend",
        "gui",
        "flatpak run org.localsend.localsend_app",
        Some("localsend"),
        400,
        500,
        "top-left",
        None,
        None,
        None,
    ));
        assert(entries_view(modules@) =~= default_entries());
        proof {
            reveal_strlit("audio");
            reveal_strlit("bluetooth");
            reveal_strlit("network");
            reveal_strlit("cpu");
            reveal_strlit("battery");
            reveal_strlit("mail");
            reveal_strlit("calendar");
            reveal_strlit("localsend");
            assert forall|i: int, j: int| 0 <= i < j < modules@.len() implies modules@[i].0@ != modules@[j].0@ by {
                assert(modules@[i].0@ == entries_view(modules@)[i].0);
                assert(modules@[j].0@ == entries_view(modules@)[j].0);
                let (a, b) = (default_entries()[i].0, default_entries()[j].0);
                assert(a.len() != b.len() || a[0] != b[0] || a[1] != b[1]);
            }
        }
        Config { daemon: DaemonConfig::default(), modules }
    }
}

impl Config {
    /// Seconds between two polls of the CPU module: its configured
    /// interval, else 3.
    pub fn cpu_poll_seconds(&self) -> (r: u64)
        ensures
            r == match self.module("cpu"@) {
                Some(m) => match m.poll_interval {
                    Some(v) => v,
                    None => 3,
                },
                None => 3,
            },
    {
        match self.get_module("cpu") {
            Some(m) => match m.poll_interval {
                Some(v) => v,
                None => 3,
            },
            None => 3,
        }
    }

    /// Directory watched for mail: the mail module's, else the default.
    pub fn mail_watch_dir(&self) -> (r: String)
        ensures
            r@ == match self.module("mail"@) {
                Some(m) => match m@.watch_dir {
                    Some(d) => d,
                    None => "~/.local/share/mail"@,
                },
                None => "~/.local/share/mail"@,
            },
    {
        match self.get_module("mail") {
            Some(m) => match &m.watch_dir {
                Some(d) => String::from_str(d.as_str()),
                None => String::from_str("~/.local/share/mail"),
            },
            None => String::from_str("~/.local/share/mail"),
        }
    }
}

} // verus!
