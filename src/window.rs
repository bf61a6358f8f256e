//! Window-system facts as plain values, and the decisions made on them:
//! which windows are menus, whether the cursor is in the safe zone, which
//! window belongs to a module, and how a menu is closed.
use vstd::prelude::*;
use vstd::string::StringExecFns;
use crate::config::{Config, ModuleConfig, ModuleView};
use crate::menu::{menu_title, menu_title_prefix};
use crate::text::{contains, has_infix, has_prefix, starts_with, str_eq};

verus! {

/// One window as the window system reports it.
pub struct WindowInfo {
    pub address: String,
    pub title: String,
    pub class: String,
    pub pid: i32,
    /// Top-left corner, when reported.
    pub at: Option<(i32, i32)>,
    /// Width and height, when reported.
    pub size: Option<(i32, i32)>,
}

/// Tolerance, in pixels, around a menu window that still counts as over it.
pub const MENU_MARGIN: i32 = 10;

/// Whether `class` is the window class of a configured GUI menu.
pub open spec fn is_menu_class(config: Config, class: Seq<char>) -> bool {
    exists|i: int|
        0 <= i < config.modules@.len() && (#[trigger] config.modules@[i]).1@.is_gui()
            && config.modules@[i].1@.window_class == Some(class)
}

/// Whether `w` is a menu window: a terminal menu by its title prefix, or a
/// GUI menu by its class.
pub open spec fn is_menu_window(config: Config, w: WindowInfo) -> bool {
    has_prefix(w.title@, menu_title_prefix()) || is_menu_class(config, w.class@)
}

/// Whether the point lies in `w`'s box widened by the margin on every side.
pub open spec fn over_window(w: WindowInfo, x: int, y: int) -> bool {
    match (w.at, w.size) {
        (Some((wx, wy)), Some((ww, wh))) => wx - MENU_MARGIN <= x < wx + ww + MENU_MARGIN && wy - MENU_MARGIN <= y
            < wy + wh + MENU_MARGIN,
        _ => false,
    }
}

/// Whether the point lies over some menu window.
pub open spec fn over_menu(config: Config, windows: Seq<WindowInfo>, x: int, y: int) -> bool {
    exists|i: int| 0 <= i < windows.len() && is_menu_window(config, #[trigger] windows[i]) && over_window(windows[i], x, y)
}

/// Whether the cursor is safe: within the bar strip, or over a menu window.
pub open spec fn in_safe_zone(config: Config, windows: Seq<WindowInfo>, x: int, y: int) -> bool {
    y <= config.daemon.waybar_height || over_menu(config, windows, x, y)
}

/// Whether `class` is the window class of a configured GUI menu.
pub fn menu_class(config: &Config, class: &str) -> (r: bool)
    ensures
        r == is_menu_class(*config, class@),
{
    let n = config.modules.len();
    let mut i: usize = 0;
    while i < n
        invariant
            n == config.modules@.len(),
            i <= n,
            forall|j: int|
                0 <= j < i ==> !((#[trigger] config.modules@[j]).1@.is_gui() && config.modules@[j].1@.window_class
                    == Some(class@)),
        decreases n - i,
    {
        let m = &config.modules[i].1;
        if str_eq(m.kind.as_str(), "gui") {
            match &m.window_class {
                Some(c) => {
                    if str_eq(c.as_str(), class) {
                        return true;
                    }
                },
                None => {},
            }
        }
        i += 1;
    }
    false
}

/// Whether `w` is a menu window.
pub fn menu_window(config: &Config, w: &WindowInfo) -> (r: bool)
    ensures
        r == is_menu_window(*config, *w),
{
    starts_with(w.title.as_str(), "WAYBAR-MENU:") || menu_class(config, w.class.as_str())
}

/// Whether the point lies over `w`, margin included.
pub fn cursor_over_window(w: &WindowInfo, x: i32, y: i32) -> (r: bool)
    ensures
        r == over_window(*w, x as int, y as int),
{
    match (w.at, w.size) {
        (Some((wx, wy)), Some((ww, wh))) => {
            let (x, y) = (x as i64, y as i64);
            let (wx, wy, ww, wh) = (wx as i64, wy as i64, ww as i64, wh as i64);
            let m = MENU_MARGIN as i64;
            wx - m <= x && x < wx + ww + m && wy - m <= y && y < wy + wh + m
        },
        _ => false,
    }
}

/// Whether the point lies over some menu window.
pub fn is_cursor_over_menu(config: &Config, windows: &Vec<WindowInfo>, x: i32, y: i32) -> (r: bool)
    ensures
        r == over_menu(*config, windows@, x as int, y as int),
{
    let n = windows.len();
    let mut i: usize = 0;
    while i < n
        invariant
            n == windows@.len(),
            i <= n,
            forall|j: int|
                0 <= j < i ==> !(is_menu_window(*config, #[trigger] windows@[j]) && over_window(windows@[j], x as int, y as int)),
        decreases n - i,
    {
        let w = &windows[i];
        if menu_window(config, w) && cursor_over_window(w, x, y) {
            return true;
        }
        i += 1;
    }
    false
}

/// The vertical cursor position assumed when the real one cannot be read:
/// below a bar of `waybar_height` pixels, at 100 for bars lower than that.
pub open spec fn fallback_y(waybar_height: u32) -> int {
    if waybar_height < 100 {
        100
    } else if waybar_height < i32::MAX {
        waybar_height + 1
    } else {
        i32::MAX as int
    }
}

/// The vertical cursor position to assume when it cannot be read; it lies
/// below the bar whenever any position can.
pub fn fallback_cursor_y(waybar_height: u32) -> (r: i32)
    ensures
        r as int == fallback_y(waybar_height),
        waybar_height < i32::MAX ==> r as int > waybar_height,
{
    if waybar_height < 100 {
        100
    } else if waybar_height < 0x7fff_ffff {
        (waybar_height + 1) as i32
    } else {
        0x7fff_ffff
    }
}

/// Whether the cursor at (`x`, `y`) is in the safe zone.
pub fn cursor_in_safe_zone(config: &Config, windows: &Vec<WindowInfo>, x: i32, y: i32) -> (r: bool)
    ensures
        r == in_safe_zone(*config, windows@, x as int, y as int),
{
    y as i64 <= config.daemon.waybar_height as i64 || is_cursor_over_menu(config, windows, x, y)
}

/// The (address, pid) of every menu window, in the order given.
pub open spec fn close_targets(config: Config, windows: Seq<WindowInfo>) -> Seq<(Seq<char>, i32)>
    decreases windows.len(),
{
    if windows.len() == 0 {
        Seq::empty()
    } else {
        let rest = close_targets(config, windows.drop_last());
        let w = windows.last();
        if is_menu_window(config, w) {
            rest.push((w.address@, w.pid))
        } else {
            rest
        }
    }
}

/// The (address, pid) of every menu window: the windows that closing all
/// menus slides out and whose processes it terminates.
pub fn menu_targets(config: &Config, windows: &Vec<WindowInfo>) -> (r: Vec<(String, i32)>)
    ensures
        r@.map_values(|t: (String, i32)| (t.0@, t.1)) == close_targets(*config, windows@),
{
    let n = windows.len();
    let mut r: Vec<(String, i32)> = Vec::new();
    let mut i: usize = 0;
    while i < n
        invariant
            n == windows@.len(),
            i <= n,
            r@.map_values(|t: (String, i32)| (t.0@, t.1)) == close_targets(*config, windows@.subrange(0, i as int)),
        decreases n - i,
    {
        let w = &windows[i];
        assert(windows@.subrange(0, i + 1).drop_last() =~= windows@.subrange(0, i as int));
        if menu_window(config, w) {
            r.push((String::from_str(w.address.as_str()), w.pid));
            assert(r@.map_values(|t: (String, i32)| (t.0@, t.1)) =~= close_targets(*config, windows@.subrange(0, i as int)).push((w.address@, w.pid)));
        }
        i += 1;
    }
    assert(windows@.subrange(0, n as int) =~= windows@);
    r
}

/// The positive pids among `targets`, in order.
pub open spec fn positive_pids(targets: Seq<(Seq<char>, i32)>) -> Seq<i32>
    decreases targets.len(),
{
    if targets.len() == 0 {
        Seq::empty()
    } else {
        let rest = positive_pids(targets.drop_last());
        if targets.last().1 > 0 {
            rest.push(targets.last().1)
        } else {
            rest
        }
    }
}

/// The processes to terminate after the close animation: every positive pid.
pub fn pids_to_terminate(targets: &Vec<(String, i32)>) -> (r: Vec<i32>)
    ensures
        r@ == positive_pids(targets@.map_values(|t: (String, i32)| (t.0@, t.1))),
{
    let ghost tv = targets@.map_values(|t: (String, i32)| (t.0@, t.1));
    let n = targets.len();
    let mut r: Vec<i32> = Vec::new();
    let mut i: usize = 0;
    while i < n
        invariant
            n == targets@.len(),
            tv == targets@.map_values(|t: (String, i32)| (t.0@, t.1)),
            i <= n,
            r@ == positive_pids(tv.subrange(0, i as int)),
        decreases n - i,
    {
        assert(tv.subrange(0, i + 1).drop_last() =~= tv.subrange(0, i as int));
        let pid = targets[i].1;
        if pid > 0 {
            r.push(pid);
        }
        i += 1;
    }
    assert(tv.subrange(0, n as int) =~= tv);
    r
}

/// Frames of the close animation: 8 steps, each 60 pixels further up and
/// 12 hundredths less opaque, starting from fully opaque.
pub open spec fn close_frame(step: int) -> (i32, u32) {
    ((0 - 60 * step) as i32, (100 - 12 * step) as u32)
}

/// The close animation as (vertical offset in pixels, opacity in hundredths)
/// for each of its 8 steps.
pub fn close_animation() -> (r: Vec<(i32, u32)>)
    ensures
        r@.len() == 8,
        forall|i: int| 0 <= i < 8 ==> r@[i] == close_frame(i + 1),
{
    let mut r: Vec<(i32, u32)> = Vec::new();
    let mut step: i32 = 1;
    while step <= 8
        invariant
            1 <= step <= 9,
            r@.len() == step - 1,
            forall|i: int| 0 <= i < step - 1 ==> r@[i] == close_frame(i + 1),
        decreases 9 - step,
    {
        let frame: (i32, u32) = (0 - 60 * step, (100 - 12 * step) as u32);
        assert(frame == close_frame(step as int));
        r.push(frame);
        step += 1;
    }
    r
}

/// Whether `w` is the window of `module`'s menu with settings `m`: a GUI
/// menu by its configured class, a terminal menu by its title.
pub open spec fn is_module_window(module: Seq<char>, m: ModuleView, w: WindowInfo) -> bool {
    if m.is_gui() {
        m.window_class == Some(w.class@)
    } else {
        has_infix(w.title@, menu_title(module))
    }
}

/// The address of the first window of `module`'s menu.
pub open spec fn module_window(module: Seq<char>, m: ModuleView, windows: Seq<WindowInfo>) -> Option<Seq<char>>
    decreases windows.len(),
{
    if windows.len() == 0 {
        None
    } else if is_module_window(module, m, windows[0]) {
        Some(windows[0].address@)
    } else {
        module_window(module, m, windows.drop_first())
    }
}

/// Finds the address of `module`'s menu window.
pub fn find_menu_window(module: &str, m: &ModuleConfig, windows: &Vec<WindowInfo>) -> (r: Option<String>)
    ensures
        r.deep_view() == module_window(module@, m@, windows@),
{
    let title = String::from_str("WAYBAR-MENU: ").concat(module);
    let gui = str_eq(m.kind.as_str(), "gui");
    let n = windows.len();
    let mut i: usize = 0;
    assert(windows@.subrange(0, n as int) =~= windows@);
    while i < n
        invariant
            n == windows@.len(),
            i <= n,
            title@ == menu_title(module@),
            gui == m@.is_gui(),
            module_window(module@, m@, windows@) == module_window(module@, m@, windows@.subrange(i as int, n as int)),
        decreases n - i,
    {
        let w = &windows[i];
        assert(windows@.subrange(i as int, n as int).drop_first() =~= windows@.subrange(i + 1, n as int));
        let hit = if gui {
            match &m.window_class {
                Some(c) => str_eq(c.as_str(), w.class.as_str()),
                None => false,
            }
        } else {
            contains(w.title.as_str(), title.as_str())
        };
        if hit {
            return Some(String::from_str(w.address.as_str()));
        }
        i += 1;
    }
    None
}

} // verus!
