//! The menu session: which module's menu is open, which one is pinned, and
//! the generation that invalidates stale cursor watchers. Every event is
//! decided here in one step; the window-system work that the decision asks
//! for is handed back as a [`Plan`] for the caller to perform.
use vstd::prelude::*;
use vstd::string::StringExecFns;
use crate::config::{Config, ModuleConfig, ModuleView};
use crate::text::{replace_all, replaced, str_eq};
use crate::window::{close_targets, WindowInfo};
use crate::modules::{get_status, status_text, Reading};
use crate::status::{json_object_text, pinned_class, status_fields};

verus! {

/// Shell tilde expansion: a leading `~` that stands alone or before `/`
/// becomes the home directory, when one is known; anything else is kept.
pub open spec fn tilde_expansion(input: Seq<char>, home: Option<Seq<char>>) -> Seq<char> {
    if home is Some && input.len() > 0 && input[0] == '~' && (input.len() == 1 || input[1] == '/') {
        home->Some_0 + input.skip(1)
    } else {
        input
    }
}

/// Relies on shellexpand::tilde_with_context (on Unix): a `~` at the start
/// that stands alone or before `/` becomes the given home directory;
/// nothing else changes.
#[verifier::external_body]
fn expand_tilde(input: &str, home: &Option<String>) -> (r: String)
    ensures
        r@ == tilde_expansion(input@, home.deep_view()),
{
    shellexpand::tilde_with_context(input, || home.clone()).into_owned()
}

/// Title prefix that marks a terminal menu window.
pub open spec fn menu_title_prefix() -> Seq<char> {
    "WAYBAR-MENU:"@
}

/// The window title of module `module`'s terminal menu.
pub open spec fn menu_title(module: Seq<char>) -> Seq<char> {
    "WAYBAR-MENU: "@ + module
}

/// Environment override that forces a dark theme on GUI menus.
pub open spec fn dark_theme_prefix() -> Seq<char> {
    "GTK_THEME=Adwaita:dark "@
}

/// The shell line that launches the menu of `module` with settings `m`.
pub open spec fn launch_line(template: Seq<char>, home: Option<Seq<char>>, module: Seq<char>, m: ModuleView) -> Seq<char> {
    let cmd = tilde_expansion(m.command->Some_0, home);
    if m.is_gui() {
        dark_theme_prefix() + cmd
    } else {
        replaced(replaced(template, "{title}"@, menu_title(module)), "{command}"@, cmd)
    }
}

/// A menu process to start, as a shell line run by `sh -c`.
pub enum Launch {
    /// A GUI application; the pointer is nudged after it starts.
    Gui(String),
    /// A terminal application, started through the terminal template.
    Terminal(String),
}

/// Whether a launch is a GUI one, and its shell line.
pub open spec fn launch_view(l: Launch) -> (bool, Seq<char>) {
    match l {
        Launch::Gui(s) => (true, s@),
        Launch::Terminal(s) => (false, s@),
    }
}

/// Window-system work that a decision asks for, in this order.
pub struct Plan {
    /// Close every menu window (slide out, then terminate its process).
    pub close_menus: bool,
    /// Then start this menu process.
    pub launch: Option<Launch>,
    /// Then start a cursor watcher bound to this generation.
    pub watch: Option<u64>,
    /// Then give this module's window the pinned border.
    pub highlight: Option<String>,
    /// Finally nudge the pointer by one pixel and back.
    pub nudge_pointer: bool,
}

/// A plan as values.
pub struct PlanView {
    pub close_menus: bool,
    /// Whether the launch is a GUI one, and its shell line.
    pub launch: Option<(bool, Seq<char>)>,
    pub watch: Option<u64>,
    pub highlight: Option<Seq<char>>,
    pub nudge_pointer: bool,
}

impl View for Plan {
    type V = PlanView;

    open spec fn view(&self) -> PlanView {
        PlanView {
            close_menus: self.close_menus,
            launch: match self.launch {
                Some(l) => Some(launch_view(l)),
                None => None,
            },
            watch: self.watch,
            highlight: self.highlight.deep_view(),
            nudge_pointer: self.nudge_pointer,
        }
    }
}

/// The plan that does nothing.
pub open spec fn idle_plan() -> PlanView {
    PlanView { close_menus: false, launch: None, watch: None, highlight: None, nudge_pointer: false }
}

/// The plan that closes every menu, then nudges the pointer if `nudge`.
pub open spec fn close_plan(nudge: bool) -> PlanView {
    PlanView { close_menus: true, launch: None, watch: None, highlight: None, nudge_pointer: nudge }
}

/// A decision's result as values.
pub open spec fn result_view(r: Result<Plan, MenuError>) -> Result<PlanView, MenuError> {
    match r {
        Ok(p) => Ok(p@),
        Err(e) => Err(e),
    }
}

/// What remains of `plan` once its menu process was started (`started`):
/// the watcher, the highlight and the nudge. When the process could not be
/// started nothing more is done.
pub fn rest_of_plan(plan: Plan, started: bool) -> (r: Plan)
    ensures
        started ==> r@ == (PlanView {
            close_menus: false,
            launch: None,
            watch: plan@.watch,
            highlight: plan@.highlight,
            nudge_pointer: plan@.nudge_pointer,
        }),
        !started ==> r@ == idle_plan(),
{
    if started {
        Plan { close_menus: false, launch: None, ..plan }
    } else {
        idle()
    }
}

fn idle() -> (r: Plan)
    ensures
        r@ == idle_plan(),
{
    Plan { close_menus: false, launch: None, watch: None, highlight: None, nudge_pointer: false }
}

/// A configuration error: the event is declined and nothing changes.
#[derive(PartialEq, Eq, Structural, Debug, Clone, Copy)]
pub enum MenuError {
    /// No module of that name is configured.
    ModuleNotFound,
    /// The module has no command to launch.
    NoCommand,
}

/// The session as values.
pub struct SessionView {
    pub open: Option<Seq<char>>,
    pub pinned: Option<Seq<char>>,
    pub generation: u64,
}

impl SessionView {
    /// A pin is only ever held on the open menu.
    pub open spec fn wf(self) -> bool {
        self.pinned is Some ==> self.open == self.pinned
    }

    /// Every menu closed and nothing pinned; the generation is kept.
    pub open spec fn closed(self) -> SessionView {
        SessionView { open: None, pinned: None, generation: self.generation }
    }
}

/// The generation after `g`; the counter wraps, as an atomic counter does.
pub open spec fn next_generation(g: u64) -> u64 {
    if g == u64::MAX {
        0
    } else {
        (g + 1) as u64
    }
}

/// Whether the cursor watcher bound to `generation` may still act in
/// session `s`: no newer menu superseded it, nothing is pinned, and a menu
/// is open.
pub open spec fn watcher_live(s: SessionView, generation: u64) -> bool {
    s.generation == generation && s.pinned is None && s.open is Some
}

/// The menu controller and its session state.
pub struct MenuManager {
    pub config: Config,
    /// Home directory used to expand a leading `~` in commands.
    pub home: Option<String>,
    /// The module whose menu is open, if any.
    pub open_module: Option<String>,
    /// The pinned module, if any.
    pub pinned: Option<String>,
    /// Bumped on each open in hover mode; a watcher of an older one stops.
    pub watcher_generation: u64,
}

impl View for MenuManager {
    type V = SessionView;

    open spec fn view(&self) -> SessionView {
        SessionView {
            open: self.open_module.deep_view(),
            pinned: self.pinned.deep_view(),
            generation: self.watcher_generation,
        }
    }
}

impl MenuManager {
    pub open spec fn wf(&self) -> bool {
        self@.wf()
    }

    /// The launch line of module `module` with settings `m`.
    pub open spec fn launch_of(&self, module: Seq<char>, m: ModuleView) -> (bool, Seq<char>) {
        (m.is_gui(), launch_line(self.config.daemon.terminal_cmd@, self.home.deep_view(), module, m))
    }

    /// A manager with every menu closed and generation zero.
    pub fn new(config: Config, home: Option<String>) -> (r: Self)
        ensures
            r.wf(),
            r@ == (SessionView { open: None, pinned: None, generation: 0 }),
            r.config == config,
            r.home == home,
    {
        MenuManager { config, home, open_module: None, pinned: None, watcher_generation: 0 }
    }

    /// Whether `module` is pinned.
    pub fn is_pinned(&self, module: &str) -> (r: bool)
        ensures
            r == (self@.pinned == Some(module@)),
    {
        match &self.pinned {
            Some(p) => str_eq(p.as_str(), module),
            None => false,
        }
    }

    /// Whether any module is pinned.
    pub fn has_pinned(&self) -> (r: bool)
        ensures
            r == (self@.pinned is Some),
    {
        self.pinned.is_some()
    }

    /// Whether `module`'s menu is open.
    pub fn is_menu_open(&self, module: &str) -> (r: bool)
        ensures
            r == (self@.open == Some(module@)),
    {
        match &self.open_module {
            Some(p) => str_eq(p.as_str(), module),
            None => false,
        }
    }

    /// The current watcher generation.
    pub fn generation(&self) -> (r: u64)
        ensures
            r == self@.generation,
    {
        self.watcher_generation
    }

    fn launch_for(&self, module: &str, m: &ModuleConfig) -> (r: Launch)
        requires
            m.command is Some,
        ensures
            launch_view(r) == self.launch_of(module@, m@),
    {
        let cmd = m.command.as_ref().unwrap();
        let expanded = expand_tilde(cmd.as_str(), &self.home);
        if str_eq(m.kind.as_str(), "gui") {
            Launch::Gui(String::from_str("GTK_THEME=Adwaita:dark ").concat(expanded.as_str()))
        } else {
            proof {
                reveal_strlit("{title}");
                reveal_strlit("{command}");
            }
            let title = String::from_str("WAYBAR-MENU: ").concat(module);
            let filled = replace_all(self.config.daemon.terminal_cmd.as_str(), "{title}", title.as_str());
            Launch::Terminal(replace_all(filled.as_str(), "{command}", expanded.as_str()))
        }
    }
}

impl MenuManager {
    /// From session `s`: opening `module`'s menu after a close of all menus: pinned if `pin`,
    /// and with a fresh watcher generation in hover mode. A module that is
    /// not configured, or has no command, is declined; a disabled one is
    /// ignored.
    pub open spec fn open_from(&self, s: SessionView, module: Seq<char>, pin: bool, nudge: bool) -> (SessionView, Result<PlanView, MenuError>) {
        match self.config.module(module) {
            None => (s, Err(MenuError::ModuleNotFound)),
            Some(m) => if !m.enabled {
                (s, Ok(idle_plan()))
            } else if m.command is None {
                (s, Err(MenuError::NoCommand))
            } else if self.config.daemon.hover {
                let g = next_generation(s.generation);
                (
                    SessionView { open: Some(module), pinned: if pin { Some(module) } else { None }, generation: g },
                    Ok(PlanView {
                        close_menus: true,
                        launch: Some(self.launch_of(module, m@)),
                        watch: Some(g),
                        highlight: if pin { Some(module) } else { None },
                        nudge_pointer: nudge,
                    }),
                )
            } else {
                (
                    SessionView { open: Some(module), pinned: None, generation: s.generation },
                    Ok(PlanView {
                        close_menus: true,
                        launch: Some(self.launch_of(module, m@)),
                        watch: None,
                        highlight: None,
                        nudge_pointer: nudge,
                    }),
                )
            },
        }
    }

    /// From session `s`, a hover on `module`: in hover mode, a menu that is not already open
    /// replaces the open one, unpinned. Otherwise nothing happens.
    pub open spec fn hover_from(&self, s: SessionView, module: Seq<char>) -> (SessionView, Result<PlanView, MenuError>) {
        if !self.config.daemon.hover || s.open == Some(module) {
            (s, Ok(idle_plan()))
        } else {
            self.open_from(s, module, false, false)
        }
    }

    /// From session `s`, a click on `module`. In click-only mode it toggles the menu. In hover
    /// mode a pinned menu is unpinned and closed, an open one is pinned, and
    /// a closed one replaces the open one, pinned.
    pub open spec fn click_from(&self, s: SessionView, module: Seq<char>) -> (SessionView, Result<PlanView, MenuError>) {
        if !self.config.daemon.hover {
            if s.open == Some(module) {
                (s.closed(), Ok(close_plan(true)))
            } else {
                self.open_from(s, module, false, true)
            }
        } else if s.pinned == Some(module) {
            (s.closed(), Ok(close_plan(true)))
        } else if s.open == Some(module) {
            (
                SessionView { pinned: Some(module), ..s },
                Ok(PlanView {
                    close_menus: false,
                    launch: None,
                    watch: None,
                    highlight: Some(module),
                    nudge_pointer: true,
                }),
            )
        } else {
            self.open_from(s, module, true, true)
        }
    }

    fn open_checked(&mut self, module: &str, pin: bool, nudge: bool) -> (r: Result<Plan, MenuError>)
        requires
            old(self).wf(),
        ensures
            final(self).config == old(self).config,
            final(self).home == old(self).home,
            (final(self)@, result_view(r)) == old(self).open_from(old(self)@, module@, pin, nudge),
    {
        let launch = match self.config.get_module(module) {
            None => {
                return Err(MenuError::ModuleNotFound);
            },
            Some(m) => {
                if !m.enabled {
                    return Ok(idle());
                }
                if m.command.is_none() {
                    return Err(MenuError::NoCommand);
                }
                self.launch_for(module, m)
            },
        };
        self.open_module = Some(String::from_str(module));
        if self.config.daemon.hover {
            let g: u64 = if self.watcher_generation == u64::MAX {
                0
            } else {
                self.watcher_generation + 1
            };
            self.watcher_generation = g;
            if pin {
                self.pinned = Some(String::from_str(module));
                Ok(Plan {
                    close_menus: true,
                    launch: Some(launch),
                    watch: Some(g),
                    highlight: Some(String::from_str(module)),
                    nudge_pointer: nudge,
                })
            } else {
                self.pinned = None;
                Ok(Plan { close_menus: true, launch: Some(launch), watch: Some(g), highlight: None, nudge_pointer: nudge })
            }
        } else {
            self.pinned = None;
            Ok(Plan { close_menus: true, launch: Some(launch), watch: None, highlight: None, nudge_pointer: nudge })
        }
    }

    /// Closes every menu and drops the pin.
    pub fn close_all_menus(&mut self) -> (r: Plan)
        requires
            old(self).wf(),
        ensures
            final(self).wf(),
            final(self).config == old(self).config,
            final(self).home == old(self).home,
            final(self)@ == old(self)@.closed(),
            r@ == close_plan(false),
    {
        self.open_module = None;
        self.pinned = None;
        Plan { close_menus: true, launch: None, watch: None, highlight: None, nudge_pointer: false }
    }

    /// Handles a hover on `module`.
    pub fn hover(&mut self, module: &str) -> (r: Result<Plan, MenuError>)
        requires
            old(self).wf(),
        ensures
            final(self).wf(),
            final(self).config == old(self).config,
            final(self).home == old(self).home,
            (final(self)@, result_view(r)) == old(self).hover_from(old(self)@, module@),
            old(self).config.daemon.hover && launches(result_view(r)) ==> final(self)@.generation == next_generation(
                old(self)@.generation,
            ),
            !(old(self).config.daemon.hover && launches(result_view(r))) ==> final(self)@.generation == old(
                self,
            )@.generation,
            launches(result_view(r)) ==> final(self)@.open == Some(module@),
            r is Ok && r->Ok_0.watch is Some ==> r->Ok_0.watch == Some(final(self)@.generation) && final(self)@.open
                == Some(module@),
    {
        if !self.config.daemon.hover || self.is_menu_open(module) {
            return Ok(idle());
        }
        self.open_checked(module, false, false)
    }

    /// Handles a click on `module`.
    pub fn click(&mut self, module: &str) -> (r: Result<Plan, MenuError>)
        requires
            old(self).wf(),
        ensures
            final(self).wf(),
            final(self).config == old(self).config,
            final(self).home == old(self).home,
            (final(self)@, result_view(r)) == old(self).click_from(old(self)@, module@),
            old(self).config.daemon.hover && launches(result_view(r)) ==> final(self)@.generation == next_generation(
                old(self)@.generation,
            ),
            !(old(self).config.daemon.hover && launches(result_view(r))) ==> final(self)@.generation == old(
                self,
            )@.generation,
            launches(result_view(r)) ==> final(self)@.open == Some(module@),
            r is Ok && r->Ok_0.watch is Some ==> r->Ok_0.watch == Some(final(self)@.generation) && final(self)@.open
                == Some(module@),
    {
        let is_open = self.is_menu_open(module);
        if !self.config.daemon.hover {
            if is_open {
                let mut p = self.close_all_menus();
                p.nudge_pointer = true;
                Ok(p)
            } else {
                self.open_checked(module, false, true)
            }
        } else if self.is_pinned(module) {
            let mut p = self.close_all_menus();
            p.nudge_pointer = true;
            Ok(p)
        } else if is_open {
            self.pinned = Some(String::from_str(module));
            Ok(Plan {
                close_menus: false,
                launch: None,
                watch: None,
                highlight: Some(String::from_str(module)),
                nudge_pointer: true,
            })
        } else {
            self.open_checked(module, true, true)
        }
    }

    /// Whether a leave event starts the close debounce: only in hover mode,
    /// and never while a menu is pinned.
    pub fn leave(&self) -> (r: bool)
        ensures
            r == (self.config.daemon.hover && self@.pinned is None),
    {
        self.config.daemon.hover && !self.has_pinned()
    }

    /// Closes every menu unless one is pinned; returns whether it closed.
    pub fn close_unpinned(&mut self) -> (r: bool)
        requires
            old(self).wf(),
        ensures
            final(self).wf(),
            final(self).config == old(self).config,
            final(self).home == old(self).home,
            r == (old(self)@.pinned is None),
            final(self)@ == if r { old(self)@.closed() } else { old(self)@ },
    {
        if self.has_pinned() {
            false
        } else {
            self.close_all_menus();
            true
        }
    }

    /// Whether the cursor watcher of `generation` is still live: no newer
    /// menu superseded it, nothing is pinned, and a menu is open.
    pub fn watcher_active(&self, generation: u64) -> (r: bool)
        ensures
            r == watcher_live(self@, generation),
    {
        self.watcher_generation == generation && !self.has_pinned() && self.open_module.is_some()
    }

    /// Closes every menu for the watcher of `generation`, if it is still
    /// live; returns whether it closed.
    pub fn watcher_close(&mut self, generation: u64) -> (r: bool)
        requires
            old(self).wf(),
        ensures
            final(self).wf(),
            final(self).config == old(self).config,
            final(self).home == old(self).home,
            r == watcher_live(old(self)@, generation),
            final(self)@ == if r { old(self)@.closed() } else { old(self)@ },
    {
        if self.watcher_active(generation) {
            self.close_all_menus();
            true
        } else {
            false
        }
    }

    /// Records that `module`'s menu process could not be started: if its
    /// menu is the open one, the session falls back to closed.
    pub fn launch_failed(&mut self, module: &str)
        requires
            old(self).wf(),
        ensures
            final(self).wf(),
            final(self).config == old(self).config,
            final(self).home == old(self).home,
            final(self)@ == if old(self)@.open == Some(module@) { old(self)@.closed() } else { old(self)@ },
    {
        if self.is_menu_open(module) {
            self.close_all_menus();
        }
    }
}

impl MenuManager {
    /// Whether `module`'s status is shown highlighted: pinned in hover
    /// mode, open in click-only mode.
    pub fn highlighted(&self, module: &str) -> (r: bool)
        ensures
            r == self.highlights(module@),
    {
        if self.config.daemon.hover {
            self.is_pinned(module)
        } else {
            self.is_menu_open(module)
        }
    }

    /// The status record of `module` as one line of JSON, from what its
    /// probe read: highlighted by the pinned class when `highlighted` holds
    /// of it, and with no class otherwise.
    pub fn status_json(&self, module: &str, reading: &Reading) -> (r: String)
        ensures
            r@ == json_object_text(
                status_fields(
                    status_text(module@, *reading),
                    if self.highlights(module@) {
                        pinned_class()
                    } else {
                        Seq::empty()
                    },
                    Seq::empty(),
                ),
            ),
    {
        let highlighted = self.highlighted(module);
        get_status(module, highlighted, reading).to_json()
    }

    /// Whether `module`'s status is shown highlighted.
    pub open spec fn highlights(&self, module: Seq<char>) -> bool {
        if self.config.daemon.hover {
            self@.pinned == Some(module)
        } else {
            self@.open == Some(module)
        }
    }

    /// `path` with a leading `~` expanded to the home directory.
    pub fn expand_path(&self, path: &str) -> (r: String)
        ensures
            r@ == tilde_expansion(path@, self.home.deep_view()),
    {
        expand_tilde(path, &self.home)
    }

    /// The shell line of `module`'s quick action, if it has one.
    pub fn action_command(&self, module: &str) -> (r: Option<String>)
        ensures
            r.deep_view() == match self.config.module(module@) {
                Some(m) => match m@.action {
                    Some(a) => Some(tilde_expansion(a, self.home.deep_view())),
                    None => None,
                },
                None => None,
            },
    {
        match self.config.get_module(module) {
            Some(m) => match &m.action {
                Some(a) => Some(expand_tilde(a.as_str(), &self.home)),
                None => None,
            },
            None => None,
        }
    }
}

/// Whether a decision starts a menu.
pub open spec fn launches(r: Result<PlanView, MenuError>) -> bool {
    r is Ok && r->Ok_0.launch is Some
}

/// Every way the session changes.
pub enum SessionEvent {
    Hover(Seq<char>),
    Click(Seq<char>),
    /// The close at the end of a leave event's debounce.
    LeaveClose,
    /// The close of the cursor watcher bound to a generation.
    WatcherClose(u64),
    /// A menu process that could not be started.
    LaunchFailed(Seq<char>),
    CloseAll,
}

/// The module that a hover or a click names.
pub open spec fn event_module(e: SessionEvent) -> Option<Seq<char>> {
    match e {
        SessionEvent::Hover(m) => Some(m),
        SessionEvent::Click(m) => Some(m),
        _ => None,
    }
}

impl MenuManager {
    /// From session `s`, the event `e`: the session after it and its plan.
    pub open spec fn step_from(&self, s: SessionView, e: SessionEvent) -> (SessionView, Result<PlanView, MenuError>) {
        match e {
            SessionEvent::Hover(m) => self.hover_from(s, m),
            SessionEvent::Click(m) => self.click_from(s, m),
            SessionEvent::LeaveClose => if s.pinned is None {
                (s.closed(), Ok(close_plan(false)))
            } else {
                (s, Ok(idle_plan()))
            },
            SessionEvent::WatcherClose(g) => if watcher_live(s, g) {
                (s.closed(), Ok(close_plan(false)))
            } else {
                (s, Ok(idle_plan()))
            },
            SessionEvent::LaunchFailed(m) => if s.open == Some(m) {
                (s.closed(), Ok(idle_plan()))
            } else {
                (s, Ok(idle_plan()))
            },
            SessionEvent::CloseAll => (s.closed(), Ok(close_plan(false))),
        }
    }

    /// From session `s`, the events `evs` in turn: the session after them,
    /// and how many of them started a menu.
    pub open spec fn run_from(&self, s: SessionView, evs: Seq<SessionEvent>) -> (SessionView, nat)
        decreases evs.len(),
    {
        if evs.len() == 0 {
            (s, 0)
        } else {
            let (next, r) = self.step_from(s, evs[0]);
            let (last, n) = self.run_from(next, evs.drop_first());
            (last, n + if launches(r) {
                1nat
            } else {
                0nat
            })
        }
    }
}

/// Every event keeps a pin only on the open menu.
pub proof fn lemma_pin_stays_on_open_menu(mgr: MenuManager, s: SessionView, e: SessionEvent)
    requires
        s.wf(),
    ensures
        mgr.step_from(s, e).0.wf(),
{
}

/// In every reachable session a pin is held only on the open menu: it holds
/// of the initial session and after any run of events from it.
pub proof fn lemma_reachable_sessions_well_formed(mgr: MenuManager, evs: Seq<SessionEvent>)
    ensures
        (SessionView { open: None, pinned: None, generation: 0 }).wf(),
        mgr.run_from(SessionView { open: None, pinned: None, generation: 0 }, evs).0.wf(),
{
    lemma_runs_keep_pin_on_open_menu(mgr, SessionView { open: None, pinned: None, generation: 0 }, evs);
}

/// A run of events from a session in which a pin is held only on the open
/// menu ends in such a session.
pub proof fn lemma_runs_keep_pin_on_open_menu(mgr: MenuManager, s: SessionView, evs: Seq<SessionEvent>)
    requires
        s.wf(),
    ensures
        mgr.run_from(s, evs).0.wf(),
    decreases evs.len(),
{
    if evs.len() > 0 {
        lemma_pin_stays_on_open_menu(mgr, s, evs[0]);
        lemma_runs_keep_pin_on_open_menu(mgr, mgr.step_from(s, evs[0]).0, evs.drop_first());
    }
}

/// At most one menu is open: an event that starts a menu first closes every
/// menu and then records only the new one as open; any other event leaves
/// the open menu as it was or closes it.
pub proof fn lemma_single_open_menu(mgr: MenuManager, s: SessionView, e: SessionEvent)
    ensures
        launches(mgr.step_from(s, e).1) ==> mgr.step_from(s, e).1->Ok_0.close_menus && event_module(e) is Some
            && mgr.step_from(s, e).0.open == event_module(e),
        !launches(mgr.step_from(s, e).1) ==> mgr.step_from(s, e).0.open == s.open || mgr.step_from(s, e).0.open is None,
{
}

/// Closing all menus twice in a row: the second close finds the session
/// already closed and leaves it as it is, and with no menu window left it
/// has no window to close.
pub proof fn lemma_close_all_idempotent(mgr: MenuManager, s: SessionView)
    ensures
        mgr.step_from(mgr.step_from(s, SessionEvent::CloseAll).0, SessionEvent::CloseAll).0 == mgr.step_from(
            s,
            SessionEvent::CloseAll,
        ).0,
        close_targets(mgr.config, Seq::<WindowInfo>::empty()) == Seq::<(Seq<char>, i32)>::empty(),
{
}

/// In hover mode, each event that starts a menu raises the generation by
/// exactly one and every other event keeps it; so a run of events that
/// starts N menus raises it by exactly N (short of wrapping).
pub proof fn lemma_generation_counts_opens(mgr: MenuManager, s: SessionView, evs: Seq<SessionEvent>)
    requires
        mgr.config.daemon.hover,
        s.generation + evs.len() <= u64::MAX,
    ensures
        mgr.run_from(s, evs).0.generation == s.generation + mgr.run_from(s, evs).1,
    decreases evs.len(),
{
    if evs.len() > 0 {
        lemma_generation_step(mgr, s, evs[0]);
        lemma_generation_counts_opens(mgr, mgr.step_from(s, evs[0]).0, evs.drop_first());
    }
}

/// In hover mode one event raises the generation by one if it starts a
/// menu, and keeps it otherwise.
pub proof fn lemma_generation_step(mgr: MenuManager, s: SessionView, e: SessionEvent)
    requires
        mgr.config.daemon.hover,
        s.generation < u64::MAX,
    ensures
        mgr.step_from(s, e).0.generation == s.generation + if launches(mgr.step_from(s, e).1) {
            1int
        } else {
            0int
        },
{
}

impl MenuManager {
    /// Whether `module` is configured, enabled, and has a command.
    pub open spec fn can_open(&self, module: Seq<char>) -> bool {
        match self.config.module(module) {
            Some(m) => m.enabled && m.command is Some,
            None => false,
        }
    }
}

/// Hovers on each module of `ms` in turn.
pub open spec fn hovers(ms: Seq<Seq<char>>) -> Seq<SessionEvent> {
    ms.map_values(|m: Seq<char>| SessionEvent::Hover(m))
}

/// In hover mode, hovering in turn on N modules that can open, each other
/// than the one open before it, opens every one of them and raises the
/// generation by exactly N, one per hover (short of wrapping).
pub proof fn lemma_hover_sequence_counts(mgr: MenuManager, s: SessionView, ms: Seq<Seq<char>>)
    requires
        mgr.config.daemon.hover,
        s.generation + ms.len() <= u64::MAX,
        forall|i: int| 0 <= i < ms.len() ==> mgr.can_open(#[trigger] ms[i]),
        forall|i: int| 0 < i < ms.len() ==> #[trigger] ms[i] != ms[i - 1],
        ms.len() > 0 ==> s.open != Some(ms[0]),
    ensures
        mgr.run_from(s, hovers(ms)).0.generation == s.generation + ms.len(),
        mgr.run_from(s, hovers(ms)).1 == ms.len(),
        ms.len() > 0 ==> mgr.run_from(s, hovers(ms)).0.open == Some(ms.last()),
    decreases ms.len(),
{
    if ms.len() > 0 {
        let e = SessionEvent::Hover(ms[0]);
        assert(hovers(ms)[0] == e);
        let next = mgr.step_from(s, e).0;
        assert(next.open == Some(ms[0]));
        assert(next.generation == s.generation + 1);
        let rest = ms.drop_first();
        assert(hovers(ms).drop_first() =~= hovers(rest));
        assert forall|i: int| 0 < i < rest.len() implies #[trigger] rest[i] != rest[i - 1] by {
            assert(rest[i] == ms[i + 1] && rest[i - 1] == ms[i]);
        }
        if rest.len() > 0 {
            assert(rest[0] == ms[1]);
        }
        lemma_hover_sequence_counts(mgr, next, rest);
        if rest.len() == 0 {
            assert(hovers(rest) =~= Seq::<SessionEvent>::empty());
        } else {
            assert(rest.last() == ms.last());
        }
    }
}

/// A watcher bound to generation `g` can no longer act once the counter
/// has moved past it.
pub proof fn lemma_superseded_watcher_stops(s: SessionView, g: u64)
    requires
        s.generation > g,
    ensures
        !watcher_live(s, g),
{
}

} // verus!
