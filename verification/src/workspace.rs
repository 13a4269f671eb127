//! The window in its debug layout: which events the inspectors take, where
//! the enlarged window goes, and when the inspectors are laid out again.

use vstd::prelude::*;

use crate::app::App;
use crate::guest::given;
use crate::guest::taken_back;

verus! {

/// A key of the host's keyboard, as far as shortcuts go by it.
#[derive(Clone, Copy, PartialEq, Eq, Structural, Debug)]
pub enum HostKey {
    /// A letter, in capitals.
    Letter(char),
    /// A digit of the main block.
    Digit(u8),
    Equal,
    Minus,
    Period,
    Comma,
    Other,
}

/// The shortcut modifiers that are down. `host` is the platform's own:
/// Command on a Mac, Alt elsewhere.
#[derive(Clone, Copy, PartialEq, Eq, Structural, Debug)]
pub struct HostModifiers {
    pub host: bool,
    pub shift: bool,
    pub mac: bool,
}

/// The letters that the window's shortcuts are on.
pub open spec fn shortcut_letter(c: char) -> bool {
    c == 'A' || c == 'B' || c == 'D' || c == 'E' || c == 'F' || c == 'J' || c == 'K' || c == 'M'
        || c == 'P' || c == 'Q' || c == 'R' || c == 'S' || c == 'W' || c == 'Z'
}

/// Whether a key with these modifiers is a shortcut of the window, rather than
/// input to the inspectors. On a Mac, select-all and undo belong to the text
/// field that is being edited.
pub open spec fn shortcut_of_window(key: HostKey, modifiers: HostModifiers, editing: bool) -> bool {
    &&& modifiers.host
    &&& !(editing && modifiers.mac && (key == HostKey::Letter('A') || key == HostKey::Letter('Z')))
    &&& match key {
        HostKey::Letter(c) => shortcut_letter(c) || (modifiers.shift && c == 'L'),
        HostKey::Digit(d) => d <= 9,
        HostKey::Equal | HostKey::Minus | HostKey::Period | HostKey::Comma => modifiers.shift,
        HostKey::Other => false,
    }
}

pub fn host_shortcut_reaches_main(key: HostKey, modifiers: HostModifiers, editing: bool) -> (r: bool)
    ensures
        r == shortcut_of_window(key, modifiers, editing),
{
    if !modifiers.host {
        return false;
    }
    if editing && modifiers.mac && (key == HostKey::Letter('A') || key == HostKey::Letter('Z')) {
        return false;
    }
    match key {
        HostKey::Letter(c) => c == 'A' || c == 'B' || c == 'D' || c == 'E' || c == 'F' || c == 'J'
            || c == 'K' || c == 'M' || c == 'P' || c == 'Q' || c == 'R' || c == 'S' || c == 'W' || c
            == 'Z' || (modifiers.shift && c == 'L'),
        HostKey::Digit(d) => d <= 9,
        HostKey::Equal | HostKey::Minus | HostKey::Period | HostKey::Comma => modifiers.shift,
        HostKey::Other => false,
    }
}

/// Whether a window at this place would have its title bar on the monitor.
pub open spec fn bar_on(position: (i32, i32), monitor: (i32, i32), size: (u32, u32)) -> bool {
    &&& position.0 >= monitor.0
    &&& position.0 + 160 <= monitor.0 + size.0
    &&& position.1 >= monitor.1
    &&& position.1 + 64 <= monitor.1 + size.1
}

pub fn title_bar_visible(position: (i32, i32), monitor: (i32, i32), size: (u32, u32)) -> (r: bool)
    ensures
        r == bar_on(position, monitor, size),
{
    position.0 >= monitor.0 && position.0 as i64 + 160 <= monitor.0 as i64 + size.0 as i64
        && position.1 >= monitor.1 && position.1 as i64 + 64 <= monitor.1 as i64 + size.1 as i64
}

/// A coordinate kept between a margin from the monitor's near edge and the
/// place at which the window ends a margin from its far edge; where it cannot
/// do both, the near edge counts.
pub open spec fn kept_on(at: int, origin: int, extent: int, wanted: int, near: int, far: int) -> int {
    let low = origin + near;
    let high = origin + extent - wanted - far;
    if at < low || high < low {
        low
    } else if at > high {
        high
    } else {
        at
    }
}

/// Where the window goes along one axis.
pub fn workspace_place(
    at: i32,
    origin: i32,
    extent: u32,
    wanted: u32,
    near: u32,
    far: u32,
) -> (r: i64)
    ensures
        r == kept_on(at as int, origin as int, extent as int, wanted as int, near as int, far as int),
{
    let low: i64 = origin as i64 + near as i64;
    let high: i64 = origin as i64 + extent as i64 - wanted as i64 - far as i64;
    if (at as i64) < low || high < low {
        low
    } else if at as i64 > high {
        high
    } else {
        at as i64
    }
}

/// The enlarged window is wholly on the monitor wherever it fits there with
/// its margins, and does not move where it already was.
pub proof fn lemma_workspace_stays_reachable(
    at: int,
    origin: int,
    extent: int,
    wanted: int,
    near: int,
    far: int,
)
    requires
        wanted + near + far <= extent,
    ensures
        ({
            let x = kept_on(at, origin, extent, wanted, near, far);
            &&& origin + near <= x
            &&& x + wanted <= origin + extent - far
            &&& origin + near <= at && at + wanted <= origin + extent - far ==> x == at
        }),
{
}

/// The size and place that the window had before the debug layout took it.
#[derive(Clone, Copy, PartialEq, Eq, Debug)]
pub struct PlayGeometry {
    pub size: (u32, u32),
    pub position: Option<(i32, i32)>,
}

/// What the window gets back when the debug layout is left.
#[derive(Clone, Copy, PartialEq, Eq, Debug)]
pub struct PlayRestored {
    pub geometry: PlayGeometry,
    /// The canvas still owns the window's size, and answers the change of it.
    pub awaits_snap: bool,
}

/// A monitor: where it is, and its size.
#[derive(Clone, Copy, PartialEq, Eq, Debug)]
pub struct Monitor {
    pub position: (i32, i32),
    pub size: (u32, u32),
}

pub open spec fn some_shows(monitors: Seq<Monitor>, position: (i32, i32)) -> bool {
    exists|i: int|
        0 <= i < monitors.len() && bar_on(
            position,
            (#[trigger] monitors[i]).position,
            monitors[i].size,
        )
}

fn any_shows(monitors: &Vec<Monitor>, position: (i32, i32)) -> (r: bool)
    ensures
        r == some_shows(monitors@, position),
{
    let mut i: usize = 0;
    while i < monitors.len()
        invariant
            i <= monitors@.len(),
            forall|j: int|
                0 <= j < i ==> !bar_on(
                    position,
                    (#[trigger] monitors@[j]).position,
                    monitors@[j].size,
                ),
        decreases monitors@.len() - i,
    {
        if title_bar_visible(position, monitors[i].position, monitors[i].size) {
            return true;
        }
        i += 1;
    }
    false
}

/// Notes the window's size and place before the debug layout can change them:
/// of a window that is neither full screen nor maximized, and once only.
pub fn remember_play_geometry(kept: &mut Option<PlayGeometry>, windowed: bool, now: PlayGeometry)
    ensures
        *final(kept) == (if windowed && *old(kept) is None {
            Some(now)
        } else {
            *old(kept)
        }),
{
    if windowed && kept.is_none() {
        *kept = Some(now);
    }
}

/// Gives back the size and place that were noted, once the debug layout is
/// left and the window can take them. A place whose title bar no monitor
/// shows any more is not given back. A size that the user never chose by hand
/// stays the canvas's to snap.
pub fn restore_play_geometry(
    kept: &mut Option<PlayGeometry>,
    layout_active: bool,
    windowed: bool,
    manually_sized: bool,
    monitors: &Vec<Monitor>,
) -> (r: Option<PlayRestored>)
    ensures
        r == (if layout_active || !windowed {
            None
        } else {
            match *old(kept) {
                Some(g) => Some(
                    PlayRestored {
                        geometry: PlayGeometry {
                            size: g.size,
                            position: match g.position {
                                Some(p) => if some_shows(monitors@, p) {
                                    Some(p)
                                } else {
                                    None
                                },
                                None => None,
                            },
                        },
                        awaits_snap: !manually_sized,
                    },
                ),
                None => None,
            }
        }),
        *final(kept) == (if r is Some {
            None
        } else {
            *old(kept)
        }),
{
    if layout_active || !windowed {
        return None;
    }
    match *kept {
        Some(g) => {
            *kept = None;
            let position: Option<(i32, i32)> = match g.position {
                Some(p) => if any_shows(monitors, p) {
                    Some(p)
                } else {
                    None
                },
                None => None,
            };
            Some(
                PlayRestored {
                    geometry: PlayGeometry { size: g.size, position },
                    awaits_snap: !manually_sized,
                },
            )
        },
        None => None,
    }
}

/// A window event, as far as the workspace goes by it.
#[derive(Clone, Copy, PartialEq, Eq, Structural, Debug)]
pub enum WorkspaceEvent {
    Key { key: HostKey, pressed: bool, repeat: bool },
    /// A mouse button went down, inside the display or not.
    MousePress { inside: bool },
    /// Other pointer, touch or text input.
    Input,
    /// Anything else that happens to a window.
    Lifecycle,
}

/// What becomes of a window event.
#[derive(Clone, Copy, PartialEq, Eq, Structural, Debug)]
pub enum Route {
    /// The main window handles it.
    Main,
    /// It was dealt with.
    Taken,
    /// The inspectors see it; the main window too, unless it is input.
    Inspectors { consumed: bool },
}

pub open spec fn is_input(e: WorkspaceEvent) -> bool {
    e !is Lifecycle
}

/// The shortcut that hands the input over.
pub open spec fn is_handover(e: WorkspaceEvent, m: HostModifiers) -> bool {
    m.host && (e matches WorkspaceEvent::Key { key, .. } && key == HostKey::Letter('G'))
}

pub open spec fn is_window_shortcut(e: WorkspaceEvent, m: HostModifiers, editing: bool) -> bool {
    e matches WorkspaceEvent::Key { key, .. } && shortcut_of_window(key, m, editing)
}

/// A press outside the display while the machine has the input but not the
/// mouse takes the input back.
pub open spec fn is_press_outside(o: &App, e: WorkspaceEvent) -> bool {
    o.desk.guest_input && !o.guest.mouse_captured && (e matches WorkspaceEvent::MousePress {
        inside,
    } && !inside)
}

pub open spec fn routed(
    o: &App,
    n: &App,
    e: WorkspaceEvent,
    m: HostModifiers,
    editing: bool,
    menu: bool,
    r: Route,
) -> bool {
    if !o.desk.layout_active || menu {
        r is Main && *n == *o
    } else if is_handover(e, m) {
        &&& r is Taken
        &&& if e matches WorkspaceEvent::Key { pressed, repeat, .. } && pressed && !repeat {
            if o.desk.guest_input {
                taken_back(o, n)
            } else {
                given(o, n)
            }
        } else {
            *n == *o
        }
    } else if is_window_shortcut(e, m, editing) {
        r is Main && *n == *o
    } else if is_press_outside(o, e) {
        taken_back(o, n) && r == (Route::Inspectors { consumed: true })
    } else {
        &&& *n == *o
        &&& r == (if o.desk.guest_input && is_input(e) {
            Route::Main
        } else {
            Route::Inspectors { consumed: is_input(e) }
        })
    }
}

/// What the host does about laying the inspectors out.
#[derive(Clone, Copy, PartialEq, Eq, Structural, Debug)]
pub enum Prepare {
    /// The display fills the window.
    Hidden,
    /// The last layout still stands.
    Keep,
    /// Lay them out, from a new snapshot of the machine if it says so.
    Layout { refresh: bool },
}

/// What the host does about a repaint that the inspectors asked for.
#[derive(Clone, Copy, PartialEq, Eq, Structural, Debug)]
pub enum Repaint {
    Nothing,
    Now,
    /// Sleep no longer than to this time.
    WaitUntil(u64),
}

impl App {
    /// Decides who gets a window event while the debug layout is up.
    pub fn route_debug_workspace_event(
        &mut self,
        e: WorkspaceEvent,
        m: HostModifiers,
        editing: bool,
        menu: bool,
    ) -> (r: Route)
        requires
            old(self).wf(),
        ensures
            final(self).wf(),
            routed(old(self), final(self), e, m, editing, menu, r),
    {
        if !self.desk.layout_active || menu {
            return Route::Main;
        }
        match e {
            WorkspaceEvent::Key { key, pressed, repeat } => {
                if m.host && key == HostKey::Letter('G') {
                    if pressed && !repeat {
                        if self.desk.guest_input {
                            self.release_debug_guest_input();
                        } else {
                            self.capture_debug_guest_input();
                        }
                    }
                    return Route::Taken;
                }
                if host_shortcut_reaches_main(key, m, editing) {
                    return Route::Main;
                }
            },
            WorkspaceEvent::MousePress { inside } => {
                if self.desk.guest_input && !self.guest.mouse_captured && !inside {
                    self.release_debug_guest_input();
                    return Route::Inspectors { consumed: true };
                }
            },
            _ => {},
        }
        let input: bool = match e {
            WorkspaceEvent::Lifecycle => false,
            _ => true,
        };
        if self.desk.guest_input && input {
            return Route::Main;
        }
        Route::Inspectors { consumed: input }
    }

    /// Decides whether the inspectors are laid out again before a redraw.
    pub fn prepare_debug_workspace(
        &self,
        menu: bool,
        stale: bool,
        has_snapshot: bool,
        input_waiting: bool,
        repaint_due: bool,
    ) -> (r: Prepare)
        ensures
            r == (if !self.desk.layout_active || menu {
                Prepare::Hidden
            } else if stale || !has_snapshot || input_waiting || repaint_due {
                Prepare::Layout { refresh: stale || !has_snapshot }
            } else {
                Prepare::Keep
            }),
    {
        if !self.desk.layout_active || menu {
            return Prepare::Hidden;
        }
        let refresh: bool = stale || !has_snapshot;
        if !refresh && !input_waiting && !repaint_due {
            return Prepare::Keep;
        }
        Prepare::Layout { refresh }
    }

    /// Decides when a repaint that the inspectors asked for happens.
    pub fn schedule_egui_debugger_repaint(
        &self,
        menu: bool,
        minimized: bool,
        due: Option<u64>,
        now: u64,
        idle: bool,
    ) -> (r: Repaint)
        ensures
            r == (if !self.desk.layout_active || menu || minimized {
                Repaint::Nothing
            } else {
                match due {
                    None => Repaint::Nothing,
                    Some(at) => if at <= now {
                        Repaint::Now
                    } else if idle {
                        Repaint::WaitUntil(at)
                    } else {
                        Repaint::Nothing
                    },
                }
            }),
    {
        if !self.desk.layout_active || menu || minimized {
            return Repaint::Nothing;
        }
        match due {
            None => Repaint::Nothing,
            Some(at) => if at <= now {
                Repaint::Now
            } else if idle {
                Repaint::WaitUntil(at)
            } else {
                Repaint::Nothing
            },
        }
    }
}

/// Outside the handover shortcut and a press beside the display, no event
/// changes who has the input, and while the machine has it all input but the
/// window's shortcuts goes to it.
pub proof fn lemma_input_has_one_owner(
    o: App,
    n: App,
    e: WorkspaceEvent,
    m: HostModifiers,
    editing: bool,
    r: Route,
)
    requires
        o.desk.layout_active,
        routed(&o, &n, e, m, editing, false, r),
    ensures
        n.desk.guest_input != o.desk.guest_input ==> is_handover(e, m) || is_press_outside(&o, e),
        o.desk.guest_input && n.desk.guest_input && is_input(e) && !is_handover(e, m) ==> r is Main,
        !o.desk.guest_input && is_input(e) && !is_window_shortcut(e, m, editing) ==> r !is Main,
{
}

/// The handover shortcut goes both ways: it gives the input to the other
/// side, and pressed again gives it back. What is held goes with it: the
/// machine has no key down once the inspectors have the input.
pub proof fn lemma_handover_goes_both_ways(
    o: App,
    mid: App,
    n: App,
    e: WorkspaceEvent,
    m: HostModifiers,
    editing: bool,
    r: Route,
    s: Route,
)
    requires
        o.desk.layout_active,
        is_handover(e, m),
        e matches WorkspaceEvent::Key { pressed, repeat, .. } && pressed && !repeat,
        routed(&o, &mid, e, m, editing, false, r),
        routed(&mid, &n, e, m, editing, false, s),
    ensures
        r is Taken,
        mid.desk.guest_input == !o.desk.guest_input,
        n.desk.guest_input == o.desk.guest_input,
        !mid.desk.guest_input ==> mid.guest.idle(),
        !n.desk.guest_input ==> n.guest.idle(),
{
}

} // verus!
