//! The pop-up menu: a tree of rows, the trail of submenus that is open, the
//! cursor, and how the pointer and the keys move them.

use vstd::prelude::*;

use crate::effects::Effect;
use crate::effects::Effects;
use crate::warp::WarpSpeed;

verus! {

#[derive(Clone, Copy, PartialEq, Eq, Structural, Debug)]
pub enum AudioFilter {
    Auto,
    On,
    Off,
}

#[derive(Clone, Copy, PartialEq, Eq, Structural, Debug)]
pub enum Mt32Mode {
    Auto,
    On,
    Off,
}

/// A shader of the display: none, the user's own, or one of the built-in ones.
#[derive(Clone, Copy, PartialEq, Eq, Structural, Debug)]
pub enum ShaderKind {
    Off,
    Custom,
    BuiltIn(usize),
}

/// What a row of the menu does. A choice from a list that the host keeps is
/// an index into that list.
#[derive(Clone, Copy, PartialEq, Eq, Structural, Debug)]
pub enum MenuAction {
    OpenMachineConfig,
    OpenFrameAnalyzer,
    OpenDebugger,
    OpenConsole,
    OpenInputMapping,
    OpenCalibration,
    OpenShortcuts,
    OpenAbout,
    LoadRom,
    SetAudioOutput(usize),
    SetAudioFilter(AudioFilter),
    SetPixelAspect(usize),
    SetDisplayScaling(usize),
    StepTvCentre(i8, i8),
    ResetTvCentre,
    SetShader(ShaderKind),
    SetMenuScale(usize),
    SetTint(usize),
    ToggleFullscreen,
    ToggleStatusBar,
    SetBezel(usize),
    TogglePerfOverlay,
    SetPortDevice(u8, usize),
    SetJoystickInput(usize),
    SetAutofire(u8),
    SetRunAhead(u8),
    ToggleKeyboardPanel,
    SetMidiInput(usize),
    SetMidiOutput(usize),
    ToggleMt32Panel,
    ToggleCsynthPanel,
    LoadCsynthSoundfont,
    LoadMt32ControlRom,
    LoadMt32PcmRom,
    ResetCsynthSoundfont,
    SetCsynthMt32Mode(Mt32Mode),
    SetMt32Lcd(usize),
    SetSamplerInput(usize),
    StepSamplerGain(bool),
    SetFloppySpeed(u16),
    ToggleRewind,
    ToggleWarp,
    SetWarpLimit(WarpSpeed),
    ToggleRecord,
    ToggleRecordInput,
    SaveState,
    LoadState,
    QuickSave(u8),
    QuickLoad(u8),
    StepShaderStrength(bool),
    TogglePause,
    ResetMachine,
    Quit,
}

#[derive(PartialEq, Eq, Debug)]
pub enum RowKind {
    Submenu(Vec<MenuRow>),
    /// An action, and whether picking it takes the menu down.
    Run(MenuAction, bool),
    /// Something to read.
    Text,
}

#[derive(PartialEq, Eq, Debug)]
pub struct MenuRow {
    pub enabled: bool,
    pub kind: RowKind,
}

impl MenuRow {
    pub open spec fn opens(&self) -> bool {
        self.enabled && self.kind is Submenu
    }

    pub fn is_submenu(&self) -> (r: bool)
        ensures
            r == self.kind is Submenu,
    {
        match self.kind {
            RowKind::Submenu(_) => true,
            _ => false,
        }
    }
}

/// The rows of level `depth` when the submenus named by `path` are open, or
/// none where the path names no submenu.
pub open spec fn level(rows: Seq<MenuRow>, path: Seq<usize>, depth: int) -> Option<Seq<MenuRow>>
    decreases depth,
{
    if depth <= 0 {
        Some(rows)
    } else if depth > path.len() {
        None
    } else {
        match level(rows, path, depth - 1) {
            None => None,
            Some(above) => if path[depth - 1] < above.len() {
                match above[path[depth - 1] as int].kind {
                    RowKind::Submenu(below) => Some(below@),
                    _ => None,
                }
            } else {
                None
            },
        }
    }
}

pub open spec fn row_at(rows: Seq<MenuRow>, path: Seq<usize>, depth: int, row: int) -> Option<
    MenuRow,
> {
    match level(rows, path, depth) {
        Some(l) => if 0 <= row < l.len() {
            Some(l[row])
        } else {
            None
        },
        None => None,
    }
}

/// What the pointer is on.
#[derive(Clone, Copy, PartialEq, Eq, Structural, Debug)]
pub enum Pointer {
    /// The pointer is not in the window.
    Away,
    /// It is on no row.
    Off,
    On { depth: usize, row: usize },
}

/// What pressing the row under the cursor came to.
#[derive(Clone, Copy, PartialEq, Eq, Structural, Debug)]
pub enum RowPress {
    Nothing,
    Opened,
    Run { action: MenuAction, closes: bool },
}

#[derive(PartialEq, Eq, Debug)]
pub struct Menu {
    pub open: bool,
    pub rows: Vec<MenuRow>,
    /// The rows that lead down to the deepest open level.
    pub path: Vec<usize>,
    /// The chosen row of that level.
    pub cursor: Option<usize>,
    /// A submenu that opens once the pointer has rested on it: its level, its
    /// row, and since when.
    pub hover_arm: Option<(usize, usize, u64)>,
}

/// Where the menu stands: the path, the cursor, and the armed submenu.
pub type Stand = (Seq<usize>, Option<usize>, Option<(usize, usize, u64)>);

/// The milliseconds since `since`; a clock that ran backwards gives none.
pub open spec fn since(now: u64, since: u64) -> int {
    if now >= since {
        now - since
    } else {
        0
    }
}

/// The open path down to level `depth`.
pub open spec fn path_to(path: Seq<usize>, depth: int) -> Seq<usize> {
    if depth <= path.len() {
        path.take(depth)
    } else {
        path
    }
}

impl Menu {
    /// Where the menu stands. Whether it is open, and its rows, are not part of
    /// that: `same_menu` speaks of those.
    pub open spec fn stand(&self) -> Stand {
        (self.path@, self.cursor, self.hover_arm)
    }

    /// The rows of the deepest open level.
    pub open spec fn current(&self) -> Option<Seq<MenuRow>> {
        level(self.rows@, self.path@, self.path@.len() as int)
    }

    /// The row under the cursor.
    pub open spec fn chosen(&self) -> Option<MenuRow> {
        match self.cursor {
            Some(c) => row_at(self.rows@, self.path@, self.path@.len() as int, c as int),
            None => None,
        }
    }

    /// The pointer is on the row that its level is open to, or on the cursor.
    pub open spec fn rests(&self, depth: int, row: usize) -> bool {
        ||| depth < self.path@.len() && self.path@[depth] == row
        ||| depth == self.path@.len() && self.cursor == Some(row)
    }

    /// Where the pointer's arrival on a row leaves the menu. A submenu is lit
    /// at once, and opens once the pointer has rested on it.
    pub open spec fn arrived(&self, depth: usize, row: usize, now: u64, dwell: u64) -> Stand {
        let path = path_to(self.path@, depth as int);
        let opens = row_at(self.rows@, self.path@, depth as int, row as int) matches Some(r)
            && r.opens();
        if !opens {
            (path, Some(row), None)
        } else {
            match self.hover_arm {
                Some((d, r, at)) => if (d, r) == (depth, row) {
                    if since(now, at) < dwell {
                        (path, Some(row), self.hover_arm)
                    } else {
                        (path.push(row), None, None)
                    }
                } else {
                    (path, Some(row), Some((depth, row, now)))
                },
                None => (path, Some(row), Some((depth, row, now))),
            }
        }
    }

    /// The pointer's arrival arms a submenu, which asks for a redraw.
    pub open spec fn arms(&self, depth: usize, row: usize) -> bool {
        &&& row_at(self.rows@, self.path@, depth as int, row as int) matches Some(r)
        &&& r.opens()
        &&& !(self.hover_arm matches Some((d, e, _)) && (d, e) == (depth, row))
    }

    /// Only where the menu stands differs.
    pub open spec fn same_menu(&self, o: &Menu) -> bool {
        self.open == o.open && self.rows == o.rows
    }

    pub fn new() -> (r: Menu)
        ensures
            !r.open,
            r.rows@.len() == 0,
            r.stand() == (Seq::<usize>::empty(), None::<usize>, None::<(usize, usize, u64)>),
    {
        Menu { open: false, rows: Vec::new(), path: Vec::new(), cursor: None, hover_arm: None }
    }

    /// The open path down to level `depth`, for a pointer that has landed on
    /// a level without stepping through its parents.
    pub fn menu_path_to(&self, depth: usize) -> (r: Vec<usize>)
        ensures
            r@ == path_to(self.path@, depth as int),
    {
        let mut r: Vec<usize> = Vec::new();
        let n: usize = if depth <= self.path.len() {
            depth
        } else {
            self.path.len()
        };
        let mut i: usize = 0;
        while i < n
            invariant
                i <= n <= self.path@.len(),
                r@ == self.path@.take(i as int),
            decreases n - i,
        {
            r.push(self.path[i]);
            i += 1;
            assert(r@ =~= self.path@.take(i as int));
        }
        assert(r@ =~= path_to(self.path@, depth as int));
        r
    }

    /// The rows of level `depth` of the open menu.
    fn level_rows(&self, depth: usize) -> (r: Option<&Vec<MenuRow>>)
        ensures
            r is Some == level(self.rows@, self.path@, depth as int) is Some,
            r matches Some(l) ==> level(self.rows@, self.path@, depth as int) == Some(l@),
    {
        if depth > self.path.len() {
            return None;
        }
        let mut rows: &Vec<MenuRow> = &self.rows;
        let mut d: usize = 0;
        while d < depth
            invariant
                d <= depth <= self.path@.len(),
                level(self.rows@, self.path@, d as int) == Some(rows@),
            decreases depth - d,
        {
            let at: usize = self.path[d];
            let ghost here = level(self.rows@, self.path@, d + 1);
            if at >= rows.len() {
                proof {
                    self.lemma_deeper(d + 1, depth as int);
                }
                return None;
            }
            match &rows[at].kind {
                RowKind::Submenu(below) => {
                    rows = below;
                },
                _ => {
                    proof {
                        self.lemma_deeper(d + 1, depth as int);
                    }
                    return None;
                },
            }
            d += 1;
        }
        Some(rows)
    }

    /// A level that is not there has none under it.
    proof fn lemma_deeper(&self, a: int, b: int)
        requires
            0 <= a <= b,
            level(self.rows@, self.path@, a) is None,
        ensures
            level(self.rows@, self.path@, b) is None,
        decreases b - a,
    {
        if a < b {
            self.lemma_deeper(a, b - 1);
        }
    }

    /// The row at `row` on level `depth` of the open menu.
    pub fn menu_row_at(&self, depth: usize, row: usize) -> (r: Option<&MenuRow>)
        ensures
            r is Some == row_at(self.rows@, self.path@, depth as int, row as int) is Some,
            r matches Some(m) ==> row_at(self.rows@, self.path@, depth as int, row as int) == Some(
                *m,
            ),
    {
        match self.level_rows(depth) {
            Some(rows) => if row < rows.len() {
                Some(&rows[row])
            } else {
                None
            },
            None => None,
        }
    }

    /// Puts the cursor under the pointer; says whether anything moved.
    /// Hovering a row of a level closes whatever is open deeper from it.
    pub fn follow_menu_hover(&mut self, fx: &mut Effects, pointer: Pointer, now: u64, dwell: u64) -> (
    moved: bool)
        ensures
            final(self).same_menu(old(self)),
            moved == (old(self).open && old(self).rows@.len() > 0 && match pointer {
                Pointer::On { depth, row } => !old(self).rests(depth as int, row),
                _ => false,
            }),
            final(self).stand() == (match pointer {
                Pointer::On { depth, row } => if moved {
                    old(self).arrived(depth, row, now, dwell)
                } else {
                    old(self).stand()
                },
                Pointer::Off => if old(self).open && old(self).rows@.len() > 0 {
                    (old(self).path@, old(self).cursor, None)
                } else {
                    old(self).stand()
                },
                Pointer::Away => old(self).stand(),
            }),
            final(fx)@ == (if moved && (pointer matches Pointer::On { depth, row } && old(
                self,
            ).arms(depth, row)) {
                old(fx)@.push(Effect::Redraw)
            } else {
                old(fx)@
            }),
    {
        if !self.open || self.rows.len() == 0 {
            return false;
        }
        let (depth, row): (usize, usize) = match pointer {
            Pointer::Away => {
                return false;
            },
            Pointer::Off => {
                self.hover_arm = None;
                return false;
            },
            Pointer::On { depth, row } => (depth, row),
        };
        if depth < self.path.len() && self.path[depth] == row {
            return false;
        }
        if depth == self.path.len() && self.cursor == Some(row) {
            return false;
        }
        let mut path: Vec<usize> = self.menu_path_to(depth);
        let opens: bool = match self.menu_row_at(depth, row) {
            Some(r) => r.enabled && r.is_submenu(),
            None => false,
        };
        if !opens {
            self.hover_arm = None;
            self.path = path;
            self.cursor = Some(row);
            return true;
        }
        let armed: Option<u64> = match self.hover_arm {
            Some((d, r, at)) => if d == depth && r == row {
                Some(at)
            } else {
                None
            },
            None => None,
        };
        match armed {
            Some(at) => {
                let rested: u64 = if now >= at {
                    now - at
                } else {
                    0
                };
                if rested < dwell {
                    self.path = path;
                    self.cursor = Some(row);
                } else {
                    self.hover_arm = None;
                    path.push(row);
                    self.path = path;
                    self.cursor = None;
                }
            },
            None => {
                self.hover_arm = Some((depth, row, now));
                self.path = path;
                self.cursor = Some(row);
                fx.redraw();
            },
        }
        true
    }

    /// Opens an armed submenu whose dwell has passed while the pointer rests:
    /// a pointer at rest sends no events, so the frame asks.
    pub fn poll_menu_hover_arm(&mut self, fx: &mut Effects, pointer: Pointer, now: u64, dwell: u64)
        ensures
            final(self).same_menu(old(self)),
            final(self).stand() == (match old(self).hover_arm {
                Some((depth, row, at)) => if old(self).open && since(now, at) < dwell {
                    old(self).stand()
                } else if old(self).open && pointer == (Pointer::On { depth, row }) {
                    (path_to(old(self).path@, depth as int).push(row), None, None)
                } else {
                    (old(self).path@, old(self).cursor, None)
                },
                None => old(self).stand(),
            }),
            final(fx)@ == (if old(self).open && (old(self).hover_arm matches Some((depth, row, at))
                && (since(now, at) < dwell || pointer == (Pointer::On { depth, row }))) {
                old(fx)@.push(Effect::Redraw)
            } else {
                old(fx)@
            }),
    {
        let (depth, row, at): (usize, usize, u64) = match self.hover_arm {
            Some(a) => a,
            None => {
                return;
            },
        };
        if !self.open {
            self.hover_arm = None;
            return;
        }
        let rested: u64 = if now >= at {
            now - at
        } else {
            0
        };
        if rested < dwell {
            fx.redraw();
            return;
        }
        self.hover_arm = None;
        let there: bool = match pointer {
            Pointer::On { depth: d, row: r } => d == depth && r == row,
            _ => false,
        };
        if !there {
            return;
        }
        let mut path: Vec<usize> = self.menu_path_to(depth);
        path.push(row);
        self.path = path;
        self.cursor = None;
        fx.redraw();
    }

    /// Opens the submenu under the cursor, with the cursor on its first row.
    pub fn descend(&mut self) -> (opened: bool)
        ensures
            final(self).same_menu(old(self)),
            opened == (old(self).chosen() matches Some(r) && r.opens()),
            final(self).stand() == (if opened {
                (old(self).path@.push(old(self).cursor.unwrap()), Some(0usize), old(self).hover_arm)
            } else {
                old(self).stand()
            }),
    {
        let cursor: usize = match self.cursor {
            Some(c) => c,
            None => {
                return false;
            },
        };
        let opens: bool = match self.menu_row_at(self.path.len(), cursor) {
            Some(r) => r.enabled && r.is_submenu(),
            None => false,
        };
        if opens {
            self.path.push(cursor);
            self.cursor = Some(0);
        }
        opens
    }

    /// Leaves the deepest open level for the row that opened it.
    pub fn ascend(&mut self) -> (left: bool)
        ensures
            final(self).same_menu(old(self)),
            left == (old(self).path@.len() > 0),
            final(self).stand() == (if left {
                (old(self).path@.drop_last(), Some(old(self).path@.last()), old(self).hover_arm)
            } else {
                old(self).stand()
            }),
    {
        match self.path.pop() {
            Some(row) => {
                self.cursor = Some(row);
                true
            },
            None => false,
        }
    }

    /// Puts the cursor on the first or the last row of the deepest level.
    pub fn land(&mut self, first: bool)
        ensures
            final(self).same_menu(old(self)),
            final(self).stand() == (match old(self).current() {
                Some(l) => if l.len() == 0 {
                    old(self).stand()
                } else {
                    (
                        old(self).path@,
                        Some(
                            if first {
                                0usize
                            } else {
                                (l.len() - 1) as usize
                            },
                        ),
                        old(self).hover_arm,
                    )
                },
                None => old(self).stand(),
            }),
    {
        let n: usize = match self.level_rows(self.path.len()) {
            Some(l) => l.len(),
            None => 0,
        };
        if n > 0 {
            self.cursor = Some(
                if first {
                    0
                } else {
                    n - 1
                },
            );
        }
    }

    /// Where a step along the deepest level leads. The level does not cycle.
    pub open spec fn beside(&self, down: bool) -> Option<usize> {
        match (self.current(), self.cursor) {
            (Some(l), Some(c)) => if down && c + 1 < l.len() {
                Some((c + 1) as usize)
            } else if !down && c > 0 {
                Some((c - 1) as usize)
            } else {
                None
            },
            _ => None,
        }
    }

    /// Steps along the deepest level; says whether the cursor moved.
    pub fn step_within(&mut self, down: bool) -> (moved: bool)
        ensures
            final(self).same_menu(old(self)),
            moved == old(self).beside(down) is Some,
            final(self).stand() == (if moved {
                (old(self).path@, old(self).beside(down), old(self).hover_arm)
            } else {
                old(self).stand()
            }),
    {
        let n: usize = match self.level_rows(self.path.len()) {
            Some(l) => l.len(),
            None => {
                return false;
            },
        };
        let c: usize = match self.cursor {
            Some(c) => c,
            None => {
                return false;
            },
        };
        if down {
            if n > 0 && c < n - 1 {
                self.cursor = Some(c + 1);
                return true;
            }
        } else if c > 0 {
            self.cursor = Some(c - 1);
            return true;
        }
        false
    }

    /// Closed, and with no memory of where it was open to.
    pub open spec fn is_shut(&self) -> bool {
        &&& !self.open
        &&& self.rows@.len() == 0
        &&& self.stand() == (Seq::<usize>::empty(), None::<usize>, None::<(usize, usize, u64)>)
    }

    pub fn close_menu(&mut self)
        ensures
            final(self).is_shut(),
    {
        self.hover_arm = None;
        self.open = false;
        self.rows = Vec::new();
        self.path = Vec::new();
        self.cursor = None;
    }

    /// What the row under the cursor comes to when it is picked.
    pub open spec fn press(&self) -> RowPress {
        match self.chosen() {
            Some(r) => if !r.enabled {
                RowPress::Nothing
            } else {
                match r.kind {
                    RowKind::Submenu(_) => RowPress::Opened,
                    RowKind::Run(action, closes) => RowPress::Run { action, closes },
                    RowKind::Text => RowPress::Nothing,
                }
            },
            None => RowPress::Nothing,
        }
    }

    /// Where picking a row leaves the menu.
    pub open spec fn picked(&self, n: &Menu, press: RowPress) -> bool {
        match press {
            RowPress::Nothing => n.same_menu(self) && n.stand() == self.stand(),
            RowPress::Opened => n.same_menu(self) && n.stand() == (
                self.path@.push(self.cursor.unwrap()),
                Some(0usize),
                self.hover_arm,
            ),
            RowPress::Run { closes, .. } => if closes {
                n.is_shut()
            } else {
                n.same_menu(self) && n.stand() == self.stand()
            },
        }
    }

    /// Picks the row under the cursor: opens a submenu, or names the action
    /// to run, after taking the menu down where the row does that.
    pub fn activate_menu_row(&mut self, fx: &mut Effects) -> (r: RowPress)
        ensures
            r == old(self).press(),
            old(self).picked(final(self), r),
            final(fx)@ == (if r is Opened {
                old(fx)@.push(Effect::Redraw)
            } else {
                old(fx)@
            }),
    {
        let cursor: usize = match self.cursor {
            Some(c) => c,
            None => {
                return RowPress::Nothing;
            },
        };
        let press: RowPress = match self.menu_row_at(self.path.len(), cursor) {
            Some(r) => if !r.enabled {
                RowPress::Nothing
            } else {
                match &r.kind {
                    RowKind::Submenu(_) => RowPress::Opened,
                    RowKind::Run(action, closes) => RowPress::Run {
                        action: *action,
                        closes: *closes,
                    },
                    RowKind::Text => RowPress::Nothing,
                }
            },
            None => RowPress::Nothing,
        };
        match press {
            RowPress::Nothing => {},
            RowPress::Opened => {
                self.descend();
                fx.redraw();
            },
            RowPress::Run { closes, .. } => {
                if closes {
                    self.close_menu();
                }
            },
        }
        press
    }

    /// A picked action has run. A menu that stayed up shows what it changed.
    pub fn menu_acted(&mut self, fx: &mut Effects, rows: Option<Vec<MenuRow>>)
        ensures
            final(self).open == old(self).open,
            final(self).stand() == old(self).stand(),
            final(self).rows == (match rows {
                Some(r) => r,
                None => old(self).rows,
            }),
            final(fx)@ == old(fx)@.push(Effect::Redraw),
    {
        match rows {
            Some(r) => {
                self.rows = r;
            },
            None => {},
        }
        fx.redraw();
    }
}

/// Whichever row the pointer arrives on, that row is lit or open and nothing
/// is open deeper: the lit row and the open trail are one thing.
pub proof fn lemma_hover_leaves_nothing_deeper(
    m: Menu,
    depth: usize,
    row: usize,
    now: u64,
    dwell: u64,
)
    ensures
        ({
            let (path, cursor, arm) = m.arrived(depth, row, now, dwell);
            let above = path_to(m.path@, depth as int);
            ||| path == above && cursor == Some(row)
            ||| path == above.push(row) && cursor is None && arm is None
        }),
{
}

/// A pointer that passes through never opens a submenu: whatever a first
/// arrival finds, the open trail is only shortened.
pub proof fn lemma_passing_opens_nothing(m: Menu, depth: usize, row: usize, now: u64, dwell: u64)
    requires
        !(m.hover_arm matches Some((d, r, _)) && (d, r) == (depth, row)),
    ensures
        m.arrived(depth, row, now, dwell).0 == path_to(m.path@, depth as int),
        m.arrived(depth, row, now, dwell).0.len() <= m.path@.len(),
{
}

/// Going down into a submenu and coming back leaves the path and the cursor
/// as they were.
pub proof fn lemma_down_and_up(path: Seq<usize>, cursor: usize)
    ensures
        path.push(cursor).drop_last() == path,
        path.push(cursor).last() == cursor,
{
    assert(path.push(cursor).drop_last() =~= path);
}

} // verus!
