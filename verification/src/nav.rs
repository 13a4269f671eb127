//! Walking the interface without a pointer: the places to stand, the focus
//! that stands on one of them, and the pace at which a held control repeats.

use vstd::prelude::*;

use crate::netplay::JoyState;

verus! {

#[derive(Clone, Copy, PartialEq, Eq, Structural, Debug)]
pub enum Dir {
    Up,
    Down,
    Left,
    Right,
}

impl Dir {
    pub open spec fn across(self) -> bool {
        self is Left || self is Right
    }

    pub fn horizontal(self) -> (r: bool)
        ensures
            r == self.across(),
    {
        match self {
            Dir::Left | Dir::Right => true,
            _ => false,
        }
    }
}

/// A box of the sign-in dialog.
#[derive(Clone, Copy, PartialEq, Eq, Structural, Debug)]
pub enum LoginField {
    User,
    Pass,
}

/// A control of the configuration screen. Rows and pages are counted from
/// zero.
#[derive(Clone, Copy, PartialEq, Eq, Structural, Debug)]
pub enum Place {
    Tab(u8),
    NavTab(u8),
    Model(u8),
    PanelClose,
    Load,
    Save,
    SaveAs,
    Defaults,
    Run,
    SaveAction(u8),
    ConfirmReset,
    LibraryJump(usize),
    LibraryPick(usize),
    LibraryFavourite(usize),
    LibraryFavouritePick(usize),
    LibraryFavouriteRemove(usize),
    LibraryRefresh,
    LibraryUpdate,
    LibraryEdit,
    HostDiskSelect(usize),
    HostDiskAttach(usize),
    HostDiskWritable(usize),
    HostDiskEnable(usize),
    HostDiskMount,
    MetaArt,
    MetaField(usize),
    MetaSave,
    MetaClear,
    MetaCancel,
    LoginField(LoginField),
    LoginOk,
    LoginCancel,
    /// The arrow of a stepper: its field, and whether it counts up.
    Cycle(u16, bool),
    Other(u32),
}

/// A button of the status bar.
#[derive(Clone, Copy, PartialEq, Eq, Structural, Debug)]
pub enum BarControl {
    Power,
    Pause,
    Reboot,
    Screenshot,
    Menu,
    DriveLoad(usize),
    DriveSwap(usize),
    DriveEject(usize),
    CdLoad,
    CdEject,
    Joystick,
    Keyboard,
    Volume,
}

#[derive(Clone, Copy, PartialEq, Eq, Structural, Debug)]
pub enum NavTarget {
    Ui(Place),
    Bar(BarControl),
}

/// A place to stand: what it works, and where it is drawn.
#[derive(Clone, Copy, PartialEq, Eq, Structural, Debug)]
pub struct NavItem {
    pub target: NavTarget,
    pub x: u32,
    pub y: u32,
    pub w: u32,
}

/// What the focus stands on, whether its marker shows, and whether the
/// stepper under it is open for changing.
#[derive(Clone, Copy, PartialEq, Eq, Structural, Debug)]
pub struct Nav {
    pub focus: Option<NavTarget>,
    pub showing: bool,
    pub open: bool,
}

pub open spec fn is_at(items: Seq<NavItem>, target: NavTarget, i: int) -> bool {
    0 <= i < items.len() && items[i].target == target
}

/// There is a place to stand for this target.
pub open spec fn has_place(items: Seq<NavItem>, target: NavTarget) -> bool {
    exists|i: int| is_at(items, target, i)
}

/// The index of the first place with this target.
pub fn find(items: &Vec<NavItem>, target: NavTarget) -> (r: Option<usize>)
    ensures
        r is Some == has_place(items@, target),
        r matches Some(i) ==> is_at(items@, target, i as int) && forall|j: int|
            0 <= j < i ==> !is_at(items@, target, j),
{
    let mut i: usize = 0;
    while i < items.len()
        invariant
            i <= items@.len(),
            forall|j: int| 0 <= j < i ==> !is_at(items@, target, j),
        decreases items@.len() - i,
    {
        if items[i].target == target {
            assert(is_at(items@, target, i as int));
            return Some(i);
        }
        i += 1;
    }
    None
}

impl Nav {
    pub open spec fn hidden() -> Nav {
        Nav { focus: None, showing: false, open: false }
    }

    /// The focus on a place that exists: where it was, or at home.
    pub open spec fn settled(self, items: Seq<NavItem>, home: Option<NavTarget>) -> Nav {
        if self.focus matches Some(t) && has_place(items, t) {
            self
        } else {
            Nav {
                focus: if home matches Some(h) && has_place(items, h) {
                    home
                } else {
                    None
                },
                showing: self.showing,
                open: false,
            }
        }
    }

    pub open spec fn shown_at(target: Option<NavTarget>) -> Nav {
        Nav { focus: target, showing: target is Some, open: false }
    }

    pub fn new() -> (r: Nav)
        ensures
            r == Nav::hidden(),
    {
        Nav { focus: None, showing: false, open: false }
    }

    pub fn settle(&mut self, items: &Vec<NavItem>, home: Option<NavTarget>)
        ensures
            *final(self) == old(self).settled(items@, home),
    {
        let here: bool = match self.focus {
            Some(t) => find(items, t).is_some(),
            None => false,
        };
        if !here {
            let at_home: bool = match home {
                Some(h) => find(items, h).is_some(),
                None => false,
            };
            self.focus = if at_home {
                home
            } else {
                None
            };
            self.open = false;
        }
    }

    pub fn show(&mut self, target: Option<NavTarget>)
        ensures
            *final(self) == Nav::shown_at(target),
    {
        self.focus = target;
        self.showing = target.is_some();
        self.open = false;
    }

    /// Moves the focus without a word about its marker.
    pub fn park(&mut self, target: Option<NavTarget>)
        ensures
            *final(self) == (Nav { focus: target, ..*old(self) }),
    {
        self.focus = target;
    }

    pub fn clear(&mut self)
        ensures
            *final(self) == Nav::hidden(),
    {
        self.focus = None;
        self.showing = false;
        self.open = false;
    }

    pub fn toggle_open(&mut self)
        ensures
            *final(self) == (Nav { open: !old(self).open, ..*old(self) }),
    {
        self.open = !self.open;
    }
}

/// The way that a pad is pushed; up and down come before left and right.
pub open spec fn pushed(pad: JoyState) -> Option<Dir> {
    if pad.up {
        Some(Dir::Up)
    } else if pad.down {
        Some(Dir::Down)
    } else if pad.left {
        Some(Dir::Left)
    } else if pad.right {
        Some(Dir::Right)
    } else {
        None
    }
}

fn direction(pad: JoyState) -> (r: Option<Dir>)
    ensures
        r == pushed(pad),
{
    if pad.up {
        Some(Dir::Up)
    } else if pad.down {
        Some(Dir::Down)
    } else if pad.left {
        Some(Dir::Left)
    } else if pad.right {
        Some(Dir::Right)
    } else {
        None
    }
}

/// How long a direction is held before the focus walks on by itself.
pub const PAD_NAV_DELAY: u64 = 420;

/// The gap to the next step of a walk that has been held for so long.
pub open spec fn pad_gap(held: int) -> int {
    if held <= 1200 {
        180
    } else if held <= 2600 {
        110
    } else {
        70
    }
}

pub fn pad_nav_every(held: u64) -> (r: u64)
    ensures
        r == pad_gap(held as int),
{
    if held <= 1200 {
        180
    } else if held <= 2600 {
        110
    } else {
        70
    }
}

/// The pad's own walk: which way it is held, since when, when the next step
/// falls due, and which buttons were down last time. Times are milliseconds.
#[derive(Clone, Copy, PartialEq, Eq, Structural, Debug)]
pub struct PadNav {
    pub held: Option<Dir>,
    pub since: u64,
    pub next: u64,
    pub fire: bool,
    pub back: bool,
}

/// What one look at the pad calls for: a step, a press, a step back out.
#[derive(Clone, Copy, PartialEq, Eq, Structural, Debug)]
pub struct PadCalls {
    pub step: Option<Dir>,
    pub press: bool,
    pub back: bool,
}

/// The last moment that the clock is asked about.
pub const LATEST: u64 = 0x7FFF_FFFF_FFFF_FFFF;

impl PadNav {
    /// Whether a direction acts now: on its press, and then again whenever a
    /// step falls due.
    pub open spec fn acts(self, pad: JoyState, now: u64) -> bool {
        pushed(pad) is Some && (self.held != pushed(pad) || now >= self.next)
    }

    pub open spec fn after(self, pad: JoyState, now: u64) -> PadNav {
        let dir = pushed(pad);
        let fresh = dir is Some && self.held != dir;
        PadNav {
            held: dir,
            since: if fresh {
                now
            } else {
                self.since
            },
            next: if fresh {
                (now + PAD_NAV_DELAY) as u64
            } else if self.acts(pad, now) {
                (now + pad_gap(crate::menu::since(now, self.since))) as u64
            } else {
                self.next
            },
            fire: pad.fire,
            back: pad.button2,
        }
    }

    pub open spec fn calls(self, pad: JoyState, now: u64) -> PadCalls {
        PadCalls {
            step: if self.acts(pad, now) {
                pushed(pad)
            } else {
                None
            },
            press: pad.fire && !self.fire,
            back: pad.button2 && !self.back,
        }
    }

    /// What a walk that starts from a held pad holds: a direction already down
    /// waits out its delay as if it had just stepped.
    pub open spec fn seed(pad: JoyState, now: u64) -> PadNav {
        PadNav {
            held: pushed(pad),
            since: now,
            next: (now + PAD_NAV_DELAY) as u64,
            fire: pad.fire,
            back: pad.button2,
        }
    }

    /// A walk that starts from what the pad is doing, so that a control
    /// already down does not act as it arrives.
    pub fn seeded(pad: JoyState, now: u64) -> (r: PadNav)
        requires
            now <= LATEST,
        ensures
            r == PadNav::seed(pad, now),
    {
        PadNav {
            held: direction(pad),
            since: now,
            next: now + PAD_NAV_DELAY,
            fire: pad.fire,
            back: pad.button2,
        }
    }

    /// One look at the pad. A held direction repeats, slowly at first and then
    /// faster; a button acts once, on its press.
    pub fn pad_drives_interface(&mut self, pad: JoyState, now: u64) -> (r: PadCalls)
        requires
            now <= LATEST,
        ensures
            *final(self) == old(self).after(pad, now),
            r == old(self).calls(pad, now),
    {
        let dir: Option<Dir> = direction(pad);
        let mut step: Option<Dir> = None;
        match dir {
            None => {
                self.held = None;
            },
            Some(_) => {
                if self.held != dir {
                    self.held = dir;
                    self.since = now;
                    self.next = now + PAD_NAV_DELAY;
                    step = dir;
                } else if now >= self.next {
                    let held: u64 = if now >= self.since {
                        now - self.since
                    } else {
                        0
                    };
                    self.next = now + pad_nav_every(held);
                    step = dir;
                }
            },
        }
        let press: bool = pad.fire && !self.fire;
        self.fire = pad.fire;
        let back: bool = pad.button2 && !self.back;
        self.back = pad.button2;
        PadCalls { step, press, back }
    }
}

/// A pad that is taken over as it is held does nothing by arriving: a
/// direction already down takes no step before its delay is over, and a button
/// already down is no press.
pub proof fn lemma_seeded_presses_nothing(pad: JoyState, at: u64, now: u64)
    requires
        at <= LATEST,
        now < at + PAD_NAV_DELAY,
    ensures
        PadNav::seed(pad, at).calls(pad, now).step is None,
        !PadNav::seed(pad, at).calls(pad, now).press,
        !PadNav::seed(pad, at).calls(pad, now).back,
{
}

/// A button held down acts once, however often the pad is looked at.
pub proof fn lemma_buttons_do_not_repeat(n: PadNav, pad: JoyState, now: u64, later: u64)
    ensures
        !n.after(pad, now).calls(pad, later).press,
        !n.after(pad, now).calls(pad, later).back,
{
}

/// A direction held down never steps twice within its gap, and the gaps only
/// close up.
pub proof fn lemma_walk_is_paced(n: PadNav, pad: JoyState, now: u64, later: u64)
    requires
        now <= LATEST,
        n.acts(pad, now),
        later < now + 70,
    ensures
        n.after(pad, now).calls(pad, later).step is None,
        forall|a: int, b: int| 0 <= a <= b ==> #[trigger] pad_gap(a) >= #[trigger] pad_gap(b),
{
}

/// The settings whose steppers repeat.
#[derive(Clone, Copy, PartialEq, Eq, Structural, Debug)]
pub enum LauncherField {
    MouseSensitivity,
    AudioStereoSeparation,
    FloppyVolume,
    /// The boot priority of one of the drives.
    BootPriority(u8),
    Other(u16),
}

pub const CYCLE_HOLD_EVERY: u64 = 1000;

pub const CYCLE_RAMP_DELAY: u64 = 400;

/// The range is long enough to want the ramp.
pub open spec fn ramps(field: LauncherField) -> bool {
    field !is Other
}

pub fn cycle_ramps(field: LauncherField) -> (r: bool)
    ensures
        r == ramps(field),
{
    match field {
        LauncherField::Other(_) => false,
        _ => true,
    }
}

/// How long a held stepper waits before its first repeat.
pub fn cycle_hold_delay(field: LauncherField) -> (r: u64)
    ensures
        r == (if ramps(field) {
            CYCLE_RAMP_DELAY
        } else {
            CYCLE_HOLD_EVERY
        }),
{
    if cycle_ramps(field) {
        CYCLE_RAMP_DELAY
    } else {
        CYCLE_HOLD_EVERY
    }
}

pub open spec fn cycle_gap(field: LauncherField, held: int) -> int {
    if !ramps(field) {
        CYCLE_HOLD_EVERY as int
    } else if held <= 1800 {
        140
    } else if held <= 4000 {
        55
    } else {
        25
    }
}

/// The gap to the next repeat, given how long the arrow has been held.
pub fn cycle_hold_every(field: LauncherField, held: u64) -> (r: u64)
    ensures
        r == cycle_gap(field, held as int),
{
    if !cycle_ramps(field) {
        return CYCLE_HOLD_EVERY;
    }
    if held <= 1800 {
        140
    } else if held <= 4000 {
        55
    } else {
        25
    }
}

/// A stepper's arrow that is held down: which one, when its next repeat falls
/// due, and when it went down.
#[derive(Clone, Copy, PartialEq, Eq, Structural, Debug)]
pub struct CycleHold {
    pub field: LauncherField,
    pub up: bool,
    pub due: u64,
    pub started: u64,
}

/// The arrow under the pointer, if the pointer is on one.
pub type Arrow = Option<(LauncherField, bool)>;

/// Steps a held stepper; says whether its arrow is to act. The pointer must
/// still be on the arrow: one that kept acting from under the pointer could
/// not be got away from.
pub fn repeat_held_cycle(hold: &mut Option<CycleHold>, under: Arrow, now: u64) -> (act: bool)
    requires
        now <= LATEST,
    ensures
        act == (*old(hold) matches Some(h) && under == Some((h.field, h.up)) && now >= h.due),
        *final(hold) == (match *old(hold) {
            Some(h) => if under != Some((h.field, h.up)) {
                None
            } else if now < h.due {
                Some(h)
            } else {
                Some(
                    CycleHold {
                        due: (now + cycle_gap(
                            h.field,
                            crate::menu::since(now, h.started),
                        )) as u64,
                        ..h
                    },
                )
            },
            None => None,
        }),
{
    let h: CycleHold = match *hold {
        Some(h) => h,
        None => {
            return false;
        },
    };
    let there: bool = match under {
        Some((field, up)) => field == h.field && up == h.up,
        None => false,
    };
    if !there {
        *hold = None;
        return false;
    }
    if now < h.due {
        return false;
    }
    let held: u64 = if now >= h.started {
        now - h.started
    } else {
        0
    };
    *hold = Some(CycleHold { due: now + cycle_hold_every(h.field, held), ..h });
    true
}

/// One drive as the status bar shows it.
#[derive(Clone, Copy, PartialEq, Eq, Structural, Debug)]
pub struct DriveMedia {
    pub connected: bool,
    pub inserted: bool,
    /// There is another disk to swap to.
    pub multi: bool,
    /// A real drive, loaded and emptied by hand.
    pub bridged: bool,
}

#[derive(PartialEq, Eq, Debug)]
pub struct MediaBar {
    pub drives: Vec<DriveMedia>,
    /// Whether a disc is in, where the machine has a CD drive.
    pub cd: Option<bool>,
}

impl MediaBar {
    pub open spec fn drive(&self, i: int) -> DriveMedia {
        if 0 <= i < self.drives@.len() {
            self.drives@[i]
        } else {
            DriveMedia { connected: false, inserted: false, multi: false, bridged: false }
        }
    }

    fn drive_at(&self, i: usize) -> (r: DriveMedia)
        ensures
            r == self.drive(i as int),
    {
        if i < self.drives.len() {
            self.drives[i]
        } else {
            DriveMedia { connected: false, inserted: false, multi: false, bridged: false }
        }
    }

    /// The button would do something.
    pub open spec fn live(&self, c: BarControl) -> bool {
        match c {
            BarControl::DriveLoad(i) => self.drive(i as int).connected && !self.drive(
                i as int,
            ).bridged,
            BarControl::DriveSwap(i) => self.drive(i as int).connected && self.drive(i as int).multi
                && !self.drive(i as int).bridged,
            BarControl::DriveEject(i) => self.drive(i as int).connected && self.drive(
                i as int,
            ).inserted && !self.drive(i as int).bridged,
            BarControl::CdEject => self.cd == Some(true),
            _ => true,
        }
    }

    /// Whether a button of the bar would do anything: the focus walks past
    /// one that would not.
    pub fn bar_control_live(&self, c: BarControl) -> (r: bool)
        ensures
            r == self.live(c),
    {
        match c {
            BarControl::DriveLoad(i) => {
                let d: DriveMedia = self.drive_at(i);
                d.connected && !d.bridged
            },
            BarControl::DriveSwap(i) => {
                let d: DriveMedia = self.drive_at(i);
                d.connected && d.multi && !d.bridged
            },
            BarControl::DriveEject(i) => {
                let d: DriveMedia = self.drive_at(i);
                d.connected && d.inserted && !d.bridged
            },
            BarControl::CdEject => match self.cd {
                Some(inserted) => inserted,
                None => false,
            },
            _ => true,
        }
    }
}

/// The buttons along the foot of the configuration screen.
pub open spec fn is_action(p: Place) -> bool {
    p is Load || p is Save || p is SaveAs || p is Defaults || p is Run
}

pub fn launcher_action_control(p: Place) -> (r: bool)
    ensures
        r == is_action(p),
{
    match p {
        Place::Load | Place::Save | Place::SaveAs | Place::Defaults | Place::Run => true,
        _ => false,
    }
}

/// The bar's places join the others, the live ones only, unless the bar is
/// hidden.
pub open spec fn walkable(items: Seq<NavItem>, bar: Seq<NavItem>, media: &MediaBar) -> Seq<NavItem> {
    items + bar.filter(|i: NavItem| i.target matches NavTarget::Bar(c) && media.live(c))
}

/// Everywhere the focus can stand: the places of the open surface, and under
/// them the live buttons of a bar that is shown.
pub fn nav_items(
    items: Vec<NavItem>,
    bar: &Vec<NavItem>,
    media: &MediaBar,
    bar_hidden: bool,
) -> (r: Vec<NavItem>)
    ensures
        r@ == (if bar_hidden {
            items@
        } else {
            walkable(items@, bar@, media)
        }),
{
    let mut r: Vec<NavItem> = items;
    if bar_hidden {
        return r;
    }
    let ghost live = |i: NavItem| i.target matches NavTarget::Bar(c) && media.live(c);
    let mut k: usize = 0;
    assert(bar@.take(0).filter(live) =~= Seq::empty()) by {
        reveal(Seq::filter);
    }
    assert(items@ + Seq::empty() =~= items@);
    while k < bar.len()
        invariant
            k <= bar@.len(),
            live == (|i: NavItem| i.target matches NavTarget::Bar(c) && media.live(c)),
            r@ == items@ + bar@.take(k as int).filter(live),
        decreases bar@.len() - k,
    {
        let item: NavItem = bar[k];
        let add: bool = match item.target {
            NavTarget::Bar(c) => media.bar_control_live(c),
            _ => false,
        };
        if add {
            r.push(item);
        }
        proof {
            let t = bar@.take(k + 1);
            assert(t.drop_last() =~= bar@.take(k as int));
            assert(t.last() == item);
            reveal(Seq::filter);
            assert(r@ =~= items@ + t.filter(live));
        }
        k += 1;
    }
    assert(bar@.take(k as int) =~= bar@);
    r
}

} // verus!
