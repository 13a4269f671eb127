//! The interface over the machine's picture: the menu, the open panel and the
//! focus that walks them with the arrow keys or a pad.

use vstd::prelude::*;

use crate::effects::Effect;
use crate::effects::Effects;
use crate::launcher::Launcher;
use crate::launcher::Library;
use crate::launcher::ListStep;
use crate::launcher::Want;
use crate::launcher::along;
use crate::launcher::cell_left;
use crate::launcher::column_edge;
use crate::launcher::disk_row;
use crate::launcher::find_foremost;
use crate::launcher::foremost;
use crate::launcher::nav_cell_left;
use crate::launcher::nav_page_entry;
use crate::launcher::nav_row_across;
use crate::launcher::on_disk_row;
use crate::launcher::page_entry;
use crate::launcher::row_across;
use crate::menu::Menu;
use crate::nav::BarControl;
use crate::nav::Dir;
use crate::nav::Nav;
use crate::nav::NavItem;
use crate::nav::NavTarget;
use crate::nav::Place;
use crate::nav::find;
use crate::nav::has_place;

verus! {

/// The panel over the display.
#[derive(PartialEq, Eq, Debug)]
pub enum Panel {
    Launcher(Launcher),
    /// The browser of saved states, and whether it asks to delete one.
    States { confirm_delete: bool },
    /// The drives that a dropped disk can go to.
    DropChooser(Vec<u8>),
    Calibration,
    Shortcuts,
    About,
    InputMapping,
}

#[derive(PartialEq, Eq, Debug)]
pub struct Ui {
    pub menu: Menu,
    pub panel: Option<Panel>,
    pub nav: Nav,
    /// When the focus last moved, which is when its marker starts a breath.
    pub shown_at: u64,
    /// The button by which the focus came into the page.
    pub entered_from: Option<NavTarget>,
    pub bar_hidden: bool,
    pub quit_requested: bool,
}

/// What a walk depends on besides the interface itself.
#[derive(Clone, Copy, PartialEq, Eq, Debug)]
pub struct WalkFacts {
    /// The rows of the library's list that are drawn.
    pub library_rows: usize,
    /// The rows that one step along it covers, held long enough.
    pub rate: usize,
    /// The rows of the disk list that are drawn.
    pub disk_rows: usize,
    pub now: u64,
}

/// What a step or a press of the focus still asks for.
#[derive(Clone, Copy, PartialEq, Eq, Structural, Debug)]
pub enum NavStep {
    /// There is nowhere to stand.
    NotTaken,
    Done,
    /// The browser of saved states walks itself.
    States,
    /// The row of the menu under the cursor is to be picked.
    PickRow,
    /// The place beyond is for the drawing to say.
    Geometry,
    /// A control is to be worked.
    Work(NavTarget),
    Volume { up: bool },
    /// The disk list scrolled; this control of this row is to be landed on.
    Disk { landing: Place, row: usize },
}

/// A setting that opens for changing.
pub open spec fn is_stepper(t: NavTarget) -> bool {
    match t {
        NavTarget::Ui(p) => p is Cycle,
        NavTarget::Bar(c) => c is Volume,
    }
}

/// The arrow of a stepper that a direction works.
pub open spec fn stepper_arrow(t: Option<NavTarget>, dir: Dir) -> Option<NavTarget> {
    match t {
        Some(NavTarget::Ui(Place::Cycle(f, _))) => if dir.across() {
            Some(NavTarget::Ui(Place::Cycle(f, dir is Right)))
        } else {
            None
        },
        _ => None,
    }
}

/// The focus stands on a row of one of the library's lists.
pub open spec fn in_library(t: Option<NavTarget>) -> bool {
    match t {
        Some(NavTarget::Ui(p)) => p is LibraryPick || p is LibraryFavouritePick,
        _ => false,
    }
}

pub fn nav_focus_in_library(t: Option<NavTarget>) -> (r: bool)
    ensures
        r == in_library(t),
{
    match t {
        Some(NavTarget::Ui(Place::LibraryPick(_))) => true,
        Some(NavTarget::Ui(Place::LibraryFavouritePick(_))) => true,
        _ => false,
    }
}

fn arrow_of(t: Option<NavTarget>, dir: Dir) -> (r: Option<NavTarget>)
    ensures
        r == stepper_arrow(t, dir),
{
    match t {
        Some(NavTarget::Ui(Place::Cycle(f, _))) => match dir {
            Dir::Right => Some(NavTarget::Ui(Place::Cycle(f, true))),
            Dir::Left => Some(NavTarget::Ui(Place::Cycle(f, false))),
            _ => None,
        },
        _ => None,
    }
}

impl Ui {
    pub open spec fn wf(&self) -> bool {
        self.panel matches Some(Panel::Launcher(l)) ==> l.wf()
    }

    pub open spec fn launcher(&self) -> Option<Launcher> {
        match self.panel {
            Some(Panel::Launcher(l)) => Some(l),
            _ => None,
        }
    }

    pub open spec fn home(&self) -> Option<NavTarget> {
        match self.launcher() {
            Some(l) => Some(l.home()),
            None => None,
        }
    }

    pub open spec fn column(&self) -> Option<u8> {
        match self.launcher() {
            Some(l) => Some(l.column),
            None => None,
        }
    }

    /// The interface with its focus on a place that exists.
    pub open spec fn settled(&self, items: Seq<NavItem>) -> Ui {
        Ui { nav: self.nav.settled(items, self.home()), ..*self }
    }

    /// The focus was put somewhere, and its marker starts afresh.
    pub open spec fn showing(&self, target: Option<NavTarget>, now: u64) -> Ui {
        Ui { nav: Nav::shown_at(target), shown_at: now, ..*self }
    }

    pub open spec fn with_launcher(&self, l: Launcher) -> Ui {
        Ui { panel: Some(Panel::Launcher(l)), ..*self }
    }

    /// The lists and the dialogs follow the focus.
    pub open spec fn followed(&self, n: &Ui) -> bool {
        match self.launcher() {
            Some(l) => {
                let (list, focus) = l.synced(self.nav.focus);
                let chosen = Launcher { library: Library { focus: list, ..l.library }, ..l };
                &&& n.launcher() matches Some(m)
                &&& chosen.dialog_synced(&m, focus)
                &&& *n == (Ui {
                    panel: n.panel,
                    nav: Nav { focus, ..self.nav },
                    ..*self
                })
            },
            None => *n == *self,
        }
    }

    pub fn new(bar_hidden: bool) -> (r: Ui)
        ensures
            r.wf(),
            r.menu.is_shut(),
            r.panel is None,
            r.nav == Nav::hidden(),
            r.entered_from is None,
            r.bar_hidden == bar_hidden,
            !r.quit_requested,
    {
        Ui {
            menu: Menu::new(),
            panel: None,
            nav: Nav::new(),
            shown_at: 0,
            entered_from: None,
            bar_hidden,
            quit_requested: false,
        }
    }

    fn home_of(&self) -> (r: Option<NavTarget>)
        ensures
            r == self.home(),
    {
        match &self.panel {
            Some(Panel::Launcher(l)) => Some(l.nav_home()),
            _ => None,
        }
    }

    fn column_of(&self) -> (r: Option<u8>)
        ensures
            r == self.column(),
    {
        match &self.panel {
            Some(Panel::Launcher(l)) => Some(l.column),
            _ => None,
        }
    }

    fn settle(&mut self, items: &Vec<NavItem>)
        ensures
            *final(self) == old(self).settled(items@),
    {
        let home: Option<NavTarget> = self.home_of();
        self.nav.settle(items, home);
    }

    /// Puts the focus somewhere and starts its marker afresh, so that a step
    /// always begins bright.
    pub fn nav_show(&mut self, target: Option<NavTarget>, now: u64)
        ensures
            *final(self) == old(self).showing(target, now),
    {
        self.shown_at = now;
        self.nav.show(target);
    }

    /// Brings the lists and the dialogs to where the focus is.
    fn follow(&mut self)
        requires
            old(self).wf(),
        ensures
            final(self).wf(),
            old(self).followed(final(self)),
    {
        match self.panel.take() {
            Some(Panel::Launcher(mut l)) => {
                let focus: Option<NavTarget> = l.nav_sync_library(self.nav.focus);
                self.nav.park(focus);
                l.nav_sync_dialog(focus);
                self.panel = Some(Panel::Launcher(l));
            },
            other => {
                self.panel = other;
            },
        }
    }

    /// The browser of saved states is up.
    pub open spec fn browses(&self) -> bool {
        self.panel matches Some(Panel::States { .. })
    }

    fn browsing(&self) -> (r: bool)
        ensures
            r == self.browses(),
    {
        match &self.panel {
            Some(Panel::States { .. }) => true,
            _ => false,
        }
    }

    /// Where a direction leaves the open menu. The top of a level is the top;
    /// walking off the foot of the first level leaves the menu for the button
    /// that it hangs from, where there is one.
    pub open spec fn menu_walked(&self, n: &Ui, dir: Dir, now: u64) -> bool {
        let m = self.menu;
        let foot = dir is Down && m.cursor is Some && m.beside(true) is None && m.path@.len() == 0;
        if foot {
            &&& n.menu.is_shut()
            &&& *n == (Ui { menu: n.menu, nav: n.nav, shown_at: n.shown_at, ..*self })
            &&& if self.bar_hidden {
                n.nav == Nav::hidden() && n.shown_at == self.shown_at
            } else {
                n.nav == Nav::shown_at(Some(NavTarget::Bar(BarControl::Menu))) && n.shown_at == now
            }
        } else {
            &&& *n == (Ui { menu: n.menu, ..*self })
            &&& n.menu.same_menu(&m)
            &&& n.menu.stand() == (match dir {
                Dir::Up => if m.beside(false) is Some {
                    (m.path@, m.beside(false), m.hover_arm)
                } else {
                    m.stand()
                },
                Dir::Down => if m.cursor is None {
                    if m.current() matches Some(l) && l.len() > 0 {
                        (m.path@, Some(0usize), m.hover_arm)
                    } else {
                        m.stand()
                    }
                } else if m.beside(true) is Some {
                    (m.path@, m.beside(true), m.hover_arm)
                } else {
                    m.stand()
                },
                Dir::Right => if m.chosen() matches Some(r) && r.opens() {
                    (m.path@.push(m.cursor.unwrap()), Some(0usize), m.hover_arm)
                } else {
                    m.stand()
                },
                Dir::Left => if m.path@.len() > 0 {
                    (m.path@.drop_last(), Some(m.path@.last()), m.hover_arm)
                } else {
                    m.stand()
                },
            })
        }
    }

    fn walk_menu(&mut self, dir: Dir, now: u64)
        ensures
            old(self).menu_walked(final(self), dir, now),
    {
        match dir {
            Dir::Up => {
                self.menu.step_within(false);
            },
            Dir::Down => {
                if self.menu.cursor.is_none() {
                    self.menu.land(true);
                } else if !self.menu.step_within(true) && self.menu.path.len() == 0 {
                    self.menu.close_menu();
                    if self.bar_hidden {
                        self.nav.clear();
                    } else {
                        self.nav_show(Some(NavTarget::Bar(BarControl::Menu)), now);
                    }
                }
            },
            Dir::Right => {
                self.menu.descend();
            },
            Dir::Left => {
                self.menu.ascend();
            },
        }
    }

    /// A step along the library's list, which it has room for.
    pub open spec fn list_steps(&self, dir: Dir) -> bool {
        &&& !dir.across()
        &&& in_library(self.nav.focus)
        &&& !(self.launcher() matches Some(l) && l.library.ended(dir is Up))
    }

    /// The library's list took a step, and the focus stands on the row that
    /// it chose.
    pub open spec fn list_stepped(&self, n: &Ui, step: ListStep, rows: usize) -> bool {
        match self.launcher() {
            Some(l) => self.with_launcher(
                Launcher { library: l.library.walked(step, rows), ..l },
            ).followed(n),
            None => *n == *self,
        }
    }

    /// The rows of a step: as many as the pace gives, one at least.
    pub open spec fn list_step(dir: Dir, rate: usize) -> ListStep {
        let rows = if rate == 0 {
            1
        } else {
            rate
        };
        if dir is Up {
            ListStep::Back(rows)
        } else {
            ListStep::On(rows)
        }
    }

    /// Moves the chosen row of the library's list, scrolls it into view, and
    /// brings the marker with it.
    pub fn step_library_list(&mut self, fx: &mut Effects, step: ListStep, rows: usize)
        requires
            old(self).wf(),
        ensures
            final(self).wf(),
            old(self).list_stepped(final(self), step, rows),
            final(fx)@ == old(fx)@.push(Effect::Redraw),
    {
        match self.panel.take() {
            Some(Panel::Launcher(mut l)) => {
                l.library.step_library_focus(step, rows);
                self.panel = Some(Panel::Launcher(l));
            },
            other => {
                self.panel = other;
            },
        }
        self.follow();
        fx.redraw();
    }

    /// The disk list scrolls rather than let a step leave it.
    pub open spec fn disk_scrolls(&self, dir: Dir, visible: usize) -> Option<int> {
        match (self.launcher(), self.nav.focus) {
            (Some(l), Some(NavTarget::Ui(p))) => match disk_row(p) {
                Some(at) => if dir.across() {
                    None
                } else {
                    l.disks.beyond(at as int, dir, visible as int)
                },
                None => None,
            },
            _ => None,
        }
    }

    fn scroll_disks(&mut self, dir: Dir, visible: usize) -> (r: Option<(Place, usize)>)
        requires
            old(self).wf(),
            !dir.across(),
        ensures
            final(self).wf(),
            match old(self).disk_scrolls(dir, visible) {
                Some(to) => {
                    &&& r == Some((on_disk_row(old(self).nav.focus.unwrap()->Ui_0, to as usize), to as usize))
                    &&& *final(self) == old(self).with_launcher(
                        Launcher {
                            disks: old(self).launcher().unwrap().disks.shifted(
                                dir is Down,
                                visible as int,
                            ),
                            ..old(self).launcher().unwrap()
                        },
                    )
                },
                None => r is None && *final(self) == *old(self),
            },
    {
        match self.panel.take() {
            Some(Panel::Launcher(mut l)) => {
                let r: Option<(Place, usize)> = l.nav_host_disk_scroll(
                    self.nav.focus,
                    dir,
                    visible,
                );
                self.panel = Some(Panel::Launcher(l));
                r
            },
            other => {
                self.panel = other;
                None
            },
        }
    }

    /// The focus lands on the scrolled list: in the column it was walking
    /// down, or on the row itself where that column has nothing to stand on.
    pub fn nav_disk_landed(
        &mut self,
        fx: &mut Effects,
        landing: Place,
        row: usize,
        live: bool,
        now: u64,
    )
        ensures
            *final(self) == old(self).showing(
                Some(
                    NavTarget::Ui(
                        if live {
                            landing
                        } else {
                            Place::HostDiskSelect(row)
                        },
                    ),
                ),
                now,
            ),
            final(fx)@ == old(fx)@.push(Effect::Redraw),
    {
        let to: Place = if live {
            landing
        } else {
            Place::HostDiskSelect(row)
        };
        self.nav_show(Some(NavTarget::Ui(to)), now);
        fx.redraw();
    }

    /// The open dialog's next place that way is `next`.
    pub open spec fn dialog_leads(&self, items: Seq<NavItem>, dir: Dir, next: Option<NavTarget>) -> bool {
        match self.launcher() {
            Some(l) => along(
                l.dialog_order().filter(|t: NavTarget| has_place(items, t)),
                self.nav.focus,
                dir,
                next,
            ),
            None => next is None,
        }
    }

    fn dialog_next(&self, items: &Vec<NavItem>, dir: Dir) -> (r: Option<NavTarget>)
        ensures
            self.dialog_leads(items@, dir, r),
    {
        match &self.panel {
            Some(Panel::Launcher(l)) => l.nav_dialog_step(items, self.nav.focus, dir),
            _ => None,
        }
    }

    /// What a direction comes to once the focus stands on a place that
    /// exists, after a list and a dialog had their say.
    pub open spec fn stepper_walked(&self, n: &Ui, dir: Dir, step: NavStep) -> bool {
        if self.nav.open && stepper_arrow(self.nav.focus, dir) is Some {
            *n == *self && step == NavStep::Work(stepper_arrow(self.nav.focus, dir).unwrap())
        } else if self.nav.open && dir.across() && self.nav.focus == Some(
            NavTarget::Bar(BarControl::Volume),
        ) {
            *n == *self && step == (NavStep::Volume { up: dir is Right })
        } else {
            *n == (Ui { nav: Nav { open: false, ..self.nav }, ..*self }) && step is Geometry
        }
    }

    /// The whole of a step, up to what the drawing has to answer.
    pub open spec fn walked(
        &self,
        n: &Ui,
        dir: Dir,
        items: Seq<NavItem>,
        f: WalkFacts,
        step: NavStep,
    ) -> bool {
        let s = self.settled(items);
        if self.browses() {
            *n == *self && step is States
        } else if self.menu.open {
            self.menu_walked(n, dir, f.now) && step is Done
        } else if items.len() == 0 {
            *n == *self && step is NotTaken
        } else if s.list_steps(dir) {
            s.list_stepped(n, Ui::list_step(dir, f.rate), f.library_rows) && step is Done
        } else if s.disk_scrolls(dir, f.disk_rows) is Some {
            let to = s.disk_scrolls(dir, f.disk_rows).unwrap();
            let l = s.launcher().unwrap();
            &&& *n == s.with_launcher(
                Launcher { disks: l.disks.shifted(dir is Down, f.disk_rows as int), ..l },
            )
            &&& step == (NavStep::Disk {
                landing: on_disk_row(s.nav.focus.unwrap()->Ui_0, to as usize),
                row: to as usize,
            })
        } else {
            exists|next: Option<NavTarget>| #[trigger]
                s.dialog_asked(items, dir, next) && match next {
                    Some(_) => s.dialog_stepped(n, next, f.now) && step is Done,
                    None => s.stepper_walked(n, dir, step),
                }
        }
    }

    pub open spec fn dialog_asked(&self, items: Seq<NavItem>, dir: Dir, next: Option<NavTarget>) -> bool {
        if dir.across() {
            next is None
        } else {
            self.dialog_leads(items, dir, next)
        }
    }

    /// The focus moved along a dialog, and the dialog's caret with it.
    pub open spec fn dialog_stepped(&self, n: &Ui, next: Option<NavTarget>, now: u64) -> bool {
        match self.launcher() {
            Some(l) => {
                &&& n.launcher() matches Some(m)
                &&& l.dialog_synced(&m, next)
                &&& *n == (Ui { panel: n.panel, ..self.showing(next, now) })
            },
            None => *n == self.showing(next, now),
        }
    }

    /// What a step asks of the host by itself.
    pub open spec fn walk_redraws(step: NavStep) -> bool {
        !(step is NotTaken) && !(step is Geometry) && !(step is Disk)
    }

    fn follow_dialog(&mut self)
        requires
            old(self).wf(),
        ensures
            final(self).wf(),
            match old(self).launcher() {
                Some(l) => {
                    &&& final(self).launcher() matches Some(m)
                    &&& l.dialog_synced(&m, old(self).nav.focus)
                    &&& *final(self) == (Ui { panel: final(self).panel, ..*old(self) })
                },
                None => *final(self) == *old(self),
            },
    {
        match self.panel.take() {
            Some(Panel::Launcher(mut l)) => {
                l.nav_sync_dialog(self.nav.focus);
                self.panel = Some(Panel::Launcher(l));
            },
            other => {
                self.panel = other;
            },
        }
    }

    fn walk_stepper(&mut self, dir: Dir) -> (step: NavStep)
        ensures
            old(self).stepper_walked(final(self), dir, step),
            *final(self) == (Ui { nav: final(self).nav, ..*old(self) }),
    {
        if self.nav.open {
            match arrow_of(self.nav.focus, dir) {
                Some(arrow) => {
                    return NavStep::Work(arrow);
                },
                None => {},
            }
            if dir.horizontal() {
                match self.nav.focus {
                    Some(NavTarget::Bar(BarControl::Volume)) => {
                        let up: bool = match dir {
                            Dir::Right => true,
                            _ => false,
                        };
                        return NavStep::Volume { up };
                    },
                    _ => {},
                }
            }
            self.nav.open = false;
        }
        NavStep::Geometry
    }

    fn walk_page(&mut self, fx: &mut Effects, dir: Dir, items: &Vec<NavItem>, f: WalkFacts) -> (
    step: NavStep)
        requires
            old(self).wf(),
            !old(self).browses(),
            !old(self).menu.open,
            items@.len() > 0,
        ensures
            final(self).wf(),
            old(self).walked(final(self), dir, items@, f, step),
            final(fx)@ == (if Ui::walk_redraws(step) {
                old(fx)@.push(Effect::Redraw)
            } else {
                old(fx)@
            }),
    {
        self.settle(items);
        let ghost s = *self;
        let back: bool = match dir {
            Dir::Up => true,
            _ => false,
        };
        if !dir.horizontal() {
            if nav_focus_in_library(self.nav.focus) {
                let ended: bool = match &self.panel {
                    Some(Panel::Launcher(l)) => l.library.library_at_end(back),
                    _ => false,
                };
                if !ended {
                    let rows: usize = if f.rate == 0 {
                        1
                    } else {
                        f.rate
                    };
                    let step: ListStep = if back {
                        ListStep::Back(rows)
                    } else {
                        ListStep::On(rows)
                    };
                    self.step_library_list(fx, step, f.library_rows);
                    return NavStep::Done;
                }
            }
            match self.scroll_disks(dir, f.disk_rows) {
                Some((landing, row)) => {
                    return NavStep::Disk { landing, row };
                },
                None => {},
            }
            let next: Option<NavTarget> = self.dialog_next(items, dir);
            assert(s.dialog_asked(items@, dir, next));
            if next.is_some() {
                self.nav_show(next, f.now);
                self.follow_dialog();
                fx.redraw();
                assert(s.dialog_stepped(self, next, f.now));
                return NavStep::Done;
            }
        } else {
            assert(s.dialog_asked(items@, dir, None));
        }
        let step: NavStep = self.walk_stepper(dir);
        match step {
            NavStep::Geometry => {},
            _ => fx.redraw(),
        }
        step
    }

    /// Moves the focus, or spends the direction on whatever takes it: the
    /// browser of states, the menu, a list that scrolls, an open dialog, an
    /// open stepper. What is left is for the drawing to answer, and
    /// `nav_geometry` takes the answer.
    pub fn nav_move(&mut self, fx: &mut Effects, dir: Dir, items: &Vec<NavItem>, f: WalkFacts) -> (
    step: NavStep)
        requires
            old(self).wf(),
        ensures
            final(self).wf(),
            old(self).walked(final(self), dir, items@, f, step),
            final(fx)@ == (if Ui::walk_redraws(step) {
                old(fx)@.push(Effect::Redraw)
            } else {
                old(fx)@
            }),
    {
        if self.browsing() {
            fx.redraw();
            return NavStep::States;
        }
        if self.menu.open {
            self.walk_menu(dir, f.now);
            fx.redraw();
            return NavStep::Done;
        }
        if items.len() == 0 {
            return NavStep::NotTaken;
        }
        self.walk_page(fx, dir, items, f)
    }

    /// Where a step goes whose place beyond is `beyond`. Right off a button of
    /// the column opens its page; left walks the row first, goes back up to
    /// the letters from a game, and leaves the page for the column's button.
    pub open spec fn next_place(
        &self,
        items: Seq<NavItem>,
        dir: Dir,
        beyond: Option<NavTarget>,
        in_page: bool,
    ) -> Option<NavTarget> {
        let focus = self.nav.focus;
        match dir {
            Dir::Right => {
                let entry = if focus matches Some(NavTarget::Ui(p)) && p is Tab {
                    page_entry(items, column_edge(items, self.column()))
                } else {
                    None
                };
                if entry is Some {
                    entry
                } else if beyond is None {
                    row_across(items, focus, dir)
                } else {
                    beyond
                }
            },
            Dir::Left => {
                let row = row_across(items, focus, dir);
                let letters = if focus matches Some(NavTarget::Ui(p)) && p is LibraryPick {
                    foremost(items, Want::Letters)
                } else {
                    None
                };
                if row is Some {
                    row
                } else if letters is Some {
                    letters
                } else if !(beyond is Some && in_page) && (self.launcher() matches Some(l)
                    && l.leads_home(items, focus)) {
                    Some(NavTarget::Ui(Place::Tab(self.column().unwrap())))
                } else {
                    beyond
                }
            },
            _ => beyond,
        }
    }

    fn next_of(&self, items: &Vec<NavItem>, dir: Dir, beyond: Option<NavTarget>, in_page: bool) -> (r:
        Option<NavTarget>)
        ensures
            r == self.next_place(items@, dir, beyond, in_page),
    {
        let focus: Option<NavTarget> = self.nav.focus;
        match dir {
            Dir::Right => {
                let entry: Option<NavTarget> = match focus {
                    Some(NavTarget::Ui(Place::Tab(_))) => nav_page_entry(items, self.column_of()),
                    _ => None,
                };
                if entry.is_some() {
                    entry
                } else if beyond.is_none() {
                    nav_row_across(items, focus, dir)
                } else {
                    beyond
                }
            },
            Dir::Left => {
                let row: Option<NavTarget> = nav_row_across(items, focus, dir);
                if row.is_some() {
                    return row;
                }
                let letters: Option<NavTarget> = match focus {
                    Some(NavTarget::Ui(Place::LibraryPick(_))) => find_foremost(
                        items,
                        Want::Letters,
                    ),
                    _ => None,
                };
                if letters.is_some() {
                    return letters;
                }
                if !(beyond.is_some() && in_page) {
                    match &self.panel {
                        Some(Panel::Launcher(l)) => {
                            let home: Option<NavTarget> = l.nav_column_home(items, focus);
                            if home.is_some() {
                                return home;
                            }
                        },
                        _ => {},
                    }
                }
                beyond
            },
            _ => beyond,
        }
    }

    /// The focus once the drawing said what is beyond it.
    pub open spec fn moved_on(
        &self,
        items: Seq<NavItem>,
        dir: Dir,
        beyond: Option<NavTarget>,
        in_page: bool,
        now: u64,
    ) -> Ui {
        let next = self.next_place(items, dir, beyond, in_page);
        if next is Some {
            self.showing(next, now)
        } else if !self.nav.showing {
            self.showing(self.nav.focus, now)
        } else {
            *self
        }
    }

    /// Finishes a step: `beyond` is the place that the drawing has that way,
    /// and `in_page` says whether that is a setting of the page.
    pub fn nav_geometry(
        &mut self,
        fx: &mut Effects,
        dir: Dir,
        items: &Vec<NavItem>,
        beyond: Option<NavTarget>,
        in_page: bool,
        now: u64,
    )
        requires
            old(self).wf(),
        ensures
            final(self).wf(),
            old(self).moved_on(items@, dir, beyond, in_page, now).followed(final(self)),
            final(fx)@ == old(fx)@.push(Effect::Redraw),
    {
        let next: Option<NavTarget> = self.next_of(items, dir, beyond, in_page);
        if next.is_some() {
            self.nav_show(next, now);
        } else if !self.nav.showing {
            let here: Option<NavTarget> = self.nav.focus;
            self.nav_show(here, now);
        }
        assert(*self == old(self).moved_on(items@, dir, beyond, in_page, now));
        self.follow();
        fx.redraw();
    }

    /// What a press comes to. The first press only shows the focus: nothing
    /// is worked that nobody could see was chosen.
    pub open spec fn pressed(&self, n: &Ui, items: Seq<NavItem>, now: u64, step: NavStep) -> bool {
        let s = self.settled(items);
        if self.browses() {
            *n == *self && step is States
        } else if self.menu.open {
            *n == *self && step is PickRow
        } else if items.len() == 0 {
            *n == *self && step is NotTaken
        } else {
            match s.nav.focus {
                None => *n == s.showing(Some(items[0].target), now) && step is Done,
                Some(t) => if !s.nav.showing {
                    *n == s.showing(Some(t), now) && step is Done
                } else if is_stepper(t) {
                    *n == (Ui { nav: Nav { open: !s.nav.open, ..s.nav }, ..s }) && step is Done
                } else {
                    *n == s && step == NavStep::Work(t)
                },
            }
        }
    }

    /// What a press asks of the host by itself.
    pub open spec fn press_redraws(step: NavStep) -> bool {
        step is Done || step is States || step is PickRow
    }

    /// Presses what the focus stands on: a stepper opens, everything else is
    /// for the host to work, and `nav_worked` follows.
    pub fn nav_press(&mut self, fx: &mut Effects, items: &Vec<NavItem>, now: u64) -> (step: NavStep)
        requires
            old(self).wf(),
        ensures
            final(self).wf(),
            old(self).pressed(final(self), items@, now, step),
            final(fx)@ == (if Ui::press_redraws(step) {
                old(fx)@.push(Effect::Redraw)
            } else {
                old(fx)@
            }),
    {
        if self.browsing() {
            fx.redraw();
            return NavStep::States;
        }
        if self.menu.open {
            fx.redraw();
            return NavStep::PickRow;
        }
        if items.len() == 0 {
            return NavStep::NotTaken;
        }
        self.settle(items);
        let t: NavTarget = match self.nav.focus {
            Some(t) => t,
            None => {
                self.nav_show(Some(items[0].target), now);
                fx.redraw();
                return NavStep::Done;
            },
        };
        if !self.nav.showing {
            self.nav_show(Some(t), now);
            fx.redraw();
            return NavStep::Done;
        }
        let stepper: bool = match t {
            NavTarget::Ui(Place::Cycle(_, _)) => true,
            NavTarget::Bar(BarControl::Volume) => true,
            _ => false,
        };
        if stepper {
            self.nav.toggle_open();
            fx.redraw();
            return NavStep::Done;
        }
        NavStep::Work(t)
    }

    /// The focus after its control was worked, before it settles: back on the
    /// row that a tick was reached from, or at the entry of the page that the
    /// control opened.
    pub open spec fn after_work(&self, focus: NavTarget, items: Seq<NavItem>) -> Ui {
        let entered = if focus matches NavTarget::Ui(p) && (p is Tab || p is NavTab) {
            Ui { entered_from: Some(focus), ..*self }
        } else {
            *self
        };
        let back = match cell_left(items, focus) {
            Some(row) => Ui { nav: Nav::shown_at(Some(row)), ..entered },
            None => entered,
        };
        let entry = page_entry(items, column_edge(items, self.column()));
        if !has_place(items, focus) && entry is Some {
            Ui { nav: Nav::shown_at(entry), ..back }
        } else {
            back
        }
    }

    /// A control worked by the focus starts the machine: the run button, or a
    /// game of the list.
    pub open spec fn starts_machine(focus: NavTarget) -> bool {
        in_library(Some(focus)) || focus == NavTarget::Ui(Place::Run)
    }

    /// The control that the focus stood on was worked, and `items` is what is
    /// there now. A machine that started takes the mouse where the mode does
    /// that by itself.
    pub fn nav_worked(&mut self, fx: &mut Effects, focus: NavTarget, items: &Vec<NavItem>)
        requires
            old(self).wf(),
        ensures
            final(self).wf(),
            old(self).after_work(focus, items@).settled(items@).followed(final(self)),
            final(fx)@ == old(fx)@ + (if Ui::starts_machine(focus) && old(self).panel is None {
                seq![Effect::AutoCaptureMouse, Effect::Redraw]
            } else {
                seq![Effect::Redraw]
            }),
    {
        let starts: bool = nav_focus_in_library(Some(focus)) || match focus {
            NavTarget::Ui(Place::Run) => true,
            _ => false,
        };
        match focus {
            NavTarget::Ui(Place::Tab(_)) | NavTarget::Ui(Place::NavTab(_)) => {
                self.entered_from = Some(focus);
            },
            _ => {},
        }
        match nav_cell_left(items, focus) {
            Some(row) => {
                self.nav.show(Some(row));
            },
            None => {},
        }
        if starts && self.panel.is_none() {
            fx.push(Effect::AutoCaptureMouse);
        }
        if find(items, focus).is_none() {
            let entry: Option<NavTarget> = nav_page_entry(items, self.column_of());
            if entry.is_some() {
                self.nav.show(entry);
            }
        }
        assert(*self == old(self).after_work(focus, items@));
        self.settle(items);
        self.follow();
        fx.redraw();
        assert(fx@ =~= old(fx)@ + (if Ui::starts_machine(focus) && old(self).panel is None {
            seq![Effect::AutoCaptureMouse, Effect::Redraw]
        } else {
            seq![Effect::Redraw]
        }));
    }

    /// The panel is gone, and with it the surface that the focus walked.
    pub open spec fn unpanelled(&self) -> Ui {
        Ui { panel: None, nav: Nav::hidden(), entered_from: None, ..*self }
    }

    pub fn close_panel(&mut self, fx: &mut Effects)
        ensures
            *final(self) == old(self).unpanelled(),
            final(fx)@ == old(fx)@.push(Effect::Redraw),
    {
        self.panel = None;
        self.nav.clear();
        self.entered_from = None;
        fx.redraw();
    }

    /// The focus is inside a page that it came into by a button which is
    /// still there.
    pub open spec fn inside_page(&self, items: Seq<NavItem>, in_page: bool) -> bool {
        &&& self.entered_from matches Some(e) && has_place(items, e) && self.nav.focus != Some(e)
        &&& self.nav.focus is Some && in_page
    }

    /// One step back out: an open stepper closes, then a question, then a
    /// level of the menu, then the page, then the panel.
    pub open spec fn backed_out(&self, n: &Ui, items: Seq<NavItem>, in_page: bool, now: u64) -> bool {
        if self.nav.open {
            *n == (Ui { nav: Nav { open: false, ..self.nav }, ..*self })
        } else if self.panel matches Some(Panel::States { confirm_delete }) && confirm_delete {
            *n == (Ui { panel: Some(Panel::States { confirm_delete: false }), ..*self })
        } else if self.menu.open {
            &&& *n == (Ui { menu: n.menu, ..*self })
            &&& if self.menu.path@.len() > 0 {
                &&& n.menu.same_menu(&self.menu)
                &&& n.menu.stand() == (
                    self.menu.path@.drop_last(),
                    Some(self.menu.path@.last()),
                    self.menu.hover_arm,
                )
            } else {
                n.menu.is_shut()
            }
        } else if self.inside_page(items, in_page) {
            *n == (Ui { entered_from: None, ..self.showing(self.entered_from, now) })
        } else if self.panel is Some {
            *n == self.unpanelled()
        } else {
            *n == *self
        }
    }

    /// Steps back out; `in_page` says whether the focus is on a setting of
    /// the page.
    pub fn nav_back(&mut self, fx: &mut Effects, items: &Vec<NavItem>, in_page: bool, now: u64)
        requires
            old(self).wf(),
        ensures
            final(self).wf(),
            old(self).backed_out(final(self), items@, in_page, now),
            final(fx)@ == (if old(self).nav.open || old(self).menu.open || old(self).panel is Some
                || old(self).inside_page(items@, in_page) {
                old(fx)@.push(Effect::Redraw)
            } else {
                old(fx)@
            }),
    {
        if self.nav.open {
            self.nav.open = false;
            fx.redraw();
            return;
        }
        let asks: bool = match &self.panel {
            Some(Panel::States { confirm_delete }) => *confirm_delete,
            _ => false,
        };
        if asks {
            self.panel = Some(Panel::States { confirm_delete: false });
            fx.redraw();
            return;
        }
        if self.menu.open {
            if !self.menu.ascend() {
                self.menu.close_menu();
            }
            fx.redraw();
            return;
        }
        match self.entered_from {
            Some(e) => {
                let elsewhere: bool = match self.nav.focus {
                    Some(t) => t != e,
                    None => false,
                };
                if in_page && elsewhere && find(items, e).is_some() {
                    self.entered_from = None;
                    self.nav_show(Some(e), now);
                    fx.redraw();
                    return;
                }
            },
            None => {},
        }
        if self.panel.is_some() {
            self.close_panel(fx);
        }
    }

    /// The control of a surface that is lit: a stepper's two arrows are one
    /// place, whichever of them the focus stands on.
    pub open spec fn lit(&self) -> Option<Place> {
        match self.nav.focus {
            Some(NavTarget::Ui(p)) => if !self.nav.showing {
                None
            } else {
                match p {
                    Place::Cycle(f, _) => Some(Place::Cycle(f, false)),
                    _ => Some(p),
                }
            },
            _ => None,
        }
    }

    pub fn nav_light(&self) -> (r: Option<Place>)
        ensures
            r == self.lit(),
    {
        if !self.nav.showing {
            return None;
        }
        match self.nav.focus {
            Some(NavTarget::Ui(Place::Cycle(f, _))) => Some(Place::Cycle(f, false)),
            Some(NavTarget::Ui(p)) => Some(p),
            _ => None,
        }
    }

    /// The button of the status bar that is lit.
    pub fn nav_bar_light(&self) -> (r: Option<BarControl>)
        ensures
            r == (match self.nav.focus {
                Some(NavTarget::Bar(c)) => if self.nav.showing {
                    Some(c)
                } else {
                    None
                },
                _ => None,
            }),
    {
        if !self.nav.showing {
            return None;
        }
        match self.nav.focus {
            Some(NavTarget::Bar(c)) => Some(c),
            _ => None,
        }
    }

    /// How far the marker is through its breath, in milliseconds.
    pub fn nav_phase(&self, now: u64) -> (r: u64)
        ensures
            r == crate::menu::since(now, self.shown_at) % 1700,
    {
        let held: u64 = if now >= self.shown_at {
            now - self.shown_at
        } else {
            0
        };
        held % 1700
    }
}

/// Whatever is open, pressing back often enough leads out: each press that
/// finds something open leaves less of it open.
pub proof fn lemma_back_leads_out(
    o: Ui,
    n: Ui,
    items: Seq<NavItem>,
    in_page: bool,
    now: u64,
)
    requires
        o.backed_out(&n, items, in_page, now),
    ensures
        n != o || (!o.nav.open && !o.menu.open && o.panel is None),
        o.menu.open && n.menu.open && !o.nav.open ==> n.menu.path@.len() < o.menu.path@.len()
            || n.panel != o.panel,
        !o.nav.open && !o.menu.open && !o.inside_page(items, in_page) && !o.browses()
            ==> n.panel is None,
{
}

/// A press on a marker that nobody could see works nothing.
pub proof fn lemma_unseen_focus_is_not_worked(
    o: Ui,
    n: Ui,
    items: Seq<NavItem>,
    now: u64,
    t: NavTarget,
)
    requires
        o.pressed(&n, items, now, NavStep::Work(t)),
    ensures
        o.nav.showing,
        has_place(items, t),
{
}

} // verus!
