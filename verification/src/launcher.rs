//! The configuration screen, as far as walking it goes: its lists, its
//! dialogs, and the steps that the places on the screen do not answer by where
//! they are drawn.

use vstd::prelude::*;

use crate::entry::LoginDialog;
use crate::entry::MetaDialog;
use crate::entry::TextEdit;
use crate::nav::Dir;
use crate::nav::LoginField;
use crate::nav::NavItem;
use crate::nav::NavTarget;
use crate::nav::Place;
use crate::nav::find;
use crate::nav::has_place;
use crate::nav::is_action;
use crate::nav::is_at;
use crate::nav::launcher_action_control;

verus! {

/// The list of the library page that has the focus.
#[derive(Clone, Copy, PartialEq, Eq, Structural, Debug)]
pub enum LibraryFocus {
    Games,
    Favourites,
}

/// A move along a list.
#[derive(Clone, Copy, PartialEq, Eq, Structural, Debug)]
pub enum ListStep {
    First,
    Last,
    /// Back by so many rows.
    Back(usize),
    /// On by so many rows.
    On(usize),
}

/// The row that a move along a list of `len` rows leads to; it stops at the
/// ends.
pub open spec fn stepped(at: int, len: int, step: ListStep) -> int {
    if len <= 0 {
        at
    } else {
        match step {
            ListStep::First => 0,
            ListStep::Last => len - 1,
            ListStep::Back(n) => if at - n < 0 {
                0
            } else if at - n > len - 1 {
                len - 1
            } else {
                at - n
            },
            ListStep::On(n) => if at + n > len - 1 {
                len - 1
            } else {
                at + n
            },
        }
    }
}

/// The first row drawn, so that row `at` is among the `visible` ones.
pub open spec fn scrolled(scroll: int, at: int, visible: int) -> int {
    if at < scroll {
        at
    } else if visible > 0 && at >= scroll + visible {
        at - visible + 1
    } else {
        scroll
    }
}

fn step_row(at: usize, len: usize, step: ListStep) -> (r: usize)
    ensures
        r == stepped(at as int, len as int, step),
{
    if len == 0 {
        return at;
    }
    match step {
        ListStep::First => 0,
        ListStep::Last => len - 1,
        ListStep::Back(n) => {
            let to: usize = if at < n {
                0
            } else {
                at - n
            };
            if to > len - 1 {
                len - 1
            } else {
                to
            }
        },
        ListStep::On(n) => if at > len - 1 || n > len - 1 - at {
            len - 1
        } else {
            at + n
        },
    }
}

fn scroll_to(scroll: usize, at: usize, visible: usize) -> (r: usize)
    ensures
        r == scrolled(scroll as int, at as int, visible as int),
{
    if at < scroll {
        at
    } else if visible > 0 && at - scroll >= visible {
        at - visible + 1
    } else {
        scroll
    }
}

/// The two lists of the library page: what is chosen in each, and how far
/// each is scrolled.
#[derive(Clone, Copy, PartialEq, Eq, Structural, Debug)]
pub struct Library {
    pub focus: LibraryFocus,
    pub games: usize,
    pub selected: usize,
    pub scroll: usize,
    pub favourites: usize,
    pub favourite_selected: usize,
    pub favourite_scroll: usize,
}

impl Library {
    pub open spec fn at(self) -> int {
        match self.focus {
            LibraryFocus::Games => self.selected as int,
            LibraryFocus::Favourites => self.favourite_selected as int,
        }
    }

    pub open spec fn len(self) -> int {
        match self.focus {
            LibraryFocus::Games => self.games as int,
            LibraryFocus::Favourites => self.favourites as int,
        }
    }

    /// The list with the focus has run out this way.
    pub open spec fn ended(self, back: bool) -> bool {
        self.len() == 0 || if back {
            self.at() == 0
        } else {
            self.at() + 1 >= self.len()
        }
    }

    /// The list with the focus after a move along it.
    pub open spec fn walked(self, step: ListStep, visible: usize) -> Library {
        let to = stepped(self.at(), self.len(), step);
        match self.focus {
            LibraryFocus::Games => Library {
                selected: to as usize,
                scroll: scrolled(self.scroll as int, to, visible as int) as usize,
                ..self
            },
            LibraryFocus::Favourites => Library {
                favourite_selected: to as usize,
                favourite_scroll: scrolled(
                    self.favourite_scroll as int,
                    to,
                    visible as int,
                ) as usize,
                ..self
            },
        }
    }

    /// Where the chosen row of a list is drawn, counted from its first drawn
    /// row.
    pub open spec fn drawn(self, games: bool) -> int {
        let (at, scroll) = if games {
            (self.selected as int, self.scroll as int)
        } else {
            (self.favourite_selected as int, self.favourite_scroll as int)
        };
        if at >= scroll {
            at - scroll
        } else {
            0
        }
    }

    pub fn library_at_end(&self, back: bool) -> (r: bool)
        ensures
            r == self.ended(back),
    {
        let (at, len): (usize, usize) = match self.focus {
            LibraryFocus::Games => (self.selected, self.games),
            LibraryFocus::Favourites => (self.favourite_selected, self.favourites),
        };
        len == 0 || if back {
            at == 0
        } else {
            at >= len - 1
        }
    }

    pub fn step_library_focus(&mut self, step: ListStep, visible: usize)
        ensures
            *final(self) == old(self).walked(step, visible),
    {
        match self.focus {
            LibraryFocus::Games => {
                self.selected = step_row(self.selected, self.games, step);
                self.scroll = scroll_to(self.scroll, self.selected, visible);
            },
            LibraryFocus::Favourites => {
                self.favourite_selected = step_row(self.favourite_selected, self.favourites, step);
                self.favourite_scroll = scroll_to(
                    self.favourite_scroll,
                    self.favourite_selected,
                    visible,
                );
            },
        }
    }

    fn drawn_row(&self, games: bool) -> (r: usize)
        ensures
            r == self.drawn(games),
    {
        let (at, scroll): (usize, usize) = if games {
            (self.selected, self.scroll)
        } else {
            (self.favourite_selected, self.favourite_scroll)
        };
        if at >= scroll {
            at - scroll
        } else {
            0
        }
    }
}

/// A move along a list always ends on a row of it, and that row is drawn.
pub proof fn lemma_step_stays_in_view(l: Library, step: ListStep, visible: usize)
    requires
        l.len() > 0,
        visible > 0,
    ensures
        ({
            let n = l.walked(step, visible);
            let scroll = if l.focus is Games {
                n.scroll
            } else {
                n.favourite_scroll
            };
            &&& 0 <= n.at() < n.len()
            &&& scroll <= n.at() < scroll + visible
            &&& n.len() == l.len()
        }),
{
}

/// The list of the host's disks: how many there are, and the first drawn.
#[derive(Clone, Copy, PartialEq, Eq, Structural, Debug)]
pub struct HostDisks {
    pub count: usize,
    pub scroll: usize,
}

impl HostDisks {
    /// The row that a step off the drawn ones leads to.
    pub open spec fn beyond(self, at: int, dir: Dir, visible: int) -> Option<int> {
        if dir is Down && at + 1 < self.count && at + 1 >= self.scroll + visible {
            Some(at + 1)
        } else if dir is Up && at > 0 && at - 1 < self.scroll {
            Some(at - 1)
        } else {
            None
        }
    }

    /// The list scrolled by one row, not past its ends.
    pub open spec fn shifted(self, down: bool, visible: int) -> HostDisks {
        HostDisks {
            scroll: if down {
                if self.scroll + visible < self.count {
                    (self.scroll + 1) as usize
                } else {
                    self.scroll
                }
            } else if self.scroll > 0 {
                (self.scroll - 1) as usize
            } else {
                0
            },
            ..self
        }
    }

    fn beyond_row(&self, at: usize, dir: Dir, visible: usize) -> (r: Option<usize>)
        ensures
            r is Some == self.beyond(at as int, dir, visible as int) is Some,
            r matches Some(n) ==> self.beyond(at as int, dir, visible as int) == Some(n as int),
    {
        match dir {
            Dir::Down => {
                if self.count > 0 && at < self.count - 1 && at + 1 >= self.scroll && at + 1
                    - self.scroll >= visible {
                    Some(at + 1)
                } else {
                    None
                }
            },
            Dir::Up => if at > 0 && at - 1 < self.scroll {
                Some(at - 1)
            } else {
                None
            },
            _ => None,
        }
    }

    fn shift(&mut self, down: bool, visible: usize)
        ensures
            *final(self) == old(self).shifted(down, visible as int),
    {
        if down {
            if self.scroll < self.count && visible < self.count - self.scroll {
                self.scroll = self.scroll + 1;
            }
        } else if self.scroll > 0 {
            self.scroll = self.scroll - 1;
        }
    }
}

/// Which row of the disk list a control belongs to.
pub open spec fn disk_row(p: Place) -> Option<usize> {
    match p {
        Place::HostDiskSelect(at) => Some(at),
        Place::HostDiskAttach(at) => Some(at),
        Place::HostDiskWritable(at) => Some(at),
        Place::HostDiskEnable(at) => Some(at),
        _ => None,
    }
}

pub fn host_disk_row_of(p: Place) -> (r: Option<usize>)
    ensures
        r == disk_row(p),
{
    match p {
        Place::HostDiskSelect(at) => Some(at),
        Place::HostDiskAttach(at) => Some(at),
        Place::HostDiskWritable(at) => Some(at),
        Place::HostDiskEnable(at) => Some(at),
        _ => None,
    }
}

/// The same control on another row.
pub open spec fn on_disk_row(p: Place, at: usize) -> Place {
    match p {
        Place::HostDiskAttach(_) => Place::HostDiskAttach(at),
        Place::HostDiskWritable(_) => Place::HostDiskWritable(at),
        Place::HostDiskEnable(_) => Place::HostDiskEnable(at),
        _ => Place::HostDiskSelect(at),
    }
}

pub fn host_disk_row_at(p: Place, at: usize) -> (r: Place)
    ensures
        r == on_disk_row(p, at),
{
    match p {
        Place::HostDiskAttach(_) => Place::HostDiskAttach(at),
        Place::HostDiskWritable(_) => Place::HostDiskWritable(at),
        Place::HostDiskEnable(_) => Place::HostDiskEnable(at),
        _ => Place::HostDiskSelect(at),
    }
}

/// What sits left of a cell drawn inside a row, if this is one.
pub open spec fn row_beside(t: NavTarget) -> Option<NavTarget> {
    match t {
        NavTarget::Ui(Place::LibraryFavourite(at)) => Some(NavTarget::Ui(Place::LibraryPick(at))),
        NavTarget::Ui(Place::LibraryFavouriteRemove(at)) => Some(
            NavTarget::Ui(Place::LibraryFavouritePick(at)),
        ),
        NavTarget::Ui(Place::HostDiskAttach(at)) => Some(NavTarget::Ui(Place::HostDiskSelect(at))),
        NavTarget::Ui(Place::HostDiskWritable(at)) => Some(
            NavTarget::Ui(Place::HostDiskAttach(at)),
        ),
        NavTarget::Ui(Place::HostDiskEnable(at)) => Some(
            NavTarget::Ui(Place::HostDiskWritable(at)),
        ),
        _ => None,
    }
}

pub fn nav_row_beside(t: NavTarget) -> (r: Option<NavTarget>)
    ensures
        r == row_beside(t),
{
    match t {
        NavTarget::Ui(Place::LibraryFavourite(at)) => Some(NavTarget::Ui(Place::LibraryPick(at))),
        NavTarget::Ui(Place::LibraryFavouriteRemove(at)) => Some(
            NavTarget::Ui(Place::LibraryFavouritePick(at)),
        ),
        NavTarget::Ui(Place::HostDiskAttach(at)) => Some(NavTarget::Ui(Place::HostDiskSelect(at))),
        NavTarget::Ui(Place::HostDiskWritable(at)) => Some(
            NavTarget::Ui(Place::HostDiskAttach(at)),
        ),
        NavTarget::Ui(Place::HostDiskEnable(at)) => Some(
            NavTarget::Ui(Place::HostDiskWritable(at)),
        ),
        _ => None,
    }
}

/// How many cells a row has up to this one.
pub open spec fn cells_before(t: NavTarget) -> nat {
    match t {
        NavTarget::Ui(Place::HostDiskEnable(_)) => 3,
        NavTarget::Ui(Place::HostDiskWritable(_)) => 2,
        NavTarget::Ui(_) => 1,
        NavTarget::Bar(_) => 0,
    }
}

/// The places that a page is searched for.
#[derive(Clone, Copy, PartialEq, Eq, Structural, Debug)]
pub enum Want {
    /// The letters over the game list.
    Letters,
    /// The rows of the game list.
    Games,
    /// The row of sibling pages.
    Pages,
    /// The settings, from this far right.
    Settings(u64),
    /// The buttons under the game list.
    ListButtons,
}

pub open spec fn is_setting(p: Place) -> bool {
    !(p is Tab) && !(p is NavTab) && !(p is Model) && !(p is PanelClose) && !is_action(p)
}

pub open spec fn wanted(i: NavItem, want: Want) -> bool {
    match (want, i.target) {
        (Want::Letters, NavTarget::Ui(p)) => p is LibraryJump,
        (Want::Games, NavTarget::Ui(p)) => p is LibraryPick,
        (Want::Pages, NavTarget::Ui(p)) => p is NavTab,
        (Want::Settings(from), NavTarget::Ui(p)) => is_setting(p) && i.x >= from,
        (Want::ListButtons, NavTarget::Ui(p)) => p is LibraryRefresh || p is LibraryUpdate
            || p is LibraryEdit,
        _ => false,
    }
}

/// What the wanted places are ordered by: across, down, or down and then
/// across.
pub open spec fn rank(i: NavItem, want: Want) -> (int, int) {
    match want {
        Want::Letters => (i.x as int, 0),
        Want::ListButtons => (i.x as int, 0),
        Want::Games => (i.y as int, 0),
        _ => (i.y as int, i.x as int),
    }
}

pub open spec fn before(a: (int, int), b: (int, int)) -> bool {
    a.0 < b.0 || (a.0 == b.0 && a.1 < b.1)
}

/// The place at `i` is wanted, none that is wanted ranks before it, and none
/// in front of it ranks as it does.
pub open spec fn is_foremost(items: Seq<NavItem>, want: Want, i: int) -> bool {
    &&& 0 <= i < items.len()
    &&& wanted(items[i], want)
    &&& forall|j: int|
        0 <= j < items.len() && wanted(#[trigger] items[j], want) ==> {
            &&& !before(rank(items[j], want), rank(items[i], want))
            &&& j < i ==> before(rank(items[i], want), rank(items[j], want))
        }
}

pub open spec fn any_wanted(items: Seq<NavItem>, want: Want) -> bool {
    exists|j: int| 0 <= j < items.len() && wanted(#[trigger] items[j], want)
}

/// The target of the foremost place, or none where nothing is wanted.
pub open spec fn foremost(items: Seq<NavItem>, want: Want) -> Option<NavTarget> {
    if any_wanted(items, want) {
        Some(items[choose|i: int| is_foremost(items, want, i)].target)
    } else {
        None
    }
}

/// There is one foremost place at most.
proof fn lemma_foremost(items: Seq<NavItem>, want: Want, i: int)
    requires
        is_foremost(items, want, i),
    ensures
        foremost(items, want) == Some(items[i].target),
{
    let k = choose|k: int| is_foremost(items, want, k);
    assert(is_foremost(items, want, k));
    assert(wanted(items[i], want));
    assert(wanted(items[k], want));
    assert(any_wanted(items, want));
    assert(k == i);
}

/// Where anything is wanted there is a foremost place.
proof fn lemma_some_is_foremost(items: Seq<NavItem>, want: Want) -> (i: int)
    requires
        any_wanted(items, want),
    ensures
        is_foremost(items, want, i),
    decreases items.len(),
{
    let head = items.drop_last();
    let last = items.len() - 1;
    assert(forall|j: int| 0 <= j < last ==> #[trigger] items[j] == head[j]);
    if any_wanted(head, want) {
        let k = lemma_some_is_foremost(head, want);
        if wanted(items[last], want) && before(rank(items[last], want), rank(items[k], want)) {
            last
        } else {
            k
        }
    } else {
        assert(forall|j: int| 0 <= j < last ==> !wanted(#[trigger] items[j], want)) by {
            assert(forall|j: int| 0 <= j < last ==> !wanted(#[trigger] head[j], want));
        }
        last
    }
}

/// The letter that a page is entered at is the leftmost, the game the topmost, and the
/// setting or page the topmost and of those the leftmost.
pub proof fn lemma_entries_lie_first(items: Seq<NavItem>, want: Want, t: NavTarget, j: int)
    requires
        foremost(items, want) == Some(t),
        0 <= j < items.len(),
        wanted(items[j], want),
    ensures
        want is Letters || want is ListButtons ==> exists|i: int|
            0 <= i < items.len() && (#[trigger] items[i]).target == t && items[i].x <= items[j].x,
        want is Games ==> exists|i: int|
            0 <= i < items.len() && (#[trigger] items[i]).target == t && items[i].y <= items[j].y,
        want is Pages || want is Settings ==> exists|i: int|
            0 <= i < items.len() && (#[trigger] items[i]).target == t && (items[i].y < items[j].y
                || (items[i].y == items[j].y && items[i].x <= items[j].x)),
{
    let k = lemma_some_is_foremost(items, want);
    lemma_foremost(items, want, k);
    assert(items[k].target == t);
}

fn is_wanted(i: NavItem, want: Want) -> (r: bool)
    ensures
        r == wanted(i, want),
{
    let p: Place = match i.target {
        NavTarget::Ui(p) => p,
        NavTarget::Bar(_) => {
            return false;
        },
    };
    match want {
        Want::Letters => match p {
            Place::LibraryJump(_) => true,
            _ => false,
        },
        Want::Games => match p {
            Place::LibraryPick(_) => true,
            _ => false,
        },
        Want::Pages => match p {
            Place::NavTab(_) => true,
            _ => false,
        },
        Want::Settings(from) => {
            let other: bool = match p {
                Place::Tab(_) | Place::NavTab(_) | Place::Model(_) | Place::PanelClose => true,
                _ => false,
            };
            !other && !launcher_action_control(p) && i.x as u64 >= from
        },
        Want::ListButtons => match p {
            Place::LibraryRefresh | Place::LibraryUpdate | Place::LibraryEdit => true,
            _ => false,
        },
    }
}

fn ranks_before(a: NavItem, b: NavItem, want: Want) -> (r: bool)
    ensures
        r == before(rank(a, want), rank(b, want)),
{
    match want {
        Want::Letters | Want::ListButtons => a.x < b.x,
        Want::Games => a.y < b.y,
        _ => a.y < b.y || (a.y == b.y && a.x < b.x),
    }
}

/// The foremost of the wanted places.
pub fn find_foremost(items: &Vec<NavItem>, want: Want) -> (r: Option<NavTarget>)
    ensures
        r == foremost(items@, want),
{
    let mut best: Option<usize> = None;
    let mut i: usize = 0;
    while i < items.len()
        invariant
            i <= items@.len(),
            match best {
                Some(b) => b < i && is_foremost(items@.take(i as int), want, b as int),
                None => !any_wanted(items@.take(i as int), want),
            },
        decreases items@.len() - i,
    {
        let ghost was = items@.take(i as int);
        let ghost now = items@.take(i + 1);
        proof {
            assert forall|j: int| 0 <= j < i implies now[j] == was[j] by {}
            assert(now[i as int] == items@[i as int]);
        }
        if is_wanted(items[i], want) {
            let better: bool = match best {
                Some(b) => ranks_before(items[i], items[b], want),
                None => true,
            };
            if better {
                proof {
                    if best is None {
                        assert forall|j: int|
                            0 <= j < now.len() && wanted(#[trigger] now[j], want) implies j
                            == i by {
                            if j < i {
                                assert(wanted(was[j], want));
                            }
                        }
                    } else {
                        assert forall|j: int|
                            0 <= j < now.len() && wanted(#[trigger] now[j], want) implies {
                            &&& !before(rank(now[j], want), rank(now[i as int], want))
                            &&& j < i ==> before(rank(now[i as int], want), rank(now[j], want))
                        } by {
                            if j < i {
                                assert(wanted(was[j], want));
                            }
                        }
                    }
                    assert(is_foremost(now, want, i as int));
                }
                best = Some(i);
            } else {
                proof {
                    let b = best.unwrap() as int;
                    assert(is_foremost(was, want, b));
                    assert forall|j: int|
                        0 <= j < now.len() && wanted(#[trigger] now[j], want) implies {
                        &&& !before(rank(now[j], want), rank(now[b], want))
                        &&& j < b ==> before(rank(now[b], want), rank(now[j], want))
                    } by {
                        if j < i {
                            assert(wanted(was[j], want));
                        }
                    }
                    assert(wanted(was[b], want));
                    assert(is_foremost(now, want, b));
                }
            }
        } else {
            proof {
                match best {
                    Some(b) => {
                        assert forall|j: int|
                            0 <= j < now.len() && wanted(#[trigger] now[j], want) implies {
                            &&& !before(rank(now[j], want), rank(now[b as int], want))
                            &&& j < b ==> before(rank(now[b as int], want), rank(now[j], want))
                        } by {
                            assert(j < i);
                            assert(wanted(was[j], want));
                        }
                        assert(is_foremost(now, want, b as int));
                    },
                    None => {
                        if any_wanted(now, want) {
                            let j = choose|j: int|
                                0 <= j < now.len() && wanted(#[trigger] now[j], want);
                            assert(j < i);
                            assert(wanted(was[j], want));
                        }
                    },
                }
            }
        }
        i += 1;
    }
    assert(items@.take(i as int) =~= items@);
    match best {
        Some(b) => {
            proof {
                lemma_foremost(items@, want, b as int);
            }
            Some(items[b].target)
        },
        None => None,
    }
}

/// The target, where there is a place for it.
pub open spec fn placed(items: Seq<NavItem>, p: Place) -> Option<NavTarget> {
    if has_place(items, NavTarget::Ui(p)) {
        Some(NavTarget::Ui(p))
    } else {
        None
    }
}

pub open spec fn or_else(a: Option<NavTarget>, b: Option<NavTarget>) -> Option<NavTarget> {
    if a is Some {
        a
    } else {
        b
    }
}

fn place_of(items: &Vec<NavItem>, p: Place) -> (r: Option<NavTarget>)
    ensures
        r == placed(items@, p),
{
    if find(items, NavTarget::Ui(p)).is_some() {
        Some(NavTarget::Ui(p))
    } else {
        None
    }
}

fn first_some(a: Option<NavTarget>, b: Option<NavTarget>) -> (r: Option<NavTarget>)
    ensures
        r == or_else(a, b),
{
    if a.is_some() {
        a
    } else {
        b
    }
}

/// Where a step to the right off a cell of one of the lists goes: along the
/// cells of its row, and then out of the list.
pub open spec fn cell_right(items: Seq<NavItem>, p: Place) -> Option<NavTarget> {
    let buttons = foremost(items, Want::ListButtons);
    let run = placed(items, Place::Run);
    let mount = placed(items, Place::HostDiskMount);
    match p {
        Place::LibraryPick(at) => or_else(placed(items, Place::LibraryFavourite(at)), buttons),
        Place::LibraryFavourite(_) => buttons,
        Place::LibraryFavouritePick(at) => or_else(
            placed(items, Place::LibraryFavouriteRemove(at)),
            run,
        ),
        Place::LibraryFavouriteRemove(_) => run,
        Place::HostDiskSelect(at) => or_else(
            placed(items, Place::HostDiskAttach(at)),
            or_else(placed(items, Place::HostDiskWritable(at)), mount),
        ),
        Place::HostDiskAttach(at) => or_else(placed(items, Place::HostDiskWritable(at)), mount),
        Place::HostDiskWritable(at) => or_else(placed(items, Place::HostDiskEnable(at)), mount),
        Place::HostDiskEnable(_) => mount,
        _ => None,
    }
}

/// Where a step to the left off a cell of one of the lists goes: to the next
/// cell of its row that can be stood on, and in the end to the row itself.
pub open spec fn cell_left(items: Seq<NavItem>, t: NavTarget) -> Option<NavTarget>
    decreases cells_before(t),
{
    match row_beside(t) {
        Some(b) => if has_place(items, b) {
            Some(b)
        } else if row_beside(b) is Some {
            cell_left(items, b)
        } else {
            None
        },
        None => None,
    }
}

pub fn nav_cell_left(items: &Vec<NavItem>, t: NavTarget) -> (r: Option<NavTarget>)
    ensures
        r == cell_left(items@, t),
    decreases cells_before(t),
{
    match nav_row_beside(t) {
        Some(b) => if find(items, b).is_some() {
            Some(b)
        } else if nav_row_beside(b).is_some() {
            nav_cell_left(items, b)
        } else {
            None
        },
        None => None,
    }
}

/// Where a step across a row of one of the lists goes. A row is as wide as
/// its box and its cells are drawn inside it, so nothing is beside either by
/// where it is drawn.
pub open spec fn row_across(items: Seq<NavItem>, focus: Option<NavTarget>, dir: Dir) -> Option<
    NavTarget,
> {
    match focus {
        None => None,
        Some(t) => match dir {
            Dir::Left => cell_left(items, t),
            Dir::Right => match t {
                NavTarget::Ui(p) => cell_right(items, p),
                NavTarget::Bar(_) => None,
            },
            _ => None,
        },
    }
}

pub fn nav_row_across(items: &Vec<NavItem>, focus: Option<NavTarget>, dir: Dir) -> (r: Option<
    NavTarget,
>)
    ensures
        r == row_across(items@, focus, dir),
{
    let t: NavTarget = match focus {
        Some(t) => t,
        None => {
            return None;
        },
    };
    match dir {
        Dir::Left => nav_cell_left(items, t),
        Dir::Right => {
            let p: Place = match t {
                NavTarget::Ui(p) => p,
                NavTarget::Bar(_) => {
                    return None;
                },
            };
            let mount: Option<NavTarget> = place_of(items, Place::HostDiskMount);
            match p {
                Place::LibraryPick(at) => first_some(
                    place_of(items, Place::LibraryFavourite(at)),
                    find_foremost(items, Want::ListButtons),
                ),
                Place::LibraryFavourite(_) => find_foremost(items, Want::ListButtons),
                Place::LibraryFavouritePick(at) => first_some(
                    place_of(items, Place::LibraryFavouriteRemove(at)),
                    place_of(items, Place::Run),
                ),
                Place::LibraryFavouriteRemove(_) => place_of(items, Place::Run),
                Place::HostDiskSelect(at) => first_some(
                    place_of(items, Place::HostDiskAttach(at)),
                    first_some(place_of(items, Place::HostDiskWritable(at)), mount),
                ),
                Place::HostDiskAttach(at) => first_some(
                    place_of(items, Place::HostDiskWritable(at)),
                    mount,
                ),
                Place::HostDiskWritable(at) => first_some(
                    place_of(items, Place::HostDiskEnable(at)),
                    mount,
                ),
                Place::HostDiskEnable(_) => mount,
                _ => None,
            }
        },
        _ => None,
    }
}

/// Left undoes right along the cells of a row: where a step right went to a
/// cell of the row, the step left comes back from it.
pub proof fn lemma_left_undoes_right(items: Seq<NavItem>, from: NavTarget, to: NavTarget)
    requires
        has_place(items, from),
        row_across(items, Some(from), Dir::Right) == Some(to),
        row_beside(to) is Some,
    ensures
        row_across(items, Some(to), Dir::Left) == Some(from),
{
    reveal_with_fuel(cell_left, 3);
    if any_wanted(items, Want::ListButtons) {
        let i = lemma_some_is_foremost(items, Want::ListButtons);
        lemma_foremost(items, Want::ListButtons, i);
    }
}

/// The configuration screen.
#[derive(PartialEq, Eq, Debug)]
pub struct Launcher {
    /// The button of the column that the page belongs to.
    pub column: u8,
    /// The page is the library.
    pub library_page: bool,
    pub save_dialog: bool,
    pub confirm_reset: bool,
    pub login: Option<LoginDialog>,
    pub meta: Option<MetaDialog>,
    /// The text box of an option that is being typed into.
    pub editing: Option<TextEdit>,
    pub library: Library,
    pub disks: HostDisks,
}

pub open spec fn meta_order(fields: int) -> Seq<NavTarget> {
    seq![NavTarget::Ui(Place::MetaArt)] + Seq::new(
        fields as nat,
        |i: int| NavTarget::Ui(Place::MetaField(i as usize)),
    ) + seq![
        NavTarget::Ui(Place::MetaSave),
        NavTarget::Ui(Place::MetaClear),
        NavTarget::Ui(Place::MetaCancel),
    ]
}

pub open spec fn login_order() -> Seq<NavTarget> {
    seq![
        NavTarget::Ui(Place::LoginField(LoginField::User)),
        NavTarget::Ui(Place::LoginField(LoginField::Pass)),
        NavTarget::Ui(Place::LoginOk),
        NavTarget::Ui(Place::LoginCancel),
    ]
}

pub open spec fn first_at(order: Seq<NavTarget>, t: NavTarget, i: int) -> bool {
    0 <= i < order.len() && order[i] == t && forall|j: int| 0 <= j < i ==> order[j] != t
}

/// The next place along a dialog's order.
pub open spec fn along(order: Seq<NavTarget>, focus: Option<NavTarget>, dir: Dir, r: Option<NavTarget>) -> bool {
    if order.len() == 0 {
        r is None
    } else {
        match focus {
            None => r == Some(order[0]),
            Some(t) => {
                &&& !order.contains(t) ==> r is None
                &&& forall|i: int| #[trigger]
                    first_at(order, t, i) ==> r == (match dir {
                        Dir::Down => if i + 1 < order.len() {
                            Some(order[i + 1])
                        } else {
                            None
                        },
                        Dir::Up => if i > 0 {
                            Some(order[i - 1])
                        } else {
                            None
                        },
                        _ => None,
                    })
            },
        }
    }
}

impl Launcher {
    pub open spec fn wf(&self) -> bool {
        &&& self.login matches Some(d) ==> d.wf()
        &&& self.meta matches Some(d) ==> d.wf()
        &&& self.editing matches Some(e) ==> e.wf()
    }

    /// The order in which a dialog is walked: the order in which it reads.
    pub open spec fn dialog_order(&self) -> Seq<NavTarget> {
        match (self.meta, self.login) {
            (Some(m), _) => meta_order(m.boxes@.len() as int),
            (None, Some(_)) => login_order(),
            _ => Seq::empty(),
        }
    }

    /// Where the focus starts.
    pub open spec fn home(&self) -> NavTarget {
        if self.save_dialog {
            NavTarget::Ui(Place::SaveAction(0))
        } else if self.confirm_reset {
            NavTarget::Ui(Place::ConfirmReset)
        } else if self.dialog_order().len() > 0 {
            self.dialog_order()[0]
        } else {
            NavTarget::Ui(Place::Tab(0))
        }
    }

    pub fn new() -> (r: Launcher)
        ensures
            r.wf(),
            r.column == 0,
            !r.library_page,
            r.login is None,
            r.meta is None,
            r.editing is None,
            !r.save_dialog,
            !r.confirm_reset,
            r.library == (Library {
                focus: LibraryFocus::Games,
                games: 0,
                selected: 0,
                scroll: 0,
                favourites: 0,
                favourite_selected: 0,
                favourite_scroll: 0,
            }),
            r.disks == (HostDisks { count: 0, scroll: 0 }),
    {
        Launcher {
            column: 0,
            library_page: false,
            save_dialog: false,
            confirm_reset: false,
            login: None,
            meta: None,
            editing: None,
            library: Library {
                focus: LibraryFocus::Games,
                games: 0,
                selected: 0,
                scroll: 0,
                favourites: 0,
                favourite_selected: 0,
                favourite_scroll: 0,
            },
            disks: HostDisks { count: 0, scroll: 0 },
        }
    }

    pub fn nav_dialog_order(&self) -> (r: Vec<NavTarget>)
        ensures
            r@ == self.dialog_order(),
    {
        let mut r: Vec<NavTarget> = Vec::new();
        match &self.meta {
            Some(m) => {
                r.push(NavTarget::Ui(Place::MetaArt));
                let n: usize = m.boxes.len();
                let mut i: usize = 0;
                while i < n
                    invariant
                        i <= n,
                        r@ == seq![NavTarget::Ui(Place::MetaArt)] + Seq::new(
                            i as nat,
                            |i: int| NavTarget::Ui(Place::MetaField(i as usize)),
                        ),
                    decreases n - i,
                {
                    r.push(NavTarget::Ui(Place::MetaField(i)));
                    i += 1;
                    assert(r@ =~= seq![NavTarget::Ui(Place::MetaArt)] + Seq::new(
                        i as nat,
                        |i: int| NavTarget::Ui(Place::MetaField(i as usize)),
                    ));
                }
                r.push(NavTarget::Ui(Place::MetaSave));
                r.push(NavTarget::Ui(Place::MetaClear));
                r.push(NavTarget::Ui(Place::MetaCancel));
                assert(r@ =~= meta_order(m.boxes@.len() as int));
                return r;
            },
            None => {},
        }
        if self.login.is_some() {
            r.push(NavTarget::Ui(Place::LoginField(LoginField::User)));
            r.push(NavTarget::Ui(Place::LoginField(LoginField::Pass)));
            r.push(NavTarget::Ui(Place::LoginOk));
            r.push(NavTarget::Ui(Place::LoginCancel));
            assert(r@ =~= login_order());
        }
        r
    }

    pub fn nav_home(&self) -> (r: NavTarget)
        ensures
            r == self.home(),
    {
        if self.save_dialog {
            return NavTarget::Ui(Place::SaveAction(0));
        }
        if self.confirm_reset {
            return NavTarget::Ui(Place::ConfirmReset);
        }
        let order = self.nav_dialog_order();
        if order.len() > 0 {
            return order[0];
        }
        NavTarget::Ui(Place::Tab(0))
    }

    /// The next place along an open dialog, of those that are there.
    pub fn nav_dialog_step(&self, items: &Vec<NavItem>, focus: Option<NavTarget>, dir: Dir) -> (r:
        Option<NavTarget>)
        ensures
            along(
                self.dialog_order().filter(|t: NavTarget| has_place(items@, t)),
                focus,
                dir,
                r,
            ),
    {
        let all = self.nav_dialog_order();
        let ghost there = |t: NavTarget| has_place(items@, t);
        let mut order: Vec<NavTarget> = Vec::new();
        let mut i: usize = 0;
        assert(all@.take(0).filter(there) =~= Seq::empty()) by {
            reveal(Seq::filter);
        }
        while i < all.len()
            invariant
                i <= all@.len(),
                there == (|t: NavTarget| has_place(items@, t)),
                order@ == all@.take(i as int).filter(there),
            decreases all@.len() - i,
        {
            proof {
                reveal(Seq::filter);
                assert(all@.take(i + 1).drop_last() =~= all@.take(i as int));
            }
            if find(items, all[i]).is_some() {
                order.push(all[i]);
            }
            i += 1;
        }
        assert(all@.take(i as int) =~= all@);
        if order.len() == 0 {
            return None;
        }
        let t: NavTarget = match focus {
            Some(t) => t,
            None => {
                return Some(order[0]);
            },
        };
        let mut k: usize = 0;
        while k < order.len()
            invariant
                k <= order@.len(),
                focus == Some(t),
                order@ == self.dialog_order().filter(|t: NavTarget| has_place(items@, t)),
                forall|j: int| 0 <= j < k ==> order@[j] != t,
            decreases order@.len() - k,
        {
            if order[k] == t {
                let r: Option<NavTarget> = match dir {
                    Dir::Down => if k < order.len() - 1 {
                        Some(order[k + 1])
                    } else {
                        None
                    },
                    Dir::Up => if k > 0 {
                        Some(order[k - 1])
                    } else {
                        None
                    },
                    _ => None,
                };
                proof {
                    assert(order@.contains(t));
                    assert forall|i: int| #[trigger] first_at(order@, t, i) implies i == k by {
                        if i > k {
                            assert(order@[k as int] != t);
                        }
                    }
                }
                return r;
            }
            k += 1;
        }
        assert(!order@.contains(t));
        None
    }
}

/// Where the focus stands when a page opens: on the letters over the games or
/// on the first game, on the row of sibling pages, or on the first setting.
pub open spec fn page_entry(items: Seq<NavItem>, edge: u64) -> Option<NavTarget> {
    or_else(
        foremost(items, Want::Letters),
        or_else(
            foremost(items, Want::Games),
            or_else(foremost(items, Want::Pages), foremost(items, Want::Settings(edge))),
        ),
    )
}

/// How far right the column of pages reaches; nothing where it is not drawn.
pub open spec fn column_edge(items: Seq<NavItem>, column: Option<u8>) -> u64 {
    match column {
        Some(c) => {
            let tab = NavTarget::Ui(Place::Tab(c));
            if has_place(items, tab) {
                let i = choose|i: int| is_first_place(items, tab, i);
                (items[i].x + items[i].w) as u64
            } else {
                0
            }
        },
        None => 0,
    }
}

proof fn lemma_first_place(items: Seq<NavItem>, t: NavTarget, i: int)
    requires
        is_first_place(items, t, i),
    ensures
        (choose|k: int| is_first_place(items, t, k)) == i,
{
    let k = choose|k: int| is_first_place(items, t, k);
    assert(is_first_place(items, t, k));
    if k < i {
        assert(!is_at(items, t, k));
    } else if k > i {
        assert(!is_at(items, t, i));
    }
}

/// The entry of a page that hangs under `column`.
pub fn nav_page_entry(items: &Vec<NavItem>, column: Option<u8>) -> (r: Option<NavTarget>)
    ensures
        r == page_entry(items@, column_edge(items@, column)),
{
    let edge: u64 = match column {
        Some(c) => {
            let tab: NavTarget = NavTarget::Ui(Place::Tab(c));
            match find(items, tab) {
                Some(i) => {
                    proof {
                        assert(is_first_place(items@, tab, i as int));
                        lemma_first_place(items@, tab, i as int);
                    }
                    items[i].x as u64 + items[i].w as u64
                },
                None => 0,
            }
        },
        None => 0,
    };
    let letters: Option<NavTarget> = find_foremost(items, Want::Letters);
    let games: Option<NavTarget> = find_foremost(items, Want::Games);
    let pages: Option<NavTarget> = find_foremost(items, Want::Pages);
    let settings: Option<NavTarget> = find_foremost(items, Want::Settings(edge));
    first_some(letters, first_some(games, first_some(pages, settings)))
}

impl Launcher {
    /// Left from a setting of the page leads to the column's button, if the
    /// setting is drawn right of it.
    pub open spec fn leads_home(&self, items: Seq<NavItem>, focus: Option<NavTarget>) -> bool {
        let home = NavTarget::Ui(Place::Tab(self.column));
        &&& focus matches Some(NavTarget::Ui(p)) && !(p is Tab) && !(p is NavTab) && !(p is Model)
            && !is_action(p)
        &&& has_place(items, home)
        &&& exists|i: int, j: int| #[trigger]
            is_first_place(items, home, i) && #[trigger] is_first_place(items, focus.unwrap(), j)
                && items[j].x >= items[i].x + items[i].w
    }

    pub fn nav_column_home(&self, items: &Vec<NavItem>, focus: Option<NavTarget>) -> (r: Option<
        NavTarget,
    >)
        ensures
            r == (if self.leads_home(items@, focus) {
                Some(NavTarget::Ui(Place::Tab(self.column)))
            } else {
                None
            }),
    {
        let p: Place = match focus {
            Some(NavTarget::Ui(p)) => p,
            _ => {
                return None;
            },
        };
        let outside: bool = match p {
            Place::Tab(_) | Place::NavTab(_) | Place::Model(_) => true,
            _ => false,
        };
        if outside || launcher_action_control(p) {
            return None;
        }
        let home: NavTarget = NavTarget::Ui(Place::Tab(self.column));
        let seat: usize = match find(items, home) {
            Some(i) => i,
            None => {
                return None;
            },
        };
        let here: usize = match find(items, NavTarget::Ui(p)) {
            Some(i) => i,
            None => {
                return None;
            },
        };
        proof {
            assert(is_first_place(items@, home, seat as int));
            assert(is_first_place(items@, focus.unwrap(), here as int));
            assert forall|i: int| #[trigger] is_first_place(items@, home, i) implies i == seat by {
                if i < seat {
                    assert(!is_at(items@, home, i));
                } else if i > seat {
                    assert(!is_at(items@, home, seat as int));
                }
            }
            assert forall|j: int| #[trigger]
                is_first_place(items@, focus.unwrap(), j) implies j == here by {
                if j < here {
                    assert(!is_at(items@, focus.unwrap(), j));
                } else if j > here {
                    assert(!is_at(items@, focus.unwrap(), here as int));
                }
            }
        }
        if items[here].x as u64 >= items[seat].x as u64 + items[seat].w as u64 {
            Some(home)
        } else {
            None
        }
    }

    /// The focus on the row that its list has chosen; the list that it
    /// stands in has the focus of the two.
    pub open spec fn synced(&self, focus: Option<NavTarget>) -> (LibraryFocus, Option<NavTarget>) {
        match focus {
            Some(NavTarget::Ui(Place::LibraryPick(_))) => (
                LibraryFocus::Games,
                Some(NavTarget::Ui(Place::LibraryPick(self.library.drawn(true) as usize))),
            ),
            Some(NavTarget::Ui(Place::LibraryFavourite(_))) => (
                LibraryFocus::Games,
                Some(NavTarget::Ui(Place::LibraryFavourite(self.library.drawn(true) as usize))),
            ),
            Some(NavTarget::Ui(Place::LibraryFavouritePick(_))) => (
                LibraryFocus::Favourites,
                Some(NavTarget::Ui(Place::LibraryFavouritePick(self.library.drawn(false) as usize))),
            ),
            Some(NavTarget::Ui(Place::LibraryFavouriteRemove(_))) => (
                LibraryFocus::Favourites,
                Some(
                    NavTarget::Ui(Place::LibraryFavouriteRemove(self.library.drawn(false) as usize)),
                ),
            ),
            _ => (self.library.focus, focus),
        }
    }

    /// A list keeps its own selection, and the marker that walks the page is
    /// a second one: in a list they must be the same row.
    pub fn nav_sync_library(&mut self, focus: Option<NavTarget>) -> (r: Option<NavTarget>)
        ensures
            *final(self) == (Launcher {
                library: Library { focus: old(self).synced(focus).0, ..old(self).library },
                ..*old(self)
            }),
            r == old(self).synced(focus).1,
    {
        match focus {
            Some(NavTarget::Ui(Place::LibraryPick(_))) => {
                self.library.focus = LibraryFocus::Games;
                Some(NavTarget::Ui(Place::LibraryPick(self.library.drawn_row(true))))
            },
            Some(NavTarget::Ui(Place::LibraryFavourite(_))) => {
                self.library.focus = LibraryFocus::Games;
                Some(NavTarget::Ui(Place::LibraryFavourite(self.library.drawn_row(true))))
            },
            Some(NavTarget::Ui(Place::LibraryFavouritePick(_))) => {
                self.library.focus = LibraryFocus::Favourites;
                Some(NavTarget::Ui(Place::LibraryFavouritePick(self.library.drawn_row(false))))
            },
            Some(NavTarget::Ui(Place::LibraryFavouriteRemove(_))) => {
                self.library.focus = LibraryFocus::Favourites;
                Some(NavTarget::Ui(Place::LibraryFavouriteRemove(self.library.drawn_row(false))))
            },
            _ => focus,
        }
    }

    /// The dialog's own caret goes to the box that the focus stands on.
    pub open spec fn dialog_synced(&self, n: &Launcher, focus: Option<NavTarget>) -> bool {
        &&& *n == (Launcher { login: n.login, meta: n.meta, ..*self })
        &&& n.login == (match (focus, self.login) {
            (Some(NavTarget::Ui(Place::LoginField(f))), Some(d)) => Some(
                LoginDialog { focus: f, ..d },
            ),
            _ => self.login,
        })
        &&& n.meta == (match (focus, self.meta) {
            (Some(NavTarget::Ui(Place::MetaField(f))), Some(d)) => Some(
                MetaDialog {
                    focus: if f < d.boxes@.len() {
                        f
                    } else {
                        d.focus
                    },
                    ..d
                },
            ),
            _ => self.meta,
        })
    }

    pub fn nav_sync_dialog(&mut self, focus: Option<NavTarget>)
        requires
            old(self).wf(),
        ensures
            final(self).wf(),
            old(self).dialog_synced(final(self), focus),
    {
        match focus {
            Some(NavTarget::Ui(Place::LoginField(f))) => {
                match self.login.take() {
                    Some(mut d) => {
                        d.focus_on(f);
                        self.login = Some(d);
                    },
                    None => {},
                }
            },
            Some(NavTarget::Ui(Place::MetaField(f))) => {
                match self.meta.take() {
                    Some(mut d) => {
                        d.focus_on(f);
                        self.meta = Some(d);
                    },
                    None => {},
                }
            },
            _ => {},
        }
    }

    /// Scrolls the disk list under the focus where the step would leave a
    /// list that has more to show. Gives the control to land on and its row.
    pub fn nav_host_disk_scroll(&mut self, focus: Option<NavTarget>, dir: Dir, visible: usize) -> (
    r: Option<(Place, usize)>)
        ensures
            ({
                let row = match focus {
                    Some(NavTarget::Ui(p)) => disk_row(p),
                    _ => None,
                };
                let to = match row {
                    Some(at) => old(self).disks.beyond(at as int, dir, visible as int),
                    None => None,
                };
                match to {
                    Some(n) => {
                        &&& r == Some(
                            (on_disk_row(focus.unwrap()->Ui_0, n as usize), n as usize),
                        )
                        &&& *final(self) == (Launcher {
                            disks: old(self).disks.shifted(dir is Down, visible as int),
                            ..*old(self)
                        })
                    },
                    None => r is None && *final(self) == *old(self),
                }
            }),
    {
        let p: Place = match focus {
            Some(NavTarget::Ui(p)) => p,
            _ => {
                return None;
            },
        };
        let at: usize = match host_disk_row_of(p) {
            Some(at) => at,
            None => {
                return None;
            },
        };
        let to: usize = match self.disks.beyond_row(at, dir, visible) {
            Some(n) => n,
            None => {
                return None;
            },
        };
        let down: bool = match dir {
            Dir::Down => true,
            _ => false,
        };
        self.disks.shift(down, visible);
        Some((host_disk_row_at(p, to), to))
    }
}

pub open spec fn is_first_place(items: Seq<NavItem>, t: NavTarget, i: int) -> bool {
    is_at(items, t, i) && forall|j: int| 0 <= j < i ==> !is_at(items, t, j)
}

} // verus!
