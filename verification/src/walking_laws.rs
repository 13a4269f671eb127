//! How the focus walks: along lists, across rows, through dialogs and menus, and what a
//! press or a step back does where it stands.

use vstd::prelude::*;

use crate::launcher::HostDisks;
use crate::launcher::Launcher;
use crate::launcher::Library;
use crate::launcher::ListStep;
use crate::launcher::Want;
use crate::launcher::along;
use crate::launcher::any_wanted;
use crate::launcher::cell_left;
use crate::launcher::cell_right;
use crate::launcher::first_at;
use crate::launcher::foremost;
use crate::launcher::login_order;
use crate::launcher::meta_order;
use crate::launcher::page_entry;
use crate::launcher::row_across;
use crate::launcher::scrolled;
use crate::launcher::stepped;
use crate::launcher::wanted;
use crate::menu::Menu;
use crate::menu::MenuRow;
use crate::menu::RowKind;
use crate::menu::RowPress;
use crate::menu::path_to;
use crate::menu::row_at;
use crate::menu::since;
use crate::nav::BarControl;
use crate::nav::Dir;
use crate::nav::LoginField;
use crate::nav::NavItem;
use crate::nav::NavTarget;
use crate::nav::Place;
use crate::nav::has_place;
use crate::nav::is_at;
use crate::ui::NavStep;
use crate::ui::Panel;
use crate::ui::Ui;
use crate::ui::WalkFacts;
use crate::ui::in_library;
use crate::ui::is_stepper;
use crate::ui::stepper_arrow;

verus! {

/// A step in a list goes that many rows and stops at either end; Home and End go to the
/// ends. A step back after one forward that did not reach the end is where it was.
pub proof fn lemma_list_steps(at: int, len: int, n: usize)
    requires
        0 <= at < len,
    ensures
        stepped(at, len, ListStep::First) == 0,
        stepped(at, len, ListStep::Last) == len - 1,
        at + n < len ==> stepped(at, len, ListStep::On(n)) == at + n,
        at + n >= len ==> stepped(at, len, ListStep::On(n)) == len - 1,
        at - n >= 0 ==> stepped(at, len, ListStep::Back(n)) == at - n,
        at - n < 0 ==> stepped(at, len, ListStep::Back(n)) == 0,
        at + n < len ==> stepped(stepped(at, len, ListStep::On(n)), len, ListStep::Back(n)) == at,
{
}

/// A list scrolls only as far as it must to show the row: not at all where it is in view,
/// and otherwise so that it is the first or the last in view.
pub proof fn lemma_lists_scroll_little(scroll: int, at: int, visible: int)
    requires
        visible > 0,
    ensures
        scroll <= at < scroll + visible ==> scrolled(scroll, at, visible) == scroll,
        at < scroll ==> scrolled(scroll, at, visible) == at,
        at >= scroll + visible ==> scrolled(scroll, at, visible) + visible == at + 1,
{
}

/// Walking one of the two lists leaves the other alone.
pub proof fn lemma_lists_are_apart(l: Library, step: ListStep, visible: usize)
    ensures
        l.focus is Games ==> l.walked(step, visible).favourite_selected == l.favourite_selected
            && l.walked(step, visible).favourite_scroll == l.favourite_scroll,
        l.focus is Favourites ==> l.walked(step, visible).selected == l.selected && l.walked(
            step,
            visible,
        ).scroll == l.scroll,
        l.walked(step, visible).focus == l.focus,
        l.walked(step, visible).games == l.games && l.walked(step, visible).favourites
            == l.favourites,
        l.focus is Games && l.selected < l.games && step is First ==> l.walked(
            step,
            visible,
        ).selected == 0,
        l.focus is Favourites && l.favourite_selected < l.favourites && step is First ==> l.walked(
            step,
            visible,
        ).favourite_selected == 0,
{
}

/// A list ends at its first row upwards and at its last row downwards; an empty one
/// everywhere.
pub proof fn lemma_list_ends(l: Library)
    ensures
        l.focus is Games && l.games > 0 ==> (l.ended(true) <==> l.selected == 0),
        l.focus is Games && l.games > 0 && l.selected < l.games ==> (l.ended(false) <==> l.selected
            + 1 == l.games),
        l.focus is Favourites && l.favourites > 0 ==> (l.ended(true) <==> l.favourite_selected
            == 0),
        l.focus is Favourites && l.favourites > 0 && l.favourite_selected < l.favourites ==> (
        l.ended(false) <==> l.favourite_selected + 1 == l.favourites),
        l.focus is Games && l.games == 0 ==> l.ended(true) && l.ended(false),
        l.selected >= l.scroll ==> l.drawn(true) == l.selected - l.scroll,
        l.favourite_selected >= l.favourite_scroll ==> l.drawn(false) == l.favourite_selected
            - l.favourite_scroll,
{
}

/// The list of host disks scrolls a row at a time when the focus leaves what is in view,
/// and not past its ends.
pub proof fn lemma_disk_list_scrolls(d: HostDisks, at: int, visible: int)
    requires
        visible > 0,
        d.scroll <= at < d.scroll + visible,
        0 <= at < d.count,
    ensures
        at + 1 < d.scroll + visible ==> d.beyond(at, Dir::Down, visible) is None,
        at + 1 == d.scroll + visible && at + 1 < d.count ==> d.beyond(at, Dir::Down, visible)
            == Some(at + 1) && d.shifted(true, visible).scroll == d.scroll + 1,
        at + 1 == d.count ==> d.beyond(at, Dir::Down, visible) is None,
        at > d.scroll ==> d.beyond(at, Dir::Up, visible) is None,
        at == d.scroll && at > 0 ==> d.beyond(at, Dir::Up, visible) == Some(at - 1) && d.shifted(
            false,
            visible,
        ).scroll == d.scroll - 1,
        at == 0 ==> d.beyond(at, Dir::Up, visible) is None,
        d.beyond(at, Dir::Left, visible) is None && d.beyond(at, Dir::Right, visible) is None,
{
}

/// Leftwards from a cell is the nearest one of its row that is there: from a heart its
/// game, from a disk's switches the switch before.
pub proof fn lemma_leftwards(items: Seq<NavItem>, at: usize)
    ensures
        has_place(items, NavTarget::Ui(Place::LibraryPick(at))) ==> cell_left(
            items,
            NavTarget::Ui(Place::LibraryFavourite(at)),
        ) == Some(NavTarget::Ui(Place::LibraryPick(at))),
        has_place(items, NavTarget::Ui(Place::LibraryFavouritePick(at))) ==> cell_left(
            items,
            NavTarget::Ui(Place::LibraryFavouriteRemove(at)),
        ) == Some(NavTarget::Ui(Place::LibraryFavouritePick(at))),
        has_place(items, NavTarget::Ui(Place::HostDiskSelect(at))) ==> cell_left(
            items,
            NavTarget::Ui(Place::HostDiskAttach(at)),
        ) == Some(NavTarget::Ui(Place::HostDiskSelect(at))),
        has_place(items, NavTarget::Ui(Place::HostDiskAttach(at))) ==> cell_left(
            items,
            NavTarget::Ui(Place::HostDiskWritable(at)),
        ) == Some(NavTarget::Ui(Place::HostDiskAttach(at))),
        has_place(items, NavTarget::Ui(Place::HostDiskWritable(at))) ==> cell_left(
            items,
            NavTarget::Ui(Place::HostDiskEnable(at)),
        ) == Some(NavTarget::Ui(Place::HostDiskWritable(at))),
        !has_place(items, NavTarget::Ui(Place::HostDiskAttach(at))) && has_place(
            items,
            NavTarget::Ui(Place::HostDiskSelect(at)),
        ) ==> cell_left(items, NavTarget::Ui(Place::HostDiskWritable(at))) == Some(
            NavTarget::Ui(Place::HostDiskSelect(at)),
        ),
        cell_left(items, NavTarget::Ui(Place::LibraryPick(at))) is None,
        cell_left(items, NavTarget::Ui(Place::HostDiskSelect(at))) is None,
{
    reveal_with_fuel(cell_left, 4);
}

/// Rightwards from a cell is the next one of its row, and past the row the buttons beside
/// the list.
pub proof fn lemma_rightwards(items: Seq<NavItem>, at: usize)
    ensures
        has_place(items, NavTarget::Ui(Place::LibraryFavourite(at))) ==> cell_right(
            items,
            Place::LibraryPick(at),
        ) == Some(NavTarget::Ui(Place::LibraryFavourite(at))),
        has_place(items, NavTarget::Ui(Place::LibraryFavouriteRemove(at))) ==> cell_right(
            items,
            Place::LibraryFavouritePick(at),
        ) == Some(NavTarget::Ui(Place::LibraryFavouriteRemove(at))),
        has_place(items, NavTarget::Ui(Place::Run)) ==> cell_right(
            items,
            Place::LibraryFavouriteRemove(at),
        ) == Some(NavTarget::Ui(Place::Run)),
        has_place(items, NavTarget::Ui(Place::HostDiskAttach(at))) ==> cell_right(
            items,
            Place::HostDiskSelect(at),
        ) == Some(NavTarget::Ui(Place::HostDiskAttach(at))),
        has_place(items, NavTarget::Ui(Place::HostDiskWritable(at))) ==> cell_right(
            items,
            Place::HostDiskAttach(at),
        ) == Some(NavTarget::Ui(Place::HostDiskWritable(at))),
        has_place(items, NavTarget::Ui(Place::HostDiskEnable(at))) ==> cell_right(
            items,
            Place::HostDiskWritable(at),
        ) == Some(NavTarget::Ui(Place::HostDiskEnable(at))),
        has_place(items, NavTarget::Ui(Place::HostDiskMount)) ==> cell_right(
            items,
            Place::HostDiskEnable(at),
        ) == Some(NavTarget::Ui(Place::HostDiskMount)),
        row_across(items, None, Dir::Left) is None && row_across(items, None, Dir::Right) is None,
{
}

/// Entering a page goes to its letters, or its games, or its pages, or its settings, the
/// first of these that it has.
pub proof fn lemma_page_entries(items: Seq<NavItem>, edge: u64, i: int)
    ensures
        any_wanted(items, Want::Letters) ==> page_entry(items, edge) == foremost(
            items,
            Want::Letters,
        ),
        !any_wanted(items, Want::Letters) && any_wanted(items, Want::Games) ==> page_entry(
            items,
            edge,
        ) == foremost(items, Want::Games),
        !any_wanted(items, Want::Letters) && !any_wanted(items, Want::Games) && any_wanted(
            items,
            Want::Pages,
        ) ==> page_entry(items, edge) == foremost(items, Want::Pages),
        0 <= i < items.len() ==> (items[i].target matches NavTarget::Ui(p) ==> {
            &&& wanted(items[i], Want::Letters) <==> p is LibraryJump
            &&& wanted(items[i], Want::Games) <==> p is LibraryPick
            &&& wanted(items[i], Want::Pages) <==> p is NavTab
            &&& wanted(items[i], Want::ListButtons) <==> (p is LibraryRefresh || p is LibraryUpdate
                || p is LibraryEdit)
        }),
{
}

/// The details dialog is walked from the art through its fields to its three buttons, the
/// login dialog from the name to the password to its two.
pub proof fn lemma_dialog_orders(fields: usize, i: usize)
    ensures
        meta_order(fields as int).len() == fields + 4,
        meta_order(fields as int)[0] == NavTarget::Ui(Place::MetaArt),
        i < fields ==> meta_order(fields as int)[i + 1] == NavTarget::Ui(Place::MetaField(i)),
        meta_order(fields as int)[fields + 1] == NavTarget::Ui(Place::MetaSave),
        meta_order(fields as int)[fields + 2] == NavTarget::Ui(Place::MetaClear),
        meta_order(fields as int)[fields + 3] == NavTarget::Ui(Place::MetaCancel),
        login_order().len() == 4,
        login_order()[0] == NavTarget::Ui(Place::LoginField(LoginField::User)),
        login_order()[1] == NavTarget::Ui(Place::LoginField(LoginField::Pass)),
        login_order()[2] == NavTarget::Ui(Place::LoginOk),
        login_order()[3] == NavTarget::Ui(Place::LoginCancel),
{
}

/// Down goes to the next place of a dialog and up to the one before, and neither past its
/// ends.
pub proof fn lemma_dialogs_are_walked_in_order(
    order: Seq<NavTarget>,
    i: int,
    dir: Dir,
    r: Option<NavTarget>,
)
    requires
        order.no_duplicates(),
        0 <= i < order.len(),
        along(order, Some(order[i]), dir, r),
    ensures
        dir is Down && i + 1 < order.len() ==> r == Some(order[i + 1]),
        dir is Down && i + 1 == order.len() ==> r is None,
        dir is Up && i > 0 ==> r == Some(order[i - 1]),
        dir is Up && i == 0 ==> r is None,
        dir is Left || dir is Right ==> r is None,
{
    assert(first_at(order, order[i], i));
}

/// The focus that starts a launcher page: the first answer of a question that is up, the
/// first place of a dialog, or else the first tab.
pub proof fn lemma_launcher_homes(l: Launcher)
    ensures
        l.save_dialog ==> l.home() == NavTarget::Ui(Place::SaveAction(0)),
        !l.save_dialog && l.confirm_reset ==> l.home() == NavTarget::Ui(Place::ConfirmReset),
        !l.save_dialog && !l.confirm_reset && l.meta is Some ==> l.home() == NavTarget::Ui(
            Place::MetaArt,
        ),
        !l.save_dialog && !l.confirm_reset && l.meta is None && l.login is Some ==> l.home()
            == NavTarget::Ui(Place::LoginField(LoginField::User)),
        !l.save_dialog && !l.confirm_reset && l.meta is None && l.login is None ==> l.home()
            == NavTarget::Ui(Place::Tab(0)),
{
}

/// Standing on a game chooses the list of games, on a favourite that of favourites, and
/// the focus follows the list's own row.
pub proof fn lemma_focus_chooses_the_list(l: Launcher, at: usize)
    ensures
        l.synced(Some(NavTarget::Ui(Place::LibraryPick(at)))).0 is Games,
        l.synced(Some(NavTarget::Ui(Place::LibraryFavourite(at)))).0 is Games,
        l.synced(Some(NavTarget::Ui(Place::LibraryFavouritePick(at)))).0 is Favourites,
        l.synced(Some(NavTarget::Ui(Place::LibraryFavouriteRemove(at)))).0 is Favourites,
        l.synced(None) == (l.library.focus, None::<NavTarget>),
        l.library.selected >= l.library.scroll ==> l.synced(
            Some(NavTarget::Ui(Place::LibraryPick(at))),
        ).1 == Some(
            NavTarget::Ui(
                Place::LibraryPick((l.library.selected - l.library.scroll) as usize),
            ),
        ),
        l.library.favourite_selected >= l.library.favourite_scroll ==> l.synced(
            Some(NavTarget::Ui(Place::LibraryFavouritePick(at))),
        ).1 == Some(
            NavTarget::Ui(
                Place::LibraryFavouritePick(
                    (l.library.favourite_selected - l.library.favourite_scroll) as usize,
                ),
            ),
        ),
{
}

/// Where the focus goes: up and down by where things lie; right from a tab into its page;
/// left within the row first, from a game then to the letters.
pub proof fn lemma_next_places(
    u: Ui,
    items: Seq<NavItem>,
    beyond: Option<NavTarget>,
    in_page: bool,
    c: u8,
    at: usize,
)
    ensures
        u.next_place(items, Dir::Up, beyond, in_page) == beyond,
        u.next_place(items, Dir::Down, beyond, in_page) == beyond,
        u.nav.focus == Some(NavTarget::Ui(Place::Tab(c))) && any_wanted(items, Want::Letters)
            ==> u.next_place(items, Dir::Right, beyond, in_page) == foremost(items, Want::Letters),
        u.nav.focus == Some(NavTarget::Ui(Place::LibraryPick(at))) && beyond is None && has_place(
            items,
            NavTarget::Ui(Place::LibraryFavourite(at)),
        ) ==> u.next_place(items, Dir::Right, beyond, in_page) == Some(
            NavTarget::Ui(Place::LibraryFavourite(at)),
        ),
        u.nav.focus == Some(NavTarget::Ui(Place::LibraryPick(at))) && any_wanted(
            items,
            Want::Letters,
        ) ==> u.next_place(items, Dir::Left, beyond, in_page) == foremost(items, Want::Letters),
        u.nav.focus == Some(NavTarget::Ui(Place::LibraryFavourite(at))) && has_place(
            items,
            NavTarget::Ui(Place::LibraryPick(at)),
        ) ==> u.next_place(items, Dir::Left, beyond, in_page) == Some(
            NavTarget::Ui(Place::LibraryPick(at)),
        ),
        u.nav.focus is None && !(u.launcher() is Some) ==> u.next_place(
            items,
            Dir::Left,
            beyond,
            in_page,
        ) == beyond,
{
    reveal_with_fuel(cell_left, 2);
}

/// A press belongs to the state browser or the menu while either is up; a focus that is
/// not seen is only shown; a stepper opens and shuts; anything else is worked.
pub proof fn lemma_presses(u: Ui, n: Ui, items: Seq<NavItem>, now: u64, step: NavStep, t: NavTarget)
    requires
        u.pressed(&n, items, now, step),
    ensures
        u.panel matches Some(Panel::States { .. }) ==> step is States && n == u,
        !u.browses() && u.menu.open ==> step is PickRow && n == u,
        !u.browses() && !u.menu.open && items.len() == 0 ==> step is NotTaken && n == u,
        !u.browses() && !u.menu.open && u.nav.focus == Some(t) && has_place(items, t)
            && !u.nav.showing ==> step is Done && n.nav.showing && n.nav.focus == Some(t),
        !u.browses() && !u.menu.open && u.nav.focus == Some(t) && has_place(items, t)
            && u.nav.showing && !is_stepper(t) ==> step == NavStep::Work(t) && n == u,
        !u.browses() && !u.menu.open && u.nav.focus == Some(t) && has_place(items, t)
            && u.nav.showing && is_stepper(t) ==> step is Done && n.nav.open == !u.nav.open
            && n.nav.focus == u.nav.focus,
        u.panel == n.panel || u.browses(),
{
    if items.len() == 0 && has_place(items, t) {
        let i = choose|i: int| is_at(items, t, i);
        assert(false);
    }
}

/// The steppers of the page and the volume are what opens under the focus.
pub proof fn lemma_steppers(p: Place, c: BarControl, dir: Dir)
    ensures
        is_stepper(NavTarget::Ui(p)) <==> p is Cycle,
        is_stepper(NavTarget::Bar(c)) <==> c is Volume,
        p matches Place::Cycle(f, up) ==> {
            &&& stepper_arrow(Some(NavTarget::Ui(p)), Dir::Right) == Some(
                NavTarget::Ui(Place::Cycle(f, true)),
            )
            &&& stepper_arrow(Some(NavTarget::Ui(p)), Dir::Left) == Some(
                NavTarget::Ui(Place::Cycle(f, false)),
            )
            &&& stepper_arrow(Some(NavTarget::Ui(p)), Dir::Up) is None
            &&& stepper_arrow(Some(NavTarget::Ui(p)), Dir::Down) is None
        },
        !(p is Cycle) ==> stepper_arrow(Some(NavTarget::Ui(p)), dir) is None,
{
}

/// An open stepper is worked left and right; walking off it shuts it. The volume goes up
/// to the right.
pub proof fn lemma_open_steppers(u: Ui, n: Ui, dir: Dir, step: NavStep)
    requires
        u.stepper_walked(&n, dir, step),
    ensures
        u.nav.open && u.nav.focus == Some(NavTarget::Bar(BarControl::Volume)) && dir is Right
            ==> step == (NavStep::Volume { up: true }) && n == u,
        u.nav.open && u.nav.focus == Some(NavTarget::Bar(BarControl::Volume)) && dir is Left
            ==> step == (NavStep::Volume { up: false }) && n == u,
        dir is Up || dir is Down || !u.nav.open ==> step is Geometry && !n.nav.open && n.nav.focus
            == u.nav.focus,
{
}

/// What a walk is for: the browser's, the menu's, the list's under the focus, or a place's.
pub proof fn lemma_walks(u: Ui, n: Ui, dir: Dir, items: Seq<NavItem>, f: WalkFacts, step: NavStep)
    requires
        u.walked(&n, dir, items, f, step),
    ensures
        u.panel matches Some(Panel::States { .. }) ==> step is States && n == u,
        !u.browses() && u.menu.open ==> step is Done && n.panel == u.panel,
        !u.browses() && !u.menu.open && items.len() == 0 ==> step is NotTaken && n == u,
        Ui::list_step(Dir::Up, 0) == ListStep::Back(1),
        Ui::list_step(Dir::Down, 0) == ListStep::On(1),
        f.rate > 0 ==> Ui::list_step(Dir::Up, f.rate) == ListStep::Back(f.rate) && Ui::list_step(
            Dir::Down,
            f.rate,
        ) == ListStep::On(f.rate),
{
}

/// A list under the focus is stepped by up and down until its end, where the focus leaves
/// it; left and right never step it.
pub proof fn lemma_lists_step_until_they_end(u: Ui, l: Launcher, dir: Dir, at: usize)
    requires
        u.panel == Some(Panel::Launcher(l)),
    ensures
        dir is Left || dir is Right ==> !u.list_steps(dir),
        u.nav.focus == Some(NavTarget::Ui(Place::LibraryPick(at))) && l.library.focus is Games
            && dir is Up ==> (u.list_steps(dir) <==> l.library.games > 0 && l.library.selected > 0),
        u.nav.focus == Some(NavTarget::Ui(Place::LibraryPick(at))) && l.library.focus is Games
            && dir is Down ==> (u.list_steps(dir) <==> l.library.games > 0 && l.library.selected
            + 1 < l.library.games),
        u.nav.focus is None ==> !u.list_steps(dir),
{
}

/// One thing is left at a time: an open stepper first, then a question of the state
/// browser, the menu a level at a time, the page back to its tab, and last the panel.
pub proof fn lemma_back_one_at_a_time(u: Ui, n: Ui, items: Seq<NavItem>, in_page: bool, now: u64)
    requires
        u.backed_out(&n, items, in_page, now),
    ensures
        u.nav.open ==> !n.nav.open && n.panel == u.panel && n.menu == u.menu,
        !u.nav.open && u.panel == Some(Panel::States { confirm_delete: true }) ==> n.panel == Some(
            Panel::States { confirm_delete: false },
        ) && n.menu == u.menu,
        !u.nav.open && !(u.panel == Some(Panel::States { confirm_delete: true })) && u.menu.open
            && u.menu.path@.len() > 0 ==> n.menu.open && n.menu.path@ == u.menu.path@.drop_last()
            && n.menu.cursor == Some(u.menu.path@.last()) && n.panel == u.panel,
        !u.nav.open && !(u.panel == Some(Panel::States { confirm_delete: true })) && u.menu.open
            && u.menu.path@.len() == 0 ==> !n.menu.open && n.panel == u.panel,
        !u.nav.open && !u.menu.open && !u.browses() && u.inside_page(items, in_page) ==> n.nav.focus
            == u.entered_from && n.entered_from is None && n.panel == u.panel,
        !u.nav.open && !u.menu.open && !u.browses() && !u.inside_page(items, in_page)
            && u.panel is Some ==> n.panel is None && n.nav.focus is None && !n.nav.showing,
{
}

/// The place that is lit is the one with the focus, while it is shown; a stepper is lit
/// as a whole.
pub proof fn lemma_lit_places(u: Ui, p: Place)
    ensures
        !u.nav.showing ==> u.lit() is None,
        u.nav.showing && u.nav.focus == Some(NavTarget::Ui(p)) && !(p is Cycle) ==> u.lit() == Some(
            p,
        ),
        u.nav.focus is None ==> u.lit() is None,
{
}

/// A control that went away when it was worked leaves the focus on the page; a tab that
/// was worked is where going back leads.
pub proof fn lemma_after_working(u: Ui, focus: NavTarget, items: Seq<NavItem>, c: u8)
    ensures
        focus == NavTarget::Ui(Place::Tab(c)) ==> u.after_work(focus, items).entered_from == Some(
            focus,
        ),
        focus == NavTarget::Ui(Place::Run) ==> u.after_work(focus, items).entered_from
            == u.entered_from,
        has_place(items, focus) && cell_left(items, focus) is None ==> u.after_work(
            focus,
            items,
        ).nav == u.nav,
        !has_place(items, focus) && any_wanted(items, Want::Letters) ==> u.after_work(
            focus,
            items,
        ).nav.focus == foremost(items, Want::Letters),
        Ui::starts_machine(NavTarget::Ui(Place::Run)),
        in_library(Some(focus)) ==> Ui::starts_machine(focus),
        !in_library(Some(focus)) && focus != NavTarget::Ui(Place::Run) ==> !Ui::starts_machine(
            focus,
        ),
{
}

/// Walking a menu: down and up by a row, right into a submenu that can be opened, left out
/// of one to the row it came from.
pub proof fn lemma_menu_walks(u: Ui, n: Ui, dir: Dir, now: u64, c: usize, l: Seq<MenuRow>)
    requires
        u.menu_walked(&n, dir, now),
        u.menu.cursor == Some(c),
        u.menu.current() == Some(l),
        c < l.len(),
        l.len() <= usize::MAX,
    ensures
        dir is Down && c + 1 < l.len() ==> n.menu.cursor == Some((c + 1) as usize) && n.menu.path@
            == u.menu.path@ && n.menu.open == u.menu.open,
        dir is Up && c > 0 ==> n.menu.cursor == Some((c - 1) as usize) && n.menu.path@
            == u.menu.path@,
        dir is Up && c == 0 ==> n.menu.cursor == Some(c) && n.menu.path@ == u.menu.path@,
        dir is Right && l[c as int].enabled && l[c as int].kind is Submenu ==> n.menu.path@
            == u.menu.path@.push(c) && n.menu.cursor == Some(0usize),
        dir is Right && (!l[c as int].enabled || !(l[c as int].kind is Submenu)) ==> n.menu.path@
            == u.menu.path@ && n.menu.cursor == Some(c),
        dir is Left && u.menu.path@.len() > 0 ==> n.menu.path@ == u.menu.path@.drop_last()
            && n.menu.cursor == Some(u.menu.path@.last()),
        dir is Left && u.menu.path@.len() == 0 ==> n.menu.path@ == u.menu.path@ && n.menu.cursor
            == Some(c),
        dir is Down && c + 1 == l.len() && u.menu.path@.len() > 0 ==> n.menu.cursor == Some(c),
        dir is Down && c + 1 == l.len() && u.menu.path@.len() == 0 ==> !n.menu.open && (
        !u.bar_hidden ==> n.nav.focus == Some(NavTarget::Bar(BarControl::Menu)) && n.nav.showing),
        n.panel == u.panel,
{
}

/// Choosing a row: a submenu opens on its first row, a row with something to do is run and
/// shuts the menu where it says so, and a row that is off or only text does nothing.
pub proof fn lemma_menu_rows(m: Menu, n: Menu, r: MenuRow)
    requires
        m.chosen() == Some(r),
        m.cursor is Some,
        m.picked(&n, m.press()),
    ensures
        !r.enabled ==> m.press() is Nothing && n.open == m.open && n.path@ == m.path@,
        r.enabled && r.kind is Submenu ==> m.press() is Opened && n.path@ == m.path@.push(
            m.cursor.unwrap(),
        ) && n.cursor == Some(0usize) && n.open == m.open,
        r.enabled && r.kind is Text ==> m.press() is Nothing && n.open == m.open,
        r.enabled ==> (r.kind matches RowKind::Run(action, closes) ==> {
            &&& m.press() == (RowPress::Run { action, closes })
            &&& closes ==> !n.open
            &&& !closes ==> n.open == m.open && n.path@ == m.path@ && n.cursor == m.cursor
        }),
{
}

/// A pointer over a row takes the cursor there and shuts what is deeper; over a submenu it
/// waits out the dwell before it opens.
pub proof fn lemma_menu_hover(m: Menu, depth: usize, row: usize, now: u64, dwell: u64, at: u64)
    requires
        depth <= m.path@.len(),
        at <= now,
    ensures
        ({
            let r = row_at(m.rows@, m.path@, depth as int, row as int);
            let (path, cursor, arm) = m.arrived(depth, row, now, dwell);
            &&& (r matches Some(x) ==> !x.enabled || !(x.kind is Submenu)) ==> path
                == m.path@.take(depth as int) && cursor == Some(row) && arm is None
            &&& (r matches Some(x) && x.enabled && x.kind is Submenu) ==> {
                &&& m.hover_arm is None ==> path == m.path@.take(depth as int) && cursor == Some(
                    row,
                ) && arm == Some((depth, row, now))
                &&& m.hover_arm == Some((depth, row, at)) && now - at < dwell ==> path
                    == m.path@.take(depth as int) && cursor == Some(row) && arm == m.hover_arm
                &&& m.hover_arm == Some((depth, row, at)) && now - at >= dwell ==> path
                    == m.path@.take(depth as int).push(row) && cursor is None && arm is None
            }
        }),
        since(now, at) == now - at,
        path_to(m.path@, depth as int) == m.path@.take(depth as int),
{
}

} // verus!
