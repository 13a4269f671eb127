//! Walking the interface: the focus, the lists, the dialogs and the keys.

use copperline::effects::{Effect, Effects};
use copperline::entry::{
    launcher_handle_edit_key, nav_dialog_key_is_focus, CaretMove, DialogStep, EditStep, Key,
    LoginDialog, MetaDialog, TextEdit,
};
use copperline::keys::{KeyPress, KeyStep};
use copperline::launcher::{
    find_foremost, host_disk_row_at, host_disk_row_of, nav_page_entry, nav_row_across,
    nav_row_beside, HostDisks, Launcher, Library, LibraryFocus, ListStep, Want,
};
use copperline::menu::{MenuAction, MenuRow, RowKind, RowPress};
use copperline::nav::{
    cycle_hold_delay, cycle_hold_every, find, launcher_action_control, nav_items, pad_nav_every,
    repeat_held_cycle, BarControl, CycleHold, Dir, DriveMedia, LauncherField, LoginField, MediaBar,
    Nav, NavItem, NavTarget, PadCalls, PadNav, Place,
};
use copperline::netplay::JoyState;
use copperline::ui::{NavStep, Panel, Ui, WalkFacts};

fn ui_at(p: Place) -> NavTarget {
    NavTarget::Ui(p)
}

fn at(p: Place, x: u32, y: u32) -> NavItem {
    NavItem {
        target: NavTarget::Ui(p),
        x,
        y,
        w: 40,
    }
}

fn bar(c: BarControl) -> NavItem {
    NavItem {
        target: NavTarget::Bar(c),
        x: 0,
        y: 900,
        w: 20,
    }
}

fn pad() -> JoyState {
    JoyState {
        up: false,
        down: false,
        left: false,
        right: false,
        fire: false,
        button2: false,
        play: false,
        rwd: false,
        ffw: false,
        green: false,
        yellow: false,
    }
}

fn facts() -> WalkFacts {
    WalkFacts {
        library_rows: 3,
        rate: 1,
        disk_rows: 2,
        now: 77,
    }
}

fn chars(t: &str) -> Vec<char> {
    t.chars().collect()
}

fn edit(t: &str, caret: usize) -> TextEdit {
    TextEdit {
        chars: chars(t),
        caret,
    }
}

fn library(focus: LibraryFocus, games: usize, selected: usize, scroll: usize) -> Library {
    Library {
        focus,
        games,
        selected,
        scroll,
        favourites: 0,
        favourite_selected: 0,
        favourite_scroll: 0,
    }
}

fn launcher_ui(l: Launcher) -> Ui {
    let mut ui = Ui::new(false);
    ui.panel = Some(Panel::Launcher(l));
    ui
}

fn launcher(ui: &Ui) -> &Launcher {
    match &ui.panel {
        Some(Panel::Launcher(l)) => l,
        _ => panic!("no launcher"),
    }
}

fn press(key: Key) -> KeyPress {
    KeyPress {
        key,
        text: vec![],
        plain: None,
        held: false,
        armed: false,
        modal: false,
    }
}

#[test]
fn a_focus_that_lost_its_place_goes_home() {
    let items = vec![at(Place::Tab(0), 0, 0), at(Place::Run, 0, 50)];
    assert_eq!(find(&items, ui_at(Place::Run)), Some(1));
    assert_eq!(find(&items, ui_at(Place::Save)), None);
    let mut nav = Nav::new();
    nav.show(Some(ui_at(Place::Run)));
    nav.toggle_open();
    nav.settle(&items, Some(ui_at(Place::Tab(0))));
    assert_eq!(nav.focus, Some(ui_at(Place::Run)));
    assert!(nav.open);
    nav.park(Some(ui_at(Place::Save)));
    nav.settle(&items, Some(ui_at(Place::Tab(0))));
    assert_eq!(nav.focus, Some(ui_at(Place::Tab(0))));
    assert!(nav.showing && !nav.open);
    nav.settle(&vec![], Some(ui_at(Place::Tab(0))));
    assert_eq!(nav.focus, None);
    nav.clear();
    assert_eq!(nav, Nav::new());
}

#[test]
fn a_held_direction_walks_slowly_and_then_faster() {
    assert_eq!(
        [pad_nav_every(1200), pad_nav_every(1201), pad_nav_every(2601)],
        [180, 110, 70]
    );
    let mut down = pad();
    down.down = true;
    let mut n = PadNav::seeded(pad(), 0);
    let steps = |n: &mut PadNav, p: JoyState, now: u64| n.pad_drives_interface(p, now).step;
    assert_eq!(steps(&mut n, down, 1000), Some(Dir::Down));
    assert_eq!(steps(&mut n, down, 1419), None);
    assert_eq!(steps(&mut n, down, 1420), Some(Dir::Down));
    assert_eq!(steps(&mut n, down, 1599), None);
    assert_eq!(steps(&mut n, down, 1600), Some(Dir::Down));
    assert_eq!(steps(&mut n, pad(), 1601), None);
    assert_eq!(steps(&mut n, down, 1602), Some(Dir::Down));
    down.up = true;
    assert_eq!(steps(&mut n, down, 1603), Some(Dir::Up));
}

#[test]
fn a_pad_button_acts_once_and_not_by_arriving() {
    let mut fire = pad();
    fire.fire = true;
    fire.button2 = true;
    let none = PadCalls {
        step: None,
        press: false,
        back: false,
    };
    let mut held = fire;
    held.up = true;
    let mut n = PadNav::seeded(held, 5);
    assert_eq!(n.pad_drives_interface(held, 5), none);
    assert_eq!(n.pad_drives_interface(held, 424), none);
    assert_eq!(n.pad_drives_interface(held, 425).step, Some(Dir::Up));
    let mut n = PadNav::seeded(fire, 5);
    assert_eq!(n.pad_drives_interface(fire, 10), none);
    assert_eq!(n.pad_drives_interface(pad(), 20), none);
    let both = PadCalls {
        step: None,
        press: true,
        back: true,
    };
    assert_eq!(n.pad_drives_interface(fire, 30), both);
    assert_eq!(n.pad_drives_interface(fire, 900), none);
}

#[test]
fn held_steppers_repeat_under_the_pointer_only() {
    let volume = LauncherField::FloppyVolume;
    assert_eq!(cycle_hold_delay(volume), 400);
    assert_eq!(cycle_hold_delay(LauncherField::Other(3)), 1000);
    assert_eq!(cycle_hold_every(volume, 1800), 140);
    assert_eq!(cycle_hold_every(volume, 4000), 55);
    assert_eq!(cycle_hold_every(volume, 4001), 25);
    assert_eq!(cycle_hold_every(LauncherField::Other(3), 9000), 1000);
    let mut hold = Some(CycleHold {
        field: volume,
        up: true,
        due: 400,
        started: 0,
    });
    let on = Some((volume, true));
    assert!(!repeat_held_cycle(&mut hold, on, 399));
    assert!(repeat_held_cycle(&mut hold, on, 400));
    assert_eq!(hold.unwrap().due, 540);
    assert!(!repeat_held_cycle(&mut hold, Some((volume, false)), 900));
    assert!(hold.is_none());
    assert!(!repeat_held_cycle(&mut hold, on, 900));
}

#[test]
fn the_focus_walks_past_buttons_that_would_do_nothing() {
    let drive = |connected: bool, inserted: bool, multi: bool, bridged: bool| DriveMedia {
        connected,
        inserted,
        multi,
        bridged,
    };
    let media = MediaBar {
        drives: vec![drive(true, true, false, false), drive(true, true, true, true)],
        cd: Some(false),
    };
    assert!(media.bar_control_live(BarControl::DriveLoad(0)));
    assert!(media.bar_control_live(BarControl::DriveEject(0)));
    assert!(!media.bar_control_live(BarControl::DriveSwap(0)));
    assert!(!media.bar_control_live(BarControl::DriveLoad(1)));
    assert!(!media.bar_control_live(BarControl::DriveLoad(7)));
    assert!(!media.bar_control_live(BarControl::CdEject));
    assert!(media.bar_control_live(BarControl::Menu));
    let bars = vec![bar(BarControl::Menu), bar(BarControl::DriveSwap(0))];
    let items = nav_items(vec![at(Place::Run, 0, 0)], &bars, &media, false);
    assert_eq!(items.len(), 2);
    assert_eq!(items[1].target, NavTarget::Bar(BarControl::Menu));
    assert_eq!(nav_items(vec![], &bars, &media, true).len(), 0);
    assert!(launcher_action_control(Place::Defaults));
    assert!(!launcher_action_control(Place::Tab(1)));
}

#[test]
fn a_line_is_edited_at_its_caret() {
    let mut e = edit("ac", 1);
    e.insert('b', None);
    assert_eq!(e, edit("abc", 2));
    e.backspace();
    assert_eq!(e, edit("ac", 1));
    e.delete();
    assert_eq!(e, edit("a", 1));
    e.delete();
    assert_eq!(e, edit("a", 1));
    e.caret_move(CaretMove::Home);
    e.backspace();
    assert_eq!(e, edit("a", 0));
    e.type_text(&chars("x\u{7f}\ny\u{85}z"), None);
    assert_eq!(e, edit("xyza", 3));
    e.caret_move(CaretMove::End);
    e.type_text(&chars("12345"), Some(6));
    assert_eq!(e, edit("xyza12", 6));
    e.insert('!', Some(6));
    assert_eq!(e, edit("xyza12", 6));
    e.edit(Key::Left, &[], None);
    e.edit(Key::Right, &[], None);
    e.edit(Key::Right, &[], None);
    assert_eq!(e.caret, 6);
}

#[test]
fn the_sign_in_dialog_takes_its_keys() {
    let mut d = LoginDialog::new();
    let mut fx = Effects::new();
    let step = d.login_handle_key(&mut fx, Key::Other, &chars("me"), false, None);
    assert_eq!(step, DialogStep::Taken);
    d.login_handle_key(&mut fx, Key::Tab, &[], false, None);
    d.login_paste(&mut fx, &chars("secret\n"));
    assert_eq!(d.user, edit("me", 2));
    assert_eq!(d.pass, edit("secret", 6));
    assert_eq!(fx.take().len(), 3);
    let mut step = |d: &mut LoginDialog, key: Key, held: bool, focus: Option<NavTarget>| {
        d.login_handle_key(&mut fx, key, &[], held, focus)
    };
    assert_eq!(step(&mut d, Key::V, true, None), DialogStep::Paste);
    assert_eq!(step(&mut d, Key::V, false, None), DialogStep::Taken);
    assert_eq!(step(&mut d, Key::Enter, false, None), DialogStep::Submit);
    assert_eq!(
        step(&mut d, Key::Enter, false, Some(ui_at(Place::LoginCancel))),
        DialogStep::Pass
    );
    assert_eq!(step(&mut d, Key::Up, false, None), DialogStep::Pass);
    assert_eq!(step(&mut d, Key::Escape, false, None), DialogStep::Close);
    assert!(!nav_dialog_key_is_focus(
        Key::Left,
        Some(ui_at(Place::MetaSave)),
        &[Place::LoginOk]
    ));
}

#[test]
fn the_editor_of_particulars_keeps_its_limits() {
    let mut d = MetaDialog {
        boxes: vec![edit("", 0), edit("", 0)],
        most: vec![4, 2],
        focus: 0,
    };
    let mut fx = Effects::new();
    d.meta_paste(&mut fx, &chars("abcdef"));
    d.meta_handle_key(&mut fx, Key::Tab, &[], false, None);
    d.meta_handle_key(&mut fx, Key::Other, &chars("xyz"), false, None);
    d.meta_handle_key(&mut fx, Key::Other, &chars("no"), true, None);
    d.meta_handle_key(&mut fx, Key::Tab, &[], false, None);
    assert_eq!(d.focus, 0);
    assert_eq!(d.boxes, vec![edit("abcd", 4), edit("xy", 2)]);
    d.focus_on(9);
    assert_eq!(d.focus, 0);
    fx.take();
    let step = d.meta_handle_key(&mut fx, Key::Enter, &[], false, None);
    assert_eq!(step, DialogStep::Submit);
    assert!(fx.take().is_empty());
}

#[test]
fn an_options_text_box_takes_text_or_the_plain_key() {
    let mut fx = Effects::new();
    let mut none = None;
    assert_eq!(
        launcher_handle_edit_key(&mut none, &mut fx, Key::Enter, &[], None),
        EditStep::Pass
    );
    assert!(fx.take().is_empty());
    let mut e = Some(edit("a", 1));
    assert_eq!(
        launcher_handle_edit_key(&mut e, &mut fx, Key::Other, &[], Some('b')),
        EditStep::Edited
    );
    launcher_handle_edit_key(&mut e, &mut fx, Key::Other, &chars("C"), Some('c'));
    launcher_handle_edit_key(&mut e, &mut fx, Key::Home, &[], Some('h'));
    assert_eq!(e, Some(edit("abC", 0)));
    assert_eq!(
        launcher_handle_edit_key(&mut e, &mut fx, Key::Enter, &[], None),
        EditStep::Commit
    );
}

#[test]
fn a_list_stops_at_its_ends_and_shows_its_row() {
    let mut l = library(LibraryFocus::Games, 10, 0, 0);
    assert!(l.library_at_end(true) && !l.library_at_end(false));
    l.step_library_focus(ListStep::On(4), 3);
    assert_eq!((l.selected, l.scroll), (4, 2));
    l.step_library_focus(ListStep::Last, 3);
    assert_eq!((l.selected, l.scroll), (9, 7));
    assert!(l.library_at_end(false));
    l.step_library_focus(ListStep::Back(50), 3);
    assert_eq!((l.selected, l.scroll), (0, 0));
    let mut empty = library(LibraryFocus::Favourites, 10, 5, 3);
    empty.step_library_focus(ListStep::Last, 3);
    assert_eq!(empty, library(LibraryFocus::Favourites, 10, 5, 3));
    assert!(empty.library_at_end(true) && empty.library_at_end(false));
}

#[test]
fn cells_of_a_row_are_walked_across_it() {
    let items = vec![
        at(Place::LibraryPick(0), 0, 0),
        at(Place::LibraryFavourite(0), 0, 0),
        at(Place::LibraryUpdate, 300, 0),
        at(Place::LibraryRefresh, 200, 0),
        at(Place::HostDiskSelect(2), 0, 50),
        at(Place::HostDiskWritable(2), 0, 50),
        at(Place::HostDiskMount, 0, 90),
    ];
    let across = |p: Place, dir: Dir| nav_row_across(&items, Some(ui_at(p)), dir);
    let fav = Some(ui_at(Place::LibraryFavourite(0)));
    assert_eq!(across(Place::LibraryPick(0), Dir::Right), fav);
    assert_eq!(
        across(Place::LibraryFavourite(0), Dir::Left),
        Some(ui_at(Place::LibraryPick(0)))
    );
    assert_eq!(
        across(Place::LibraryFavourite(0), Dir::Right),
        Some(ui_at(Place::LibraryRefresh))
    );
    assert_eq!(
        across(Place::HostDiskSelect(2), Dir::Right),
        Some(ui_at(Place::HostDiskWritable(2)))
    );
    assert_eq!(
        across(Place::HostDiskWritable(2), Dir::Right),
        Some(ui_at(Place::HostDiskMount))
    );
    // The blank cell between them is no place to stand.
    assert_eq!(
        across(Place::HostDiskWritable(2), Dir::Left),
        Some(ui_at(Place::HostDiskSelect(2)))
    );
    assert_eq!(
        across(Place::HostDiskEnable(2), Dir::Left),
        Some(ui_at(Place::HostDiskWritable(2)))
    );
    assert_eq!(across(Place::HostDiskEnable(3), Dir::Left), None);
    assert_eq!(across(Place::LibraryPick(0), Dir::Down), None);
    assert_eq!(nav_row_across(&items, None, Dir::Right), None);
    assert_eq!(nav_row_beside(ui_at(Place::Run)), None);
    assert_eq!(host_disk_row_of(Place::HostDiskEnable(3)), Some(3));
    assert_eq!(host_disk_row_of(Place::Run), None);
    assert_eq!(
        host_disk_row_at(Place::HostDiskEnable(3), 4),
        Place::HostDiskEnable(4)
    );
}

#[test]
fn a_page_is_entered_at_its_letters_games_pages_or_settings() {
    let mut items = vec![
        at(Place::Tab(0), 0, 0),
        at(Place::Other(1), 20, 0),
        at(Place::Other(2), 60, 30),
        at(Place::Other(3), 50, 30),
        at(Place::Run, 45, 0),
    ];
    assert_eq!(nav_page_entry(&items, Some(0)), Some(ui_at(Place::Other(3))));
    assert_eq!(nav_page_entry(&items, None), Some(ui_at(Place::Other(1))));
    items.push(at(Place::NavTab(1), 50, 5));
    assert_eq!(nav_page_entry(&items, Some(0)), Some(ui_at(Place::NavTab(1))));
    items.push(at(Place::LibraryPick(1), 50, 60));
    items.push(at(Place::LibraryPick(0), 50, 50));
    assert_eq!(
        nav_page_entry(&items, Some(0)),
        Some(ui_at(Place::LibraryPick(0)))
    );
    items.push(at(Place::LibraryJump(2), 80, 20));
    items.push(at(Place::LibraryJump(0), 60, 20));
    assert_eq!(
        nav_page_entry(&items, Some(0)),
        Some(ui_at(Place::LibraryJump(0)))
    );
    assert_eq!(
        find_foremost(&items, Want::Letters),
        Some(ui_at(Place::LibraryJump(0)))
    );
    assert_eq!(find_foremost(&items, Want::ListButtons), None);
}

#[test]
fn a_dialog_is_walked_in_the_order_it_reads() {
    let mut l = Launcher::new();
    assert_eq!(l.nav_home(), ui_at(Place::Tab(0)));
    l.login = Some(LoginDialog::new());
    assert_eq!(l.nav_home(), ui_at(Place::LoginField(LoginField::User)));
    assert_eq!(l.nav_dialog_order().len(), 4);
    let items = vec![
        at(Place::LoginOk, 0, 0),
        at(Place::LoginField(LoginField::User), 0, 0),
        at(Place::LoginField(LoginField::Pass), 0, 0),
    ];
    let pass = Some(ui_at(Place::LoginField(LoginField::Pass)));
    assert_eq!(
        l.nav_dialog_step(&items, None, Dir::Down),
        Some(ui_at(Place::LoginField(LoginField::User)))
    );
    assert_eq!(
        l.nav_dialog_step(&items, pass, Dir::Down),
        Some(ui_at(Place::LoginOk))
    );
    assert_eq!(
        l.nav_dialog_step(&items, Some(ui_at(Place::LoginOk)), Dir::Down),
        None
    );
    l.save_dialog = true;
    assert_eq!(l.nav_home(), ui_at(Place::SaveAction(0)));

    let mut ui = launcher_ui(Launcher {
        save_dialog: false,
        ..l
    });
    let mut fx = Effects::new();
    ui.nav.show(Some(ui_at(Place::LoginField(LoginField::User))));
    assert_eq!(ui.nav_move(&mut fx, Dir::Down, &items, facts()), NavStep::Done);
    assert_eq!(ui.nav.focus, pass);
    assert_eq!(launcher(&ui).login.as_ref().unwrap().focus, LoginField::Pass);
}

#[test]
fn left_of_a_setting_is_the_column() {
    let l = Launcher::new();
    let items = vec![at(Place::Tab(0), 0, 0), at(Place::Other(1), 60, 0)];
    let home = Some(ui_at(Place::Tab(0)));
    assert_eq!(l.nav_column_home(&items, Some(ui_at(Place::Other(1)))), home);
    assert_eq!(l.nav_column_home(&items, home), None);
    assert_eq!(l.nav_column_home(&items, Some(ui_at(Place::Run))), None);
    let mut ui = launcher_ui(Launcher::new());
    let mut fx = Effects::new();
    ui.nav.show(Some(ui_at(Place::Other(1))));
    assert_eq!(
        ui.nav_move(&mut fx, Dir::Left, &items, facts()),
        NavStep::Geometry
    );
    ui.nav_geometry(&mut fx, Dir::Left, &items, None, false, 9);
    assert_eq!((ui.nav.focus, ui.shown_at), (home, 9));
    ui.nav_geometry(&mut fx, Dir::Right, &items, None, false, 10);
    assert_eq!(ui.nav.focus, Some(ui_at(Place::Other(1))));
    ui.nav_geometry(&mut fx, Dir::Down, &items, home, false, 11);
    assert_eq!(ui.nav.focus, home);
}

#[test]
fn a_list_walks_under_the_focus_and_then_lets_it_go() {
    let mut l = Launcher::new();
    l.library = library(LibraryFocus::Games, 5, 0, 0);
    let items = vec![
        at(Place::LibraryPick(0), 0, 0),
        at(Place::LibraryPick(1), 0, 10),
        at(Place::LibraryPick(2), 0, 20),
    ];
    let mut ui = launcher_ui(l);
    let mut fx = Effects::new();
    ui.nav.show(Some(ui_at(Place::LibraryPick(0))));
    for _ in 0..4 {
        assert_eq!(ui.nav_move(&mut fx, Dir::Down, &items, facts()), NavStep::Done);
    }
    let lib = launcher(&ui).library;
    assert_eq!((lib.selected, lib.scroll), (4, 2));
    assert_eq!(ui.nav.focus, Some(ui_at(Place::LibraryPick(2))));
    assert_eq!(
        ui.nav_move(&mut fx, Dir::Down, &items, facts()),
        NavStep::Geometry
    );
    ui.step_library_list(&mut fx, ListStep::First, 3);
    assert_eq!(ui.nav.focus, Some(ui_at(Place::LibraryPick(0))));
}

#[test]
fn the_disk_list_scrolls_rather_than_lose_the_focus() {
    let mut l = Launcher::new();
    l.disks = HostDisks { count: 4, scroll: 0 };
    let items = vec![at(Place::HostDiskAttach(1), 0, 0)];
    let mut ui = launcher_ui(l);
    let mut fx = Effects::new();
    ui.nav.show(Some(ui_at(Place::HostDiskAttach(1))));
    assert_eq!(
        ui.nav_move(&mut fx, Dir::Down, &items, facts()),
        NavStep::Disk {
            landing: Place::HostDiskAttach(2),
            row: 2
        }
    );
    assert!(fx.take().is_empty());
    assert_eq!(launcher(&ui).disks.scroll, 1);
    ui.nav_disk_landed(&mut fx, Place::HostDiskAttach(2), 2, false, 5);
    assert_eq!(ui.nav.focus, Some(ui_at(Place::HostDiskSelect(2))));
    ui.nav_disk_landed(&mut fx, Place::HostDiskAttach(2), 2, true, 6);
    assert_eq!(ui.nav.focus, Some(ui_at(Place::HostDiskAttach(2))));
}

#[test]
fn the_first_press_only_shows_the_focus() {
    let items = vec![at(Place::Run, 0, 0), at(Place::Cycle(4, true), 0, 10)];
    let mut ui = Ui::new(false);
    let mut fx = Effects::new();
    assert_eq!(ui.nav_press(&mut fx, &items, 3), NavStep::Done);
    assert_eq!(ui.nav.focus, Some(ui_at(Place::Run)));
    assert_eq!(
        ui.nav_press(&mut fx, &items, 4),
        NavStep::Work(ui_at(Place::Run))
    );
    ui.nav_show(Some(ui_at(Place::Cycle(4, true))), 100);
    assert_eq!(ui.nav_light(), Some(Place::Cycle(4, false)));
    assert_eq!(ui.nav_press(&mut fx, &items, 5), NavStep::Done);
    assert!(ui.nav.open);
    assert_eq!(
        ui.nav_move(&mut fx, Dir::Left, &items, facts()),
        NavStep::Work(ui_at(Place::Cycle(4, false)))
    );
    assert_eq!(
        ui.nav_move(&mut fx, Dir::Up, &items, facts()),
        NavStep::Geometry
    );
    assert!(!ui.nav.open);
    assert_eq!(ui.nav_press(&mut fx, &vec![], 5), NavStep::NotTaken);
    assert_eq!(ui.nav_phase(100 + 1700 + 30), 30);
    assert_eq!(ui.nav_phase(99), 0);
    ui.nav_show(Some(NavTarget::Bar(BarControl::Volume)), 0);
    assert_eq!(ui.nav_bar_light(), Some(BarControl::Volume));
    assert_eq!(ui.nav_light(), None);
    let bars = vec![bar(BarControl::Volume)];
    ui.nav_press(&mut fx, &bars, 6);
    assert_eq!(
        ui.nav_move(&mut fx, Dir::Right, &bars, facts()),
        NavStep::Volume { up: true }
    );
}

#[test]
fn a_worked_control_leads_where_it_opened() {
    let mut ui = launcher_ui(Launcher::new());
    let mut fx = Effects::new();
    let tab = ui_at(Place::Tab(0));
    ui.nav.show(Some(tab));
    let page = vec![at(Place::Other(1), 60, 0), at(Place::Tab(0), 0, 0)];
    ui.nav_worked(&mut fx, tab, &page);
    assert_eq!((ui.entered_from, ui.nav.focus), (Some(tab), Some(tab)));
    let row = vec![at(Place::LibraryPick(0), 0, 0), at(Place::LibraryFavourite(0), 0, 0)];
    ui.nav_worked(&mut fx, ui_at(Place::LibraryFavourite(0)), &row);
    assert_eq!(ui.nav.focus, Some(ui_at(Place::LibraryPick(0))));
    ui.panel = None;
    fx.take();
    ui.nav_worked(&mut fx, ui_at(Place::Run), &vec![]);
    assert_eq!(fx.take(), vec![Effect::AutoCaptureMouse, Effect::Redraw]);
    assert_eq!(ui.nav.focus, None);
}

#[test]
fn back_leads_out_step_by_step() {
    let row = |kind: RowKind| MenuRow {
        enabled: true,
        kind,
    };
    let mut ui = launcher_ui(Launcher::new());
    let mut fx = Effects::new();
    ui.menu.open = true;
    ui.menu.rows = vec![row(RowKind::Submenu(vec![row(RowKind::Run(
        MenuAction::OpenAbout,
        true,
    ))]))];
    ui.menu.path = vec![0];
    ui.menu.cursor = Some(0);
    ui.nav_back(&mut fx, &vec![], false, 1);
    assert!(ui.menu.open && ui.menu.path.is_empty());
    ui.nav_back(&mut fx, &vec![], false, 2);
    assert!(!ui.menu.open);
    let items = vec![at(Place::Tab(0), 0, 0), at(Place::Other(1), 60, 0)];
    ui.entered_from = Some(ui_at(Place::Tab(0)));
    ui.nav.show(Some(ui_at(Place::Other(1))));
    ui.nav_back(&mut fx, &items, true, 3);
    assert_eq!(ui.nav.focus, Some(ui_at(Place::Tab(0))));
    assert!(ui.panel.is_some() && ui.entered_from.is_none());
    ui.nav_back(&mut fx, &items, false, 4);
    assert!(ui.panel.is_none());
    assert_eq!(ui.nav, Nav::new());
}

#[test]
fn walking_off_the_menus_foot_reaches_the_bar() {
    let mut ui = Ui::new(false);
    let mut fx = Effects::new();
    ui.menu.open = true;
    ui.menu.rows = vec![MenuRow {
        enabled: true,
        kind: RowKind::Text,
    }];
    assert_eq!(ui.nav_press(&mut fx, &vec![], 0), NavStep::PickRow);
    ui.nav_move(&mut fx, Dir::Down, &vec![], facts());
    assert_eq!(ui.menu.cursor, Some(0));
    ui.nav_move(&mut fx, Dir::Up, &vec![], facts());
    assert_eq!(ui.menu.cursor, Some(0));
    ui.nav_move(&mut fx, Dir::Down, &vec![], facts());
    assert!(!ui.menu.open);
    assert_eq!(ui.nav.focus, Some(NavTarget::Bar(BarControl::Menu)));
    assert_eq!(ui.shown_at, 77);
}

#[test]
fn the_first_layer_that_wants_a_key_has_it() {
    let mut fx = Effects::new();
    let none = vec![];
    let mut ui = Ui::new(false);
    assert_eq!(
        ui.ui_handle_key(&mut fx, &press(Key::Enter), &none, facts()),
        KeyStep::NotTaken
    );
    let mut armed = press(Key::Escape);
    armed.armed = true;
    assert_eq!(
        ui.ui_handle_key(&mut fx, &armed, &none, facts()),
        KeyStep::NotTaken
    );
    ui.panel = Some(Panel::InputMapping);
    assert_eq!(
        ui.ui_handle_key(&mut fx, &armed, &none, facts()),
        KeyStep::Bind
    );
    assert!(ui.panel.is_some());
    ui.panel = Some(Panel::DropChooser(vec![0, 2]));
    assert_eq!(
        ui.ui_handle_key(&mut fx, &press(Key::Digit(2)), &none, facts()),
        KeyStep::Drop(Some(2))
    );
    assert_eq!(
        ui.ui_handle_key(&mut fx, &press(Key::Digit(3)), &none, facts()),
        KeyStep::Drop(None)
    );
    assert_eq!(
        ui.ui_handle_key(&mut fx, &press(Key::Escape), &none, facts()),
        KeyStep::Done
    );
    assert!(ui.panel.is_none());

    let mut l = Launcher::new();
    l.editing = Some(edit("", 0));
    l.library_page = true;
    l.library = library(LibraryFocus::Games, 9, 0, 0);
    let mut ui = launcher_ui(l);
    let mut typed = press(Key::Other);
    typed.text = chars("7");
    assert_eq!(
        ui.ui_handle_key(&mut fx, &typed, &none, facts()),
        KeyStep::Edit(EditStep::Edited)
    );
    assert_eq!(launcher(&ui).editing, Some(edit("7", 1)));
    assert_eq!(
        ui.ui_handle_key(&mut fx, &press(Key::Escape), &none, facts()),
        KeyStep::Done
    );
    assert!(ui.panel.is_some() && launcher(&ui).editing.is_none());
    ui.nav.show(Some(ui_at(Place::LibraryPick(0))));
    assert_eq!(
        ui.ui_handle_key(&mut fx, &press(Key::Enter), &none, facts()),
        KeyStep::RunGame
    );
    assert_eq!(
        ui.ui_handle_key(&mut fx, &press(Key::End), &none, facts()),
        KeyStep::Done
    );
    assert_eq!(launcher(&ui).library.selected, 8);
    ui.panel = None;
    assert_eq!(
        ui.ui_handle_key(&mut fx, &press(Key::Escape), &none, facts()),
        KeyStep::Done
    );
    assert!(!ui.nav.showing);
}

#[test]
fn a_cancelled_sign_in_is_gone() {
    let mut l = Launcher::new();
    l.login = Some(LoginDialog::new());
    let mut ui = launcher_ui(l);
    let mut fx = Effects::new();
    assert_eq!(
        ui.ui_handle_key(&mut fx, &press(Key::Enter), &vec![], facts()),
        KeyStep::Login(DialogStep::Submit)
    );
    assert!(launcher(&ui).login.is_some());
    assert_eq!(
        ui.ui_handle_key(&mut fx, &press(Key::Escape), &vec![], facts()),
        KeyStep::Login(DialogStep::Close)
    );
    assert!(launcher(&ui).login.is_none());
    assert_eq!(fx.take(), vec![Effect::Redraw, Effect::Redraw]);
}

#[test]
fn the_menus_keys_walk_it_and_back_out() {
    let mut ui = Ui::new(false);
    let mut fx = Effects::new();
    ui.menu.open = true;
    ui.menu.rows = vec![MenuRow {
        enabled: true,
        kind: RowKind::Run(MenuAction::ToggleWarp, false),
    }];
    let none = vec![];
    assert_eq!(
        ui.handle_menu_key(&mut fx, Key::Down, &none, facts()).0,
        KeyStep::Nav(NavStep::Done)
    );
    assert_eq!(
        ui.handle_menu_key(&mut fx, Key::Enter, &none, facts()),
        (
            KeyStep::Done,
            RowPress::Run {
                action: MenuAction::ToggleWarp,
                closes: false
            }
        )
    );
    assert_eq!(
        ui.handle_menu_key(&mut fx, Key::Tab, &none, facts()),
        (KeyStep::NotTaken, RowPress::Nothing)
    );
    ui.handle_menu_key(&mut fx, Key::Escape, &none, facts());
    assert!(!ui.menu.open);
}
