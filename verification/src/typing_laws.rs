//! What the keyboard and the pad do to the interface: how text is edited, which layer
//! gets a key, and how a held direction repeats.

use vstd::prelude::*;

use crate::entry::CaretMove;
use crate::entry::DialogStep;
use crate::entry::EditStep;
use crate::entry::Key;
use crate::entry::LoginDialog;
use crate::entry::MetaDialog;
use crate::entry::TextEdit;
use crate::entry::dialog_effects;
use crate::entry::dialog_step;
use crate::entry::is_focus_key;
use crate::entry::login_buttons;
use crate::entry::meta_buttons;
use crate::entry::reaches_box;
use crate::entry::room;
use crate::entry::visible;
use crate::keys::KeyPress;
use crate::keys::KeyStep;
use crate::keys::direction;
use crate::nav::BarControl;
use crate::nav::Dir;
use crate::nav::LauncherField;
use crate::nav::MediaBar;
use crate::nav::Nav;
use crate::nav::NavItem;
use crate::nav::NavTarget;
use crate::nav::PadNav;
use crate::nav::Place;
use crate::nav::cycle_gap;
use crate::nav::has_place;
use crate::nav::is_action;
use crate::nav::is_at;
use crate::nav::pushed;
use crate::nav::ramps;
use crate::nav::walkable;
use crate::netplay::JoyState;
use crate::ui::Panel;
use crate::ui::Ui;
use crate::ui::WalkFacts;

verus! {

/// The caret moves one character either way and to either end, and never past one;
/// moving left after right is where it was.
pub proof fn lemma_caret(e: TextEdit, f: TextEdit)
    requires
        e.wf(),
    ensures
        e.moved(CaretMove::Home) == 0,
        e.moved(CaretMove::End) == e.chars@.len(),
        e.caret > 0 ==> e.moved(CaretMove::Left) == e.caret - 1,
        e.caret == 0 ==> e.moved(CaretMove::Left) == 0,
        e.caret < e.chars@.len() ==> e.moved(CaretMove::Right) == e.caret + 1,
        e.caret == e.chars@.len() ==> e.moved(CaretMove::Right) == e.caret,
        f.chars == e.chars && f.caret == e.moved(CaretMove::Right) && e.caret < e.chars@.len()
            ==> f.moved(CaretMove::Left) == e.caret,
{
    assert(e.chars@.len() == e.chars.len());
}

/// The editing keys: each does its own, and leaves the characters that it does not erase.
pub proof fn lemma_editing_keys(e: TextEdit, n: TextEdit, text: Seq<char>, most: Option<usize>)
    requires
        e.wf(),
    ensures
        e.edited(&n, Key::Backspace, text, most) && e.caret > 0 ==> n.caret == e.caret - 1
            && n.chars@ == e.chars@.take(e.caret - 1) + e.chars@.skip(e.caret as int),
        e.edited(&n, Key::Backspace, text, most) && e.caret == 0 ==> n == e,
        e.edited(&n, Key::Delete, text, most) && e.caret < e.chars@.len() ==> n.caret == e.caret
            && n.chars@ == e.chars@.take(e.caret as int) + e.chars@.skip(e.caret + 1),
        e.edited(&n, Key::Delete, text, most) && e.caret == e.chars@.len() ==> n == e,
        e.edited(&n, Key::Left, text, most) ==> n.chars == e.chars && (e.caret > 0 ==> n.caret
            == e.caret - 1),
        e.edited(&n, Key::Right, text, most) ==> n.chars == e.chars && (e.caret < e.chars@.len()
            ==> n.caret == e.caret + 1),
        e.edited(&n, Key::Home, text, most) ==> n.chars == e.chars && n.caret == 0,
        e.edited(&n, Key::End, text, most) ==> n.chars == e.chars && n.caret == e.chars@.len(),
{
    assert(e.chars@.len() == e.chars.len());
    if e.caret > 0 {
        assert(e.chars@.remove(e.caret - 1) =~= e.chars@.take(e.caret - 1) + e.chars@.skip(
            e.caret as int,
        ));
    }
    if e.caret < e.chars@.len() {
        assert(e.chars@.remove(e.caret as int) =~= e.chars@.take(e.caret as int) + e.chars@.skip(
            e.caret + 1,
        ));
    }
}

/// A character that can be seen is typed at the caret and the caret follows it, as long
/// as there is room; a control character is not typed.
pub proof fn lemma_typing(e: TextEdit, n: TextEdit, c: char, most: Option<usize>)
    requires
        e.wf(),
        e.typed(&n, seq![c], most),
    ensures
        ' ' <= c <= '~' && (most matches Some(m) ==> e.chars@.len() < m) ==> n.chars@
            == e.chars@.insert(e.caret as int, c) && n.caret == e.caret + 1,
        c < ' ' || c as u32 == 0x7F ==> n.chars@ == e.chars@ && n.caret == e.caret,
        most matches Some(m) ==> (e.chars@.len() >= m ==> n.chars@ == e.chars@ && n.caret
            == e.caret),
{
    reveal_with_fuel(Seq::filter, 2);
    let v = visible(seq![c]);
    assert(seq![c].drop_last() =~= Seq::<char>::empty());
    if crate::entry::is_control(c) {
        assert(v =~= Seq::<char>::empty());
    } else {
        assert(v =~= seq![c]);
    }
    let k = room(e.chars@.len() as int, most, v.len() as int);
    let t = v.take(k);
    if k == 0 {
        assert(t =~= Seq::<char>::empty());
        assert(n.chars@ =~= e.chars@);
    } else {
        assert(t =~= seq![c]);
        assert(n.chars@ =~= e.chars@.insert(e.caret as int, c));
    }
}

/// What a dialog makes of a key: what belongs to the focus passes it, Escape closes it,
/// Enter submits it, the shortcut for pasting pastes, and it takes every other key.
pub proof fn lemma_dialog_keys(key: Key, held: bool)
    ensures
        dialog_step(key, held, true) is Pass,
        dialog_step(Key::Escape, held, false) is Close,
        dialog_step(Key::Enter, held, false) is Submit,
        dialog_step(Key::V, true, false) is Paste,
        dialog_step(Key::V, false, false) is Taken,
        !(key is Escape) && !(key is Enter) && !(key is V) ==> dialog_step(key, held, false)
            is Taken,
        held ==> (reaches_box(key, held) <==> key is Tab || key is Backspace),
        reaches_box(key, false),
{
}

/// Up and Down always walk the focus; the other keys that walk and press it do so only
/// while it stands on one of the dialog's buttons.
pub proof fn lemma_focus_keys(key: Key, focus: Option<NavTarget>, p: Place)
    ensures
        key is Up || key is Down ==> is_focus_key(key, focus, login_buttons()) && is_focus_key(
            key,
            focus,
            meta_buttons(),
        ),
        focus == Some(NavTarget::Ui(p)) && (p is LoginOk || p is LoginCancel) && (key is Left
            || key is Right || key is Enter || key is Space) ==> is_focus_key(
            key,
            focus,
            login_buttons(),
        ),
        focus == Some(NavTarget::Ui(p)) && (p is MetaSave || p is MetaClear || p is MetaCancel
            || p is MetaArt) && (key is Left || key is Right || key is Enter || key is Space)
            ==> is_focus_key(key, focus, meta_buttons()),
        focus is None && !(key is Up) && !(key is Down) ==> !is_focus_key(
            key,
            focus,
            login_buttons(),
        ) && !is_focus_key(key, focus, meta_buttons()),
        !(key is Up || key is Down || key is Left || key is Right || key is Enter || key is Space)
            ==> !is_focus_key(key, focus, login_buttons()) && !is_focus_key(
            key,
            focus,
            meta_buttons(),
        ),
{
    assert(login_buttons()[0] is LoginOk && login_buttons()[1] is LoginCancel);
    assert(meta_buttons()[0] is MetaSave && meta_buttons()[1] is MetaClear && meta_buttons()[2]
        is MetaCancel && meta_buttons()[3] is MetaArt);
}

/// A key that a dialog took, and its closing, are drawn; a key that passes it, and a paste
/// that is still to come, are not. Submitting draws unless what follows does.
pub proof fn lemma_dialog_draws(step: DialogStep, submit_draws: bool)
    ensures
        step is Taken || step is Close ==> dialog_effects(step, submit_draws).len() == 1,
        step is Pass || step is Paste ==> dialog_effects(step, submit_draws).len() == 0,
        step is Submit ==> dialog_effects(step, submit_draws).len() == (if submit_draws {
            0int
        } else {
            1
        }),
{
}

/// Tab goes to the other box of the login dialog and back; any other key edits the box
/// that has the focus, and leaves the other alone.
pub proof fn lemma_login_boxes(d: LoginDialog, n: LoginDialog, key: Key, held: bool, text: Seq<char>)
    requires
        d.keyed(&n, key, held, text),
    ensures
        key is Tab ==> n.user == d.user && n.pass == d.pass && (n.focus is User <==> d.focus
            is Pass),
        !(key is Tab) ==> n.focus == d.focus,
        !(key is Tab) && d.focus is User ==> n.pass == d.pass,
        !(key is Tab) && d.focus is Pass ==> n.user == d.user,
        held && !(key is Tab) && !(key is Backspace) ==> n == d,
        !held && !(key is Tab) && d.focus is User ==> d.user.edited(&n.user, key, text, None),
        !held && !(key is Tab) && d.focus is Pass ==> d.pass.edited(&n.pass, key, text, None),
{
}

/// Tab goes through the boxes of a game's details in order and from the last to the first;
/// any other key edits the one with the focus, within its own limit.
pub proof fn lemma_meta_boxes(
    d: MetaDialog,
    n: MetaDialog,
    key: Key,
    held: bool,
    text: Seq<char>,
    i: int,
)
    requires
        d.wf(),
        d.keyed(&n, key, held, text),
        0 <= i < d.boxes@.len(),
    ensures
        key is Tab && d.focus + 1 < d.boxes@.len() ==> n.focus == d.focus + 1,
        key is Tab && d.focus + 1 == d.boxes@.len() ==> n.focus == 0,
        key is Tab ==> n.boxes == d.boxes,
        !(key is Tab) ==> n.focus == d.focus,
        !(key is Tab) && i != d.focus ==> n.boxes@[i] == d.boxes@[i],
        !held && !(key is Tab) ==> d.boxes@[d.focus as int].edited(
            &n.boxes@[d.focus as int],
            key,
            text,
            Some(d.most@[d.focus as int]),
        ),
        held && !(key is Tab) && !(key is Backspace) ==> n == d,
{
    assert(d.boxes@.len() == d.boxes.len());
    if key is Tab {
        if d.focus + 1 < d.boxes@.len() {
            vstd::arithmetic::div_mod::lemma_small_mod((d.focus + 1) as nat, d.boxes@.len());
        } else {
            vstd::arithmetic::div_mod::lemma_mod_self_0(d.boxes@.len() as int);
        }
    }
}

/// The arrows are the four directions, and no other key is one.
pub proof fn lemma_arrow_directions(key: Key)
    ensures
        direction(Key::Up) == Some(Dir::Up),
        direction(Key::Down) == Some(Dir::Down),
        direction(Key::Left) == Some(Dir::Left),
        direction(Key::Right) == Some(Dir::Right),
        !(key is Up) && !(key is Down) && !(key is Left) && !(key is Right) ==> direction(key)
            is None,
{
}

/// A pad pushed one way walks that way; a diagonal walks up or down.
pub proof fn lemma_pad_directions(pad: JoyState)
    ensures
        pad.up ==> pushed(pad) == Some(Dir::Up),
        !pad.up && pad.down ==> pushed(pad) == Some(Dir::Down),
        !pad.up && !pad.down && pad.left ==> pushed(pad) == Some(Dir::Left),
        !pad.up && !pad.down && !pad.left && pad.right ==> pushed(pad) == Some(Dir::Right),
        !pad.up && !pad.down && !pad.left && !pad.right ==> pushed(pad) is None,
        Dir::Left.across() && Dir::Right.across() && !Dir::Up.across() && !Dir::Down.across(),
{
}

/// A new direction steps at once, then after four hundred and twenty milliseconds, and
/// from there at a gap that shortens twice; a direction let go does not step. Fire
/// presses and the second button goes back when they go down.
pub proof fn lemma_pad_steps(n: PadNav, pad: JoyState, now: u64)
    requires
        now <= 0x7FFF_FFFF_FFFF_FFFF,
    ensures
        pushed(pad) is Some && n.held != pushed(pad) ==> n.calls(pad, now).step == pushed(pad)
            && n.after(pad, now).next == now + 420 && n.after(pad, now).since == now,
        pushed(pad) is Some && n.held == pushed(pad) && now < n.next ==> n.calls(pad, now).step
            is None && n.after(pad, now).next == n.next && n.after(pad, now).since == n.since,
        pushed(pad) is Some && n.held == pushed(pad) && now >= n.next ==> n.calls(pad, now).step
            == pushed(pad) && n.after(pad, now).since == n.since,
        pushed(pad) is Some && n.held == pushed(pad) && now >= n.next && n.since <= now
            ==> n.after(pad, now).next == now + (if now - n.since <= 1200 {
            180int
        } else if now - n.since <= 2600 {
            110
        } else {
            70
        }),
        pushed(pad) is None ==> n.calls(pad, now).step is None && n.after(pad, now).held is None,
        n.calls(pad, now).press == (pad.fire && !n.fire),
        n.calls(pad, now).back == (pad.button2 && !n.back),
        n.after(pad, now).fire == pad.fire && n.after(pad, now).back == pad.button2,
{
}

/// A stepper held down repeats once a second, or where its setting has many steps sooner
/// the longer it is held.
pub proof fn lemma_stepper_gaps(field: LauncherField, held: int)
    ensures
        field is Other ==> cycle_gap(field, held) == 1000,
        !(field is Other) && held <= 1800 ==> cycle_gap(field, held) == 140,
        !(field is Other) && 1800 < held <= 4000 ==> cycle_gap(field, held) == 55,
        !(field is Other) && held > 4000 ==> cycle_gap(field, held) == 25,
        ramps(field) <==> !(field is Other),
{
}

/// A focus whose place is still there stays; one whose place has gone goes home, where
/// there is one, with whatever it had open shut.
pub proof fn lemma_focus_settles(n: Nav, items: Seq<NavItem>, home: NavTarget, t: NavTarget, i: int)
    ensures
        n.focus == Some(t) && 0 <= i < items.len() && items[i].target == t ==> n.settled(
            items,
            Some(home),
        ) == n,
        n.focus == Some(t) && !has_place(items, t) && 0 <= i < items.len() && items[i].target
            == home ==> n.settled(items, Some(home)).focus == Some(home) && !n.settled(
            items,
            Some(home),
        ).open && n.settled(items, Some(home)).showing == n.showing,
        n.focus is None && !has_place(items, home) ==> n.settled(items, Some(home)).focus is None,
        Nav::shown_at(Some(t)).focus == Some(t) && Nav::shown_at(Some(t)).showing
            && !Nav::shown_at(Some(t)).open,
        !Nav::shown_at(None).showing,
        Nav::hidden().focus is None && !Nav::hidden().showing && !Nav::hidden().open,
{
    if 0 <= i < items.len() {
        assert(is_at(items, items[i].target, i));
    }
}

/// A drive's controls are live only while it is connected and no physical drive stands
/// behind it; swapping needs more disks, ejecting one in. The rest of the bar always is.
pub proof fn lemma_live_controls(m: &MediaBar, i: usize)
    ensures
        i >= m.drives@.len() ==> !m.live(BarControl::DriveLoad(i)) && !m.live(
            BarControl::DriveSwap(i),
        ) && !m.live(BarControl::DriveEject(i)),
        i < m.drives@.len() ==> {
            let d = m.drives@[i as int];
            &&& m.live(BarControl::DriveLoad(i)) <==> d.connected && !d.bridged
            &&& m.live(BarControl::DriveSwap(i)) <==> d.connected && d.multi && !d.bridged
            &&& m.live(BarControl::DriveEject(i)) <==> d.connected && d.inserted && !d.bridged
        },
        m.live(BarControl::CdEject) <==> m.cd == Some(true),
{
}

/// Everything on the page can be walked to, and of the bar what is live.
pub proof fn lemma_walkable(items: Seq<NavItem>, bar: Seq<NavItem>, m: &MediaBar, i: int)
    ensures
        0 <= i < items.len() ==> walkable(items, bar, m)[i] == items[i],
        0 <= i < bar.len() && (bar[i].target matches NavTarget::Bar(c) && m.live(c)) ==> walkable(
            items,
            bar,
            m,
        ).contains(bar[i]),
        items.len() <= i < walkable(items, bar, m).len() ==> (walkable(items, bar, m)[i].target
            matches NavTarget::Bar(c) && m.live(c)),
{
    let keep = |i: NavItem| i.target matches NavTarget::Bar(c) && m.live(c);
    let f = bar.filter(keep);
    let w = walkable(items, bar, m);
    assert(w == items + f);
    if 0 <= i < bar.len() && keep(bar[i]) {
        bar.lemma_filter_contains(keep, i);
        let j = choose|j: int| 0 <= j < f.len() && f[j] == bar[i];
        assert(w[items.len() + j] == bar[i]);
    }
    if items.len() <= i < w.len() {
        assert(w[i] == f[i - items.len()]);
        bar.lemma_filter_pred(keep, i - items.len());
    }
}

/// The launcher's own buttons.
pub proof fn lemma_launcher_actions(p: Place)
    ensures
        is_action(p) <==> p is Load || p is Save || p is SaveAs || p is Defaults || p is Run,
{
}

/// While a dialog asks for a login, its keys are its own: text goes to it and not to the
/// machine or the page behind it.
pub proof fn lemma_login_comes_before_the_page(
    o: Ui,
    n: Ui,
    k: KeyPress,
    items: Seq<NavItem>,
    f: WalkFacts,
    step: KeyStep,
)
    requires
        o.active(),
        !k.armed,
        o.launcher() matches Some(l) && l.login is Some,
        o.keyed(&n, &k, items, f, step),
        !(k.key is Up) && !(k.key is Down) && !(k.key is Left) && !(k.key is Right),
        o.nav.focus is None,
    ensures
        step matches KeyStep::Login(s) && {
            &&& k.key is Escape <==> s is Close
            &&& k.key is Enter <==> s is Submit
        },
        k.key is Escape ==> (n.launcher() matches Some(m) && m.login is None),
        !(k.key is Escape) ==> (n.launcher() matches Some(m) && m.login is Some),
        n.menu == o.menu && n.nav == o.nav,
{
}

/// Escape first cancels what is being typed, then shuts the menu, then the panel; one
/// thing at a time.
pub proof fn lemma_escape_peels(o: Ui, n: Ui)
    requires
        o.escaped(&n),
    ensures
        (o.launcher() matches Some(l) && l.editing is Some) ==> (n.launcher() matches Some(m)
            && m.editing is None) && n.menu == o.menu,
        !(o.launcher() matches Some(l) && l.editing is Some) && o.menu.open ==> !n.menu.open
            && n.panel == o.panel,
        !(o.launcher() matches Some(l) && l.editing is Some) && !o.menu.open ==> n.panel is None,
{
}

/// A dropped disk goes to the drive whose number is pressed, counting from one, if there
/// is such a drive.
pub proof fn lemma_drop_digits(o: Ui, drives: Vec<u8>, d: u8)
    requires
        o.panel == Some(Panel::DropChooser(drives)),
    ensures
        1 <= d <= drives@.len() ==> o.drop_drive(Key::Digit(d)) == Some(drives@[d - 1]),
        d == 0 || d > drives@.len() ==> o.drop_drive(Key::Digit(d)) is None,
{
}

/// In the library Enter runs a game, Home and End go to the first and the last.
pub proof fn lemma_library_keys(
    o: Ui,
    n: Ui,
    k: KeyPress,
    items: Seq<NavItem>,
    f: WalkFacts,
    step: KeyStep,
)
    requires
        o.active(),
        !k.armed,
        o.launcher() matches Some(l) && l.login is None && l.meta is None && l.editing is None
            && l.library_page,
        crate::ui::in_library(o.nav.focus),
        o.keyed(&n, &k, items, f, step),
    ensures
        k.key is Enter ==> step is RunGame && n == o,
        k.key is Home || k.key is End ==> step is Done,
{
}

/// While a value is typed, Enter commits it and every other key but Escape edits it.
pub proof fn lemma_edit_keys(
    o: Ui,
    n: Ui,
    k: KeyPress,
    items: Seq<NavItem>,
    f: WalkFacts,
    step: KeyStep,
)
    requires
        o.active(),
        !k.armed,
        o.launcher() matches Some(l) && l.login is None && l.meta is None && l.editing is Some,
        o.keyed(&n, &k, items, f, step),
        !(k.key is Escape),
    ensures
        k.key is Enter ==> step == KeyStep::Edit(EditStep::Commit),
        !(k.key is Enter) ==> step == KeyStep::Edit(EditStep::Edited),
        n.launcher() matches Some(m) && m.editing is Some,
        n.menu == o.menu && n.nav == o.nav,
{
}

} // verus!
