//! Who a key press belongs to while the interface is open: a dialog, a text
//! box, a list, the focus, or the machine after all.

use vstd::prelude::*;

use crate::effects::Effect;
use crate::effects::Effects;
use crate::entry::DialogStep;
use crate::entry::EditStep;
use crate::entry::Key;
use crate::entry::dialog_effects;
use crate::entry::dialog_step;
use crate::entry::edits;
use crate::entry::is_focus_key;
use crate::entry::launcher_handle_edit_key;
use crate::entry::login_buttons;
use crate::entry::meta_buttons;
use crate::launcher::Launcher;
use crate::launcher::ListStep;
use crate::menu::RowPress;
use crate::nav::Dir;
use crate::nav::Nav;
use crate::nav::NavItem;
use crate::ui::NavStep;
use crate::ui::Panel;
use crate::ui::Ui;
use crate::ui::WalkFacts;
use crate::ui::in_library;
use crate::ui::nav_focus_in_library;

verus! {

/// A key press, with the text that the platform gives for it and what the key
/// alone stands for. `held` says that a command modifier is down, and `armed`
/// that the next key is to be bound to an input.
#[derive(PartialEq, Eq, Debug)]
pub struct KeyPress {
    pub key: Key,
    pub text: Vec<char>,
    pub plain: Option<char>,
    pub held: bool,
    pub armed: bool,
    /// A surface that takes the whole interface is open.
    pub modal: bool,
}

/// What a layer of the interface takes keys.
#[derive(Clone, Copy, PartialEq, Eq, Structural, Debug)]
pub enum Layer {
    Binding,
    Login,
    Meta,
    Escape,
    Drop,
    Edit,
    Library,
    Focus,
    Machine,
}

/// What became of a key.
#[derive(Clone, Copy, PartialEq, Eq, Structural, Debug)]
pub enum KeyStep {
    /// The key is the machine's.
    NotTaken,
    Done,
    /// The host binds the key.
    Bind,
    Login(DialogStep),
    Meta(DialogStep),
    /// The dropped disk goes to this drive.
    Drop(Option<u8>),
    Edit(EditStep),
    /// The chosen game is to be started.
    RunGame,
    Nav(NavStep),
}

pub open spec fn direction(key: Key) -> Option<Dir> {
    match key {
        Key::Up => Some(Dir::Up),
        Key::Down => Some(Dir::Down),
        Key::Left => Some(Dir::Left),
        Key::Right => Some(Dir::Right),
        _ => None,
    }
}

fn direction_of(key: Key) -> (r: Option<Dir>)
    ensures
        r == direction(key),
{
    match key {
        Key::Up => Some(Dir::Up),
        Key::Down => Some(Dir::Down),
        Key::Left => Some(Dir::Left),
        Key::Right => Some(Dir::Right),
        _ => None,
    }
}

impl Ui {
    /// Something of the interface is open.
    pub open spec fn active(&self) -> bool {
        self.menu.open || self.panel is Some
    }

    pub open spec fn login_says(&self, k: &KeyPress) -> DialogStep {
        dialog_step(k.key, k.held, is_focus_key(k.key, self.nav.focus, login_buttons()))
    }

    pub open spec fn meta_says(&self, k: &KeyPress) -> DialogStep {
        dialog_step(k.key, k.held, is_focus_key(k.key, self.nav.focus, meta_buttons()))
    }

    /// The layer that takes a key. The first that wants it has it.
    pub open spec fn layer(&self, k: &KeyPress) -> Layer {
        let l = self.launcher();
        if self.active() && k.armed {
            Layer::Binding
        } else if self.active() && (l matches Some(s) && s.login is Some) && !(self.login_says(
            k,
        ) is Pass) {
            Layer::Login
        } else if self.active() && (l matches Some(s) && s.meta is Some) && !(self.meta_says(
            k,
        ) is Pass) {
            Layer::Meta
        } else if self.active() && k.key is Escape {
            Layer::Escape
        } else if self.active() && (self.panel matches Some(Panel::DropChooser(_))) && (
        k.key matches Key::Digit(d) && 1 <= d <= 4) {
            Layer::Drop
        } else if self.active() && (l matches Some(s) && s.editing is Some) {
            Layer::Edit
        } else if self.active() && (l matches Some(s) && s.library_page) && in_library(
            self.nav.focus,
        ) && (k.key is Enter || k.key is Home || k.key is End) {
            Layer::Library
        } else if k.modal || self.nav.showing {
            Layer::Focus
        } else {
            Layer::Machine
        }
    }

    fn is_active(&self) -> (r: bool)
        ensures
            r == self.active(),
    {
        self.menu.open || self.panel.is_some()
    }

    /// The key as the focus takes it.
    pub open spec fn focus_keyed(
        &self,
        n: &Ui,
        key: Key,
        items: Seq<NavItem>,
        f: WalkFacts,
        step: KeyStep,
    ) -> bool {
        match direction(key) {
            Some(dir) => {
                &&& step matches KeyStep::Nav(s)
                &&& self.walked(n, dir, items, f, s)
            },
            None => if key is Enter || key is Space {
                &&& step matches KeyStep::Nav(s)
                &&& self.pressed(n, items, f.now, s)
            } else if key is Escape && self.nav.showing {
                step is Done && *n == (Ui { nav: Nav::hidden(), ..*self })
            } else {
                step is NotTaken && *n == *self
            },
        }
    }

    /// Whether a step of the focus asked for a redraw by itself.
    pub open spec fn focus_redraws(key: Key, step: KeyStep) -> bool {
        match step {
            KeyStep::Nav(s) => if direction(key) is Some {
                Ui::walk_redraws(s)
            } else {
                Ui::press_redraws(s)
            },
            KeyStep::Done => true,
            _ => false,
        }
    }

    /// Walks the interface with the arrows, and works it with Return. Escape
    /// puts away a marker that stands over a running machine.
    pub fn handle_nav_key(&mut self, fx: &mut Effects, key: Key, items: &Vec<NavItem>, f: WalkFacts) -> (
    step: KeyStep)
        requires
            old(self).wf(),
        ensures
            final(self).wf(),
            old(self).focus_keyed(final(self), key, items@, f, step),
            final(fx)@ == (if Ui::focus_redraws(key, step) {
                old(fx)@.push(Effect::Redraw)
            } else {
                old(fx)@
            }),
    {
        match direction_of(key) {
            Some(dir) => {
                return KeyStep::Nav(self.nav_move(fx, dir, items, f));
            },
            None => {},
        }
        match key {
            Key::Enter | Key::Space => KeyStep::Nav(self.nav_press(fx, items, f.now)),
            Key::Escape => {
                if self.nav.showing {
                    self.nav.clear();
                    fx.redraw();
                    KeyStep::Done
                } else {
                    KeyStep::NotTaken
                }
            },
            _ => KeyStep::NotTaken,
        }
    }

    /// A dialog took the key; one that was cancelled is gone.
    pub open spec fn login_keyed(&self, n: &Ui, k: &KeyPress) -> bool {
        let l = self.launcher().unwrap();
        let d = l.login.unwrap();
        let step = self.login_says(k);
        &&& n.launcher() matches Some(m)
        &&& *n == (Ui { panel: n.panel, ..*self })
        &&& m == (Launcher { login: m.login, ..l })
        &&& if step is Close {
            m.login is None
        } else {
            &&& m.login matches Some(e)
            &&& if step is Taken {
                d.keyed(&e, k.key, k.held, k.text@)
            } else {
                e == d
            }
        }
    }

    fn login_key(&mut self, fx: &mut Effects, k: &KeyPress) -> (step: DialogStep)
        requires
            old(self).wf(),
            old(self).launcher() matches Some(l) && l.login is Some,
        ensures
            final(self).wf(),
            step == old(self).login_says(k),
            if step is Pass {
                *final(self) == *old(self)
            } else {
                old(self).login_keyed(final(self), k)
            },
            final(fx)@ == old(fx)@ + dialog_effects(step, false),
    {
        let mut step: DialogStep = DialogStep::Pass;
        match self.panel.take() {
            Some(Panel::Launcher(mut l)) => {
                match l.login.take() {
                    Some(mut d) => {
                        step =
                        d.login_handle_key(fx, k.key, k.text.as_slice(), k.held, self.nav.focus);
                        if step != DialogStep::Close {
                            l.login = Some(d);
                        }
                    },
                    None => {},
                }
                self.panel = Some(Panel::Launcher(l));
            },
            other => {
                self.panel = other;
            },
        }
        step
    }

    pub open spec fn meta_keyed(&self, n: &Ui, k: &KeyPress) -> bool {
        let l = self.launcher().unwrap();
        let d = l.meta.unwrap();
        let step = self.meta_says(k);
        &&& n.launcher() matches Some(m)
        &&& *n == (Ui { panel: n.panel, ..*self })
        &&& m == (Launcher { meta: m.meta, ..l })
        &&& if step is Close {
            m.meta is None
        } else {
            &&& m.meta matches Some(e)
            &&& if step is Taken {
                d.keyed(&e, k.key, k.held, k.text@)
            } else {
                e == d
            }
        }
    }

    fn meta_key(&mut self, fx: &mut Effects, k: &KeyPress) -> (step: DialogStep)
        requires
            old(self).wf(),
            old(self).launcher() matches Some(l) && l.meta is Some,
        ensures
            final(self).wf(),
            step == old(self).meta_says(k),
            if step is Pass {
                *final(self) == *old(self)
            } else {
                old(self).meta_keyed(final(self), k)
            },
            final(fx)@ == old(fx)@ + dialog_effects(step, true),
    {
        let mut step: DialogStep = DialogStep::Pass;
        match self.panel.take() {
            Some(Panel::Launcher(mut l)) => {
                match l.meta.take() {
                    Some(mut d) => {
                        step =
                        d.meta_handle_key(fx, k.key, k.text.as_slice(), k.held, self.nav.focus);
                        if step != DialogStep::Close {
                            l.meta = Some(d);
                        }
                    },
                    None => {},
                }
                self.panel = Some(Panel::Launcher(l));
            },
            other => {
                self.panel = other;
            },
        }
        step
    }

    /// Escape calls off a text being typed, or closes the menu, or the panel.
    pub open spec fn escaped(&self, n: &Ui) -> bool {
        if self.launcher() matches Some(l) && l.editing is Some {
            *n == self.with_launcher(Launcher { editing: None, ..self.launcher().unwrap() })
        } else if self.menu.open {
            &&& *n == (Ui { menu: n.menu, ..*self })
            &&& !n.menu.open
            &&& n.menu.rows == self.menu.rows
            &&& n.menu.stand() == self.menu.stand()
        } else {
            *n == self.unpanelled()
        }
    }

    /// Drops the text that is being typed into an option, if one is.
    pub fn launcher_cancel_edit_if_active(&mut self, fx: &mut Effects) -> (cancelled: bool)
        requires
            old(self).wf(),
        ensures
            final(self).wf(),
            cancelled == (old(self).launcher() matches Some(l) && l.editing is Some),
            *final(self) == (if cancelled {
                old(self).with_launcher(
                    Launcher { editing: None, ..old(self).launcher().unwrap() },
                )
            } else {
                *old(self)
            }),
            final(fx)@ == (if cancelled {
                old(fx)@.push(Effect::Redraw)
            } else {
                old(fx)@
            }),
    {
        match self.panel.take() {
            Some(Panel::Launcher(mut l)) => {
                let cancelled: bool = l.editing.is_some();
                if cancelled {
                    l.editing = None;
                    fx.redraw();
                }
                self.panel = Some(Panel::Launcher(l));
                cancelled
            },
            other => {
                self.panel = other;
                false
            },
        }
    }

    fn escape_key(&mut self, fx: &mut Effects)
        requires
            old(self).wf(),
        ensures
            final(self).wf(),
            old(self).escaped(final(self)),
            final(fx)@ == old(fx)@.push(Effect::Redraw),
    {
        if self.launcher_cancel_edit_if_active(fx) {
            return;
        }
        if self.menu.open {
            self.menu.open = false;
            fx.redraw();
        } else {
            self.close_panel(fx);
        }
    }

    /// A text box of an option took the key.
    pub open spec fn edit_keyed(&self, n: &Ui, k: &KeyPress) -> bool {
        let l = self.launcher().unwrap();
        let e = l.editing.unwrap();
        &&& n.launcher() matches Some(m)
        &&& *n == (Ui { panel: n.panel, ..*self })
        &&& m == (Launcher { editing: m.editing, ..l })
        &&& m.editing matches Some(d)
        &&& if k.key is Enter {
            d == e
        } else if k.text@.len() == 0 && k.plain is Some && !edits(k.key) {
            e.with(&d, seq![k.plain.unwrap()])
        } else {
            e.edited(&d, k.key, k.text@, None)
        }
    }

    fn edit_key(&mut self, fx: &mut Effects, k: &KeyPress) -> (step: EditStep)
        requires
            old(self).wf(),
            old(self).launcher() matches Some(l) && l.editing is Some,
        ensures
            final(self).wf(),
            step == (if k.key is Enter {
                EditStep::Commit
            } else {
                EditStep::Edited
            }),
            old(self).edit_keyed(final(self), k),
            final(fx)@ == old(fx)@.push(Effect::Redraw),
    {
        let mut step: EditStep = EditStep::Pass;
        match self.panel.take() {
            Some(Panel::Launcher(mut l)) => {
                step =
                launcher_handle_edit_key(&mut l.editing, fx, k.key, k.text.as_slice(), k.plain);
                self.panel = Some(Panel::Launcher(l));
            },
            other => {
                self.panel = other;
            },
        }
        step
    }

    /// The drive that a digit names.
    pub open spec fn drop_drive(&self, key: Key) -> Option<u8> {
        match (self.panel, key) {
            (Some(Panel::DropChooser(drives)), Key::Digit(d)) => if 1 <= d <= drives@.len() {
                Some(drives@[d - 1])
            } else {
                None
            },
            _ => None,
        }
    }

    /// What a key comes to, layer by layer.
    pub open spec fn keyed(
        &self,
        n: &Ui,
        k: &KeyPress,
        items: Seq<NavItem>,
        f: WalkFacts,
        step: KeyStep,
    ) -> bool {
        match self.layer(k) {
            Layer::Binding => *n == *self && step is Bind,
            Layer::Login => self.login_keyed(n, k) && step == KeyStep::Login(self.login_says(k)),
            Layer::Meta => self.meta_keyed(n, k) && step == KeyStep::Meta(self.meta_says(k)),
            Layer::Escape => self.escaped(n) && step is Done,
            Layer::Drop => *n == *self && step == KeyStep::Drop(self.drop_drive(k.key)),
            Layer::Edit => self.edit_keyed(n, k) && step == KeyStep::Edit(
                if k.key is Enter {
                    EditStep::Commit
                } else {
                    EditStep::Edited
                },
            ),
            Layer::Library => if k.key is Enter {
                *n == *self && step is RunGame
            } else {
                &&& self.list_stepped(
                    n,
                    if k.key is Home {
                        ListStep::First
                    } else {
                        ListStep::Last
                    },
                    f.library_rows,
                )
                &&& step is Done
            },
            Layer::Focus => self.focus_keyed(n, k.key, items, f, step),
            Layer::Machine => *n == *self && step is NotTaken,
        }
    }

    /// What a key asks of the host by itself.
    pub open spec fn key_effects(&self, k: &KeyPress, step: KeyStep) -> Seq<Effect<Seq<char>>> {
        match self.layer(k) {
            Layer::Login => dialog_effects(self.login_says(k), false),
            Layer::Meta => dialog_effects(self.meta_says(k), true),
            Layer::Escape => seq![Effect::Redraw],
            Layer::Edit => seq![Effect::Redraw],
            Layer::Library => if step is Done {
                seq![Effect::Redraw]
            } else {
                Seq::empty()
            },
            Layer::Focus => if Ui::focus_redraws(k.key, step) {
                seq![Effect::Redraw]
            } else {
                Seq::empty()
            },
            _ => Seq::empty(),
        }
    }

    /// The lists of the library page take the jumps to their ends, and Return
    /// starts what is chosen; up and down belong to the focus.
    pub fn library_handle_key(&mut self, fx: &mut Effects, key: Key, rows: usize) -> (step: KeyStep)
        requires
            old(self).wf(),
        ensures
            final(self).wf(),
            ({
                let here = old(self).launcher() matches Some(l) && l.library_page && in_library(
                    old(self).nav.focus,
                );
                if here && key is Enter {
                    step is RunGame && *final(self) == *old(self) && final(fx)@ == old(fx)@
                } else if here && (key is Home || key is End) {
                    &&& step is Done
                    &&& old(self).list_stepped(
                        final(self),
                        if key is Home {
                            ListStep::First
                        } else {
                            ListStep::Last
                        },
                        rows,
                    )
                    &&& final(fx)@ == old(fx)@.push(Effect::Redraw)
                } else {
                    step is NotTaken && *final(self) == *old(self) && final(fx)@ == old(fx)@
                }
            }),
    {
        let page: bool = match &self.panel {
            Some(Panel::Launcher(l)) => l.library_page,
            _ => false,
        };
        if !page || !nav_focus_in_library(self.nav.focus) {
            return KeyStep::NotTaken;
        }
        match key {
            Key::Enter => KeyStep::RunGame,
            Key::Home => {
                self.step_library_list(fx, ListStep::First, rows);
                KeyStep::Done
            },
            Key::End => {
                self.step_library_list(fx, ListStep::Last, rows);
                KeyStep::Done
            },
            _ => KeyStep::NotTaken,
        }
    }

    fn drive_named(&self, key: Key) -> (r: Option<u8>)
        ensures
            r == self.drop_drive(key),
    {
        match (&self.panel, key) {
            (Some(Panel::DropChooser(drives)), Key::Digit(d)) => if d >= 1 && (d as usize)
                <= drives.len() {
                Some(drives[d as usize - 1])
            } else {
                None
            },
            _ => None,
        }
    }

    fn drops(&self, key: Key) -> (r: bool)
        ensures
            r == ((self.panel matches Some(Panel::DropChooser(_))) && (key matches Key::Digit(d) && 1
                <= d <= 4)),
    {
        match (&self.panel, key) {
            (Some(Panel::DropChooser(_)), Key::Digit(d)) => 1 <= d && d <= 4,
            _ => false,
        }
    }

    fn facts_of_launcher(&self) -> (r: (bool, bool, bool))
        ensures
            r.0 == (self.launcher() matches Some(l) && l.login is Some),
            r.1 == (self.launcher() matches Some(l) && l.meta is Some),
            r.2 == (self.launcher() matches Some(l) && l.editing is Some),
    {
        match &self.panel {
            Some(Panel::Launcher(l)) => (l.login.is_some(), l.meta.is_some(), l.editing.is_some()),
            _ => (false, false, false),
        }
    }

    /// A key while the interface may be open. What no layer wants is the
    /// machine's.
    pub fn ui_handle_key(&mut self, fx: &mut Effects, k: &KeyPress, items: &Vec<NavItem>, f: WalkFacts) -> (
    step: KeyStep)
        requires
            old(self).wf(),
        ensures
            final(self).wf(),
            old(self).keyed(final(self), k, items@, f, step),
            final(fx)@ == old(fx)@ + old(self).key_effects(k, step),
    {
        let ghost none: Seq<Effect<Seq<char>>> = Seq::empty();
        assert(fx@ + none =~= fx@);
        if self.is_active() {
            if k.armed {
                return KeyStep::Bind;
            }
            let (login, meta, editing): (bool, bool, bool) = self.facts_of_launcher();
            if login {
                let step: DialogStep = self.login_key(fx, k);
                if step != DialogStep::Pass {
                    return KeyStep::Login(step);
                }
                assert(fx@ =~= old(fx)@);
            }
            if meta {
                let step: DialogStep = self.meta_key(fx, k);
                if step != DialogStep::Pass {
                    return KeyStep::Meta(step);
                }
                assert(fx@ =~= old(fx)@);
            }
            match k.key {
                Key::Escape => {
                    self.escape_key(fx);
                    assert(fx@ =~= old(fx)@ + seq![Effect::Redraw]);
                    return KeyStep::Done;
                },
                _ => {},
            }
            if self.drops(k.key) {
                return KeyStep::Drop(self.drive_named(k.key));
            }
            if editing {
                let step: EditStep = self.edit_key(fx, k);
                assert(fx@ =~= old(fx)@ + seq![Effect::Redraw]);
                return KeyStep::Edit(step);
            }
            let step: KeyStep = self.library_handle_key(fx, k.key, f.library_rows);
            if step != KeyStep::NotTaken {
                assert(fx@ =~= old(fx)@ + old(self).key_effects(k, step));
                return step;
            }
        }
        if k.modal || self.nav.showing {
            let step: KeyStep = self.handle_nav_key(fx, k.key, items, f);
            assert(fx@ =~= old(fx)@ + old(self).key_effects(k, step));
            return step;
        }
        KeyStep::NotTaken
    }

    /// A key while the menu is open: the arrows walk it, Return picks, Escape
    /// backs out of it a level at a time. Says what is left to be done.
    pub fn handle_menu_key(&mut self, fx: &mut Effects, key: Key, items: &Vec<NavItem>, f: WalkFacts) -> (
    r: (KeyStep, RowPress))
        requires
            old(self).wf(),
        ensures
            final(self).wf(),
            match direction(key) {
                Some(dir) => {
                    &&& r.1 is Nothing
                    &&& r.0 matches KeyStep::Nav(s)
                    &&& old(self).walked(final(self), dir, items@, f, s)
                    &&& final(fx)@ == (if Ui::walk_redraws(s) {
                        old(fx)@.push(Effect::Redraw)
                    } else {
                        old(fx)@
                    })
                },
                None => match key {
                    Key::Enter => {
                        &&& r.0 is Done
                        &&& r.1 == old(self).menu.press()
                        &&& *final(self) == (Ui { menu: final(self).menu, ..*old(self) })
                        &&& old(self).menu.picked(&final(self).menu, r.1)
                        &&& final(fx)@ == (if r.1 is Opened {
                            old(fx)@.push(Effect::Redraw)
                        } else {
                            old(fx)@
                        })
                    },
                    Key::Escape => {
                        &&& r.0 is Done && r.1 is Nothing
                        &&& *final(self) == (Ui { menu: final(self).menu, ..*old(self) })
                        &&& if old(self).menu.path@.len() > 0 {
                            final(self).menu.same_menu(&old(self).menu)
                                && final(self).menu.stand() == (
                                old(self).menu.path@.drop_last(),
                                Some(old(self).menu.path@.last()),
                                old(self).menu.hover_arm,
                            )
                        } else {
                            final(self).menu.is_shut()
                        }
                        &&& final(fx)@ == old(fx)@.push(Effect::Redraw)
                    },
                    _ => {
                        &&& r.0 is NotTaken && r.1 is Nothing
                        &&& *final(self) == *old(self)
                        &&& final(fx)@ == old(fx)@
                    },
                },
            },
    {
        match direction_of(key) {
            Some(dir) => {
                return (KeyStep::Nav(self.nav_move(fx, dir, items, f)), RowPress::Nothing);
            },
            None => {},
        }
        match key {
            Key::Enter => {
                let press: RowPress = self.menu.activate_menu_row(fx);
                (KeyStep::Done, press)
            },
            Key::Escape => {
                if !self.menu.ascend() {
                    self.menu.close_menu();
                }
                fx.redraw();
                (KeyStep::Done, RowPress::Nothing)
            },
            _ => (KeyStep::NotTaken, RowPress::Nothing),
        }
    }
}

/// While anything of the interface is open, Escape is the interface's: it
/// never reaches the machine.
pub proof fn lemma_escape_stays_here(
    o: Ui,
    n: Ui,
    k: KeyPress,
    items: Seq<NavItem>,
    f: WalkFacts,
    step: KeyStep,
)
    requires
        o.active(),
        k.key is Escape,
        o.keyed(&n, &k, items, f, step),
    ensures
        !(step is NotTaken),
{
}

/// A key that is to be bound goes to nothing else.
pub proof fn lemma_binding_comes_first(
    o: Ui,
    n: Ui,
    k: KeyPress,
    items: Seq<NavItem>,
    f: WalkFacts,
    step: KeyStep,
)
    requires
        o.active(),
        k.armed,
        o.keyed(&n, &k, items, f, step),
    ensures
        n == o && step is Bind,
{
}

/// With nothing open and no marker shown, every key is the machine's.
pub proof fn lemma_machine_gets_its_keys(
    o: Ui,
    n: Ui,
    k: KeyPress,
    items: Seq<NavItem>,
    f: WalkFacts,
    step: KeyStep,
)
    requires
        !o.active(),
        !k.modal,
        !o.nav.showing,
        o.keyed(&n, &k, items, f, step),
    ensures
        n == o && step is NotTaken,
{
}

} // verus!
