//! Text boxes: a line with a caret in it, and the dialogs made of such lines.

use vstd::prelude::*;

use crate::effects::Effect;
use crate::effects::Effects;
use crate::nav::LoginField;
use crate::nav::NavTarget;
use crate::nav::Place;

verus! {

/// A key, as far as the interface tells keys apart.
#[derive(Clone, Copy, PartialEq, Eq, Structural, Debug)]
pub enum Key {
    Escape,
    Enter,
    Space,
    Tab,
    Backspace,
    Delete,
    Up,
    Down,
    Left,
    Right,
    Home,
    End,
    PageUp,
    PageDown,
    /// A digit of the top row.
    Digit(u8),
    V,
    Other,
}

/// The C0 and C1 control characters and the delete character.
pub open spec fn is_control(c: char) -> bool {
    c as u32 <= 0x1F || 0x7F <= c as u32 <= 0x9F
}

/// What of a text can be typed: everything that can be seen.
pub open spec fn visible(s: Seq<char>) -> Seq<char> {
    s.filter(|c: char| !is_control(c))
}

#[derive(Clone, Copy, PartialEq, Eq, Structural, Debug)]
pub enum CaretMove {
    Left,
    Right,
    Home,
    End,
}

/// A line of text and the place in it where typing goes.
#[derive(PartialEq, Eq, Debug)]
pub struct TextEdit {
    pub chars: Vec<char>,
    pub caret: usize,
}

/// How many of `n` characters still fit into a line of `len` of at most
/// `most`.
pub open spec fn room(len: int, most: Option<usize>, n: int) -> int {
    match most {
        None => n,
        Some(m) => if len >= m {
            0
        } else if n <= m - len {
            n
        } else {
            m - len
        },
    }
}

impl TextEdit {
    pub open spec fn wf(&self) -> bool {
        self.caret <= self.chars@.len()
    }

    /// The line with a text put in at the caret, which stands behind it.
    pub open spec fn with(&self, n: &TextEdit, text: Seq<char>) -> bool {
        &&& n.chars@ == self.chars@.take(self.caret as int) + text + self.chars@.skip(
            self.caret as int,
        )
        &&& n.caret == self.caret + text.len()
    }

    /// The line with a text typed into it: what of it can be seen, as far as
    /// it fits.
    pub open spec fn typed(&self, n: &TextEdit, text: Seq<char>, most: Option<usize>) -> bool {
        self.with(
            n,
            visible(text).take(room(self.chars@.len() as int, most, visible(text).len() as int)),
        )
    }

    pub open spec fn erased_before(&self, n: &TextEdit) -> bool {
        if self.caret == 0 {
            *n == *self
        } else {
            n.chars@ == self.chars@.remove(self.caret - 1) && n.caret == self.caret - 1
        }
    }

    pub open spec fn erased_after(&self, n: &TextEdit) -> bool {
        if self.caret == self.chars@.len() {
            *n == *self
        } else {
            n.chars@ == self.chars@.remove(self.caret as int) && n.caret == self.caret
        }
    }

    pub open spec fn moved(&self, way: CaretMove) -> usize {
        match way {
            CaretMove::Left => if self.caret > 0 {
                (self.caret - 1) as usize
            } else {
                0
            },
            CaretMove::Right => if self.caret < self.chars@.len() {
                (self.caret + 1) as usize
            } else {
                self.caret
            },
            CaretMove::Home => 0,
            CaretMove::End => self.chars@.len() as usize,
        }
    }

    pub fn new() -> (r: TextEdit)
        ensures
            r.wf(),
            r.chars@.len() == 0,
            r.caret == 0,
    {
        TextEdit { chars: Vec::new(), caret: 0 }
    }

    /// Puts one character in at the caret, unless the line is full.
    pub fn insert(&mut self, c: char, most: Option<usize>)
        requires
            old(self).wf(),
        ensures
            final(self).wf(),
            room(old(self).chars@.len() as int, most, 1) == 1 ==> old(self).with(
                final(self),
                seq![c],
            ),
            room(old(self).chars@.len() as int, most, 1) != 1 ==> *final(self) == *old(self),
    {
        match most {
            Some(m) => {
                if self.chars.len() >= m {
                    return;
                }
            },
            None => {},
        }
        let at: usize = self.caret;
        self.chars.insert(at, c);
        let len: usize = self.chars.len();
        assert(at < len);
        self.caret = at + 1;
        assert(self.chars@ =~= old(self).chars@.take(at as int) + seq![c] + old(self).chars@.skip(
            at as int,
        ));
    }

    /// Types a text: its visible characters, as far as they fit.
    pub fn type_text(&mut self, text: &[char], most: Option<usize>)
        requires
            old(self).wf(),
        ensures
            final(self).wf(),
            old(self).typed(final(self), text@, most),
    {
        let ghost keep = |c: char| !is_control(c);
        let ghost len = self.chars@.len() as int;
        let mut i: usize = 0;
        proof {
            reveal(Seq::filter);
            assert(visible(text@.take(0)) =~= Seq::empty());
            assert(visible(text@.take(0)).take(0) =~= Seq::empty());
            assert(self.chars@ =~= self.chars@.take(self.caret as int) + Seq::empty()
                + self.chars@.skip(self.caret as int));
        }
        while i < text.len()
            invariant
                i <= text@.len(),
                len == old(self).chars@.len(),
                old(self).wf(),
                self.wf(),
                old(self).typed(self, text@.take(i as int), most),
            decreases text@.len() - i,
        {
            let c: char = text[i];
            let n: u32 = c as u32;
            let hidden: bool = n <= 0x1F || (0x7F <= n && n <= 0x9F);
            let ghost was = *self;
            let ghost seen = visible(text@.take(i as int));
            proof {
                reveal(Seq::filter);
                assert(text@.take(i + 1).drop_last() =~= text@.take(i as int));
                assert(text@.take(i + 1).last() == c);
                assert(visible(text@.take(i + 1)) == (if is_control(c) {
                    seen
                } else {
                    seen.push(c)
                }));
            }
            if !hidden {
                self.insert(c, most);
            }
            proof {
                let next = visible(text@.take(i + 1));
                let got = seen.take(room(len, most, seen.len() as int));
                let gets = next.take(room(len, most, next.len() as int));
                if hidden {
                    assert(gets =~= got);
                } else if room(was.chars@.len() as int, most, 1) == 1 {
                    assert(gets =~= got.push(c));
                    assert(self.chars@ =~= old(self).chars@.take(old(self).caret as int) + gets
                        + old(self).chars@.skip(old(self).caret as int));
                } else {
                    assert(gets =~= got);
                }
            }
            i += 1;
        }
        assert(text@.take(i as int) =~= text@);
    }

    pub fn backspace(&mut self)
        requires
            old(self).wf(),
        ensures
            final(self).wf(),
            old(self).erased_before(final(self)),
    {
        if self.caret > 0 {
            self.chars.remove(self.caret - 1);
            self.caret = self.caret - 1;
        }
    }

    pub fn delete(&mut self)
        requires
            old(self).wf(),
        ensures
            final(self).wf(),
            old(self).erased_after(final(self)),
    {
        if self.caret < self.chars.len() {
            self.chars.remove(self.caret);
        }
    }

    pub fn caret_move(&mut self, way: CaretMove)
        requires
            old(self).wf(),
        ensures
            final(self).wf(),
            *final(self) == (TextEdit { caret: old(self).moved(way), ..*old(self) }),
    {
        match way {
            CaretMove::Left => {
                if self.caret > 0 {
                    self.caret = self.caret - 1;
                }
            },
            CaretMove::Right => {
                if self.caret < self.chars.len() {
                    self.caret = self.caret + 1;
                }
            },
            CaretMove::Home => {
                self.caret = 0;
            },
            CaretMove::End => {
                self.caret = self.chars.len();
            },
        }
    }

    /// An editing key, or text: what either does to a line.
    pub open spec fn edited(&self, n: &TextEdit, key: Key, text: Seq<char>, most: Option<usize>) -> bool {
        match key {
            Key::Backspace => self.erased_before(n),
            Key::Delete => self.erased_after(n),
            Key::Left => *n == (TextEdit { caret: self.moved(CaretMove::Left), ..*self }),
            Key::Right => *n == (TextEdit { caret: self.moved(CaretMove::Right), ..*self }),
            Key::Home => *n == (TextEdit { caret: self.moved(CaretMove::Home), ..*self }),
            Key::End => *n == (TextEdit { caret: self.moved(CaretMove::End), ..*self }),
            _ => self.typed(n, text, most),
        }
    }

    pub fn edit(&mut self, key: Key, text: &[char], most: Option<usize>)
        requires
            old(self).wf(),
        ensures
            final(self).wf(),
            old(self).edited(final(self), key, text@, most),
    {
        match key {
            Key::Backspace => self.backspace(),
            Key::Delete => self.delete(),
            Key::Left => self.caret_move(CaretMove::Left),
            Key::Right => self.caret_move(CaretMove::Right),
            Key::Home => self.caret_move(CaretMove::Home),
            Key::End => self.caret_move(CaretMove::End),
            _ => self.type_text(text, most),
        }
    }
}

/// What is typed and then rubbed out again leaves the line as it was.
pub proof fn lemma_backspace_undoes(a: TextEdit, b: TextEdit, c: TextEdit, ch: char)
    requires
        a.wf(),
        a.with(&b, seq![ch]),
        b.erased_before(&c),
    ensures
        c.chars@ == a.chars@,
        c.caret == a.caret,
{
    assert(c.chars@ =~= a.chars@);
}

/// A box with a limit never holds more than it, whatever is typed.
pub proof fn lemma_limit_holds(a: TextEdit, b: TextEdit, text: Seq<char>, most: usize)
    requires
        a.wf(),
        a.chars@.len() <= most,
        a.typed(&b, text, Some(most)),
    ensures
        b.chars@.len() <= most,
{
}

/// What a dialog made of a key.
#[derive(Clone, Copy, PartialEq, Eq, Structural, Debug)]
pub enum DialogStep {
    /// The key is the focus's, not the box's.
    Pass,
    Close,
    Submit,
    /// The clipboard's line is to be typed in.
    Paste,
    Taken,
}

/// Up and down walk a dialog; so do left, right and the pressing keys while
/// the focus is on one of its buttons.
pub open spec fn is_focus_key(key: Key, focus: Option<NavTarget>, buttons: Seq<Place>) -> bool {
    ||| key is Up || key is Down
    ||| {
        &&& focus matches Some(NavTarget::Ui(p)) && buttons.contains(p)
        &&& key is Left || key is Right || key is Enter || key is Space
    }
}

pub fn nav_dialog_key_is_focus(key: Key, focus: Option<NavTarget>, buttons: &[Place]) -> (r: bool)
    ensures
        r == is_focus_key(key, focus, buttons@),
{
    match key {
        Key::Up | Key::Down => {
            return true;
        },
        _ => {},
    }
    let on: bool = match focus {
        Some(NavTarget::Ui(p)) => {
            let mut found: bool = false;
            let mut i: usize = 0;
            while i < buttons.len()
                invariant
                    i <= buttons@.len(),
                    found == buttons@.take(i as int).contains(p),
                decreases buttons@.len() - i,
            {
                let ghost was = buttons@.take(i as int);
                if buttons[i] == p {
                    found = true;
                }
                i += 1;
                proof {
                    assert(buttons@.take(i as int) =~= was.push(buttons@[i - 1]));
                    if was.contains(p) {
                        let k = choose|k: int| 0 <= k < was.len() && was[k] == p;
                        assert(buttons@.take(i as int)[k] == p);
                    }
                    if buttons@[i - 1] == p {
                        assert(buttons@.take(i as int)[i - 1] == p);
                    }
                }
            }
            assert(buttons@.take(i as int) =~= buttons@);
            found
        },
        _ => false,
    };
    on && match key {
        Key::Left | Key::Right | Key::Enter | Key::Space => true,
        _ => false,
    }
}

/// What a dialog's key means before any box sees it. `held` says that a
/// command modifier is down.
pub open spec fn dialog_step(key: Key, held: bool, focus_key: bool) -> DialogStep {
    if focus_key {
        DialogStep::Pass
    } else if key is Escape {
        DialogStep::Close
    } else if key is Enter {
        DialogStep::Submit
    } else if key is V && held {
        DialogStep::Paste
    } else {
        DialogStep::Taken
    }
}

/// With a command modifier down nothing but the tab and the backspace is for
/// a box.
pub open spec fn reaches_box(key: Key, held: bool) -> bool {
    !held || key is Tab || key is Backspace
}

fn step_of(key: Key, held: bool, focus_key: bool) -> (r: DialogStep)
    ensures
        r == dialog_step(key, held, focus_key),
{
    if focus_key {
        return DialogStep::Pass;
    }
    match key {
        Key::Escape => DialogStep::Close,
        Key::Enter => DialogStep::Submit,
        Key::V => if held {
            DialogStep::Paste
        } else {
            DialogStep::Taken
        },
        _ => DialogStep::Taken,
    }
}

fn is_tab(key: Key) -> (r: bool)
    ensures
        r == key is Tab,
{
    match key {
        Key::Tab => true,
        _ => false,
    }
}

fn for_box(key: Key, held: bool) -> (r: bool)
    ensures
        r == reaches_box(key, held),
{
    if !held {
        return true;
    }
    match key {
        Key::Tab | Key::Backspace => true,
        _ => false,
    }
}

/// What a dialog asks of the host besides its step: a redraw, unless the key
/// was not its own or what follows brings one by itself.
pub open spec fn dialog_effects(step: DialogStep, submit_draws: bool) -> Seq<Effect<Seq<char>>> {
    if step is Taken || step is Close || (step is Submit && !submit_draws) {
        seq![Effect::Redraw]
    } else {
        Seq::empty()
    }
}

fn dialog_redraw(fx: &mut Effects, step: DialogStep, submit_draws: bool)
    ensures
        final(fx)@ == old(fx)@ + dialog_effects(step, submit_draws),
{
    let due: bool = match step {
        DialogStep::Taken | DialogStep::Close => true,
        DialogStep::Submit => !submit_draws,
        _ => false,
    };
    if due {
        fx.redraw();
        assert(fx@ =~= old(fx)@ + seq![Effect::Redraw]);
    } else {
        assert(fx@ =~= old(fx)@ + Seq::empty());
    }
}

/// The sign-in dialog.
#[derive(PartialEq, Eq, Debug)]
pub struct LoginDialog {
    pub user: TextEdit,
    pub pass: TextEdit,
    pub focus: LoginField,
}

pub open spec fn login_buttons() -> Seq<Place> {
    seq![Place::LoginOk, Place::LoginCancel]
}

impl LoginDialog {
    pub open spec fn wf(&self) -> bool {
        self.user.wf() && self.pass.wf()
    }

    pub open spec fn boxed(&self) -> TextEdit {
        match self.focus {
            LoginField::User => self.user,
            LoginField::Pass => self.pass,
        }
    }

    /// Only the box that has the focus differs.
    pub open spec fn same_but_box(&self, n: &LoginDialog) -> bool {
        &&& n.focus == self.focus
        &&& match self.focus {
            LoginField::User => n.pass == self.pass,
            LoginField::Pass => n.user == self.user,
        }
    }

    pub open spec fn keyed(&self, n: &LoginDialog, key: Key, held: bool, text: Seq<char>) -> bool {
        if !reaches_box(key, held) {
            *n == *self
        } else if key is Tab {
            *n == (LoginDialog {
                focus: match self.focus {
                    LoginField::User => LoginField::Pass,
                    LoginField::Pass => LoginField::User,
                },
                ..*self
            })
        } else {
            self.same_but_box(n) && self.boxed().edited(&n.boxed(), key, text, None)
        }
    }

    pub fn new() -> (r: LoginDialog)
        ensures
            r.wf(),
            r.focus is User,
            r.user.chars@.len() == 0,
            r.pass.chars@.len() == 0,
    {
        LoginDialog { user: TextEdit::new(), pass: TextEdit::new(), focus: LoginField::User }
    }

    pub fn focus_on(&mut self, field: LoginField)
        ensures
            *final(self) == (LoginDialog { focus: field, ..*old(self) }),
    {
        self.focus = field;
    }

    /// A key in the sign-in dialog. Return answers it and Escape cancels it,
    /// Tab moves between the boxes, and text goes into the one with the focus.
    pub fn login_handle_key(
        &mut self,
        fx: &mut Effects,
        key: Key,
        text: &[char],
        held: bool,
        focus: Option<NavTarget>,
    ) -> (step: DialogStep)
        requires
            old(self).wf(),
        ensures
            final(self).wf(),
            step == dialog_step(key, held, is_focus_key(key, focus, login_buttons())),
            if step is Taken {
                old(self).keyed(final(self), key, held, text@)
            } else {
                *final(self) == *old(self)
            },
            final(fx)@ == old(fx)@ + dialog_effects(step, false),
    {
        let buttons: [Place; 2] = [Place::LoginOk, Place::LoginCancel];
        assert(buttons@ =~= login_buttons());
        let walked: bool = nav_dialog_key_is_focus(key, focus, &buttons);
        let step: DialogStep = step_of(key, held, walked);
        if step == DialogStep::Taken {
            if for_box(key, held) {
                if is_tab(key) {
                    self.focus = match self.focus {
                        LoginField::User => LoginField::Pass,
                        LoginField::Pass => LoginField::User,
                    };
                } else {
                    match self.focus {
                        LoginField::User => self.user.edit(key, text, None),
                        LoginField::Pass => self.pass.edit(key, text, None),
                    }
                }
            }
        }
        dialog_redraw(fx, step, false);
        step
    }

    /// Types the clipboard's line into the box with the focus.
    pub fn login_paste(&mut self, fx: &mut Effects, line: &[char])
        requires
            old(self).wf(),
        ensures
            final(self).wf(),
            old(self).same_but_box(final(self)),
            old(self).boxed().typed(&final(self).boxed(), line@, None),
            final(fx)@ == old(fx)@.push(Effect::Redraw),
    {
        match self.focus {
            LoginField::User => self.user.type_text(line, None),
            LoginField::Pass => self.pass.type_text(line, None),
        }
        fx.redraw();
    }
}

/// The editor of a game's particulars: its boxes, how much each holds, and
/// the one with the focus.
#[derive(PartialEq, Eq, Debug)]
pub struct MetaDialog {
    pub boxes: Vec<TextEdit>,
    pub most: Vec<usize>,
    pub focus: usize,
}

pub open spec fn meta_buttons() -> Seq<Place> {
    seq![Place::MetaSave, Place::MetaClear, Place::MetaCancel, Place::MetaArt]
}

impl MetaDialog {
    pub open spec fn wf(&self) -> bool {
        &&& self.boxes@.len() == self.most@.len()
        &&& self.focus < self.boxes@.len()
        &&& forall|i: int| 0 <= i < self.boxes@.len() ==> (#[trigger] self.boxes@[i]).wf()
    }

    pub open spec fn boxed(&self) -> TextEdit {
        self.boxes@[self.focus as int]
    }

    /// Only the box that has the focus differs.
    pub open spec fn same_but_box(&self, n: &MetaDialog) -> bool {
        &&& n.focus == self.focus
        &&& n.most == self.most
        &&& n.boxes@ == self.boxes@.update(self.focus as int, n.boxed())
    }

    pub open spec fn keyed(&self, n: &MetaDialog, key: Key, held: bool, text: Seq<char>) -> bool {
        if !reaches_box(key, held) {
            *n == *self
        } else if key is Tab {
            *n == (MetaDialog {
                focus: ((self.focus + 1) % self.boxes@.len() as int) as usize,
                ..*self
            })
        } else {
            &&& self.same_but_box(n)
            &&& self.boxed().edited(&n.boxed(), key, text, Some(self.most@[self.focus as int]))
        }
    }

    pub fn focus_on(&mut self, field: usize)
        requires
            old(self).wf(),
        ensures
            final(self).wf(),
            *final(self) == (MetaDialog {
                focus: if field < old(self).boxes@.len() {
                    field
                } else {
                    old(self).focus
                },
                ..*old(self)
            }),
    {
        if field < self.boxes.len() {
            self.focus = field;
        }
    }

    fn edit_box(&mut self, key: Key, text: &[char])
        requires
            old(self).wf(),
        ensures
            final(self).wf(),
            old(self).same_but_box(final(self)),
            old(self).boxed().edited(
                &final(self).boxed(),
                key,
                text@,
                Some(old(self).most@[old(self).focus as int]),
            ),
    {
        let most: usize = self.most[self.focus];
        let mut edit: TextEdit = TextEdit::new();
        let at: usize = self.focus;
        std::mem::swap(&mut edit, &mut self.boxes[at]);
        edit.edit(key, text, Some(most));
        self.boxes.set(at, edit);
        assert(self.boxes@ =~= old(self).boxes@.update(at as int, self.boxes@[at as int]));
    }

    /// A key in the editor. Return saves, Escape cancels, Tab walks the boxes.
    pub fn meta_handle_key(
        &mut self,
        fx: &mut Effects,
        key: Key,
        text: &[char],
        held: bool,
        focus: Option<NavTarget>,
    ) -> (step: DialogStep)
        requires
            old(self).wf(),
        ensures
            final(self).wf(),
            step == dialog_step(key, held, is_focus_key(key, focus, meta_buttons())),
            if step is Taken {
                old(self).keyed(final(self), key, held, text@)
            } else {
                *final(self) == *old(self)
            },
            final(fx)@ == old(fx)@ + dialog_effects(step, true),
    {
        let buttons: [Place; 4] = [
            Place::MetaSave,
            Place::MetaClear,
            Place::MetaCancel,
            Place::MetaArt,
        ];
        assert(buttons@ =~= meta_buttons());
        let walked: bool = nav_dialog_key_is_focus(key, focus, &buttons);
        let step: DialogStep = step_of(key, held, walked);
        if step == DialogStep::Taken {
            if for_box(key, held) {
                if is_tab(key) {
                    let n: usize = self.boxes.len();
                    self.focus = if self.focus < n - 1 {
                        self.focus + 1
                    } else {
                        0
                    };
                    proof {
                        if old(self).focus < n - 1 {
                            vstd::arithmetic::div_mod::lemma_small_mod(
                                (old(self).focus + 1) as nat,
                                n as nat,
                            );
                        } else {
                            vstd::arithmetic::div_mod::lemma_mod_self_0(n as int);
                        }
                    }
                    assert(self.focus == (old(self).focus + 1) % old(self).boxes@.len() as int);
                } else {
                    self.edit_box(key, text);
                }
            }
        }
        dialog_redraw(fx, step, true);
        step
    }

    /// Types the clipboard's line into the box with the focus.
    pub fn meta_paste(&mut self, fx: &mut Effects, line: &[char])
        requires
            old(self).wf(),
        ensures
            final(self).wf(),
            old(self).same_but_box(final(self)),
            old(self).boxed().typed(
                &final(self).boxed(),
                line@,
                Some(old(self).most@[old(self).focus as int]),
            ),
            final(fx)@ == old(fx)@.push(Effect::Redraw),
    {
        self.edit_box(Key::Other, line);
        fx.redraw();
    }
}

/// What an option's text box made of a key.
#[derive(Clone, Copy, PartialEq, Eq, Structural, Debug)]
pub enum EditStep {
    /// No box is being typed into.
    Pass,
    Edited,
    /// The text is to be taken over.
    Commit,
}

/// A key for the text box of an option, where one is open. Text as the
/// platform reports it comes first; `plain` is what the key alone stands for.
pub fn launcher_handle_edit_key(
    edit: &mut Option<TextEdit>,
    fx: &mut Effects,
    key: Key,
    text: &[char],
    plain: Option<char>,
) -> (step: EditStep)
    requires
        *old(edit) matches Some(e) ==> e.wf(),
    ensures
        *final(edit) matches Some(e) ==> e.wf(),
        step == (if *old(edit) is None {
            EditStep::Pass
        } else if key is Enter {
            EditStep::Commit
        } else {
            EditStep::Edited
        }),
        match (*old(edit), *final(edit)) {
            (Some(e), Some(n)) => if key is Enter {
                n == e
            } else if text@.len() == 0 && plain is Some && !edits(key) {
                e.with(&n, seq![plain.unwrap()])
            } else {
                e.edited(&n, key, text@, None)
            },
            (None, None) => true,
            _ => false,
        },
        final(fx)@ == (if step is Pass {
            old(fx)@
        } else {
            old(fx)@.push(Effect::Redraw)
        }),
{
    match edit.take() {
        None => {
            *edit = None;
            EditStep::Pass
        },
        Some(mut e) => {
            let mut step: EditStep = EditStep::Edited;
            match key {
                Key::Enter => {
                    step = EditStep::Commit;
                },
                Key::Backspace
                | Key::Delete
                | Key::Left
                | Key::Right
                | Key::Home
                | Key::End => {
                    e.edit(key, text, None);
                },
                _ => {
                    if text.len() > 0 {
                        e.type_text(text, None);
                    } else {
                        match plain {
                            Some(c) => e.insert(c, None),
                            None => e.type_text(text, None),
                        }
                    }
                },
            }
            *edit = Some(e);
            fx.redraw();
            step
        },
    }
}

/// A key that edits by itself, whatever text comes with it.
pub open spec fn edits(key: Key) -> bool {
    key is Backspace || key is Delete || key is Left || key is Right || key is Home || key is End
}

} // verus!
