//! The browser of saved states: what its keys mean, and what is done with
//! what it decides.

use vstd::prelude::*;

use crate::app::App;
use crate::effects::Effect;
use crate::effects::Effects;
use crate::entry::Key;
use crate::nav::Dir;
use crate::nav::Nav;
use crate::saves::Loaded;
use crate::saves::resumed_after;
use crate::saves::state_loaded;
use crate::session::Session;
use crate::text::put;
use crate::ui::Panel;
use crate::ui::Ui;

verus! {

/// What a key does to the browser's list and buttons.
#[derive(Clone, Copy, PartialEq, Eq, Structural, Debug)]
pub enum StatesOp {
    Step(Dir),
    Page { down: bool },
    Jump { end: bool },
    /// The chosen row or button is pressed.
    Press,
    /// The question whether to delete the chosen state is asked.
    AskDelete,
    /// That question is answered with yes.
    ConfirmDelete,
    /// That question is withdrawn.
    Withdraw,
}

/// What the browser decided.
#[derive(Clone, Copy, PartialEq, Eq, Structural, Debug)]
pub enum StatesAction {
    Nothing,
    Load(usize),
    Delete(usize),
    /// A state kept somewhere else is to be picked.
    Browse,
}

/// What the host is to do about it.
#[derive(Clone, Copy, PartialEq, Eq, Structural, Debug)]
pub enum StatesStep {
    Nothing,
    Load(usize),
    Delete(usize),
    OpenDialog,
}

/// What a key means to the open browser. Escape is the browser's only while
/// it asks to delete something; a second Delete answers what it asked.
pub open spec fn states_op(confirm_delete: bool, key: Key) -> Option<StatesOp> {
    match key {
        Key::Up => Some(StatesOp::Step(Dir::Up)),
        Key::Down => Some(StatesOp::Step(Dir::Down)),
        Key::Left => Some(StatesOp::Step(Dir::Left)),
        Key::Right => Some(StatesOp::Step(Dir::Right)),
        Key::PageUp => Some(StatesOp::Page { down: false }),
        Key::PageDown => Some(StatesOp::Page { down: true }),
        Key::Home => Some(StatesOp::Jump { end: false }),
        Key::End => Some(StatesOp::Jump { end: true }),
        Key::Enter => Some(StatesOp::Press),
        Key::Space => Some(StatesOp::Press),
        Key::Delete => Some(
            if confirm_delete {
                StatesOp::ConfirmDelete
            } else {
                StatesOp::AskDelete
            },
        ),
        Key::Backspace => Some(
            if confirm_delete {
                StatesOp::ConfirmDelete
            } else {
                StatesOp::AskDelete
            },
        ),
        Key::Escape => if confirm_delete {
            Some(StatesOp::Withdraw)
        } else {
            None
        },
        _ => None,
    }
}

fn op_of(confirm_delete: bool, key: Key) -> (r: Option<StatesOp>)
    ensures
        r == states_op(confirm_delete, key),
{
    match key {
        Key::Up => Some(StatesOp::Step(Dir::Up)),
        Key::Down => Some(StatesOp::Step(Dir::Down)),
        Key::Left => Some(StatesOp::Step(Dir::Left)),
        Key::Right => Some(StatesOp::Step(Dir::Right)),
        Key::PageUp => Some(StatesOp::Page { down: false }),
        Key::PageDown => Some(StatesOp::Page { down: true }),
        Key::Home => Some(StatesOp::Jump { end: false }),
        Key::End => Some(StatesOp::Jump { end: true }),
        Key::Enter | Key::Space => Some(StatesOp::Press),
        Key::Delete | Key::Backspace => Some(
            if confirm_delete {
                StatesOp::ConfirmDelete
            } else {
                StatesOp::AskDelete
            },
        ),
        Key::Escape => if confirm_delete {
            Some(StatesOp::Withdraw)
        } else {
            None
        },
        _ => None,
    }
}

impl Ui {
    pub open spec fn asks_delete(&self) -> bool {
        self.panel matches Some(Panel::States { confirm_delete }) && confirm_delete
    }

    /// The browser as a key leaves it: asking, or not asking any more.
    pub open spec fn after_op(&self, op: Option<StatesOp>) -> Ui {
        match op {
            Some(StatesOp::Withdraw) => Ui {
                panel: Some(Panel::States { confirm_delete: false }),
                ..*self
            },
            _ => *self,
        }
    }

    /// Opens the browser over the folder of states, if the host has one; the
    /// file dialog is all there is otherwise. Says whether it opened.
    pub fn open_states_browser(&mut self, fx: &mut Effects, dir: bool) -> (opened: bool)
        requires
            old(self).wf(),
        ensures
            final(self).wf(),
            opened == dir,
            *final(self) == (if dir {
                Ui {
                    panel: Some(Panel::States { confirm_delete: false }),
                    nav: Nav::hidden(),
                    ..*old(self)
                }
            } else {
                *old(self)
            }),
            final(fx)@ == (if dir {
                old(fx)@.push(Effect::Redraw)
            } else {
                old(fx)@
            }),
    {
        if dir {
            self.panel = Some(Panel::States { confirm_delete: false });
            self.nav.clear();
            fx.redraw();
        }
        dir
    }

    /// A key while the browser may be open. What it means is for the
    /// browser's own list to carry out, except for a withdrawn question.
    pub fn states_handle_key(&mut self, fx: &mut Effects, key: Key) -> (op: Option<StatesOp>)
        requires
            old(self).wf(),
        ensures
            final(self).wf(),
            op == (if old(self).browses() {
                states_op(old(self).asks_delete(), key)
            } else {
                None
            }),
            *final(self) == old(self).after_op(op),
            final(fx)@ == (if op is Some {
                old(fx)@.push(Effect::Redraw)
            } else {
                old(fx)@
            }),
    {
        let asks: bool = match &self.panel {
            Some(Panel::States { confirm_delete }) => *confirm_delete,
            _ => {
                return None;
            },
        };
        let op: Option<StatesOp> = op_of(asks, key);
        match op {
            Some(StatesOp::Withdraw) => {
                self.panel = Some(Panel::States { confirm_delete: false });
            },
            _ => {},
        }
        if op.is_some() {
            fx.redraw();
        }
        op
    }

    /// The pad's second button withdraws the question; says whether there was
    /// one.
    pub fn states_nav_back(&mut self, fx: &mut Effects) -> (consumed: bool)
        requires
            old(self).wf(),
        ensures
            final(self).wf(),
            consumed == old(self).asks_delete(),
            *final(self) == (if consumed {
                old(self).after_op(Some(StatesOp::Withdraw))
            } else {
                *old(self)
            }),
            final(fx)@ == (if consumed {
                old(fx)@.push(Effect::Redraw)
            } else {
                old(fx)@
            }),
    {
        let asks: bool = match &self.panel {
            Some(Panel::States { confirm_delete }) => *confirm_delete,
            _ => false,
        };
        if asks {
            self.panel = Some(Panel::States { confirm_delete: false });
            fx.redraw();
        }
        asks
    }

    /// The browser asks, or stops asking, whether to delete a state.
    pub fn set_confirm_delete(&mut self, ask: bool)
        requires
            old(self).wf(),
        ensures
            final(self).wf(),
            *final(self) == (if old(self).browses() {
                Ui { panel: Some(Panel::States { confirm_delete: ask }), ..*old(self) }
            } else {
                *old(self)
            }),
    {
        match &self.panel {
            Some(Panel::States { .. }) => {},
            _ => {
                return;
            },
        }
        self.panel = Some(Panel::States { confirm_delete: ask });
    }
}

/// What is to be done about a decision: a row that is not there any more
/// calls for nothing.
pub open spec fn states_step(action: StatesAction, entries: usize, browses: bool) -> StatesStep {
    match action {
        StatesAction::Nothing => StatesStep::Nothing,
        StatesAction::Load(i) => if i < entries && browses {
            StatesStep::Load(i)
        } else {
            StatesStep::Nothing
        },
        StatesAction::Delete(i) => if i < entries && browses {
            StatesStep::Delete(i)
        } else {
            StatesStep::Nothing
        },
        StatesAction::Browse => StatesStep::OpenDialog,
    }
}

fn step_of(action: StatesAction, entries: usize, browses: bool) -> (r: StatesStep)
    ensures
        r == states_step(action, entries, browses),
{
    match action {
        StatesAction::Nothing => StatesStep::Nothing,
        StatesAction::Load(i) => if i < entries && browses {
            StatesStep::Load(i)
        } else {
            StatesStep::Nothing
        },
        StatesAction::Delete(i) => if i < entries && browses {
            StatesStep::Delete(i)
        } else {
            StatesStep::Nothing
        },
        StatesAction::Browse => StatesStep::OpenDialog,
    }
}

/// The application while the host reads a state or its dialog is up.
pub open spec fn reading(o: &App) -> App {
    App {
        ui: Ui { panel: None, ..o.ui },
        session: Session { audio_suspended: true, ..o.session },
        ..*o
    }
}

pub open spec fn states_acted(o: &App, n: &App, step: StatesStep) -> bool {
    match step {
        StatesStep::Load(_) => {
            &&& *n == (App { fx: n.fx, ..reading(o) })
            &&& n.fx@ == o.fx@.push(Effect::ReleaseKeyboardHolds)
        },
        StatesStep::OpenDialog => *n == reading(o),
        _ => *n == *o,
    }
}

pub open spec fn failed_line(label: Seq<char>) -> Seq<char> {
    label + " failed to load (see log)"@
}

/// A state of the list was loaded, or the browser is up again.
pub open spec fn listed_loaded(
    o: &App,
    n: &App,
    label: Seq<char>,
    name: Seq<char>,
    done: Option<Loaded>,
    null_sink: bool,
    dir: bool,
) -> bool {
    exists|a: App, b: App|
        #![trigger state_loaded(o, &a, name, done, null_sink), resumed_after(&a, &b, Seq::empty())]
        state_loaded(o, &a, name, done, null_sink) && resumed_after(&a, &b, Seq::empty())
            && listed_told(&b, n, label, done is Some, dir)
}

pub open spec fn listed_told(b: &App, n: &App, label: Seq<char>, loaded: bool, dir: bool) -> bool {
    if loaded {
        *n == (App { fx: n.fx, ..*b }) && n.fx@ == b.fx@.push(Effect::Osd("Loaded "@ + label))
    } else if dir {
        &&& *n == (App {
            fx: n.fx,
            ui: Ui {
                panel: Some(Panel::States { confirm_delete: false }),
                nav: Nav::hidden(),
                ..b.ui
            },
            ..*b
        })
        &&& n.fx@ == b.fx@.push(Effect::Redraw)
    } else {
        *n == (App { fx: n.fx, ..*b }) && n.fx@ == b.fx@
    }
}

impl App {
    /// The browser is gone and the machine silent while the host reads.
    fn clear_for_load(&mut self)
        requires
            old(self).wf(),
        ensures
            final(self).wf(),
            *final(self) == reading(old(self)),
    {
        self.ui.panel = None;
        self.session.suspend_live_audio_for_host_io();
    }

    /// Acts on what the browser decided, as far as its list of `entries`
    /// goes. The browser goes before a load: the restored picture is what the
    /// eye wants next.
    pub fn states_act(&mut self, action: StatesAction, entries: usize) -> (step: StatesStep)
        requires
            old(self).wf(),
        ensures
            final(self).wf(),
            step == states_step(action, entries, old(self).ui.browses()),
            states_acted(old(self), final(self), step),
    {
        let browses: bool = match &self.ui.panel {
            Some(Panel::States { .. }) => true,
            _ => false,
        };
        let step: StatesStep = step_of(action, entries, browses);
        match step {
            StatesStep::Load(_) => {
                self.clear_for_load();
                self.load_state_from_path();
            },
            StatesStep::OpenDialog => {
                self.clear_for_load();
            },
            _ => {},
        }
        step
    }

    /// The state that was chosen from the list was loaded, or was not: then
    /// the browser is put back up, where there is a folder to show, with the
    /// reason on its status line.
    pub fn states_loaded(
        &mut self,
        label: &str,
        name: &str,
        done: &Option<Loaded>,
        null_sink: bool,
        dir: bool,
    ) -> (status: Option<String>)
        requires
            old(self).wf(),
        ensures
            final(self).wf(),
            listed_loaded(old(self), final(self), label@, name@, *done, null_sink, dir),
            status is Some == (*done is None && dir),
            status matches Some(t) ==> t@ == failed_line(label@),
    {
        let loaded: bool = self.load_state_done(name, done, null_sink);
        let ghost a = *self;
        assert(state_loaded(old(self), &a, name@, *done, null_sink));
        self.session.finish_host_io_pause(&mut self.fx);
        let ghost b = *self;
        assert(b.fx@ =~= a.fx@ + Seq::empty() + seq![Effect::ReanchorClock]);
        assert(resumed_after(&a, &b, Seq::empty()));
        if loaded {
            let mut text: String = "Loaded ".to_owned();
            put(&mut text, label);
            self.fx.osd(text.as_str());
            return None;
        }
        if self.ui.open_states_browser(&mut self.fx, dir) {
            let mut text: String = String::new();
            put(&mut text, label);
            put(&mut text, " failed to load (see log)");
            assert(text@ =~= failed_line(label@));
            return Some(text);
        }
        None
    }
}

/// The status line after a deletion that worked or did not.
pub open spec fn deleted_line(label: Seq<char>, done: Result<(), String>) -> Seq<char> {
    match done {
        Ok(_) => "Deleted "@ + label,
        Err(e) => "Could not delete "@ + label + ": "@ + e@,
    }
}

pub fn states_deleted(label: &str, done: &Result<(), String>) -> (status: String)
    ensures
        status@ == deleted_line(label@, *done),
{
    match done {
        Ok(_) => {
            let mut text: String = "Deleted ".to_owned();
            put(&mut text, label);
            text
        },
        Err(e) => {
            let mut text: String = "Could not delete ".to_owned();
            put(&mut text, label);
            put(&mut text, ": ");
            put(&mut text, e.as_str());
            text
        },
    }
}

/// Nothing is deleted without a question: Delete only asks, and Escape takes
/// the question back.
pub proof fn lemma_delete_asks_first(key: Key)
    ensures
        states_op(false, key) != Some(StatesOp::ConfirmDelete),
        states_op(true, Key::Escape) == Some(StatesOp::Withdraw),
        states_op(false, Key::Escape) is None,
        states_op(false, Key::Delete) == Some(StatesOp::AskDelete),
        states_op(true, Key::Delete) == Some(StatesOp::ConfirmDelete),
{
}

} // verus!
