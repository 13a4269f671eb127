//! Who the keyboard and the mouse belong to: the emulated machine or the
//! inspectors. In the debug layout the machine gets them only once it was
//! given them, and loses every held key when they are taken back.

use vstd::prelude::*;

use crate::app::App;
use crate::effects::Effect;
use crate::effects::Effects;
use crate::nav::Nav;
use crate::ui::Ui;

verus! {

/// As many raw key codes as the machine's keyboard has.
pub const RAWKEYS: usize = 128;

#[derive(PartialEq, Eq, Debug)]
pub struct GuestInput {
    pub main_focused: bool,
    /// A mouse is plugged into one of the machine's ports.
    pub mouse_port: bool,
    pub mouse_captured: bool,
    /// The raw keys that the machine believes are down.
    pub held: Vec<bool>,
    /// Those of them that came from the raw device path.
    pub device_held: Vec<bool>,
    /// Keys that drive a joystick are down.
    pub joystick_held: bool,
    /// The pointer was last seen over the display.
    pub over_display: bool,
}

impl GuestInput {
    pub open spec fn wf(&self) -> bool {
        &&& self.held@.len() == RAWKEYS
        &&& self.device_held@.len() == RAWKEYS
    }

    /// Nothing is down.
    pub open spec fn idle(&self) -> bool {
        &&& forall|k: int| 0 <= k < RAWKEYS ==> !#[trigger] self.held@[k]
        &&& forall|k: int| 0 <= k < RAWKEYS ==> !#[trigger] self.device_held@[k]
        &&& !self.joystick_held
        &&& !self.mouse_captured
    }

    pub fn new() -> (r: GuestInput)
        ensures
            r.wf(),
            r.idle(),
            !r.main_focused,
            !r.mouse_port,
            !r.over_display,
    {
        GuestInput {
            main_focused: false,
            mouse_port: false,
            mouse_captured: false,
            held: all_up(),
            device_held: all_up(),
            joystick_held: false,
            over_display: false,
        }
    }

    pub fn amiga_rawkey_held(&self, rawkey: u8) -> (r: bool)
        requires
            self.wf(),
            rawkey < RAWKEYS,
        ensures
            r == self.held@[rawkey as int],
    {
        self.held[rawkey as usize]
    }
}

pub open spec fn up() -> Seq<bool> {
    Seq::new(RAWKEYS as nat, |k: int| false)
}

pub(crate) fn all_up() -> (r: Vec<bool>)
    ensures
        r@ == up(),
{
    let mut v: Vec<bool> = Vec::new();
    let mut i: usize = 0;
    while i < RAWKEYS
        invariant
            i <= RAWKEYS,
            v@ == Seq::new(i as nat, |k: int| false),
        decreases RAWKEYS - i,
    {
        v.push(false);
        i += 1;
        assert(v@ =~= Seq::new(i as nat, |k: int| false));
    }
    v
}

/// The releases of the first `n` raw keys, in order, where they are down.
pub open spec fn key_releases(held: Seq<bool>, n: int) -> Seq<Effect<Seq<char>>>
    decreases n,
{
    if n <= 0 {
        Seq::empty()
    } else if held[n - 1] {
        key_releases(held, n - 1).push(Effect::ReleaseRawKey((n - 1) as u8))
    } else {
        key_releases(held, n - 1)
    }
}

/// What letting go of everything asks of the host. The machine's mouse
/// buttons are released by themselves where it was given the input without
/// the mouse.
#[verifier::opaque]
pub open spec fn drop_effects(g: &GuestInput, given: bool) -> Seq<Effect<Seq<char>>> {
    seq![Effect::CaptureMouse(false)] + (if given && !g.mouse_captured {
        seq![Effect::ReleaseMouseButtons]
    } else {
        Seq::empty()
    }) + key_releases(g.held@, RAWKEYS as int) + (if g.joystick_held {
        seq![Effect::PumpJoystick]
    } else {
        Seq::empty()
    })
}

/// What taking the input back asks of the host.
pub open spec fn release_effects(o: &App) -> Seq<Effect<Seq<char>>> {
    drop_effects(&o.guest, o.desk.guest_input).push(Effect::Redraw)
}

/// The input belongs to the inspectors, and the machine holds no key.
pub open spec fn taken_back(o: &App, n: &App) -> bool {
    &&& *n == (App { fx: n.fx, guest: n.guest, desk: n.desk, ..*o })
    &&& n.desk == (crate::desk::Desk { guest_input: false, ..o.desk })
    &&& n.guest.idle()
    &&& n.guest.wf()
    &&& !n.guest.over_display
    &&& n.guest.main_focused == o.guest.main_focused
    &&& n.guest.mouse_port == o.guest.mouse_port
    &&& n.fx@ == o.fx@ + release_effects(o)
}

/// The input belongs to the machine.
pub open spec fn given(o: &App, n: &App) -> bool {
    &&& *n == (App {
        fx: n.fx,
        desk: crate::desk::Desk { guest_input: true, ..o.desk },
        guest: GuestInput {
            mouse_captured: o.guest.mouse_captured || o.guest.mouse_port,
            ..o.guest
        },
        ui: Ui { nav: Nav::hidden(), ..o.ui },
        ..*o
    })
    &&& n.fx@ == o.fx@ + seq![Effect::SurrenderFocus] + (
    if o.guest.mouse_port {
        seq![Effect::CaptureMouse(true)]
    } else {
        Seq::empty()
    }) + seq![Effect::Redraw]
}

fn push_releases(fx: &mut Effects, held: &Vec<bool>)
    requires
        held@.len() == RAWKEYS,
    ensures
        final(fx)@ == old(fx)@ + key_releases(held@, RAWKEYS as int),
{
    let mut k: usize = 0;
    assert(fx@ =~= old(fx)@ + key_releases(held@, 0));
    while k < RAWKEYS
        invariant
            k <= RAWKEYS,
            held@.len() == RAWKEYS,
            fx@ == old(fx)@ + key_releases(held@, k as int),
        decreases RAWKEYS - k,
    {
        if held[k] {
            fx.push(Effect::ReleaseRawKey(k as u8));
        }
        k += 1;
        assert(fx@ =~= old(fx)@ + key_releases(held@, k as int));
    }
}

impl GuestInput {
    /// Lets go of every key and of the mouse.
    fn let_go(&mut self, fx: &mut Effects, given: bool)
        requires
            old(self).wf(),
        ensures
            final(self).wf(),
            final(self).idle(),
            !final(self).over_display,
            final(self).main_focused == old(self).main_focused,
            final(self).mouse_port == old(self).mouse_port,
            final(fx)@ == old(fx)@ + drop_effects(old(self), given),
    {
        proof {
            reveal(drop_effects);
        }
        fx.push(Effect::CaptureMouse(false));
        if given && !self.mouse_captured {
            fx.push(Effect::ReleaseMouseButtons);
        }
        let ghost before = fx@;
        self.mouse_captured = false;
        push_releases(fx, &self.held);
        let ghost keys = key_releases(self.held@, RAWKEYS as int);
        assert(fx@ == before + keys);
        self.held = all_up();
        self.device_held = all_up();
        if self.joystick_held {
            self.joystick_held = false;
            fx.push(Effect::PumpJoystick);
        }
        self.over_display = false;
        assert(fx@ =~= old(fx)@ + drop_effects(old(self), given));
    }
}

impl App {
    /// Takes the keyboard and the mouse back from the machine. A change of
    /// focus must not leave a key of the machine's held for ever.
    pub fn release_debug_guest_input(&mut self)
        requires
            old(self).wf(),
        ensures
            final(self).wf(),
            taken_back(old(self), final(self)),
    {
        self.take_input_back();
    }

    pub(crate) fn take_input_back(&mut self)
        requires
            old(self).guest.wf(),
        ensures
            taken_back(old(self), final(self)),
    {
        self.guest.let_go(&mut self.fx, self.desk.guest_input);
        self.desk.guest_input = false;
        self.fx.redraw();
        assert(self.fx@ =~= old(self).fx@ + release_effects(old(self)));
    }

    /// Gives the keyboard, and the mouse where the machine has one, to the
    /// machine.
    pub fn capture_debug_guest_input(&mut self)
        requires
            old(self).wf(),
            old(self).desk.layout_active,
        ensures
            final(self).wf(),
            given(old(self), final(self)),
    {
        self.desk.guest_input = true;
        self.ui.nav.clear();
        self.fx.push(Effect::SurrenderFocus);
        if self.guest.mouse_port {
            self.guest.mouse_captured = true;
            self.fx.push(Effect::CaptureMouse(true));
        }
        self.fx.redraw();
        assert(self.fx@ =~= old(self).fx@ + seq![Effect::SurrenderFocus] + (
        if old(self).guest.mouse_port {
            seq![Effect::CaptureMouse(true)]
        } else {
            Seq::empty()
        }) + seq![Effect::Redraw]);
    }

    /// The host would not let the window have the mouse that it asked for.
    pub fn mouse_refused(&mut self)
        requires
            old(self).wf(),
        ensures
            final(self).wf(),
            *final(self) == (App {
                guest: GuestInput { mouse_captured: false, ..old(self).guest },
                ..*old(self)
            }),
    {
        self.guest.mouse_captured = false;
    }

    /// Whether a raw key would reach the machine: the window has the focus,
    /// and the inspectors do not own the input.
    pub open spec fn guest_hears(&self) -> bool {
        self.guest.main_focused && (self.desk.layout_active ==> self.desk.guest_input)
    }

    /// A raw key of the host's keyboard went down or up.
    pub fn handle_raw_device_key_event(&mut self, rawkey: u8, pressed: bool) -> (heard: bool)
        requires
            old(self).wf(),
            rawkey < RAWKEYS,
        ensures
            final(self).wf(),
            heard == old(self).guest_hears(),
            !heard ==> *final(self) == *old(self),
            heard ==> {
                &&& *final(self) == (App {
                    fx: final(self).fx,
                    guest: final(self).guest,
                    ..*old(self)
                })
                &&& final(self).guest == (GuestInput {
                    held: final(self).guest.held,
                    device_held: final(self).guest.device_held,
                    ..old(self).guest
                })
                &&& final(self).guest.held@ == old(self).guest.held@.update(rawkey as int, pressed)
                &&& final(self).guest.device_held@ == old(self).guest.device_held@.update(
                    rawkey as int,
                    pressed,
                )
                &&& final(self).fx@ == old(self).fx@.push(
                    if pressed {
                        Effect::PressRawKey(rawkey)
                    } else {
                        Effect::ReleaseRawKey(rawkey)
                    },
                )
            },
    {
        if !self.guest.main_focused || (self.desk.layout_active && !self.desk.guest_input) {
            return false;
        }
        self.guest.held.set(rawkey as usize, pressed);
        self.guest.device_held.set(rawkey as usize, pressed);
        if pressed {
            self.fx.push(Effect::PressRawKey(rawkey));
        } else {
            self.fx.push(Effect::ReleaseRawKey(rawkey));
        }
        true
    }
}

/// While the inspectors own the input no raw key reaches the machine, and
/// once it was taken back none is down.
pub proof fn lemma_inspectors_own_the_input(o: App, n: App)
    requires
        o.desk.layout_active,
        taken_back(&o, &n),
    ensures
        !n.guest_hears(),
        n.guest.idle(),
{
}

} // verus!
