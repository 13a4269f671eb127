//! A shared session over the network. It owns every input of the machine:
//! what the window hears goes to the shared timeline or nowhere. A spectator
//! only replays what the players did.

use vstd::prelude::*;

use crate::app::App;
use crate::effects::Effect;
use crate::effects::Effects;
use crate::guest::GuestInput;
use crate::guest::RAWKEYS;
use crate::guest::all_up;
use crate::guest::up;
use crate::session::Session;
use crate::text::put;

verus! {

/// Frames behind the players at which a spectator starts to replay unpaced,
/// those at which it is paced again, and the most it replays at once.
pub const CATCHUP_START: u64 = 25;

pub const CATCHUP_END: u64 = 5;

pub const CATCHUP_BURST: u64 = 64;

/// Milliseconds between two notices of how far behind a spectator is.
pub const NOTICE_EVERY: u64 = 1000;

#[derive(Clone, Copy, PartialEq, Eq, Structural, Debug)]
pub enum Role {
    Host,
    Guest,
    Spectator,
}

/// What this player holds down, as it goes to the timeline.
#[derive(PartialEq, Eq, Debug)]
pub struct HeldInput {
    pub buttons: u16,
    pub keys: Vec<bool>,
    /// The left, right and middle mouse button.
    pub left: bool,
    pub right: bool,
    pub middle: bool,
}

impl HeldInput {
    pub open spec fn wf(&self) -> bool {
        self.keys@.len() == RAWKEYS
    }

    pub open spec fn nothing(&self) -> bool {
        self.buttons == 0 && self.keys@ == up() && !self.left && !self.right && !self.middle
    }

    pub fn new() -> (r: HeldInput)
        ensures
            r.wf(),
            r.nothing(),
    {
        HeldInput { buttons: 0, keys: all_up(), left: false, right: false, middle: false }
    }
}

/// A netplay session as the application holds it.
#[derive(PartialEq, Eq, Debug)]
pub struct NetplaySession {
    pub role: Role,
    /// The port that this player's controller is plugged into.
    pub port: Option<u8>,
    pub input: HeldInput,
    /// The keyboard drives the joystick rather than typing.
    pub keyboard_controller: bool,
    /// When the last catch-up notice was shown.
    pub notice_at: Option<u64>,
}

impl NetplaySession {
    pub open spec fn wf(&self) -> bool {
        &&& self.input.wf()
        &&& self.role is Spectator ==> !self.keyboard_controller
    }
}

pub open spec fn waiting_text(spectator: bool) -> Seq<char> {
    if spectator {
        "Netplay: connecting to the host (F11 to cancel)"@
    } else {
        "Netplay: waiting for peer (F11 to cancel)"@
    }
}

/// The application that just joined a session.
pub open spec fn joined(o: &App, n: &App, role: Role, port: Option<u8>) -> bool {
    &&& *n == (App {
        netplay: n.netplay,
        fx: n.fx,
        guest: GuestInput { over_display: false, ..o.guest },
        ..*o
    })
    &&& n.netplay matches Some(s) && {
        &&& s.role == role
        &&& s.port == port
        &&& s.input.nothing()
        &&& s.keyboard_controller == (role !is Spectator && !o.guest.mouse_port)
        &&& s.notice_at is None
    }
    &&& n.fx@ == o.fx@ + seq![Effect::DropMotion, Effect::Osd(waiting_text(role is Spectator))]
}

/// What a lost or ended session comes to.
pub open spec fn left_status(error: Option<Seq<char>>) -> Effect<Seq<char>> {
    match error {
        None => Effect::LauncherStatus {
            good: true,
            text: "Disconnected. Run starts a new session"@,
        },
        Some(e) => Effect::LauncherStatus { good: false, text: "Netplay stopped: "@ + e },
    }
}

/// The session in which a spectator's replay is over.
pub open spec fn caught_up(s: Session) -> Session {
    (Session { catching_up: false, paced: true, ..s }).settled()
}

/// The session paused, and paced if it was replaying.
pub open spec fn left_alone(s: Session) -> Session {
    (Session { paused: true, catching_up: false, paced: s.paced || s.catching_up, ..s }).settled()
}

/// The machine is paused and its own again, with the launcher open.
pub open spec fn departed(o: &App, n: &App, error: Option<Seq<char>>) -> bool {
    &&& *n == (App {
        netplay: None,
        fx: n.fx,
        session: left_alone(o.session),
        guest: GuestInput { mouse_captured: false, joystick_held: false, ..o.guest },
        ..*o
    })
    &&& n.fx@ == o.fx@ + leave_requests(error)
}

fn alone(s: Session) -> (r: Session)
    ensures
        r == left_alone(s),
{
    let mut t: Session = s;
    if t.catching_up {
        t.paced = true;
        t.catching_up = false;
    }
    t.paused = true;
    t.sync_live_audio_suspension();
    t
}

impl App {
    /// Joins a shared session.
    pub fn attach_netplay(&mut self, role: Role, port: Option<u8>)
        requires
            old(self).wf(),
        ensures
            final(self).wf(),
            joined(old(self), final(self), role, port),
    {
        let spectator: bool = role == Role::Spectator;
        self.netplay =
        Some(
            NetplaySession {
                role,
                port,
                input: HeldInput::new(),
                keyboard_controller: !spectator && !self.guest.mouse_port,
                notice_at: None,
            },
        );
        self.guest.over_display = false;
        self.fx.push(Effect::DropMotion);
        if spectator {
            self.fx.osd("Netplay: connecting to the host (F11 to cancel)");
        } else {
            self.fx.osd("Netplay: waiting for peer (F11 to cancel)");
        }
        assert(self.fx@ =~= old(self).fx@ + seq![
            Effect::DropMotion,
            Effect::Osd(waiting_text(spectator)),
        ]);
    }

    /// Leaves the session, because of an error or by the user's wish. A
    /// spectator interrupted while it replayed leaves the machine paced.
    pub fn leave_netplay(&mut self, error: Option<&str>)
        requires
            old(self).wf(),
        ensures
            final(self).wf(),
            departed(
                old(self),
                final(self),
                match error {
                    Some(e) => Some(e@),
                    None => None,
                },
            ),
    {
        self.guest.mouse_captured = false;
        self.guest.joystick_held = false;
        self.netplay = None;
        self.session = alone(self.session);
        tell_left(&mut self.fx, error);
    }
}

/// What leaving a session asks of the host.
pub open spec fn leave_requests(error: Option<Seq<char>>) -> Seq<Effect<Seq<char>>> {
    seq![
        Effect::CancelDiskPicker,
        Effect::CaptureMouse(false),
        Effect::OpenLauncher,
        left_status(error),
        Effect::ParkNav,
        Effect::Redraw,
    ]
}

fn tell_left(fx: &mut Effects, error: Option<&str>)
    ensures
        final(fx)@ == old(fx)@ + leave_requests(
            match error {
                Some(e) => Some(e@),
                None => None,
            },
        ),
{
    fx.push(Effect::CancelDiskPicker);
    fx.push(Effect::CaptureMouse(false));
    fx.push(Effect::OpenLauncher);
    match error {
        None => fx.push(
            Effect::LauncherStatus {
                good: true,
                text: "Disconnected. Run starts a new session".to_owned(),
            },
        ),
        Some(e) => {
            let mut text = "Netplay stopped: ".to_owned();
            put(&mut text, e);
            fx.push(Effect::LauncherStatus { good: false, text });
        },
    }
    fx.push(Effect::ParkNav);
    fx.redraw();
    assert(fx@ =~= old(fx)@ + leave_requests(
        match error {
            Some(e) => Some(e@),
            None => None,
        },
    ));
}

/// Everything that a joystick or a pad can hold.
#[derive(Clone, Copy, PartialEq, Eq, Structural, Debug)]
pub struct JoyState {
    pub up: bool,
    pub down: bool,
    pub left: bool,
    pub right: bool,
    pub fire: bool,
    pub button2: bool,
    pub play: bool,
    pub rwd: bool,
    pub ffw: bool,
    pub green: bool,
    pub yellow: bool,
}

pub open spec fn bit(on: bool, weight: int) -> int {
    if on {
        weight
    } else {
        0
    }
}

impl JoyState {
    pub open spec fn none() -> JoyState {
        JoyState {
            up: false,
            down: false,
            left: false,
            right: false,
            fire: false,
            button2: false,
            play: false,
            rwd: false,
            ffw: false,
            green: false,
            yellow: false,
        }
    }

    /// The held buttons as bits, the directions lowest.
    pub open spec fn bits(self) -> int {
        self.low_bits() + self.high_bits()
    }

    pub open spec fn low_bits(self) -> int {
        bit(self.up, 1) + bit(self.down, 2) + bit(self.left, 4) + bit(self.right, 8) + bit(
            self.fire,
            16,
        )
    }

    pub open spec fn high_bits(self) -> int {
        bit(self.button2, 32) + bit(self.play, 64) + bit(self.rwd, 128) + bit(self.ffw, 256) + bit(
            self.green,
            512,
        ) + bit(self.yellow, 1024)
    }

    pub fn to_bits(self) -> (r: u16)
        ensures
            r == self.bits(),
    {
        self.to_low_bits() + self.to_high_bits()
    }

    fn to_low_bits(self) -> (r: u16)
        ensures
            r == self.low_bits(),
            r < 32,
    {
        let a: u16 = weight(self.up, 1);
        let b: u16 = weight(self.down, 2);
        let c: u16 = weight(self.left, 4);
        let d: u16 = weight(self.right, 8);
        let e: u16 = weight(self.fire, 16);
        a + b + c + d + e
    }

    fn to_high_bits(self) -> (r: u16)
        ensures
            r == self.high_bits(),
            r < 2048,
    {
        let a: u16 = weight(self.button2, 32);
        let b: u16 = weight(self.play, 64);
        let c: u16 = weight(self.rwd, 128);
        let d: u16 = weight(self.ffw, 256);
        let e: u16 = weight(self.green, 512);
        let f: u16 = weight(self.yellow, 1024);
        a + b + c + d + e + f
    }
}

fn weight(on: bool, w: u16) -> (r: u16)
    ensures
        r == bit(on, w as int),
        r <= w,
{
    if on {
        w
    } else {
        0
    }
}

/// Two states of a controller go out as the same bits only if they hold the
/// same buttons.
pub proof fn lemma_bits_tell_buttons_apart(a: JoyState, b: JoyState)
    requires
        a.bits() == b.bits(),
    ensures
        a == b,
{
}

/// What becomes of the controller's state before a frame.
#[derive(Clone, Copy, PartialEq, Eq, Structural, Debug)]
pub enum Pumped {
    /// This player's port takes none.
    Nothing,
    /// A scripted controller drives the port.
    Script(u8),
    /// It is held for the timeline.
    Held,
}

/// The state that this player's controller is in: the pad's where there is
/// one, else the keyboard's where it drives the joystick; nothing while the
/// window has no focus. Autofire gates the fire button.
pub open spec fn controller(
    s: &NetplaySession,
    pad: Option<JoyState>,
    keyboard: JoyState,
    focused: bool,
    fire: bool,
) -> JoyState {
    let held = if !focused || (pad is None && !s.keyboard_controller) {
        JoyState::none()
    } else {
        match pad {
            Some(p) => p,
            None => keyboard,
        }
    };
    JoyState { fire: held.fire && fire, ..held }
}

pub open spec fn pump_route(o: &App, s: &NetplaySession, pad: bool, scripted: bool) -> Pumped {
    if o.guest.mouse_port {
        Pumped::Nothing
    } else {
        match s.port {
            None => Pumped::Nothing,
            Some(port) => if !pad && scripted {
                Pumped::Script(port)
            } else {
                Pumped::Held
            },
        }
    }
}

/// The session holds these buttons, and is otherwise the same.
pub open spec fn holds_buttons(o: &App, n: &App, bits: int) -> bool {
    &&& *n == (App { netplay: n.netplay, ..*o })
    &&& match (o.netplay, n.netplay) {
        (Some(s), Some(t)) => t == (NetplaySession {
            input: HeldInput { buttons: t.input.buttons, ..s.input },
            ..s
        }) && t.input.buttons == bits,
        _ => false,
    }
}

impl App {
    /// Takes the controller's state for the next frame of the timeline. A
    /// spectator has no port: nothing it holds reaches anybody.
    pub fn pump_netplay_input(
        &mut self,
        pad: Option<JoyState>,
        keyboard: JoyState,
        scripted: bool,
        fire: bool,
    ) -> (r: Pumped)
        requires
            old(self).wf(),
            old(self).netplay is Some,
        ensures
            final(self).wf(),
            r == pump_route(old(self), &old(self).netplay.unwrap(), pad is Some, scripted),
            if r is Held {
                holds_buttons(
                    old(self),
                    final(self),
                    controller(
                        &old(self).netplay.unwrap(),
                        pad,
                        keyboard,
                        old(self).guest.main_focused,
                        fire,
                    ).bits(),
                )
            } else {
                *final(self) == *old(self)
            },
    {
        if self.guest.mouse_port {
            return Pumped::Nothing;
        }
        let focused: bool = self.guest.main_focused;
        match self.netplay.take() {
            None => Pumped::Nothing,
            Some(mut s) => {
                let port: u8 = match s.port {
                    None => {
                        self.netplay = Some(s);
                        return Pumped::Nothing;
                    },
                    Some(port) => port,
                };
                if pad.is_none() && scripted {
                    self.netplay = Some(s);
                    return Pumped::Script(port);
                }
                let mut held: JoyState = match pad {
                    Some(p) => p,
                    None => keyboard,
                };
                if (!s.keyboard_controller && pad.is_none()) || !focused {
                    held =
                    JoyState {
                        up: false,
                        down: false,
                        left: false,
                        right: false,
                        fire: false,
                        button2: false,
                        play: false,
                        rwd: false,
                        ffw: false,
                        green: false,
                        yellow: false,
                    };
                }
                held.fire = held.fire && fire;
                s.input.buttons = held.to_bits();
                self.netplay = Some(s);
                Pumped::Held
            },
        }
    }
}

} // verus!
