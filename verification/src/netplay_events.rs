//! The window's events while a shared session runs: the session takes every
//! one that could change the machine, before any shortcut, menu or mouse
//! handling sees it.

use vstd::prelude::*;

use crate::app::App;
use crate::effects::Effect;
use crate::guest::GuestInput;
use crate::guest::RAWKEYS;
use crate::netplay::HeldInput;
use crate::netplay::NetplaySession;
use crate::netplay::Role;
use crate::netplay::departed;
use crate::text::put;

verus! {

/// A key, as far as a session goes by it.
#[derive(Clone, Copy, PartialEq, Eq, Structural, Debug)]
pub enum NetKey {
    Q,
    F,
    D,
    G,
    F11,
    F12,
    /// Any other, with what it means to the first keyboard joystick and to
    /// the machine's keyboard.
    Other,
}

#[derive(Clone, Copy, PartialEq, Eq, Structural, Debug)]
pub enum NetButton {
    Left,
    Right,
    Middle,
    Other,
}

/// A window event, as far as a session goes by it.
#[derive(Clone, Copy, PartialEq, Eq, Structural, Debug)]
pub enum NetEvent {
    Key {
        key: NetKey,
        pressed: bool,
        repeat: bool,
        /// The host's shortcut modifier is down.
        shortcut: bool,
        /// The key is one of the first keyboard joystick's.
        joystick: bool,
        /// The machine's own key.
        rawkey: Option<u8>,
        /// The host would let the window grab the mouse.
        grabs: bool,
    },
    Modifiers,
    Focused(bool),
    CursorMoved,
    CursorLeft,
    Mouse {
        pressed: bool,
        button: NetButton,
        /// The pointer is over the status bar.
        over_bar: bool,
        over_display: bool,
        /// The user grabs the mouse by hand only.
        manual: bool,
        /// The host would let the window grab the mouse.
        grabs: bool,
    },
    /// Files carried over the window or dropped on it, which would change the
    /// disks of one side alone.
    Files,
    /// Closing, resizing, scaling, redrawing or hiding the window.
    Presentation,
    Other,
}

/// What the host does about an event.
#[derive(Clone, Copy, PartialEq, Eq, Structural, Debug)]
pub enum NetAct {
    Nothing,
    Exit,
    ToggleFullscreen,
    CycleDisk,
    /// The key goes to the keyboard joystick.
    JoystickKey,
    /// Follow the pointer, and a hover over the bar.
    TrackPointer,
    /// A drive's control under the pointer is used, if there is one.
    BarControl,
}

/// Whether the session took an event, and what the host does about it.
#[derive(Clone, Copy, PartialEq, Eq, Structural, Debug)]
pub struct NetRoute {
    pub consumed: bool,
    pub act: NetAct,
}

pub open spec fn taken(act: NetAct) -> NetRoute {
    NetRoute { consumed: true, act }
}

fn took(act: NetAct) -> (r: NetRoute)
    ensures
        r == taken(act),
{
    NetRoute { consumed: true, act }
}

pub open spec fn control_words(keyboard: bool) -> Seq<char> {
    if keyboard {
        "Netplay: keyboard controls the joystick (F12 to type)"@
    } else {
        "Netplay: Amiga keyboard typing (F12 for joystick)"@
    }
}

/// What a shortcut does: nothing of the machine but a host's disk, and the
/// grab of a mouse that this player controls.
pub open spec fn shortcut_act(s: &NetplaySession, key: NetKey) -> NetAct {
    match key {
        NetKey::Q => NetAct::Exit,
        NetKey::F => NetAct::ToggleFullscreen,
        NetKey::D => if s.role is Host {
            NetAct::CycleDisk
        } else {
            NetAct::Nothing
        },
        _ => NetAct::Nothing,
    }
}

/// The mouse grab is toggled, by the shortcut for it, as far as the host lets
/// the window have the mouse.
pub open spec fn mouse_toggled(o: &App, n: &App, grabs: bool) -> bool {
    &&& *n == (App {
        fx: n.fx,
        guest: GuestInput { mouse_captured: !o.guest.mouse_captured && grabs, ..o.guest },
        ..*o
    })
    &&& n.fx@ == o.fx@.push(Effect::CaptureMouse(!o.guest.mouse_captured))
}

/// The keyboard changes between driving the joystick and typing.
pub open spec fn controller_toggled(o: &App, n: &App) -> bool {
    let s = o.netplay.unwrap();
    &&& *n == (App {
        fx: n.fx,
        netplay: n.netplay,
        guest: GuestInput { joystick_held: false, ..o.guest },
        ..*o
    })
    &&& n.netplay matches Some(t) && {
        &&& t.role == s.role
        &&& t.port == s.port
        &&& t.notice_at == s.notice_at
        &&& t.keyboard_controller == !s.keyboard_controller
        &&& t.input.nothing()
    }
    &&& n.fx@ == o.fx@.push(Effect::Osd(control_words(!s.keyboard_controller)))
}

/// A key of the machine's goes to the timeline.
pub open spec fn key_held(o: &App, n: &App, rawkey: u8, pressed: bool) -> bool {
    let s = o.netplay.unwrap();
    &&& *n == (App { netplay: n.netplay, ..*o })
    &&& n.netplay matches Some(t) && {
        &&& t == (NetplaySession {
            input: HeldInput { keys: t.input.keys, ..s.input },
            ..s
        })
        &&& t.input.keys@ == s.input.keys@.update(rawkey as int, pressed)
    }
}

pub open spec fn key_event(
    o: &App,
    n: &App,
    key: NetKey,
    pressed: bool,
    repeat: bool,
    shortcut: bool,
    joystick: bool,
    rawkey: Option<u8>,
    grabs: bool,
    r: NetRoute,
) -> bool {
    let s = o.netplay.unwrap();
    if repeat {
        r == taken(NetAct::Nothing) && *n == *o
    } else if shortcut && pressed {
        &&& r == taken(shortcut_act(&s, key))
        &&& if key is G && o.guest.mouse_port {
            mouse_toggled(o, n, grabs)
        } else {
            *n == *o
        }
    } else if key is F11 {
        &&& r == taken(NetAct::Nothing)
        &&& if pressed {
            departed(o, n, None)
        } else {
            *n == *o
        }
    } else if s.role is Spectator {
        r == taken(NetAct::Nothing) && *n == *o
    } else if key is F12 {
        &&& r == taken(NetAct::Nothing)
        &&& if pressed && !o.guest.mouse_port {
            controller_toggled(o, n)
        } else {
            *n == *o
        }
    } else if s.keyboard_controller && joystick {
        r == taken(NetAct::JoystickKey) && *n == *o
    } else {
        &&& r == taken(NetAct::Nothing)
        &&& match rawkey {
            Some(k) => key_held(o, n, k, pressed),
            None => *n == *o,
        }
    }
}

/// The window lost the focus: nothing stays held.
pub open spec fn focus_lost(o: &App, n: &App) -> bool {
    let s = o.netplay.unwrap();
    &&& *n == (App {
        fx: n.fx,
        netplay: n.netplay,
        guest: GuestInput {
            main_focused: false,
            mouse_captured: false,
            over_display: false,
            joystick_held: false,
            ..o.guest
        },
        ..*o
    })
    &&& n.netplay matches Some(t) && t == (NetplaySession { input: t.input, ..s })
        && t.input.nothing()
    &&& n.fx@ == o.fx@ + seq![Effect::CaptureMouse(false), Effect::DropMotion]
}

/// A mouse button goes to the timeline.
pub open spec fn button_held(o: &App, n: &App, button: NetButton, pressed: bool) -> bool {
    let s = o.netplay.unwrap();
    *n == (App {
        netplay: Some(
            NetplaySession {
                input: match button {
                    NetButton::Left => HeldInput { left: pressed, ..s.input },
                    NetButton::Right => HeldInput { right: pressed, ..s.input },
                    NetButton::Middle => HeldInput { middle: pressed, ..s.input },
                    NetButton::Other => s.input,
                },
                ..s
            },
        ),
        ..*o
    })
}

pub open spec fn mouse_event(
    o: &App,
    n: &App,
    pressed: bool,
    button: NetButton,
    over_bar: bool,
    over_display: bool,
    manual: bool,
    grabs: bool,
    r: NetRoute,
) -> bool {
    let captured = o.guest.mouse_captured;
    if pressed && button is Left && !captured && over_bar {
        r == taken(NetAct::BarControl) && *n == *o
    } else {
        &&& r == taken(NetAct::Nothing)
        &&& if !o.guest.mouse_port || !o.guest.main_focused {
            *n == *o
        } else if pressed && !captured && over_display && !manual && grabs {
            &&& *n == (App {
                fx: n.fx,
                guest: GuestInput { mouse_captured: true, ..o.guest },
                ..*o
            })
            &&& n.fx@ == o.fx@.push(Effect::CaptureMouse(true))
        } else if !pressed || captured || over_display {
            button_held(o, n, button, pressed)
        } else {
            *n == *o
        }
    }
}

/// What becomes of an event: only presentation is left to the window, and
/// everything is where there is no session.
pub open spec fn net_routed(o: &App, n: &App, e: NetEvent, r: NetRoute) -> bool {
    if o.netplay is None {
        r == (NetRoute { consumed: false, act: NetAct::Nothing }) && *n == *o
    } else {
        match e {
            NetEvent::Key { key, pressed, repeat, shortcut, joystick, rawkey, grabs } => key_event(
                o,
                n,
                key,
                pressed,
                repeat,
                shortcut,
                joystick,
                rawkey,
                grabs,
                r,
            ),
            NetEvent::Focused(focused) => {
                &&& r == taken(NetAct::Nothing)
                &&& if focused {
                    *n == (App { guest: GuestInput { main_focused: true, ..o.guest }, ..*o })
                } else {
                    focus_lost(o, n)
                }
            },
            NetEvent::CursorMoved => r == taken(NetAct::TrackPointer) && *n == *o,
            NetEvent::CursorLeft => {
                &&& r == taken(NetAct::TrackPointer)
                &&& *n == (App {
                    fx: n.fx,
                    guest: GuestInput { over_display: false, ..o.guest },
                    ..*o
                })
                &&& n.fx@ == (if o.guest.mouse_captured {
                    o.fx@
                } else {
                    o.fx@.push(Effect::ReleaseMouseButtons)
                })
            },
            NetEvent::Mouse { pressed, button, over_bar, over_display, manual, grabs } =>
            mouse_event(o, n, pressed, button, over_bar, over_display, manual, grabs, r),
            NetEvent::Modifiers | NetEvent::Files | NetEvent::Other => r == taken(NetAct::Nothing)
                && *n == *o,
            NetEvent::Presentation => r == (NetRoute { consumed: false, act: NetAct::Nothing })
                && *n == *o,
        }
    }
}

impl App {
    fn net_shortcut(&mut self, role: Role, key: NetKey, grabs: bool) -> (act: NetAct)
        requires
            old(self).wf(),
            old(self).netplay matches Some(s) && s.role == role,
        ensures
            final(self).wf(),
            act == shortcut_act(&old(self).netplay.unwrap(), key),
            if key is G && old(self).guest.mouse_port {
                mouse_toggled(old(self), final(self), grabs)
            } else {
                *final(self) == *old(self)
            },
    {
        match key {
            NetKey::Q => NetAct::Exit,
            NetKey::F => NetAct::ToggleFullscreen,
            NetKey::D => if role == Role::Host {
                NetAct::CycleDisk
            } else {
                NetAct::Nothing
            },
            NetKey::G => {
                if self.guest.mouse_port {
                    let on: bool = !self.guest.mouse_captured;
                    self.guest.mouse_captured = on && grabs;
                    self.fx.push(Effect::CaptureMouse(on));
                }
                NetAct::Nothing
            },
            _ => NetAct::Nothing,
        }
    }

    fn net_toggle_controller(&mut self)
        requires
            old(self).wf(),
            old(self).netplay matches Some(s) && s.role !is Spectator,
        ensures
            final(self).wf(),
            controller_toggled(old(self), final(self)),
    {
        let mut keyboard: bool = false;
        match self.netplay.take() {
            Some(mut s) => {
                s.keyboard_controller = !s.keyboard_controller;
                keyboard = s.keyboard_controller;
                s.input = HeldInput::new();
                self.netplay = Some(s);
            },
            None => {},
        }
        self.guest.joystick_held = false;
        if keyboard {
            self.fx.osd("Netplay: keyboard controls the joystick (F12 to type)");
        } else {
            self.fx.osd("Netplay: Amiga keyboard typing (F12 for joystick)");
        }
    }

    fn net_hold_key(&mut self, rawkey: u8, pressed: bool)
        requires
            old(self).wf(),
            old(self).netplay is Some,
            rawkey < RAWKEYS,
        ensures
            final(self).wf(),
            key_held(old(self), final(self), rawkey, pressed),
    {
        match self.netplay.take() {
            Some(mut s) => {
                s.input.keys.set(rawkey as usize, pressed);
                self.netplay = Some(s);
            },
            None => {},
        }
    }

    fn net_key(
        &mut self,
        key: NetKey,
        pressed: bool,
        repeat: bool,
        shortcut: bool,
        joystick: bool,
        rawkey: Option<u8>,
        grabs: bool,
    ) -> (r: NetRoute)
        requires
            old(self).wf(),
            old(self).netplay is Some,
            rawkey matches Some(k) ==> k < RAWKEYS,
        ensures
            final(self).wf(),
            key_event(
                old(self),
                final(self),
                key,
                pressed,
                repeat,
                shortcut,
                joystick,
                rawkey,
                grabs,
                r,
            ),
    {
        let (role, controller): (Role, bool) = match &self.netplay {
            Some(s) => (s.role, s.keyboard_controller),
            None => (Role::Spectator, false),
        };
        if repeat {
            return took(NetAct::Nothing);
        }
        if shortcut && pressed {
            return took(self.net_shortcut(role, key, grabs));
        }
        if key == NetKey::F11 {
            if pressed {
                self.leave_netplay(None);
            }
            return took(NetAct::Nothing);
        }
        if role == Role::Spectator {
            return took(NetAct::Nothing);
        }
        if key == NetKey::F12 {
            if pressed && !self.guest.mouse_port {
                self.net_toggle_controller();
            }
            return took(NetAct::Nothing);
        }
        if controller && joystick {
            return took(NetAct::JoystickKey);
        }
        match rawkey {
            Some(k) => self.net_hold_key(k, pressed),
            None => {},
        }
        took(NetAct::Nothing)
    }

    fn net_unfocus(&mut self)
        requires
            old(self).wf(),
            old(self).netplay is Some,
        ensures
            final(self).wf(),
            focus_lost(old(self), final(self)),
    {
        self.guest.main_focused = false;
        self.guest.mouse_captured = false;
        self.guest.over_display = false;
        self.guest.joystick_held = false;
        match self.netplay.take() {
            Some(mut s) => {
                s.input = HeldInput::new();
                self.netplay = Some(s);
            },
            None => {},
        }
        self.fx.push(Effect::CaptureMouse(false));
        self.fx.push(Effect::DropMotion);
        assert(self.fx@ =~= old(self).fx@ + seq![
            Effect::CaptureMouse(false),
            Effect::DropMotion,
        ]);
    }

    fn net_hold_button(&mut self, button: NetButton, pressed: bool)
        requires
            old(self).wf(),
            old(self).netplay is Some,
        ensures
            final(self).wf(),
            button_held(old(self), final(self), button, pressed),
    {
        match self.netplay.take() {
            Some(mut s) => {
                match button {
                    NetButton::Left => {
                        s.input.left = pressed;
                    },
                    NetButton::Right => {
                        s.input.right = pressed;
                    },
                    NetButton::Middle => {
                        s.input.middle = pressed;
                    },
                    NetButton::Other => {},
                }
                self.netplay = Some(s);
            },
            None => {},
        }
    }

    fn net_mouse(
        &mut self,
        pressed: bool,
        button: NetButton,
        over_bar: bool,
        over_display: bool,
        manual: bool,
        grabs: bool,
    ) -> (r: NetRoute)
        requires
            old(self).wf(),
            old(self).netplay is Some,
        ensures
            final(self).wf(),
            mouse_event(
                old(self),
                final(self),
                pressed,
                button,
                over_bar,
                over_display,
                manual,
                grabs,
                r,
            ),
    {
        let captured: bool = self.guest.mouse_captured;
        if pressed && button == NetButton::Left && !captured && over_bar {
            return took(NetAct::BarControl);
        }
        if self.guest.mouse_port && self.guest.main_focused {
            if pressed && !captured && over_display && !manual && grabs {
                self.guest.mouse_captured = true;
                self.fx.push(Effect::CaptureMouse(true));
            } else if !pressed || captured || over_display {
                self.net_hold_button(button, pressed);
            }
        }
        took(NetAct::Nothing)
    }

    /// Takes the events that could change the shared machine.
    pub fn netplay_window_event(&mut self, e: NetEvent) -> (r: NetRoute)
        requires
            old(self).wf(),
            e matches NetEvent::Key { rawkey: Some(k), .. } ==> k < RAWKEYS,
        ensures
            final(self).wf(),
            net_routed(old(self), final(self), e, r),
    {
        if self.netplay.is_none() {
            return NetRoute { consumed: false, act: NetAct::Nothing };
        }
        match e {
            NetEvent::Key { key, pressed, repeat, shortcut, joystick, rawkey, grabs } => self.net_key(
                key,
                pressed,
                repeat,
                shortcut,
                joystick,
                rawkey,
                grabs,
            ),
            NetEvent::Focused(focused) => {
                if focused {
                    self.guest.main_focused = true;
                } else {
                    self.net_unfocus();
                }
                took(NetAct::Nothing)
            },
            NetEvent::CursorMoved => took(NetAct::TrackPointer),
            NetEvent::CursorLeft => {
                self.guest.over_display = false;
                if !self.guest.mouse_captured {
                    self.fx.push(Effect::ReleaseMouseButtons);
                }
                took(NetAct::TrackPointer)
            },
            NetEvent::Mouse { pressed, button, over_bar, over_display, manual, grabs } =>
            self.net_mouse(pressed, button, over_bar, over_display, manual, grabs),
            NetEvent::Modifiers | NetEvent::Files | NetEvent::Other => took(NetAct::Nothing),
            NetEvent::Presentation => NetRoute { consumed: false, act: NetAct::Nothing },
        }
    }
}

/// A mouse button that reaches the timeline is held there as itself, down when
/// it goes down and up when it comes up, and the others stay as they were. A
/// press reaches it while the mouse is grabbed, or over the display where no
/// grab is taken; a release always does.
pub proof fn lemma_buttons_are_held_as_themselves(
    o: App,
    n: App,
    pressed: bool,
    button: NetButton,
    over_bar: bool,
    over_display: bool,
    manual: bool,
    grabs: bool,
    r: NetRoute,
)
    requires
        o.netplay is Some,
        o.guest.mouse_port,
        o.guest.main_focused,
        !pressed || o.guest.mouse_captured || (over_display && (manual || !grabs) && !over_bar),
        net_routed(
            &o,
            &n,
            NetEvent::Mouse { pressed, button, over_bar, over_display, manual, grabs },
            r,
        ),
    ensures
        r.consumed,
        n.netplay is Some,
        n.netplay.unwrap().input.left == (if button is Left {
            pressed
        } else {
            o.netplay.unwrap().input.left
        }),
        n.netplay.unwrap().input.right == (if button is Right {
            pressed
        } else {
            o.netplay.unwrap().input.right
        }),
        n.netplay.unwrap().input.middle == (if button is Middle {
            pressed
        } else {
            o.netplay.unwrap().input.middle
        }),
        n.netplay.unwrap().input.keys == o.netplay.unwrap().input.keys,
        n.fx@ == o.fx@,
{
}

/// The click that grabs the mouse is no button: it takes the grab, and nothing
/// is held for the timeline. Without a mouse in the port, or without the
/// focus, no button ever is.
pub proof fn lemma_grabbing_click_is_no_button(
    o: App,
    n: App,
    button: NetButton,
    over_display: bool,
    pressed: bool,
    r: NetRoute,
)
    requires
        o.netplay is Some,
        !o.guest.mouse_captured || !o.guest.mouse_port || !o.guest.main_focused,
        !o.guest.mouse_port || !o.guest.main_focused || (pressed && over_display),
        net_routed(
            &o,
            &n,
            NetEvent::Mouse {
                pressed,
                button,
                over_bar: false,
                over_display,
                manual: false,
                grabs: true,
            },
            r,
        ),
    ensures
        n.netplay == o.netplay,
        o.guest.mouse_port && o.guest.main_focused ==> n.guest.mouse_captured,
        !o.guest.mouse_port || !o.guest.main_focused ==> n.guest == o.guest,
{
}

/// A player's key goes to the timeline as itself: down when it goes down, up
/// when it comes up, and no other key moves. It is not sent again while it
/// repeats.
pub proof fn lemma_keys_are_held_as_themselves(
    o: App,
    n: App,
    pressed: bool,
    repeat: bool,
    joystick: bool,
    rawkey: u8,
    grabs: bool,
    r: NetRoute,
)
    requires
        o.wf(),
        rawkey < 128,
        o.netplay matches Some(s) && !(s.role is Spectator) && (!s.keyboard_controller
            || !joystick),
        net_routed(
            &o,
            &n,
            NetEvent::Key {
                key: NetKey::Other,
                pressed,
                repeat,
                shortcut: false,
                joystick,
                rawkey: Some(rawkey),
                grabs,
            },
            r,
        ),
    ensures
        r.consumed,
        n.netplay is Some,
        !repeat ==> n.netplay.unwrap().input.keys@[rawkey as int] == pressed,
        repeat ==> n == o,
        forall|k: int|
            0 <= k < 128 && k != rawkey ==> #[trigger] n.netplay.unwrap().input.keys@[k]
                == o.netplay.unwrap().input.keys@[k],
        n.netplay.unwrap().input.left == o.netplay.unwrap().input.left,
        n.netplay.unwrap().input.right == o.netplay.unwrap().input.right,
        n.netplay.unwrap().input.middle == o.netplay.unwrap().input.middle,
{
}

/// A window that loses the focus holds nothing for the timeline any more, and
/// lets the mouse go.
pub proof fn lemma_nothing_is_held_unfocused(o: App, n: App, r: NetRoute)
    requires
        o.netplay is Some,
        net_routed(&o, &n, NetEvent::Focused(false), r),
    ensures
        r.consumed,
        !n.guest.main_focused && !n.guest.mouse_captured && !n.guest.joystick_held,
        n.netplay matches Some(t) && {
            &&& !t.input.left && !t.input.right && !t.input.middle
            &&& forall|k: int| 0 <= k < t.input.keys@.len() ==> !(#[trigger] t.input.keys@[k])
            &&& t.role == o.netplay.unwrap().role
        },
{
}

/// The shortcuts of a session: Q ends the program, F toggles the full screen,
/// D changes the disk for the host alone, G grabs the mouse or lets it go
/// where there is one; F11 leaves the session whoever presses it, and F12
/// changes a player without a mouse between joystick and keyboard, with
/// nothing held over the change.
pub proof fn lemma_session_shortcuts(o: App, n: App, key: NetKey, shortcut: bool, grabs: bool, r:
    NetRoute)
    requires
        o.netplay is Some,
        net_routed(
            &o,
            &n,
            NetEvent::Key {
                key,
                pressed: true,
                repeat: false,
                shortcut,
                joystick: false,
                rawkey: None,
                grabs,
            },
            r,
        ),
    ensures
        r.consumed,
        shortcut ==> n.netplay == o.netplay,
        shortcut && key is Q ==> r.act is Exit,
        shortcut && key is F ==> r.act is ToggleFullscreen,
        shortcut && key is D ==> (r.act is CycleDisk <==> o.netplay.unwrap().role is Host),
        shortcut && !(key is Q) && !(key is F) && !(key is D) ==> r.act is Nothing,
        shortcut && key is G && o.guest.mouse_port ==> n.guest.mouse_captured == (
        !o.guest.mouse_captured && grabs),
        !shortcut && key is F11 ==> n.netplay is None && n.session.paused,
        !shortcut && !(key is F11) ==> n.netplay is Some,
        !shortcut && key is F12 && !(o.netplay.unwrap().role is Spectator) && !o.guest.mouse_port
            ==> n.netplay.unwrap().keyboard_controller
            == !o.netplay.unwrap().keyboard_controller && !n.netplay.unwrap().input.left
            && !n.guest.joystick_held,
        !shortcut && key is F12 && (o.netplay.unwrap().role is Spectator || o.guest.mouse_port)
            ==> n == o,
{
}

/// A spectator changes nothing that is shared: no key or button of theirs is
/// ever held for the timeline, and none cycles a disk.
pub proof fn lemma_spectators_only_watch(o: App, n: App, key: NetKey, pressed: bool, repeat: bool,
    shortcut: bool, joystick: bool, rawkey: Option<u8>, grabs: bool, r: NetRoute)
    requires
        o.netplay matches Some(s) && s.role is Spectator,
        key_event(&o, &n, key, pressed, repeat, shortcut, joystick, rawkey, grabs, r),
    ensures
        n.netplay matches Some(t) ==> t.input == o.netplay.unwrap().input,
        !(r.act is CycleDisk),
        !(r.act is JoystickKey),
        r.consumed,
{
}

/// Whether a scheduled capture may be taken: not while a session could still
/// correct the frame.
#[derive(Clone, Copy, PartialEq, Eq, Structural, Debug)]
pub enum CaptureWait {
    Take,
    /// Hear from the other players first.
    Listen,
}

impl App {
    pub fn confirm_netplay_capture(&self, due: bool, ready: bool) -> (r: CaptureWait)
        ensures
            r == (if due && self.netplay is Some && !ready {
                CaptureWait::Listen
            } else {
                CaptureWait::Take
            }),
    {
        if !due || self.netplay.is_none() || ready {
            CaptureWait::Take
        } else {
            CaptureWait::Listen
        }
    }

    /// The session heard from the other players without stepping, and perhaps
    /// corrected the timeline; `ready` says that the frame is final now.
    pub fn netplay_listened(&mut self, rolled_back: bool, ready: bool) -> (r: CaptureWait)
        requires
            old(self).wf(),
        ensures
            final(self).wf(),
            *final(self) == (App { fx: final(self).fx, ..*old(self) }),
            final(self).fx@ == (if rolled_back {
                old(self).fx@.push(Effect::ResetRender)
            } else {
                old(self).fx@
            }),
            r == (if ready {
                CaptureWait::Take
            } else {
                CaptureWait::Listen
            }),
    {
        if rolled_back {
            self.fx.push(Effect::ResetRender);
        }
        if ready {
            CaptureWait::Take
        } else {
            CaptureWait::Listen
        }
    }
}

/// A netplay button of the launcher.
#[derive(Clone, Copy, PartialEq, Eq, Structural, Debug)]
pub enum NetField {
    NewCode,
    CopyCode,
    CopySpectatorCode,
    Other,
}

/// What a netplay button comes to.
#[derive(PartialEq, Eq, Debug)]
pub enum LauncherStep<T> {
    Nothing,
    /// Make a new code.
    Generate,
    /// Copy the players' code, or the spectators'.
    Copy { spectator: bool },
    Status { good: bool, text: T },
}

pub open spec fn launcher_view(s: LauncherStep<String>) -> LauncherStep<Seq<char>> {
    match s {
        LauncherStep::Nothing => LauncherStep::Nothing,
        LauncherStep::Generate => LauncherStep::Generate,
        LauncherStep::Copy { spectator } => LauncherStep::Copy { spectator },
        LauncherStep::Status { good, text } => LauncherStep::Status { good, text: text@ },
    }
}

pub open spec fn fault(r: Result<(), String>) -> Option<Seq<char>> {
    match r {
        Ok(_) => None,
        Err(e) => Some(e@),
    }
}

/// Decides what a netplay button does. `valid` says whether the code that
/// would be copied is a code, `options` whether the settings can connect.
pub fn launcher_netplay_action(
    field: NetField,
    enabled: bool,
    editing: bool,
    valid: &Result<(), String>,
    has_spectator_code: bool,
    options: &Result<(), String>,
) -> (r: LauncherStep<String>)
    ensures
        launcher_view(r) == (if !enabled || editing {
            LauncherStep::Nothing
        } else {
            match field {
                NetField::NewCode => LauncherStep::Generate,
                NetField::CopyCode => match fault(*valid) {
                    None => LauncherStep::Copy { spectator: false },
                    Some(e) => LauncherStep::Status { good: false, text: e },
                },
                NetField::CopySpectatorCode => if has_spectator_code && fault(*options) is None {
                    LauncherStep::Copy { spectator: true }
                } else {
                    LauncherStep::Status {
                        good: false,
                        text: "Create a new invitation with spectators enabled first"@,
                    }
                },
                NetField::Other => LauncherStep::Nothing,
            }
        }),
{
    if !enabled || editing {
        return LauncherStep::Nothing;
    }
    match field {
        NetField::NewCode => LauncherStep::Generate,
        NetField::CopyCode => match valid {
            Ok(_) => LauncherStep::Copy { spectator: false },
            Err(e) => LauncherStep::Status { good: false, text: e.clone() },
        },
        NetField::CopySpectatorCode => {
            let fits: bool = match options {
                Ok(_) => true,
                Err(_) => false,
            };
            if has_spectator_code && fits {
                LauncherStep::Copy { spectator: true }
            } else {
                LauncherStep::Status {
                    good: false,
                    text: "Create a new invitation with spectators enabled first".to_owned(),
                }
            }
        },
        NetField::Other => LauncherStep::Nothing,
    }
}

/// What the launcher says once a code was made.
pub fn code_generated(done: &Result<(), String>) -> (r: LauncherStep<String>)
    ensures
        launcher_view(r) == (match fault(*done) {
            None => LauncherStep::Status {
                good: true,
                text: "Copy this code to the other player, then press Run"@,
            },
            Some(e) => LauncherStep::Status { good: false, text: e },
        }),
{
    match done {
        Ok(_) => LauncherStep::Status {
            good: true,
            text: "Copy this code to the other player, then press Run".to_owned(),
        },
        Err(e) => LauncherStep::Status { good: false, text: e.clone() },
    }
}

/// What the launcher says once a code was copied.
pub fn code_copied(spectator: bool, done: &Result<(), String>) -> (r: LauncherStep<String>)
    ensures
        launcher_view(r) == (match fault(*done) {
            None => LauncherStep::Status {
                good: true,
                text: if spectator {
                    "Spectator code copied; share it with the people who will watch"@
                } else {
                    "Session code copied"@
                },
            },
            Some(e) => LauncherStep::Status { good: false, text: "Clipboard: "@ + e },
        }),
{
    match done {
        Ok(_) => LauncherStep::Status {
            good: true,
            text: if spectator {
                "Spectator code copied; share it with the people who will watch".to_owned()
            } else {
                "Session code copied".to_owned()
            },
        },
        Err(e) => {
            let mut text = "Clipboard: ".to_owned();
            put(&mut text, e.as_str());
            LauncherStep::Status { good: false, text }
        },
    }
}

} // verus!
