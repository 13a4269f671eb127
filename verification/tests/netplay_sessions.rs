//! Shared sessions: joining, stepping, catching up, and who may touch what.

use copperline::app::App;
use copperline::effects::Effect;
use copperline::machine::Machine;
use copperline::netplay::{JoyState, Pumped, Role};
use copperline::netplay_events::{
    code_copied, code_generated, launcher_netplay_action, CaptureWait, LauncherStep, NetAct,
    NetButton, NetEvent, NetField, NetKey, NetRoute,
};
use copperline::netplay_steps::StepReport;

const IDLE: JoyState = JoyState {
    up: false,
    down: false,
    left: false,
    right: false,
    fire: false,
    button2: false,
    play: false,
    rwd: false,
    ffw: false,
    green: false,
    yellow: false,
};

fn joined(role: Role) -> App {
    let mut app = App::new(Machine::new(0x00FF_FFFF), true);
    app.guest.main_focused = true;
    app.attach_netplay(role, if role == Role::Spectator { None } else { Some(1) });
    app.fx.take();
    app
}

fn osd(text: &str) -> Effect<String> {
    Effect::Osd(text.to_string())
}

fn key(key: NetKey, pressed: bool) -> NetEvent {
    NetEvent::Key {
        key,
        pressed,
        repeat: false,
        shortcut: false,
        joystick: false,
        rawkey: Some(0x45),
        grabs: true,
    }
}

fn shortcut(key: NetKey) -> NetEvent {
    NetEvent::Key {
        key,
        pressed: true,
        repeat: false,
        shortcut: true,
        joystick: false,
        rawkey: None,
        grabs: true,
    }
}

fn took(act: NetAct) -> NetRoute {
    NetRoute {
        consumed: true,
        act,
    }
}

fn report() -> StepReport {
    StepReport {
        was_connected: true,
        connected: true,
        rolled_back: false,
        configured: false,
        progress: None,
        route: "direct".into(),
        stepped: true,
    }
}

#[test]
fn joining_says_whom_it_waits_for() {
    let mut app = App::new(Machine::new(0x00FF_FFFF), true);
    app.attach_netplay(Role::Host, Some(1));
    assert_eq!(
        app.fx.take(),
        vec![
            Effect::DropMotion,
            osd("Netplay: waiting for peer (F11 to cancel)")
        ]
    );
    assert!(app.netplay.as_ref().unwrap().keyboard_controller);
    app.attach_netplay(Role::Spectator, None);
    assert_eq!(
        app.fx.take(),
        vec![
            Effect::DropMotion,
            osd("Netplay: connecting to the host (F11 to cancel)")
        ]
    );
    assert!(!app.netplay.as_ref().unwrap().keyboard_controller);
}

#[test]
fn leaving_pauses_and_opens_the_launcher() {
    let mut app = joined(Role::Guest);
    app.leave_netplay(Some("peer gone"));
    assert!(app.netplay.is_none() && app.session.paused);
    assert_eq!(
        app.fx.take(),
        vec![
            Effect::CancelDiskPicker,
            Effect::CaptureMouse(false),
            Effect::OpenLauncher,
            Effect::LauncherStatus {
                good: false,
                text: "Netplay stopped: peer gone".into()
            },
            Effect::ParkNav,
            Effect::Redraw
        ]
    );
    let mut app = joined(Role::Guest);
    assert_eq!(
        app.netplay_window_event(key(NetKey::F11, true)),
        took(NetAct::Nothing)
    );
    assert!(app.netplay.is_none());
    assert!(app.fx.take().contains(&Effect::LauncherStatus {
        good: true,
        text: "Disconnected. Run starts a new session".into()
    }));
}

#[test]
fn a_controllers_buttons_are_bits() {
    assert_eq!(IDLE.to_bits(), 0);
    assert_eq!(
        JoyState {
            up: true,
            fire: true,
            yellow: true,
            ..IDLE
        }
        .to_bits(),
        1 + 16 + 1024
    );
    assert_eq!(
        JoyState {
            button2: true,
            play: true,
            ..IDLE
        }
        .to_bits(),
        32 + 64
    );
}

#[test]
fn the_pad_comes_before_the_keyboard_and_autofire_gates_fire() {
    let mut app = joined(Role::Host);
    let pad = JoyState {
        left: true,
        fire: true,
        ..IDLE
    };
    let keyboard = JoyState { up: true, ..IDLE };
    assert_eq!(
        app.pump_netplay_input(Some(pad), keyboard, true, true),
        Pumped::Held
    );
    assert_eq!(app.netplay.as_ref().unwrap().input.buttons, 4 + 16);
    app.pump_netplay_input(Some(pad), keyboard, true, false);
    assert_eq!(app.netplay.as_ref().unwrap().input.buttons, 4);
    assert_eq!(
        app.pump_netplay_input(None, keyboard, true, true),
        Pumped::Script(1)
    );
    app.pump_netplay_input(None, keyboard, false, true);
    assert_eq!(app.netplay.as_ref().unwrap().input.buttons, 1);
    app.guest.main_focused = false;
    app.pump_netplay_input(Some(pad), keyboard, false, true);
    assert_eq!(app.netplay.as_ref().unwrap().input.buttons, 0);
    let mut app = joined(Role::Spectator);
    assert_eq!(
        app.pump_netplay_input(Some(pad), keyboard, false, true),
        Pumped::Nothing
    );
}

#[test]
fn a_spectator_catches_up_in_bounded_bursts() {
    let mut app = joined(Role::Spectator);
    assert_eq!(app.spectator_begin(false, 25), 1);
    assert!(!app.session.catching_up);
    assert_eq!(app.spectator_begin(true, 500), 1);
    assert_eq!(app.spectator_begin(false, 500), 64);
    assert!(app.session.catching_up && !app.session.paced && app.session.audio_suspended);
    app.spectator_end(&report(), 400, 10);
    assert_eq!(
        app.fx.take(),
        vec![osd("Spectating: 400 frames behind, catching up")]
    );
    app.spectator_end(&report(), 300, 900);
    assert!(app.fx.take().is_empty(), "one notice a second");
    assert_eq!(app.spectator_begin(false, 20), 20);
    app.spectator_end(&report(), 5, 2000);
    assert_eq!(
        app.fx.take(),
        vec![
            Effect::ReanchorClock,
            osd("Spectating: caught up with the players")
        ]
    );
    assert!(!app.session.catching_up && app.session.paced);
}

#[test]
fn a_players_step_tells_what_it_brought() {
    let mut app = joined(Role::Guest);
    app.netplay_stepped(
        &StepReport {
            was_connected: false,
            ..report()
        },
        false,
    );
    assert_eq!(
        app.fx.take(),
        vec![osd(
            "Netplay connected: arrows + right Ctrl, or gamepad (direct)"
        )]
    );
    app.guest.mouse_port = true;
    app.netplay_stepped(
        &StepReport {
            was_connected: false,
            rolled_back: true,
            progress: Some("Sending disk".into()),
            stepped: false,
            ..report()
        },
        false,
    );
    assert_eq!(
        app.fx.take(),
        vec![
            osd("Sending disk"),
            Effect::ResetRender,
            Effect::FinishRender,
            osd("Netplay connected: mouse controls your port (direct)"),
            Effect::ReanchorClock,
            Effect::Rest
        ]
    );
    app.netplay_stepped(
        &StepReport {
            configured: true,
            ..report()
        },
        false,
    );
    assert_eq!(
        app.fx.take(),
        vec![
            Effect::AdoptMachine,
            Effect::DropPlaylists,
            Effect::ResetRender
        ]
    );
}

#[test]
fn a_spectators_keys_reach_nobody() {
    let mut app = joined(Role::Spectator);
    let before = app.netplay.as_ref().unwrap().input.keys.clone();
    assert_eq!(
        app.netplay_window_event(key(NetKey::Other, true)),
        took(NetAct::Nothing)
    );
    assert_eq!(app.netplay.as_ref().unwrap().input.keys, before);
    assert_eq!(
        app.netplay_window_event(shortcut(NetKey::D)),
        took(NetAct::Nothing)
    );
}

#[test]
fn a_players_keys_go_to_the_timeline() {
    let mut app = joined(Role::Host);
    app.netplay_window_event(key(NetKey::Other, true));
    assert!(app.netplay.as_ref().unwrap().input.keys[0x45]);
    app.netplay_window_event(key(NetKey::Other, false));
    assert!(!app.netplay.as_ref().unwrap().input.keys[0x45]);
    assert_eq!(
        app.netplay_window_event(NetEvent::Key {
            key: NetKey::Other,
            pressed: true,
            repeat: false,
            shortcut: false,
            joystick: true,
            rawkey: Some(0x4C),
            grabs: true,
        }),
        took(NetAct::JoystickKey)
    );
    app.netplay_window_event(key(NetKey::F12, true));
    assert_eq!(
        app.fx.take(),
        vec![osd("Netplay: Amiga keyboard typing (F12 for joystick)")]
    );
    app.netplay_window_event(key(NetKey::F12, true));
    assert_eq!(
        app.fx.take(),
        vec![osd("Netplay: keyboard controls the joystick (F12 to type)")]
    );
}

#[test]
fn shortcuts_leave_the_shared_machine_alone() {
    let mut app = joined(Role::Host);
    assert_eq!(
        app.netplay_window_event(shortcut(NetKey::Q)),
        took(NetAct::Exit)
    );
    assert_eq!(
        app.netplay_window_event(shortcut(NetKey::F)),
        took(NetAct::ToggleFullscreen)
    );
    assert_eq!(
        app.netplay_window_event(shortcut(NetKey::D)),
        took(NetAct::CycleDisk)
    );
    assert_eq!(
        app.netplay_window_event(shortcut(NetKey::Other)),
        took(NetAct::Nothing)
    );
    let mut app = joined(Role::Guest);
    assert_eq!(
        app.netplay_window_event(shortcut(NetKey::D)),
        took(NetAct::Nothing)
    );
}

#[test]
fn losing_the_focus_lets_everything_go() {
    let mut app = joined(Role::Host);
    app.netplay_window_event(key(NetKey::Other, true));
    app.guest.mouse_captured = true;
    app.netplay_window_event(NetEvent::Focused(false));
    assert!(!app.guest.mouse_captured && !app.guest.main_focused);
    let input = &app.netplay.as_ref().unwrap().input;
    assert!(input.keys.iter().all(|k| !k));
    assert_eq!(
        app.fx.take(),
        vec![Effect::CaptureMouse(false), Effect::DropMotion]
    );
}

#[test]
fn the_first_click_grabs_and_the_next_ones_are_buttons() {
    let mut app = joined(Role::Host);
    app.guest.mouse_port = true;
    let click = |pressed: bool, over_bar: bool| NetEvent::Mouse {
        pressed,
        button: NetButton::Left,
        over_bar,
        over_display: !over_bar,
        manual: false,
        grabs: true,
    };
    assert_eq!(
        app.netplay_window_event(click(true, true)),
        took(NetAct::BarControl)
    );
    app.netplay_window_event(click(true, false));
    assert!(app.guest.mouse_captured);
    assert!(!app.netplay.as_ref().unwrap().input.left);
    app.netplay_window_event(click(true, false));
    assert!(app.netplay.as_ref().unwrap().input.left);
    app.netplay_window_event(click(false, false));
    assert!(!app.netplay.as_ref().unwrap().input.left);
}

#[test]
fn without_a_session_every_event_is_the_windows() {
    let mut app = App::new(Machine::new(0x00FF_FFFF), true);
    assert_eq!(
        app.netplay_window_event(key(NetKey::F11, true)),
        NetRoute {
            consumed: false,
            act: NetAct::Nothing
        }
    );
    let mut app = joined(Role::Host);
    assert!(!app.netplay_window_event(NetEvent::Presentation).consumed);
    assert_eq!(
        app.netplay_window_event(NetEvent::Files),
        NetRoute {
            consumed: true,
            act: NetAct::Nothing
        }
    );
    assert_eq!(app.confirm_netplay_capture(true, false), CaptureWait::Listen);
    assert_eq!(app.confirm_netplay_capture(true, true), CaptureWait::Take);
    assert_eq!(app.confirm_netplay_capture(false, false), CaptureWait::Take);
}

#[test]
fn the_launchers_codes_are_checked_before_they_are_copied() {
    let bad = |text: &str| LauncherStep::Status {
        good: false,
        text: text.to_string(),
    };
    let act = |field, enabled, editing, valid: Result<(), String>, code, options| {
        launcher_netplay_action(field, enabled, editing, &valid, code, &options)
    };
    assert_eq!(
        act(NetField::NewCode, true, false, Ok(()), false, Ok(())),
        LauncherStep::Generate
    );
    assert_eq!(
        act(NetField::NewCode, false, false, Ok(()), false, Ok(())),
        LauncherStep::Nothing
    );
    assert_eq!(
        act(NetField::CopyCode, true, true, Ok(()), false, Ok(())),
        LauncherStep::Nothing
    );
    assert_eq!(
        act(NetField::CopyCode, true, false, Ok(()), false, Ok(())),
        LauncherStep::Copy { spectator: false }
    );
    assert_eq!(
        act(
            NetField::CopyCode,
            true,
            false,
            Err("not a code".into()),
            false,
            Ok(())
        ),
        bad("not a code")
    );
    assert_eq!(
        act(NetField::CopySpectatorCode, true, false, Ok(()), true, Ok(())),
        LauncherStep::Copy { spectator: true }
    );
    assert_eq!(
        act(NetField::CopySpectatorCode, true, false, Ok(()), false, Ok(())),
        bad("Create a new invitation with spectators enabled first")
    );
    assert_eq!(
        code_generated(&Ok(())),
        LauncherStep::Status {
            good: true,
            text: "Copy this code to the other player, then press Run".into()
        }
    );
    assert_eq!(code_generated(&Err("rng".into())), bad("rng"));
    assert_eq!(
        code_copied(true, &Ok(())),
        LauncherStep::Status {
            good: true,
            text: "Spectator code copied; share it with the people who will watch".into()
        }
    );
    assert_eq!(
        code_copied(false, &Err("locked".into())),
        bad("Clipboard: locked")
    );
}

#[test]
fn a_refused_grab_leaves_the_mouse_free() {
    let mut app = App::new(Machine::new(0x00FF_FFFF), true);
    app.attach_netplay(Role::Host, Some(1));
    app.guest.mouse_port = true;
    app.fx.take();
    let toggle = |grabs: bool| NetEvent::Key {
        key: NetKey::G,
        pressed: true,
        repeat: false,
        shortcut: true,
        joystick: false,
        rawkey: None,
        grabs,
    };
    app.netplay_window_event(toggle(false));
    assert!(!app.guest.mouse_captured);
    assert_eq!(app.fx.take(), vec![Effect::CaptureMouse(true)]);
    app.netplay_window_event(toggle(true));
    assert!(app.guest.mouse_captured);
    app.netplay_window_event(toggle(false));
    assert!(!app.guest.mouse_captured);
}

#[test]
fn a_capture_listens_until_its_frame_is_final() {
    let mut app = App::new(Machine::new(0x00FF_FFFF), true);
    app.attach_netplay(Role::Guest, Some(0));
    app.fx.take();
    assert_eq!(app.netplay_listened(true, false), CaptureWait::Listen);
    assert_eq!(app.fx.take(), vec![Effect::ResetRender]);
    assert_eq!(app.netplay_listened(false, true), CaptureWait::Take);
    assert!(app.fx.take().is_empty());
}
