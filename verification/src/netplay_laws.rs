//! What a player or spectator can rely on: which buttons reach their port, when a
//! spectator catches up, and what joining and leaving leave behind.

use vstd::prelude::*;

use crate::app::App;
use crate::effects::Effect;
use crate::netplay::JoyState;
use crate::netplay::NetplaySession;
use crate::netplay::Pumped;
use crate::netplay::Role;
use crate::netplay::controller;
use crate::netplay::departed;
use crate::netplay::joined;
use crate::netplay::pump_route;
use crate::netplay_steps::StepReport;
use crate::netplay_steps::burst;
use crate::netplay_steps::machine_effects;
use crate::netplay_steps::notice_due;
use crate::netplay_steps::player_effects;
use crate::netplay_steps::replay_effects;
use crate::netplay_steps::replaying;
use crate::netplay_steps::spectator_effects;
use crate::netplay_steps::starts_replay;
use crate::saves::fitted_lines;
use crate::session::Session;
use crate::text::starts;

verus! {

/// Each button has a bit of its own: the directions first, then fire and the second
/// button, then the pad's others.
pub proof fn lemma_button_bits(j: JoyState)
    ensures
        (j.bits() % 2 == 1) == j.up,
        (j.bits() / 2 % 2 == 1) == j.down,
        (j.bits() / 4 % 2 == 1) == j.left,
        (j.bits() / 8 % 2 == 1) == j.right,
        (j.bits() / 16 % 2 == 1) == j.fire,
        (j.bits() / 32 % 2 == 1) == j.button2,
        (j.bits() / 64 % 2 == 1) == j.play,
        (j.bits() / 128 % 2 == 1) == j.rwd,
        (j.bits() / 256 % 2 == 1) == j.ffw,
        (j.bits() / 512 % 2 == 1) == j.green,
        (j.bits() / 1024 % 2 == 1) == j.yellow,
        0 <= j.bits() < 2048,
{
}

/// A pad that is there is the controller, the keyboard where it stands in for one; a
/// window in the background, or a player with neither, holds nothing. Fire is let
/// through only in its phase, and nothing else depends on that.
pub proof fn lemma_controller_of_a_player(
    s: &NetplaySession,
    pad: Option<JoyState>,
    keyboard: JoyState,
    focused: bool,
    fire: bool,
)
    ensures
        ({
            let c = controller(s, pad, keyboard, focused, fire);
            &&& !focused ==> c.bits() == 0
            &&& pad is None && !s.keyboard_controller ==> c.bits() == 0
            &&& focused ==> (pad matches Some(p) ==> {
                &&& c.fire == (p.fire && fire)
                &&& c.up == p.up && c.down == p.down && c.left == p.left && c.right == p.right
                &&& c.button2 == p.button2 && c.play == p.play && c.rwd == p.rwd && c.ffw == p.ffw
                &&& c.green == p.green && c.yellow == p.yellow
            })
            &&& focused && pad is None && s.keyboard_controller ==> {
                &&& c.fire == (keyboard.fire && fire)
                &&& c.up == keyboard.up && c.down == keyboard.down && c.left == keyboard.left
                    && c.right == keyboard.right
                &&& c.button2 == keyboard.button2 && c.play == keyboard.play && c.rwd
                    == keyboard.rwd && c.ffw == keyboard.ffw
                &&& c.green == keyboard.green && c.yellow == keyboard.yellow
            }
        }),
{
}

/// A mouse takes no buttons, nor does a player without a port; a script speaks for a port
/// only while no pad does.
pub proof fn lemma_where_buttons_go(o: &App, s: &NetplaySession, pad: bool, scripted: bool, port: u8)
    ensures
        o.guest.mouse_port || s.port is None ==> pump_route(o, s, pad, scripted) is Nothing,
        !o.guest.mouse_port && s.port == Some(port) && !pad && scripted ==> pump_route(
            o,
            s,
            pad,
            scripted,
        ) == Pumped::Script(port),
        !o.guest.mouse_port && s.port is Some && (pad || !scripted) ==> pump_route(
            o,
            s,
            pad,
            scripted,
        ) is Held,
{
}

/// A spectator more than twenty-five frames behind replays as many as it is behind, up to
/// sixty-four at a time, and goes on until it is close; otherwise a frame at a time, as a
/// session without a window always does.
pub proof fn lemma_spectator_bursts(catching_up: bool, behind: u64)
    ensures
        !catching_up && behind <= 25 ==> burst(false, catching_up, behind) == 1,
        !catching_up && 25 < behind <= 64 ==> burst(false, catching_up, behind) == behind,
        catching_up && 1 <= behind <= 64 ==> burst(false, catching_up, behind) == behind,
        behind > 64 ==> burst(false, catching_up, behind) == 64,
        catching_up && behind == 0 ==> burst(false, catching_up, behind) == 1,
        burst(true, catching_up, behind) == 1,
        starts_replay(false, catching_up, behind) <==> !catching_up && behind > 25,
        !starts_replay(true, catching_up, behind),
{
}

/// While it catches up the machine runs free and silent, unless a physical drive keeps
/// its pace; five frames behind is caught up, and said once. On the way a notice comes
/// at once and then every second.
pub proof fn lemma_catching_up(s: Session, at: Option<u64>, behind: u64, now: u64)
    ensures
        replaying(s).catching_up && replaying(s).paced == s.bridged && replaying(s).audio_suspended,
        behind <= 5 ==> replay_effects(true, at, behind, now).len() == 2 && replay_effects(
            true,
            at,
            behind,
            now,
        )[0] == Effect::<Seq<char>>::ReanchorClock,
        behind > 5 && at is None ==> replay_effects(true, at, behind, now).len() == 1,
        at matches Some(t) ==> (behind > 5 && now >= t + 1000 ==> replay_effects(
            true,
            at,
            behind,
            now,
        ).len() == 1),
        at matches Some(t) ==> (behind > 5 && now < t + 1000 ==> replay_effects(
            true,
            at,
            behind,
            now,
        ).len() == 0),
        replay_effects(false, at, behind, now).len() == 0,
        notice_due(None, now),
{
}

/// Joining starts with nothing held. A player's keyboard stands in for a controller
/// unless their port is a mouse's; a spectator's never does.
pub proof fn lemma_joining(o: &App, n: &App, role: Role, port: Option<u8>)
    requires
        joined(o, n, role, port),
    ensures
        n.netplay matches Some(s) && s.role == role && s.port == port && s.input.buttons == 0
            && !s.input.left && !s.input.right && !s.input.middle && s.keyboard_controller == (!(
        role is Spectator) && !o.guest.mouse_port),
        n.session == o.session && n.machine == o.machine,
        !n.guest.over_display,
        n.fx@[o.fx@.len() as int] == Effect::<Seq<char>>::DropMotion,
        n.fx@.len() == o.fx@.len() + 2,
{
}

/// Leaving ends the session with the machine paused and paced, the mouse and the keys let
/// go, and the launcher open with the reason, if there was one.
pub proof fn lemma_leaving(o: &App, n: &App, error: Option<Seq<char>>)
    requires
        departed(o, n, error),
    ensures
        n.netplay is None,
        n.session.paused && !n.session.catching_up && n.session.audio_suspended,
        o.session.catching_up ==> n.session.paced,
        !o.session.catching_up ==> n.session.paced == o.session.paced,
        !n.guest.mouse_captured && !n.guest.joystick_held,
        n.fx@.skip(o.fx@.len() as int).contains(Effect::<Seq<char>>::OpenLauncher),
        n.fx@.skip(o.fx@.len() as int).contains(Effect::<Seq<char>>::CaptureMouse(false)),
        error matches Some(e) ==> n.fx@.skip(o.fx@.len() as int).contains(
            Effect::LauncherStatus { good: false, text: "Netplay stopped: "@ + e },
        ),
{
    let said = n.fx@.skip(o.fx@.len() as int);
    assert(said =~= crate::netplay::leave_requests(error));
    assert(said[1] == Effect::<Seq<char>>::CaptureMouse(false));
    assert(said[2] == Effect::<Seq<char>>::OpenLauncher);
    assert(said[3] == crate::netplay::left_status(error));
}

/// A machine that the host configured is adopted, its disks dropped by a guest and a
/// spectator; a machine that was not is left alone. A player who just connected is told
/// so once, and a step that did not run rests.
pub proof fn lemma_step_effects(r: StepReport, mouse: bool, headless: bool, drop_disks: bool)
    ensures
        machine_effects(false, drop_disks).len() == 0,
        machine_effects(true, drop_disks)[0] == Effect::<Seq<char>>::AdoptMachine,
        machine_effects(true, drop_disks).last() == Effect::<Seq<char>>::ResetRender,
        machine_effects(true, true).len() == 3 && machine_effects(true, true)[1]
            == Effect::<Seq<char>>::DropPlaylists,
        machine_effects(true, false).len() == 2,
        !r.stepped ==> player_effects(r, mouse, headless).last() == Effect::<Seq<char>>::Rest
            && spectator_effects(r).last() == Effect::<Seq<char>>::Rest,
        r.stepped && r.was_connected && !r.rolled_back && r.progress is None ==> player_effects(
            r,
            mouse,
            headless,
        ).len() == 0,
        r.stepped && r.was_connected && !r.configured && r.progress is None ==> spectator_effects(
            r,
        ).len() == 0,
        r.stepped && r.was_connected && r.rolled_back && r.progress is None ==> player_effects(
            r,
            mouse,
            headless,
        )[0] == Effect::<Seq<char>>::ResetRender && player_effects(r, mouse, headless).len() == (
        if headless {
            1int
        } else {
            2
        }),
        r.stepped && !r.was_connected && r.connected && !r.rolled_back && r.progress is None
            ==> player_effects(r, mouse, headless).len() == 1,
{
}

/// Fitting a ROM changes nothing on the page but the ROM's own lines: with nothing said of
/// an extended one, the page keeps its length and every other line its place.
pub proof fn lemma_other_lines_stay(lines: Seq<Seq<char>>, rom: Seq<char>, k: int)
    requires
        0 <= k < lines.len(),
        starts(lines[k], "ROM: "@),
        forall|j: int| 0 <= j < k ==> !starts(#[trigger] lines[j], "ROM: "@),
        forall|j: int| 0 <= j < lines.len() ==> !starts(#[trigger] lines[j], "Extended ROM: "@),
        starts(rom, "ROM: "@),
    ensures
        fitted_lines(lines, rom, None) == lines.update(k, rom),
{
    lemma_first(lines, "ROM: "@, k);
    let a = lines.update(k, rom);
    reveal_strlit("ROM: ");
    reveal_strlit("Extended ROM: ");
    assert(!starts(rom, "Extended ROM: "@)) by {
        assert("ROM: "@[0] == 'R');
        assert("Extended ROM: "@[0] == 'E');
        if starts(rom, "Extended ROM: "@) {
            assert(rom.take(14)[0] == rom[0]);
            assert(rom.take(5)[0] == rom[0]);
        }
    }
    assert forall|j: int| 0 <= j < a.len() implies !starts(#[trigger] a[j], "Extended ROM: "@) by {
        if j != k {
            assert(a[j] == lines[j]);
        }
    }
    lemma_none(a, "Extended ROM: "@);
}

proof fn lemma_first(lines: Seq<Seq<char>>, prefix: Seq<char>, k: int)
    requires
        0 <= k < lines.len(),
        starts(lines[k], prefix),
        forall|j: int| 0 <= j < k ==> !starts(#[trigger] lines[j], prefix),
    ensures
        crate::saves::first_with(lines, prefix) == k,
    decreases k,
{
    if k > 0 {
        let t = lines.skip(1);
        assert forall|j: int| 0 <= j < k - 1 implies !starts(#[trigger] t[j], prefix) by {
            assert(t[j] == lines[j + 1]);
        }
        lemma_first(t, prefix, k - 1);
    }
}

proof fn lemma_none(lines: Seq<Seq<char>>, prefix: Seq<char>)
    requires
        forall|j: int| 0 <= j < lines.len() ==> !starts(#[trigger] lines[j], prefix),
    ensures
        crate::saves::first_with(lines, prefix) == lines.len(),
    decreases lines.len(),
{
    if lines.len() > 0 {
        let t = lines.skip(1);
        assert forall|j: int| 0 <= j < t.len() implies !starts(#[trigger] t[j], prefix) by {
            assert(t[j] == lines[j + 1]);
        }
        lemma_none(t, prefix);
    }
}

} // verus!
