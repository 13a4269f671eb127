//! The frames of a shared session: how many a spectator replays at once, and
//! what the session's progress brings about.

use vstd::prelude::*;

use crate::app::App;
use crate::breaks::opt_text;
use crate::effects::Effect;
use crate::effects::Effects;
use crate::guest::GuestInput;
use crate::netplay::CATCHUP_BURST;
use crate::netplay::CATCHUP_END;
use crate::netplay::CATCHUP_START;
use crate::netplay::HeldInput;
use crate::netplay::NOTICE_EVERY;
use crate::netplay::NetplaySession;
use crate::netplay::Role;
use crate::netplay::caught_up;
use crate::number::dec;
use crate::number::put_dec;
use crate::session::Session;
use crate::text::put;

verus! {

/// What a step of the session brought.
#[derive(PartialEq, Eq, Debug)]
pub struct StepReport {
    pub was_connected: bool,
    pub connected: bool,
    /// The timeline was corrected.
    pub rolled_back: bool,
    /// The players agreed on a machine.
    pub configured: bool,
    pub progress: Option<String>,
    /// How the players are connected.
    pub route: String,
    /// A frame was executed.
    pub stepped: bool,
}

/// How many frames a spectator replays at once: one, unless it is behind. A
/// headless capture takes one at a time, so that it never misses its frame.
pub open spec fn burst(headless: bool, catching_up: bool, behind: u64) -> u64 {
    if headless || !(catching_up || behind > CATCHUP_START) {
        1
    } else if behind < 1 {
        1
    } else if behind > CATCHUP_BURST {
        CATCHUP_BURST
    } else {
        behind
    }
}

/// The session in which a spectator replays unpaced and silent.
pub open spec fn replaying(s: Session) -> Session {
    (Session { catching_up: true, paced: s.bridged, ..s }).settled()
}

pub open spec fn starts_replay(headless: bool, catching_up: bool, behind: u64) -> bool {
    !headless && !catching_up && burst(headless, catching_up, behind) > 1
}

fn replay(s: Session) -> (r: Session)
    ensures
        r == replaying(s),
{
    let mut t: Session = s;
    t.catching_up = true;
    t.set_paced(false);
    t.sync_live_audio_suspension();
    t
}

fn end_replay(s: Session) -> (r: Session)
    ensures
        r == caught_up(s),
{
    let mut t: Session = s;
    t.catching_up = false;
    t.paced = true;
    t.sync_live_audio_suspension();
    t
}

/// Whether it is time for another notice.
pub open spec fn notice_due(at: Option<u64>, now: u64) -> bool {
    match at {
        None => true,
        Some(t) => now >= t + NOTICE_EVERY,
    }
}

pub open spec fn behind_line(behind: u64) -> Seq<char> {
    "Spectating: "@ + dec(behind as int) + " frames behind, catching up"@
}

/// What the position of a spectator asks of the host.
pub open spec fn replay_effects(catching_up: bool, at: Option<u64>, behind: u64, now: u64) -> Seq<
    Effect<Seq<char>>,
> {
    if catching_up && behind <= CATCHUP_END {
        seq![Effect::ReanchorClock, Effect::Osd("Spectating: caught up with the players"@)]
    } else if catching_up && notice_due(at, now) {
        seq![Effect::Osd(behind_line(behind))]
    } else {
        Seq::empty()
    }
}

/// What a machine that the players agreed on asks of the host.
pub open spec fn machine_effects(configured: bool, drop_disks: bool) -> Seq<Effect<Seq<char>>> {
    if configured {
        if drop_disks {
            seq![Effect::AdoptMachine, Effect::DropPlaylists, Effect::ResetRender]
        } else {
            seq![Effect::AdoptMachine, Effect::ResetRender]
        }
    } else {
        Seq::empty()
    }
}

pub open spec fn progress_effects(progress: Option<Seq<char>>) -> Seq<Effect<Seq<char>>> {
    match progress {
        Some(t) => seq![Effect::Osd(t)],
        None => Seq::empty(),
    }
}

pub open spec fn idle_effects(stepped: bool) -> Seq<Effect<Seq<char>>> {
    if stepped {
        Seq::empty()
    } else {
        seq![Effect::ReanchorClock, Effect::Rest]
    }
}

/// The line that says who controls what, once the players are connected.
pub open spec fn connected_line(mouse: bool, route: Seq<char>) -> Seq<char> {
    (if mouse {
        "Netplay connected: mouse controls your port"@
    } else {
        "Netplay connected: arrows + right Ctrl, or gamepad"@
    }) + " ("@ + route + ")"@
}

/// What a player's step asks of the host, after the machine was agreed on.
pub open spec fn player_effects(r: StepReport, mouse: bool, headless: bool) -> Seq<
    Effect<Seq<char>>,
> {
    progress_effects(opt_text(r.progress)) + (if r.rolled_back {
        if headless {
            seq![Effect::ResetRender]
        } else {
            seq![Effect::ResetRender, Effect::FinishRender]
        }
    } else {
        Seq::empty()
    }) + (if !r.was_connected && r.connected {
        seq![Effect::Osd(connected_line(mouse, r.route@))]
    } else {
        Seq::empty()
    }) + idle_effects(r.stepped)
}

/// What a spectator's step asks of the host, after its position.
pub open spec fn spectator_effects(r: StepReport) -> Seq<Effect<Seq<char>>> {
    machine_effects(r.configured, true) + progress_effects(opt_text(r.progress)) + (
    if !r.was_connected && r.connected {
        seq![Effect::ResetRender]
    } else {
        Seq::empty()
    }) + idle_effects(r.stepped)
}

/// The session's input starts over, on a machine that was just agreed on.
pub open spec fn restarted(
    a: Option<NetplaySession>,
    b: Option<NetplaySession>,
    controller: bool,
) -> bool {
    match (a, b) {
        (Some(s), Some(t)) => {
            &&& t.role == s.role
            &&& t.port == s.port
            &&& t.input.nothing()
            &&& t.keyboard_controller == controller
            &&& t.notice_at == s.notice_at
        },
        _ => false,
    }
}

fn push_progress(fx: &mut Effects, progress: &Option<String>)
    ensures
        final(fx)@ == old(fx)@ + progress_effects(opt_text(*progress)),
{
    match progress {
        Some(t) => fx.push(Effect::Osd(t.clone())),
        None => {},
    }
    assert(fx@ =~= old(fx)@ + progress_effects(opt_text(*progress)));
}

fn push_idle(fx: &mut Effects, stepped: bool)
    ensures
        final(fx)@ == old(fx)@ + idle_effects(stepped),
{
    if !stepped {
        fx.push(Effect::ReanchorClock);
        fx.push(Effect::Rest);
    }
    assert(fx@ =~= old(fx)@ + idle_effects(stepped));
}

fn push_machine(fx: &mut Effects, configured: bool, drop_disks: bool)
    ensures
        final(fx)@ == old(fx)@ + machine_effects(configured, drop_disks),
{
    if configured {
        fx.push(Effect::AdoptMachine);
        if drop_disks {
            fx.push(Effect::DropPlaylists);
        }
        fx.push(Effect::ResetRender);
    }
    assert(fx@ =~= old(fx)@ + machine_effects(configured, drop_disks));
}

fn push_player(fx: &mut Effects, r: &StepReport, mouse: bool, headless: bool)
    ensures
        final(fx)@ == old(fx)@ + player_effects(*r, mouse, headless),
{
    push_progress(fx, &r.progress);
    let ghost a = fx@;
    if r.rolled_back {
        fx.push(Effect::ResetRender);
        if !headless {
            fx.push(Effect::FinishRender);
        }
    }
    if !r.was_connected && r.connected {
        let mut line = String::new();
        if mouse {
            put(&mut line, "Netplay connected: mouse controls your port");
        } else {
            put(&mut line, "Netplay connected: arrows + right Ctrl, or gamepad");
        }
        put(&mut line, " (");
        put(&mut line, r.route.as_str());
        put(&mut line, ")");
        assert(line@ =~= connected_line(mouse, r.route@));
        fx.push(Effect::Osd(line));
    }
    push_idle(fx, r.stepped);
    assert(fx@ =~= old(fx)@ + player_effects(*r, mouse, headless));
}

fn push_spectator(fx: &mut Effects, r: &StepReport)
    ensures
        final(fx)@ == old(fx)@ + spectator_effects(*r),
{
    push_machine(fx, r.configured, true);
    push_progress(fx, &r.progress);
    if !r.was_connected && r.connected {
        fx.push(Effect::ResetRender);
    }
    push_idle(fx, r.stepped);
    assert(fx@ =~= old(fx)@ + spectator_effects(*r));
}

fn push_replay(fx: &mut Effects, catching_up: bool, at: Option<u64>, behind: u64, now: u64) -> (
    noticed: bool)
    ensures
        final(fx)@ == old(fx)@ + replay_effects(catching_up, at, behind, now),
        noticed == (catching_up && behind > CATCHUP_END && notice_due(at, now)),
{
    let due: bool = match at {
        None => true,
        Some(t) => now >= NOTICE_EVERY && now - NOTICE_EVERY >= t,
    };
    let mut noticed: bool = false;
    if catching_up && behind <= CATCHUP_END {
        fx.push(Effect::ReanchorClock);
        fx.osd("Spectating: caught up with the players");
    } else if catching_up && due {
        let mut line = "Spectating: ".to_owned();
        put_dec(&mut line, behind);
        put(&mut line, " frames behind, catching up");
        fx.push(Effect::Osd(line));
        noticed = true;
    }
    assert(fx@ =~= old(fx)@ + replay_effects(catching_up, at, behind, now));
    noticed
}

impl NetplaySession {
    fn restart(&mut self, controller: bool)
        requires
            old(self).role is Spectator ==> !controller,
        ensures
            restarted(Some(*old(self)), Some(*final(self)), controller),
            final(self).wf(),
    {
        self.input = HeldInput::new();
        self.keyboard_controller = controller;
    }
}

impl App {
    /// Before a spectator's step: how many frames it takes. One that is far
    /// behind replays them unpaced and silent.
    pub fn spectator_begin(&mut self, headless: bool, behind: u64) -> (frames: u64)
        requires
            old(self).wf(),
            old(self).netplay is Some,
        ensures
            final(self).wf(),
            frames == burst(headless, old(self).session.catching_up, behind),
            if starts_replay(headless, old(self).session.catching_up, behind) {
                &&& *final(self) == (App {
                    session: replaying(old(self).session),
                    netplay: final(self).netplay,
                    ..*old(self)
                })
                &&& final(self).netplay == Some(
                    NetplaySession { notice_at: None, ..old(self).netplay.unwrap() },
                )
            } else {
                *final(self) == *old(self)
            },
    {
        let catching_up: bool = self.session.catching_up;
        let frames: u64 = if headless || !(catching_up || behind > CATCHUP_START) || behind < 1 {
            1
        } else if behind > CATCHUP_BURST {
            CATCHUP_BURST
        } else {
            behind
        };
        if !headless && !catching_up && frames > 1 {
            self.session = replay(self.session);
            match self.netplay.take() {
                Some(mut s) => {
                    s.notice_at = None;
                    self.netplay = Some(s);
                },
                None => {},
            }
        }
        frames
    }

    /// After a spectator's step.
    pub fn spectator_end(&mut self, r: &StepReport, behind: u64, now: u64)
        requires
            old(self).wf(),
            old(self).netplay matches Some(s) && s.role is Spectator,
        ensures
            final(self).wf(),
            ({
                let s = old(self).netplay.unwrap();
                let catching_up = old(self).session.catching_up;
                let noticed = catching_up && behind > CATCHUP_END && notice_due(s.notice_at, now);
                let mid = Some(
                    NetplaySession {
                        notice_at: if noticed {
                            Some(now)
                        } else {
                            s.notice_at
                        },
                        ..s
                    },
                );
                &&& *final(self) == (App {
                    fx: final(self).fx,
                    netplay: final(self).netplay,
                    session: if catching_up && behind <= CATCHUP_END {
                        caught_up(old(self).session)
                    } else {
                        old(self).session
                    },
                    guest: GuestInput {
                        joystick_held: old(self).guest.joystick_held && !r.configured,
                        ..old(self).guest
                    },
                    ..*old(self)
                })
                &&& if r.configured {
                    restarted(mid, final(self).netplay, false)
                } else {
                    final(self).netplay == mid
                }
                &&& final(self).fx@ == old(self).fx@ + replay_effects(
                    catching_up,
                    s.notice_at,
                    behind,
                    now,
                ) + spectator_effects(*r)
            }),
    {
        let catching_up: bool = self.session.catching_up;
        match self.netplay.take() {
            Some(mut s) => {
                if push_replay(&mut self.fx, catching_up, s.notice_at, behind, now) {
                    s.notice_at = Some(now);
                }
                if r.configured {
                    s.restart(false);
                    self.guest.joystick_held = false;
                }
                self.netplay = Some(s);
            },
            None => {},
        }
        if catching_up && behind <= CATCHUP_END {
            self.session = end_replay(self.session);
        }
        push_spectator(&mut self.fx, r);
    }

    /// After a player's step.
    pub fn netplay_stepped(&mut self, r: &StepReport, headless: bool)
        requires
            old(self).wf(),
            old(self).netplay matches Some(s) && s.role !is Spectator,
        ensures
            final(self).wf(),
            *final(self) == (App {
                fx: final(self).fx,
                netplay: final(self).netplay,
                guest: GuestInput {
                    joystick_held: old(self).guest.joystick_held && !r.configured,
                    ..old(self).guest
                },
                ..*old(self)
            }),
            if r.configured {
                restarted(old(self).netplay, final(self).netplay, !old(self).guest.mouse_port)
            } else {
                final(self).netplay == old(self).netplay
            },
            final(self).fx@ == old(self).fx@ + machine_effects(
                r.configured,
                old(self).netplay.unwrap().role is Guest,
            ) + player_effects(*r, old(self).guest.mouse_port, headless),
    {
        let mut guest: bool = false;
        match self.netplay.take() {
            Some(mut s) => {
                guest = s.role == Role::Guest;
                if r.configured {
                    s.restart(!self.guest.mouse_port);
                    self.guest.joystick_held = false;
                }
                self.netplay = Some(s);
            },
            None => {},
        }
        push_machine(&mut self.fx, r.configured, guest);
        push_player(&mut self.fx, r, self.guest.mouse_port, headless);
    }
}

/// A spectator that is caught up is paced and stays so until it falls behind
/// again, and one that is behind replays a bounded number of frames at once.
pub proof fn lemma_catching_up_ends(s: Session, headless: bool, behind: u64)
    ensures
        1 <= burst(headless, s.catching_up, behind) <= CATCHUP_BURST,
        headless ==> burst(headless, s.catching_up, behind) == 1,
        behind <= CATCHUP_END ==> !starts_replay(
            headless,
            caught_up(s).catching_up,
            behind,
        ) && caught_up(s).paced,
        starts_replay(headless, s.catching_up, behind) ==> behind > CATCHUP_START
            && replaying(s).audio_suspended,
{
}

} // verus!
