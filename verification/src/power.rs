//! Power, pause and reset: what they do to the session, to the clients that
//! wait on the machine, and to the keys that it believes are held.

use vstd::prelude::*;

use crate::app::App;
use crate::app::ConsolePanel;
use crate::effects::Effect;
use crate::effects::Effects;
use crate::effects::lemma_last;
use crate::effects::lemma_then;
use crate::gdb::as_console;
use crate::gdb::is_bartman;
use crate::gdb::resume_effects;
use crate::gdb::settled_gdb;
use crate::gdb_session::logged;
use crate::guest::GuestInput;
use crate::guest::all_up;
use crate::guest::up;
use crate::session::Session;
use crate::session::gate_engaged;
use crate::text::put;
use crate::text::texts;
use crate::warp::WarpHolds;
use crate::warp::WarpSource;

verus! {

impl Session {
    /// Something had the machine warping: a boot phase or a hold.
    pub open spec fn warp_held(self) -> bool {
        gate_engaged(self.launch) || gate_engaged(self.boot) || self.holds != WarpHolds::none()
    }

    /// The session without power. What kept it warping dies with the machine.
    pub open spec fn unpowered(self) -> Session {
        (Session {
            powered_on: false,
            paused: false,
            launch: None,
            boot: None,
            holds: WarpHolds::none(),
            paced: self.paced || self.warp_held(),
            ..self
        }).settled()
    }

    /// The session after a reset that worked or did not.
    pub open spec fn after_reset(self, ok: bool) -> Session {
        (Session { cpu_halted: !ok, ..self }).settled()
    }

    pub open spec fn flipped(self) -> Session {
        (Session { paused: !self.paused, ..self }).settled()
    }

    fn flip_pause(&mut self)
        ensures
            *final(self) == old(self).flipped(),
    {
        self.paused = !self.paused;
        self.sync_live_audio_suspension();
    }

    fn cut_power(&mut self)
        ensures
            *final(self) == old(self).unpowered(),
    {
        let launched: bool = match self.launch {
            Some(g) => g.engaged,
            None => false,
        };
        let booted: bool = match self.boot {
            Some(g) => g.engaged,
            None => false,
        };
        self.launch = None;
        self.boot = None;
        if launched || booted || !self.holds.is_empty() {
            self.set_paced(true);
        }
        self.holds.clear();
        self.powered_on = false;
        self.paused = false;
        self.sync_live_audio_suspension();
    }

    fn reset_done(&mut self, ok: bool)
        ensures
            *final(self) == old(self).after_reset(ok),
    {
        self.cpu_halted = !ok;
        self.sync_live_audio_suspension();
    }

    /// The session with power, its boot phases started.
    pub open spec fn powered(self) -> Session {
        (Session { powered_on: true, ..self }).settled().phase_launched().phase_booted()
    }

    pub open spec fn phase_launched(self) -> Session {
        if self.launch matches Some(g) && self.powered_on && !g.started {
            (Session {
                paced: self.bridged,
                launch: Some(self.gate_started()),
                ..self
            }).settled()
        } else {
            self
        }
    }

    pub open spec fn phase_booted(self) -> Session {
        if self.boot matches Some(g) && self.powered_on && !g.started {
            (Session { paced: self.bridged, boot: Some(self.gate_started()), ..self }).settled()
        } else {
            self
        }
    }

    /// What starting the boot phases tells a control client.
    pub open spec fn phase_effects(self) -> Seq<Effect<Seq<char>>> {
        (if self.launch matches Some(g) && !g.started && !self.bridged {
            seq![Effect::NotifyWarp("launch"@)]
        } else {
            Seq::empty()
        }) + (if self.boot matches Some(g) && !g.started && !self.bridged {
            seq![Effect::NotifyWarp("boot"@)]
        } else {
            Seq::empty()
        })
    }

    fn switch_on(&mut self, fx: &mut Effects)
        ensures
            *final(self) == old(self).powered(),
            final(fx)@ == old(fx)@ + seq![Effect::AttachDrives] + old(self).phase_effects(),
    {
        self.powered_on = true;
        self.sync_live_audio_suspension();
        fx.push(Effect::AttachDrives);
        self.engage_warp_launch(fx);
        self.engage_warp_boot(fx);
        assert(fx@ =~= old(fx)@ + seq![Effect::AttachDrives] + old(self).phase_effects());
    }

    /// The session while the host does something slow: silent.
    pub fn suspend_live_audio_for_host_io(&mut self)
        ensures
            *final(self) == (Session { audio_suspended: true, ..*old(self) }),
    {
        self.audio_suspended = true;
    }

    /// The slow thing is over: the time that it took is not made up for.
    pub fn finish_host_io_pause(&mut self, fx: &mut Effects)
        ensures
            *final(self) == old(self).settled(),
            final(fx)@ == old(fx)@.push(Effect::ReanchorClock),
    {
        fx.push(Effect::ReanchorClock);
        self.sync_live_audio_suspension();
    }
}

/// What a user's pause or resume sends to the remote clients.
pub open spec fn pause_effects(o: &App) -> Seq<Effect<Seq<char>>> {
    if o.session.paused {
        Seq::empty()
    } else {
        resume_effects(o.session, o.gdb, "user_pause"@, "paused from the window"@)
    }
}

/// The pause was flipped.
pub open spec fn pause_toggled(o: &App, n: &App) -> bool {
    &&& *n == (App {
        fx: n.fx,
        gdb: n.gdb,
        session: if o.session.paused {
            o.session.flipped()
        } else {
            Session { control_pending: false, ..o.session.flipped() }
        },
        ..*o
    })
    &&& if o.session.paused {
        n.gdb == o.gdb
    } else {
        settled_gdb(o.gdb, n.gdb)
    }
    &&& n.fx@ == o.fx@ + pause_effects(o) + seq![Effect::Redraw]
}

/// What letting go of the machine's keys, warp and drives asks of the host.
pub open spec fn off_requests(held: bool) -> Seq<Effect<Seq<char>>> {
    seq![Effect::ReleaseKeyboardHolds] + (if held {
        seq![Effect::NotifyWarp("power_off"@)]
    } else {
        Seq::empty()
    }) + seq![Effect::ReleaseDrives]
}

fn tell_off(fx: &mut Effects, held: bool)
    ensures
        final(fx)@ == old(fx)@ + off_requests(held),
{
    fx.push(Effect::ReleaseKeyboardHolds);
    if held {
        fx.push(Effect::NotifyWarp("power_off".to_owned()));
    }
    fx.push(Effect::ReleaseDrives);
    assert(fx@ =~= old(fx)@ + off_requests(held));
}

/// What cutting the power asks of the host, before its cold reset.
pub open spec fn off_effects(o: &App) -> Seq<Effect<Seq<char>>> {
    off_requests(o.session.holds != WarpHolds::none()) + resume_effects(
        o.session,
        o.gdb,
        "pause"@,
        "power state changed"@,
    )
}

/// The power is off, and every client that waited on the machine knows it.
pub open spec fn powered_down(o: &App, n: &App) -> bool {
    &&& *n == (App {
        fx: n.fx,
        gdb: n.gdb,
        session: Session { control_pending: false, ..o.session.unpowered() },
        ..*o
    })
    &&& settled_gdb(o.gdb, n.gdb)
    &&& n.fx@ == o.fx@ + off_effects(o)
}

/// The power is on, and what powering off gave up is taken again.
pub open spec fn powered_up(o: &App, n: &App) -> bool {
    &&& *n == (App { fx: n.fx, session: o.session.powered(), ..*o })
    &&& n.fx@ == o.fx@ + seq![Effect::AttachDrives] + o.session.phase_effects() + seq![
        Effect::Redraw,
    ]
}

/// The machine believes that no key is held.
pub open spec fn keys_up(o: GuestInput, n: GuestInput) -> bool {
    &&& n == (GuestInput { held: n.held, ..o })
    &&& n.held@ == up()
}

/// The machine is cold, its picture is the test screen, its keys are up, and
/// the window is redrawn with the power button.
pub open spec fn parked(o: &App, n: &App, ok: bool) -> bool {
    &&& *n == (App { fx: n.fx, guest: n.guest, session: o.session.after_reset(ok), ..*o })
    &&& keys_up(o.guest, n.guest)
    &&& n.fx@ == o.fx@ + seq![Effect::ResetRender, Effect::ParkTestScreen, Effect::Redraw]
}

/// The console's lines with the guest's own behind them.
pub open spec fn mirrored(lines: Seq<Seq<char>>) -> Seq<Seq<char>> {
    lines.map_values(|l: Seq<char>| "DBG: "@ + l)
}

pub open spec fn console_mirrors(
    a: Option<ConsolePanel>,
    b: Option<ConsolePanel>,
    lines: Seq<Seq<char>>,
) -> bool {
    match (a, b) {
        (Some(p), Some(q)) => {
            &&& q == (ConsolePanel { output: q.output, ..p })
            &&& texts(q.output@) == texts(p.output@) + mirrored(lines)
        },
        (None, None) => true,
        _ => false,
    }
}

fn mirror(panel: &mut ConsolePanel, lines: &Vec<String>)
    ensures
        *final(panel) == (ConsolePanel { output: final(panel).output, ..*old(panel) }),
        texts(final(panel).output@) == texts(old(panel).output@) + mirrored(texts(lines@)),
{
    let ghost start = texts(panel.output@);
    let mut i: usize = 0;
    assert(start + mirrored(texts(lines@).take(0)) =~= start);
    while i < lines.len()
        invariant
            i <= lines@.len(),
            *panel == (ConsolePanel { output: panel.output, ..*old(panel) }),
            texts(panel.output@) == start + mirrored(texts(lines@).take(i as int)),
        decreases lines@.len() - i,
    {
        let mut line: String = "DBG: ".to_owned();
        put(&mut line, lines[i].as_str());
        let ghost l = line@;
        panel.push_output(line);
        i += 1;
        assert(l == mirrored(texts(lines@))[i - 1]);
        assert(texts(panel.output@) =~= start + mirrored(texts(lines@).take(i as int)));
    }
    assert(texts(lines@).take(i as int) =~= texts(lines@));
}

impl App {
    /// Toggles the pause: the machine holds its frame, and goes on from there.
    /// A user's pause answers every remote resume.
    #[verifier::rlimit(40)]
    pub fn toggle_pause(&mut self)
        requires
            old(self).wf(),
        ensures
            final(self).wf(),
            pause_toggled(old(self), final(self)),
    {
        self.session.flip_pause();
        if self.session.paused {
            self.complete_remote_resumes("user_pause", "paused from the window");
        } else {
            assert(self.fx@ =~= old(self).fx@ + pause_effects(old(self)));
        }
        proof {
            lemma_last(self.fx@, Effect::Redraw);
        }
        self.fx.redraw();
    }

    /// Cuts the power; the host's cold reset follows.
    pub fn power_off(&mut self)
        requires
            old(self).wf(),
        ensures
            final(self).wf(),
            powered_down(old(self), final(self)),
    {
        let held: bool = !self.session.holds.is_empty();
        self.session.cut_power();
        tell_off(&mut self.fx, held);
        self.complete_remote_resumes("pause", "power state changed");
        proof {
            lemma_then(
                old(self).fx@,
                off_requests(held),
                resume_effects(
                    old(self).session,
                    old(self).gdb,
                    "pause"@,
                    "power state changed"@,
                ),
            );
        }
    }

    /// The cold reset that follows a power-off is done.
    pub fn power_off_done(&mut self, ok: bool)
        requires
            old(self).wf(),
        ensures
            final(self).wf(),
            parked(old(self), final(self), ok),
    {
        self.session.reset_done(ok);
        self.guest.held = all_up();
        self.fx.push(Effect::ResetRender);
        self.fx.push(Effect::ParkTestScreen);
        self.fx.redraw();
        assert(self.fx@ =~= old(self).fx@ + seq![
            Effect::ResetRender,
            Effect::ParkTestScreen,
            Effect::Redraw,
        ]);
    }

    /// The power button. Says whether the host is to reset the machine cold;
    /// `power_off_done` follows then. Both ways end in a redraw, which keeps
    /// the button and the display current.
    pub fn toggle_power(&mut self) -> (off: bool)
        requires
            old(self).wf(),
        ensures
            final(self).wf(),
            off == old(self).session.powered_on,
            if off {
                powered_down(old(self), final(self))
            } else {
                powered_up(old(self), final(self))
            },
    {
        if self.session.powered_on {
            self.power_off();
            true
        } else {
            self.session.switch_on(&mut self.fx);
            self.fx.redraw();
            proof {
                lemma_last(
                    old(self).fx@ + seq![Effect::AttachDrives] + old(self).session.phase_effects(),
                    Effect::Redraw,
                );
            }
            false
        }
    }

    /// A reset is asked for. A key latched on the on-screen keyboard must not
    /// ride through it.
    pub fn reset_emulator(&mut self)
        ensures
            *final(self) == (App { fx: final(self).fx, ..*old(self) }),
            final(self).fx@ == old(self).fx@.push(Effect::ReleaseKeyboardHolds),
    {
        self.fx.push(Effect::ReleaseKeyboardHolds);
    }

    /// The host's reset is done.
    pub fn reset_done(&mut self, ok: bool, clear_host_keys: bool)
        requires
            old(self).wf(),
        ensures
            final(self).wf(),
            *final(self) == (App {
                fx: final(self).fx,
                guest: final(self).guest,
                session: old(self).session.after_reset(ok),
                ..*old(self)
            }),
            if ok && clear_host_keys {
                keys_up(old(self).guest, final(self).guest)
            } else {
                final(self).guest == old(self).guest
            },
            final(self).fx@ == (if ok {
                old(self).fx@.push(Effect::ResetRender)
            } else {
                old(self).fx@
            }),
    {
        self.session.reset_done(ok);
        if ok {
            self.fx.push(Effect::ResetRender);
            if clear_host_keys {
                self.guest.held = all_up();
            }
        }
    }

    /// The freezer cartridge's button. Says whether the host is to raise its
    /// interrupt.
    pub fn freeze_cartridge(&mut self, fitted: bool) -> (press: bool)
        ensures
            press == fitted,
            *final(self) == (App { fx: final(self).fx, ..*old(self) }),
            final(self).fx@ == (if fitted {
                old(self).fx@
            } else {
                old(self).fx@.push(Effect::Osd("No freezer cartridge fitted"@))
            }),
    {
        if !fitted {
            self.fx.osd("No freezer cartridge fitted");
        }
        fitted
    }

    /// The cartridge froze the machine, or refused. A press is recorded like
    /// any other input.
    pub fn freeze_done(&mut self, label: &str, done: &Result<(), String>)
        ensures
            *final(self) == (App { fx: final(self).fx, ..*old(self) }),
            final(self).fx@ == old(self).fx@ + (match *done {
                Ok(_) => seq![Effect::RecordFreeze, Effect::Osd("Freeze ("@ + label@ + ")"@)],
                Err(e) => seq![Effect::Osd("Freeze failed: "@ + e@)],
            }),
    {
        match done {
            Ok(_) => {
                self.fx.push(Effect::RecordFreeze);
                let mut text: String = "Freeze (".to_owned();
                put(&mut text, label);
                put(&mut text, ")");
                self.fx.push(Effect::Osd(text));
                assert(self.fx@ =~= old(self).fx@ + seq![
                    Effect::RecordFreeze,
                    Effect::Osd("Freeze ("@ + label@ + ")"@),
                ]);
            },
            Err(e) => {
                let mut text: String = "Freeze failed: ".to_owned();
                put(&mut text, e.as_str());
                self.fx.push(Effect::Osd(text));
                assert(self.fx@ =~= old(self).fx@ + seq![Effect::Osd("Freeze failed: "@ + e@)]);
            },
        }
    }

    /// Full screen on or off; `window` says whether the window is full screen
    /// now, if there is a window. Full screen leaves no desktop to reach for,
    /// so the mouse is taken where the mode takes it by itself.
    pub fn toggle_fullscreen(&mut self, window: Option<bool>, modifier: &str)
        ensures
            *final(self) == (App { fx: final(self).fx, ..*old(self) }),
            final(self).fx@ == old(self).fx@ + (match window {
                None => Seq::empty(),
                Some(true) => seq![Effect::Fullscreen(false), Effect::Osd("Fullscreen off"@)],
                Some(false) => seq![
                    Effect::Fullscreen(true),
                    Effect::Osd("Fullscreen on ("@ + modifier@ + "+F restores)"@),
                    Effect::AutoCaptureMouse,
                ],
            }),
    {
        match window {
            None => {
                assert(self.fx@ =~= old(self).fx@ + Seq::empty());
            },
            Some(full) => {
                self.fx.push(Effect::Fullscreen(!full));
                if full {
                    self.fx.osd("Fullscreen off");
                    assert(self.fx@ =~= old(self).fx@ + seq![
                        Effect::Fullscreen(false),
                        Effect::Osd("Fullscreen off"@),
                    ]);
                } else {
                    let mut text: String = "Fullscreen on (".to_owned();
                    put(&mut text, modifier);
                    put(&mut text, "+F restores)");
                    self.fx.push(Effect::Osd(text));
                    self.fx.push(Effect::AutoCaptureMouse);
                    assert(self.fx@ =~= old(self).fx@ + seq![
                        Effect::Fullscreen(true),
                        Effect::Osd("Fullscreen on ("@ + modifier@ + "+F restores)"@),
                        Effect::AutoCaptureMouse,
                    ]);
                }
            },
        }
    }

    /// What the guest wrote to its console and asked of its speed since the
    /// last frame. The lines reach the clients and an open console; says
    /// whether pacing changed.
    pub fn service_uaelib(&mut self, lines: &Vec<String>, request: Option<bool>) -> (changed: bool)
        requires
            old(self).wf(),
        ensures
            final(self).wf(),
            *final(self) == (App {
                fx: final(self).fx,
                console: final(self).console,
                session: final(self).session,
                ..*old(self)
            }),
            console_mirrors(old(self).console, final(self).console, texts(lines@)),
            final(self).session == (match request {
                Some(on) => if old(self).session.capture_run {
                    old(self).session
                } else {
                    old(self).session.warped(on, WarpSource::Guest)
                },
                None => old(self).session,
            }),
            final(self).fx@ == old(self).fx@ + (if is_bartman(old(self).gdb) {
                as_console(logged(texts(lines@)))
            } else {
                Seq::empty()
            }) + (match request {
                Some(on) => if old(self).session.capture_run {
                    Seq::empty()
                } else {
                    old(self).session.warp_effects(on, WarpSource::Guest)
                },
                None => Seq::empty(),
            }),
            changed == (final(self).session.paced != old(self).session.paced),
    {
        self.gdb_log_lines(lines.as_slice());
        let ghost told = self.fx@;
        match self.console.take() {
            Some(mut panel) => {
                mirror(&mut panel, lines);
                self.console = Some(panel);
            },
            None => {},
        }
        let changed: bool = self.session.service_guest_warp(&mut self.fx, request);
        assert(told + Seq::<Effect<Seq<char>>>::empty() =~= told);
        changed
    }
}

/// A boot phase starts once per session: what has started is not started
/// again, by another look or by another press of the power button.
pub proof fn lemma_phases_start_once(s: Session)
    ensures
        s.phase_launched().phase_launched() == s.phase_launched(),
        s.phase_booted().phase_booted() == s.phase_booted(),
        s.powered().phase_effects().len() == 0,
        s.powered().powered() == s.powered(),
{
}

/// Powering off and on again is a clean cycle: nothing warps, nothing is
/// paused, and no resume is outstanding, whatever held the machine before.
pub proof fn lemma_power_cycle_is_clean(s: Session)
    ensures
        ({
            let off = s.unpowered();
            let on = off.after_reset(true).powered();
            &&& off.audio_suspended
            &&& on.powered_on && !on.paused && !on.cpu_halted
            &&& !on.warp_held()
            &&& on.launch is None && on.boot is None
            &&& on.audio_suspended == s.catching_up
            &&& s.warp_held() ==> on.paced
        }),
{
}

} // verus!
