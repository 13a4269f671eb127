//! The running session: power, pause, pacing and the warp that suspends it,
//! run-ahead, and when live audio is silent.

use vstd::prelude::*;

use crate::effects::Effect;
use crate::effects::Effects;
use crate::text::put;
use crate::warp::WarpHolds;
use crate::warp::WarpSource;
use crate::warp::WarpSpeed;

verus! {

/// A boot phase that runs unpaced until its condition holds.
#[derive(Clone, Copy, PartialEq, Eq, Structural, Debug)]
pub struct Gate {
    pub started: bool,
    /// The phase has warp engaged; a machine that refuses to unpace runs the
    /// phase at normal speed.
    pub engaged: bool,
}

#[derive(Clone, Copy, PartialEq, Eq, Debug)]
pub struct Session {
    pub powered_on: bool,
    pub cpu_halted: bool,
    pub paused: bool,
    pub audio_suspended: bool,
    /// Emulation is held to real time.
    pub paced: bool,
    /// A bridged physical floppy drive, which keeps the machine paced.
    pub bridged: bool,
    pub holds: WarpHolds,
    pub launch: Option<Gate>,
    pub boot: Option<Gate>,
    /// A scheduled capture run, unpaced end to end.
    pub capture_run: bool,
    /// A spectator is replaying its backlog.
    pub catching_up: bool,
    pub warp_speed: WarpSpeed,
    pub max_frame_cap: usize,
    pub max_budget_ms: u64,
    pub run_ahead_frames: u8,
    pub control_attached: bool,
    /// A control client's resume is outstanding.
    pub control_pending: bool,
    /// The machine came from a saved state, which may carry hardware that the
    /// session knows nothing of.
    pub loaded_state: bool,
}

/// What a warp request did.
#[derive(PartialEq, Eq, Debug)]
pub struct WarpOutcome {
    /// Pacing flipped.
    pub changed: bool,
    /// Why the request was not honoured, or who keeps the machine warping.
    pub note: Option<String>,
}

pub open spec fn gate_engaged(g: Option<Gate>) -> bool {
    g matches Some(gate) && gate.engaged
}

/// How a launch phase's condition stands.
#[derive(Clone, Copy, PartialEq, Eq, Structural, Debug)]
pub enum LaunchOutcome {
    Waiting,
    Loaded,
    Finished,
    TimedOut,
}

/// How a boot phase's condition stands.
#[derive(Clone, Copy, PartialEq, Eq, Structural, Debug)]
pub enum BootOutcome {
    Waiting,
    Done,
    TimedOut,
}

/// What keeps speculative execution off.
#[derive(Clone, Copy, PartialEq, Eq, Structural, Debug)]
pub enum RunaheadBlock {
    Warp,
    Rewind,
    Rtg,
    Recording,
    Midi,
    Serial,
    Control,
    Debug,
    Coverage,
    LoadedState,
    Machine,
    Host,
}

/// The facts about the machine and its host that run-ahead depends on.
#[derive(Clone, Copy, PartialEq, Eq, Debug)]
pub struct RunaheadFacts {
    pub time_travel: bool,
    pub rtg: bool,
    pub recording: bool,
    pub serial_is_midi: bool,
    pub serial_safe: bool,
    pub debug_block: bool,
    pub coverage_block: bool,
    pub machine_block: bool,
    pub host_block: bool,
}

impl RunaheadBlock {
    /// The reason in words, for the blocks that this session itself decides.
    pub open spec fn words(self) -> Option<Seq<char>> {
        match self {
            RunaheadBlock::Warp => Some("warp active"@),
            RunaheadBlock::Rewind => Some("rewind/reverse history armed"@),
            RunaheadBlock::Rtg => Some("RTG display active"@),
            RunaheadBlock::Recording => Some("video recording active"@),
            RunaheadBlock::Midi => Some("MIDI device on the serial port"@),
            RunaheadBlock::Serial => Some("live serial host endpoint"@),
            RunaheadBlock::Control => Some("control client attached"@),
            RunaheadBlock::LoadedState => Some("loaded save state"@),
            _ => None,
        }
    }

    pub fn describe(self) -> (r: Option<&'static str>)
        ensures
            r is Some == self.words() is Some,
            r matches Some(t) ==> self.words() == Some(t@),
    {
        match self {
            RunaheadBlock::Warp => Some("warp active"),
            RunaheadBlock::Rewind => Some("rewind/reverse history armed"),
            RunaheadBlock::Rtg => Some("RTG display active"),
            RunaheadBlock::Recording => Some("video recording active"),
            RunaheadBlock::Midi => Some("MIDI device on the serial port"),
            RunaheadBlock::Serial => Some("live serial host endpoint"),
            RunaheadBlock::Control => Some("control client attached"),
            RunaheadBlock::LoadedState => Some("loaded save state"),
            _ => None,
        }
    }
}

impl Session {
    /// The catch-up of a boot phase, of a programmatic warp or of a spectator
    /// is fast-forward noise; the manual toggle stays audible.
    pub open spec fn warp_muted(self) -> bool {
        gate_engaged(self.launch) || gate_engaged(self.boot) || self.holds != WarpHolds::none()
            || self.catching_up
    }

    pub open spec fn silent(self) -> bool {
        !self.powered_on || self.cpu_halted || self.paused || self.warp_muted()
    }

    /// The session with its live audio as its state wants it.
    pub open spec fn settled(self) -> Session {
        Session { audio_suspended: self.silent(), ..self }
    }

    /// The session paused, if it was not.
    pub open spec fn stopped(self) -> Session {
        if self.paused {
            self
        } else {
            (Session { paused: true, ..self }).settled()
        }
    }

    /// The session running, if it was paused.
    pub open spec fn resumed(self) -> Session {
        if self.paused {
            (Session { paused: false, ..self }).settled()
        } else {
            self
        }
    }

    pub open spec fn gate_pending(self) -> bool {
        self.launch is Some || self.boot is Some
    }

    /// The holds after a request, which a bridged drive refuses.
    pub open spec fn holds_after(self, on: bool, source: WarpSource) -> WarpHolds {
        if source is Manual {
            WarpHolds::none()
        } else if !on {
            self.holds.without(source)
        } else if self.bridged {
            self.holds
        } else {
            self.holds.with(source)
        }
    }

    /// The session after a warp request. Warp off also drops the boot phases,
    /// and paces the machine unless somebody still holds warp on.
    pub open spec fn warped(self, on: bool, source: WarpSource) -> Session {
        let holds = self.holds_after(on, source);
        (Session {
            holds,
            paced: if on {
                self.bridged
            } else {
                self.paced || holds == WarpHolds::none()
            },
            launch: if on {
                self.launch
            } else {
                None
            },
            boot: if on {
                self.boot
            } else {
                None
            },
            ..self
        }).settled()
    }

    /// Why a request was not honoured, or who keeps the machine warping.
    pub open spec fn warp_note(self, on: bool, source: WarpSource) -> Option<Seq<char>> {
        if self.capture_run {
            Some("capture run is unpaced end to end; warp is fixed"@)
        } else if on && self.bridged {
            Some("a bridged physical floppy drive keeps the machine paced"@)
        } else if !on && self.holds_after(on, source) != WarpHolds::none() {
            Some("warp stays on: held by "@ + self.holds_after(on, source).words())
        } else {
            None
        }
    }

    /// The message that a request shows.
    pub open spec fn warp_osd(self, on: bool, source: WarpSource) -> Option<Seq<char>> {
        let after = self.warped(on, source);
        let changed = after.paced != self.paced;
        if on && self.bridged {
            Some("Warp unavailable: physical floppy drive attached"@)
        } else if source is Manual && on {
            Some("Warp speed on ("@ + self.warp_speed.name() + ")"@)
        } else if source is Manual {
            if self.gate_pending() {
                Some("Warp off"@)
            } else {
                Some("Warp speed off"@)
            }
        } else if on && changed {
            Some("Warp on ("@ + source.title() + ")"@)
        } else if !on && after.holds != WarpHolds::none() {
            Some("Warp stays on ("@ + after.holds.words() + ")"@)
        } else if !on && (changed || self.gate_pending()) {
            Some("Warp off ("@ + source.title() + ")"@)
        } else {
            None
        }
    }

    pub open spec fn warp_shown(self, on: bool, source: WarpSource) -> Seq<Effect<Seq<char>>> {
        match self.warp_osd(on, source) {
            Some(t) => seq![Effect::Osd(t)],
            None => Seq::empty(),
        }
    }

    /// What a request asks of the host. A control client hears of every
    /// change that it did not make itself.
    pub open spec fn warp_effects(self, on: bool, source: WarpSource) -> Seq<Effect<Seq<char>>> {
        let after = self.warped(on, source);
        let told = (after.paced != self.paced || after.holds != self.holds) && source !is Control;
        self.warp_shown(on, source) + (if told {
            seq![Effect::NotifyWarp(source.name())]
        } else {
            Seq::empty()
        }) + seq![Effect::Redraw]
    }

    pub fn new(powered_on: bool) -> (r: Session)
        ensures
            r.powered_on == powered_on,
            !r.cpu_halted,
            !r.paused,
            r.paced,
            !r.bridged,
            r.holds == WarpHolds::none(),
            r.launch is None,
            r.boot is None,
            !r.capture_run,
            !r.catching_up,
            r.warp_speed is X2,
            r.run_ahead_frames == 0,
            !r.control_attached,
            !r.control_pending,
            !r.loaded_state,
            r == r.settled(),
    {
        Session {
            powered_on,
            cpu_halted: false,
            paused: false,
            audio_suspended: !powered_on,
            paced: true,
            bridged: false,
            holds: WarpHolds::new(),
            launch: None,
            boot: None,
            capture_run: false,
            catching_up: false,
            warp_speed: WarpSpeed::X2,
            max_frame_cap: 1,
            max_budget_ms: 0,
            run_ahead_frames: 0,
            control_attached: false,
            control_pending: false,
            loaded_state: false,
        }
    }

    pub fn sync_live_audio_suspension(&mut self)
        ensures
            *final(self) == old(self).settled(),
    {
        let launch: bool = match self.launch {
            Some(g) => g.engaged,
            None => false,
        };
        let boot: bool = match self.boot {
            Some(g) => g.engaged,
            None => false,
        };
        let muted: bool = launch || boot || !self.holds.is_empty() || self.catching_up;
        self.audio_suspended = !self.powered_on || self.cpu_halted || self.paused || muted;
    }

    pub fn pause(&mut self)
        ensures
            *final(self) == old(self).stopped(),
    {
        if !self.paused {
            self.paused = true;
            self.sync_live_audio_suspension();
        }
    }

    pub fn resume(&mut self)
        ensures
            *final(self) == old(self).resumed(),
    {
        if self.paused {
            self.paused = false;
            self.sync_live_audio_suspension();
        }
    }

    /// Paces the machine, or lets it run unpaced unless a bridged drive
    /// forbids it.
    pub fn set_paced(&mut self, paced: bool)
        ensures
            *final(self) == (Session { paced: paced || old(self).bridged, ..*old(self) }),
    {
        self.paced = paced || self.bridged;
    }

    /// Drops a pending or engaged boot phase; says whether there was one.
    pub fn cancel_warp_gates(&mut self) -> (cancelled: bool)
        ensures
            *final(self) == (Session { launch: None, boot: None, ..*old(self) }),
            cancelled == old(self).gate_pending(),
    {
        let cancelled: bool = self.launch.is_some() || self.boot.is_some();
        self.launch = None;
        self.boot = None;
        cancelled
    }

    /// Shows the message that a request which led to `after` calls for.
    fn show_warp(&self, fx: &mut Effects, after: Session, on: bool, source: WarpSource)
        requires
            after == self.warped(on, source),
        ensures
            final(fx)@ == old(fx)@ + self.warp_shown(on, source),
    {
        let changed: bool = after.paced != self.paced;
        let cancelled: bool = self.launch.is_some() || self.boot.is_some();
        let mut text: String = String::new();
        if on && self.bridged {
            text = "Warp unavailable: physical floppy drive attached".to_owned();
        } else if source == WarpSource::Manual {
            if on {
                text = "Warp speed on (".to_owned();
                put(&mut text, self.warp_speed.label());
                put(&mut text, ")");
            } else if cancelled {
                text = "Warp off".to_owned();
            } else {
                text = "Warp speed off".to_owned();
            }
        } else if on {
            if !changed {
                assert(old(fx)@ + self.warp_shown(on, source) =~= old(fx)@);
                return;
            }
            text = "Warp on (".to_owned();
            put(&mut text, source.describe());
            put(&mut text, ")");
        } else if !after.holds.is_empty() {
            text = "Warp stays on (".to_owned();
            put(&mut text, after.holds.describe().as_str());
            put(&mut text, ")");
        } else {
            if !changed && !cancelled {
                assert(old(fx)@ + self.warp_shown(on, source) =~= old(fx)@);
                return;
            }
            text = "Warp off (".to_owned();
            put(&mut text, source.describe());
            put(&mut text, ")");
        }
        assert(self.warp_osd(on, source) == Some(text@));
        fx.osd(text.as_str());
        assert(fx@ =~= old(fx)@ + seq![Effect::Osd(text@)]);
    }

    fn apply_warp(&mut self, on: bool, source: WarpSource)
        ensures
            *final(self) == old(self).warped(on, source),
    {
        if on {
            self.set_paced(false);
            if source == WarpSource::Manual {
                self.holds.clear();
            } else if !self.paced {
                self.holds.insert(source);
            }
        } else {
            self.cancel_warp_gates();
            if source == WarpSource::Manual {
                self.holds.clear();
            } else {
                self.holds.remove(source);
            }
            if self.holds.is_empty() {
                self.set_paced(true);
            }
        }
        self.sync_live_audio_suspension();
    }

    fn note_for(&self, holds: WarpHolds, on: bool, source: WarpSource) -> (r: Option<String>)
        requires
            !self.capture_run,
            holds == self.holds_after(on, source),
        ensures
            crate::breaks::opt_text(r) == self.warp_note(on, source),
    {
        if on && self.bridged {
            Some("a bridged physical floppy drive keeps the machine paced".to_owned())
        } else if !on && !holds.is_empty() {
            let mut text = "warp stays on: held by ".to_owned();
            put(&mut text, holds.describe().as_str());
            Some(text)
        } else {
            None
        }
    }

    /// Switches warp for anyone but a boot phase's own start and end. Warp
    /// off is a complete action whoever asks: it drops a boot phase, releases
    /// the asker's hold, and paces the machine unless another holder remains.
    #[verifier::rlimit(40)]
    pub fn set_warp(&mut self, fx: &mut Effects, on: bool, source: WarpSource) -> (r: WarpOutcome)
        ensures
            *final(self) == (if old(self).capture_run {
                *old(self)
            } else {
                old(self).warped(on, source)
            }),
            final(fx)@ == (if old(self).capture_run {
                old(fx)@
            } else {
                old(fx)@ + old(self).warp_effects(on, source)
            }),
            r.changed == (final(self).paced != old(self).paced),
            crate::breaks::opt_text(r.note) == old(self).warp_note(on, source),
    {
        if self.capture_run {
            return WarpOutcome {
                changed: false,
                note: Some("capture run is unpaced end to end; warp is fixed".to_owned()),
            };
        }
        let before: Session = *self;
        self.apply_warp(on, source);
        let changed: bool = self.paced != before.paced;
        let note: Option<String> = before.note_for(self.holds, on, source);
        before.show_warp(fx, *self, on, source);
        if (changed || self.holds != before.holds) && source != WarpSource::Control {
            fx.push(Effect::NotifyWarp(source.label().to_owned()));
        }
        fx.redraw();
        assert(fx@ =~= old(fx)@ + before.warp_effects(on, source));
        WarpOutcome { changed, note }
    }

    /// The keyboard and menu toggle. During a boot phase one press takes the
    /// session back to normal speed.
    pub fn toggle_warp(&mut self, fx: &mut Effects)
        ensures
            ({
                let on = old(self).paced && !old(self).gate_pending();
                &&& *final(self) == (if old(self).capture_run {
                    *old(self)
                } else {
                    old(self).warped(on, WarpSource::Manual)
                })
                &&& final(fx)@ == (if old(self).capture_run {
                    old(fx)@
                } else {
                    old(fx)@ + old(self).warp_effects(on, WarpSource::Manual)
                })
            }),
    {
        let pending: bool = self.launch.is_some() || self.boot.is_some();
        let on: bool = self.paced && !pending;
        self.set_warp(fx, on, WarpSource::Manual);
    }

    /// The session once a boot phase is over: paced again unless a hold keeps
    /// the machine warping.
    pub open spec fn gate_ended(self) -> Session {
        (Session { paced: self.paced || self.holds == WarpHolds::none(), ..self }).settled()
    }

    pub fn end_gate_warp(&mut self, fx: &mut Effects, source: &str)
        ensures
            *final(self) == old(self).gate_ended(),
            final(fx)@ == (if final(self).paced != old(self).paced {
                old(fx)@.push(Effect::NotifyWarp(source@))
            } else {
                old(fx)@
            }),
    {
        let was_paced: bool = self.paced;
        if self.holds.is_empty() {
            self.set_paced(true);
        }
        self.sync_live_audio_suspension();
        if self.paced != was_paced {
            fx.push(Effect::NotifyWarp(source.to_owned()));
        }
    }

    /// A boot phase as it starts on this machine.
    pub open spec fn gate_started(self) -> Gate {
        Gate { started: true, engaged: !self.bridged }
    }

    /// Starts the launch phase, once per session and only on a powered
    /// machine.
    pub fn engage_warp_launch(&mut self, fx: &mut Effects) -> (engaged: bool)
        ensures
            engaged == (old(self).launch matches Some(g) && old(self).powered_on && !g.started),
            *final(self) == (if engaged {
                (Session {
                    paced: old(self).bridged,
                    launch: Some(old(self).gate_started()),
                    ..*old(self)
                }).settled()
            } else {
                *old(self)
            }),
            final(fx)@ == (if engaged && !old(self).bridged {
                old(fx)@.push(Effect::NotifyWarp("launch"@))
            } else {
                old(fx)@
            }),
    {
        let engage: bool = match self.launch {
            Some(g) => self.powered_on && !g.started,
            None => false,
        };
        if !engage {
            return false;
        }
        self.set_paced(false);
        self.launch = Some(Gate { started: true, engaged: !self.paced });
        self.sync_live_audio_suspension();
        if !self.paced {
            fx.push(Effect::NotifyWarp("launch".to_owned()));
        }
        true
    }

    /// Starts the boot phase, under the same terms.
    pub fn engage_warp_boot(&mut self, fx: &mut Effects) -> (engaged: bool)
        ensures
            engaged == (old(self).boot matches Some(g) && old(self).powered_on && !g.started),
            *final(self) == (if engaged {
                (Session {
                    paced: old(self).bridged,
                    boot: Some(old(self).gate_started()),
                    ..*old(self)
                }).settled()
            } else {
                *old(self)
            }),
            final(fx)@ == (if engaged && !old(self).bridged {
                old(fx)@.push(Effect::NotifyWarp("boot"@))
            } else {
                old(fx)@
            }),
    {
        let engage: bool = match self.boot {
            Some(g) => self.powered_on && !g.started,
            None => false,
        };
        if !engage {
            return false;
        }
        self.set_paced(false);
        self.boot = Some(Gate { started: true, engaged: !self.paced });
        self.sync_live_audio_suspension();
        if !self.paced {
            fx.push(Effect::NotifyWarp("boot".to_owned()));
        }
        true
    }

    pub fn finish_warp_launch(&mut self, fx: &mut Effects)
        ensures
            *final(self) == (Session { launch: None, ..*old(self) }).gate_ended(),
            final(fx)@ == (if final(self).paced != old(self).paced {
                old(fx)@.push(Effect::NotifyWarp("launch"@))
            } else {
                old(fx)@
            }),
    {
        self.launch = None;
        self.end_gate_warp(fx, "launch");
    }

    pub fn finish_warp_boot(&mut self, fx: &mut Effects)
        ensures
            *final(self) == (Session { boot: None, ..*old(self) }).gate_ended(),
            final(fx)@ == (if final(self).paced != old(self).paced {
                old(fx)@.push(Effect::NotifyWarp("boot"@))
            } else {
                old(fx)@
            }),
    {
        self.boot = None;
        self.end_gate_warp(fx, "boot");
    }

    /// What a finished launch phase says.
    pub open spec fn launch_words(outcome: LaunchOutcome, target: Seq<char>) -> Seq<char> {
        match outcome {
            LaunchOutcome::Loaded => "Warp launch: "@ + target + " running"@,
            LaunchOutcome::Finished => "Warp launch: "@ + target + " finished"@,
            _ => "Warp launch: "@ + target + " not seen, warp off"@,
        }
    }

    /// One look at the launch phase per retired frame. Returns whether the
    /// phase just ended, so that pacing takes effect at this frame.
    pub fn poll_warp_launch(&mut self, fx: &mut Effects, outcome: LaunchOutcome, target: &str) -> (
    ended: bool)
        ensures
            ended == (old(self).launch matches Some(g) && g.started && outcome !is Waiting),
            *final(self) == (if ended {
                (Session { launch: None, ..*old(self) }).gate_ended()
            } else {
                *old(self)
            }),
            final(fx)@ == (if !ended {
                old(fx)@
            } else if final(self).paced != old(self).paced {
                old(fx)@.push(Effect::NotifyWarp("launch"@)).push(
                    Effect::Osd(Session::launch_words(outcome, target@)),
                )
            } else {
                old(fx)@.push(Effect::Osd(Session::launch_words(outcome, target@)))
            }),
    {
        let started: bool = match self.launch {
            Some(g) => g.started,
            None => false,
        };
        if !started || outcome == LaunchOutcome::Waiting {
            return false;
        }
        self.finish_warp_launch(fx);
        let mut text = "Warp launch: ".to_owned();
        put(&mut text, target);
        match outcome {
            LaunchOutcome::Loaded => put(&mut text, " running"),
            LaunchOutcome::Finished => put(&mut text, " finished"),
            _ => put(&mut text, " not seen, warp off"),
        }
        fx.osd(text.as_str());
        true
    }

    /// What a finished boot phase says.
    pub open spec fn boot_words(outcome: BootOutcome) -> Seq<char> {
        match outcome {
            BootOutcome::Done => "Warp boot: done"@,
            _ => "Warp boot: storage never settled, warp off"@,
        }
    }

    /// One look at the boot phase per retired frame.
    pub fn poll_warp_boot(&mut self, fx: &mut Effects, outcome: BootOutcome) -> (ended: bool)
        ensures
            ended == (old(self).boot matches Some(g) && g.started && outcome !is Waiting),
            *final(self) == (if ended {
                (Session { boot: None, ..*old(self) }).gate_ended()
            } else {
                *old(self)
            }),
            final(fx)@ == (if !ended {
                old(fx)@
            } else if final(self).paced != old(self).paced {
                old(fx)@.push(Effect::NotifyWarp("boot"@)).push(
                    Effect::Osd(Session::boot_words(outcome)),
                )
            } else {
                old(fx)@.push(Effect::Osd(Session::boot_words(outcome)))
            }),
    {
        let started: bool = match self.boot {
            Some(g) => g.started,
            None => false,
        };
        if !started || outcome == BootOutcome::Waiting {
            return false;
        }
        self.finish_warp_boot(fx);
        match outcome {
            BootOutcome::Done => fx.osd("Warp boot: done"),
            _ => fx.osd("Warp boot: storage never settled, warp off"),
        }
        true
    }

    /// The guest's own warp request, if it made one since the last frame.
    /// Returns whether pacing changed.
    pub fn service_guest_warp(&mut self, fx: &mut Effects, request: Option<bool>) -> (changed: bool)
        ensures
            *final(self) == (match request {
                Some(on) => if old(self).capture_run {
                    *old(self)
                } else {
                    old(self).warped(on, WarpSource::Guest)
                },
                None => *old(self),
            }),
            final(fx)@ == (match request {
                Some(on) => if old(self).capture_run {
                    old(fx)@
                } else {
                    old(fx)@ + old(self).warp_effects(on, WarpSource::Guest)
                },
                None => old(fx)@,
            }),
            changed == (final(self).paced != old(self).paced),
    {
        match request {
            Some(on) => self.set_warp(fx, on, WarpSource::Guest).changed,
            None => false,
        }
    }

    pub fn cycle_warp_speed(&mut self, fx: &mut Effects)
        ensures
            *final(self) == (Session {
                warp_speed: old(self).warp_speed.following(),
                ..*old(self)
            }),
            final(fx)@ == old(fx)@.push(
                Effect::Osd(
                    "Warp limit: "@ + final(self).warp_speed.name() + (if old(self).paced {
                        " (warp off)"@
                    } else {
                        Seq::empty()
                    }),
                ),
            ).push(Effect::Redraw),
    {
        self.warp_speed = self.warp_speed.next();
        let mut text = "Warp limit: ".to_owned();
        put(&mut text, self.warp_speed.label());
        if self.paced {
            put(&mut text, " (warp off)");
        }
        assert(text@ =~= "Warp limit: "@ + self.warp_speed.name() + (if self.paced {
            " (warp off)"@
        } else {
            Seq::empty()
        }));
        fx.osd(text.as_str());
        fx.redraw();
    }

    /// Why speculative execution is unsafe now; the first reason that holds.
    pub open spec fn runahead_block(self, f: RunaheadFacts) -> Option<RunaheadBlock> {
        if !self.paced {
            Some(RunaheadBlock::Warp)
        } else if f.time_travel {
            Some(RunaheadBlock::Rewind)
        } else if f.rtg {
            Some(RunaheadBlock::Rtg)
        } else if f.recording {
            Some(RunaheadBlock::Recording)
        } else if f.serial_is_midi {
            Some(RunaheadBlock::Midi)
        } else if !f.serial_safe {
            Some(RunaheadBlock::Serial)
        } else if self.control_attached {
            Some(RunaheadBlock::Control)
        } else if f.debug_block {
            Some(RunaheadBlock::Debug)
        } else if f.coverage_block {
            Some(RunaheadBlock::Coverage)
        } else if self.loaded_state {
            Some(RunaheadBlock::LoadedState)
        } else if f.machine_block {
            Some(RunaheadBlock::Machine)
        } else if f.host_block {
            Some(RunaheadBlock::Host)
        } else {
            None
        }
    }

    pub fn runahead_block_reason(&self, f: RunaheadFacts) -> (r: Option<RunaheadBlock>)
        ensures
            r == self.runahead_block(f),
    {
        if !self.paced {
            return Some(RunaheadBlock::Warp);
        }
        if f.time_travel {
            return Some(RunaheadBlock::Rewind);
        }
        if f.rtg {
            return Some(RunaheadBlock::Rtg);
        }
        if f.recording {
            return Some(RunaheadBlock::Recording);
        }
        if f.serial_is_midi {
            return Some(RunaheadBlock::Midi);
        }
        if !f.serial_safe {
            return Some(RunaheadBlock::Serial);
        }
        if self.control_attached {
            return Some(RunaheadBlock::Control);
        }
        if f.debug_block {
            return Some(RunaheadBlock::Debug);
        }
        if f.coverage_block {
            return Some(RunaheadBlock::Coverage);
        }
        if self.loaded_state {
            return Some(RunaheadBlock::LoadedState);
        }
        if f.machine_block {
            return Some(RunaheadBlock::Machine);
        }
        if f.host_block {
            return Some(RunaheadBlock::Host);
        }
        None
    }

    pub open spec fn runahead_now(self, f: RunaheadFacts) -> u8 {
        if self.powered_on && !self.cpu_halted && !self.paused && self.runahead_block(f) is None {
            self.run_ahead_frames
        } else {
            0
        }
    }

    /// The run-ahead level in effect: the configured one, or zero while the
    /// machine is stopped or something blocks it.
    pub fn runahead_effective_frames(&self, f: RunaheadFacts) -> (r: u8)
        ensures
            r == self.runahead_now(f),
    {
        if self.run_ahead_frames == 0 || !self.powered_on || self.cpu_halted || self.paused
            || self.runahead_block_reason(f).is_some() {
            return 0;
        }
        self.run_ahead_frames
    }

    /// Run-ahead after the committed state was restored, or could not be:
    /// `anchor` says whether there was a snapshot and whether it went back.
    pub fn restore_runahead_anchor(
        &mut self,
        anchor: Option<bool>,
        burst_complete: bool,
        speculated: bool,
    )
        ensures
            *final(self) == (Session {
                run_ahead_frames: if !speculated || (anchor == Some(true) && burst_complete) {
                    old(self).run_ahead_frames
                } else {
                    0
                },
                ..*old(self)
            }),
    {
        if !speculated {
            return;
        }
        let restored: bool = match anchor {
            Some(ok) => ok,
            None => false,
        };
        if !restored || !burst_complete {
            self.run_ahead_frames = 0;
        }
    }

    /// How many frames to retire per presented frame, and the time that
    /// bounds the burst. Frame skip applies to warp only.
    pub open spec fn burst_plan(self, headless: bool) -> (usize, Option<u64>) {
        if self.paced || headless {
            (1, None)
        } else {
            match self.warp_speed {
                WarpSpeed::X2 => (2, None),
                WarpSpeed::X4 => (4, None),
                WarpSpeed::X8 => (8, None),
                WarpSpeed::X16 => (16, None),
                WarpSpeed::Max => (self.max_frame_cap, Some(self.max_budget_ms)),
            }
        }
    }

    pub fn warp_burst_plan(&self, headless: bool) -> (r: (usize, Option<u64>))
        ensures
            r == self.burst_plan(headless),
    {
        if self.paced || headless {
            return (1, None);
        }
        match self.warp_speed {
            WarpSpeed::X2 => (2, None),
            WarpSpeed::X4 => (4, None),
            WarpSpeed::X8 => (8, None),
            WarpSpeed::X16 => (16, None),
            WarpSpeed::Max => (self.max_frame_cap, Some(self.max_budget_ms)),
        }
    }

    /// Combines warp's frame skip with run-ahead: run-ahead applies only to a
    /// burst of one committed frame, and adds to it.
    pub fn burst_frames(&self, headless: bool, f: RunaheadFacts) -> (r: (usize, u8, Option<u64>))
        ensures
            ({
                let (cap, budget) = self.burst_plan(headless);
                &&& r.1 == (if cap == 1 && budget is None && !headless {
                    self.runahead_now(f)
                } else {
                    0
                })
                &&& r.0 == cap + r.1
                &&& r.2 == budget
            }),
    {
        let (cap, budget): (usize, Option<u64>) = self.warp_burst_plan(headless);
        let runahead: u8 = if cap == 1 && budget.is_none() && !headless {
            self.runahead_effective_frames(f)
        } else {
            0
        };
        (cap + runahead as usize, runahead, budget)
    }
}

/// A holder's release leaves the machine warping for whoever else holds it,
/// and the last release paces it.
pub proof fn lemma_last_release_paces(s: Session, a: WarpSource, b: WarpSource)
    requires
        a !is Manual,
        b !is Manual,
        a != b,
        !s.paced,
    ensures
        s.holds.has(b) ==> !s.warped(false, a).paced && s.warped(false, a).holds.has(b)
            && s.warped(false, a).audio_suspended,
        s.holds == WarpHolds::none().with(a) ==> s.warped(false, a).paced,
{
}

/// The manual toggle ends every warp: no hold and no boot phase is left, and
/// the machine is paced; and a paced machine is never muted on warp's account.
pub proof fn lemma_manual_off_is_complete(s: Session)
    ensures
        ({
            let t = s.warped(false, WarpSource::Manual);
            &&& t.paced
            &&& t.holds == WarpHolds::none()
            &&& !t.gate_pending()
            &&& t.audio_suspended == (!s.powered_on || s.cpu_halted || s.paused || s.catching_up)
        }),
{
}

/// No boot phase ends a hold's warp: while somebody holds warp on, the end of
/// a phase leaves the machine as unpaced as it was.
pub proof fn lemma_gate_end_respects_holds(s: Session)
    requires
        s.holds != WarpHolds::none(),
    ensures
        s.gate_ended().paced == s.paced,
        s.gate_ended().holds == s.holds,
        s.gate_ended().audio_suspended,
{
}

/// Run-ahead and warp never meet: frames are run ahead only on a paced machine
/// that runs, and while frames are skipped none is run ahead.
pub proof fn lemma_runahead_needs_a_paced_machine(s: Session, f: RunaheadFacts, headless: bool)
    ensures
        s.runahead_now(f) > 0 ==> s.paced && s.powered_on && !s.paused && !s.cpu_halted,
        s.runahead_now(f) > 0 ==> s.burst_plan(headless) == (1usize, None::<u64>),
        s.burst_plan(true) == (1usize, None::<u64>),
{
}

/// A bridged drive keeps its machine paced whatever is asked.
pub proof fn lemma_bridged_stays_paced(s: Session, on: bool, source: WarpSource)
    requires
        s.bridged,
        s.paced,
    ensures
        s.warped(on, source).paced,
        s.gate_ended().paced,
        s.holds == WarpHolds::none() ==> s.warped(on, source).holds == WarpHolds::none(),
{
}

} // verus!
