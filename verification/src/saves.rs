//! Saved states, swapped ROMs and screenshots: what the session becomes once
//! the host has written or read the file, and what the user is told.

use vstd::prelude::*;

use crate::app::App;
use crate::effects::Effect;
use crate::effects::Effects;
use crate::number::dec;
use crate::number::put_dec;
use crate::session::Session;
use crate::text::chars_of;
use crate::text::put;
use crate::text::starts;
use crate::text::starts_with;
use crate::text::texts;
use crate::ui::Panel;
use crate::ui::Ui;

verus! {

/// What loading a state came to: the machine that it is of, and whether the
/// host had to be made over to match it.
#[derive(PartialEq, Eq, Debug)]
pub struct Loaded {
    pub summary: String,
    pub reconfigured: bool,
}

impl Session {
    /// The session on the timeline of a restored state.
    pub open spec fn restored(self) -> Session {
        Session { powered_on: true, cpu_halted: false, loaded_state: true, ..self }
    }

    /// The session of a machine whose ROM was swapped and which started cold.
    pub open spec fn refitted(self) -> Session {
        Session { powered_on: true, cpu_halted: false, ..self }
    }
}

pub open spec fn launcher_up(ui: &Ui) -> bool {
    ui.panel matches Some(Panel::Launcher(_))
}

/// A state is loaded over the machine that hosts the configuration screen,
/// which has no sound of its own.
pub open spec fn over_placeholder(s: Session, ui: &Ui, null_sink: bool) -> bool {
    !s.powered_on && launcher_up(ui) && null_sink
}

pub open spec fn slot_line(slot: u64, rest: Seq<char>) -> Seq<char> {
    "Slot "@ + dec(slot as int) + rest
}

pub open spec fn load_line(name: Seq<char>, l: Loaded) -> Seq<char> {
    if l.reconfigured {
        "Loaded "@ + name + " (reconfigured to "@ + l.summary@ + ")"@
    } else {
        "Loaded "@ + name
    }
}

/// What a load that worked asks of the host.
pub open spec fn load_effects(name: Seq<char>, l: Loaded, install: bool) -> Seq<Effect<Seq<char>>> {
    seq![Effect::ResetRender] + (if install {
        seq![Effect::InstallAudio]
    } else {
        Seq::empty()
    }) + (if l.reconfigured {
        seq![Effect::DropPlaylists]
    } else {
        Seq::empty()
    }) + seq![Effect::Osd(load_line(name, l)), Effect::Redraw]
}

/// A state was loaded, or the running machine is untouched.
pub open spec fn state_loaded(o: &App, n: &App, name: Seq<char>, done: Option<Loaded>, null_sink: bool) -> bool {
    match done {
        Some(l) => {
            &&& *n == (App {
                fx: n.fx,
                session: o.session.restored(),
                ui: Ui {
                    panel: if launcher_up(&o.ui) {
                        None
                    } else {
                        o.ui.panel
                    },
                    ..o.ui
                },
                ..*o
            })
            &&& n.fx@ == o.fx@ + load_effects(
                name,
                l,
                over_placeholder(o.session, &o.ui, null_sink),
            )
        },
        None => {
            &&& *n == (App { fx: n.fx, ..*o })
            &&& n.fx@ == o.fx@ + seq![Effect::Osd("State load failed (see log)"@)]
        },
    }
}

/// The state of a numbered slot was loaded, or was not, and the time that it
/// took is not made up for.
pub open spec fn slot_loaded(
    o: &App,
    n: &App,
    slot: u64,
    name: Seq<char>,
    done: Option<Loaded>,
    null_sink: bool,
) -> bool {
    exists|mid: App| #[trigger]
        state_loaded(o, &mid, name, done, null_sink) && resumed_after(
            &mid,
            n,
            if done is Some {
                seq![Effect::Osd(slot_line(slot, " loaded"@))]
            } else {
                Seq::empty()
            },
        )
}

/// After something slow on the host: the messages, a clock that starts over,
/// and sound as the session wants it.
pub open spec fn resumed_after(o: &App, n: &App, said: Seq<Effect<Seq<char>>>) -> bool {
    &&& *n == (App { fx: n.fx, session: o.session.settled(), ..*o })
    &&& n.fx@ == o.fx@ + said + seq![Effect::ReanchorClock]
}

fn slot_text(slot: u64, rest: &str) -> (r: String)
    ensures
        r@ == slot_line(slot, rest@),
{
    let mut text: String = "Slot ".to_owned();
    put_dec(&mut text, slot);
    put(&mut text, rest);
    text
}

fn load_text(name: &str, l: &Loaded) -> (r: String)
    ensures
        r@ == load_line(name@, *l),
{
    let mut text: String = "Loaded ".to_owned();
    put(&mut text, name);
    if l.reconfigured {
        put(&mut text, " (reconfigured to ");
        put(&mut text, l.summary.as_str());
        put(&mut text, ")");
    }
    text
}

fn tell_loaded(fx: &mut Effects, name: &str, l: &Loaded, install: bool)
    ensures
        final(fx)@ == old(fx)@ + load_effects(name@, *l, install),
{
    fx.push(Effect::ResetRender);
    if install {
        fx.push(Effect::InstallAudio);
    }
    if l.reconfigured {
        fx.push(Effect::DropPlaylists);
    }
    fx.push(Effect::Osd(load_text(name, l)));
    fx.redraw();
    assert(fx@ =~= old(fx)@ + load_effects(name@, *l, install));
}

impl App {
    fn finish_host_io(&mut self)
        ensures
            resumed_after(old(self), final(self), Seq::empty()),
    {
        self.session.finish_host_io_pause(&mut self.fx);
        assert(self.fx@ =~= old(self).fx@ + Seq::empty() + seq![Effect::ReanchorClock]);
    }

    fn say_and_resume(&mut self, text: &str)
        ensures
            resumed_after(old(self), final(self), seq![Effect::Osd(text@)]),
    {
        self.fx.osd(text);
        self.session.finish_host_io_pause(&mut self.fx);
        assert(self.fx@ =~= old(self).fx@ + seq![Effect::Osd(text@)] + seq![
            Effect::ReanchorClock,
        ]);
    }

    /// Something slow is to happen on the host: a state is written or read, or
    /// a file is picked. The sound stops for as long as it takes.
    pub fn start_host_io(&mut self)
        ensures
            *final(self) == (App {
                session: Session { audio_suspended: true, ..old(self).session },
                ..*old(self)
            }),
    {
        self.session.suspend_live_audio_for_host_io();
    }

    /// A state was written to a named file, or was not.
    pub fn save_state_done(&mut self, name: &str, ok: bool)
        requires
            old(self).wf(),
        ensures
            final(self).wf(),
            resumed_after(
                old(self),
                final(self),
                seq![
                    Effect::Osd(
                        if ok {
                            "Saved "@ + name@
                        } else {
                            "State save failed (see log)"@
                        },
                    ),
                ],
            ),
    {
        if ok {
            let mut text: String = "Saved ".to_owned();
            put(&mut text, name);
            self.say_and_resume(text.as_str());
        } else {
            self.say_and_resume("State save failed (see log)");
        }
    }

    /// A save into a numbered slot is asked for. Says which slot the host is
    /// to write, if any; `dir` says whether there is a directory for slots.
    pub fn quick_save_state(&mut self, slot: u64, dir: bool) -> (write: Option<u64>)
        ensures
            write == (if dir {
                Some(slot)
            } else {
                None::<u64>
            }),
            *final(self) == (App {
                fx: final(self).fx,
                session: final(self).session,
                ..*old(self)
            }),
            final(self).session == (if dir {
                Session { audio_suspended: true, ..old(self).session }
            } else {
                old(self).session
            }),
            final(self).fx@ == (if dir {
                old(self).fx@
            } else {
                old(self).fx@.push(Effect::Osd("No per-user directory for save slots"@))
            }),
    {
        if !dir {
            self.fx.osd("No per-user directory for save slots");
            return None;
        }
        self.session.suspend_live_audio_for_host_io();
        Some(slot)
    }

    pub fn quick_save_done(&mut self, slot: u64, ok: bool)
        requires
            old(self).wf(),
        ensures
            final(self).wf(),
            resumed_after(
                old(self),
                final(self),
                seq![
                    Effect::Osd(
                        slot_line(
                            slot,
                            if ok {
                                " saved"@
                            } else {
                                " save failed (see log)"@
                            },
                        ),
                    ),
                ],
            ),
    {
        if ok {
            let text: String = slot_text(slot, " saved");
            self.say_and_resume(text.as_str());
        } else {
            let text: String = slot_text(slot, " save failed (see log)");
            self.say_and_resume(text.as_str());
        }
    }

    /// A state is about to be read over the machine. The keys held on the
    /// on-screen keyboard are let go against the machine that is still here:
    /// the restored one never saw them pressed.
    pub fn load_state_from_path(&mut self)
        ensures
            *final(self) == (App { fx: final(self).fx, ..*old(self) }),
            final(self).fx@ == old(self).fx@.push(Effect::ReleaseKeyboardHolds),
    {
        self.fx.push(Effect::ReleaseKeyboardHolds);
    }

    /// A numbered slot is to be restored. An empty slot is no error. The keys
    /// held on the on-screen keyboard are let go against the machine that is
    /// still here.
    pub fn quick_load_state(&mut self, slot: u64, dir: bool, exists: bool) -> (read: bool)
        ensures
            read == (dir && exists),
            *final(self) == (App {
                fx: final(self).fx,
                session: final(self).session,
                ..*old(self)
            }),
            final(self).session == (if read {
                Session { audio_suspended: true, ..old(self).session }
            } else {
                old(self).session
            }),
            final(self).fx@ == old(self).fx@.push(
                if !dir {
                    Effect::Osd("No per-user directory for save slots"@)
                } else if !exists {
                    Effect::Osd(slot_line(slot, " is empty"@))
                } else {
                    Effect::ReleaseKeyboardHolds
                },
            ),
    {
        if !dir {
            self.fx.osd("No per-user directory for save slots");
            return false;
        }
        if !exists {
            let text: String = slot_text(slot, " is empty");
            self.fx.osd(text.as_str());
            return false;
        }
        self.session.suspend_live_audio_for_host_io();
        self.load_state_from_path();
        true
    }

    /// The session and the interface over a restored state; says whether it
    /// was loaded over the machine of the configuration screen.
    fn take_over(&mut self, null_sink: bool) -> (install: bool)
        requires
            old(self).wf(),
        ensures
            final(self).wf(),
            install == over_placeholder(old(self).session, &old(self).ui, null_sink),
            *final(self) == (App {
                session: old(self).session.restored(),
                ui: Ui {
                    panel: if launcher_up(&old(self).ui) {
                        None
                    } else {
                        old(self).ui.panel
                    },
                    ..old(self).ui
                },
                ..*old(self)
            }),
    {
        let launcher: bool = match &self.ui.panel {
            Some(Panel::Launcher(_)) => true,
            _ => false,
        };
        let install: bool = !self.session.powered_on && launcher && null_sink;
        self.session.powered_on = true;
        self.session.cpu_halted = false;
        self.session.loaded_state = true;
        if launcher {
            self.ui.panel = None;
        }
        install
    }

    /// The host restored a state, or left the machine as it was; `null_sink`
    /// says that the machine had no sound. Says whether it was restored.
    pub fn load_state_done(&mut self, name: &str, done: &Option<Loaded>, null_sink: bool) -> (
    loaded: bool)
        requires
            old(self).wf(),
        ensures
            final(self).wf(),
            loaded == (*done is Some),
            state_loaded(old(self), final(self), name@, *done, null_sink),
    {
        match done {
            Some(l) => {
                let install: bool = self.take_over(null_sink);
                tell_loaded(&mut self.fx, name, l, install);
                true
            },
            None => {
                self.fx.osd("State load failed (see log)");
                assert(self.fx@ =~= old(self).fx@ + seq![
                    Effect::Osd("State load failed (see log)"@),
                ]);
                false
            },
        }
    }

    pub fn quick_load_done(
        &mut self,
        slot: u64,
        name: &str,
        done: &Option<Loaded>,
        null_sink: bool,
    ) -> (loaded: bool)
        requires
            old(self).wf(),
        ensures
            final(self).wf(),
            loaded == (*done is Some),
            slot_loaded(old(self), final(self), slot, name@, *done, null_sink),
    {
        let loaded: bool = self.load_state_done(name, done, null_sink);
        let ghost mid = *self;
        assert(state_loaded(old(self), &mid, name@, *done, null_sink));
        if loaded {
            let text: String = slot_text(slot, " loaded");
            self.say_and_resume(text.as_str());
        } else {
            self.finish_host_io();
        }
        loaded
    }

    /// The file dialog for a state closed: with a state loaded, after
    /// `load_state_from_path`, from the file that was picked, or with nothing
    /// picked.
    pub fn load_dialog_done(&mut self, picked: Option<(&str, &Option<Loaded>, bool)>) -> (
    loaded: bool)
        requires
            old(self).wf(),
        ensures
            final(self).wf(),
            loaded == (picked matches Some((_, done, _)) && *done is Some),
            exists|mid: App| #[trigger]
                resumed_after(&mid, final(self), Seq::empty()) && match picked {
                    Some((name, done, null_sink)) => state_loaded(
                        old(self),
                        &mid,
                        name@,
                        *done,
                        null_sink,
                    ),
                    None => mid == *old(self),
                },
    {
        let mut loaded: bool = false;
        match picked {
            Some((name, done, null_sink)) => {
                loaded = self.load_state_done(name, done, null_sink);
            },
            None => {},
        }
        let ghost mid = *self;
        self.finish_host_io();
        assert(resumed_after(&mid, self, Seq::empty()));
        loaded
    }

    /// The machine has a live output again, or goes on without sound.
    pub fn audio_installed(&mut self, ok: bool)
        ensures
            *final(self) == (App {
                session: if ok {
                    old(self).session.settled()
                } else {
                    old(self).session
                },
                ..*old(self)
            }),
    {
        if ok {
            self.session.sync_live_audio_suspension();
        }
    }

    /// The output device was lost and the default one was opened, or none
    /// could be.
    pub fn audio_recovered(&mut self, ok: bool)
        ensures
            *final(self) == (App {
                fx: final(self).fx,
                session: if ok {
                    old(self).session.settled()
                } else {
                    old(self).session
                },
                ..*old(self)
            }),
            final(self).fx@ == (if ok {
                old(self).fx@.push(Effect::Osd("Audio device lost! Switched to Default"@))
            } else {
                old(self).fx@
            }),
    {
        if ok {
            self.session.sync_live_audio_suspension();
            self.fx.osd("Audio device lost! Switched to Default");
        }
    }

    /// A screenshot was written. The message is painted after the picture was
    /// taken, so it is never in it.
    pub fn screenshot_saved(&mut self, name: &str)
        ensures
            *final(self) == (App { fx: final(self).fx, ..*old(self) }),
            final(self).fx@ == old(self).fx@.push(Effect::Osd("Saved "@ + name@)),
    {
        let mut text: String = "Saved ".to_owned();
        put(&mut text, name);
        self.fx.osd(text.as_str());
    }

    /// Another ROM was fitted, and perhaps an extended one with it, or the
    /// machine keeps its own.
    pub fn rom_load_done(&mut self, about: &mut Vec<String>, fitted: Option<(&str, Option<&str>)>)
        requires
            old(self).wf(),
        ensures
            final(self).wf(),
            ({
                let mid = App {
                    session: if fitted is Some {
                        old(self).session.refitted()
                    } else {
                        old(self).session
                    },
                    ..*old(self)
                };
                match fitted {
                    Some((rom, ext)) => {
                        &&& resumed_after(
                            &mid,
                            final(self),
                            seq![Effect::Osd(rom@), Effect::ResetRender, Effect::Redraw],
                        )
                        &&& texts(final(about)@) == fitted_lines(
                            texts(old(about)@),
                            rom@,
                            opt_view(ext),
                        )
                    },
                    None => {
                        &&& resumed_after(
                            &mid,
                            final(self),
                            seq![Effect::Osd("ROM load failed (see log)"@)],
                        )
                        &&& *final(about) == *old(about)
                    },
                }
            }),
    {
        match fitted {
            Some((rom, ext)) => {
                fit_rom(about, rom, ext);
                self.session.powered_on = true;
                self.session.cpu_halted = false;
                self.fx.osd(rom);
                self.fx.push(Effect::ResetRender);
                self.fx.redraw();
                self.session.finish_host_io_pause(&mut self.fx);
                assert(self.fx@ =~= old(self).fx@ + seq![
                    Effect::Osd(rom@),
                    Effect::ResetRender,
                    Effect::Redraw,
                ] + seq![Effect::ReanchorClock]);
            },
            None => {
                self.say_and_resume("ROM load failed (see log)");
            },
        }
    }
}

pub open spec fn opt_view(t: Option<&str>) -> Option<Seq<char>> {
    match t {
        Some(s) => Some(s@),
        None => None,
    }
}

/// The index of the first line that begins so, or the number of lines.
pub open spec fn first_with(lines: Seq<Seq<char>>, prefix: Seq<char>) -> int
    decreases lines.len(),
{
    if lines.len() == 0 || starts(lines[0], prefix) {
        0
    } else {
        1 + first_with(lines.skip(1), prefix)
    }
}

/// The lines about the machine once a ROM was swapped: the line of the boot
/// ROM is replaced or added, and that of the extended ROM is replaced, added
/// behind it, or dropped, to match what is fitted.
pub open spec fn fitted_lines(
    lines: Seq<Seq<char>>,
    rom: Seq<char>,
    ext: Option<Seq<char>>,
) -> Seq<Seq<char>> {
    let at = first_with(lines, "ROM: "@);
    let a = if at < lines.len() {
        lines.update(at, rom)
    } else {
        lines.push(rom)
    };
    let e = first_with(a, "Extended ROM: "@);
    let r = first_with(a, "ROM: "@);
    match ext {
        Some(line) => if e < a.len() {
            a.update(e, line)
        } else if r < a.len() {
            a.insert(r + 1, line)
        } else {
            a.push(line)
        },
        None => if e < a.len() {
            a.remove(e)
        } else {
            a
        },
    }
}

fn find_with(lines: &Vec<String>, prefix: &str) -> (r: usize)
    ensures
        r == first_with(texts(lines@), prefix@),
        r <= lines@.len(),
{
    let ghost all = texts(lines@);
    let mut i: usize = 0;
    assert(all.skip(0) =~= all);
    while i < lines.len()
        invariant
            i <= lines@.len(),
            all == texts(lines@),
            first_with(all, prefix@) == i + first_with(all.skip(i as int), prefix@),
        decreases lines@.len() - i,
    {
        let line: Vec<char> = chars_of(lines[i].as_str());
        assert(all.skip(i as int)[0] == line@);
        if starts_with(&line, prefix) {
            assert(starts(line@, prefix@));
            return i;
        }
        assert(!starts(line@, prefix@));
        assert(all.skip(i as int).skip(1) =~= all.skip(i + 1));
        i += 1;
    }
    i
}

fn fit_rom(lines: &mut Vec<String>, rom: &str, ext: Option<&str>)
    ensures
        texts(final(lines)@) == fitted_lines(texts(old(lines)@), rom@, opt_view(ext)),
{
    let ghost before = texts(lines@);
    let at: usize = find_with(lines, "ROM: ");
    if at < lines.len() {
        lines.set(at, rom.to_owned());
        assert(texts(lines@) =~= before.update(at as int, rom@));
    } else {
        lines.push(rom.to_owned());
        assert(texts(lines@) =~= before.push(rom@));
    }
    let ghost a = texts(lines@);
    let e: usize = find_with(lines, "Extended ROM: ");
    match ext {
        Some(line) => {
            if e < lines.len() {
                lines.set(e, line.to_owned());
                assert(texts(lines@) =~= a.update(e as int, line@));
            } else {
                let r: usize = find_with(lines, "ROM: ");
                if r < lines.len() {
                    lines.insert(r + 1, line.to_owned());
                    assert(texts(lines@) =~= a.insert(r + 1, line@));
                } else {
                    lines.push(line.to_owned());
                    assert(texts(lines@) =~= a.push(line@));
                }
            }
        },
        None => {
            if e < lines.len() {
                lines.remove(e);
                assert(texts(lines@) =~= a.remove(e as int));
            }
        },
    }
}

/// What is said about the machine names the ROMs that were just fitted.
pub proof fn lemma_rom_line_is_current(lines: Seq<Seq<char>>, rom: Seq<char>, ext: Option<Seq<char>>)
    requires
        starts(rom, "ROM: "@),
    ensures
        fitted_lines(lines, rom, ext).contains(rom),
        ext matches Some(line) ==> fitted_lines(lines, rom, ext).contains(line),
{
    lemma_first_with(lines, "ROM: "@);
    let at = first_with(lines, "ROM: "@);
    let a = if at < lines.len() {
        lines.update(at, rom)
    } else {
        lines.push(rom)
    };
    let k = if at < lines.len() {
        at
    } else {
        lines.len() as int
    };
    assert(a[k] == rom);
    lemma_first_with(a, "Extended ROM: "@);
    lemma_first_with(a, "ROM: "@);
    let e = first_with(a, "Extended ROM: "@);
    let r = first_with(a, "ROM: "@);
    assert(e != k) by {
        if e == k {
            assert(starts(rom, "Extended ROM: "@));
            reveal_strlit("ROM: ");
            reveal_strlit("Extended ROM: ");
            assert(rom.take(5)[0] == 'R');
            assert(rom.take(14)[0] == 'E');
        }
    }
    let out = fitted_lines(lines, rom, ext);
    match ext {
        Some(line) => {
            if e < a.len() {
                assert(out[k] == rom);
                assert(out[e] == line);
            } else if r < a.len() {
                assert(out[r + 1] == line);
                if k <= r {
                    assert(out[k] == rom);
                } else {
                    assert(out[k + 1] == rom);
                }
            } else {
                assert(out[k] == rom);
                assert(out[a.len() as int] == line);
            }
        },
        None => {
            if e < a.len() {
                if k < e {
                    assert(out[k] == rom);
                } else {
                    assert(out[k - 1] == rom);
                }
            } else {
                assert(out[k] == rom);
            }
        },
    }
}

proof fn lemma_first_with(lines: Seq<Seq<char>>, prefix: Seq<char>)
    ensures
        0 <= first_with(lines, prefix) <= lines.len(),
        first_with(lines, prefix) < lines.len() ==> starts(
            lines[first_with(lines, prefix)],
            prefix,
        ),
    decreases lines.len(),
{
    if lines.len() > 0 && !starts(lines[0], prefix) {
        lemma_first_with(lines.skip(1), prefix);
    }
}

/// A load that failed changes nothing about the machine or its session, and
/// one that worked always leaves it powered and running.
pub proof fn lemma_load_is_all_or_nothing(
    o: App,
    n: App,
    name: Seq<char>,
    done: Option<Loaded>,
    null_sink: bool,
)
    requires
        state_loaded(&o, &n, name, done, null_sink),
    ensures
        done is None ==> n.session == o.session && n.machine == o.machine && n.ui == o.ui,
        done is Some ==> n.session.powered_on && !n.session.cpu_halted && !launcher_up(&n.ui),
{
}

} // verus!
