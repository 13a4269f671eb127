//! The packets of a GDB client, run at frame boundaries: what the window
//! answers itself, and what it does with the replies of the protocol engine.

use vstd::prelude::*;

use crate::app::App;
use crate::breaks::Watch;
use crate::breaks::opt_text;
use crate::effects::Effect;
use crate::gdb::DebugStop;
use crate::gdb::GdbGui;
use crate::gdb::as_console;
use crate::gdb::at_rest;
use crate::gdb::is_bartman;
use crate::gdb::is_pending;
use crate::gdb::plain_stop;
use crate::gdb::resume_effects;
use crate::gdb::same_core;
use crate::gdb::same_requests;
use crate::gdb::same_terms;
use crate::gdb::stop_reply;
use crate::gdb::stop_view;
use crate::gdb::told_of_stop;
use crate::gdb_breaks::GdbCore;
use crate::gdb_breaks::carried;
use crate::gdb_breaks::clone_text;
use crate::gdb_breaks::contains_u16;
use crate::gdb_breaks::sync_notes;
use crate::gdb_breaks::synced;
use crate::gdb_breaks::withdrawn;
use crate::gdb_wire::decode_qrcmd;
use crate::gdb_wire::qrcmd;
use crate::gdb_wire::repositions;
use crate::gdb_wire::repositions_machine;
use crate::lexicon::Lexicon;
use crate::machine::rebaselined;
use crate::memory::Memory;
use crate::number::hex;
use crate::number::put_hex;
use crate::session::Session;
use crate::text::chars_of;
use crate::text::put;
use crate::text::put_chars;
use crate::text::spells;
use crate::text::lines_of;
use crate::text::split_lines;
use crate::text::split_words;
use crate::text::texts;
use crate::text::views;
use crate::text::words;
use crate::warp::WarpHolds;
use crate::warp::WarpSource;

verus! {

/// Everything the session installed is gone, and the connection waits for
/// nothing.
pub open spec fn let_go(o: &App, n: &App) -> bool {
    match (o.gdb, n.gdb) {
        (Some(g), Some(h)) => {
            &&& withdrawn(&g.breaks, &o.machine.breaks, &n.machine.breaks)
            &&& h.breaks.is_empty()
            &&& !h.pending
            &&& same_terms(&g, &h)
        },
        (None, None) => n.machine == o.machine,
        _ => false,
    }
}

/// The session once the client's own warp hold is released.
pub open spec fn unheld(s: Session) -> Session {
    if s.holds.gdb && !s.capture_run {
        s.warped(false, WarpSource::Gdb)
    } else {
        s
    }
}

pub open spec fn unheld_effects(s: Session) -> Seq<Effect<Seq<char>>> {
    if s.holds.gdb && !s.capture_run {
        s.warp_effects(false, WarpSource::Gdb)
    } else {
        Seq::empty()
    }
}

/// The session's traces are off the machine, and the user was told why.
pub open spec fn detached(o: &App, n: &App, why: Seq<char>) -> bool {
    &&& n.gdb_frame(o)
    &&& n.last_debug_stop == o.last_debug_stop
    &&& let_go(o, n)
    &&& match o.gdb {
        Some(g) => {
            &&& n.gdb.unwrap().core == g.core
            &&& n.session == unheld(o.session)
            &&& n.fx@ == o.fx@ + unheld_effects(o.session) + seq![Effect::Osd(why), Effect::Redraw]
        },
        None => *n == *o,
    }
}

/// A client is attached: the session starts afresh, reverse execution is
/// armed, and the machine has stopped.
pub open spec fn client_attached(o: &App, n: &App) -> bool {
    &&& n.gdb_frame(o)
    &&& n.last_debug_stop == o.last_debug_stop
    &&& let_go(o, n)
    &&& match o.gdb {
        Some(g) => {
            &&& n.gdb.unwrap().core.is_fresh(
                opt_text(g.stop_on_load),
                g.core.bartman,
                g.core.watch_cap,
            )
            &&& n.session == (Session { control_pending: false, ..o.session.stopped() })
            &&& n.fx@ == o.fx@ + seq![
                Effect::ArmTimeTravel {
                    budget_mb: g.reverse_budget_mb,
                    interval_frames: g.reverse_interval_frames,
                },
            ] + resume_effects(
                o.session,
                at_rest(o.gdb),
                "pause"@,
                "paused: gdb client attached"@,
            ) + seq![Effect::Osd("GDB client attached"@), Effect::Redraw]
        },
        None => *n == *o,
    }
}

/// The machine stopped because the client said so.
pub open spec fn interrupted(o: &App, n: &App) -> bool {
    &&& *n == (App {
        fx: n.fx,
        gdb: n.gdb,
        session: n.session,
        last_debug_stop: n.last_debug_stop,
        ..*o
    })
    &&& n.gdb == at_rest(o.gdb)
    &&& n.session == (Session { control_pending: false, ..o.session.stopped() })
    &&& opt_text(n.last_debug_stop) == Some("interrupted by gdb"@)
    &&& n.fx@ == o.fx@ + resume_effects(
        o.session,
        at_rest(o.gdb),
        "pause"@,
        "interrupted by gdb"@,
    ) + (if o.gdb is Some {
        seq![Effect::GdbPacket(plain_stop(o.gdb))]
    } else {
        Seq::empty()
    }) + seq![Effect::Osd("GDB: interrupted"@), Effect::FinishRender, Effect::Redraw]
}

impl App {
    /// A client connected. What a client that vanished left behind comes off,
    /// the session starts afresh, reverse execution is armed, and the machine
    /// stops, as the client expects.
    pub fn gdb_on_connected(&mut self)
        requires
            old(self).wf(),
        ensures
            final(self).wf(),
            client_attached(old(self), final(self)),
    {
        match self.gdb.take() {
            None => {},
            Some(mut g) => {
                g.breaks.remove_all(&mut self.machine.breaks, &self.machine.memory);
                g.pending = false;
                let bartman: bool = g.core.bartman;
                let cap: u64 = g.core.watch_cap;
                g.core = GdbCore::fresh(clone_text(&g.stop_on_load), bartman, cap);
                let budget_mb: u64 = g.reverse_budget_mb;
                let interval_frames: u64 = g.reverse_interval_frames;
                self.gdb = Some(g);
                self.fx.push(Effect::ArmTimeTravel { budget_mb, interval_frames });
                self.session.pause();
                self.complete_remote_resumes("pause", "paused: gdb client attached");
                self.fx.osd("GDB client attached");
                self.fx.redraw();
                assert(self.fx@ =~= old(self).fx@ + seq![
                    Effect::ArmTimeTravel { budget_mb, interval_frames },
                ] + resume_effects(
                    old(self).session,
                    at_rest(old(self).gdb),
                    "pause"@,
                    "paused: gdb client attached"@,
                ) + seq![Effect::Osd("GDB client attached"@), Effect::Redraw]);
            },
        }
    }

    /// Takes the session's traces off the machine: its stops, its continue and
    /// its warp hold. Another holder's warp stays.
    pub fn gdb_detach_cleanup(&mut self, why: &str)
        requires
            old(self).wf(),
        ensures
            final(self).wf(),
            detached(old(self), final(self), why@),
    {
        match self.gdb.take() {
            None => {},
            Some(mut g) => {
                g.pending = false;
                g.breaks.remove_all(&mut self.machine.breaks, &self.machine.memory);
                self.gdb = Some(g);
                if self.session.holds.contains(WarpSource::Gdb) {
                    self.session.set_warp(&mut self.fx, false, WarpSource::Gdb);
                }
                self.fx.osd(why);
                self.fx.redraw();
                assert(self.fx@ =~= old(self).fx@ + unheld_effects(old(self).session) + seq![
                    Effect::Osd(why@),
                    Effect::Redraw,
                ]);
            },
        }
    }

    /// Drops an outstanding continue without answering it.
    fn gdb_call_off(&mut self)
        requires
            old(self).wf(),
        ensures
            final(self).wf(),
            *final(self) == (App { gdb: at_rest(old(self).gdb), ..*old(self) }),
    {
        match self.gdb.take() {
            Some(mut g) => {
                g.pending = false;
                self.gdb = Some(g);
            },
            None => {},
        }
    }

    /// The client interrupts the machine. It is answered with a stop whether
    /// or not a continue was outstanding, and answered once.
    pub fn gdb_on_interrupt(&mut self)
        requires
            old(self).wf(),
        ensures
            final(self).wf(),
            *final(self) == (App {
                fx: final(self).fx,
                gdb: final(self).gdb,
                session: final(self).session,
                last_debug_stop: final(self).last_debug_stop,
                ..*old(self)
            }),
            final(self).gdb == at_rest(old(self).gdb),
            final(self).session == (Session {
                control_pending: false,
                ..old(self).session.stopped()
            }),
            opt_text(final(self).last_debug_stop) == Some("interrupted by gdb"@),
            final(self).fx@ == old(self).fx@ + resume_effects(
                old(self).session,
                at_rest(old(self).gdb),
                "pause"@,
                "interrupted by gdb"@,
            ) + (if old(self).gdb is Some {
                seq![Effect::GdbPacket(plain_stop(old(self).gdb))]
            } else {
                Seq::empty()
            }) + seq![Effect::Osd("GDB: interrupted"@), Effect::FinishRender, Effect::Redraw],
    {
        self.gdb_call_off();
        self.session.pause();
        self.complete_remote_resumes("pause", "interrupted by gdb");
        let ghost answered = self.fx@;
        assert(self.gdb == at_rest(old(self).gdb));
        let ghost stopped = (if old(self).gdb is Some {
            seq![Effect::GdbPacket(plain_stop(old(self).gdb))]
        } else {
            Seq::empty()
        });
        let stop: &'static str = self.gdb_plain_stop();
        self.gdb_send_packet(stop);
        assert(self.fx@ =~= answered + stopped);
        self.last_debug_stop = Some("interrupted by gdb".to_owned());
        self.fx.osd("GDB: interrupted");
        self.fx.push(Effect::FinishRender);
        self.fx.redraw();
        assert(self.fx@ =~= answered + stopped + seq![
            Effect::Osd("GDB: interrupted"@),
            Effect::FinishRender,
            Effect::Redraw,
        ]);
    }
}

/// A monitor command that the window answers itself.
#[derive(PartialEq, Eq, Debug)]
pub enum Monitor<T> {
    WarpOn,
    WarpOff,
    WarpStatus,
    WarpUsage,
    WatchReg { off: u16, watch: bool },
    UnknownReg(T),
    RegUsage(T),
    ClearRegs,
    /// For the protocol engine.
    Pass,
}

pub open spec fn monitor_view(m: Monitor<Vec<char>>) -> Monitor<Seq<char>> {
    match m {
        Monitor::WarpOn => Monitor::WarpOn,
        Monitor::WarpOff => Monitor::WarpOff,
        Monitor::WarpStatus => Monitor::WarpStatus,
        Monitor::WarpUsage => Monitor::WarpUsage,
        Monitor::WatchReg { off, watch } => Monitor::WatchReg { off, watch },
        Monitor::UnknownReg(t) => Monitor::UnknownReg(t@),
        Monitor::RegUsage(t) => Monitor::RegUsage(t@),
        Monitor::ClearRegs => Monitor::ClearRegs,
        Monitor::Pass => Monitor::Pass,
    }
}

/// What a monitor command asks for.
pub open spec fn monitor_of(command: Seq<char>, lex: &Lexicon) -> Monitor<Seq<char>> {
    let w = words(command);
    if w.len() == 0 {
        Monitor::Pass
    } else if w[0] == "warp"@ {
        if w.len() == 1 || w[1] == "status"@ {
            Monitor::WarpStatus
        } else if w[1] == "on"@ {
            Monitor::WarpOn
        } else if w[1] == "off"@ {
            Monitor::WarpOff
        } else {
            Monitor::WarpUsage
        }
    } else if w[0] == "watch-reg"@ || w[0] == "unwatch-reg"@ {
        if w.len() == 1 {
            Monitor::RegUsage(w[0])
        } else {
            match lex.register(w[1]) {
                Some(off) => Monitor::WatchReg { off, watch: w[0] == "watch-reg"@ },
                None => Monitor::UnknownReg(w[1]),
            }
        }
    } else if w[0] == "clear-reg-watches"@ {
        Monitor::ClearRegs
    } else {
        Monitor::Pass
    }
}

pub fn parse_monitor(command: &[char], lex: &Lexicon) -> (r: Monitor<Vec<char>>)
    ensures
        monitor_view(r) == monitor_of(command@, lex),
{
    proof {
        reveal_strlit("status");
        reveal_strlit("on");
        reveal_strlit("off");
        reveal_strlit("warp");
        reveal_strlit("watch-reg");
        reveal_strlit("unwatch-reg");
        reveal_strlit("clear-reg-watches");
    }
    let w = split_words(command);
    assert(w@.len() == words(command@).len());
    assert(forall|i: int| 0 <= i < w@.len() ==> #[trigger] w@[i]@ == words(command@)[i]) by {
        assert forall|i: int| 0 <= i < w@.len() implies #[trigger] w@[i]@ == words(command@)[i] by {
            assert(views(w@)[i] == w@[i]@);
        }
    }
    if w.len() == 0 {
        Monitor::Pass
    } else if spells(&w[0], "warp") {
        if w.len() == 1 || spells(&w[1], "status") {
            Monitor::WarpStatus
        } else if spells(&w[1], "on") {
            Monitor::WarpOn
        } else if spells(&w[1], "off") {
            Monitor::WarpOff
        } else {
            Monitor::WarpUsage
        }
    } else if spells(&w[0], "watch-reg") || spells(&w[0], "unwatch-reg") {
        if w.len() == 1 {
            Monitor::RegUsage(crate::text::copy_chars(&w[0]))
        } else {
            match lex.parse_custom_reg(&w[1]) {
                Some(off) => Monitor::WatchReg { off, watch: spells(&w[0], "watch-reg") },
                None => Monitor::UnknownReg(crate::text::copy_chars(&w[1])),
            }
        }
    } else if spells(&w[0], "clear-reg-watches") {
        Monitor::ClearRegs
    } else {
        Monitor::Pass
    }
}

/// What the client is told.
pub open spec fn monitor_text(m: Monitor<Seq<char>>, s: Session, lex: &Lexicon) -> Option<
    Seq<char>,
> {
    match m {
        Monitor::WarpOn => Some(
            match s.warp_note(true, WarpSource::Gdb) {
                Some(note) => "warp request refused: "@ + note + "\n"@,
                None => "warp on (emulation unpaced)\n"@,
            },
        ),
        Monitor::WarpOff => Some(
            match s.warp_note(false, WarpSource::Gdb) {
                Some(note) => "warp off for gdb; "@ + note + "\n"@,
                None => "warp off (real-time pacing)\n"@,
            },
        ),
        Monitor::WarpStatus => Some(
            "warp "@ + (if s.paced {
                "off (paced)"@
            } else {
                "on (unpaced)"@
            }) + (if s.holds == WarpHolds::none() {
                Seq::empty()
            } else {
                " (held by "@ + s.holds.words() + ")"@
            }) + "\n"@,
        ),
        Monitor::WarpUsage => Some("usage: monitor warp on|off|status\n"@),
        Monitor::RegUsage(cmd) => Some("usage: monitor "@ + cmd + " NAME|OFFSET\n"@),
        Monitor::UnknownReg(name) => Some("unknown custom register "@ + name + "\n"@),
        Monitor::WatchReg { off, watch } => Some(
            (if watch {
                "watching "@
            } else {
                "not watching "@
            }) + lex.register_name(off) + " $"@ + hex(off as int, 3) + "\n"@,
        ),
        Monitor::ClearRegs => Some("cleared custom-register watches\n"@),
        Monitor::Pass => None,
    }
}

/// The register watches that the client asks for, after a command.
pub open spec fn monitor_regs(m: Monitor<Seq<char>>, regs: Seq<u16>) -> Seq<u16> {
    match m {
        Monitor::WatchReg { off, watch } => if watch {
            if regs.contains(off) {
                regs
            } else {
                regs.push(off)
            }
        } else {
            regs.filter(|r: u16| r != off)
        },
        Monitor::ClearRegs => Seq::empty(),
        _ => regs,
    }
}

pub open spec fn monitor_session(m: Monitor<Seq<char>>, s: Session) -> Session {
    if s.capture_run {
        s
    } else {
        match m {
            Monitor::WarpOn => s.warped(true, WarpSource::Gdb),
            Monitor::WarpOff => s.warped(false, WarpSource::Gdb),
            _ => s,
        }
    }
}

pub open spec fn monitor_effects(m: Monitor<Seq<char>>, s: Session) -> Seq<Effect<Seq<char>>> {
    if s.capture_run {
        Seq::empty()
    } else {
        match m {
            Monitor::WarpOn => s.warp_effects(true, WarpSource::Gdb),
            Monitor::WarpOff => s.warp_effects(false, WarpSource::Gdb),
            _ => Seq::empty(),
        }
    }
}

/// The connection asks for these registers, and is otherwise the same.
pub open spec fn watches_regs(a: Option<GdbGui>, b: Option<GdbGui>, regs: Seq<u16>) -> bool {
    match (a, b) {
        (Some(g), Some(h)) => {
            &&& same_requests(&g.core, &h.core)
            &&& h.core.run_stop == g.core.run_stop
            &&& h.core.console == g.core.console
            &&& h.core.reg_watches@ == regs
            &&& h.breaks == g.breaks
            &&& h.pending == g.pending
            &&& same_terms(&g, &h)
        },
        _ => false,
    }
}

fn without_u16(v: &Vec<u16>, x: u16) -> (r: Vec<u16>)
    ensures
        r@ == v@.filter(|y: u16| y != x),
{
    let mut out: Vec<u16> = Vec::new();
    let mut i: usize = 0;
    let ghost keep = |y: u16| y != x;
    assert(v@.take(0).filter(keep) =~= Seq::empty()) by {
        reveal(Seq::filter);
    }
    while i < v.len()
        invariant
            i <= v@.len(),
            keep == (|y: u16| y != x),
            out@ == v@.take(i as int).filter(keep),
        decreases v@.len() - i,
    {
        assert(v@.take(i + 1).drop_last() =~= v@.take(i as int));
        assert(v@.take(i + 1).filter(keep) == (if keep(v@[i as int]) {
            v@.take(i as int).filter(keep).push(v@[i as int])
        } else {
            v@.take(i as int).filter(keep)
        })) by {
            reveal(Seq::filter);
        }
        if v[i] != x {
            out.push(v[i]);
        }
        i += 1;
    }
    assert(v@.take(i as int) =~= v@);
    out
}

fn warp_status(s: &Session) -> (r: String)
    ensures
        r@ == "warp "@ + (if s.paced {
            "off (paced)"@
        } else {
            "on (unpaced)"@
        }) + (if s.holds == WarpHolds::none() {
            Seq::empty()
        } else {
            " (held by "@ + s.holds.words() + ")"@
        }) + "\n"@,
{
    let mut out = "warp ".to_owned();
    if s.paced {
        put(&mut out, "off (paced)");
    } else {
        put(&mut out, "on (unpaced)");
    }
    let ghost head = out@;
    if !s.holds.is_empty() {
        put(&mut out, " (held by ");
        let who = s.holds.describe();
        put(&mut out, who.as_str());
        put(&mut out, ")");
        assert(out@ =~= head + (" (held by "@ + s.holds.words() + ")"@));
    } else {
        assert(out@ =~= head + Seq::empty());
    }
    put(&mut out, "\n");
    out
}

fn reg_line(lead: &str, lex: &Lexicon, off: u16) -> (r: String)
    ensures
        r@ == lead@ + lex.register_name(off) + " $"@ + hex(off as int, 3) + "\n"@,
{
    let mut out = lead.to_owned();
    let name = lex.custom_reg_name(off);
    put(&mut out, name.as_str());
    put(&mut out, " $");
    put_hex(&mut out, off as u64, 3);
    put(&mut out, "\n");
    out
}

impl App {
    fn gdb_warp(&mut self, on: bool, refused: &str, done: &str) -> (r: String)
        requires
            old(self).wf(),
        ensures
            final(self).wf(),
            *final(self) == (App {
                fx: final(self).fx,
                session: if old(self).session.capture_run {
                    old(self).session
                } else {
                    old(self).session.warped(on, WarpSource::Gdb)
                },
                ..*old(self)
            }),
            final(self).fx@ == old(self).fx@ + (if old(self).session.capture_run {
                Seq::empty()
            } else {
                old(self).session.warp_effects(on, WarpSource::Gdb)
            }),
            r@ == (match old(self).session.warp_note(on, WarpSource::Gdb) {
                Some(note) => refused@ + note + "\n"@,
                None => done@,
            }),
    {
        let outcome = self.session.set_warp(&mut self.fx, on, WarpSource::Gdb);
        assert(old(self).fx@ + Seq::<Effect<Seq<char>>>::empty() =~= old(self).fx@);
        match outcome.note {
            Some(note) => {
                let mut out = refused.to_owned();
                put(&mut out, note.as_str());
                put(&mut out, "\n");
                out
            },
            None => done.to_owned(),
        }
    }

    fn gdb_set_regs(&mut self, regs: Vec<u16>)
        requires
            old(self).wf(),
            old(self).gdb is Some,
        ensures
            final(self).wf(),
            *final(self) == (App { gdb: final(self).gdb, ..*old(self) }),
            watches_regs(old(self).gdb, final(self).gdb, regs@),
    {
        match self.gdb.take() {
            Some(mut g) => {
                g.core.reg_watches = regs;
                self.gdb = Some(g);
            },
            None => {},
        }
    }

    /// The monitor commands that the window answers: warp, whose pacing it
    /// owns, and the register watches, which share the machine's list with the
    /// debugger's own. The text for the client, or nothing where the protocol
    /// engine is to answer.
    pub fn gdb_monitor_intercept(&mut self, command: &[char]) -> (r: Option<String>)
        requires
            old(self).wf(),
            old(self).gdb is Some,
        ensures
            final(self).wf(),
            *final(self) == (App {
                fx: final(self).fx,
                gdb: final(self).gdb,
                session: final(self).session,
                ..*old(self)
            }),
            ({
                let m = monitor_of(command@, &old(self).lexicon);
                &&& opt_text(r) == monitor_text(m, old(self).session, &old(self).lexicon)
                &&& final(self).session == monitor_session(m, old(self).session)
                &&& final(self).fx@ == old(self).fx@ + monitor_effects(m, old(self).session)
                &&& watches_regs(
                    old(self).gdb,
                    final(self).gdb,
                    monitor_regs(m, old(self).gdb.unwrap().core.reg_watches@),
                )
                &&& m is Pass ==> *final(self) == *old(self)
            }),
    {
        let m = parse_monitor(command, &self.lexicon);
        assert(old(self).fx@ + Seq::<Effect<Seq<char>>>::empty() =~= old(self).fx@);
        match m {
            Monitor::Pass => None,
            Monitor::WarpOn => Some(
                self.gdb_warp(true, "warp request refused: ", "warp on (emulation unpaced)\n"),
            ),
            Monitor::WarpOff => Some(
                self.gdb_warp(false, "warp off for gdb; ", "warp off (real-time pacing)\n"),
            ),
            Monitor::WarpStatus => Some(warp_status(&self.session)),
            Monitor::WarpUsage => Some("usage: monitor warp on|off|status\n".to_owned()),
            Monitor::RegUsage(cmd) => {
                let mut out = "usage: monitor ".to_owned();
                put_chars(&mut out, &cmd);
                put(&mut out, " NAME|OFFSET\n");
                Some(out)
            },
            Monitor::UnknownReg(name) => {
                let mut out = "unknown custom register ".to_owned();
                put_chars(&mut out, &name);
                put(&mut out, "\n");
                Some(out)
            },
            Monitor::ClearRegs => {
                self.gdb_set_regs(Vec::new());
                Some("cleared custom-register watches\n".to_owned())
            },
            Monitor::WatchReg { off, watch } => Some(self.gdb_watch_reg(off, watch)),
        }
    }

    fn gdb_watch_reg(&mut self, off: u16, watch: bool) -> (r: String)
        requires
            old(self).wf(),
            old(self).gdb is Some,
        ensures
            final(self).wf(),
            *final(self) == (App { gdb: final(self).gdb, ..*old(self) }),
            Some(r@) == monitor_text(
                Monitor::WatchReg { off, watch },
                old(self).session,
                &old(self).lexicon,
            ),
            watches_regs(
                old(self).gdb,
                final(self).gdb,
                monitor_regs(
                    Monitor::WatchReg { off, watch },
                    old(self).gdb.unwrap().core.reg_watches@,
                ),
            ),
    {
        match self.gdb.take() {
            Some(mut g) => {
                if watch {
                    if !contains_u16(&g.core.reg_watches, off) {
                        g.core.reg_watches.push(off);
                    }
                } else {
                    g.core.reg_watches = without_u16(&g.core.reg_watches, off);
                }
                self.gdb = Some(g);
            },
            None => {},
        }
        if watch {
            reg_line("watching ", &self.lexicon, off)
        } else {
            reg_line("not watching ", &self.lexicon, off)
        }
    }
}

/// What is left to do with a packet.
#[derive(Clone, Copy, PartialEq, Eq, Structural, Debug)]
pub enum PacketStep {
    /// It was answered.
    Answered,
    /// The protocol engine is to handle it.
    Handle,
    /// The machine is to be stepped by one instruction.
    Step,
    /// A profile is to be captured.
    Profile,
}

/// What the protocol engine made of a packet.
#[derive(PartialEq, Eq, Debug)]
pub enum CoreReply<T> {
    Failed,
    Packet(T),
    Step,
    Continue,
    Disconnect,
    Profile,
    Kill,
}

/// The outcome of a profile run: the reason where it failed.
#[derive(PartialEq, Eq, Debug)]
pub enum ProfileOutcome<T> {
    Captured,
    Failed(T),
}

/// How an instruction step ended.
#[derive(PartialEq, Eq, Debug)]
pub enum StepOutcome {
    /// The machine cannot go on.
    Halted,
    Ran(Option<DebugStop<String>>),
}

/// A line of console output is queued for the client.
pub open spec fn told_line(a: Option<GdbGui>, b: Option<GdbGui>, line: Seq<char>) -> bool {
    match (a, b) {
        (Some(g), Some(h)) => {
            &&& same_core(&g.core, &h.core)
            &&& texts(h.core.console@) == texts(g.core.console@).push(line)
            &&& h.breaks == g.breaks
            &&& h.pending == g.pending
            &&& same_terms(&g, &h)
        },
        (None, None) => true,
        _ => false,
    }
}

/// The queued console output has been delivered.
pub open spec fn flushed(a: Option<GdbGui>, b: Option<GdbGui>) -> bool {
    match (a, b) {
        (Some(g), Some(h)) => {
            &&& same_core(&g.core, &h.core)
            &&& h.core.console@.len() == 0
            &&& h.breaks == g.breaks
            &&& h.pending == g.pending
            &&& same_terms(&g, &h)
        },
        (None, None) => true,
        _ => false,
    }
}

pub open spec fn queued(g: Option<GdbGui>) -> Seq<Seq<char>> {
    match g {
        Some(g) => texts(g.core.console@),
        None => Seq::empty(),
    }
}

/// The application between a monitor command and its reply.
pub open spec fn after_monitor(o: &App, mid: &App, m: Monitor<Seq<char>>) -> bool {
    &&& *mid == (App { fx: mid.fx, gdb: mid.gdb, session: mid.session, ..*o })
    &&& mid.session == monitor_session(m, o.session)
    &&& mid.fx@ == o.fx@ + monitor_effects(m, o.session)
    &&& match (o.gdb, mid.gdb) {
        (Some(g), Some(h)) => {
            &&& same_requests(&g.core, &h.core)
            &&& h.core.run_stop == g.core.run_stop
            &&& h.core.reg_watches@ == monitor_regs(m, g.core.reg_watches@)
            &&& texts(h.core.console@) == texts(g.core.console@).push(
                monitor_text(m, o.session, &o.lexicon).unwrap(),
            )
            &&& h.breaks == g.breaks
            &&& h.pending == g.pending
            &&& same_terms(&g, &h)
        },
        _ => false,
    }
}

/// A Bartman client that still waits for its program asks where it stopped.
pub open spec fn bootstraps(packet: Seq<char>, g: Option<GdbGui>) -> bool {
    (packet == "?"@ || packet == "qOffsets"@) && (g matches Some(x) && x.core.bartman
        && x.core.run_stop is Some)
}

/// The monitor command of a packet that the window answers itself.
pub open spec fn own_monitor(packet: Seq<char>, lex: &Lexicon) -> Option<Monitor<Seq<char>>> {
    match qrcmd(packet) {
        Some(c) => if monitor_of(c, lex) is Pass {
            None
        } else {
            Some(monitor_of(c, lex))
        },
        None => None,
    }
}

/// A packet was refused: the reason went to the console, then an error.
pub open spec fn refused(o: &App, n: &App, why: Seq<char>) -> bool {
    &&& *n == (App { fx: n.fx, gdb: n.gdb, ..*o })
    &&& flushed(o.gdb, n.gdb)
    &&& n.fx@ == o.fx@ + as_console(queued(o.gdb).push(why)) + seq![Effect::GdbPacket("E01"@)]
}

pub open spec fn busy_line() -> Seq<char> {
    "machine is running (a control client resume is pending); pause first\n"@
}

/// What becomes of a packet: the window answers what only it can, a packet
/// that would move the machine is refused while a resume is outstanding, and
/// the rest is for the protocol engine.
pub open spec fn packet_taken(o: &App, n: &App, packet: Seq<char>, step: PacketStep) -> bool {
    let own = own_monitor(packet, &o.lexicon);
    let busy = (repositions(packet) || bootstraps(packet, o.gdb)) && (o.session.control_pending
        || is_pending(o.gdb));
    &&& n.gdb_frame(o)
    &&& n.last_debug_stop == o.last_debug_stop
    &&& if packet == "QStartNoAckMode"@ {
        &&& step is Answered
        &&& *n == (App { fx: n.fx, ..*o })
        &&& n.fx@ == o.fx@.push(Effect::GdbPacket("OK"@))
    } else if own is Some {
        &&& step is Answered
        &&& exists|mid: App| #[trigger]
            after_monitor(o, &mid, own.unwrap()) && n.gdb_replied(&mid, "OK"@) && n.session
                == mid.session
    } else if busy {
        &&& step is Answered
        &&& refused(o, n, busy_line())
    } else {
        &&& step is Handle
        &&& *n == *o
    }
}

/// What the server's thread says of its client.
#[derive(PartialEq, Eq, Debug)]
pub enum GdbMsg {
    Connected,
    Disconnected,
    Interrupt,
    Packet(String),
}

/// What a message comes to. Without a server there is nobody to hear.
pub open spec fn message_taken(o: &App, n: &App, m: GdbMsg, step: PacketStep) -> bool {
    if o.gdb is None {
        *n == *o && step is Answered
    } else {
        match m {
            GdbMsg::Connected => step is Answered && client_attached(o, n),
            GdbMsg::Disconnected => step is Answered && detached(o, n, "GDB client detached"@),
            GdbMsg::Interrupt => step is Answered && interrupted(o, n),
            GdbMsg::Packet(p) => packet_taken(o, n, p@, step),
        }
    }
}

/// The messages from `from` up to `to` were taken one after the other; only
/// the last of them left anything to the protocol engine.
pub open spec fn drained(
    o: App,
    n: App,
    msgs: Seq<GdbMsg>,
    from: int,
    to: int,
    step: PacketStep,
) -> bool
    decreases to - from,
{
    if to <= from {
        n == o && step is Answered
    } else {
        exists|mid: App|
            #![trigger message_taken(&mid, &n, msgs[to - 1], step)]
            drained(o, mid, msgs, from, to - 1, PacketStep::Answered) && message_taken(
                &mid,
                &n,
                msgs[to - 1],
                step,
            )
    }
}

impl App {
    /// One message of the server's thread.
    pub fn gdb_on_message(&mut self, msg: &GdbMsg) -> (step: PacketStep)
        requires
            old(self).wf(),
        ensures
            final(self).wf(),
            message_taken(old(self), final(self), *msg, step),
    {
        if self.gdb.is_none() {
            return PacketStep::Answered;
        }
        match msg {
            GdbMsg::Connected => {
                self.gdb_on_connected();
                PacketStep::Answered
            },
            GdbMsg::Disconnected => {
                self.gdb_detach_cleanup("GDB client detached");
                PacketStep::Answered
            },
            GdbMsg::Interrupt => {
                self.gdb_on_interrupt();
                PacketStep::Answered
            },
            GdbMsg::Packet(packet) => self.gdb_on_packet(packet.as_str()),
        }
    }

    /// Takes the messages that wait, from the one at `from` on, and stops
    /// behind the first that the protocol engine is to handle. Says how far it
    /// came, and what is left of the last one.
    pub fn drain_gdb(&mut self, msgs: &Vec<GdbMsg>, from: usize) -> (r: (usize, PacketStep))
        requires
            old(self).wf(),
            from <= msgs@.len(),
        ensures
            final(self).wf(),
            from <= r.0 <= msgs@.len(),
            drained(*old(self), *final(self), msgs@, from as int, r.0 as int, r.1),
            r.1 is Answered ==> r.0 == msgs@.len(),
    {
        let mut i: usize = from;
        while i < msgs.len()
            invariant
                self.wf(),
                from <= i <= msgs@.len(),
                drained(*old(self), *self, msgs@, from as int, i as int, PacketStep::Answered),
            decreases msgs@.len() - i,
        {
            let ghost mid = *self;
            let step = self.gdb_on_message(&msgs[i]);
            i += 1;
            assert(message_taken(&mid, self, msgs@[i - 1], step));
            match step {
                PacketStep::Answered => {},
                _ => {
                    return (i, step);
                },
            }
        }
        (i, PacketStep::Answered)
    }
}

impl App {
    fn gdb_tell(&mut self, line: String)
        requires
            old(self).wf(),
        ensures
            final(self).wf(),
            *final(self) == (App { gdb: final(self).gdb, ..*old(self) }),
            told_line(old(self).gdb, final(self).gdb, line@),
    {
        match self.gdb.take() {
            Some(mut g) => {
                let ghost was = texts(g.core.console@);
                let ghost said = line@;
                g.core.console.push(line);
                assert(texts(g.core.console@) =~= was.push(said));
                self.gdb = Some(g);
            },
            None => {},
        }
    }

    /// Refuses a packet: the reason on the console, then an error.
    fn gdb_refuse(&mut self, why: &str)
        requires
            old(self).wf(),
            old(self).gdb is Some,
        ensures
            final(self).wf(),
            refused(old(self), final(self), why@),
    {
        self.gdb_tell(why.to_owned());
        self.gdb_flush_console();
        self.gdb_send_packet("E01");
        assert(self.fx@ =~= old(self).fx@ + as_console(queued(old(self).gdb).push(why@)) + seq![
            Effect::GdbPacket("E01"@),
        ]);
    }

    fn gdb_answer_monitor(&mut self, command: &[char]) -> (answered: bool)
        requires
            old(self).wf(),
            old(self).gdb is Some,
        ensures
            final(self).wf(),
            answered == !(monitor_of(command@, &old(self).lexicon) is Pass),
            !answered ==> *final(self) == *old(self),
            answered ==> {
                &&& final(self).gdb_frame(old(self))
                &&& final(self).last_debug_stop == old(self).last_debug_stop
                &&& exists|mid: App| #[trigger]
                    after_monitor(old(self), &mid, monitor_of(command@, &old(self).lexicon))
                        && final(self).gdb_replied(&mid, "OK"@) && final(self).session
                        == mid.session
            },
    {
        match self.gdb_monitor_intercept(command) {
            Some(output) => {
                self.gdb_tell(output);
                let ghost mid = *self;
                self.gdb_reply("OK");
                assert(after_monitor(
                    old(self),
                    &mid,
                    monitor_of(command@, &old(self).lexicon),
                ));
                true
            },
            None => false,
        }
    }

    /// A packet of the client. The window answers what only it can; a packet
    /// that would move the machine is refused while a resume is outstanding;
    /// the protocol engine handles the rest.
    pub fn gdb_on_packet(&mut self, packet: &str) -> (step: PacketStep)
        requires
            old(self).wf(),
            old(self).gdb is Some,
        ensures
            final(self).wf(),
            packet_taken(old(self), final(self), packet@, step),
    {
        let chars = chars_of(packet);
        if spells(&chars, "QStartNoAckMode") {
            self.gdb_send_packet("OK");
            return PacketStep::Answered;
        }
        match decode_qrcmd(&chars) {
            Some(command) => {
                if self.gdb_answer_monitor(&command) {
                    proof {
                        let m = monitor_of(command@, &old(self).lexicon);
                        assert(own_monitor(packet@, &old(self).lexicon) == Some(m));
                        let mid = choose|mid: App| #[trigger]
                            after_monitor(old(self), &mid, m) && self.gdb_replied(&mid, "OK"@)
                                && self.session == mid.session;
                        assert(after_monitor(
                            old(self),
                            &mid,
                            own_monitor(packet@, &old(self).lexicon).unwrap(),
                        ));
                    }
                    return PacketStep::Answered;
                }
            },
            None => {},
        }
        let waiting: bool = match &self.gdb {
            Some(g) => g.core.bartman && g.core.run_stop.is_some(),
            None => false,
        };
        let bootstrap: bool = (spells(&chars, "?") || spells(&chars, "qOffsets")) && waiting;
        if (repositions_machine(&chars) || bootstrap) && self.remote_resume_pending() {
            self.gdb_refuse(
                "machine is running (a control client resume is pending); pause first\n",
            );
            return PacketStep::Answered;
        }
        PacketStep::Handle
    }

    /// Whether the engine's continue is first to leave the ROM, in a run of
    /// its own.
    pub fn gdb_leaves_rom(&self, result: &CoreReply<String>) -> (r: bool)
        ensures
            r == (*result is Continue && (self.gdb matches Some(g) && g.core.outside_rom)),
    {
        let outside: bool = match &self.gdb {
            Some(g) => g.core.outside_rom,
            None => false,
        };
        match result {
            CoreReply::Continue => outside,
            _ => false,
        }
    }

    /// What such a run comes to: whether it left the ROM, or nothing where
    /// the machine failed. A run that did is not asked for again.
    pub fn gdb_left_rom(&mut self, left: Option<bool>) -> (r: CoreReply<String>)
        requires
            old(self).wf(),
        ensures
            final(self).wf(),
            *final(self) == (App { gdb: final(self).gdb, ..*old(self) }),
            match (old(self).gdb, final(self).gdb) {
                (Some(g), Some(h)) => {
                    &&& h == (GdbGui {
                        core: GdbCore {
                            outside_rom: g.core.outside_rom && left != Some(true),
                            ..g.core
                        },
                        ..g
                    })
                },
                (None, None) => true,
                _ => false,
            },
            match left {
                Some(true) => r matches CoreReply::Packet(t) && t@ == "S05"@,
                Some(false) => r matches CoreReply::Packet(t) && t@ == "E01"@,
                None => r is Failed,
            },
    {
        match left {
            Some(true) => {
                match self.gdb.take() {
                    Some(mut g) => {
                        g.core.outside_rom = false;
                        self.gdb = Some(g);
                    },
                    None => {},
                }
                CoreReply::Packet("S05".to_owned())
            },
            Some(false) => CoreReply::Packet("E01".to_owned()),
            None => CoreReply::Failed,
        }
    }
}

/// Why a resume of a machine that cannot run is refused.
pub open spec fn cannot_run(powered_on: bool, double_faulted: bool) -> Option<Seq<char>> {
    if !powered_on {
        Some("machine is powered off\n"@)
    } else if double_faulted {
        Some("CPU is double-faulted; reset the machine\n"@)
    } else {
        None
    }
}

/// A memory write came from the client: no watch may fire on it.
pub open spec fn is_write(packet: Seq<char>) -> bool {
    packet.len() > 0 && packet[0] == 'M'
}

pub open spec fn is_reverse(packet: Seq<char>) -> bool {
    packet == "bs"@ || packet == "bc"@
}

/// The machine as the client's packet left it, with its watches on the words
/// they hold now if the packet wrote to memory.
pub open spec fn took_write(o: &App, mid: &App, packet: Seq<char>) -> bool {
    &&& *mid == (App { machine: mid.machine, ..*o })
    &&& mid.machine.same_but_breaks(&o.machine)
    &&& mid.machine.breaks.watches@ == (if is_write(packet) {
        rebaselined(o.machine.breaks.watches@, &o.machine.memory)
    } else {
        o.machine.breaks.watches@
    })
    &&& mid.machine.breaks.words() == o.machine.breaks.words()
    &&& mid.machine.breaks.breakpoints == o.machine.breaks.breakpoints
    &&& mid.machine.breaks.reg_watches == o.machine.breaks.reg_watches
    &&& mid.machine.breaks.catches == o.machine.breaks.catches
    &&& mid.machine.breaks.loadseg_catch == o.machine.breaks.loadseg_catch
    &&& mid.machine.breaks.task_catch == o.machine.breaks.task_catch
}

/// Every watch starts from the word as it is.
pub open spec fn baselined(s: Seq<Watch>, m: &Memory) -> bool {
    forall|i: int| 0 <= i < s.len() ==> (#[trigger] s[i]).last == m.word(s[i].addr)
}

proof fn lemma_baselined(a: Seq<Watch>, b: Seq<Watch>, m: &Memory)
    requires
        baselined(a, m),
        carried(a, b, m),
    ensures
        baselined(b, m),
{
    assert forall|i: int| 0 <= i < b.len() implies (#[trigger] b[i]).last == m.word(b[i].addr) by {
        if a.contains(b[i]) {
            assert(a[a.index_of(b[i])] == b[i]);
        }
    }
}

/// The reply went out, and whatever else belongs to it after it.
pub open spec fn replied_then(
    o: &App,
    n: &App,
    reply: Seq<char>,
    rest: Seq<Effect<Seq<char>>>,
) -> bool {
    exists|mid: App| #[trigger]
        mid.gdb_replied(o, reply) && n.fx@ == mid.fx@ + rest && *n == (App { fx: n.fx, ..mid })
}

/// Nothing but the connection and the requests to the host has changed, and
/// the queued output went out before this.
pub open spec fn said(o: &App, n: &App, rest: Seq<Effect<Seq<char>>>) -> bool {
    &&& *n == (App { fx: n.fx, gdb: n.gdb, ..*o })
    &&& flushed(o.gdb, n.gdb)
    &&& n.fx@ == o.fx@ + as_console(queued(o.gdb)) + rest
}

/// The client's continue is outstanding: its stops are installed, and the
/// machine runs.
pub open spec fn set_running(o: &App, n: &App) -> bool {
    &&& n.gdb_frame(o)
    &&& n.last_debug_stop == o.last_debug_stop
    &&& n.session == o.session.resumed()
    &&& n.fx@ == o.fx@.push(Effect::Redraw)
    &&& match (o.gdb, n.gdb) {
        (Some(g), Some(h)) => {
            &&& h.pending
            &&& synced(
                &g.breaks,
                &o.machine.breaks,
                o.machine.memory.mask,
                &g.core,
                &h.breaks,
                &n.machine.breaks,
            )
            &&& same_core(&g.core, &h.core)
            &&& texts(h.core.console@) == texts(g.core.console@) + sync_notes(&g.core)
            &&& same_terms(&g, &h)
        },
        _ => false,
    }
}

/// A packet's reply is on its way, as the packet asks.
pub open spec fn answered(o: &App, n: &App, packet: Seq<char>, reply: Seq<char>) -> bool {
    &&& n.gdb_frame(o)
    &&& n.session == o.session
    &&& n.last_debug_stop == o.last_debug_stop
    &&& exists|mid: App| #[trigger]
        took_write(o, &mid, packet) && replied_then(
            &mid,
            n,
            reply,
            if is_reverse(packet) {
                seq![Effect::FinishRender, Effect::Redraw]
            } else {
                Seq::empty()
            },
        )
    &&& is_write(packet) ==> baselined(n.machine.breaks.watches@, &o.machine.memory)
}

/// The client detached by its own packet.
pub open spec fn disconnected(o: &App, n: &App) -> bool {
    exists|mid: App| #[trigger]
        said(o, &mid, seq![Effect::GdbPacket("OK"@)]) && detached(&mid, n, "GDB client detached"@)
}

/// The client asked for the machine to be killed, which only detaches it.
pub open spec fn killed(o: &App, n: &App) -> bool {
    exists|mid: App| #[trigger]
        detached(o, &mid, "GDB kill request: detached (window stays open)"@) && *n == (App {
            fx: n.fx,
            ..mid
        }) && n.fx@ == (if o.gdb is Some {
            mid.fx@.push(Effect::GdbDisconnect("kill request"@))
        } else {
            mid.fx@
        })
}

/// The session's stops are off the machine for the length of a profile run.
pub open spec fn stepped_aside(o: &App, n: &App) -> bool {
    &&& n.gdb_frame(o)
    &&& n.session == o.session
    &&& n.last_debug_stop == o.last_debug_stop
    &&& n.fx == o.fx
    &&& match (o.gdb, n.gdb) {
        (Some(g), Some(h)) => {
            &&& withdrawn(&g.breaks, &o.machine.breaks, &n.machine.breaks)
            &&& h.breaks.is_empty()
            &&& h.core == g.core
            &&& h.pending == g.pending
            &&& same_terms(&g, &h)
        },
        _ => false,
    }
}

impl App {
    fn gdb_failed(&mut self)
        requires
            old(self).wf(),
            old(self).gdb is Some,
        ensures
            final(self).wf(),
            said(old(self), final(self), seq![Effect::GdbPacket("E01"@)]),
    {
        self.gdb_flush_console();
        self.gdb_send_packet("E01");
        assert(self.fx@ =~= old(self).fx@ + as_console(queued(old(self).gdb)) + seq![
            Effect::GdbPacket("E01"@),
        ]);
    }

    fn gdb_packet_reply(&mut self, packet: &[char], reply: &str)
        requires
            old(self).wf(),
            old(self).gdb is Some,
        ensures
            final(self).wf(),
            answered(old(self), final(self), packet@, reply@),
    {
        if packet.len() > 0 && packet[0] == 'M' {
            self.machine.rebaseline_watches();
        }
        let ghost mid = *self;
        assert(took_write(old(self), &mid, packet@));
        self.gdb_reply(reply);
        let ghost sent = *self;
        proof {
            if is_write(packet@) {
                lemma_baselined(
                    mid.machine.breaks.watches@,
                    self.machine.breaks.watches@,
                    &old(self).machine.memory,
                );
            }
        }
        if spells(packet, "bs") || spells(packet, "bc") {
            self.fx.push(Effect::FinishRender);
            self.fx.redraw();
            assert(self.fx@ =~= sent.fx@ + seq![Effect::FinishRender, Effect::Redraw]);
        } else {
            assert(self.fx@ =~= sent.fx@ + Seq::empty());
        }
        assert(sent.gdb_replied(&mid, reply@));
    }

    fn gdb_continue(&mut self)
        requires
            old(self).wf(),
            old(self).gdb is Some,
        ensures
            final(self).wf(),
            set_running(old(self), final(self)),
    {
        self.gdb_sync_machine_debug_state();
        match self.gdb.take() {
            Some(mut g) => {
                g.pending = true;
                self.gdb = Some(g);
            },
            None => {},
        }
        self.session.resume();
        self.fx.redraw();
    }

    fn gdb_refuses_resume(&mut self) -> (r: bool)
        requires
            old(self).wf(),
            old(self).gdb is Some,
        ensures
            final(self).wf(),
            match cannot_run(old(self).session.powered_on, old(self).machine.double_faulted) {
                Some(why) => r && refused(old(self), final(self), why),
                None => !r && *final(self) == *old(self),
            },
    {
        if !self.session.powered_on {
            self.gdb_refuse("machine is powered off\n");
            true
        } else if self.machine.double_faulted {
            self.gdb_refuse("CPU is double-faulted; reset the machine\n");
            true
        } else {
            false
        }
    }

    fn gdb_kill(&mut self)
        requires
            old(self).wf(),
        ensures
            final(self).wf(),
            killed(old(self), final(self)),
    {
        self.gdb_detach_cleanup("GDB kill request: detached (window stays open)");
        let ghost mid = *self;
        if self.gdb.is_some() {
            self.fx.push(Effect::GdbDisconnect("kill request".to_owned()));
        }
        assert(detached(
            old(self),
            &mid,
            "GDB kill request: detached (window stays open)"@,
        ));
    }

    fn gdb_disconnect(&mut self)
        requires
            old(self).wf(),
            old(self).gdb is Some,
        ensures
            final(self).wf(),
            disconnected(old(self), final(self)),
    {
        self.gdb_flush_console();
        self.gdb_send_packet("OK");
        let ghost mid = *self;
        assert(mid.fx@ =~= old(self).fx@ + as_console(queued(old(self).gdb)) + seq![
            Effect::GdbPacket("OK"@),
        ]);
        assert(said(old(self), &mid, seq![Effect::GdbPacket("OK"@)]));
        self.gdb_detach_cleanup("GDB client detached");
    }

    fn gdb_step_aside(&mut self)
        requires
            old(self).wf(),
            old(self).gdb is Some,
        ensures
            final(self).wf(),
            stepped_aside(old(self), final(self)),
    {
        match self.gdb.take() {
            Some(mut g) => {
                g.breaks.remove_all(&mut self.machine.breaks, &self.machine.memory);
                self.gdb = Some(g);
            },
            None => {},
        }
    }

    /// Acts on what the protocol engine made of a packet, and says what the
    /// host is still to do. A resume of a machine that cannot run is refused:
    /// its stop would never come.
    pub fn gdb_on_result(&mut self, packet: &str, result: CoreReply<String>) -> (step: PacketStep)
        requires
            old(self).wf(),
            old(self).gdb is Some,
        ensures
            final(self).wf(),
            ({
                let refusal = cannot_run(
                    old(self).session.powered_on,
                    old(self).machine.double_faulted,
                );
                match result {
                    CoreReply::Failed => {
                        &&& step is Answered
                        &&& said(old(self), final(self), seq![Effect::GdbPacket("E01"@)])
                    },
                    CoreReply::Packet(reply) => {
                        &&& step is Answered
                        &&& answered(old(self), final(self), packet@, reply@)
                    },
                    CoreReply::Step => if refusal is Some {
                        step is Answered && refused(old(self), final(self), refusal.unwrap())
                    } else {
                        step is Step && *final(self) == *old(self)
                    },
                    CoreReply::Continue => {
                        &&& step is Answered
                        &&& if refusal is Some {
                            refused(old(self), final(self), refusal.unwrap())
                        } else {
                            set_running(old(self), final(self))
                        }
                    },
                    CoreReply::Disconnect => {
                        &&& step is Answered
                        &&& disconnected(old(self), final(self))
                    },
                    CoreReply::Profile => {
                        &&& step is Profile
                        &&& stepped_aside(old(self), final(self))
                    },
                    CoreReply::Kill => step is Answered && killed(old(self), final(self)),
                }
            }),
    {
        match result {
            CoreReply::Failed => {
                self.gdb_failed();
                PacketStep::Answered
            },
            CoreReply::Packet(reply) => {
                let chars = chars_of(packet);
                self.gdb_packet_reply(&chars, reply.as_str());
                PacketStep::Answered
            },
            CoreReply::Step => if self.gdb_refuses_resume() {
                PacketStep::Answered
            } else {
                PacketStep::Step
            },
            CoreReply::Continue => {
                if !self.gdb_refuses_resume() {
                    self.gdb_continue();
                }
                PacketStep::Answered
            },
            CoreReply::Disconnect => {
                self.gdb_disconnect();
                PacketStep::Answered
            },
            CoreReply::Profile => {
                self.gdb_step_aside();
                PacketStep::Profile
            },
            CoreReply::Kill => {
                self.gdb_kill();
                PacketStep::Answered
            },
        }
    }

    /// A profile run is over: the stops go back in, and the client hears how
    /// it went.
    pub fn gdb_profile_done(&mut self, outcome: &ProfileOutcome<String>)
        requires
            old(self).wf(),
            old(self).gdb is Some,
        ensures
            final(self).wf(),
            final(self).gdb_frame(old(self)),
            final(self).session == old(self).session,
            final(self).last_debug_stop == old(self).last_debug_stop,
            match (old(self).gdb, final(self).gdb) {
                (Some(g), Some(h)) => {
                    &&& synced(
                        &g.breaks,
                        &old(self).machine.breaks,
                        old(self).machine.memory.mask,
                        &g.core,
                        &h.breaks,
                        &final(self).machine.breaks,
                    )
                    &&& same_core(&g.core, &h.core)
                    &&& texts(h.core.console@) == texts(g.core.console@) + sync_notes(&g.core)
                    &&& h.pending == g.pending
                    &&& same_terms(&g, &h)
                },
                _ => false,
            },
            final(self).fx@ == old(self).fx@ + (match *outcome {
                ProfileOutcome::Captured => seq![Effect::GdbPacket("OK"@)],
                ProfileOutcome::Failed(error) => seq![
                    Effect::GdbConsole("DBG: "@ + error@ + "\n"@),
                    Effect::GdbPacket("E01"@),
                ],
            }) + seq![Effect::FinishRender, Effect::Redraw],
    {
        let mut reply: &'static str = "OK";
        match outcome {
            ProfileOutcome::Captured => {},
            ProfileOutcome::Failed(error) => {
                let mut line = "DBG: ".to_owned();
                put(&mut line, error.as_str());
                put(&mut line, "\n");
                self.fx.push(Effect::GdbConsole(line));
                reply = "E01";
            },
        }
        self.gdb_sync_machine_debug_state();
        self.gdb_send_packet(reply);
        self.fx.push(Effect::FinishRender);
        self.fx.redraw();
        assert(self.fx@ =~= old(self).fx@ + (match *outcome {
            ProfileOutcome::Captured => seq![Effect::GdbPacket("OK"@)],
            ProfileOutcome::Failed(error) => seq![
                Effect::GdbConsole("DBG: "@ + error@ + "\n"@),
                Effect::GdbPacket("E01"@),
            ],
        }) + seq![Effect::FinishRender, Effect::Redraw]);
    }

    /// Before a step for the client: a machine that runs is paused first, and
    /// a resume that was running it ends.
    pub fn gdb_step_begin(&mut self)
        requires
            old(self).wf(),
        ensures
            final(self).wf(),
            old(self).session.paused ==> *final(self) == *old(self),
            !old(self).session.paused ==> {
                &&& *final(self) == (App {
                    fx: final(self).fx,
                    gdb: final(self).gdb,
                    session: Session { control_pending: false, ..old(self).session.stopped() },
                    ..*old(self)
                })
                &&& final(self).gdb == at_rest(old(self).gdb)
                &&& final(self).fx@ == old(self).fx@ + resume_effects(
                    old(self).session,
                    old(self).gdb,
                    "pause"@,
                    "paused for a gdb step"@,
                )
            },
    {
        if !self.session.paused {
            self.session.pause();
            self.complete_remote_resumes("pause", "paused for a gdb step");
        }
    }

    /// After a step for the client: the stop that ended it, or a plain one.
    pub fn gdb_step_done(&mut self, outcome: &StepOutcome)
        requires
            old(self).wf(),
            old(self).gdb is Some,
        ensures
            final(self).wf(),
            final(self).gdb_frame(old(self)),
            final(self).last_debug_stop == old(self).last_debug_stop,
            final(self).session == (if *outcome is Halted {
                (Session { cpu_halted: true, ..old(self).session }).settled()
            } else {
                old(self).session
            }),
            exists|mid: App| #[trigger]
                step_told(old(self), &mid, *outcome) && replied_then(
                    &mid,
                    final(self),
                    step_reply(old(self), *outcome),
                    seq![Effect::FinishRender, Effect::Redraw],
                ),
    {
        let reply = self.gdb_step_answer(outcome);
        let ghost mid = *self;
        self.gdb_reply_and_show(reply.as_str());
        assert(step_told(old(self), &mid, *outcome));
    }

    fn gdb_step_answer(&mut self, outcome: &StepOutcome) -> (reply: String)
        requires
            old(self).wf(),
        ensures
            final(self).wf(),
            step_told(old(self), final(self), *outcome),
            reply@ == step_reply(old(self), *outcome),
    {
        match outcome {
            StepOutcome::Halted => {
                self.session.cpu_halted = true;
                self.session.sync_live_audio_suspension();
                self.gdb_plain_stop().to_owned()
            },
            StepOutcome::Ran(Some(stop)) => self.gdb_map_stop(stop),
            StepOutcome::Ran(None) => self.gdb_plain_stop().to_owned(),
        }
    }

    fn gdb_reply_and_show(&mut self, reply: &str)
        requires
            old(self).wf(),
        ensures
            final(self).wf(),
            final(self).gdb_frame(old(self)),
            final(self).session == old(self).session,
            final(self).last_debug_stop == old(self).last_debug_stop,
            replied_then(
                old(self),
                final(self),
                reply@,
                seq![Effect::FinishRender, Effect::Redraw],
            ),
    {
        self.gdb_reply(reply);
        let ghost sent = *self;
        self.fx.push(Effect::FinishRender);
        self.fx.redraw();
        assert(self.fx@ =~= sent.fx@ + seq![Effect::FinishRender, Effect::Redraw]);
        assert(sent.gdb_replied(old(self), reply@));
    }

    /// Forwards log output to a Bartman client, line by line.
    pub fn gdb_log_lines(&mut self, lines: &[String])
        requires
            old(self).wf(),
        ensures
            final(self).wf(),
            *final(self) == (App { fx: final(self).fx, ..*old(self) }),
            final(self).fx@ == old(self).fx@ + (if is_bartman(old(self).gdb) {
                as_console(logged(texts(lines@)))
            } else {
                Seq::empty()
            }),
    {
        let bartman: bool = match &self.gdb {
            Some(g) => g.core.bartman,
            None => false,
        };
        if !bartman {
            assert(self.fx@ =~= old(self).fx@ + Seq::empty());
            return;
        }
        let ghost start = self.fx@;
        let mut i: usize = 0;
        assert(texts(lines@).take(0) =~= Seq::empty());
        assert(start + as_console(Seq::empty()) =~= start);
        while i < lines.len()
            invariant
                i <= lines@.len(),
                *self == (App { fx: self.fx, ..*old(self) }),
                self.fx@ == start + as_console(logged(texts(lines@).take(i as int))),
            decreases lines@.len() - i,
        {
            let parts = split_lines(&chars_of(lines[i].as_str()));
            let ghost done = logged(texts(lines@).take(i as int));
            let ghost now = self.fx@;
            let ghost all = marked(lines_of(lines@[i as int]@));
            proof {
                assert(texts(lines@).take(i + 1).drop_last() =~= texts(lines@).take(i as int));
                assert(texts(lines@).take(i + 1).last() == lines@[i as int]@);
                assert(logged(texts(lines@).take(i + 1)) == done + all);
                assert(now + as_console(all.take(0)) =~= now);
            }
            let mut k: usize = 0;
            while k < parts.len()
                invariant
                    k <= parts@.len(),
                    views(parts@) == lines_of(lines@[i as int]@),
                    all == marked(lines_of(lines@[i as int]@)),
                    *self == (App { fx: self.fx, ..*old(self) }),
                    self.fx@ == now + as_console(all.take(k as int)),
                decreases parts@.len() - k,
            {
                let mut line = "DBG: ".to_owned();
                put_chars(&mut line, &parts[k]);
                put(&mut line, "\n");
                proof {
                    assert(views(parts@)[k as int] == parts@[k as int]@);
                    assert(line@ =~= all[k as int]);
                    assert(as_console(all.take(k + 1)) =~= as_console(all.take(k as int)).push(
                        Effect::GdbConsole(line@),
                    ));
                }
                self.fx.push(Effect::GdbConsole(line));
                assert(self.fx@ =~= now + as_console(all.take(k + 1)));
                k += 1;
            }
            proof {
                assert(views(parts@).len() == parts@.len());
                assert(all.take(k as int) =~= all);
                assert(start + as_console(done) + as_console(all) =~= start + as_console(
                    done + all,
                ));
            }
            i += 1;
        }
        assert(texts(lines@).take(i as int) =~= texts(lines@));
    }
}

/// What the client is told when its step ends.
pub open spec fn step_reply(o: &App, outcome: StepOutcome) -> Seq<char> {
    match outcome {
        StepOutcome::Ran(Some(stop)) => stop_reply(
            o.gdb,
            o.machine.memory.mask,
            stop_view(stop),
        ),
        _ => plain_stop(o.gdb),
    }
}

/// The application between a step and its reply.
pub open spec fn step_told(o: &App, mid: &App, outcome: StepOutcome) -> bool {
    &&& *mid == (App { gdb: mid.gdb, session: mid.session, ..*o })
    &&& mid.session == (if outcome is Halted {
        (Session { cpu_halted: true, ..o.session }).settled()
    } else {
        o.session
    })
    &&& match outcome {
        StepOutcome::Ran(Some(stop)) => told_of_stop(o.gdb, mid.gdb, stop_view(stop)),
        _ => mid.gdb == o.gdb,
    }
}

/// Lines as a Bartman client shows them.
pub open spec fn marked(lines: Seq<Seq<char>>) -> Seq<Seq<char>> {
    lines.map_values(|l: Seq<char>| "DBG: "@ + l + "\n"@)
}

pub open spec fn logged(chunks: Seq<Seq<char>>) -> Seq<Seq<char>>
    decreases chunks.len(),
{
    if chunks.len() == 0 {
        Seq::empty()
    } else {
        logged(chunks.drop_last()) + marked(lines_of(chunks.last()))
    }
}

} // verus!
