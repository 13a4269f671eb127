//! A GDB client that shares the window: packets run at frame boundaries, a
//! continue is answered when the machine next stops, and whatever the client
//! installs is withdrawn when it goes.

use vstd::prelude::*;

use crate::app::App;
use crate::breaks::WatchAccess;
use crate::breaks::opt_text;
use crate::effects::Effect;
use crate::gdb_breaks::GdbBreaks;
use crate::gdb_breaks::GdbCore;
use crate::gdb_breaks::carried;
use crate::gdb_breaks::clone_text;
use crate::gdb_breaks::sync_notes;
use crate::gdb_breaks::synced;
use crate::number::hex;
use crate::number::lower_hex_of;
use crate::number::put_hex;
use crate::number::put_lower_hex;
use crate::session::Session;
use crate::text::chars_of;
use crate::text::put;
use crate::text::texts;
use crate::text::to_upper;
use crate::text::upper;

verus! {

/// How the server was asked to behave.
#[derive(PartialEq, Eq, Debug)]
pub struct GdbConfig {
    pub bartman: bool,
    pub stop_on_load: Option<String>,
    pub reverse_budget_mb: u64,
    pub reverse_interval_frames: u64,
    pub watch_cap: u64,
}

/// A GDB connection as the application holds it.
#[derive(PartialEq, Eq, Debug)]
pub struct GdbGui {
    pub core: GdbCore,
    pub breaks: GdbBreaks,
    /// A continue whose stop reply is still owed.
    pub pending: bool,
    /// Armed again for every connection.
    pub stop_on_load: Option<String>,
    pub reverse_budget_mb: u64,
    pub reverse_interval_frames: u64,
}

impl GdbCore {
    /// A session that has asked for nothing yet.
    pub open spec fn is_fresh(&self, stop: Option<Seq<char>>, bartman: bool, cap: u64) -> bool {
        &&& self.bartman == bartman
        &&& opt_text(self.run_stop) == stop
        &&& self.breakpoints@.len() == 0
        &&& self.watch_words@.len() == 0
        &&& !self.truncated
        &&& self.watch_cap == cap
        &&& self.reg_watches@.len() == 0
        &&& !self.lib_events_armed
        &&& !self.loadseg_break
        &&& !self.outside_rom
        &&& self.console@.len() == 0
    }

    pub fn fresh(stop: Option<String>, bartman: bool, cap: u64) -> (r: GdbCore)
        ensures
            r.is_fresh(opt_text(stop), bartman, cap),
    {
        GdbCore {
            bartman,
            run_stop: stop,
            breakpoints: Vec::new(),
            watch_words: Vec::new(),
            truncated: false,
            watch_cap: cap,
            reg_watches: Vec::new(),
            lib_events_armed: false,
            loadseg_break: false,
            outside_rom: false,
            console: Vec::new(),
        }
    }
}

impl App {
    /// Adopts a bound GDB server. A Bartman client that waits for a program
    /// to load keeps the machine paused until it connects, so that the load
    /// cannot be missed.
    pub fn attach_gdb(&mut self, config: &GdbConfig)
        requires
            old(self).wf(),
        ensures
            final(self).wf(),
            final(self).session == (if config.bartman && config.stop_on_load is Some {
                (Session { paused: true, ..old(self).session }).settled()
            } else {
                old(self).session
            }),
            final(self).gdb matches Some(g) && {
                &&& g.core.is_fresh(opt_text(config.stop_on_load), config.bartman, config.watch_cap)
                &&& g.breaks.is_empty()
                &&& !g.pending
                &&& opt_text(g.stop_on_load) == opt_text(config.stop_on_load)
                &&& g.reverse_budget_mb == config.reverse_budget_mb
                &&& g.reverse_interval_frames == config.reverse_interval_frames
            },
            final(self).machine == old(self).machine,
            final(self).fx == old(self).fx,
            final(self).last_debug_stop == old(self).last_debug_stop,
            final(self).desk == old(self).desk,
            final(self).hunt == old(self).hunt,
            final(self).same_panels(old(self)),
    {
        if config.bartman && config.stop_on_load.is_some() {
            self.session.paused = true;
            self.session.sync_live_audio_suspension();
        }
        self.gdb =
        Some(
            GdbGui {
                core: GdbCore::fresh(
                    clone_text(&config.stop_on_load),
                    config.bartman,
                    config.watch_cap,
                ),
                breaks: GdbBreaks::new(),
                pending: false,
                stop_on_load: clone_text(&config.stop_on_load),
                reverse_budget_mb: config.reverse_budget_mb,
                reverse_interval_frames: config.reverse_interval_frames,
            },
        );
    }
}

/// The session asks for the same, apart from the console output it queued.
pub open spec fn same_core(a: &GdbCore, b: &GdbCore) -> bool {
    &&& same_requests(a, b)
    &&& a.run_stop == b.run_stop
    &&& a.reg_watches == b.reg_watches
}

pub open spec fn same_requests(a: &GdbCore, b: &GdbCore) -> bool {
    &&& a.bartman == b.bartman
    &&& a.breakpoints == b.breakpoints
    &&& a.watch_words == b.watch_words
    &&& a.truncated == b.truncated
    &&& a.watch_cap == b.watch_cap
    &&& a.lib_events_armed == b.lib_events_armed
    &&& a.loadseg_break == b.loadseg_break
    &&& a.outside_rom == b.outside_rom
}

/// The connection's settings are the same.
pub open spec fn same_terms(a: &GdbGui, b: &GdbGui) -> bool {
    &&& a.stop_on_load == b.stop_on_load
    &&& a.reverse_budget_mb == b.reverse_budget_mb
    &&& a.reverse_interval_frames == b.reverse_interval_frames
}

pub open spec fn is_bartman(g: Option<GdbGui>) -> bool {
    g matches Some(g) && g.core.bartman
}

pub open spec fn is_pending(g: Option<GdbGui>) -> bool {
    g matches Some(g) && g.pending
}

/// The reply to a stop that says nothing but that the machine stopped.
pub open spec fn plain_stop(g: Option<GdbGui>) -> Seq<char> {
    if is_bartman(g) {
        "S05"@
    } else {
        "T05thread:1;"@
    }
}

/// Console output as the client receives it.
pub open spec fn as_console(lines: Seq<Seq<char>>) -> Seq<Effect<Seq<char>>> {
    lines.map_values(|l: Seq<char>| Effect::GdbConsole(l))
}

/// What answering the outstanding resumes sends: to the control client, and
/// to the GDB client, whose continue ends with a console line and a plain
/// stop.
pub open spec fn resume_effects(
    s: Session,
    g: Option<GdbGui>,
    reason: Seq<char>,
    detail: Seq<char>,
) -> Seq<Effect<Seq<char>>> {
    (if s.control_pending {
        seq![Effect::ControlStopped { reason, detail }]
    } else {
        Seq::empty()
    }) + gdb_stop_effects(g, detail)
}

pub open spec fn gdb_stop_effects(g: Option<GdbGui>, detail: Seq<char>) -> Seq<Effect<Seq<char>>> {
    if is_pending(g) {
        seq![
            Effect::GdbConsole(
                (if is_bartman(g) {
                    "DBG: "@
                } else {
                    Seq::empty()
                }) + detail + "\n"@,
            ),
            Effect::GdbPacket(plain_stop(g)),
        ]
    } else {
        Seq::empty()
    }
}

/// The connection with no continue outstanding.
pub open spec fn settled_gdb(a: Option<GdbGui>, b: Option<GdbGui>) -> bool {
    match (a, b) {
        (Some(g), Some(h)) => {
            &&& h.core == g.core
            &&& h.breaks == g.breaks
            &&& !h.pending
            &&& same_terms(&g, &h)
        },
        (None, None) => true,
        _ => false,
    }
}

impl App {
    /// Nothing but the session, the machine's stops, the GDB connection, the
    /// requests to the host and the last stop has changed.
    pub open spec fn gdb_frame(&self, o: &App) -> bool {
        &&& self.machine.same_but_breaks(&o.machine)
        &&& self.desk == o.desk
        &&& self.hunt == o.hunt
        &&& self.same_panels(o)
    }

    /// Whether this client's continue is outstanding.
    pub fn gdb_resume_pending(&self) -> (r: bool)
        ensures
            r == is_pending(self.gdb),
    {
        match &self.gdb {
            Some(g) => g.pending,
            None => false,
        }
    }

    /// Whether any remote client's resume is outstanding: the machine runs on
    /// its behalf, and nothing may move it.
    pub fn remote_resume_pending(&self) -> (r: bool)
        ensures
            r == (self.session.control_pending || is_pending(self.gdb)),
    {
        self.session.control_pending || self.gdb_resume_pending()
    }

    pub fn gdb_plain_stop(&self) -> (r: &'static str)
        ensures
            r@ == plain_stop(self.gdb),
    {
        let bartman: bool = match &self.gdb {
            Some(g) => g.core.bartman,
            None => false,
        };
        if bartman {
            "S05"
        } else {
            "T05thread:1;"
        }
    }

    pub fn gdb_send_packet(&mut self, payload: &str)
        ensures
            *final(self) == (App { fx: final(self).fx, ..*old(self) }),
            final(self).fx@ == (if old(self).gdb is Some {
                old(self).fx@.push(Effect::GdbPacket(payload@))
            } else {
                old(self).fx@
            }),
    {
        if self.gdb.is_some() {
            self.fx.push(Effect::GdbPacket(payload.to_owned()));
        }
    }

    /// Delivers the queued console output, in order.
    pub fn gdb_flush_console(&mut self)
        requires
            old(self).wf(),
        ensures
            final(self).wf(),
            *final(self) == (App { fx: final(self).fx, gdb: final(self).gdb, ..*old(self) }),
            match (old(self).gdb, final(self).gdb) {
                (Some(g), Some(h)) => {
                    &&& final(self).fx@ == old(self).fx@ + as_console(texts(g.core.console@))
                    &&& h.core.console@.len() == 0
                    &&& same_core(&g.core, &h.core)
                    &&& h.breaks == g.breaks
                    &&& h.pending == g.pending
                    &&& same_terms(&g, &h)
                },
                (None, None) => final(self).fx@ == old(self).fx@,
                _ => false,
            },
    {
        match self.gdb.take() {
            Some(mut g) => {
                let mut lines: Vec<String> = Vec::new();
                std::mem::swap(&mut lines, &mut g.core.console);
                let ghost all = as_console(texts(lines@));
                let ghost start = self.fx@;
                let ghost before = *self;
                let mut i: usize = 0;
                assert(self.fx@ =~= start + all.take(0));
                while i < lines.len()
                    invariant
                        i <= lines@.len(),
                        all == as_console(texts(lines@)),
                        self.fx@ == start + all.take(i as int),
                        *self == (App { fx: self.fx, ..before }),
                    decreases lines@.len() - i,
                {
                    self.fx.push(Effect::GdbConsole(lines[i].clone()));
                    i += 1;
                    assert(all.take(i as int) =~= all.take(i - 1).push(
                        Effect::GdbConsole(lines@[i - 1]@),
                    ));
                }
                assert(all.take(i as int) =~= all);
                self.gdb = Some(g);
            },
            None => {},
        }
    }

    /// Translates what the session now asks for into stops that the machine
    /// has installed.
    pub fn gdb_sync_machine_debug_state(&mut self)
        requires
            old(self).wf(),
        ensures
            final(self).wf(),
            final(self).gdb_frame(old(self)),
            final(self).session == old(self).session,
            final(self).fx == old(self).fx,
            final(self).last_debug_stop == old(self).last_debug_stop,
            match (old(self).gdb, final(self).gdb) {
                (Some(g), Some(h)) => {
                    &&& synced(
                        &g.breaks,
                        &old(self).machine.breaks,
                        old(self).machine.memory.mask,
                        &g.core,
                        &h.breaks,
                        &final(self).machine.breaks,
                    )
                    &&& carried(
                        old(self).machine.breaks.watches@,
                        final(self).machine.breaks.watches@,
                        &old(self).machine.memory,
                    )
                    &&& same_core(&g.core, &h.core)
                    &&& texts(h.core.console@) == texts(g.core.console@) + sync_notes(&g.core)
                    &&& h.pending == g.pending
                    &&& same_terms(&g, &h)
                },
                (None, None) => final(self).machine == old(self).machine,
                _ => false,
            },
    {
        match self.gdb.take() {
            Some(mut g) => {
                let mut notes = g.breaks.sync(
                    &mut self.machine.breaks,
                    &self.machine.memory,
                    &g.core,
                );
                let ghost queued = g.core.console@;
                let ghost told = notes@;
                g.core.console.append(&mut notes);
                assert(texts(g.core.console@) =~= texts(queued) + texts(told));
                self.gdb = Some(g);
            },
            None => {},
        }
    }

    /// What a reply to a packet does: the machine's stops are brought up to
    /// date, queued console output goes first, then the reply.
    pub open spec fn gdb_replied(&self, o: &App, reply: Seq<char>) -> bool {
        match (o.gdb, self.gdb) {
            (Some(g), Some(h)) => {
                &&& synced(
                    &g.breaks,
                    &o.machine.breaks,
                    o.machine.memory.mask,
                    &g.core,
                    &h.breaks,
                    &self.machine.breaks,
                )
                &&& carried(
                    o.machine.breaks.watches@,
                    self.machine.breaks.watches@,
                    &o.machine.memory,
                )
                &&& same_core(&g.core, &h.core)
                &&& h.core.console@.len() == 0
                &&& h.pending == g.pending
                &&& same_terms(&g, &h)
                &&& self.fx@ == o.fx@ + as_console(
                    texts(g.core.console@) + sync_notes(&g.core),
                ) + seq![Effect::GdbPacket(reply)]
            },
            (None, None) => self.machine == o.machine && self.fx@ == o.fx@,
            _ => false,
        }
    }

    pub fn gdb_reply(&mut self, reply: &str)
        requires
            old(self).wf(),
        ensures
            final(self).wf(),
            final(self).gdb_frame(old(self)),
            final(self).session == old(self).session,
            final(self).last_debug_stop == old(self).last_debug_stop,
            final(self).gdb_replied(old(self), reply@),
    {
        self.gdb_sync_machine_debug_state();
        self.gdb_flush_console();
        self.gdb_send_packet(reply);
        assert(self.gdb is Some ==> self.fx@ =~= old(self).fx@ + as_console(
            texts(old(self).gdb.unwrap().core.console@) + sync_notes(
                &old(self).gdb.unwrap().core,
            ),
        ) + seq![Effect::GdbPacket(reply@)]);
    }

    /// A stop without details answers a continue that is outstanding; says
    /// whether one was.
    pub fn gdb_complete_pending_stop(&mut self, detail: &str) -> (completed: bool)
        requires
            old(self).wf(),
        ensures
            final(self).wf(),
            *final(self) == (App { fx: final(self).fx, gdb: final(self).gdb, ..*old(self) }),
            completed == is_pending(old(self).gdb),
            final(self).fx@ == old(self).fx@ + gdb_stop_effects(old(self).gdb, detail@),
            settled_gdb(old(self).gdb, final(self).gdb),
    {
        if !self.gdb_resume_pending() {
            assert(self.fx@ =~= old(self).fx@ + gdb_stop_effects(old(self).gdb, detail@));
            return false;
        }
        let mut line: String = String::new();
        match self.gdb.take() {
            Some(mut g) => {
                g.pending = false;
                if g.core.bartman {
                    put(&mut line, "DBG: ");
                }
                self.gdb = Some(g);
            },
            None => {},
        }
        put(&mut line, detail);
        put(&mut line, "\n");
        assert(line@ =~= (if is_bartman(old(self).gdb) {
            "DBG: "@
        } else {
            Seq::empty()
        }) + detail@ + "\n"@);
        self.fx.push(Effect::GdbConsole(line));
        let stop: &'static str = self.gdb_plain_stop();
        self.gdb_send_packet(stop);
        assert(self.fx@ =~= old(self).fx@ + gdb_stop_effects(old(self).gdb, detail@));
        true
    }

    /// The machine stopped for a reason on the host's side: every remote
    /// resume that is outstanding is answered, so that no client waits on a
    /// stop that another one caused. Says whether there was one.
    pub fn complete_remote_resumes(&mut self, reason: &str, detail: &str) -> (completed: bool)
        requires
            old(self).wf(),
        ensures
            final(self).wf(),
            *final(self) == (App {
                fx: final(self).fx,
                gdb: final(self).gdb,
                session: Session { control_pending: false, ..old(self).session },
                ..*old(self)
            }),
            completed == (old(self).session.control_pending || is_pending(old(self).gdb)),
            final(self).fx@ == old(self).fx@ + resume_effects(
                old(self).session,
                old(self).gdb,
                reason@,
                detail@,
            ),
            settled_gdb(old(self).gdb, final(self).gdb),
    {
        let mut completed: bool = false;
        if self.session.control_pending {
            self.session.control_pending = false;
            self.fx.push(
                Effect::ControlStopped { reason: reason.to_owned(), detail: detail.to_owned() },
            );
            completed = true;
        }
        if self.gdb_complete_pending_stop(detail) {
            completed = true;
        }
        assert(self.fx@ =~= old(self).fx@ + resume_effects(
            old(self).session,
            old(self).gdb,
            reason@,
            detail@,
        ));
        completed
    }
}

/// However many clients wait, answering their resumes leaves none waiting, and
/// doing it again sends nothing: each resume is answered once.
pub proof fn lemma_resumes_are_answered_once(
    s: Session,
    g: Option<GdbGui>,
    h: Option<GdbGui>,
    reason: Seq<char>,
    detail: Seq<char>,
)
    requires
        settled_gdb(g, h),
    ensures
        resume_effects(Session { control_pending: false, ..s }, h, reason, detail).len() == 0,
        resume_effects(s, g, reason, detail).len() == (if s.control_pending {
            1int
        } else {
            0
        }) + (if is_pending(g) {
            2int
        } else {
            0
        }),
{
}

/// Why the machine stopped. `T` is the type of its texts.
#[derive(PartialEq, Eq, Debug)]
pub enum DebugStop<T> {
    Breakpoint,
    Watch { addr: u32, access: WatchAccess },
    Exception { vector: u16 },
    LoadSeg { name: T, addr: u32 },
    Other,
}

pub open spec fn stop_view(stop: DebugStop<String>) -> DebugStop<Seq<char>> {
    match stop {
        DebugStop::Breakpoint => DebugStop::Breakpoint,
        DebugStop::Watch { addr, access } => DebugStop::Watch { addr, access },
        DebugStop::Exception { vector } => DebugStop::Exception { vector },
        DebugStop::LoadSeg { name, addr } => DebugStop::LoadSeg { name: name@, addr },
        DebugStop::Other => DebugStop::Other,
    }
}

/// The access that the client asked for on a word: the first request for it.
pub open spec fn asked_access(s: Seq<(u32, WatchAccess)>, word: u32) -> Option<WatchAccess>
    decreases s.len(),
{
    if s.len() == 0 {
        None
    } else if s[0].0 == word {
        Some(s[0].1)
    } else {
        asked_access(s.skip(1), word)
    }
}

/// Whether a request includes the access that fired.
pub open spec fn includes(requested: WatchAccess, fired: WatchAccess) -> bool {
    match fired {
        WatchAccess::Read => requested.spec_reads(),
        WatchAccess::Write => requested.spec_writes(),
        WatchAccess::Access => requested is Access,
    }
}

pub open spec fn watch_key(access: WatchAccess) -> Seq<char> {
    match access {
        WatchAccess::Write => "watch"@,
        WatchAccess::Read => "rwatch"@,
        WatchAccess::Access => "awatch"@,
    }
}

/// The access that a watch stop is reported as: the client's own request where
/// it includes what fired, and what fired where it does not.
pub open spec fn reported_access(g: Option<GdbGui>, word: u32, fired: WatchAccess) -> WatchAccess {
    match g {
        Some(g) => match asked_access(g.core.watch_words@, word) {
            Some(asked) => if includes(asked, fired) {
                asked
            } else {
                fired
            },
            None => fired,
        },
        None => fired,
    }
}

/// The client waits for this program to load, and it did.
pub open spec fn target_loaded(g: Option<GdbGui>, name: Seq<char>) -> bool {
    g matches Some(g) && (opt_text(g.core.run_stop) matches Some(t) && upper(t) == upper(name))
}

/// The stop reply for a stop.
pub open spec fn stop_reply(g: Option<GdbGui>, mask: u32, stop: DebugStop<Seq<char>>) -> Seq<char> {
    match stop {
        DebugStop::LoadSeg { name, addr } => {
            if !target_loaded(g, name) && (g matches Some(x) && !x.core.loadseg_break
                && x.core.lib_events_armed) {
                "T05library:;thread:1;"@
            } else {
                plain_stop(g)
            }
        },
        DebugStop::Exception { vector } => {
            if is_bartman(g) && vector == 3 {
                "S0A"@
            } else if is_bartman(g) && vector == 4 {
                "S04"@
            } else {
                plain_stop(g)
            }
        },
        DebugStop::Breakpoint => if is_bartman(g) {
            "S05"@
        } else {
            "T05hwbreak:;thread:1;"@
        },
        DebugStop::Watch { addr, access } => if is_bartman(g) {
            "S05"@
        } else {
            "T05"@ + watch_key(
                reported_access(g, crate::machine::word_of(addr, mask), access),
            ) + ":"@ + lower_hex_of(addr as nat) + ";thread:1;"@
        },
        DebugStop::Other => plain_stop(g),
    }
}

/// The console notice of a program load.
pub open spec fn load_hint(name: Seq<char>, addr: u32) -> Seq<char> {
    name + " first hunk $"@ + hex(addr as int, 6)
        + " (monitor segments / add-symbol-file FILE 0x"@ + hex(addr as int, 0) + ")\n"@
}

pub open spec fn stop_notice(g: Option<GdbGui>, stop: DebugStop<Seq<char>>) -> Seq<Seq<char>> {
    match stop {
        DebugStop::LoadSeg { name, addr } => {
            if target_loaded(g, name) {
                seq!["run target loaded: "@ + load_hint(name, addr)]
            } else if g matches Some(x) && x.core.loadseg_break {
                seq!["loadseg: "@ + load_hint(name, addr)]
            } else {
                Seq::empty()
            }
        },
        _ => Seq::empty(),
    }
}

/// The connection after a stop was translated: a load that was waited for is
/// waited for no longer, and the notice is queued.
pub open spec fn told_of_stop(
    a: Option<GdbGui>,
    b: Option<GdbGui>,
    stop: DebugStop<Seq<char>>,
) -> bool {
    match (a, b) {
        (Some(g), Some(h)) => {
            &&& same_requests(&g.core, &h.core)
            &&& h.core.reg_watches == g.core.reg_watches
            &&& opt_text(h.core.run_stop) == (if stop matches DebugStop::LoadSeg { name, .. }
                && target_loaded(a, name) {
                None
            } else {
                opt_text(g.core.run_stop)
            })
            &&& texts(h.core.console@) == texts(g.core.console@) + stop_notice(a, stop)
            &&& h.breaks == g.breaks
            &&& h.pending == g.pending
            &&& same_terms(&g, &h)
        },
        (None, None) => true,
        _ => false,
    }
}

/// The connection with its continue called off.
pub open spec fn at_rest(g: Option<GdbGui>) -> Option<GdbGui> {
    match g {
        Some(g) => Some(GdbGui { pending: false, ..g }),
        None => None,
    }
}

fn asked_for(s: &Vec<(u32, WatchAccess)>, word: u32) -> (r: Option<WatchAccess>)
    ensures
        r == asked_access(s@, word),
{
    let mut i: usize = 0;
    assert(s@.skip(0) =~= s@);
    while i < s.len()
        invariant
            i <= s@.len(),
            asked_access(s@, word) == asked_access(s@.skip(i as int), word),
        decreases s@.len() - i,
    {
        assert(s@.skip(i as int).skip(1) =~= s@.skip(i + 1));
        if s[i].0 == word {
            return Some(s[i].1);
        }
        i += 1;
    }
    None
}

fn includes_access(requested: WatchAccess, fired: WatchAccess) -> (r: bool)
    ensures
        r == includes(requested, fired),
{
    match fired {
        WatchAccess::Read => requested.reads(),
        WatchAccess::Write => requested.writes(),
        WatchAccess::Access => requested == WatchAccess::Access,
    }
}

fn load_notice(lead: &str, name: &str, addr: u32) -> (r: String)
    ensures
        r@ == lead@ + load_hint(name@, addr),
{
    let mut out = lead.to_owned();
    put(&mut out, name);
    put(&mut out, " first hunk $");
    put_hex(&mut out, addr as u64, 6);
    put(&mut out, " (monitor segments / add-symbol-file FILE 0x");
    put_hex(&mut out, addr as u64, 0);
    put(&mut out, ")\n");
    assert(out@ =~= lead@ + load_hint(name@, addr));
    out
}

fn same_name(a: &str, b: &str) -> (r: bool)
    ensures
        r == (upper(a@) == upper(b@)),
{
    let x = to_upper(&chars_of(a));
    let y = to_upper(&chars_of(b));
    crate::text::same(&x, &y)
}

impl App {
    fn gdb_watch_reply(&self, addr: u32, fired: WatchAccess) -> (r: String)
        ensures
            r@ == "T05"@ + watch_key(
                reported_access(
                    self.gdb,
                    crate::machine::word_of(addr, self.machine.memory.mask),
                    fired,
                ),
            ) + ":"@ + lower_hex_of(addr as nat) + ";thread:1;"@,
    {
        let word: u32 = self.machine.word_addr(addr);
        let access: WatchAccess = match &self.gdb {
            Some(g) => match asked_for(&g.core.watch_words, word) {
                Some(asked) => if includes_access(asked, fired) {
                    asked
                } else {
                    fired
                },
                None => fired,
            },
            None => fired,
        };
        let mut out = "T05".to_owned();
        match access {
            WatchAccess::Write => put(&mut out, "watch"),
            WatchAccess::Read => put(&mut out, "rwatch"),
            WatchAccess::Access => put(&mut out, "awatch"),
        }
        put(&mut out, ":");
        put_lower_hex(&mut out, addr as u64);
        put(&mut out, ";thread:1;");
        out
    }

    /// Translates a stop of the machine into the client's stop reply. The
    /// load of the awaited program is reported once.
    pub fn gdb_map_stop(&mut self, stop: &DebugStop<String>) -> (r: String)
        requires
            old(self).wf(),
        ensures
            final(self).wf(),
            *final(self) == (App { gdb: final(self).gdb, ..*old(self) }),
            r@ == stop_reply(old(self).gdb, old(self).machine.memory.mask, stop_view(*stop)),
            told_of_stop(old(self).gdb, final(self).gdb, stop_view(*stop)),
    {
        let bartman: bool = match &self.gdb {
            Some(g) => g.core.bartman,
            None => false,
        };
        let plain: &'static str = self.gdb_plain_stop();
        proof {
            assert(self.gdb matches Some(g) ==> texts(g.core.console@) =~= texts(g.core.console@)
                + Seq::<Seq<char>>::empty());
        }
        match stop {
            DebugStop::Breakpoint => if bartman {
                "S05".to_owned()
            } else {
                "T05hwbreak:;thread:1;".to_owned()
            },
            DebugStop::Watch { addr, access } => if bartman {
                "S05".to_owned()
            } else {
                self.gdb_watch_reply(*addr, *access)
            },
            DebugStop::Exception { vector } => if bartman && *vector == 3 {
                "S0A".to_owned()
            } else if bartman && *vector == 4 {
                "S04".to_owned()
            } else {
                plain.to_owned()
            },
            DebugStop::LoadSeg { name, addr } => self.gdb_load_stop(name.as_str(), *addr),
            DebugStop::Other => plain.to_owned(),
        }
    }

    fn gdb_load_stop(&mut self, name: &str, addr: u32) -> (r: String)
        requires
            old(self).wf(),
        ensures
            final(self).wf(),
            *final(self) == (App { gdb: final(self).gdb, ..*old(self) }),
            r@ == stop_reply(
                old(self).gdb,
                old(self).machine.memory.mask,
                DebugStop::LoadSeg { name: name@, addr },
            ),
            told_of_stop(
                old(self).gdb,
                final(self).gdb,
                DebugStop::LoadSeg { name: name@, addr },
            ),
    {
        let plain: &'static str = self.gdb_plain_stop();
        match self.gdb.take() {
            Some(mut g) => {
                let ghost queued = texts(g.core.console@);
                let ghost was = g;
                let hit: bool = match &g.core.run_stop {
                    Some(target) => same_name(name, target.as_str()),
                    None => false,
                };
                let mut reply: String = plain.to_owned();
                if hit {
                    g.core.run_stop = None;
                    let line = load_notice("run target loaded: ", name, addr);
                    let ghost said = line@;
                    g.core.console.push(line);
                    assert(texts(g.core.console@) =~= queued + seq![said]);
                } else if g.core.loadseg_break {
                    let line = load_notice("loadseg: ", name, addr);
                    let ghost said = line@;
                    g.core.console.push(line);
                    assert(texts(g.core.console@) =~= queued + seq![said]);
                } else {
                    if g.core.lib_events_armed {
                        reply = "T05library:;thread:1;".to_owned();
                    }
                    assert(texts(g.core.console@) =~= queued + Seq::<Seq<char>>::empty());
                }
                self.gdb = Some(g);
                reply
            },
            None => plain.to_owned(),
        }
    }

    /// A stop of the machine answers a continue that is outstanding, rather
    /// than bringing up the local debugger; says whether it did.
    pub fn gdb_completes_stop(&mut self, stop: &DebugStop<String>) -> (consumed: bool)
        requires
            old(self).wf(),
        ensures
            final(self).wf(),
            consumed == is_pending(old(self).gdb),
            !consumed ==> *final(self) == *old(self),
            consumed ==> {
                &&& final(self).gdb_frame(old(self))
                &&& final(self).session == old(self).session
                &&& final(self).last_debug_stop == old(self).last_debug_stop
                &&& !is_pending(final(self).gdb)
                &&& final(self).gdb is Some
                &&& exists|mid: Option<GdbGui>| #[trigger]
                    told_of_stop(at_rest(old(self).gdb), mid, stop_view(*stop))
                        && final(self).gdb_replied(
                        &(App { gdb: mid, ..*old(self) }),
                        stop_reply(
                            old(self).gdb,
                            old(self).machine.memory.mask,
                            stop_view(*stop),
                        ),
                    )
            },
    {
        if !self.gdb_resume_pending() {
            return false;
        }
        match self.gdb.take() {
            Some(mut g) => {
                g.pending = false;
                self.gdb = Some(g);
            },
            None => {},
        }
        let ghost asked = *self;
        let reply = self.gdb_map_stop(stop);
        let ghost mid = *self;
        proof {
            lemma_reply_ignores_pending(
                old(self).gdb,
                asked.gdb,
                self.machine.memory.mask,
                stop_view(*stop),
            );
        }
        self.gdb_reply(reply.as_str());
        assert(told_of_stop(at_rest(old(self).gdb), mid.gdb, stop_view(*stop)));
        assert(mid == (App { gdb: mid.gdb, ..*old(self) }));
        true
    }
}

proof fn lemma_reply_ignores_pending(
    a: Option<GdbGui>,
    b: Option<GdbGui>,
    mask: u32,
    stop: DebugStop<Seq<char>>,
)
    requires
        b == at_rest(a),
    ensures
        stop_reply(a, mask, stop) == stop_reply(b, mask, stop),
{
    assert(target_loaded(a, Seq::empty()) == target_loaded(b, Seq::empty()));
}

} // verus!
