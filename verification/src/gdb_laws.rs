//! What a GDB client can rely on: which packets move the machine, how a stop is
//! reported, and what attaching, interrupting and detaching leave behind.

use vstd::prelude::*;

use crate::app::App;
use crate::breaks::WatchAccess;
use crate::breaks::opt_text;
use crate::effects::Effect;
use crate::gdb::DebugStop;
use crate::gdb::GdbGui;
use crate::gdb::asked_access;
use crate::gdb::gdb_stop_effects;
use crate::gdb::resume_effects;
use crate::gdb::stop_notice;
use crate::gdb::stop_reply;
use crate::gdb::target_loaded;
use crate::gdb::told_of_stop;
use crate::gdb_session::GdbMsg;
use crate::gdb_session::Monitor;
use crate::gdb_session::PacketStep;
use crate::gdb_session::StepOutcome;
use crate::gdb_session::answered;
use crate::gdb_session::cannot_run;
use crate::gdb_session::client_attached;
use crate::gdb_session::detached;
use crate::gdb_session::interrupted;
use crate::gdb_session::is_write;
use crate::gdb_session::killed;
use crate::gdb_session::logged;
use crate::gdb_session::message_taken;
use crate::gdb_session::monitor_effects;
use crate::gdb_session::monitor_of;
use crate::gdb_session::monitor_regs;
use crate::gdb_session::monitor_session;
use crate::gdb_session::monitor_text;
use crate::gdb_session::packet_taken;
use crate::gdb_session::refused;
use crate::gdb_session::set_running;
use crate::gdb_session::step_reply;
use crate::gdb_session::step_told;
use crate::gdb_wire::hex_bytes;
use crate::gdb_wire::qrcmd;
use crate::gdb_wire::repositions;
use crate::lexicon::Lexicon;
use crate::number::digit;
use crate::number::lower_hex_of;
use crate::session::Session;
use crate::text::starts;
use crate::text::upper;
use crate::text::words;

verus! {

/// A step or a continue from where the machine stands does not move it first; one
/// that names an address does.
pub proof fn lemma_plain_resumes_stay(p: Seq<char>)
    requires
        p.len() > 0,
        p[0] == 's' || p[0] == 'c',
    ensures
        repositions(p) <==> p.len() > 1,
{
    reveal_strlit("bs");
    reveal_strlit("bc");
    reveal_strlit("P11=");
    reveal_strlit("qRcmd,");
    if starts(p, "qRcmd,"@) {
        assert(p.take(6)[0] == 'q');
    }
    if starts(p, "P11="@) {
        assert(p.take(4)[0] == 'P');
    }
}

/// A resume with a signal moves the machine where an address follows it.
pub proof fn lemma_signalled_resumes(p: Seq<char>)
    requires
        p.len() > 0,
        p[0] == 'S' || p[0] == 'C',
    ensures
        repositions(p) <==> p.contains(';'),
{
    reveal_strlit("bs");
    reveal_strlit("bc");
    reveal_strlit("P11=");
    reveal_strlit("qRcmd,");
    if starts(p, "qRcmd,"@) {
        assert(p.take(6)[0] == 'q');
    }
    if starts(p, "P11="@) {
        assert(p.take(4)[0] == 'P');
    }
}

/// Running backwards moves the machine.
pub proof fn lemma_reverse_moves()
    ensures
        repositions(seq!['b', 's']),
        repositions(seq!['b', 'c']),
{
    reveal_strlit("bs");
    reveal_strlit("bc");
    assert(seq!['b', 's'] =~= "bs"@);
    assert(seq!['b', 'c'] =~= "bc"@);
}

/// Writing a register moves the machine where the register is the program counter,
/// the client's register seventeen, and for no other.
pub proof fn lemma_register_writes(p: Seq<char>)
    requires
        p.len() > 3,
        p[0] == 'P',
    ensures
        repositions(p) <==> (p[1] == '1' && p[2] == '1' && p[3] == '='),
{
    reveal_strlit("bs");
    reveal_strlit("bc");
    reveal_strlit("P11=");
    reveal_strlit("qRcmd,");
    if starts(p, "qRcmd,"@) {
        assert(p.take(6)[0] == 'q');
    }
    if starts(p, "P11="@) {
        assert(p.take(4)[1] == p[1]);
        assert(p.take(4)[2] == p[2]);
        assert(p.take(4)[3] == p[3]);
    }
    if p[1] == '1' && p[2] == '1' && p[3] == '=' {
        assert(p.take(4) =~= "P11="@);
    }
}

/// Reading, and setting or clearing points, moves nothing.
pub proof fn lemma_looking_moves_nothing(p: Seq<char>)
    requires
        p.len() > 0,
        p[0] == 'm' || p[0] == 'M' || p[0] == 'g' || p[0] == 'G' || p[0] == 'p' || p[0] == 'Z'
            || p[0] == 'z' || p[0] == 'H' || p[0] == '?' || p[0] == 'D' || p[0] == 'k'
            || p[0] == 'v',
    ensures
        !repositions(p),
{
    reveal_strlit("bs");
    reveal_strlit("bc");
    reveal_strlit("P11=");
    reveal_strlit("qRcmd,");
    if starts(p, "qRcmd,"@) {
        assert(p.take(6)[0] == 'q');
    }
    if starts(p, "P11="@) {
        assert(p.take(4)[0] == 'P');
    }
}

/// A monitor command moves the machine where it is a reset or a profile run.
pub proof fn lemma_monitor_commands_move(p: Seq<char>)
    requires
        p.len() > 0,
        p[0] == 'q',
    ensures
        repositions(p) <==> (qrcmd(p) matches Some(c) && words(c).len() > 0 && (words(c)[0]
            == "reset"@ || words(c)[0] == "profile"@)),
{
    reveal_strlit("bs");
    reveal_strlit("bc");
    reveal_strlit("P11=");
    if starts(p, "P11="@) {
        assert(p.take(4)[0] == 'P');
    }
}

/// The number that a hexadecimal digit stands for.
pub open spec fn hex_digit(c: char, v: int) -> bool {
    ||| '0' <= c <= '9' && v == c as int - 48
    ||| 'A' <= c <= 'F' && v == c as int - 55
    ||| 'a' <= c <= 'f' && v == c as int - 87
}

/// Bytes sent as pairs of hexadecimal digits, the high half first, come back as they
/// were; digits may be of either case.
pub proof fn lemma_hex_carries_bytes(b: Seq<u8>, s: Seq<char>)
    requires
        s.len() == 2 * b.len(),
        forall|i: int|
            0 <= i < b.len() ==> hex_digit(#[trigger] s[2 * i], b[i] as int / 16),
        forall|i: int|
            0 <= i < b.len() ==> hex_digit(#[trigger] s[2 * i + 1], b[i] as int % 16),
    ensures
        hex_bytes(s) == Some(b),
{
    assert forall|k: int| 0 <= k < s.len() implies digit(#[trigger] s[k]) < 16 by {
        let i = k / 2;
        if k % 2 == 0 {
            assert(hex_digit(s[2 * i], b[i] as int / 16));
        } else {
            assert(hex_digit(s[2 * i + 1], b[i] as int % 16));
        }
    }
    assert(hex_bytes(s) is Some);
    let r = hex_bytes(s).unwrap();
    assert forall|i: int| 0 <= i < b.len() implies r[i] == b[i] by {
        assert(hex_digit(s[2 * i], b[i] as int / 16));
        assert(hex_digit(s[2 * i + 1], b[i] as int % 16));
    }
    assert(r =~= b);
}

/// What is not pairs of hexadecimal digits is no bytes.
pub proof fn lemma_hex_refuses(s: Seq<char>, k: int)
    requires
        s.len() % 2 == 1 || (0 <= k < s.len() && !('0' <= s[k] <= '9') && !('a' <= s[k] <= 'f')
            && !('A' <= s[k] <= 'F')),
    ensures
        hex_bytes(s) is None,
{
}

/// A Bartman client gets plain signals: the trap signal for every stop but an address
/// error and an illegal instruction, which have their own.
pub proof fn lemma_bartman_stops(g: GdbGui, mask: u32, stop: DebugStop<Seq<char>>)
    requires
        g.core.bartman,
    ensures
        stop matches DebugStop::Exception { vector } ==> stop_reply(Some(g), mask, stop) == (
        if vector == 3 {
            "S0A"@
        } else if vector == 4 {
            "S04"@
        } else {
            "S05"@
        }),
        !(stop is LoadSeg) && !(stop is Exception) ==> stop_reply(Some(g), mask, stop) == "S05"@,
        stop is LoadSeg && (!g.core.lib_events_armed || g.core.loadseg_break) ==> stop_reply(
            Some(g),
            mask,
            stop,
        ) == "S05"@,
{
}

/// Any other client is told which kind of point stopped the machine.
pub proof fn lemma_plain_client_stops(g: GdbGui, mask: u32, vector: u16)
    requires
        !g.core.bartman,
    ensures
        stop_reply(Some(g), mask, DebugStop::Breakpoint) == "T05hwbreak:;thread:1;"@,
        stop_reply(Some(g), mask, DebugStop::Exception { vector }) == "T05thread:1;"@,
        stop_reply(Some(g), mask, DebugStop::Other) == "T05thread:1;"@,
{
}

proof fn lemma_asked(s: Seq<(u32, WatchAccess)>, word: u32, i: int)
    requires
        0 <= i < s.len(),
        s[i].0 == word,
        forall|j: int| 0 <= j < i ==> (#[trigger] s[j]).0 != word,
    ensures
        asked_access(s, word) == Some(s[i].1),
    decreases i,
{
    if i > 0 {
        let t = s.skip(1);
        assert forall|j: int| 0 <= j < i - 1 implies (#[trigger] t[j]).0 != word by {
            assert(t[j] == s[j + 1]);
        }
        lemma_asked(t, word, i - 1);
    }
}

proof fn lemma_unasked(s: Seq<(u32, WatchAccess)>, word: u32)
    requires
        forall|j: int| 0 <= j < s.len() ==> (#[trigger] s[j]).0 != word,
    ensures
        asked_access(s, word) is None,
    decreases s.len(),
{
    if s.len() > 0 {
        let t = s.skip(1);
        assert forall|j: int| 0 <= j < t.len() implies (#[trigger] t[j]).0 != word by {
            assert(t[j] == s[j + 1]);
        }
        lemma_unasked(t, word);
    }
}

/// The report of a watch stop under one of the client's three names for watching.
pub open spec fn watch_report(name: Seq<char>, addr: u32) -> Seq<char> {
    "T05"@ + name + ":"@ + lower_hex_of(addr as nat) + ";thread:1;"@
}

/// A watch that the client set on the word is reported as the client set it, where it
/// covers what happened: an access watch as such whichever way it fired.
pub proof fn lemma_watch_is_reported_as_set(
    g: GdbGui,
    mask: u32,
    addr: u32,
    access: WatchAccess,
    i: int,
)
    requires
        !g.core.bartman,
        0 <= i < g.core.watch_words@.len(),
        g.core.watch_words@[i].0 == addr & mask & 0xFFFF_FFFE,
        forall|j: int|
            0 <= j < i ==> (#[trigger] g.core.watch_words@[j]).0 != addr & mask & 0xFFFF_FFFE,
    ensures
        g.core.watch_words@[i].1 is Access ==> stop_reply(
            Some(g),
            mask,
            DebugStop::Watch { addr, access },
        ) == watch_report("awatch"@, addr),
        g.core.watch_words@[i].1 is Read && access is Read ==> stop_reply(
            Some(g),
            mask,
            DebugStop::Watch { addr, access },
        ) == watch_report("rwatch"@, addr),
        g.core.watch_words@[i].1 is Write && access is Write ==> stop_reply(
            Some(g),
            mask,
            DebugStop::Watch { addr, access },
        ) == watch_report("watch"@, addr),
        g.core.watch_words@[i].1 is Read && access is Write ==> stop_reply(
            Some(g),
            mask,
            DebugStop::Watch { addr, access },
        ) == watch_report("watch"@, addr),
        g.core.watch_words@[i].1 is Write && access is Read ==> stop_reply(
            Some(g),
            mask,
            DebugStop::Watch { addr, access },
        ) == watch_report("rwatch"@, addr),
        !(g.core.watch_words@[i].1 is Access) && access is Access ==> stop_reply(
            Some(g),
            mask,
            DebugStop::Watch { addr, access },
        ) == watch_report("awatch"@, addr),
{
    lemma_asked(g.core.watch_words@, addr & mask & 0xFFFF_FFFE, i);
}

/// A watch that the client did not set is reported by what happened.
pub proof fn lemma_local_watch_is_reported_as_fired(
    g: GdbGui,
    mask: u32,
    addr: u32,
    access: WatchAccess,
)
    requires
        !g.core.bartman,
        forall|j: int|
            0 <= j < g.core.watch_words@.len() ==> (#[trigger] g.core.watch_words@[j]).0 != addr
                & mask & 0xFFFF_FFFE,
    ensures
        stop_reply(Some(g), mask, DebugStop::Watch { addr, access }) == watch_report(
            match access {
                WatchAccess::Write => "watch"@,
                WatchAccess::Read => "rwatch"@,
                WatchAccess::Access => "awatch"@,
            },
            addr,
        ),
{
    lemma_unasked(g.core.watch_words@, addr & mask & 0xFFFF_FFFE);
}

/// Loading the program that a session waits for is an ordinary stop that ends the
/// wait; the same program again is no target any more. A program it does not wait for
/// leaves the wait as it is.
pub proof fn lemma_load_target_is_awaited_once(
    g: GdbGui,
    h: GdbGui,
    mask: u32,
    name: Seq<char>,
    addr: u32,
)
    requires
        told_of_stop(Some(g), Some(h), DebugStop::LoadSeg { name, addr }),
    ensures
        opt_text(g.core.run_stop) matches Some(t) ==> (upper(t) == upper(name) ==> {
            &&& h.core.run_stop is None
            &&& !target_loaded(Some(h), name)
            &&& h.core.console@.len() == g.core.console@.len() + 1
            &&& stop_reply(Some(g), mask, DebugStop::LoadSeg { name, addr }) == (
            if g.core.bartman {
                "S05"@
            } else {
                "T05thread:1;"@
            })
        }),
        opt_text(g.core.run_stop) matches Some(t) ==> (upper(t) != upper(name) ==> opt_text(
            h.core.run_stop,
        ) == Some(t)),
        g.core.run_stop is None ==> h.core.run_stop is None,
        h.core.breakpoints == g.core.breakpoints,
        h.core.watch_words == g.core.watch_words,
        h.core.reg_watches == g.core.reg_watches,
{
    assert(crate::text::texts(h.core.console@).len() == h.core.console@.len());
    assert(crate::text::texts(g.core.console@).len() == g.core.console@.len());
}

/// A load that only the library events asked for is reported as one, and says nothing
/// on the console; one that the client broke on is an ordinary stop with a notice.
pub proof fn lemma_other_loads(g: GdbGui, mask: u32, name: Seq<char>, addr: u32)
    requires
        g.core.run_stop is None,
    ensures
        g.core.lib_events_armed && !g.core.loadseg_break ==> {
            &&& stop_reply(Some(g), mask, DebugStop::LoadSeg { name, addr })
                == "T05library:;thread:1;"@
            &&& stop_notice(Some(g), DebugStop::LoadSeg { name, addr }).len() == 0
        },
        g.core.loadseg_break ==> {
            &&& stop_reply(Some(g), mask, DebugStop::LoadSeg { name, addr }) == (
            if g.core.bartman {
                "S05"@
            } else {
                "T05thread:1;"@
            })
            &&& stop_notice(Some(g), DebugStop::LoadSeg { name, addr }).len() == 1
        },
{
}

/// Whoever waits for the machine hears of the stop: the control client first, then the
/// GDB client, on its console and as a stop packet.
pub proof fn lemma_waiting_clients_hear(
    s: Session,
    g: Option<GdbGui>,
    reason: Seq<char>,
    detail: Seq<char>,
)
    ensures
        s.control_pending ==> resume_effects(s, g, reason, detail)[0] == (
        Effect::ControlStopped { reason, detail }),
        g matches Some(x) ==> (x.pending ==> resume_effects(s, g, reason, detail).last()
            == Effect::GdbPacket(
            if x.core.bartman {
                "S05"@
            } else {
                "T05thread:1;"@
            },
        )),
        g matches Some(x) ==> (x.pending && !x.core.bartman ==> gdb_stop_effects(g, detail)[0]
            == Effect::GdbConsole(detail + "\n"@)),
        g matches Some(x) ==> (x.pending && x.core.bartman ==> gdb_stop_effects(g, detail)[0]
            == Effect::GdbConsole("DBG: "@ + detail + "\n"@)),
        !s.control_pending && (g matches Some(x) ==> !x.pending) ==> resume_effects(
            s,
            g,
            reason,
            detail,
        ).len() == 0,
{
    assert(Seq::<char>::empty() + detail =~= detail);
}

/// A new client finds the machine paused and nothing of the last one: no points, no
/// watches, no resume in flight. A control client that waited is told.
pub proof fn lemma_attach_starts_afresh(o: &App, n: &App, g: GdbGui, h: GdbGui)
    requires
        client_attached(o, n),
        o.gdb == Some(g),
        n.gdb == Some(h),
    ensures
        n.session.paused,
        !n.session.control_pending,
        n.session.holds == o.session.holds,
        n.session.paced == o.session.paced,
        !h.pending,
        h.core.breakpoints@.len() == 0,
        h.core.watch_words@.len() == 0,
        h.core.reg_watches@.len() == 0,
        h.core.console@.len() == 0,
        !h.core.lib_events_armed && !h.core.loadseg_break && !h.core.outside_rom,
        opt_text(h.core.run_stop) == opt_text(g.stop_on_load),
        h.core.bartman == g.core.bartman,
        n.fx@[o.fx@.len() as int] == (Effect::<Seq<char>>::ArmTimeTravel {
            budget_mb: g.reverse_budget_mb,
            interval_frames: g.reverse_interval_frames,
        }),
        o.session.control_pending ==> n.fx@[o.fx@.len() as int + 1] == (
        Effect::<Seq<char>>::ControlStopped {
            reason: "pause"@,
            detail: "paused: gdb client attached"@,
        }),
        n.fx@.last() == Effect::<Seq<char>>::Redraw,
{
}

/// A client's interrupt pauses the machine and answers the client once, whether or not
/// it waited; a control client that waited is told too.
pub proof fn lemma_interrupt_pauses(o: &App, n: &App, g: GdbGui)
    requires
        interrupted(o, n),
        o.gdb == Some(g),
    ensures
        n.session.paused,
        !n.session.control_pending,
        n.gdb matches Some(h) && !h.pending && h.core == g.core && h.breaks == g.breaks,
        n.machine == o.machine,
        o.session.control_pending ==> n.fx@[o.fx@.len() as int] == (
        Effect::<Seq<char>>::ControlStopped { reason: "pause"@, detail: "interrupted by gdb"@ }),
        n.fx@.len() == o.fx@.len() + 4 + (if o.session.control_pending {
            1int
        } else {
            0
        }),
        n.fx@[n.fx@.len() - 4] == Effect::GdbPacket(
            if g.core.bartman {
                "S05"@
            } else {
                "T05thread:1;"@
            },
        ),
{
}

/// Detaching gives up the client's warp and whatever it waited for, and leaves the
/// machine running or paused as it was. A capture run keeps its own pace.
pub proof fn lemma_detach_releases(o: &App, n: &App, why: Seq<char>)
    requires
        detached(o, n, why),
        o.gdb is Some,
    ensures
        n.session.paused == o.session.paused,
        !o.session.capture_run ==> !n.session.holds.gdb,
        n.session.holds.control == o.session.holds.control,
        n.session.holds.guest == o.session.holds.guest,
        o.session.capture_run ==> n.session == o.session,
        !o.session.holds.gdb ==> n.session == o.session,
        o.session.holds.gdb && !o.session.capture_run && !o.session.holds.control
            && !o.session.holds.guest ==> n.session.paced,
        o.session.holds.gdb && (o.session.holds.control || o.session.holds.guest)
            ==> n.session.paced == o.session.paced,
        n.gdb matches Some(h) && !h.pending,
        n.fx@.last() == Effect::<Seq<char>>::Redraw,
        n.fx@[n.fx@.len() - 2] == Effect::Osd(why),
{
}

/// A kill request detaches the client and closes its connection; the machine stays.
pub proof fn lemma_kill_only_detaches(o: &App, n: &App)
    requires
        killed(o, n),
        o.gdb is Some,
    ensures
        n.fx@.last() == Effect::GdbDisconnect("kill request"@),
        n.session.paused == o.session.paused,
        n.session.powered_on == o.session.powered_on,
        !o.session.capture_run ==> !n.session.holds.gdb,
{
    let mid = choose|mid: App| #[trigger]
        detached(o, &mid, "GDB kill request: detached (window stays open)"@) && *n == (App {
            fx: n.fx,
            ..mid
        }) && n.fx@ == (if o.gdb is Some {
            mid.fx@.push(Effect::GdbDisconnect("kill request"@))
        } else {
            mid.fx@
        });
    assert(mid.session == n.session);
}

/// What would move the machine is refused while anyone waits for it to stop, and
/// nothing but the refusal happens; otherwise it goes to the protocol engine. What
/// does not move it always may.
pub proof fn lemma_moving_waits_for_a_stop(o: &App, n: &App, p: Seq<char>, step: PacketStep)
    requires
        packet_taken(o, n, p, step),
        p != "QStartNoAckMode"@,
        qrcmd(p) is None,
        o.gdb is Some,
    ensures
        repositions(p) && (o.session.control_pending || o.gdb.unwrap().pending) ==> {
            &&& step is Answered
            &&& n.fx@.last() == Effect::GdbPacket("E01"@)
            &&& n.session == o.session
            &&& n.machine == o.machine
        },
        repositions(p) && !o.session.control_pending && !o.gdb.unwrap().pending ==> step is Handle
            && *n == *o,
        !repositions(p) && !o.gdb.unwrap().core.bartman ==> step is Handle && *n == *o,
        !repositions(p) && o.gdb.unwrap().core.run_stop is None ==> step is Handle && *n == *o,
        !repositions(p) && p != "?"@ && p != "qOffsets"@ ==> step is Handle && *n == *o,
{
}

/// Without a stub attached no message does anything.
pub proof fn lemma_no_stub_no_answer(o: &App, n: &App, m: GdbMsg, step: PacketStep)
    requires
        message_taken(o, n, m, step),
        o.gdb is None,
    ensures
        *n == *o,
        step is Answered,
{
}

/// A machine that is off or whose CPU has locked up cannot run for a client.
pub proof fn lemma_only_a_live_machine_runs(powered_on: bool, double_faulted: bool)
    ensures
        cannot_run(powered_on, double_faulted) is None <==> powered_on && !double_faulted,
        !powered_on ==> cannot_run(powered_on, double_faulted) == Some("machine is powered off\n"@),
{
}

/// A refusal changes nothing but the client's console and answers it with an error.
pub proof fn lemma_refusal_changes_nothing(o: &App, n: &App, why: Seq<char>)
    requires
        refused(o, n, why),
        o.gdb is Some,
    ensures
        n.session == o.session,
        n.machine == o.machine,
        n.fx@.last() == Effect::GdbPacket("E01"@),
        n.fx@[n.fx@.len() - 2] == Effect::GdbConsole(why),
        n.gdb matches Some(h) && h.pending == o.gdb.unwrap().pending,
{
}

/// A continue lets the machine run and has the client wait for its next stop.
pub proof fn lemma_continue_runs(o: &App, n: &App)
    requires
        set_running(o, n),
    ensures
        !n.session.paused,
        n.gdb matches Some(h) && h.pending,
        n.session.holds == o.session.holds,
        n.session.control_pending == o.session.control_pending,
        n.fx@ == o.fx@.push(Effect::Redraw),
{
}

/// A packet that writes memory starts with a capital M, and the machine's watches take
/// the written words as seen: none of them fires on the client's own write.
pub proof fn lemma_client_writes_fire_no_watch(
    o: &App,
    n: &App,
    p: Seq<char>,
    reply: Seq<char>,
    i: int,
)
    requires
        answered(o, n, p, reply),
        p.len() > 0,
        p[0] == 'M',
        0 <= i < n.machine.breaks.watches@.len(),
    ensures
        n.machine.breaks.watches@[i].last == o.machine.memory.word(
            n.machine.breaks.watches@[i].addr,
        ),
        n.session == o.session,
{
    assert(is_write(p));
}

/// A step that stopped for a reason is reported by it; one that ran to its end, or
/// left the CPU halted, as an ordinary stop.
pub proof fn lemma_steps_report(o: &App, mid: &App, outcome: StepOutcome)
    requires
        step_told(o, mid, outcome),
    ensures
        outcome is Halted ==> mid.session.cpu_halted,
        !(outcome is Halted) ==> mid.session == o.session,
        !(outcome matches StepOutcome::Ran(Some(_))) ==> step_reply(o, outcome) == (
        if o.gdb matches Some(g) && g.core.bartman {
            "S05"@
        } else {
            "T05thread:1;"@
        }),
{
}

/// The client's monitor warp commands by their words; anything else after the word is
/// a mistake that changes nothing.
pub proof fn lemma_monitor_warp(c: Seq<char>, lex: &Lexicon, s: Session)
    requires
        words(c).len() > 0,
        words(c)[0] == "warp"@,
    ensures
        words(c).len() > 1 && words(c)[1] == "on"@ ==> monitor_of(c, lex) is WarpOn,
        words(c).len() > 1 && words(c)[1] == "off"@ ==> monitor_of(c, lex) is WarpOff,
        words(c).len() == 1 || words(c)[1] == "status"@ ==> monitor_of(c, lex) is WarpStatus,
        words(c).len() > 1 && words(c)[1] != "on"@ && words(c)[1] != "off"@ && words(c)[1]
            != "status"@ ==> monitor_of(c, lex) is WarpUsage,
        !(monitor_of(c, lex) is WarpOn) && !(monitor_of(c, lex) is WarpOff) ==> monitor_session(
            monitor_of(c, lex),
            s,
        ) == s && monitor_effects(monitor_of(c, lex), s).len() == 0,
{
    reveal_strlit("on");
    reveal_strlit("off");
    reveal_strlit("status");
}

/// A client that asks for warp gets it, and the hold, unless a physical drive keeps the
/// pace or a capture run has its own; asking for it off gives the hold up.
pub proof fn lemma_monitor_warp_switches(s: Session)
    ensures
        !s.capture_run && !s.bridged ==> !monitor_session(Monitor::WarpOn, s).paced
            && monitor_session(Monitor::WarpOn, s).holds.gdb,
        !s.capture_run && s.bridged ==> monitor_session(Monitor::WarpOn, s).paced,
        !s.capture_run ==> !monitor_session(Monitor::WarpOff, s).holds.gdb,
        !s.capture_run && !s.holds.control && !s.holds.guest ==> monitor_session(
            Monitor::WarpOff,
            s,
        ).paced,
        s.capture_run ==> monitor_session(Monitor::WarpOn, s) == s && monitor_session(
            Monitor::WarpOff,
            s,
        ) == s,
{
}

/// Watching a custom register and ceasing to: the register is watched after the one,
/// not after the other, and no other register is touched.
pub proof fn lemma_monitor_register_watches(
    c: Seq<char>,
    lex: &Lexicon,
    off: u16,
    regs: Seq<u16>,
    other: u16,
)
    requires
        words(c).len() > 1,
        lex.register(words(c)[1]) == Some(off),
    ensures
        words(c)[0] == "watch-reg"@ ==> {
            let m = monitor_of(c, lex);
            &&& monitor_regs(m, regs).contains(off)
            &&& other != off ==> monitor_regs(m, regs).contains(other) == regs.contains(other)
        },
        words(c)[0] == "unwatch-reg"@ ==> {
            let m = monitor_of(c, lex);
            &&& !monitor_regs(m, regs).contains(off)
            &&& other != off ==> monitor_regs(m, regs).contains(other) == regs.contains(other)
        },
{
    reveal_strlit("warp");
    reveal_strlit("watch-reg");
    reveal_strlit("unwatch-reg");
    assert("warp"@.len() != "watch-reg"@.len() && "warp"@.len() != "unwatch-reg"@.len());
    assert(words(c)[0] == "watch-reg"@ ==> monitor_of(c, lex) == (Monitor::<Seq<char>>::WatchReg {
        off,
        watch: true,
    }));
    assert(words(c)[0] == "unwatch-reg"@ ==> monitor_of(c, lex) == (Monitor::<Seq<char>>::WatchReg {
        off,
        watch: false,
    })) by {
        assert("unwatch-reg"@.len() != "watch-reg"@.len());
    }
    if regs.contains(off) {
    } else {
        let t = regs.push(off);
        assert(t[regs.len() as int] == off);
        if regs.contains(other) {
            let i = choose|i: int| 0 <= i < regs.len() && regs[i] == other;
            assert(t[i] == other);
        }
        if t.contains(other) && other != off {
            let i = choose|i: int| 0 <= i < t.len() && t[i] == other;
            assert(regs[i] == other);
        }
    }
    let keep = |r: u16| r != off;
    let f = regs.filter(keep);
    assert(monitor_regs(Monitor::WatchReg { off, watch: false }, regs) == f);
    assert(!f.contains(off)) by {
        if f.contains(off) {
            let i = choose|i: int| 0 <= i < f.len() && f[i] == off;
            regs.lemma_filter_pred(keep, i);
        }
    }
    if other != off {
        if regs.contains(other) {
            let i = choose|i: int| 0 <= i < regs.len() && regs[i] == other;
            regs.lemma_filter_contains(keep, i);
        }
        if f.contains(other) {
            regs.lemma_filter_contains_rev(keep, other);
        }
    }
}

/// A register command without a register, or with one that is not known, is answered
/// so and watches nothing new; clearing clears them all.
pub proof fn lemma_monitor_register_mistakes(c: Seq<char>, lex: &Lexicon, s: Session, regs: Seq<u16>)
    requires
        words(c).len() > 0,
        words(c)[0] == "watch-reg"@ || words(c)[0] == "unwatch-reg"@,
    ensures
        words(c).len() == 1 ==> monitor_text(monitor_of(c, lex), s, lex) == Some(
            "usage: monitor "@ + words(c)[0] + " NAME|OFFSET\n"@,
        ),
        words(c).len() > 1 && lex.register(words(c)[1]) is None ==> monitor_text(
            monitor_of(c, lex),
            s,
            lex,
        ) == Some("unknown custom register "@ + words(c)[1] + "\n"@),
        words(c).len() == 1 || lex.register(words(c)[1]) is None ==> monitor_regs(
            monitor_of(c, lex),
            regs,
        ) == regs,
        monitor_regs(Monitor::ClearRegs, regs).len() == 0,
{
    reveal_strlit("warp");
    reveal_strlit("watch-reg");
    reveal_strlit("unwatch-reg");
    assert("warp"@.len() != "watch-reg"@.len() && "warp"@.len() != "unwatch-reg"@.len());
    if words(c).len() > 1 && lex.register(words(c)[1]) is None {
        assert(monitor_of(c, lex) == Monitor::UnknownReg(words(c)[1]));
    }
}

/// What the emulator logs reaches a Bartman client line by line, each marked.
pub proof fn lemma_log_lines_are_marked(chunks: Seq<Seq<char>>, i: int)
    requires
        0 <= i < logged(chunks).len(),
    ensures
        logged(chunks)[i].len() >= 6,
        logged(chunks)[i].take(5) == "DBG: "@,
        logged(chunks)[i].last() == '\n',
    decreases chunks.len(),
{
    reveal_strlit("DBG: ");
    reveal_strlit("\n");
    let front = logged(chunks.drop_last());
    if i < front.len() {
        lemma_log_lines_are_marked(chunks.drop_last(), i);
    } else {
        let l = crate::text::lines_of(chunks.last())[i - front.len()];
        assert(logged(chunks)[i] == "DBG: "@ + l + "\n"@);
        assert(("DBG: "@ + l + "\n"@).take(5) =~= "DBG: "@);
    }
}

} // verus!
