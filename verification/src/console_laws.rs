//! What a console command does to the machine: what each one leaves changed, what it
//! leaves alone, and what undoes it.

use vstd::prelude::*;

use crate::answers::ExecOutcome;
use crate::answers::Reversed;
use crate::answers::alert_entry;
use crate::answers::exec_lines;
use crate::answers::reverse_lines;
use crate::answers::reverse_stop;
use crate::app::App;
use crate::breaks::opt_text;
use crate::breaks::toggled;
use crate::command::Command;
use crate::command::HuntCommand;
use crate::console::Ask;
use crate::console::ConsoleStep;
use crate::console::executed;
use crate::console::find_line;
use crate::console::hunt_list;
use crate::console::hunted;
use crate::console::looks_for;
use crate::console::next_line;
use crate::console::remain_line;
use crate::effects::Effect;
use crate::hunt::HuntState;
use crate::machine::Machine;
use crate::machine::has_trap;
use crate::memory::Memory;
use crate::memory::search_result;
use crate::number::digits_of;

verus! {

/// What the console asks the machine to do, on a command that moves it.
pub open spec fn asks(step: ConsoleStep<Seq<Seq<char>>, Seq<char>>, a: Ask<Seq<char>>) -> bool {
    step matches ConsoleStep::Ask(b) && b == a
}

/// A command that moves the machine pauses it first, for good: closing an inspector
/// later leaves it paused, and the last stop is forgotten. Its memory, registers and
/// points are as they were when it is asked to move.
pub proof fn lemma_moving_pauses(
    o: &App,
    n: &App,
    c: Command<Seq<char>, Seq<u8>>,
    step: ConsoleStep<Seq<Seq<char>>, Seq<char>>,
)
    requires
        executed(o, n, c, step),
        c is Step || c is Over || c is Out || c is Frame || c is Line || c is CopperStep
            || c is RunTo || c is ToSlot || c is ReverseStep || c is ReverseFrame
                || c is ReverseRun,
    ensures
        n.session.paused,
        n.desk.paused_before_debugger,
        n.desk.paused_before_analyzer,
        n.desk.paused_before_console,
        n.last_debug_stop is None,
        n.machine == o.machine,
        n.hunt == o.hunt,
        n.fx == o.fx,
        step is Ask,
{
}

/// How each command moves it, and how far it goes at most.
pub proof fn lemma_moves(
    o: &App,
    n: &App,
    c: Command<Seq<char>, Seq<u8>>,
    step: ConsoleStep<Seq<Seq<char>>, Seq<char>>,
    k: u64,
    addr: u32,
    v: u16,
    h: Option<u16>,
)
    requires
        executed(o, n, c, step),
    ensures
        c == Command::<Seq<char>, Seq<u8>>::Step(k) ==> asks(step, Ask::Step(k)),
        c == Command::<Seq<char>, Seq<u8>>::ReverseStep(k) ==> asks(step, Ask::ReverseStep(k)),
        c == Command::<Seq<char>, Seq<u8>>::RunTo(addr) ==> asks(
            step,
            Ask::RunToPc { addr, budget: 2_000_000 },
        ),
        c == Command::<Seq<char>, Seq<u8>>::ToSlot(v, h) ==> asks(
            step,
            Ask::RunToBeam { vpos: v, hpos: h, budget: 2_000_000 },
        ),
        c is Over ==> asks(step, Ask::Over(5_000_000)),
        c is Out ==> asks(step, Ask::Out(5_000_000)),
        c is Frame ==> asks(step, Ask::Frame),
        c is CopperStep ==> asks(step, Ask::CopperStep(2_000_000)),
        c is ReverseFrame ==> asks(step, Ask::ReverseFrame),
        c is ReverseRun ==> asks(step, Ask::ReverseRun),
        c is Line ==> (step matches ConsoleStep::Ask(Ask::RunToBeam { vpos, hpos, budget })
            && vpos == next_line(&o.machine) && hpos is None && budget == 2_000_000),
{
}

/// The line after the last of a frame is its first; any other is followed by the next.
pub proof fn lemma_lines_wrap(m: &Machine)
    requires
        m.frame_lines <= 0x1_0000,
        m.vpos < m.frame_lines,
    ensures
        m.vpos + 1 < m.frame_lines ==> next_line(m) == m.vpos + 1,
        m.vpos + 1 == m.frame_lines ==> next_line(m) == 0,
{
    let lines = m.frame_lines as int;
    if m.vpos + 1 < lines {
        vstd::arithmetic::div_mod::lemma_small_mod((m.vpos + 1) as nat, lines as nat);
    } else {
        vstd::arithmetic::div_mod::lemma_mod_self_0(lines);
    }
}

/// Running lets the machine run, and pausing holds it, each for good; neither touches
/// its state.
pub proof fn lemma_run_and_pause(
    o: &App,
    n: &App,
    c: Command<Seq<char>, Seq<u8>>,
    step: ConsoleStep<Seq<Seq<char>>, Seq<char>>,
)
    requires
        executed(o, n, c, step),
    ensures
        c is Run ==> !n.session.paused && n.machine == o.machine && !n.desk.paused_before_console
            && !n.desk.paused_before_debugger && !n.desk.paused_before_analyzer,
        c is Pause ==> n.session.paused && n.machine == o.machine && n.desk.paused_before_console
            && n.desk.paused_before_debugger && n.desk.paused_before_analyzer && n.fx@.last()
            == Effect::<Seq<char>>::FinishRender,
        c is Run || c is Pause ==> n.last_debug_stop == o.last_debug_stop && n.hunt == o.hunt,
{
}

/// Looking changes nothing.
pub proof fn lemma_looking_changes_nothing(
    o: &App,
    n: &App,
    c: Command<Seq<char>, Seq<u8>>,
    step: ConsoleStep<Seq<Seq<char>>, Seq<char>>,
)
    requires
        executed(o, n, c, step),
        c is Nothing || c is Help || c is Clear || c is Close || c is Status || c is Breaks
            || c is Regs || c is History || c is Mem || c is Blits || c is Find || c is Bad
            || c is Os || c is Task || c is CatchAlert || c is Guru || c is Stack || c is Dis
            || c is Copper || c is Custom || c is TraceStart || c is TraceStop || c is TraceStatus
            || c is WaveStart || c is WaveStop || c is WaveStatus || c is Writer,
    ensures
        *n == *o,
{
}

/// Clearing clears the page and closing closes it, and neither prints; a mistake is
/// marked and told.
pub proof fn lemma_page_commands(
    o: &App,
    n: &App,
    c: Command<Seq<char>, Seq<u8>>,
    step: ConsoleStep<Seq<Seq<char>>, Seq<char>>,
)
    requires
        executed(o, n, c, step),
    ensures
        c is Clear ==> (step matches ConsoleStep::Done { lines, clear, close } && lines.len() == 0
            && clear && !close),
        c is Close ==> (step matches ConsoleStep::Done { lines, clear, close } && lines.len() == 0
            && !clear && close),
        c is Nothing ==> (step matches ConsoleStep::Done { lines, clear, close } && lines.len()
            == 0 && !clear && !close),
        c matches Command::Bad(why) ==> (step matches ConsoleStep::Done { lines, clear, close }
            && lines == seq!["!"@ + why] && !clear && !close),
{
}

/// What the console looks for outside itself: a disassembly at an even address, the
/// program counter's by default, the last write to a word, what the last alert meant by
/// the code in the last data register, and a copper list from a little before the copper.
pub proof fn lemma_looks(o: &App, addr: u32, count: u64)
    requires
        o.machine.regs@.len() == 18,
    ensures
        looks_for(o, Command::Dis { addr: Some(addr), count }) == Some(
            Ask::<Seq<char>>::Disassemble { addr: addr & 0xFFFF_FFFE, count },
        ),
        looks_for(o, Command::Dis { addr: None, count }) == Some(
            Ask::<Seq<char>>::Disassemble { addr: o.machine.regs@[17] & 0xFFFF_FFFE, count },
        ),
        looks_for(o, Command::Guru(None)) == Some(Ask::<Seq<char>>::Guru(o.machine.regs@[7])),
        looks_for(o, Command::Guru(Some(addr))) == Some(Ask::<Seq<char>>::Guru(addr)),
        looks_for(o, Command::Writer(addr)) == Some(
            Ask::<Seq<char>>::LastWriter(addr & o.machine.memory.mask & 0xFFFF_FFFE),
        ),
        looks_for(o, Command::Copper { start: Some(addr), count }) == Some(
            Ask::<Seq<char>>::CopperList { start: addr, count },
        ),
        o.machine.copper.pc >= 16 ==> looks_for(o, Command::Copper { start: None, count }) == Some(
            Ask::<Seq<char>>::CopperList { start: (o.machine.copper.pc - 16) as u32, count },
        ),
        o.machine.copper.pc < 16 ==> looks_for(o, Command::Copper { start: None, count }) == Some(
            Ask::<Seq<char>>::CopperList { start: 0, count },
        ),
        looks_for(o, Command::TraceStart(None)) == Some(
            Ask::<Seq<char>>::TraceStart { path: None, cap: 1_000_000 },
        ),
        looks_for(o, Command::Stack) == Some(Ask::<Seq<char>>::Stack),
        looks_for(o, Command::CatchAlert) == Some(Ask::<Seq<char>>::ExecBase),
{
}

/// A breakpoint without a condition or a count takes away the one that stands there, and
/// is set where none does; with either it is set whatever stands there. Only the one
/// address is touched, and nothing else that stops the machine.
pub proof fn lemma_breakpoint_command(
    o: &App,
    n: &App,
    addr: u32,
    cond: Option<Seq<char>>,
    ignore: u32,
    step: ConsoleStep<Seq<Seq<char>>, Seq<char>>,
    other: u32,
)
    requires
        executed(o, n, Command::Break { addr, cond, ignore }, step),
    ensures
        ({
            let at = addr & o.machine.memory.mask;
            let was = o.machine.breaks.points();
            let now = n.machine.breaks.points();
            &&& cond is None && ignore == 0 && was.dom().contains(at) ==> now.get(at) is None
            &&& cond is None && ignore == 0 && !was.dom().contains(at)
                ==> (now.get(at) matches Some(
                p,
            ) && p.addr == at && p.cond is None && p.ignore == 0 && p.hits == 0)
            &&& cond is Some || ignore != 0 ==> (now.get(at) matches Some(p) && p.addr == at
                && opt_text(p.cond) == cond && p.ignore == ignore && p.hits == 0)
            &&& other != at ==> now.get(other) == was.get(other)
            &&& n.machine.breaks.watches == o.machine.breaks.watches
            &&& n.machine.breaks.reg_watches == o.machine.breaks.reg_watches
            &&& n.machine.breaks.catches == o.machine.breaks.catches
            &&& n.machine.memory == o.machine.memory && n.machine.regs == o.machine.regs
            &&& n.session == o.session
        }),
{
}

/// A watch is set where its word has none, for writes, and starts from the value that
/// the word holds; where it has one, that is taken away.
pub proof fn lemma_watch_command(
    o: &App,
    n: &App,
    addr: u32,
    filter: Option<u8>,
    pc: Option<u32>,
    step: ConsoleStep<Seq<Seq<char>>, Seq<char>>,
    other: u32,
)
    requires
        executed(o, n, Command::Watch { addr, filter, pc }, step),
    ensures
        ({
            let word = addr & o.machine.memory.mask & 0xFFFF_FFFE;
            let was = o.machine.breaks.words();
            let now = n.machine.breaks.words();
            &&& was.dom().contains(word) ==> !now.dom().contains(word)
            &&& !was.dom().contains(word) ==> {
                &&& now.dom().contains(word)
                &&& now[word].filter == filter && now[word].pc == pc
                &&& now[word].access is Write
                &&& n.machine.breaks.watches@.last().last == o.machine.memory.word(word)
            }
            &&& other != word ==> now.get(other) == was.get(other)
            &&& n.machine.breaks.breakpoints == o.machine.breaks.breakpoints
            &&& n.machine.breaks.reg_watches == o.machine.breaks.reg_watches
            &&& n.machine.breaks.catches == o.machine.breaks.catches
        }),
{
}

/// Toggling: what was in is out, what was not is in, and nothing else moves.
pub proof fn lemma_toggling(s: Seq<u16>, v: u16, other: u16)
    requires
        s.no_duplicates(),
    ensures
        toggled(s, v).contains(v) == !s.contains(v),
        other != v ==> toggled(s, v).contains(other) == s.contains(other),
{
    if s.contains(v) {
        let i = s.index_of(v);
        let t = s.remove(i);
        assert(s[i] == v);
        assert(!t.contains(v)) by {
            if t.contains(v) {
                let j = choose|j: int| 0 <= j < t.len() && t[j] == v;
                if j < i {
                    assert(s[j] == v);
                } else {
                    assert(s[j + 1] == v);
                }
            }
        }
        if other != v {
            if s.contains(other) {
                let j = choose|j: int| 0 <= j < s.len() && s[j] == other;
                if j < i {
                    assert(t[j] == other);
                } else {
                    assert(t[j - 1] == other);
                }
            }
            if t.contains(other) {
                let j = choose|j: int| 0 <= j < t.len() && t[j] == other;
                if j < i {
                    assert(s[j] == other);
                } else {
                    assert(s[j + 1] == other);
                }
            }
        }
    } else {
        let t = s.push(v);
        assert(t[s.len() as int] == v);
        if other != v {
            if s.contains(other) {
                let j = choose|j: int| 0 <= j < s.len() && s[j] == other;
                assert(t[j] == other);
            }
            if t.contains(other) {
                let j = choose|j: int| 0 <= j < t.len() && t[j] == other;
                assert(s[j] == other);
            }
        }
    }
}

/// Watching a custom register and catching a vector toggle the one that is named.
pub proof fn lemma_register_watch_and_catch(
    o: &App,
    n: &App,
    c: Command<Seq<char>, Seq<u8>>,
    step: ConsoleStep<Seq<Seq<char>>, Seq<char>>,
    other: u16,
)
    requires
        executed(o, n, c, step),
        o.machine.breaks.reg_watches@.no_duplicates(),
        o.machine.breaks.catches@.no_duplicates(),
    ensures
        c matches Command::RegWatch(off) ==> {
            &&& n.machine.breaks.reg_watches@.contains(off)
                == !o.machine.breaks.reg_watches@.contains(off)
            &&& other != off ==> n.machine.breaks.reg_watches@.contains(other)
                == o.machine.breaks.reg_watches@.contains(other)
            &&& n.machine.breaks.catches == o.machine.breaks.catches
        },
        c matches Command::Catch(vector) ==> {
            &&& n.machine.breaks.catches@.contains(vector) == !o.machine.breaks.catches@.contains(
                vector,
            )
            &&& other != vector ==> n.machine.breaks.catches@.contains(other)
                == o.machine.breaks.catches@.contains(other)
            &&& n.machine.breaks.reg_watches == o.machine.breaks.reg_watches
        },
        c matches Command::CatchTask(t) ==> opt_text(n.machine.breaks.task_catch) == t
            && n.machine.breaks.catches == o.machine.breaks.catches,
{
    match c {
        Command::RegWatch(off) => lemma_toggling(o.machine.breaks.reg_watches@, off, other),
        Command::Catch(v) => lemma_toggling(o.machine.breaks.catches@, v, other),
        _ => {},
    }
}

/// A beam trap is set where there is none at its place, to stay; where there is one, the
/// first of them is taken away and the others keep their order.
pub proof fn lemma_beam_trap_command(
    o: &App,
    n: &App,
    v: u16,
    h: Option<u16>,
    step: ConsoleStep<Seq<Seq<char>>, Seq<char>>,
)
    requires
        executed(o, n, Command::BeamTrap(v, h), step),
    ensures
        !has_trap(o.machine.beam_traps@, v, h) ==> {
            &&& n.machine.beam_traps@.len() == o.machine.beam_traps@.len() + 1
            &&& n.machine.beam_traps@.last().vpos == v && n.machine.beam_traps@.last().hpos == h
            &&& !n.machine.beam_traps@.last().once
        },
        has_trap(o.machine.beam_traps@, v, h) ==> n.machine.beam_traps@.len()
            == o.machine.beam_traps@.len() - 1,
        n.machine.breaks == o.machine.breaks && n.machine.copper_breaks == o.machine.copper_breaks,
{
}

/// A copper breakpoint toggles its word, inside the chip's address space.
pub proof fn lemma_copper_break_command(
    o: &App,
    n: &App,
    addr: u32,
    step: ConsoleStep<Seq<Seq<char>>, Seq<char>>,
)
    requires
        executed(o, n, Command::CopperBreak(addr), step),
    ensures
        !o.machine.copper_breaks@.contains(addr & 0x00FF_FFFE) ==> n.machine.copper_breaks@
            == o.machine.copper_breaks@.push(addr & 0x00FF_FFFE),
        o.machine.copper_breaks@.contains(addr & 0x00FF_FFFE) ==> n.machine.copper_breaks@.len()
            == o.machine.copper_breaks@.len() - 1,
        n.machine.breaks == o.machine.breaks && n.machine.beam_traps == o.machine.beam_traps,
{
}

/// Clearing takes away everything that stops the machine and forgets the last stop.
pub proof fn lemma_clear_breaks_command(
    o: &App,
    n: &App,
    step: ConsoleStep<Seq<Seq<char>>, Seq<char>>,
)
    requires
        executed(o, n, Command::ClearBreaks, step),
    ensures
        n.machine.breaks.breakpoints@.len() == 0 && n.machine.breaks.watches@.len() == 0,
        n.machine.breaks.reg_watches@.len() == 0 && n.machine.breaks.catches@.len() == 0,
        n.machine.breaks.loadseg_catch is None && n.machine.breaks.task_catch is None,
        n.machine.beam_traps@.len() == 0 && n.machine.copper_breaks@.len() == 0,
        n.last_debug_stop is None,
        n.machine.memory == o.machine.memory && n.machine.regs == o.machine.regs,
        n.session == o.session,
{
}

/// A poke to writable memory is read back as the word that was poked, high byte first,
/// at the even address; every other byte stays, and what is not writable is not written.
pub proof fn lemma_poke_writes_its_word(
    o: &App,
    n: &App,
    addr: u32,
    value: u16,
    step: ConsoleStep<Seq<Seq<char>>, Seq<char>>,
    x: u32,
)
    requires
        executed(o, n, Command::Poke { addr, value }, step),
    ensures
        ({
            let even = addr & 0xFFFF_FFFE;
            let hi = even & o.machine.memory.mask;
            let lo = (even + 1) as u32 & o.machine.memory.mask;
            let was = &o.machine.memory;
            let now = &n.machine.memory;
            &&& hi != lo && was.can_write(hi) ==> now.at(hi) == value / 256
            &&& was.can_write(lo) ==> now.at(lo) == value % 256
            &&& x != hi && x != lo ==> now.at(x) == was.at(x)
            &&& !was.can_write(x) ==> now.at(x) == was.at(x)
            &&& hi != lo && was.can_write(hi) && was.can_write(lo) ==> now.word(even) == value
            &&& n.machine.regs == o.machine.regs && n.machine.breaks == o.machine.breaks
        }),
{
    let even = addr & 0xFFFF_FFFE;
    assert(even <= 0xFFFF_FFFE) by (bit_vector)
        requires
            even == addr & 0xFFFF_FFFE,
    ;
    let hi = even & o.machine.memory.mask;
    let lo = (even + 1) as u32 & o.machine.memory.mask;
    assert(crate::memory::bus_addr(even as int, 0, o.machine.memory.mask) == hi);
    assert(crate::memory::bus_addr(even as int, 1, o.machine.memory.mask) == lo);
    assert(n.machine.memory.at(x) == crate::console::poked(&o.machine.memory, even, value, x));
    assert(n.machine.memory.at(hi) == crate::console::poked(&o.machine.memory, even, value, hi));
    assert(n.machine.memory.at(lo) == crate::console::poked(&o.machine.memory, even, value, lo));
}

/// Setting a register sets that one, to the whole value, the status register to its low
/// half; every other register stays.
pub proof fn lemma_setreg_sets_one(
    o: &App,
    n: &App,
    reg: u8,
    value: u32,
    name: Seq<char>,
    step: ConsoleStep<Seq<Seq<char>>, Seq<char>>,
    other: int,
)
    requires
        executed(o, n, Command::SetReg { reg, value, name }, step),
        o.machine.regs@.len() == 18,
        reg < 18,
        0 <= other < 18,
    ensures
        reg != 16 ==> n.machine.regs@[reg as int] == value,
        reg == 16 ==> n.machine.regs@[16] == value % 0x1_0000,
        other != reg ==> n.machine.regs@[other] == o.machine.regs@[other],
        n.machine.memory == o.machine.memory && n.machine.breaks == o.machine.breaks,
{
}

/// A search prints the address that it found, and there stand the bytes that it was
/// given; it says so where they stand nowhere.
pub proof fn lemma_find_finds(m: &Machine, pattern: Seq<u8>, start: u32, k: int)
    ensures
        search_result(&m.memory, pattern, m.searchable@, start as int) matches Some(h) ==> {
            &&& find_line(m, pattern, start) == "found at $"@ + crate::number::hex(h, 6)
            &&& 0 <= k < pattern.len() ==> m.memory.byte(h, k) == pattern[k]
        },
        search_result(&m.memory, pattern, m.searchable@, start as int) is None ==> find_line(
            m,
            pattern,
            start,
        ) == "pattern not found"@,
{
    crate::memory::lemma_search_covers_the_map(&m.memory, pattern, m.searchable@, start as int);
}

/// A list of candidates has a line for how many there are, one for each up to the cap,
/// and one for how many more.
pub proof fn lemma_hunt_lists(h: HuntState, m: &Memory, cap: u64, left: Vec<u32>, i: int)
    requires
        h.candidates == Some(left),
    ensures
        hunt_list(Some(h), m, cap).len() == (if left@.len() <= cap {
            left@.len() + 1int
        } else {
            cap + 2
        }),
        0 <= i < left@.len() && i < cap ==> hunt_list(Some(h), m, cap)[i + 1] == "  $"@
            + crate::number::hex(left@[i] as int, 6) + " = "@ + crate::number::hex(
            if h.width == 1 {
                m.byte(left@[i] as int, 0) as int
            } else {
                m.word(left@[i]) as int
            },
            h.width * 2,
        ),
        left@.len() > cap ==> hunt_list(Some(h), m, cap).last() == "  ... "@ + digits_of(
            (left@.len() - cap) as nat,
            10,
        ) + " more"@,
{
}

/// A filter without a hunt does nothing but say so; switching the hunt off ends it;
/// starting one starts afresh; showing and listing change nothing.
pub proof fn lemma_hunt_commands(
    o: &App,
    n: &App,
    c: HuntCommand,
    step: ConsoleStep<Seq<Seq<char>>, Seq<char>>,
)
    requires
        hunted(o, n, c, step),
    ensures
        c is Off ==> n.hunt is None,
        c matches HuntCommand::Start(width) ==> (n.hunt matches Some(h) && h.width == width
            && h.candidates is None),
        c is Show || c is List ==> n.hunt == o.hunt,
        c is Filter && o.hunt is None ==> n.hunt is None,
        c is Filter && o.hunt is Some ==> (n.hunt matches Some(h) && h.candidates is Some && h.width
            == o.hunt.unwrap().width),
        n.machine == o.machine && n.session == o.session,
        remain_line(0) == digits_of(0, 10) + " candidate(s) remain"@,
        remain_line(17) == digits_of(17, 10) + " candidate(s) remain"@,
        remain_line(16) == digits_of(16, 10) + " candidate(s) remain"@
            + "  (HUNT LIST shows them)"@,
{
    assert(remain_line(0) =~= digits_of(0, 10) + " candidate(s) remain"@);
    assert(remain_line(17) =~= digits_of(17, 10) + " candidate(s) remain"@);
}

/// The operating system's alert is entered 108 bytes below its base.
pub proof fn lemma_alert_entry(base: u32)
    ensures
        base >= 108 ==> alert_entry(base, 0xFFFF_FFFF) == base - 108,
{
    if base >= 108 {
        let b: u32 = (base - 108) as u32;
        assert(b & 0xFFFF_FFFFu32 == b) by (bit_vector);
    }
}

/// A run that met something on its way says what, marked, one that did not get where it
/// should says so too, and both end with where the machine stands.
pub proof fn lemma_run_reports(o: &App, ask: Ask<Seq<char>>, outcome: ExecOutcome)
    ensures
        outcome matches ExecOutcome::Ran { reached, stop } ==> {
            &&& exec_lines(o, ask, outcome).last() == crate::report::status_text(&o.machine)
            &&& stop matches Some(m) ==> exec_lines(o, ask, outcome)[0] == "!"@ + m@
            &&& reached && stop is None ==> exec_lines(o, ask, outcome).len() == 1
            &&& !reached && stop is None && (ask is CopperStep || ask is RunToPc
                || ask is RunToBeam) ==> exec_lines(o, ask, outcome).len() == 2
        },
        outcome is Halted ==> exec_lines(o, ask, outcome).len() == 1,
{
}

/// Running backwards remembers what stopped it; stepping backwards does not. A failure
/// says only that, anything else ends with where the machine stands.
pub proof fn lemma_reverse_reports(o: &App, outcome: Reversed, run: bool)
    ensures
        outcome matches Reversed::Found(why) ==> {
            &&& run
                ==> reverse_stop(o, outcome, run) == Some(why@) && reverse_lines(o, outcome, run)[0]
                == "!"@ + why@
            &&& !run ==> reverse_stop(o, outcome, run) == opt_text(o.last_debug_stop)
                && reverse_lines(o, outcome, run).len() == 1
        },
        !(outcome is Found) ==> reverse_stop(o, outcome, run) == opt_text(o.last_debug_stop),
        outcome is Failed ==> reverse_lines(o, outcome, run).len() == 1,
        !(outcome is Failed) ==> reverse_lines(o, outcome, run).last()
            == crate::report::status_text(&o.machine),
        outcome is NotFound || outcome is BeyondHistory ==> reverse_lines(o, outcome, run).len()
            == 2,
{
}

} // verus!
