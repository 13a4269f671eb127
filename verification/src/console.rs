//! The debugger console: a command line over the same machine as the other
//! inspectors. What the console can do itself it does; what takes running the
//! machine, or what only the host can look up, it asks for, and it finishes
//! the command when the answer is there.

use vstd::prelude::*;

use crate::app::App;
use crate::app::hunt_fits;
use crate::breaks::BreakStore;
use crate::breaks::Breakpoint;
use crate::breaks::SavedWatch;
use crate::breaks::Watch;
use crate::breaks::WatchAccess;
use crate::breaks::opt_text;
use crate::breaks::toggled;
use crate::command::Command;
use crate::command::HuntCommand;
use crate::command::HuntFilter;
use crate::command::OsList;
use crate::command::command_of;
use crate::command::command_view;
use crate::command::in_bounds;
use crate::command::lemma_commands_are_bounded;
use crate::command::parse_command;
use crate::dumps::blits_text;
use crate::dumps::console_blits_lines;
use crate::dumps::console_history_lines;
use crate::dumps::console_mem_lines;
use crate::dumps::copper_list_start;
use crate::dumps::copper_start;
use crate::dumps::dump_text;
use crate::dumps::history_text;
use crate::effects::Effect;
use crate::gdb_breaks::clone_text;
use crate::hunt::Bank;
use crate::hunt::HuntState;
use crate::hunt::banks_fit;
use crate::hunt::console_hunt_snapshot;
use crate::hunt::is_snapshot;
use crate::hunt::total_bytes;
use crate::lexicon::Lexicon;
use crate::machine::BeamTrap;
use crate::machine::Machine;
use crate::machine::REG_PC;
use crate::machine::REG_SR;
use crate::machine::has_trap;
use crate::machine::trap_at;
use crate::machine::word_of;
use crate::memory::Memory;
use crate::memory::Region;
use crate::memory::bus_addr;
use crate::memory::lemma_layout_trans;
use crate::memory::same_layout;
use crate::memory::search_cpu_memory;
use crate::memory::search_result;
use crate::number::dec;
use crate::number::hex;
use crate::number::put_dec;
use crate::number::put_hex;
use crate::report::breaks_text;
use crate::report::console_breaks_lines;
use crate::report::console_help;
use crate::report::console_regs_lines;
use crate::report::console_status_line;
use crate::report::help_text;
use crate::report::hpos_text;
use crate::report::no_lines;
use crate::report::one_line;
use crate::report::push_line;
use crate::report::push_text;
use crate::report::put_hpos;
use crate::report::regs_text;
use crate::report::status_text;
use crate::session::Session;
use crate::text::put;
use crate::text::texts;

verus! {

/// Instruction budgets of the bounded run commands.
pub const STEP_BUDGET: u64 = 5_000_000;

pub const RUN_TO_BUDGET: u64 = 2_000_000;

/// Lines after which a trace ends by itself.
pub const TRACE_LINE_CAP: u64 = 1_000_000;

/// What a command needs from the host. `T` is the type of its texts.
#[allow(inconsistent_fields)]
#[derive(PartialEq, Eq, Debug)]
pub enum Ask<T> {
    Step(u64),
    Over(u64),
    Out(u64),
    Frame,
    RunToBeam { vpos: u16, hpos: Option<u16>, budget: u64 },
    CopperStep(u64),
    RunToPc { addr: u32, budget: u64 },
    ReverseStep(u64),
    ReverseFrame,
    ReverseRun,
    LastWriter(u32),
    Os(OsList),
    Task(T),
    ExecBase,
    Guru(u32),
    Stack,
    Disassemble { addr: u32, count: u64 },
    CopperList { start: u32, count: u64 },
    CustomRegisters,
    TraceStart { path: Option<T>, cap: u64 },
    TraceStop,
    TraceStatus,
    WaveStart(T),
    WaveStop,
    WaveStatus,
}

/// Where a command stands: done, with what it prints and what it asks of the
/// console itself, or waiting for the host. `L` is the type of its lines.
#[derive(PartialEq, Eq, Debug)]
pub enum ConsoleStep<L, T> {
    Done { lines: L, clear: bool, close: bool },
    Ask(Ask<T>),
}

pub open spec fn ask_view(a: Ask<String>) -> Ask<Seq<char>> {
    match a {
        Ask::Step(n) => Ask::Step(n),
        Ask::Over(n) => Ask::Over(n),
        Ask::Out(n) => Ask::Out(n),
        Ask::Frame => Ask::Frame,
        Ask::RunToBeam { vpos, hpos, budget } => Ask::RunToBeam { vpos, hpos, budget },
        Ask::CopperStep(n) => Ask::CopperStep(n),
        Ask::RunToPc { addr, budget } => Ask::RunToPc { addr, budget },
        Ask::ReverseStep(n) => Ask::ReverseStep(n),
        Ask::ReverseFrame => Ask::ReverseFrame,
        Ask::ReverseRun => Ask::ReverseRun,
        Ask::LastWriter(a) => Ask::LastWriter(a),
        Ask::Os(l) => Ask::Os(l),
        Ask::Task(t) => Ask::Task(t@),
        Ask::ExecBase => Ask::ExecBase,
        Ask::Guru(c) => Ask::Guru(c),
        Ask::Stack => Ask::Stack,
        Ask::Disassemble { addr, count } => Ask::Disassemble { addr, count },
        Ask::CopperList { start, count } => Ask::CopperList { start, count },
        Ask::CustomRegisters => Ask::CustomRegisters,
        Ask::TraceStart { path, cap } => Ask::TraceStart { path: opt_text(path), cap },
        Ask::TraceStop => Ask::TraceStop,
        Ask::TraceStatus => Ask::TraceStatus,
        Ask::WaveStart(t) => Ask::WaveStart(t@),
        Ask::WaveStop => Ask::WaveStop,
        Ask::WaveStatus => Ask::WaveStatus,
    }
}

pub open spec fn step_view(s: ConsoleStep<Vec<String>, String>) -> ConsoleStep<
    Seq<Seq<char>>,
    Seq<char>,
> {
    match s {
        ConsoleStep::Done { lines, clear, close } => ConsoleStep::Done {
            lines: texts(lines@),
            clear,
            close,
        },
        ConsoleStep::Ask(a) => ConsoleStep::Ask(ask_view(a)),
    }
}

pub open spec fn prints(lines: Seq<Seq<char>>) -> ConsoleStep<Seq<Seq<char>>, Seq<char>> {
    ConsoleStep::Done { lines, clear: false, close: false }
}

pub open spec fn prints_one(line: Seq<char>) -> ConsoleStep<Seq<Seq<char>>, Seq<char>> {
    prints(seq![line])
}

/// "set" or "removed", as a toggle reports.
pub open spec fn set_word(set: bool) -> Seq<char> {
    if set {
        " set"@
    } else {
        " removed"@
    }
}

fn put_set(out: &mut String, set: bool)
    ensures
        final(out)@ == old(out)@ + set_word(set),
{
    if set {
        put(out, " set");
    } else {
        put(out, " removed");
    }
}

fn print(lines: Vec<String>) -> (r: ConsoleStep<Vec<String>, String>)
    ensures
        step_view(r) == prints(texts(lines@)),
{
    ConsoleStep::Done { lines, clear: false, close: false }
}

fn print_one(line: String) -> (r: ConsoleStep<Vec<String>, String>)
    ensures
        step_view(r) == prints_one(line@),
{
    print(one_line(line))
}

fn print_text(line: &str) -> (r: ConsoleStep<Vec<String>, String>)
    ensures
        step_view(r) == prints_one(line@),
{
    print_one(line.to_owned())
}

/// An explicit Run or Pause: the run state is this, and closing the
/// inspectors keeps it.
pub open spec fn set_run(o: App, paused: bool) -> App {
    App {
        session: (Session { paused, ..o.session }).settled(),
        desk: o.desk.remembering(paused),
        ..o
    }
}

/// The machine held still for a command that moves it.
pub open spec fn held(o: App) -> App {
    App { last_debug_stop: None, ..set_run(o, true) }
}

/// The line after the current one, where the beam is next to be met.
pub open spec fn next_line(m: &Machine) -> u16 {
    let lines = if m.frame_lines == 0 {
        1
    } else {
        m.frame_lines as int
    };
    let target = (m.vpos + 1) % lines;
    if target > 65535 {
        65535
    } else {
        target as u16
    }
}

impl App {
    fn console_set_run(&mut self, paused: bool)
        requires
            old(self).wf(),
        ensures
            final(self).wf(),
            *final(self) == set_run(*old(self), paused),
    {
        self.session.paused = paused;
        self.session.sync_live_audio_suspension();
        self.desk.egui_remember_run_state(paused);
    }

    fn console_hold(&mut self)
        requires
            old(self).wf(),
        ensures
            final(self).wf(),
            *final(self) == held(*old(self)),
    {
        self.console_set_run(true);
        self.last_debug_stop = None;
    }

    fn console_run(&mut self) -> (r: ConsoleStep<Vec<String>, String>)
        requires
            old(self).wf(),
        ensures
            final(self).wf(),
            *final(self) == set_run(*old(self), false),
            step_view(r) == prints_one(
                "running (PAUSE stops; breakpoints report here or on stop)"@,
            ),
    {
        self.console_set_run(false);
        print_text("running (PAUSE stops; breakpoints report here or on stop)")
    }

    fn console_pause(&mut self) -> (r: ConsoleStep<Vec<String>, String>)
        requires
            old(self).wf(),
        ensures
            final(self).wf(),
            *final(self) == (App { fx: final(self).fx, ..set_run(*old(self), true) }),
            final(self).fx@ == old(self).fx@.push(Effect::FinishRender),
            step_view(r) == prints(seq!["paused"@, status_text(&old(self).machine)]),
    {
        self.console_set_run(true);
        let mut lines = no_lines();
        push_text(&mut lines, "paused");
        push_line(&mut lines, console_status_line(&self.machine));
        self.fx.push(Effect::FinishRender);
        assert(texts(lines@) =~= seq!["paused"@, status_text(&old(self).machine)]);
        print(lines)
    }

    fn next_line_target(&self) -> (r: u16)
        ensures
            r == next_line(&self.machine),
    {
        let lines: u64 = if self.machine.frame_lines == 0 {
            1
        } else {
            self.machine.frame_lines as u64
        };
        let target: u64 = (self.machine.vpos as u64 + 1) % lines;
        if target > 65535 {
            65535
        } else {
            target as u16
        }
    }
}

/// Nothing but the machine has changed.
pub open spec fn only_machine(o: &App, n: &App) -> bool {
    *n == (App { machine: n.machine, ..*o })
}

/// Nothing but the machine's store of stops has changed.
pub open spec fn only_store(o: &App, n: &App) -> bool {
    &&& only_machine(o, n)
    &&& n.machine == (Machine { breaks: n.machine.breaks, ..o.machine })
}

/// A breakpoint as it is set. Its condition is a text.
pub open spec fn is_point(
    p: Option<Breakpoint>,
    addr: u32,
    cond: Option<Seq<char>>,
    ignore: u32,
) -> bool {
    p matches Some(p) && p.addr == addr && opt_text(p.cond) == cond && p.ignore == ignore && p.hits
        == 0
}

/// BREAK: the breakpoint is set or changed, or an unconditional request
/// removed it.
pub open spec fn breaks_at(
    a: &BreakStore,
    b: &BreakStore,
    addr: u32,
    cond: Option<Seq<char>>,
    ignore: u32,
) -> bool {
    &&& *b == (BreakStore { breakpoints: b.breakpoints, ..*a })
    &&& forall|x: u32| x != addr ==> #[trigger] b.points().get(x) == a.points().get(x)
    &&& if removes_point(a, addr, cond, ignore) {
        b.points().get(addr) is None
    } else {
        is_point(b.points().get(addr), addr, cond, ignore)
    }
}

pub open spec fn removes_point(
    a: &BreakStore,
    addr: u32,
    cond: Option<Seq<char>>,
    ignore: u32,
) -> bool {
    a.points().dom().contains(addr) && cond is None && ignore == 0
}

/// WATCH: what the line says of the watch.
pub open spec fn watch_line(
    word: u32,
    filter: Option<u8>,
    pc: Option<u32>,
    set: bool,
    lex: &Lexicon,
) -> Seq<char> {
    "watchpoint $"@ + hex(word as int, 6) + (match filter {
        Some(f) => " ("@ + class_title(lex, f) + " accesses only)"@,
        None => Seq::empty(),
    }) + (match pc {
        Some(pc) => " from $"@ + hex(pc as int, 6) + " only"@,
        None => Seq::empty(),
    }) + set_word(set)
}

/// The name of a watch class in a sentence.
pub open spec fn class_title(lex: &Lexicon, f: u8) -> Seq<char> {
    if f < lex.classes@.len() {
        lex.classes@[f as int].title@
    } else {
        "?"@
    }
}

impl App {
    fn console_break(&mut self, addr: u32, cond: Option<String>, ignore: u32) -> (r: ConsoleStep<
        Vec<String>,
        String,
    >)
        requires
            old(self).wf(),
        ensures
            final(self).wf(),
            only_store(old(self), final(self)),
            breaks_at(
                &old(self).machine.breaks,
                &final(self).machine.breaks,
                addr & old(self).machine.memory.mask,
                opt_text(cond),
                ignore,
            ),
            step_view(r) == prints_one(
                "breakpoint $"@ + hex((addr & old(self).machine.memory.mask) as int, 6) + set_word(
                    !removes_point(
                        &old(self).machine.breaks,
                        addr & old(self).machine.memory.mask,
                        opt_text(cond),
                        ignore,
                    ),
                ),
            ),
    {
        let at: u32 = addr & self.machine.memory.mask;
        let ghost before = self.machine.breaks;
        let ghost wanted = opt_text(cond);
        let set: bool = self.machine.breaks.set_breakpoint(at, cond, ignore);
        proof {
            let now = self.machine.breaks;
            assert(now == (BreakStore { breakpoints: now.breakpoints, ..before }));
            assert forall|x: u32| x != at implies #[trigger] now.points().get(x)
                == before.points().get(x) by {}
            assert(set == !removes_point(&before, at, wanted, ignore));
            assert(breaks_at(&before, &now, at, wanted, ignore));
        }
        let mut line = "breakpoint $".to_owned();
        put_hex(&mut line, at as u64, 6);
        put_set(&mut line, set);
        print_one(line)
    }

    fn console_watch(&mut self, addr: u32, filter: Option<u8>, pc: Option<u32>) -> (r: ConsoleStep<
        Vec<String>,
        String,
    >)
        requires
            old(self).wf(),
        ensures
            final(self).wf(),
            only_store(old(self), final(self)),
            ({
                let word = word_of(addr, old(self).machine.memory.mask);
                let set = !old(self).machine.breaks.words().dom().contains(word);
                &&& watched(
                    &old(self).machine,
                    &final(self).machine.breaks,
                    word,
                    filter,
                    pc,
                    WatchAccess::Write,
                )
                &&& step_view(r) == prints_one(
                    watch_line(word, filter, pc, set, &old(self).lexicon),
                )
            }),
    {
        let word: u32 = self.machine.word_addr(addr);
        let set: bool = self.machine.toggle_watch(addr, filter, pc, WatchAccess::Write);
        let mut line = "watchpoint $".to_owned();
        put_hex(&mut line, word as u64, 6);
        let ghost head = line@;
        match filter {
            Some(f) => {
                put(&mut line, " (");
                if (f as usize) < self.lexicon.classes.len() {
                    put(&mut line, self.lexicon.classes[f as usize].title.as_str());
                } else {
                    put(&mut line, "?");
                }
                put(&mut line, " accesses only)");
                assert(line@ =~= head + (" ("@ + class_title(&self.lexicon, f)
                    + " accesses only)"@));
            },
            None => {
                assert(line@ =~= head + Seq::empty());
            },
        }
        let ghost narrowed = line@;
        match pc {
            Some(pc) => {
                put(&mut line, " from $");
                put_hex(&mut line, pc as u64, 6);
                put(&mut line, " only");
                assert(line@ =~= narrowed + (" from $"@ + hex(pc as int, 6) + " only"@));
            },
            None => {
                assert(line@ =~= narrowed + Seq::empty());
            },
        }
        put_set(&mut line, set);
        print_one(line)
    }
}

/// A watch on a word was set, from the word as it is, or removed.
pub open spec fn watched(
    m: &Machine,
    b: &BreakStore,
    word: u32,
    filter: Option<u8>,
    pc: Option<u32>,
    access: WatchAccess,
) -> bool {
    let set = !m.breaks.words().dom().contains(word);
    &&& *b == (BreakStore { watches: b.watches, ..m.breaks })
    &&& b.words() == (if set {
        m.breaks.words().insert(word, SavedWatch { filter, pc, access })
    } else {
        m.breaks.words().remove(word)
    })
    &&& set ==> b.watches@ == m.breaks.watches@.push(
        Watch {
            addr: word,
            saved: SavedWatch { filter, pc, access },
            last: m.memory.word(word),
        },
    )
}

/// A beam trap was set, or the first one at its place removed.
pub open spec fn trapped(
    a: Seq<BeamTrap>,
    b: Seq<BeamTrap>,
    vpos: u16,
    hpos: Option<u16>,
) -> bool {
    if has_trap(a, vpos, hpos) {
        exists|i: int| #[trigger]
            trap_at(a, vpos, hpos, i) && (forall|j: int| 0 <= j < i ==> !trap_at(a, vpos, hpos, j))
                && b == a.remove(i)
    } else {
        b == a.push(BeamTrap { vpos, hpos, once: false })
    }
}

/// A Copper breakpoint was set or removed.
pub open spec fn copper_toggled(a: Seq<u32>, b: Seq<u32>, addr: u32) -> bool {
    let word = addr & 0x00FF_FFFE;
    if a.contains(word) {
        exists|i: int|
            #![trigger a[i]]
            0 <= i < a.len() && a[i] == word && b == a.remove(i)
    } else {
        b == a.push(word)
    }
}

impl App {
    fn console_reg_watch(&mut self, off: u16) -> (r: ConsoleStep<Vec<String>, String>)
        requires
            old(self).wf(),
        ensures
            final(self).wf(),
            only_store(old(self), final(self)),
            final(self).machine.breaks == (BreakStore {
                reg_watches: final(self).machine.breaks.reg_watches,
                ..old(self).machine.breaks
            }),
            final(self).machine.breaks.reg_watches@ == toggled(
                old(self).machine.breaks.reg_watches@,
                off,
            ),
            step_view(r) == prints_one(
                "register watch "@ + old(self).lexicon.register_name(off) + " ($"@ + hex(
                    off as int,
                    3,
                ) + ")"@ + set_word(!old(self).machine.breaks.reg_watches@.contains(off)),
            ),
    {
        let set: bool = self.machine.breaks.toggle_reg_watch(off);
        let mut line = "register watch ".to_owned();
        let name = self.lexicon.custom_reg_name(off);
        put(&mut line, name.as_str());
        put(&mut line, " ($");
        put_hex(&mut line, off as u64, 3);
        put(&mut line, ")");
        put_set(&mut line, set);
        print_one(line)
    }

    fn console_beam_trap(&mut self, vpos: u16, hpos: Option<u16>) -> (r: ConsoleStep<
        Vec<String>,
        String,
    >)
        requires
            old(self).wf(),
        ensures
            final(self).wf(),
            only_machine(old(self), final(self)),
            final(self).machine == (Machine {
                beam_traps: final(self).machine.beam_traps,
                ..old(self).machine
            }),
            trapped(old(self).machine.beam_traps@, final(self).machine.beam_traps@, vpos, hpos),
            step_view(r) == prints_one(
                "beam trap v"@ + dec(vpos as int) + hpos_text(hpos) + set_word(
                    !has_trap(old(self).machine.beam_traps@, vpos, hpos),
                ),
            ),
    {
        let set: bool = self.machine.toggle_beam_trap(vpos, hpos);
        let mut line = "beam trap v".to_owned();
        put_dec(&mut line, vpos as u64);
        put_hpos(&mut line, hpos);
        put_set(&mut line, set);
        print_one(line)
    }

    fn console_copper_break(&mut self, addr: u32) -> (r: ConsoleStep<Vec<String>, String>)
        requires
            old(self).wf(),
        ensures
            final(self).wf(),
            only_machine(old(self), final(self)),
            final(self).machine == (Machine {
                copper_breaks: final(self).machine.copper_breaks,
                ..old(self).machine
            }),
            copper_toggled(
                old(self).machine.copper_breaks@,
                final(self).machine.copper_breaks@,
                addr,
            ),
            step_view(r) == prints_one(
                "copper breakpoint $"@ + hex((addr & 0x00FF_FFFE) as int, 6) + set_word(
                    !old(self).machine.copper_breaks@.contains(addr & 0x00FF_FFFE),
                ),
            ),
    {
        let set: bool = self.machine.toggle_copper_break(addr);
        let mut line = "copper breakpoint $".to_owned();
        put_hex(&mut line, (addr & 0x00FF_FFFE) as u64, 6);
        put_set(&mut line, set);
        print_one(line)
    }

    fn console_catch(&mut self, vector: u16) -> (r: ConsoleStep<Vec<String>, String>)
        requires
            old(self).wf(),
        ensures
            final(self).wf(),
            only_store(old(self), final(self)),
            final(self).machine.breaks == (BreakStore {
                catches: final(self).machine.breaks.catches,
                ..old(self).machine.breaks
            }),
            final(self).machine.breaks.catches@ == toggled(
                old(self).machine.breaks.catches@,
                vector,
            ),
            step_view(r) == prints_one(
                "catch "@ + old(self).lexicon.vector_name(vector) + set_word(
                    !old(self).machine.breaks.catches@.contains(vector),
                ),
            ),
    {
        let set: bool = self.machine.breaks.toggle_catch(vector);
        let mut line = "catch ".to_owned();
        let name = self.lexicon.exception_vector_name(vector);
        put(&mut line, name.as_str());
        put_set(&mut line, set);
        print_one(line)
    }

    fn console_catch_task(&mut self, target: Option<String>) -> (r: ConsoleStep<
        Vec<String>,
        String,
    >)
        requires
            old(self).wf(),
        ensures
            final(self).wf(),
            only_store(old(self), final(self)),
            final(self).machine.breaks == (BreakStore {
                task_catch: final(self).machine.breaks.task_catch,
                ..old(self).machine.breaks
            }),
            opt_text(final(self).machine.breaks.task_catch) == opt_text(target),
            step_view(r) == prints_one(
                match target {
                    Some(t) => "stopping when a task whose name contains \""@ + t@
                        + "\" is scheduled"@,
                    None => "task catch cleared"@,
                },
            ),
    {
        let mut line = String::new();
        match &target {
            Some(t) => {
                put(&mut line, "stopping when a task whose name contains \"");
                put(&mut line, t.as_str());
                put(&mut line, "\" is scheduled");
                assert(line@ =~= "stopping when a task whose name contains \""@ + t@
                    + "\" is scheduled"@);
            },
            None => {
                put(&mut line, "task catch cleared");
                assert(line@ =~= "task catch cleared"@);
            },
        }
        self.machine.breaks.set_task_catch(target);
        print_one(line)
    }

    fn console_clear_breaks(&mut self) -> (r: ConsoleStep<Vec<String>, String>)
        requires
            old(self).wf(),
        ensures
            final(self).wf(),
            *final(self) == (App {
                machine: final(self).machine,
                last_debug_stop: None,
                ..*old(self)
            }),
            cleared(&old(self).machine, &final(self).machine),
            step_view(r) == prints_one(
                "cleared all breakpoints, watchpoints, traps, and catches"@,
            ),
    {
        self.machine.breaks_clear();
        self.last_debug_stop = None;
        print_text("cleared all breakpoints, watchpoints, traps, and catches")
    }
}

/// No stop of any kind is left.
pub open spec fn cleared(a: &Machine, b: &Machine) -> bool {
    &&& *b == (Machine {
        breaks: b.breaks,
        beam_traps: b.beam_traps,
        copper_breaks: b.copper_breaks,
        ..*a
    })
    &&& b.breaks.breakpoints@.len() == 0
    &&& b.breaks.watches@.len() == 0
    &&& b.breaks.reg_watches@.len() == 0
    &&& b.breaks.catches@.len() == 0
    &&& b.breaks.loadseg_catch is None
    &&& b.breaks.task_catch is None
    &&& b.beam_traps@.len() == 0
    &&& b.copper_breaks@.len() == 0
}

/// A word written high byte first, each byte where it is writable.
pub open spec fn poked(m: &Memory, addr: u32, value: u16, a: u32) -> u8 {
    let hi = bus_addr(addr as int, 0, m.mask);
    let lo = bus_addr(addr as int, 1, m.mask);
    if a == lo && m.can_write(lo) {
        (value % 256) as u8
    } else if a == hi && m.can_write(hi) {
        (value / 256) as u8
    } else {
        m.at(a)
    }
}

/// Whether both bytes of a word can be written.
pub open spec fn word_writable(m: &Memory, addr: u32) -> bool {
    m.can_write(bus_addr(addr as int, 0, m.mask)) && m.can_write(bus_addr(addr as int, 1, m.mask))
}

impl App {
    fn console_poke(&mut self, addr: u32, value: u16) -> (r: ConsoleStep<Vec<String>, String>)
        requires
            old(self).wf(),
        ensures
            final(self).wf(),
            only_machine(old(self), final(self)),
            final(self).machine == (Machine {
                memory: final(self).machine.memory,
                ..old(self).machine
            }),
            final(self).machine.memory.mask == old(self).machine.memory.mask,
            same_layout(
                final(self).machine.memory.regions@,
                old(self).machine.memory.regions@,
            ),
            ({
                let even = addr & 0xFFFF_FFFE;
                &&& forall|a: u32| #[trigger]
                    final(self).machine.memory.at(a) == poked(
                        &old(self).machine.memory,
                        even,
                        value,
                        a,
                    )
                &&& step_view(r) == prints_one(
                    if word_writable(&old(self).machine.memory, even) {
                        "poked $"@ + hex(value as int, 4) + " -> $"@ + hex(even as int, 6)
                    } else {
                        "!$"@ + hex(even as int, 6) + " is not writable RAM"@
                    },
                )
            }),
    {
        let even: u32 = addr & 0xFFFF_FFFE;
        let hi: u32 = self.machine.memory.bus(even, 0);
        let lo: u32 = self.machine.memory.bus(even, 1);
        let ghost before = self.machine.memory;
        let first: bool = self.machine.memory.write(hi, (value / 256) as u8);
        let ghost mid = self.machine.memory;
        let second: bool = self.machine.memory.write(lo, (value % 256) as u8);
        proof {
            let now = self.machine.memory;
            assert(mid.can_write(lo) == before.can_write(lo));
            assert forall|a: u32| #[trigger] now.at(a) == poked(&before, even, value, a) by {
                assert(mid.at(a) == (if first && a == hi {
                    (value / 256) as u8
                } else {
                    before.at(a)
                }));
            }
            lemma_layout_trans(now.regions@, mid.regions@, before.regions@);
            crate::app::lemma_hunt_fits(self.hunt, before.regions@, now.regions@);
        }
        let mut line = String::new();
        if first && second {
            put(&mut line, "poked $");
            put_hex(&mut line, value as u64, 4);
            put(&mut line, " -> $");
            put_hex(&mut line, even as u64, 6);
            assert(line@ =~= "poked $"@ + hex(value as int, 4) + " -> $"@ + hex(even as int, 6));
        } else {
            put(&mut line, "!$");
            put_hex(&mut line, even as u64, 6);
            put(&mut line, " is not writable RAM");
            assert(line@ =~= "!$"@ + hex(even as int, 6) + " is not writable RAM"@);
        }
        print_one(line)
    }

    fn console_set_reg(&mut self, reg: u8, value: u32, name: &str) -> (r: ConsoleStep<
        Vec<String>,
        String,
    >)
        requires
            old(self).wf(),
            reg < 18,
        ensures
            final(self).wf(),
            only_machine(old(self), final(self)),
            final(self).machine == (Machine {
                regs: final(self).machine.regs,
                ..old(self).machine
            }),
            final(self).machine.regs@ == old(self).machine.regs@.update(
                reg as int,
                reg_value(reg, value),
            ),
            step_view(r) == prints_one(name@ + " <- $"@ + hex(value as int, 0)),
    {
        let kept: u32 = if reg as usize == REG_SR {
            value % 0x1_0000
        } else {
            value
        };
        self.machine.regs.set(reg as usize, kept);
        let mut line = name.to_owned();
        put(&mut line, " <- $");
        put_hex(&mut line, value as u64, 0);
        print_one(line)
    }

    fn console_find(&self, pattern: &Vec<u8>, start: u32) -> (r: ConsoleStep<Vec<String>, String>)
        requires
            self.wf(),
        ensures
            step_view(r) == prints_one(
                find_line(&self.machine, pattern@, start & self.machine.memory.mask),
            ),
    {
        let from: u32 = start & self.machine.memory.mask;
        match search_cpu_memory(&self.machine.memory, &self.machine.searchable, pattern, from) {
            Some(addr) => {
                let mut line = "found at $".to_owned();
                put_hex(&mut line, addr as u64, 6);
                print_one(line)
            },
            None => print_text("pattern not found"),
        }
    }
}

/// The status register holds sixteen bits.
pub open spec fn reg_value(reg: u8, value: u32) -> u32 {
    if reg == REG_SR {
        (value % 0x1_0000) as u32
    } else {
        value
    }
}

pub open spec fn find_line(m: &Machine, pattern: Seq<u8>, start: u32) -> Seq<char> {
    match search_result(&m.memory, pattern, m.searchable@, start as int) {
        Some(addr) => "found at $"@ + hex(addr, 6),
        None => "pattern not found"@,
    }
}

/// HUNT: where the hunt stands.
pub open spec fn hunt_line(hunt: Option<HuntState>) -> Seq<char> {
    match hunt {
        Some(h) => "hunt active ("@ + dec(h.width * 8) + "-bit): "@ + (match h.candidates {
            Some(c) => dec(c@.len() as int) + " candidate(s)"@,
            None => "no filter applied yet"@,
        }),
        None => "no hunt (HUNT START [B|W] begins one)"@,
    }
}

/// A value of memory as the hunt sees it.
pub open spec fn live_value(m: &Memory, addr: u32, width: u32) -> int {
    if width == 1 {
        m.byte(addr as int, 0) as int
    } else {
        m.word(addr) as int
    }
}

pub open spec fn candidate_line(m: &Memory, addr: u32, width: u32) -> Seq<char> {
    "  $"@ + hex(addr as int, 6) + " = "@ + hex(live_value(m, addr, width), width * 2)
}

/// HUNT LIST: how many candidates there are, and the first of them.
pub open spec fn hunt_list(hunt: Option<HuntState>, m: &Memory, cap: u64) -> Seq<Seq<char>> {
    match hunt {
        None => seq!["no hunt running"@],
        Some(h) => match h.candidates {
            None => seq!["no filter applied yet"@],
            Some(c) => {
                let shown = if c@.len() <= cap {
                    c@.len() as int
                } else {
                    cap as int
                };
                seq![dec(c@.len() as int) + " candidate(s):"@] + Seq::new(
                    shown as nat,
                    |i: int| candidate_line(m, c@[i], h.width),
                ) + (if c@.len() > cap {
                    seq!["  ... "@ + dec(c@.len() - cap) + " more"@]
                } else {
                    Seq::empty()
                })
            },
        },
    }
}

pub open spec fn remain_line(count: int) -> Seq<char> {
    dec(count) + " candidate(s) remain"@ + (if 0 < count <= 16 {
        "  (HUNT LIST shows them)"@
    } else {
        Seq::empty()
    })
}

pub open spec fn start_line(width: u32, total: int) -> Seq<char> {
    "hunting "@ + dec(width * 8) + "-bit values across "@ + dec(total)
        + " bytes of RAM; filter with HUNT EQ/NE/LT/GT VALUE or HUNT SAME/DIFF"@
}

/// What a hunt command does to the hunt, and what it prints.
pub open spec fn hunted(
    o: &App,
    n: &App,
    c: HuntCommand,
    step: ConsoleStep<Seq<Seq<char>>, Seq<char>>,
) -> bool {
    &&& *n == (App { hunt: n.hunt, ..*o })
    &&& match c {
        HuntCommand::Show => n.hunt == o.hunt && step == prints_one(hunt_line(o.hunt)),
        HuntCommand::Off => n.hunt is None && step == prints_one("hunt cleared"@),
        HuntCommand::Start(width) => n.hunt matches Some(h) && {
            &&& h.width == width
            &&& h.candidates is None
            &&& is_snapshot(h.snapshot@, o.machine.memory.regions@)
            &&& step == prints_one(start_line(width, total_bytes(h.snapshot@)))
        },
        HuntCommand::List(cap) => n.hunt == o.hunt && step == prints(
            hunt_list(o.hunt, &o.machine.memory, cap),
        ),
        HuntCommand::Filter(f) => match o.hunt {
            None => n.hunt is None && step == prints_one("no hunt running (HUNT START first)"@),
            Some(was) => n.hunt matches Some(h) && {
                &&& h.width == was.width
                &&& is_snapshot(h.snapshot@, o.machine.memory.regions@)
                &&& h.candidates matches Some(left) && {
                    &&& left@ == was.filtered(h.snapshot@, f)
                    &&& step == prints_one(remain_line(left@.len() as int))
                }
            },
        },
    }
}

proof fn lemma_fits(h: HuntState, regions: Seq<Region>)
    requires
        h.wf(),
        is_snapshot(h.snapshot@, regions),
    ensures
        hunt_fits(Some(h), regions),
{
    assert(is_snapshot(h.snapshot@, regions) && same_layout(regions, regions));
}

/// As many banks as there are writable regions, none of them larger than the
/// address space.
proof fn lemma_total(s: Seq<Bank>, regions: Seq<Region>)
    requires
        is_snapshot(s, regions),
        banks_fit(s),
    ensures
        0 <= total_bytes(s) <= regions.len() * 0x1_0000_0000,
    decreases regions.len(),
{
    if regions.len() > 0 {
        if regions.last().writable {
            assert(s.last() == s[s.len() - 1]);
            assert(banks_fit(s.drop_last())) by {
                assert(forall|i: int| 0 <= i < s.len() - 1 ==> s.drop_last()[i] == s[i]);
            }
            lemma_total(s.drop_last(), regions.drop_last());
        } else {
            lemma_total(s, regions.drop_last());
        }
    }
}

fn total_of(s: &Vec<Bank>, m: &Memory) -> (r: u64)
    requires
        m.wf(),
        is_snapshot(s@, m.regions@),
        banks_fit(s@),
    ensures
        r == total_bytes(s@),
{
    let mut total: u64 = 0;
    let mut i: usize = 0;
    proof {
        lemma_total(s@, m.regions@);
        assert(s@.take(0) =~= Seq::empty());
    }
    let ghost bound = total_bytes(s@);
    while i < s.len()
        invariant
            i <= s@.len(),
            total == total_bytes(s@.take(i as int)),
            bound == total_bytes(s@),
            bound <= 0x10_0000_0000_0000,
        decreases s@.len() - i,
    {
        proof {
            assert(s@.take(i + 1).drop_last() =~= s@.take(i as int));
            lemma_part_total(s@, i + 1);
        }
        total = total + s[i].bytes.len() as u64;
        i += 1;
    }
    assert(s@.take(i as int) =~= s@);
    total
}

proof fn lemma_part_total(s: Seq<Bank>, k: int)
    requires
        0 <= k <= s.len(),
    ensures
        total_bytes(s.take(k)) <= total_bytes(s),
    decreases s.len() - k,
{
    if k == s.len() {
        assert(s.take(k) =~= s);
    } else {
        assert(s.take(k + 1).drop_last() =~= s.take(k));
        lemma_part_total(s, k + 1);
    }
}

fn put_candidate(out: &mut String, m: &Memory, addr: u32, width: u32)
    requires
        width == 1 || width == 2,
    ensures
        final(out)@ == old(out)@ + candidate_line(m, addr, width),
{
    put(out, "  $");
    put_hex(out, addr as u64, 6);
    put(out, " = ");
    if width == 1 {
        put_hex(out, m.byte_at(addr, 0) as u64, 2);
    } else {
        put_hex(out, m.peek_word(addr) as u64, 4);
    }
    assert(out@ =~= old(out)@ + candidate_line(m, addr, width));
}

impl App {
    fn console_hunt_show(&self) -> (r: ConsoleStep<Vec<String>, String>)
        requires
            self.wf(),
        ensures
            step_view(r) == prints_one(hunt_line(self.hunt)),
    {
        match &self.hunt {
            None => print_text("no hunt (HUNT START [B|W] begins one)"),
            Some(h) => {
                let mut line = "hunt active (".to_owned();
                put_dec(&mut line, h.width as u64 * 8);
                put(&mut line, "-bit): ");
                let ghost head = line@;
                match &h.candidates {
                    Some(c) => {
                        put_dec(&mut line, c.len() as u64);
                        put(&mut line, " candidate(s)");
                        assert(line@ =~= head + (dec(c@.len() as int) + " candidate(s)"@));
                    },
                    None => put(&mut line, "no filter applied yet"),
                }
                print_one(line)
            },
        }
    }

    fn console_hunt_list(&self, cap: u64) -> (r: ConsoleStep<Vec<String>, String>)
        requires
            self.wf(),
        ensures
            step_view(r) == prints(hunt_list(self.hunt, &self.machine.memory, cap)),
    {
        let h = match &self.hunt {
            None => {
                return print_text("no hunt running");
            },
            Some(h) => h,
        };
        let c = match &h.candidates {
            None => {
                return print_text("no filter applied yet");
            },
            Some(c) => c,
        };
        let ghost m = &self.machine.memory;
        let shown: usize = if c.len() as u64 <= cap {
            c.len()
        } else {
            cap as usize
        };
        let mut head = String::new();
        put_dec(&mut head, c.len() as u64);
        put(&mut head, " candidate(s):");
        let ghost title = dec(c@.len() as int) + " candidate(s):"@;
        assert(head@ =~= title);
        let mut lines = one_line(head);
        let ghost all = Seq::new(shown as nat, |i: int| candidate_line(m, c@[i], h.width));
        let mut i: usize = 0;
        assert(texts(lines@) =~= seq![title] + all.take(0));
        while i < shown
            invariant
                i <= shown <= c@.len(),
                h.width == 1 || h.width == 2,
                m == &self.machine.memory,
                all == Seq::new(shown as nat, |i: int| candidate_line(m, c@[i], h.width)),
                texts(lines@) == seq![title] + all.take(i as int),
            decreases shown - i,
        {
            let mut line = String::new();
            put_candidate(&mut line, &self.machine.memory, c[i], h.width);
            assert(line@ =~= all[i as int]);
            push_line(&mut lines, line);
            i += 1;
            assert(texts(lines@) =~= seq![title] + all.take(i as int));
        }
        assert(all.take(i as int) =~= all);
        if c.len() as u64 > cap {
            let mut line = "  ... ".to_owned();
            put_dec(&mut line, c.len() as u64 - cap);
            put(&mut line, " more");
            push_line(&mut lines, line);
        }
        assert(texts(lines@) =~= hunt_list(self.hunt, m, cap));
        print(lines)
    }

    fn console_hunt_start(&mut self, width: u32) -> (r: ConsoleStep<Vec<String>, String>)
        requires
            old(self).wf(),
            width == 1 || width == 2,
        ensures
            final(self).wf(),
            hunted(old(self), final(self), HuntCommand::Start(width), step_view(r)),
    {
        let snapshot = console_hunt_snapshot(&self.machine.memory);
        let total: u64 = total_of(&snapshot, &self.machine.memory);
        let mut line = "hunting ".to_owned();
        put_dec(&mut line, width as u64 * 8);
        put(&mut line, "-bit values across ");
        put_dec(&mut line, total);
        put(
            &mut line,
            " bytes of RAM; filter with HUNT EQ/NE/LT/GT VALUE or HUNT SAME/DIFF",
        );
        let hunt = HuntState { width, snapshot, candidates: None };
        proof {
            lemma_fits(hunt, self.machine.memory.regions@);
        }
        self.hunt = Some(hunt);
        print_one(line)
    }

    fn console_hunt_filter(&mut self, f: HuntFilter) -> (r: ConsoleStep<Vec<String>, String>)
        requires
            old(self).wf(),
        ensures
            final(self).wf(),
            hunted(old(self), final(self), HuntCommand::Filter(f), step_view(r)),
    {
        match self.hunt.take() {
            None => print_text("no hunt running (HUNT START first)"),
            Some(mut h) => {
                h.filter(&self.machine.memory, f);
                let count: usize = match &h.candidates {
                    Some(c) => c.len(),
                    None => 0,
                };
                let mut line = String::new();
                put_dec(&mut line, count as u64);
                put(&mut line, " candidate(s) remain");
                let ghost head = line@;
                if count > 0 && count <= 16 {
                    put(&mut line, "  (HUNT LIST shows them)");
                } else {
                    assert(line@ =~= head + Seq::empty());
                }
                assert(line@ =~= remain_line(count as int));
                proof {
                    lemma_fits(h, self.machine.memory.regions@);
                }
                self.hunt = Some(h);
                print_one(line)
            },
        }
    }

    fn console_hunt(&mut self, c: HuntCommand) -> (r: ConsoleStep<Vec<String>, String>)
        requires
            old(self).wf(),
            c matches HuntCommand::Start(width) ==> width == 1 || width == 2,
        ensures
            final(self).wf(),
            hunted(old(self), final(self), c, step_view(r)),
    {
        match c {
            HuntCommand::Show => self.console_hunt_show(),
            HuntCommand::Off => {
                self.hunt = None;
                print_text("hunt cleared")
            },
            HuntCommand::Start(width) => self.console_hunt_start(width),
            HuntCommand::List(cap) => self.console_hunt_list(cap),
            HuntCommand::Filter(f) => self.console_hunt_filter(f),
        }
    }
}

/// What a command that only looks prints, where the console can print it by
/// itself.
pub open spec fn looked_up(
    o: &App,
    c: Command<Seq<char>, Seq<u8>>,
) -> Option<ConsoleStep<Seq<Seq<char>>, Seq<char>>> {
    match c {
        Command::Nothing => Some(prints(Seq::empty())),
        Command::Help => Some(prints(help_text())),
        Command::Clear => Some(
            ConsoleStep::Done { lines: Seq::empty(), clear: true, close: false },
        ),
        Command::Close => Some(
            ConsoleStep::Done { lines: Seq::empty(), clear: false, close: true },
        ),
        Command::Status => Some(prints_one(status_text(&o.machine))),
        Command::Breaks => Some(prints(breaks_text(&o.machine, &o.lexicon))),
        Command::Regs => Some(prints(regs_text(&o.machine))),
        Command::History(count) => Some(
            prints(
                if o.machine.history@.len() == 0 {
                    seq!["no history yet (recorded while a debug window is open)"@]
                } else {
                    history_text(o.machine.history@, count)
                },
            ),
        ),
        Command::Mem { addr, len } => Some(prints(dump_text(&o.machine.memory, addr, len))),
        Command::Blits => Some(prints(blits_text(o.machine.trace))),
        Command::Find { pattern, start } => Some(
            prints_one(find_line(&o.machine, pattern, start & o.machine.memory.mask)),
        ),
        Command::Bad(why) => Some(prints_one("!"@ + why)),
        _ => None,
    }
}

/// What a command that only looks asks the host for.
pub open spec fn looks_for(o: &App, c: Command<Seq<char>, Seq<u8>>) -> Option<Ask<Seq<char>>> {
    match c {
        Command::Os(list) => Some(Ask::Os(list)),
        Command::Task(spec) => Some(Ask::Task(spec)),
        Command::CatchAlert => Some(Ask::ExecBase),
        Command::Guru(code) => Some(
            Ask::Guru(
                match code {
                    Some(code) => code,
                    None => o.machine.regs@[7],
                },
            ),
        ),
        Command::Stack => Some(Ask::Stack),
        Command::Dis { addr, count } => Some(
            Ask::Disassemble {
                addr: (match addr {
                    Some(a) => a,
                    None => o.machine.regs@[REG_PC as int],
                }) & 0xFFFF_FFFE,
                count,
            },
        ),
        Command::Copper { start, count } => Some(
            Ask::CopperList { start: copper_start(o.machine.copper, start), count },
        ),
        Command::Custom => Some(Ask::CustomRegisters),
        Command::TraceStart(path) => Some(Ask::TraceStart { path, cap: TRACE_LINE_CAP }),
        Command::TraceStop => Some(Ask::TraceStop),
        Command::TraceStatus => Some(Ask::TraceStatus),
        Command::WaveStart(args) => Some(Ask::WaveStart(args)),
        Command::WaveStop => Some(Ask::WaveStop),
        Command::WaveStatus => Some(Ask::WaveStatus),
        Command::Writer(addr) => Some(Ask::LastWriter(word_of(addr, o.machine.memory.mask))),
        _ => None,
    }
}

/// What a command that moves the machine asks the host for.
pub open spec fn moves(o: &App, c: Command<Seq<char>, Seq<u8>>) -> Option<Ask<Seq<char>>> {
    match c {
        Command::Step(n) => Some(Ask::Step(n)),
        Command::Over => Some(Ask::Over(STEP_BUDGET)),
        Command::Out => Some(Ask::Out(STEP_BUDGET)),
        Command::Frame => Some(Ask::Frame),
        Command::Line => Some(
            Ask::RunToBeam { vpos: next_line(&o.machine), hpos: None, budget: RUN_TO_BUDGET },
        ),
        Command::CopperStep => Some(Ask::CopperStep(RUN_TO_BUDGET)),
        Command::RunTo(addr) => Some(Ask::RunToPc { addr, budget: RUN_TO_BUDGET }),
        Command::ToSlot(vpos, hpos) => Some(
            Ask::RunToBeam { vpos, hpos, budget: RUN_TO_BUDGET },
        ),
        Command::ReverseStep(n) => Some(Ask::ReverseStep(n)),
        Command::ReverseFrame => Some(Ask::ReverseFrame),
        Command::ReverseRun => Some(Ask::ReverseRun),
        _ => None,
    }
}

/// What a command does to the application and what it comes to.
pub open spec fn executed(
    o: &App,
    n: &App,
    c: Command<Seq<char>, Seq<u8>>,
    step: ConsoleStep<Seq<Seq<char>>, Seq<char>>,
) -> bool {
    if looked_up(o, c) is Some {
        *n == *o && step == looked_up(o, c).unwrap()
    } else if looks_for(o, c) is Some {
        *n == *o && step == ConsoleStep::<Seq<Seq<char>>, Seq<char>>::Ask(looks_for(o, c).unwrap())
    } else if moves(o, c) is Some {
        *n == held(*o) && step == ConsoleStep::<Seq<Seq<char>>, Seq<char>>::Ask(
            moves(o, c).unwrap(),
        )
    } else {
        changed(o, n, c, step)
    }
}

/// The same of a command that changes the run state, the stops, the machine
/// or the hunt.
pub open spec fn changed(
    o: &App,
    n: &App,
    c: Command<Seq<char>, Seq<u8>>,
    step: ConsoleStep<Seq<Seq<char>>, Seq<char>>,
) -> bool {
    let mask = o.machine.memory.mask;
    let a = &o.machine.breaks;
    let b = &n.machine.breaks;
    match c {
        Command::Run => {
            &&& *n == set_run(*o, false)
            &&& step == prints_one("running (PAUSE stops; breakpoints report here or on stop)"@)
        },
        Command::Pause => {
            &&& *n == (App { fx: n.fx, ..set_run(*o, true) })
            &&& n.fx@ == o.fx@.push(Effect::FinishRender)
            &&& step == prints(seq!["paused"@, status_text(&o.machine)])
        },
        Command::Break { addr, cond, ignore } => {
            &&& only_store(o, n)
            &&& breaks_at(a, b, addr & mask, cond, ignore)
            &&& step == prints_one(
                "breakpoint $"@ + hex((addr & mask) as int, 6) + set_word(
                    !removes_point(a, addr & mask, cond, ignore),
                ),
            )
        },
        Command::Watch { addr, filter, pc } => {
            &&& only_store(o, n)
            &&& watched(&o.machine, b, word_of(addr, mask), filter, pc, WatchAccess::Write)
            &&& step == prints_one(
                watch_line(
                    word_of(addr, mask),
                    filter,
                    pc,
                    !a.words().dom().contains(word_of(addr, mask)),
                    &o.lexicon,
                ),
            )
        },
        Command::RegWatch(off) => {
            &&& only_store(o, n)
            &&& *b == (BreakStore { reg_watches: b.reg_watches, ..*a })
            &&& b.reg_watches@ == toggled(a.reg_watches@, off)
            &&& step == prints_one(
                "register watch "@ + o.lexicon.register_name(off) + " ($"@ + hex(off as int, 3)
                    + ")"@ + set_word(!a.reg_watches@.contains(off)),
            )
        },
        Command::BeamTrap(vpos, hpos) => {
            &&& only_machine(o, n)
            &&& n.machine == (Machine { beam_traps: n.machine.beam_traps, ..o.machine })
            &&& trapped(o.machine.beam_traps@, n.machine.beam_traps@, vpos, hpos)
            &&& step == prints_one(
                "beam trap v"@ + dec(vpos as int) + hpos_text(hpos) + set_word(
                    !has_trap(o.machine.beam_traps@, vpos, hpos),
                ),
            )
        },
        Command::CopperBreak(addr) => {
            &&& only_machine(o, n)
            &&& n.machine == (Machine { copper_breaks: n.machine.copper_breaks, ..o.machine })
            &&& copper_toggled(o.machine.copper_breaks@, n.machine.copper_breaks@, addr)
            &&& step == prints_one(
                "copper breakpoint $"@ + hex((addr & 0x00FF_FFFE) as int, 6) + set_word(
                    !o.machine.copper_breaks@.contains(addr & 0x00FF_FFFE),
                ),
            )
        },
        Command::Catch(vector) => {
            &&& only_store(o, n)
            &&& *b == (BreakStore { catches: b.catches, ..*a })
            &&& b.catches@ == toggled(a.catches@, vector)
            &&& step == prints_one(
                "catch "@ + o.lexicon.vector_name(vector) + set_word(!a.catches@.contains(vector)),
            )
        },
        Command::CatchTask(target) => {
            &&& only_store(o, n)
            &&& *b == (BreakStore { task_catch: b.task_catch, ..*a })
            &&& opt_text(b.task_catch) == target
            &&& step == prints_one(
                match target {
                    Some(t) => "stopping when a task whose name contains \""@ + t
                        + "\" is scheduled"@,
                    None => "task catch cleared"@,
                },
            )
        },
        Command::ClearBreaks => {
            &&& *n == (App { machine: n.machine, last_debug_stop: None, ..*o })
            &&& cleared(&o.machine, &n.machine)
            &&& step == prints_one("cleared all breakpoints, watchpoints, traps, and catches"@)
        },
        Command::Hunt(h) => hunted(o, n, h, step),
        Command::Poke { addr, value } => {
            let even = addr & 0xFFFF_FFFE;
            &&& only_machine(o, n)
            &&& n.machine == (Machine { memory: n.machine.memory, ..o.machine })
            &&& n.machine.memory.mask == mask
            &&& same_layout(n.machine.memory.regions@, o.machine.memory.regions@)
            &&& forall|x: u32| #[trigger]
                n.machine.memory.at(x) == poked(&o.machine.memory, even, value, x)
            &&& step == prints_one(
                if word_writable(&o.machine.memory, even) {
                    "poked $"@ + hex(value as int, 4) + " -> $"@ + hex(even as int, 6)
                } else {
                    "!$"@ + hex(even as int, 6) + " is not writable RAM"@
                },
            )
        },
        Command::SetReg { reg, value, name } => {
            &&& only_machine(o, n)
            &&& n.machine == (Machine { regs: n.machine.regs, ..o.machine })
            &&& n.machine.regs@ == o.machine.regs@.update(reg as int, reg_value(reg, value))
            &&& step == prints_one(name + " <- $"@ + hex(value as int, 0))
        },
        _ => false,
    }
}

fn ask(a: Ask<String>) -> (r: ConsoleStep<Vec<String>, String>)
    ensures
        step_view(r) == ConsoleStep::<Seq<Seq<char>>, Seq<char>>::Ask(ask_view(a)),
{
    ConsoleStep::Ask(a)
}

fn bad_step(why: &str) -> (r: ConsoleStep<Vec<String>, String>)
    ensures
        step_view(r) == prints_one("!"@ + why@),
{
    let mut line = "!".to_owned();
    put(&mut line, why);
    print_one(line)
}

fn silent_step(clear: bool, close: bool) -> (r: ConsoleStep<Vec<String>, String>)
    ensures
        step_view(r) == (ConsoleStep::<Seq<Seq<char>>, Seq<char>>::Done {
            lines: Seq::empty(),
            clear,
            close,
        }),
{
    ConsoleStep::Done { lines: no_lines(), clear, close }
}

impl App {
    fn console_look(&self, c: &Command<String, Vec<u8>>) -> (r: Option<
        ConsoleStep<Vec<String>, String>,
    >)
        requires
            self.wf(),
            in_bounds(command_view(*c)),
        ensures
            (match r {
                Some(s) => Some(step_view(s)),
                None => None,
            }) == looked_up(self, command_view(*c)),
    {
        match c {
            Command::Nothing => Some(silent_step(false, false)),
            Command::Help => Some(print(console_help())),
            Command::Clear => Some(silent_step(true, false)),
            Command::Close => Some(silent_step(false, true)),
            Command::Status => Some(print_one(console_status_line(&self.machine))),
            Command::Breaks => Some(print(console_breaks_lines(&self.machine, &self.lexicon))),
            Command::Regs => Some(print(console_regs_lines(&self.machine))),
            Command::History(count) => Some(
                print(console_history_lines(&self.machine.history, *count)),
            ),
            Command::Mem { addr, len } => Some(
                print(console_mem_lines(&self.machine.memory, *addr, *len)),
            ),
            Command::Blits => Some(print(console_blits_lines(&self.machine.trace))),
            Command::Find { pattern, start } => Some(self.console_find(pattern, *start)),
            Command::Bad(why) => Some(bad_step(why.as_str())),
            _ => None,
        }
    }

    fn console_look_for(&self, c: &Command<String, Vec<u8>>) -> (r: Option<Ask<String>>)
        requires
            self.wf(),
        ensures
            (match r {
                Some(a) => Some(ask_view(a)),
                None => None,
            }) == looks_for(self, command_view(*c)),
    {
        match c {
            Command::Os(list) => Some(Ask::Os(*list)),
            Command::Task(spec) => Some(Ask::Task(spec.clone())),
            Command::CatchAlert => Some(Ask::ExecBase),
            Command::Guru(code) => Some(
                Ask::Guru(
                    match code {
                        Some(code) => *code,
                        None => self.machine.regs[7],
                    },
                ),
            ),
            Command::Stack => Some(Ask::Stack),
            Command::Dis { addr, count } => {
                let from: u32 = match addr {
                    Some(a) => *a,
                    None => self.machine.regs[REG_PC],
                };
                Some(Ask::Disassemble { addr: from & 0xFFFF_FFFE, count: *count })
            },
            Command::Copper { start, count } => Some(
                Ask::CopperList {
                    start: copper_list_start(self.machine.copper, *start),
                    count: *count,
                },
            ),
            Command::Custom => Some(Ask::CustomRegisters),
            Command::TraceStart(path) => Some(
                Ask::TraceStart { path: clone_text(path), cap: TRACE_LINE_CAP },
            ),
            Command::TraceStop => Some(Ask::TraceStop),
            Command::TraceStatus => Some(Ask::TraceStatus),
            Command::WaveStart(args) => Some(Ask::WaveStart(args.clone())),
            Command::WaveStop => Some(Ask::WaveStop),
            Command::WaveStatus => Some(Ask::WaveStatus),
            Command::Writer(addr) => Some(Ask::LastWriter(self.machine.word_addr(*addr))),
            _ => None,
        }
    }

    fn console_move(&self, c: &Command<String, Vec<u8>>) -> (r: Option<Ask<String>>)
        requires
            self.wf(),
        ensures
            (match r {
                Some(a) => Some(ask_view(a)),
                None => None,
            }) == moves(self, command_view(*c)),
    {
        match c {
            Command::Step(n) => Some(Ask::Step(*n)),
            Command::Over => Some(Ask::Over(STEP_BUDGET)),
            Command::Out => Some(Ask::Out(STEP_BUDGET)),
            Command::Frame => Some(Ask::Frame),
            Command::Line => {
                let vpos: u16 = self.next_line_target();
                Some(Ask::RunToBeam { vpos, hpos: None, budget: RUN_TO_BUDGET })
            },
            Command::CopperStep => Some(Ask::CopperStep(RUN_TO_BUDGET)),
            Command::RunTo(addr) => Some(Ask::RunToPc { addr: *addr, budget: RUN_TO_BUDGET }),
            Command::ToSlot(vpos, hpos) => Some(
                Ask::RunToBeam { vpos: *vpos, hpos: *hpos, budget: RUN_TO_BUDGET },
            ),
            Command::ReverseStep(n) => Some(Ask::ReverseStep(*n)),
            Command::ReverseFrame => Some(Ask::ReverseFrame),
            Command::ReverseRun => Some(Ask::ReverseRun),
            _ => None,
        }
    }

    fn console_change(&mut self, c: Command<String, Vec<u8>>) -> (r: ConsoleStep<
        Vec<String>,
        String,
    >)
        requires
            old(self).wf(),
            in_bounds(command_view(c)),
            looked_up(old(self), command_view(c)) is None,
            looks_for(old(self), command_view(c)) is None,
            moves(old(self), command_view(c)) is None,
        ensures
            final(self).wf(),
            changed(old(self), final(self), command_view(c), step_view(r)),
    {
        match c {
            Command::Run => self.console_run(),
            Command::Pause => self.console_pause(),
            Command::Break { addr, cond, ignore } => self.console_break(addr, cond, ignore),
            Command::Watch { addr, filter, pc } => self.console_watch(addr, filter, pc),
            Command::RegWatch(off) => self.console_reg_watch(off),
            Command::BeamTrap(vpos, hpos) => self.console_beam_trap(vpos, hpos),
            Command::CopperBreak(addr) => self.console_copper_break(addr),
            Command::Catch(vector) => self.console_catch(vector),
            Command::CatchTask(target) => self.console_catch_task(target),
            Command::ClearBreaks => self.console_clear_breaks(),
            Command::Hunt(h) => self.console_hunt(h),
            Command::Poke { addr, value } => self.console_poke(addr, value),
            Command::SetReg { reg, value, name } => self.console_set_reg(
                reg,
                value,
                name.as_str(),
            ),
            _ => silent_step(false, false),
        }
    }

    /// Runs one command line, or says what it needs from the host.
    pub fn console_execute(&mut self, line: &str) -> (r: ConsoleStep<Vec<String>, String>)
        requires
            old(self).wf(),
        ensures
            final(self).wf(),
            executed(
                old(self),
                final(self),
                command_of(line@, &old(self).lexicon),
                step_view(r),
            ),
    {
        let c = parse_command(line, &self.lexicon);
        proof {
            lemma_commands_are_bounded(line@, &self.lexicon);
        }
        match self.console_look(&c) {
            Some(step) => {
                return step;
            },
            None => {},
        }
        match self.console_look_for(&c) {
            Some(a) => {
                return ask(a);
            },
            None => {},
        }
        match self.console_move(&c) {
            Some(a) => {
                self.console_hold();
                return ask(a);
            },
            None => {},
        }
        self.console_change(c)
    }
}

} // verus!
