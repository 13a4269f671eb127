//! The second half of the console commands that need the host: what they
//! print, and what they leave behind, once the host has answered.

use vstd::prelude::*;

use crate::app::App;
use crate::breaks::BreakStore;
use crate::breaks::opt_text;
use crate::console::Ask;
use crate::console::ask_view;
use crate::console::breaks_at;
use crate::console::only_store;
use crate::console::removes_point;
use crate::dumps::WaveStatus;
use crate::dumps::wave_status_lines;
use crate::dumps::wave_text;
use crate::effects::Effect;
use crate::number::dec;
use crate::number::hex;
use crate::number::put_dec;
use crate::number::put_hex;
use crate::report::console_status_line;
use crate::report::no_lines;
use crate::report::one_line;
use crate::report::push_line;
use crate::report::push_text;
use crate::report::status_text;
use crate::session::Session;
use crate::text::put;
use crate::text::texts;

verus! {

/// How a run of the machine ended.
#[derive(PartialEq, Eq, Debug)]
pub enum ExecOutcome {
    /// The machine cannot go on, and why.
    Halted(String),
    /// It ran: whether it got where it was sent, and the stop that ended it.
    Ran { reached: bool, stop: Option<String> },
}

/// How a run backwards ended.
#[derive(PartialEq, Eq, Debug)]
pub enum Reversed {
    /// Somewhere, for this reason.
    Found(String),
    NotFound,
    BeyondHistory,
    Failed(String),
}

/// Who last wrote a word.
#[derive(PartialEq, Eq, Debug)]
pub enum Writer {
    Found { addr: u32, before: u16, after: u16, pc: u32, frame: u64 },
    NotFound,
    BeyondHistory,
    Failed(String),
}

/// What came of arming a waveform capture.
#[derive(PartialEq, Eq, Debug)]
pub enum WaveArm {
    /// The arguments are wrong, and how.
    Bad(String),
    Armed { trigger: String, duration: String, signals: String, path: String },
    Refused(String),
}

/// What a run that did not get where it was sent adds to its report.
pub open spec fn missed_note(ask: Ask<Seq<char>>) -> Seq<Seq<char>> {
    match ask {
        Ask::CopperStep(_) => seq!["copper did not advance (stopped or DMA off)"@],
        Ask::RunToPc { addr, .. } => seq!["$"@ + hex(addr as int, 6) + " not reached (budget)"@],
        Ask::RunToBeam { .. } => seq!["beam target not reached (budget)"@],
        _ => Seq::empty(),
    }
}

/// The report of a run: the stop first, if one ended it, then where the
/// machine is.
pub open spec fn exec_lines(o: &App, ask: Ask<Seq<char>>, outcome: ExecOutcome) -> Seq<Seq<char>> {
    match outcome {
        ExecOutcome::Halted(e) => seq!["!execution halted: "@ + e@],
        ExecOutcome::Ran { reached, stop } => (match stop {
            Some(m) => seq!["!"@ + m@],
            None => Seq::empty(),
        }) + (if reached {
            Seq::empty()
        } else {
            missed_note(ask)
        }) + seq![status_text(&o.machine)],
    }
}

fn put_missed(lines: &mut Vec<String>, ask: &Ask<String>)
    ensures
        texts(final(lines)@) == texts(old(lines)@) + missed_note(ask_view(*ask)),
{
    match ask {
        Ask::CopperStep(_) => {
            push_text(lines, "copper did not advance (stopped or DMA off)");
        },
        Ask::RunToPc { addr, .. } => {
            let mut line = "$".to_owned();
            put_hex(&mut line, *addr as u64, 6);
            put(&mut line, " not reached (budget)");
            push_line(lines, line);
        },
        Ask::RunToBeam { .. } => {
            push_text(lines, "beam target not reached (budget)");
        },
        _ => {},
    }
    assert(texts(lines@) =~= texts(old(lines)@) + missed_note(ask_view(*ask)));
}

fn marked_line(text: &str) -> (r: String)
    ensures
        r@ == "!"@ + text@,
{
    let mut line = "!".to_owned();
    put(&mut line, text);
    line
}

fn two_texts(a: &str, b: &str) -> (r: String)
    ensures
        r@ == a@ + b@,
{
    let mut line = a.to_owned();
    put(&mut line, b);
    line
}

/// What a run backwards reports before where the machine is.
pub open spec fn reverse_note(outcome: Reversed, run: bool) -> Seq<Seq<char>> {
    match outcome {
        Reversed::Found(reason) => if run {
            seq!["!"@ + reason@]
        } else {
            Seq::empty()
        },
        Reversed::NotFound => if run {
            seq!["reverse: no earlier stop hit"@]
        } else {
            seq!["reverse: nothing earlier to land on"@]
        },
        Reversed::BeyondHistory => seq!["reverse: beyond recorded history"@],
        Reversed::Failed(_) => Seq::empty(),
    }
}

pub open spec fn reverse_lines(o: &App, outcome: Reversed, run: bool) -> Seq<Seq<char>> {
    match outcome {
        Reversed::Failed(e) => seq!["!reverse failed: "@ + e@],
        _ => reverse_note(outcome, run) + seq![status_text(&o.machine)],
    }
}

/// Why the machine stopped, after a run backwards.
pub open spec fn reverse_stop(o: &App, outcome: Reversed, run: bool) -> Option<Seq<char>> {
    match outcome {
        Reversed::Found(reason) => if run {
            Some(reason@)
        } else {
            opt_text(o.last_debug_stop)
        },
        _ => opt_text(o.last_debug_stop),
    }
}

pub open spec fn writer_line(addr: u32, mask: u32, outcome: Writer) -> Seq<char> {
    match outcome {
        Writer::Found { addr: at, before, after, pc, frame } => "$"@ + hex(at as int, 6) + ": "@
            + hex(before as int, 4) + "->"@ + hex(after as int, 4) + " by pc $"@ + hex(
            (pc & mask) as int,
            6,
        ) + " (frame "@ + dec(frame as int) + ")"@,
        Writer::NotFound => "no write to $"@ + hex(addr as int, 6) + " in retained history"@,
        Writer::BeyondHistory => "write to $"@ + hex(addr as int, 6) + " predates history"@,
        Writer::Failed(e) => "!last-writer failed: "@ + e@,
    }
}

/// Where the system's alert routine is entered, below its library base.
pub open spec fn alert_entry(base: u32, mask: u32) -> u32 {
    (((base - 108) % 0x1_0000_0000) as u32) & mask
}

impl App {
    /// A forward run is over.
    pub fn console_exec_done(&mut self, ask: &Ask<String>, outcome: &ExecOutcome) -> (lines: Vec<
        String,
    >)
        requires
            old(self).wf(),
        ensures
            final(self).wf(),
            texts(lines@) == exec_lines(old(self), ask_view(*ask), *outcome),
            match *outcome {
                ExecOutcome::Halted(_) => *final(self) == (App {
                    session: (Session { cpu_halted: true, ..old(self).session }).settled(),
                    ..*old(self)
                }),
                ExecOutcome::Ran { stop, .. } => {
                    &&& *final(self) == (App {
                        fx: final(self).fx,
                        last_debug_stop: final(self).last_debug_stop,
                        ..*old(self)
                    })
                    &&& final(self).fx@ == old(self).fx@.push(Effect::FinishRender)
                    &&& opt_text(final(self).last_debug_stop) == (match stop {
                        Some(m) => Some(m@),
                        None => opt_text(old(self).last_debug_stop),
                    })
                },
            },
    {
        match outcome {
            ExecOutcome::Halted(e) => {
                self.session.cpu_halted = true;
                self.session.sync_live_audio_suspension();
                one_line(two_texts("!execution halted: ", e.as_str()))
            },
            ExecOutcome::Ran { reached, stop } => {
                let mut lines = no_lines();
                match stop {
                    Some(m) => {
                        self.last_debug_stop = Some(m.clone());
                        push_line(&mut lines, marked_line(m.as_str()));
                    },
                    None => {},
                }
                if !*reached {
                    put_missed(&mut lines, ask);
                }
                push_line(&mut lines, console_status_line(&self.machine));
                self.fx.push(Effect::FinishRender);
                assert(texts(lines@) =~= exec_lines(old(self), ask_view(*ask), *outcome));
                lines
            },
        }
    }

    /// A run backwards is over: by steps or frames, or to an earlier stop.
    pub fn console_reverse_done(&mut self, outcome: &Reversed, run: bool) -> (lines: Vec<String>)
        requires
            old(self).wf(),
        ensures
            final(self).wf(),
            *final(self) == (App {
                fx: final(self).fx,
                last_debug_stop: final(self).last_debug_stop,
                ..*old(self)
            }),
            texts(lines@) == reverse_lines(old(self), *outcome, run),
            opt_text(final(self).last_debug_stop) == reverse_stop(old(self), *outcome, run),
            final(self).fx@ == (if *outcome is Failed {
                old(self).fx@
            } else {
                old(self).fx@.push(Effect::FinishRender)
            }),
    {
        let mut lines = no_lines();
        match outcome {
            Reversed::Failed(e) => {
                return one_line(two_texts("!reverse failed: ", e.as_str()));
            },
            Reversed::Found(reason) => {
                if run {
                    self.last_debug_stop = Some(reason.clone());
                    push_line(&mut lines, marked_line(reason.as_str()));
                }
            },
            Reversed::NotFound => {
                if run {
                    push_text(&mut lines, "reverse: no earlier stop hit");
                } else {
                    push_text(&mut lines, "reverse: nothing earlier to land on");
                }
            },
            Reversed::BeyondHistory => {
                push_text(&mut lines, "reverse: beyond recorded history");
            },
        }
        push_line(&mut lines, console_status_line(&self.machine));
        self.fx.push(Effect::FinishRender);
        assert(texts(lines@) =~= reverse_lines(old(self), *outcome, run));
        lines
    }

    /// The last write to a word has been looked up.
    pub fn console_writer_done(&mut self, addr: u32, outcome: &Writer) -> (lines: Vec<String>)
        requires
            old(self).wf(),
        ensures
            final(self).wf(),
            *final(self) == (App { fx: final(self).fx, ..*old(self) }),
            final(self).fx@ == old(self).fx@.push(Effect::FinishRender),
            texts(lines@) == seq![writer_line(addr, old(self).machine.memory.mask, *outcome)],
    {
        let mut line = String::new();
        match outcome {
            Writer::Found { addr: at, before, after, pc, frame } => {
                put(&mut line, "$");
                put_hex(&mut line, *at as u64, 6);
                put(&mut line, ": ");
                put_hex(&mut line, *before as u64, 4);
                put(&mut line, "->");
                put_hex(&mut line, *after as u64, 4);
                put(&mut line, " by pc $");
                put_hex(&mut line, (*pc & self.machine.memory.mask) as u64, 6);
                put(&mut line, " (frame ");
                put_dec(&mut line, *frame);
                put(&mut line, ")");
            },
            Writer::NotFound => {
                put(&mut line, "no write to $");
                put_hex(&mut line, addr as u64, 6);
                put(&mut line, " in retained history");
            },
            Writer::BeyondHistory => {
                put(&mut line, "write to $");
                put_hex(&mut line, addr as u64, 6);
                put(&mut line, " predates history");
            },
            Writer::Failed(e) => {
                put(&mut line, "!last-writer failed: ");
                put(&mut line, e.as_str());
            },
        }
        assert(line@ =~= writer_line(addr, self.machine.memory.mask, *outcome));
        self.fx.push(Effect::FinishRender);
        one_line(line)
    }

    /// The system's library base is known, or why it is not: a breakpoint at
    /// its alert routine stops the machine on every alert.
    pub fn console_catch_alert(&mut self, base: &Result<u32, String>) -> (lines: Vec<String>)
        requires
            old(self).wf(),
        ensures
            final(self).wf(),
            match *base {
                Err(reason) => *final(self) == *old(self) && texts(lines@) == seq!["!"@ + reason@],
                Ok(base) => {
                    let addr = alert_entry(base, old(self).machine.memory.mask);
                    let before = &old(self).machine.breaks;
                    &&& only_store(old(self), final(self))
                    &&& breaks_at(before, &final(self).machine.breaks, addr, None, 0)
                    &&& texts(lines@) == seq![
                        if removes_point(before, addr, None, 0) {
                            "alert catch removed ($"@ + hex(addr as int, 6) + ")"@
                        } else {
                            "break at exec Alert() ($"@ + hex(addr as int, 6)
                                + "); on stop D7 holds the code -- GURU decodes it"@
                        },
                    ]
                },
            },
    {
        match base {
            Err(reason) => one_line(marked_line(reason.as_str())),
            Ok(base) => {
                let entry: u32 = base.wrapping_sub(108);
                assert(entry == (*base - 108) % 0x1_0000_0000);
                let addr: u32 = entry & self.machine.memory.mask;
                let ghost before = self.machine.breaks;
                let set: bool = self.machine.breaks.set_breakpoint(addr, None, 0);
                proof {
                    let now = self.machine.breaks;
                    assert(now == (BreakStore { breakpoints: now.breakpoints, ..before }));
                    assert(set == !removes_point(&before, addr, None, 0));
                    assert(breaks_at(&before, &now, addr, None, 0));
                }
                let mut line = String::new();
                if set {
                    put(&mut line, "break at exec Alert() ($");
                    put_hex(&mut line, addr as u64, 6);
                    put(&mut line, "); on stop D7 holds the code -- GURU decodes it");
                } else {
                    put(&mut line, "alert catch removed ($");
                    put_hex(&mut line, addr as u64, 6);
                    put(&mut line, ")");
                }
                assert(line@ =~= (if set {
                    "break at exec Alert() ($"@ + hex(addr as int, 6)
                        + "); on stop D7 holds the code -- GURU decodes it"@
                } else {
                    "alert catch removed ($"@ + hex(addr as int, 6) + ")"@
                }));
                one_line(line)
            },
        }
    }
}

/// What a walk of the system's structures found, or why it could not start.
pub fn console_with_exec(found: Result<Vec<String>, String>) -> (lines: Vec<String>)
    ensures
        texts(lines@) == (match found {
            Ok(lines) => texts(lines@),
            Err(reason) => seq!["!"@ + reason@],
        }),
{
    match found {
        Ok(lines) => lines,
        Err(reason) => one_line(marked_line(reason.as_str())),
    }
}

pub fn console_guru(code: u32, meaning: &str) -> (lines: Vec<String>)
    ensures
        texts(lines@) == seq![hex(code as int, 8) + ": "@ + meaning@],
{
    let mut line = String::new();
    put_hex(&mut line, code as u64, 8);
    put(&mut line, ": ");
    put(&mut line, meaning);
    assert(line@ =~= hex(code as int, 8) + ": "@ + meaning@);
    one_line(line)
}

pub fn console_trace_started(path: &str, cap: u64, opened: &Result<(), String>) -> (lines: Vec<
    String,
>)
    ensures
        texts(lines@) == seq![
            match *opened {
                Ok(_) => "tracing to "@ + path@ + " (cap "@ + dec(cap as int)
                    + " lines; TRACE STOP ends it)"@,
                Err(e) => "!cannot open "@ + path@ + ": "@ + e@,
            },
        ],
{
    match opened {
        Ok(_) => {
            let mut line = "tracing to ".to_owned();
            put(&mut line, path);
            put(&mut line, " (cap ");
            put_dec(&mut line, cap);
            put(&mut line, " lines; TRACE STOP ends it)");
            one_line(line)
        },
        Err(e) => {
            let mut line = "!cannot open ".to_owned();
            put(&mut line, path);
            put(&mut line, ": ");
            put(&mut line, e.as_str());
            one_line(line)
        },
    }
}

pub open spec fn trace_stop_line(ended: Option<(String, u64)>) -> Seq<char> {
    match ended {
        Some((path, lines)) => "trace stopped: "@ + dec(lines as int) + " lines in "@ + path@,
        None => "no trace running"@,
    }
}

pub fn console_trace_stopped(ended: &Option<(String, u64)>) -> (lines: Vec<String>)
    ensures
        texts(lines@) == seq![trace_stop_line(*ended)],
{
    match ended {
        Some((path, count)) => {
            let mut line = "trace stopped: ".to_owned();
            put_dec(&mut line, *count);
            put(&mut line, " lines in ");
            put(&mut line, path.as_str());
            one_line(line)
        },
        None => one_line("no trace running".to_owned()),
    }
}

pub open spec fn trace_line(running: Option<(String, u64)>) -> Seq<char> {
    match running {
        Some((path, lines)) => "tracing to "@ + path@ + " ("@ + dec(lines as int)
            + " lines so far)"@,
        None => "no trace running (TRACE START [PATH])"@,
    }
}

pub fn console_trace_status(running: &Option<(String, u64)>) -> (lines: Vec<String>)
    ensures
        texts(lines@) == seq![trace_line(*running)],
{
    match running {
        Some((path, count)) => {
            let mut line = "tracing to ".to_owned();
            put(&mut line, path.as_str());
            put(&mut line, " (");
            put_dec(&mut line, *count);
            put(&mut line, " lines so far)");
            one_line(line)
        },
        None => one_line("no trace running (TRACE START [PATH])".to_owned()),
    }
}

pub open spec fn wave_arm_line(arm: WaveArm) -> Seq<char> {
    match arm {
        WaveArm::Bad(e) => "!WAVE START: "@ + e@,
        WaveArm::Armed { trigger, duration, signals, path } => "waveform armed: trigger "@
            + trigger@ + ", duration "@ + duration@ + ", signals "@ + signals@ + " -> "@ + path@,
        WaveArm::Refused(e) => "!cannot arm waveform: "@ + e@,
    }
}

pub fn console_wave_started(arm: &WaveArm) -> (lines: Vec<String>)
    ensures
        texts(lines@) == seq![wave_arm_line(*arm)],
{
    match arm {
        WaveArm::Bad(e) => one_line(two_texts("!WAVE START: ", e.as_str())),
        WaveArm::Armed { trigger, duration, signals, path } => {
            let mut line = "waveform armed: trigger ".to_owned();
            put(&mut line, trigger.as_str());
            put(&mut line, ", duration ");
            put(&mut line, duration.as_str());
            put(&mut line, ", signals ");
            put(&mut line, signals.as_str());
            put(&mut line, " -> ");
            put(&mut line, path.as_str());
            one_line(line)
        },
        WaveArm::Refused(e) => one_line(two_texts("!cannot arm waveform: ", e.as_str())),
    }
}

pub open spec fn wave_stop_line(ended: Option<WaveStatus>) -> Seq<char> {
    match ended {
        Some(s) => "waveform stopped: "@ + dec(s.samples as int) + " samples in "@ + s.path@,
        None => "no waveform capture"@,
    }
}

pub fn console_wave_stopped(ended: &Option<WaveStatus>) -> (lines: Vec<String>)
    ensures
        texts(lines@) == seq![wave_stop_line(*ended)],
{
    match ended {
        Some(s) => {
            let mut line = "waveform stopped: ".to_owned();
            put_dec(&mut line, s.samples);
            put(&mut line, " samples in ");
            put(&mut line, s.path.as_str());
            one_line(line)
        },
        None => one_line("no waveform capture".to_owned()),
    }
}

pub fn console_wave_status(running: &Option<WaveStatus>) -> (lines: Vec<String>)
    ensures
        texts(lines@) == (match *running {
            Some(s) => wave_text(&s),
            None => seq!["no waveform capture (WAVE START [PATH] ...)"@],
        }),
{
    match running {
        Some(s) => wave_status_lines(s),
        None => one_line("no waveform capture (WAVE START [PATH] ...)".to_owned()),
    }
}

} // verus!
