//! What the console prints about the machine, line by line.

use vstd::prelude::*;

use crate::breaks::Breakpoint;
use crate::breaks::Watch;
use crate::lexicon::Lexicon;
use crate::machine::BeamTrap;
use crate::machine::Machine;
use crate::machine::REG_PC;
use crate::machine::REG_SR;
use crate::memory::Memory;
use crate::number::dec;
use crate::number::hex;
use crate::number::put_dec;
use crate::number::put_hex;
use crate::text::put;
use crate::text::texts;

verus! {

pub fn push_line(lines: &mut Vec<String>, line: String)
    ensures
        texts(final(lines)@) == texts(old(lines)@).push(line@),
{
    lines.push(line);
    assert(texts(lines@) =~= texts(old(lines)@).push(line@));
}

pub fn push_text(lines: &mut Vec<String>, line: &str)
    ensures
        texts(final(lines)@) == texts(old(lines)@).push(line@),
{
    push_line(lines, line.to_owned());
}

pub fn no_lines() -> (r: Vec<String>)
    ensures
        texts(r@) == Seq::<Seq<char>>::empty(),
{
    let r: Vec<String> = Vec::new();
    assert(texts(r@) =~= Seq::empty());
    r
}

pub fn one_line(line: String) -> (r: Vec<String>)
    ensures
        texts(r@) == seq![line@],
{
    let mut r = no_lines();
    push_line(&mut r, line);
    assert(texts(r@) =~= seq![line@]);
    r
}

/// The commands and their arguments.
pub open spec fn help_text() -> Seq<Seq<char>> {
    seq![
        "execution:  run  pause  step/s [N]  over  out  frame/f  line  cstep"@,
        "            runto ADDR   toslot V [H]   rstep [N]  rframe  rrun"@,
        "stops:      break/b ADDR [COND] [IGN N]   watch/w ADDR [CPU|BLITTER|DISK]"@,
        "            rwatch REG"@,
        "            btrap V [H]   cbreak ADDR   catch irq N|trap N|vec N"@,
        "            catchtask [NAME]   catchalert   breaks (list)   clearbreaks"@,
        "inspect:    status  regs/r  mem/m ADDR [BYTES]  dis/d [ADDR] [N]"@,
        "            copper [pc|ADDR] [N]   custom   blits   find HEX [START]"@,
        "            writer ADDR"@,
        "            history/h [N]   stack/bt"@,
        "os:         tasks  task [ADDR|NAME]  execbase  memlist  segments"@,
        "            libs  devs  resources  ports  guru [CODE]"@,
        "hunt:       hunt start [B|W]  hunt eq/ne/lt/gt VAL  hunt same|diff  hunt list"@,
        "modify:     poke ADDR VAL   setreg REG VAL   trace start [PATH]|stop"@,
        "waveform:   wave start [PATH] [TRIGGER] [DURATION] [SIGNALS]   wave stop   wave"@,
        "            TRIGGER: now  pc=ADDR  beam=V[:H]  reg=OFF  time=SECS"@,
        "console:    help  clear  close"@,
        "Addresses and values are hex; beam positions (V, H) are decimal."@,
        "Cmd/Ctrl+V pastes; a multi-line paste runs each line in order."@,
    ]
}

pub fn console_help() -> (r: Vec<String>)
    ensures
        texts(r@) == help_text(),
{
    let mut r = no_lines();
    push_text(&mut r, "execution:  run  pause  step/s [N]  over  out  frame/f  line  cstep");
    push_text(&mut r, "            runto ADDR   toslot V [H]   rstep [N]  rframe  rrun");
    push_text(&mut r, "stops:      break/b ADDR [COND] [IGN N]   watch/w ADDR [CPU|BLITTER|DISK]");
    push_text(&mut r, "            rwatch REG");
    push_text(&mut r, "            btrap V [H]   cbreak ADDR   catch irq N|trap N|vec N");
    push_text(&mut r, "            catchtask [NAME]   catchalert   breaks (list)   clearbreaks");
    push_text(&mut r, "inspect:    status  regs/r  mem/m ADDR [BYTES]  dis/d [ADDR] [N]");
    push_text(&mut r, "            copper [pc|ADDR] [N]   custom   blits   find HEX [START]");
    push_text(&mut r, "            writer ADDR");
    push_text(&mut r, "            history/h [N]   stack/bt");
    push_text(&mut r, "os:         tasks  task [ADDR|NAME]  execbase  memlist  segments");
    push_text(&mut r, "            libs  devs  resources  ports  guru [CODE]");
    push_text(
        &mut r,
        "hunt:       hunt start [B|W]  hunt eq/ne/lt/gt VAL  hunt same|diff  hunt list",
    );
    push_text(&mut r, "modify:     poke ADDR VAL   setreg REG VAL   trace start [PATH]|stop");
    push_text(
        &mut r,
        "waveform:   wave start [PATH] [TRIGGER] [DURATION] [SIGNALS]   wave stop   wave",
    );
    push_text(&mut r, "            TRIGGER: now  pc=ADDR  beam=V[:H]  reg=OFF  time=SECS");
    push_text(&mut r, "console:    help  clear  close");
    push_text(&mut r, "Addresses and values are hex; beam positions (V, H) are decimal.");
    push_text(&mut r, "Cmd/Ctrl+V pastes; a multi-line paste runs each line in order.");
    assert(texts(r@) =~= help_text());
    r
}

/// Where the machine stands.
pub open spec fn status_text(m: &Machine) -> Seq<char> {
    "pc $"@ + hex(m.regs@[REG_PC as int] as int, 6) + "  "@ + m.pc_text@ + "   sr "@ + hex(
        m.regs@[REG_SR as int] as int,
        4,
    ) + "  beam v"@ + dec(m.vpos as int) + " h"@ + dec(m.hpos as int) + "  frame "@ + dec(
        m.frames as int,
    )
}

pub fn console_status_line(m: &Machine) -> (r: String)
    requires
        m.wf(),
    ensures
        r@ == status_text(m),
{
    let mut out = "pc $".to_owned();
    put_hex(&mut out, m.regs[REG_PC] as u64, 6);
    put(&mut out, "  ");
    put(&mut out, m.pc_text.as_str());
    put(&mut out, "   sr ");
    put_hex(&mut out, m.regs[REG_SR] as u64, 4);
    put(&mut out, "  beam v");
    put_dec(&mut out, m.vpos as u64);
    put(&mut out, " h");
    put_dec(&mut out, m.hpos as u64);
    put(&mut out, "  frame ");
    put_dec(&mut out, m.frames);
    out
}

/// Eight registers from one on, in hexadecimal, separated by spaces.
pub open spec fn eight_regs(regs: Seq<u32>, from: int, n: nat) -> Seq<char>
    decreases n,
{
    if n == 0 {
        Seq::empty()
    } else if n == 1 {
        hex(regs[from] as int, 8)
    } else {
        eight_regs(regs, from, (n - 1) as nat) + " "@ + hex(regs[from + n - 1] as int, 8)
    }
}

fn put_eight(out: &mut String, regs: &Vec<u32>, from: usize)
    requires
        from + 8 <= regs@.len(),
    ensures
        final(out)@ == old(out)@ + eight_regs(regs@, from as int, 8),
{
    let total: usize = regs.len();
    put_hex(out, regs[from] as u64, 8);
    assert(out@ =~= old(out)@ + eight_regs(regs@, from as int, 1));
    let mut n: usize = 1;
    while n < 8
        invariant
            1 <= n <= 8,
            from + 8 <= total == regs@.len(),
            out@ == old(out)@ + eight_regs(regs@, from as int, n as nat),
        decreases 8 - n,
    {
        put(out, " ");
        put_hex(out, regs[from + n] as u64, 8);
        n += 1;
        assert(out@ =~= old(out)@ + eight_regs(regs@, from as int, n as nat));
    }
}

pub open spec fn regs_text(m: &Machine) -> Seq<Seq<char>> {
    seq![
        "D0-D7 "@ + eight_regs(m.regs@, 0, 8),
        "A0-A7 "@ + eight_regs(m.regs@, 8, 8),
        "PC "@ + hex(m.regs@[REG_PC as int] as int, 8) + "  SR "@ + hex(
            m.regs@[REG_SR as int] as int,
            4,
        ) + " ["@ + m.sr_text@ + "]"@ + (if m.stopped {
            "  STOPPED"@
        } else {
            Seq::empty()
        }),
    ]
}

pub fn console_regs_lines(m: &Machine) -> (r: Vec<String>)
    requires
        m.wf(),
    ensures
        texts(r@) == regs_text(m),
{
    let mut r = no_lines();
    let mut d = "D0-D7 ".to_owned();
    put_eight(&mut d, &m.regs, 0);
    push_line(&mut r, d);
    let mut a = "A0-A7 ".to_owned();
    put_eight(&mut a, &m.regs, 8);
    push_line(&mut r, a);
    let mut p = "PC ".to_owned();
    put_hex(&mut p, m.regs[REG_PC] as u64, 8);
    put(&mut p, "  SR ");
    put_hex(&mut p, m.regs[REG_SR] as u64, 4);
    put(&mut p, " [");
    put(&mut p, m.sr_text.as_str());
    put(&mut p, "]");
    if m.stopped {
        put(&mut p, "  STOPPED");
    }
    assert(p@ =~= regs_text(m)[2]);
    push_line(&mut r, p);
    assert(texts(r@) =~= regs_text(m));
    r
}

pub open spec fn point_text(p: Breakpoint) -> Seq<char> {
    "break  $"@ + hex(p.addr as int, 6) + (match p.cond {
        Some(c) => "  "@ + c@,
        None => Seq::empty(),
    }) + (if p.ignore > 0 {
        "  ign "@ + dec(p.hits as int) + "/"@ + dec(p.ignore as int)
    } else {
        Seq::empty()
    })
}

fn point_line(p: &Breakpoint) -> (r: String)
    ensures
        r@ == point_text(*p),
{
    let mut out = "break  $".to_owned();
    put_hex(&mut out, p.addr as u64, 6);
    match &p.cond {
        Some(c) => {
            put(&mut out, "  ");
            put(&mut out, c.as_str());
        },
        None => {},
    }
    if p.ignore > 0 {
        put(&mut out, "  ign ");
        put_dec(&mut out, p.hits as u64);
        put(&mut out, "/");
        put_dec(&mut out, p.ignore as u64);
    }
    assert(out@ =~= point_text(*p));
    out
}

pub open spec fn class_label(lex: &Lexicon, f: u8) -> Seq<char> {
    if f < lex.classes@.len() {
        lex.classes@[f as int].label@
    } else {
        "?"@
    }
}

pub open spec fn watch_text(w: Watch, m: &Memory, lex: &Lexicon) -> Seq<char> {
    "watch  $"@ + hex(w.addr as int, 6) + "  now "@ + hex(m.word(w.addr) as int, 4) + (
    match w.saved.filter {
        Some(f) => "  ["@ + class_label(lex, f) + " only]"@,
        None => Seq::empty(),
    })
}

fn watch_line(w: Watch, m: &Memory, lex: &Lexicon) -> (r: String)
    ensures
        r@ == watch_text(w, m, lex),
{
    let mut out = "watch  $".to_owned();
    put_hex(&mut out, w.addr as u64, 6);
    put(&mut out, "  now ");
    put_hex(&mut out, m.peek_word(w.addr) as u64, 4);
    match w.saved.filter {
        Some(f) => {
            put(&mut out, "  [");
            if (f as usize) < lex.classes.len() {
                put(&mut out, lex.classes[f as usize].label.as_str());
            } else {
                put(&mut out, "?");
            }
            put(&mut out, " only]");
        },
        None => {},
    }
    assert(out@ =~= watch_text(w, m, lex));
    out
}

pub open spec fn reg_watch_text(off: u16, lex: &Lexicon) -> Seq<char> {
    "rwatch "@ + lex.register_name(off) + " ($"@ + hex(off as int, 3) + ")"@
}

pub open spec fn catch_text(vector: u16, lex: &Lexicon) -> Seq<char> {
    "catch  "@ + lex.vector_name(vector) + " (vector "@ + dec(vector as int) + ")"@
}

pub open spec fn trap_text(t: BeamTrap) -> Seq<char> {
    "btrap  v"@ + dec(t.vpos as int) + hpos_text(t.hpos) + (if t.once {
        "  once"@
    } else {
        Seq::empty()
    })
}

pub open spec fn hpos_text(h: Option<u16>) -> Seq<char> {
    match h {
        Some(h) => " h"@ + dec(h as int),
        None => Seq::empty(),
    }
}

pub fn put_hpos(out: &mut String, h: Option<u16>)
    ensures
        final(out)@ == old(out)@ + hpos_text(h),
{
    match h {
        Some(h) => {
            put(out, " h");
            put_dec(out, h as u64);
        },
        None => {},
    }
    assert(out@ =~= old(out)@ + hpos_text(h));
}

pub open spec fn copper_break_text(addr: u32) -> Seq<char> {
    "cbreak $"@ + hex(addr as int, 6)
}

pub open spec fn task_text(target: Option<String>) -> Seq<Seq<char>> {
    match target {
        Some(t) => seq!["ctask  name contains \""@ + t@ + "\""@],
        None => Seq::empty(),
    }
}

/// Every installed stop, one per line, by kind.
pub open spec fn stops_text(m: &Machine, lex: &Lexicon) -> Seq<Seq<char>> {
    m.breaks.breakpoints@.map_values(|p: Breakpoint| point_text(p)) + m.breaks.watches@.map_values(
        |w: Watch| watch_text(w, &m.memory, lex),
    ) + m.breaks.reg_watches@.map_values(|r: u16| reg_watch_text(r, lex))
        + m.breaks.catches@.map_values(|v: u16| catch_text(v, lex)) + task_text(m.breaks.task_catch) + m.beam_traps@.map_values(|t: BeamTrap| trap_text(t)) + m.copper_breaks@.map_values(
        |a: u32| copper_break_text(a),
    )
}

pub open spec fn breaks_text(m: &Machine, lex: &Lexicon) -> Seq<Seq<char>> {
    if stops_text(m, lex).len() == 0 {
        seq!["no breakpoints, watchpoints, traps, or catches"@]
    } else {
        stops_text(m, lex)
    }
}

fn put_store(r: &mut Vec<String>, m: &Machine, lex: &Lexicon)
    ensures
        texts(final(r)@) == texts(old(r)@) + m.breaks.breakpoints@.map_values(
            |p: Breakpoint| point_text(p),
        ) + m.breaks.watches@.map_values(|w: Watch| watch_text(w, &m.memory, lex)),
{
    let ghost start = texts(r@);
    let ghost points = m.breaks.breakpoints@.map_values(|p: Breakpoint| point_text(p));
    let ghost watches = m.breaks.watches@.map_values(|w: Watch| watch_text(w, &m.memory, lex));
    let mut i: usize = 0;
    while i < m.breaks.breakpoints.len()
        invariant
            i <= m.breaks.breakpoints@.len(),
            points == m.breaks.breakpoints@.map_values(|p: Breakpoint| point_text(p)),
            texts(r@) == start + points.take(i as int),
        decreases m.breaks.breakpoints@.len() - i,
    {
        let line = point_line(&m.breaks.breakpoints[i]);
        push_line(r, line);
        i += 1;
        assert(points.take(i as int) =~= points.take(i - 1).push(line@));
    }
    assert(points.take(i as int) =~= points);
    let mut i: usize = 0;
    while i < m.breaks.watches.len()
        invariant
            i <= m.breaks.watches@.len(),
            watches == m.breaks.watches@.map_values(|w: Watch| watch_text(w, &m.memory, lex)),
            texts(r@) == start + points + watches.take(i as int),
        decreases m.breaks.watches@.len() - i,
    {
        let line = watch_line(m.breaks.watches[i], &m.memory, lex);
        push_line(r, line);
        i += 1;
        assert(watches.take(i as int) =~= watches.take(i - 1).push(line@));
    }
    assert(watches.take(i as int) =~= watches);
}

fn put_catches(r: &mut Vec<String>, m: &Machine, lex: &Lexicon)
    ensures
        texts(final(r)@) == texts(old(r)@) + m.breaks.reg_watches@.map_values(
            |o: u16| reg_watch_text(o, lex),
        ) + m.breaks.catches@.map_values(|v: u16| catch_text(v, lex)),
{
    let ghost start = texts(r@);
    let ghost regs = m.breaks.reg_watches@.map_values(|o: u16| reg_watch_text(o, lex));
    let ghost catches = m.breaks.catches@.map_values(|v: u16| catch_text(v, lex));
    let mut i: usize = 0;
    while i < m.breaks.reg_watches.len()
        invariant
            i <= m.breaks.reg_watches@.len(),
            regs == m.breaks.reg_watches@.map_values(|o: u16| reg_watch_text(o, lex)),
            texts(r@) == start + regs.take(i as int),
        decreases m.breaks.reg_watches@.len() - i,
    {
        let off: u16 = m.breaks.reg_watches[i];
        let mut line = "rwatch ".to_owned();
        put(&mut line, lex.custom_reg_name(off).as_str());
        put(&mut line, " ($");
        put_hex(&mut line, off as u64, 3);
        put(&mut line, ")");
        push_line(r, line);
        i += 1;
        assert(regs.take(i as int) =~= regs.take(i - 1).push(line@));
    }
    assert(regs.take(i as int) =~= regs);
    let mut i: usize = 0;
    while i < m.breaks.catches.len()
        invariant
            i <= m.breaks.catches@.len(),
            catches == m.breaks.catches@.map_values(|v: u16| catch_text(v, lex)),
            texts(r@) == start + regs + catches.take(i as int),
        decreases m.breaks.catches@.len() - i,
    {
        let vector: u16 = m.breaks.catches[i];
        let mut line = "catch  ".to_owned();
        put(&mut line, lex.exception_vector_name(vector).as_str());
        put(&mut line, " (vector ");
        put_dec(&mut line, vector as u64);
        put(&mut line, ")");
        push_line(r, line);
        i += 1;
        assert(catches.take(i as int) =~= catches.take(i - 1).push(line@));
    }
    assert(catches.take(i as int) =~= catches);
}

fn put_traps(r: &mut Vec<String>, m: &Machine)
    ensures
        texts(final(r)@) == texts(old(r)@) + m.beam_traps@.map_values(|t: BeamTrap| trap_text(t))
            + m.copper_breaks@.map_values(|a: u32| copper_break_text(a)),
{
    let ghost start = texts(r@);
    let ghost traps = m.beam_traps@.map_values(|t: BeamTrap| trap_text(t));
    let ghost coppers = m.copper_breaks@.map_values(|a: u32| copper_break_text(a));
    let mut i: usize = 0;
    while i < m.beam_traps.len()
        invariant
            i <= m.beam_traps@.len(),
            traps == m.beam_traps@.map_values(|t: BeamTrap| trap_text(t)),
            texts(r@) == start + traps.take(i as int),
        decreases m.beam_traps@.len() - i,
    {
        let trap: BeamTrap = m.beam_traps[i];
        let mut line = "btrap  v".to_owned();
        put_dec(&mut line, trap.vpos as u64);
        put_hpos(&mut line, trap.hpos);
        if trap.once {
            put(&mut line, "  once");
        }
        assert(line@ =~= trap_text(trap));
        push_line(r, line);
        i += 1;
        assert(traps.take(i as int) =~= traps.take(i - 1).push(line@));
    }
    assert(traps.take(i as int) =~= traps);
    let mut i: usize = 0;
    while i < m.copper_breaks.len()
        invariant
            i <= m.copper_breaks@.len(),
            coppers == m.copper_breaks@.map_values(|a: u32| copper_break_text(a)),
            texts(r@) == start + traps + coppers.take(i as int),
        decreases m.copper_breaks@.len() - i,
    {
        let mut line = "cbreak $".to_owned();
        put_hex(&mut line, m.copper_breaks[i] as u64, 6);
        push_line(r, line);
        i += 1;
        assert(coppers.take(i as int) =~= coppers.take(i - 1).push(line@));
    }
    assert(coppers.take(i as int) =~= coppers);
}

/// Every installed stop, or the line that says there is none.
pub fn console_breaks_lines(m: &Machine, lex: &Lexicon) -> (r: Vec<String>)
    ensures
        texts(r@) == breaks_text(m, lex),
{
    let mut r = no_lines();
    put_store(&mut r, m, lex);
    put_catches(&mut r, m, lex);
    let ghost task = task_text(m.breaks.task_catch);
    let ghost before = texts(r@);
    match &m.breaks.task_catch {
        Some(target) => {
            let mut line = "ctask  name contains \"".to_owned();
            put(&mut line, target.as_str());
            put(&mut line, "\"");
            push_line(&mut r, line);
        },
        None => {},
    }
    assert(texts(r@) =~= before + task);
    put_traps(&mut r, m);
    assert(texts(r@) =~= stops_text(m, lex));
    assert(texts(r@).len() == r@.len());
    if r.len() == 0 {
        push_text(&mut r, "no breakpoints, watchpoints, traps, or catches");
        assert(texts(r@) =~= breaks_text(m, lex));
    }
    r
}

} // verus!
