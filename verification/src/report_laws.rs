//! What the console's listings show: each value in its place, each list complete and
//! in order.

use vstd::prelude::*;

use crate::breaks::Breakpoint;
use crate::breaks::SavedWatch;
use crate::breaks::Watch;
use crate::breaks::WatchAccess;
use crate::dumps::Instruction;
use crate::dumps::OsNode;
use crate::dumps::Segment;
use crate::dumps::blit_head;
use crate::dumps::blit_list;
use crate::dumps::blit_pointers;
use crate::dumps::blits_text;
use crate::dumps::code_addr;
use crate::dumps::code_text;
use crate::dumps::copper_text;
use crate::dumps::dump_chars;
use crate::dumps::dump_hex;
use crate::dumps::dump_row;
use crate::dumps::dump_text;
use crate::dumps::history_text;
use crate::dumps::node_text;
use crate::dumps::nodes_text;
use crate::dumps::register_cell;
use crate::dumps::segment_text;
use crate::dumps::segments_text;
use crate::dumps::shown_registers;
use crate::dumps::stack_text;
use crate::lexicon::Lexicon;
use crate::machine::Blit;
use crate::machine::BusTrace;
use crate::machine::Copper;
use crate::machine::Machine;
use crate::memory::Memory;
use crate::number::digits_of;
use crate::number::hex;
use crate::number::padded;
use crate::report::breaks_text;
use crate::report::catch_text;
use crate::report::copper_break_text;
use crate::report::eight_regs;
use crate::report::point_text;
use crate::report::reg_watch_text;
use crate::report::regs_text;
use crate::report::trap_text;
use crate::report::watch_text;

verus! {

/// A watch that stands for two requests covers both and no more: it reads where either
/// reads and writes where either writes.
pub proof fn lemma_union_covers_both(a: WatchAccess, b: WatchAccess)
    ensures
        a.spec_union(b).spec_reads() == (a.spec_reads() || b.spec_reads()),
        a.spec_union(b).spec_writes() == (a.spec_writes() || b.spec_writes()),
        a.spec_union(b) == b.spec_union(a),
        WatchAccess::Read.spec_reads() && !WatchAccess::Read.spec_writes(),
        !WatchAccess::Write.spec_reads() && WatchAccess::Write.spec_writes(),
        WatchAccess::Access.spec_reads() && WatchAccess::Access.spec_writes(),
{
}

/// A watch serves a request where nothing narrows it and it fires on all that the
/// request does.
pub proof fn lemma_watch_serves(w: SavedWatch, asked: WatchAccess)
    ensures
        w.covers(asked) <==> w.filter is None && w.pc is None && (asked.spec_reads()
            ==> w.access.spec_reads()) && (asked.spec_writes() ==> w.access.spec_writes()),
        SavedWatch::unfiltered(asked).covers(asked),
        SavedWatch::unfiltered(asked).access == asked,
{
}

/// Sixteen to the power of a count of digits.
pub open spec fn sixteens(k: nat) -> nat
    decreases k,
{
    if k == 0 {
        1
    } else {
        16 * sixteens((k - 1) as nat)
    }
}

proof fn lemma_hex_len(v: nat, k: nat)
    requires
        k > 0,
        v < sixteens(k),
    ensures
        digits_of(v, 16).len() <= k,
        hex(v as int, k as int).len() == k,
    decreases k,
{
    if v >= 16 {
        if k == 1 {
            assert(sixteens(1) == 16) by {
                reveal_with_fuel(sixteens, 2);
            }
        } else {
            assert(sixteens(k) == 16 * sixteens((k - 1) as nat));
            lemma_hex_len(v / 16, (k - 1) as nat);
        }
    }
}

proof fn lemma_byte_len(v: u8)
    ensures
        hex(v as int, 2).len() == 2,
{
    reveal_with_fuel(sixteens, 3);
    lemma_hex_len(v as nat, 2);
}

proof fn lemma_long_len(v: u32)
    ensures
        hex(v as int, 8).len() == 8,
{
    reveal_with_fuel(sixteens, 9);
    lemma_hex_len(v as nat, 8);
}

proof fn lemma_dump_hex(m: &Memory, base: int, n: nat, k: int)
    ensures
        dump_hex(m, base, n).len() == 3 * n,
        0 <= k < n ==> dump_hex(m, base, n).subrange(3 * k, 3 * k + 2) == hex(
            m.byte(base, k) as int,
            2,
        ),
        0 <= k < n ==> dump_hex(m, base, n)[3 * k + 2] == ' ',
    decreases n,
{
    reveal_strlit(" ");
    if n > 0 {
        let front = dump_hex(m, base, (n - 1) as nat);
        let cell = hex(m.byte(base, n - 1) as int, 2);
        lemma_dump_hex(m, base, (n - 1) as nat, k);
        lemma_byte_len(m.byte(base, n - 1));
        if k == n - 1 {
            assert((front + cell + " "@).subrange(3 * k, 3 * k + 2) =~= cell);
            assert(" "@[0] == ' ');
        } else if 0 <= k < n - 1 {
            assert((front + cell + " "@).subrange(3 * k, 3 * k + 2) =~= front.subrange(
                3 * k,
                3 * k + 2,
            ));
        }
    }
}

proof fn lemma_dump_chars(m: &Memory, base: int, n: nat, k: int)
    requires
        0 <= k < n,
    ensures
        dump_chars(m, base, n).len() == n,
        0x20 <= m.byte(base, k) < 0x7F ==> dump_chars(m, base, n)[k] as int == m.byte(base, k),
        !(0x20 <= m.byte(base, k) < 0x7F) ==> dump_chars(m, base, n)[k] == '.',
    decreases n,
{
    if k < n - 1 {
        lemma_dump_chars(m, base, (n - 1) as nat, k);
    } else {
        if n > 1 {
            lemma_dump_chars(m, base, (n - 1) as nat, 0);
        } else {
            assert(dump_chars(m, base, 0).len() == 0);
        }
    }
}

/// A row of a dump shows sixteen bytes, each as two digits in its column, and then as
/// characters, a dot for what cannot be shown.
pub proof fn lemma_dump_rows(m: &Memory, base: u32, k: int)
    requires
        0 <= k < 16,
        base < 0x100_0000,
    ensures
        dump_row(m, base).len() == 6 + 2 + 48 + 1 + 16,
        dump_row(m, base).take(6) == hex(base as int, 6),
        dump_row(m, base).subrange(8 + 3 * k, 8 + 3 * k + 2) == hex(
            m.byte(base as int, k) as int,
            2,
        ),
        0x20 <= m.byte(base as int, k) < 0x7F ==> dump_row(m, base)[57 + k] as int == m.byte(
            base as int,
            k,
        ),
        !(0x20 <= m.byte(base as int, k) < 0x7F) ==> dump_row(m, base)[57 + k] == '.',
{
    reveal_strlit(" ");
    reveal_strlit(": ");
    assert(sixteens(6) == 0x100_0000) by {
        reveal_with_fuel(sixteens, 7);
    }
    lemma_hex_len(base as nat, 6);
    lemma_dump_hex(m, base as int, 16, k);
    lemma_dump_chars(m, base as int, 16, k);
    let cells = dump_hex(m, base as int, 16);
    assert(dump_row(m, base).take(6) =~= hex(base as int, 6));
    assert(dump_row(m, base).subrange(8 + 3 * k, 8 + 3 * k + 2) =~= cells.subrange(
        3 * k,
        3 * k + 2,
    ));
}

/// A dump starts at the sixteen bytes that hold its address and goes on row by row until
/// it has shown as many bytes as were asked for.
pub proof fn lemma_dumps_are_aligned(m: &Memory, addr: u32, len: u32, rows: int, i: int)
    requires
        1 <= len <= 0x400,
        addr <= 0xFFFF_0000,
        addr % 16 == 0,
    ensures
        dump_text(m, addr, len).len() == rows <==> (rows - 1) * 16 < len <= rows * 16,
        0 <= i < dump_text(m, addr, len).len() ==> dump_text(m, addr, len)[i] == dump_row(
            m,
            (addr + 16 * i) as u32,
        ),
{
    let n = (len + 15) / 16;
    assert(dump_text(m, addr, len).len() == n);
    assert((n - 1) * 16 < len <= n * 16);
    if 0 <= i < n {
        assert(addr + i * 16 < 0x1_0000_0000);
        assert((addr - addr % 16 + i * 16) % 0x1_0000_0000 == addr + 16 * i);
    }
}

/// A dump of any address is the dump of the row that holds it.
pub proof fn lemma_dumps_start_at_a_row(m: &Memory, addr: u32, low: u32, len: u32)
    requires
        low < 16,
        addr % 16 == 0,
        addr + low <= 0xFFFF_FFFF,
    ensures
        dump_text(m, (addr + low) as u32, len) == dump_text(m, addr, len),
{
    let a = (addr + low) as u32;
    assert(a - a % 16 == addr);
    assert(dump_text(m, a, len) =~= dump_text(m, addr, len));
}

/// Each instruction of a listing stands behind the one before it, at least a word on.
pub proof fn lemma_listing_addresses(pc: u32, code: Seq<Instruction>, i: int)
    requires
        0 <= i < code.len(),
        code_addr(pc, code, i) <= 0xFFFF_0000,
        code[i].len <= 0xFFFF,
    ensures
        code_text(pc, code).len() == code.len(),
        code_text(pc, code)[i] == hex(code_addr(pc, code, i) as int, 6) + "  "@ + code[i].text@,
        code_addr(pc, code, 0) == pc,
        code[i].len >= 2 ==> code_addr(pc, code, i + 1) == code_addr(pc, code, i) + code[i].len,
        code[i].len < 2 ==> code_addr(pc, code, i + 1) == code_addr(pc, code, i) + 2,
{
}

/// The history shows its latest entries, the latest last, and no more than it has.
pub proof fn lemma_history_shows_the_latest(h: Seq<(u32, String)>, count: u64, i: int)
    requires
        h.len() > 0,
        count > 0,
    ensures
        history_text(h, count).len() <= count,
        history_text(h, count).len() == h.len() || history_text(h, count).len() == count,
        history_text(h, count).last() == hex(h.last().0 as int, 6) + "  "@ + h.last().1@,
        0 <= i < history_text(h, count).len() ==> history_text(h, count)[history_text(
            h,
            count,
        ).len() - 1 - i] == hex(h[h.len() - 1 - i].0 as int, 6) + "  "@ + h[h.len() - 1 - i].1@,
{
}

/// A copper list marks the instruction that the copper stands at, and only that one.
pub proof fn lemma_copper_mark(c: Copper, list: Seq<(u32, String)>, i: int)
    requires
        0 <= i < list.len(),
    ensures
        copper_text(c, list).len() == list.len() + 1,
        list[i].0 == c.pc ==> copper_text(c, list)[i + 1][0] == '>',
        list[i].0 != c.pc ==> copper_text(c, list)[i + 1][0] == ' ',
        c.running ==> copper_text(c, list)[0] == "COP1LC "@ + hex(c.cop1lc as int, 6)
            + "  COP2LC "@ + hex(c.cop2lc as int, 6) + "  COPPC "@ + hex(c.pc as int, 6) + " ("@
            + "running"@ + ")"@,
        !c.running ==> copper_text(c, list)[0] == "COP1LC "@ + hex(c.cop1lc as int, 6)
            + "  COP2LC "@ + hex(c.cop2lc as int, 6) + "  COPPC "@ + hex(c.pc as int, 6) + " ("@
            + "stopped"@ + ")"@,
{
    reveal_strlit(">");
    reveal_strlit(" ");
    assert(">"@[0] == '>' && " "@[0] == ' ');
}

proof fn lemma_blit_list(blits: Seq<Blit>, n: nat, i: int)
    requires
        n <= blits.len(),
    ensures
        blit_list(blits, n).len() == 2 * n,
        0 <= i < n ==> blit_list(blits, n)[2 * i] == blit_head(i, blits[i]),
        0 <= i < n ==> blit_list(blits, n)[2 * i + 1] == blit_pointers(blits[i]),
    decreases n,
{
    if n > 0 {
        lemma_blit_list(blits, (n - 1) as nat, i);
    }
}

/// Every blit of the frame is listed in order, on two lines: what it was, then where its
/// four channels pointed.
pub proof fn lemma_blits_are_listed(t: BusTrace, i: int)
    requires
        0 <= i < t.blits@.len(),
    ensures
        blits_text(Some(t)).len() == 2 * t.blits@.len() + 1,
        blits_text(Some(t))[2 * i + 1] == blit_head(i, t.blits@[i]),
        blits_text(Some(t))[2 * i + 2] == "     A $"@ + hex(
            (t.blits@[i].apt & 0x00FF_FFFF) as int,
            6,
        ) + "  B $"@ + hex((t.blits@[i].bpt & 0x00FF_FFFF) as int, 6) + "  C $"@ + hex(
            (t.blits@[i].cpt & 0x00FF_FFFF) as int,
            6,
        ) + "  D $"@ + hex((t.blits@[i].dpt & 0x00FF_FFFF) as int, 6),
{
    lemma_blit_list(t.blits@, t.blits@.len(), i);
}

/// A blit's line ends with what its control word says of it: drawing a line, filling,
/// descending, by bits zero, three and one.
pub proof fn lemma_blit_flags(i: int, b: Blit)
    ensures
        ({
            let start = "#"@ + padded(digits_of(i as nat, 10), 2) + " "@ + crate::dumps::beam_text(
                b.start,
            ) + " -> "@ + (match b.end {
                Some(end) => crate::dumps::beam_text(end),
                None => "(running)"@,
            }) + "  con0 "@ + hex(b.bltcon0 as int, 4) + " con1 "@ + hex(b.bltcon1 as int, 4)
                + "  "@ + digits_of(b.width_words as nat, 10) + "x"@ + digits_of(
                b.height as nat,
                10,
            );
            &&& b.bltcon1 == 0 ==> blit_head(i, b) == start
            &&& b.bltcon1 == 1 ==> blit_head(i, b) == start + "  LINE"@
            &&& b.bltcon1 == 2 ==> blit_head(i, b) == start + "  DESC"@
            &&& b.bltcon1 == 8 ==> blit_head(i, b) == start + "  FILL"@
            &&& b.bltcon1 == 11 ==> blit_head(i, b) == start + "  LINE"@ + "  FILL"@ + "  DESC"@
        }),
{
    let none = Seq::<char>::empty();
    assert(forall|s: Seq<char>| #[trigger] (s + none) =~= s);
}

proof fn lemma_eight(regs: Seq<u32>, from: int, n: nat, k: int)
    requires
        n > 0,
    ensures
        eight_regs(regs, from, n).len() == 9 * n - 1,
        0 <= k < n ==> eight_regs(regs, from, n).subrange(9 * k, 9 * k + 8) == hex(
            regs[from + k] as int,
            8,
        ),
    decreases n,
{
    reveal_strlit(" ");
    lemma_long_len(regs[from + n - 1]);
    if n == 1 {
        assert(hex(regs[from] as int, 8).subrange(0, 8) =~= hex(regs[from] as int, 8));
    } else {
        let front = eight_regs(regs, from, (n - 1) as nat);
        let cell = hex(regs[from + n - 1] as int, 8);
        lemma_eight(regs, from, (n - 1) as nat, k);
        if k == n - 1 {
            assert((front + " "@ + cell).subrange(9 * k, 9 * k + 8) =~= cell);
        } else if 0 <= k < n - 1 {
            assert((front + " "@ + cell).subrange(9 * k, 9 * k + 8) =~= front.subrange(
                9 * k,
                9 * k + 8,
            ));
        }
    }
}

/// The register dump shows the data registers on its first line and the address
/// registers on its second, each in its column; the third is the program counter and the
/// status register, and whether the processor has stopped.
pub proof fn lemma_registers_in_columns(m: &Machine, k: int)
    requires
        0 <= k < 8,
    ensures
        regs_text(m).len() == 3,
        regs_text(m)[0].subrange(6 + 9 * k, 14 + 9 * k) == hex(m.regs@[k] as int, 8),
        regs_text(m)[1].subrange(6 + 9 * k, 14 + 9 * k) == hex(m.regs@[8 + k] as int, 8),
        regs_text(m)[2] == "PC "@ + hex(m.regs@[17] as int, 8) + "  SR "@ + hex(
            m.regs@[16] as int,
            4,
        ) + " ["@ + m.sr_text@ + "]"@ + (if m.stopped {
            "  STOPPED"@
        } else {
            Seq::empty()
        }),
{
    reveal_strlit("D0-D7 ");
    reveal_strlit("A0-A7 ");
    lemma_eight(m.regs@, 0, 8, k);
    lemma_eight(m.regs@, 8, 8, k);
    let d = eight_regs(m.regs@, 0, 8);
    let a = eight_regs(m.regs@, 8, 8);
    assert(("D0-D7 "@ + d).subrange(6 + 9 * k, 14 + 9 * k) =~= d.subrange(9 * k, 9 * k + 8));
    assert(("A0-A7 "@ + a).subrange(6 + 9 * k, 14 + 9 * k) =~= a.subrange(9 * k, 9 * k + 8));
}

/// The list of stops has a line for every one, the breakpoints first, then watches,
/// register watches, catches, the task, beam traps and copper breakpoints.
pub proof fn lemma_every_stop_is_listed(m: &Machine, lex: &Lexicon, i: int)
    ensures
        ({
            let b = m.breaks.breakpoints@.len();
            let w = b + m.breaks.watches@.len();
            let r = w + m.breaks.reg_watches@.len();
            let c = r + m.breaks.catches@.len();
            let t = c + (if m.breaks.task_catch is Some {
                1nat
            } else {
                0
            });
            let v = t + m.beam_traps@.len();
            let all = v + m.copper_breaks@.len();
            let text = breaks_text(m, lex);
            &&& all == 0 ==> text == seq!["no breakpoints, watchpoints, traps, or catches"@]
            &&& all > 0 ==> text.len() == all
            &&& 0 <= i < b ==> text[i] == point_text(m.breaks.breakpoints@[i])
            &&& b <= i < w ==> text[i] == watch_text(m.breaks.watches@[i - b], &m.memory, lex)
            &&& w <= i < r ==> text[i] == reg_watch_text(m.breaks.reg_watches@[i - w], lex)
            &&& r <= i < c ==> text[i] == catch_text(m.breaks.catches@[i - r], lex)
            &&& t <= i < v ==> text[i] == trap_text(m.beam_traps@[i - t])
            &&& v <= i < all ==> text[i] == copper_break_text(m.copper_breaks@[i - v])
        }),
{
}

/// A breakpoint's line shows its address, its condition where it has one, and how many of
/// the hits to ignore it has had, where it ignores any.
pub proof fn lemma_breakpoint_line(p: Breakpoint)
    ensures
        p.cond is None && p.ignore == 0 ==> point_text(p) == "break  $"@ + hex(p.addr as int, 6),
        p.cond is None && p.ignore > 0 ==> point_text(p) == "break  $"@ + hex(p.addr as int, 6)
            + "  ign "@ + digits_of(p.hits as nat, 10) + "/"@ + digits_of(p.ignore as nat, 10),
        p.cond matches Some(c) ==> (p.ignore == 0 ==> point_text(p) == "break  $"@ + hex(
            p.addr as int,
            6,
        ) + "  "@ + c@),
{
    let none = Seq::<char>::empty();
    assert(forall|s: Seq<char>| #[trigger] (s + none) =~= s);
    let a = "break  $"@ + hex(p.addr as int, 6);
    if p.ignore > 0 {
        assert(a + ("  ign "@ + digits_of(p.hits as nat, 10) + "/"@ + digits_of(
            p.ignore as nat,
            10,
        )) =~= a + "  ign "@ + digits_of(p.hits as nat, 10) + "/"@ + digits_of(
            p.ignore as nat,
            10,
        ));
    }
    if let Some(c) = p.cond {
        assert(a + ("  "@ + c@) =~= a + "  "@ + c@);
    }
}

/// A watch's line shows its word and what the word holds now.
pub proof fn lemma_watch_line(w: Watch, m: &Memory, lex: &Lexicon)
    ensures
        w.saved.filter is None ==> watch_text(w, m, lex) == "watch  $"@ + hex(w.addr as int, 6)
            + "  now "@ + hex(m.word(w.addr) as int, 4),
        w.saved.filter matches Some(f) ==> (f < lex.classes@.len() ==> watch_text(w, m, lex)
            == "watch  $"@ + hex(w.addr as int, 6) + "  now "@ + hex(m.word(w.addr) as int, 4)
            + ("  ["@ + lex.classes@[f as int].label@ + " only]"@)),
{
    let none = Seq::<char>::empty();
    assert(forall|s: Seq<char>| #[trigger] (s + none) =~= s);
}

/// A hunk is shown from its start to its end, its size after it; the hint for a debugger
/// names where the first one starts.
pub proof fn lemma_segments_are_listed(segs: Seq<Segment>, i: int)
    requires
        0 <= i < segs.len(),
    ensures
        segments_text(Ok::<Seq<Segment>, Seq<char>>(segs)).len() == segs.len() + 1,
        segments_text(Ok::<Seq<Segment>, Seq<char>>(segs))[i] == "hunk "@ + digits_of(i as nat, 10)
            + ": $"@ + hex(segs[i].start as int, 6) + "..$"@ + hex(
            segs[i].start + segs[i].size,
            6,
        ) + "  ("@ + digits_of(segs[i].size as nat, 10) + " bytes)"@,
        segments_text(Ok::<Seq<Segment>, Seq<char>>(segs)).last()
            == "gdb: add-symbol-file prog.elf 0x"@ + hex(segs[0].start as int, 0),
{
    assert(segments_text(Ok::<Seq<Segment>, Seq<char>>(segs))[i] == segment_text(i, segs[i]));
}

/// The operating system's lists show every node in order: libraries by version, the rest
/// by priority, which may be below zero.
pub proof fn lemma_nodes_are_listed(nodes: Seq<OsNode>, library: bool, i: int)
    requires
        0 <= i < nodes.len(),
    ensures
        nodes_text(nodes, library).len() == nodes.len(),
        nodes_text(nodes, library)[i] == node_text(nodes[i], library),
        library ==> node_text(nodes[i], library) == "$"@ + hex(nodes[i].addr as int, 6) + "  v"@
            + digits_of(nodes[i].version as nat, 10) + "."@ + padded(
            digits_of(nodes[i].revision as nat, 10),
            4,
        ) + " "@ + nodes[i].name@,
        !library && nodes[i].pri < 0 ==> node_text(nodes[i], library) == "$"@ + hex(
            nodes[i].addr as int,
            6,
        ) + "  pri "@ + crate::number::right_aligned(
            "-"@ + digits_of((-nodes[i].pri) as nat, 10),
            4,
        ) + "  "@ + nodes[i].name@,
        !library && nodes[i].pri >= 0 ==> node_text(nodes[i], library) == "$"@ + hex(
            nodes[i].addr as int,
            6,
        ) + "  pri "@ + crate::number::right_aligned(digits_of(nodes[i].pri as nat, 10), 4)
            + "  "@ + nodes[i].name@,
{
}

/// The custom registers that are shown are nine of the ones that can be read, in the
/// order of their offsets.
pub proof fn lemma_custom_registers(off: u16, v: u16, lex: &Lexicon, i: int, j: int)
    ensures
        shown_registers().len() == 9,
        0 <= i < j < 9 ==> shown_registers()[i] < shown_registers()[j],
        0 <= i < 9 ==> shown_registers()[i] % 2 == 0,
        shown_registers()[0] == 0x002 && shown_registers()[1] == 0x010 && shown_registers()[2]
            == 0x01C && shown_registers()[3] == 0x01E && shown_registers()[4] == 0x096
            && shown_registers()[5] == 0x100 && shown_registers()[6] == 0x102
            && shown_registers()[7] == 0x104 && shown_registers()[8] == 0x108,
        register_cell(off, None, lex).len() == 0,
        register_cell(off, Some(v), lex) == padded(lex.register_name(off), 8) + " $"@ + hex(
            v as int,
            4,
        ) + "   "@,
{
}

/// A stack listing starts with where the machine stands, then numbers the return
/// addresses from one, each with where it lies.
pub proof fn lemma_stack_listing(
    m: &Machine,
    frames: Seq<(u32, u32)>,
    code: Seq<Seq<char>>,
    i: int,
)
    ensures
        stack_text(m, frames, code)[0] == "#0 pc $"@ + hex(
            (m.regs@[17] & m.memory.mask) as int,
            6,
        ) + "  sp $"@ + hex((m.regs@[15] & m.memory.mask) as int, 6),
        frames.len() == 0 ==> stack_text(m, frames, code).len() == 2,
        frames.len() > 0 ==> stack_text(m, frames, code).len() == frames.len() + 1,
        0 <= i < frames.len() ==> stack_text(m, frames, code)[i + 1] == "#"@ + digits_of(
            (i + 1) as nat,
            10,
        ) + " ret $"@ + hex(frames[i].1 as int, 6) + "  (at sp+"@ + hex(frames[i].0 as int, 3)
            + ")  "@ + code[i],
{
}

} // verus!
