//! What the debugger's pages show and what their buttons ask for.

use vstd::prelude::*;

use crate::actions::Action;
use crate::app::ConsolePanel;
use crate::app::DebugTab;
use crate::app::DebuggerPanel;
use crate::command::hex32_of;
use crate::console_page::ConsoleInput;
use crate::console_page::console_pieces;
use crate::console_page::keys_of;
use crate::console_page::typed_into;
use crate::console_page::under_each_other;
use crate::controls::UiControl;
use crate::inspector_keys::console_calls;
use crate::machine::Machine;
use crate::memedit::MemColumn;
use crate::memedit::MemEdit;
use crate::memedit::MemPage;
use crate::memedit::staged_value;
use crate::number::digits_of;
use crate::number::hex;
use crate::pages::GridCell;
use crate::pages::RegisterRow;
use crate::pages::cpu_note_pieces;
use crate::pages::disassembly_pieces;
use crate::pages::dot;
use crate::pages::dump_note_pieces;
use crate::pages::is_cell;
use crate::pages::is_row;
use crate::pages::mute_pieces;
use crate::pages::page_scroll;
use crate::pages::plane_pieces;
use crate::pages::sprite_pieces;
use crate::pages::weakened;
use crate::preferences::named;
use crate::sheets::Body;
use crate::sheets::EntryFacts;
use crate::sheets::Piece;
use crate::sheets::ViewFacts;
use crate::sheets::body_of;
use crate::sheets::break_pieces;
use crate::sheets::can_poke;
use crate::sheets::commanded;
use crate::sheets::copper_pieces;
use crate::sheets::entry_pieces;
use crate::sheets::iomap_pieces;
use crate::sheets::look_of;
use crate::sheets::memory_pieces;
use crate::sheets::pressed;
use crate::sheets::row_start;
use crate::sheets::tab_pieces;
use crate::sheets::transport_pieces;
use crate::text::texts;
use crate::text::trimmed;
use crate::tools::ToolTabState;

verus! {

/// A button of the debugger asks the debugger, one of the analyzer the analyzer.
pub proof fn lemma_buttons(label: Seq<char>, c: UiControl, enabled: bool)
    ensures
        pressed(label, c, enabled) == (Piece::<Seq<char>>::Button {
            label,
            action: Action::Control(c),
            enabled,
        }),
        commanded(label, c, enabled) == (Piece::<Seq<char>>::Button {
            label,
            action: Action::Analyzer(c),
            enabled,
        }),
{
}

/// Which control stands at each place of the transport; the ones that go back are live only
/// where the machine can.
pub proof fn lemma_transport(running: bool, reverse: bool)
    ensures
        ({
            let t = transport_pieces(running, reverse);
            &&& t.len() == 9
            &&& t[0] == pressed(
                if running {
                    "Pause (R)"@
                } else {
                    "Run (R)"@
                },
                UiControl::DebugRun,
                true,
            )
            &&& t[1] == pressed("Step (S)"@, UiControl::DebugStep, true)
            &&& t[2] == pressed("Over (O)"@, UiControl::DebugStepOver, true)
            &&& t[3] == pressed("Out (U)"@, UiControl::DebugStepOut, true)
            &&& t[4] == pressed("Frame (F)"@, UiControl::DebugStepFrame, true)
            &&& t[5] == pressed("Line (L)"@, UiControl::DebugRunLine, true)
            &&& t[6] == pressed("< Frame"@, UiControl::DebugReverseFrame, reverse)
            &&& t[7] == pressed("< Step"@, UiControl::DebugReverseStep, reverse)
            &&& t[8] == pressed("< Run"@, UiControl::DebugReverseRun, reverse)
        }),
{
}

/// The entry's buttons: running to it needs an address; setting a register needs one and a
/// value on the processor's page, poking what can be poked on the memory's, and on no other
/// page is either live.
pub proof fn lemma_entry_row(p: DebuggerPanel, f: EntryFacts)
    ensures
        entry_pieces(&p, f)[1] == pressed(
            "Run to"@,
            UiControl::DebugRunTo,
            hex32_of(trimmed(p.entry@)) is Some,
        ),
        p.tab is Cpu ==> entry_pieces(&p, f)[2] == pressed(
            "Set Reg"@,
            UiControl::DebugPoke,
            crate::controls::register_edit(p.entry@) is Some,
        ),
        p.tab is Memory ==> entry_pieces(&p, f)[2] == pressed(
            "Poke"@,
            UiControl::DebugPoke,
            f.poke,
        ),
        !(p.tab is Cpu) && !(p.tab is Memory) ==> !can_poke(&p, f),
{
}

/// What a page shows: its own view where there is one; a page without one shows lines, and
/// the picture's and the sound's nothing.
pub proof fn lemma_bodies(v: ViewFacts)
    ensures
        body_of(DebugTab::Cpu, v) == (if v.cpu {
            Body::Cpu
        } else {
            Body::Lines
        }),
        body_of(DebugTab::Video, v) == (if v.video {
            Body::Video
        } else {
            Body::Nothing
        }),
        body_of(DebugTab::Audio, v) == (if v.audio {
            Body::Audio
        } else {
            Body::Nothing
        }),
        body_of(DebugTab::Memory, v) == (if v.page {
            Body::Dump
        } else {
            Body::Lines
        }),
        body_of(DebugTab::Copper, v) is Lines && body_of(DebugTab::Break, v) is Lines && body_of(
            DebugTab::IoMap,
            v,
        ) is Lines,
{
}

/// The buttons of the page of stops, each with its own control; an address turns on the ones
/// that need it, and clearing is always on.
pub proof fn lemma_stop_buttons(p: DebuggerPanel, f: EntryFacts)
    ensures
        ({
            let a = hex32_of(trimmed(p.entry@)) is Some;
            let t = break_pieces(&p, f);
            &&& t.len() == 6
            &&& t[0] == pressed("Break +/-"@, UiControl::DebugBreakToggle, a)
            &&& t[1] == pressed("Watch +/-"@, UiControl::DebugWatchToggle, a)
            &&& t[2] == pressed("Reg +/-"@, UiControl::DebugRegToggle, a)
            &&& t[3] == pressed("Beam +/-"@, UiControl::DebugBeamToggle, f.beam)
            &&& t[4] == pressed("Catch +/-"@, UiControl::DebugCatchToggle, f.catch)
            &&& t[5] == pressed("Clear all"@, UiControl::DebugBreaksClear, true)
        }),
{
}

/// The copper's page offers to follow the copper only where it does not.
pub proof fn lemma_copper_buttons(p: DebuggerPanel)
    ensures
        copper_pieces(&p)[0] == pressed(
            "CBreak +/-"@,
            UiControl::DebugCopperBreakToggle,
            hex32_of(trimmed(p.entry@)) is Some,
        ),
        copper_pieces(&p)[1] == pressed("CStep (C)"@, UiControl::DebugCopperStep, true),
        p.copper_addr is None ==> copper_pieces(&p).len() == 2,
        p.copper_addr is Some ==> copper_pieces(&p).len() == 3 && (copper_pieces(&p)[2]
            matches Piece::Button { action, enabled, .. } && action == Action::FollowCopper
            && enabled),
        disassembly_pieces(false).len() == 1,
        disassembly_pieces(true).len() == 2 && (disassembly_pieces(true)[1] matches Piece::Button {
            action,
            enabled,
            ..
        } && action == Action::FollowPc && enabled),
{
}

/// The buttons of the memory's page, and its last word where it has one.
pub proof fn lemma_memory_buttons(p: DebuggerPanel, f: EntryFacts)
    ensures
        ({
            let t = memory_pieces(&p, f);
            &&& t[1] is Address
            &&& t[2] == pressed("Find"@, UiControl::DebugMemFind, f.find)
            &&& t[3] == pressed("Save..."@, UiControl::DebugMemSave, f.region)
            &&& t[4] == pressed(
                "Writer?"@,
                UiControl::DebugMemWriter,
                hex32_of(trimmed(p.entry@)) is Some,
            )
            &&& t[5] == pressed(
                if p.mem_view_bits {
                    "Hex"@
                } else {
                    "Bits"@
                },
                UiControl::DebugMemBits,
                true,
            )
            &&& t[6] == pressed("Previous page"@, UiControl::DebugMemPrev, true)
            &&& t[7] == pressed("Next page"@, UiControl::DebugMemNext, true)
            &&& p.mem_status is None ==> t.len() == 8
            &&& p.mem_status matches Some(s) ==> t.len() == 9 && t[8] == Piece::<Seq<char>>::Note(s@)
        }),
{
}

/// Each page has its own controls, and a page without any shows the status.
pub proof fn lemma_page_controls(p: DebuggerPanel, f: EntryFacts, status: Seq<char>)
    ensures
        p.tab is Break ==> tab_pieces(&p, f, status) == break_pieces(&p, f),
        p.tab is Copper ==> tab_pieces(&p, f, status) == copper_pieces(&p),
        p.tab is Memory ==> tab_pieces(&p, f, status) == memory_pieces(&p, f),
        p.tab is IoMap ==> tab_pieces(&p, f, status) == iomap_pieces(),
        p.tab is Waveform ==> tab_pieces(&p, f, status).len() == 2 && tab_pieces(&p, f, status)[0]
            == pressed("Arm"@, UiControl::DebugWaveArm, f.wave) && tab_pieces(&p, f, status)[1]
            == pressed("Stop"@, UiControl::DebugWaveStop, true),
        p.tab is Cpu ==> tab_pieces(&p, f, status) == seq![Piece::<Seq<char>>::Text(status)],
        iomap_pieces()[0] matches Piece::Button { action, .. } && action == Action::IoMapScroll(
            (-1) as i32,
        ),
        iomap_pieces()[1] matches Piece::Button { action, .. } && action == Action::IoMapScroll(1),
        page_scroll(true) == Action::MemoryScroll(16),
        page_scroll(false) == Action::MemoryScroll((-16) as i32),
{
}

/// An inspector's tab is marked where it is shown, else by whether it is open.
pub proof fn lemma_tab_looks(s: ToolTabState, addr: u32)
    ensures
        look_of(s, true) is Shown,
        s.open ==> look_of(s, false) is Open,
        !s.open ==> look_of(s, false) is Closed,
        row_start(addr) == addr & 0xFFFF_FFF0,
{
}

/// The register page: the program counter, the status register in its low half, then the
/// data and the address registers; each row offers its own value as an edit.
pub proof fn lemma_register_page(m: &Machine, r: RegisterRow, i: int)
    requires
        0 <= i < 18,
        is_row(m, r, i),
    ensures
        i == 0 ==> r.name@ == "PC"@ && r.value@ == hex(m.regs@[17] as int, 8),
        i == 1 ==> r.name@ == "SR"@ && r.value@ == hex(m.regs@[16] as int % 0x1_0000, 8),
        2 <= i < 10 ==> r.name@ == "D"@ + digits_of((i - 2) as nat, 10) && r.value@ == hex(
            m.regs@[i - 2] as int,
            8,
        ),
        10 <= i < 18 ==> r.name@ == "A"@ + digits_of((i - 10) as nat, 10) && r.value@ == hex(
            m.regs@[i - 2] as int,
            8,
        ),
        r.entry@ == r.name@ + " "@ + r.value@,
{
}

/// The processor's notes say that it stopped only where it did, and list where it was, in
/// order.
pub proof fn lemma_cpu_notes(m: &Machine, history: Seq<u32>, i: int)
    ensures
        m.stopped ==> cpu_note_pieces(m, history).len() == 3 + history.len() && cpu_note_pieces(
            m,
            history,
        )[1] == Piece::<Seq<char>>::Note("CPU stopped"@),
        !m.stopped ==> cpu_note_pieces(m, history).len() == 2 + history.len(),
        !m.stopped && 0 <= i < history.len() ==> cpu_note_pieces(m, history)[2 + i] == Piece::<
            Seq<char>,
        >::Text(hex(history[i] as int, 8)),
        dump_note_pieces(None).len() == 1,
        dump_note_pieces(Some(m.sr_text@)).len() == 2 && dump_note_pieces(Some(m.sr_text@))[0]
            == Piece::<Seq<char>>::Text(m.sr_text@),
{
}

/// The layers' ticks: planes count from one and sprites from zero, each ticked by its own
/// bit; a plane that the picture does not have cannot be ticked.
pub proof fn lemma_layer_ticks(mask: u8, planes: u8, i: int)
    requires
        0 <= i < 8,
    ensures
        plane_pieces(mask, planes).len() == 9 && sprite_pieces(mask).len() == 9,
        plane_pieces(mask, planes)[i + 1] matches Piece::Tick { label, on, action, enabled } && {
            &&& label == digits_of((i + 1) as nat, 10)
            &&& on == (mask & (1u8 << (i as u8)) != 0)
            &&& action == Action::Control(UiControl::DebugPlaneToggle(i as u8))
            &&& enabled == (i < planes)
        },
        sprite_pieces(mask)[i + 1] matches Piece::Tick { label, on, action, enabled } && {
            &&& label == digits_of(i as nat, 10)
            &&& on == (mask & (1u8 << (i as u8)) != 0)
            &&& action == Action::Control(UiControl::DebugSpriteToggle(i as u8))
            &&& enabled
        },
{
}

/// A colour is weakened in proportion to how opaque it is: not at all where it is, to
/// nothing where it is not there, and never beyond itself.
pub proof fn lemma_weakened_colours(part: int, alpha: int)
    requires
        0 <= part <= 255,
        0 <= alpha <= 255,
    ensures
        weakened(part, 255) == part,
        weakened(part, 0) == 0,
        weakened(0, alpha) == 0,
        0 <= weakened(part, alpha) <= part,
{
    assert(2 * part * alpha <= 2 * part * 255 && 0 <= 2 * part * alpha) by (nonlinear_arith)
        requires
            0 <= part <= 255,
            0 <= alpha <= 255,
    ;
    assert(2 * part * 0 == 0 && 2 * 0 * alpha == 0) by (nonlinear_arith);
    assert(2 * part * 255 == 510 * part);
}

/// The sound's ticks mute the row that they stand on.
pub proof fn lemma_mute_ticks(muted: Seq<bool>, i: int)
    requires
        0 <= i < muted.len() < 256,
    ensures
        mute_pieces(muted).len() == muted.len(),
        mute_pieces(muted)[i] matches Piece::Tick { on, action, enabled, .. } && on == muted[i]
            && action == Action::Control(UiControl::DebugAudioMute(i as u8)) && enabled,
{
}

/// The dots of a bitmap are its bits, the highest of each byte first.
pub proof fn lemma_bitmap_dots(data: Seq<u8>, i: int)
    requires
        0 <= i < data.len(),
    ensures
        dot(data, 8 * i) == (data[i] & 0x80 != 0),
        dot(data, 8 * i + 1) == (data[i] & 0x40 != 0),
        dot(data, 8 * i + 6) == (data[i] & 0x02 != 0),
        dot(data, 8 * i + 7) == (data[i] & 0x01 != 0),
{
    assert(8 * i / 8 == i && (8 * i) % 8 == 0);
    assert((8 * i + 1) / 8 == i && (8 * i + 1) % 8 == 1);
    assert((8 * i + 6) / 8 == i && (8 * i + 6) % 8 == 6);
    assert((8 * i + 7) / 8 == i && (8 * i + 7) % 8 == 7);
    assert(0x80u8 >> 0u8 == 0x80u8 && 0x80u8 >> 1u8 == 0x40u8 && 0x80u8 >> 6u8 == 0x02u8 && 0x80u8
        >> 7u8 == 0x01u8) by (bit_vector);
}

/// A cell of the dump shows what was typed over its byte where something was, and is marked
/// so; the one with the cursor is marked as that, and one that cannot be written as that.
pub proof fn lemma_dump_cells(
    c: GridCell,
    edit: MemEdit,
    page: MemPage,
    writable: Seq<bool>,
    row: int,
    column: MemColumn,
    i: int,
)
    requires
        is_cell(c, &edit, &page, writable, row, column, i),
        0 <= row < 16,
        0 <= i < 16,
        page.base <= 0xFFFF_0000,
        page.mask == 0xFFFF_FFFF,
    ensures
        c.addr == page.base + row * 16 + i,
        edit.cursor matches Some(k) ==> (k.addr == c.addr && k.column == column ==> c.look
            is Selected),
        edit.cursor is None && staged_value(edit.pending@, c.addr) is Some ==> c.look is Staged,
        edit.cursor is None && staged_value(edit.pending@, c.addr) is None && row * 16 + i
            < writable.len() ==> (if writable[row * 16 + i] {
            c.look is Plain
        } else {
            c.look is ReadOnly
        }),
        staged_value(edit.pending@, c.addr) is None && row * 16 + i < page.bytes@.len() ==> c.text@
            == crate::memedit::cell(page.bytes@[row * 16 + i], column),
        staged_value(edit.pending@, c.addr) matches Some(v) ==> c.text@ == crate::memedit::cell(
            v,
            column,
        ),
{
    let a = (page.base + row * 16) as u32;
    let b = (a + i) as u32;
    assert(a & 0xFFFF_FFFFu32 == a) by (bit_vector);
    assert(b & 0xFFFF_FFFFu32 == b) by (bit_vector);
}

/// The console's keys act on the first pass over a frame and on no other.
pub proof fn lemma_console_passes(i: ConsoleInput)
    ensures
        i.first_pass ==> keys_of(&i) == console_calls(i.events@, i.any_focus, i.entry_focus),
        !i.first_pass ==> keys_of(&i).pages == 0 && !keys_of(&i).surrender && !keys_of(&i).close
            && !keys_of(&i).older && !keys_of(&i).newer && !keys_of(&i).submit,
{
}

/// Typing over a recalled line is typing a new one; leaving it as it is keeps its place.
pub proof fn lemma_typing_over_history(o: ConsolePanel, n: ConsolePanel, text: Seq<char>)
    requires
        typed_into(&o, &n, text),
    ensures
        n.input@ == text,
        text != o.input@ ==> n.history_pos is None,
        text == o.input@ ==> n.history_pos == o.history_pos,
        n.output == o.output && n.history == o.history,
{
}

/// The console's page is its lines under each other.
pub proof fn lemma_console_lines(lines: Seq<Seq<char>>, l: Seq<char>, p: ConsolePanel)
    ensures
        under_each_other(seq![l]) == l,
        lines.len() > 0 ==> under_each_other(lines.push(l)) == under_each_other(lines) + "\n"@ + l,
        under_each_other(Seq::empty()).len() == 0,
        console_pieces(&p)[2] == Piece::<Seq<char>>::Text(under_each_other(texts(p.output@))),
{
    if lines.len() > 0 {
        assert(lines.push(l).drop_last() =~= lines);
    }
}

/// A name is found at its first place.
pub proof fn lemma_named_pages(labels: Seq<Seq<char>>, name: Seq<char>, i: int, j: int)
    requires
        named(labels, name, i),
        named(labels, name, j),
    ensures
        i == j,
        labels[i] == name,
{
}

} // verus!
