//! What the frame analyzer shows: where a point of a picture lies, what is counted, and
//! what each row and link stands for.

use vstd::prelude::*;

use crate::actions::Action;
use crate::analyzer::BusRecord;
use crate::analyzer::cell_address;
use crate::analyzer::heat_cell;
use crate::analyzer::layout_rows;
use crate::analyzer::occurrences;
use crate::analyzer::probed_col;
use crate::analyzer::probed_row;
use crate::analyzer::total;
use crate::analyzer::wait_codes;
use crate::analyzer::waits;
use crate::analyzer_pages::AnalyzerTab;
use crate::analyzer_pages::BlitsView;
use crate::analyzer_pages::CensusRow;
use crate::analyzer_pages::HeatPreset;
use crate::analyzer_pages::HeatView;
use crate::analyzer_pages::ListRow;
use crate::analyzer_pages::ResourcesView;
use crate::analyzer_pages::analyzer_pieces;
use crate::analyzer_pages::beam_place;
use crate::analyzer_pages::beam_ticks;
use crate::analyzer_pages::blit_pieces;
use crate::analyzer_pages::blit_rows;
use crate::analyzer_pages::census_pieces;
use crate::analyzer_pages::destination;
use crate::analyzer_pages::heat_end;
use crate::analyzer_pages::memory_link;
use crate::analyzer_pages::preset_pieces;
use crate::analyzer_pages::resource_pieces;
use crate::analyzer_pages::resource_rows;
use crate::app::DebugTab;
use crate::beam_figures::Counter;
use crate::beam_figures::Marks;
use crate::beam_figures::Overlay;
use crate::beam_figures::StalledPc;
use crate::beam_figures::copper_link;
use crate::beam_figures::marker_lines;
use crate::beam_figures::record_pieces;
use crate::beam_figures::row_codes;
use crate::beam_figures::share_base;
use crate::beam_figures::stalled_pieces;
use crate::beam_figures::starve_pieces;
use crate::controls::UiControl;
use crate::number::dec_wide;
use crate::number::digits_of;
use crate::number::hex;
use crate::sheets::Piece;

verus! {

/// A point of the picture lies at the same part of the frame, in parts of 1024: its top is
/// the first line and its left the first clock; below the frame's last line is its last.
pub proof fn lemma_points_of_the_picture(x: int, y: int, cols: int, nominal: int, rows: int)
    requires
        0 <= x < 1024,
        0 <= y < 1024,
        0 <= cols,
        0 < rows,
    ensures
        probed_row(0, nominal, rows) == 0,
        probed_col(0, cols) == 0,
        nominal <= rows ==> layout_rows(nominal, rows) == rows,
        nominal >= rows ==> layout_rows(nominal, rows) == nominal,
        0 <= probed_row(y, nominal, rows) < rows,
        cols == 1024 ==> probed_col(x, cols) == x,
        nominal == 1024 && rows == 1024 ==> probed_row(y, nominal, rows) == y,
        cols > 0 ==> 0 <= probed_col(x, cols) < cols,
{
    let l = layout_rows(nominal, rows);
    assert(0 <= y * l) by (nonlinear_arith)
        requires
            0 <= y,
            0 < l,
    ;
    assert(0 * l == 0 && 0 * cols == 0);
    if cols > 0 {
        assert(0 <= x * cols && x * cols < 1024 * cols) by (nonlinear_arith)
            requires
                0 <= x < 1024,
                0 < cols,
        ;
    }
}

/// The heat map is 256 cells wide, each four points of the picture square; a cell's address
/// is its part of the memory shown.
pub proof fn lemma_heat_cells(x: int, y: int, base: int, bytes: int, cell: int)
    requires
        0 <= x < 1024,
        0 <= y < 1024,
    ensures
        heat_cell(x, y) == (y / 4) * 256 + x / 4,
        0 <= heat_cell(x, y) < 65536,
        heat_cell(0, 0) == 0,
        0 <= base && 0 <= base + cell * bytes < 0x1_0000_0000 ==> cell_address(base, bytes, cell)
            == base + cell * bytes,
        0 <= base < 0x1_0000_0000 ==> cell_address(base, bytes, 0) == base,
{
    assert(0 * bytes == 0);
}

/// Counting: one more entry adds to the total, one more of a code to its count, and every
/// entry that waited to the waits.
pub proof fn lemma_counting(counts: Seq<u64>, n: u64, row: Seq<u8>, code: u8, other: u8)
    ensures
        total(counts.push(n)) == total(counts) + n,
        total(Seq::empty()) == 0,
        occurrences(row.push(code), code) == occurrences(row, code) + 1,
        other != code ==> occurrences(row.push(other), code) == occurrences(row, code),
        occurrences(Seq::empty(), code) == 0,
        code != 0x2E ==> waits(row.push(code)) == waits(row) + 1,
        waits(row.push(0x2E)) == waits(row),
        waits(Seq::empty()) == 0,
{
    assert(counts.push(n).drop_last() =~= counts);
    assert(row.push(code).drop_last() =~= row);
    assert(row.push(other).drop_last() =~= row);
    assert(row.push(0x2E).drop_last() =~= row);
}

/// The codes of what the processor waited for, and of who had the bus, in the order of the
/// table.
pub proof fn lemma_wait_codes(i: int)
    requires
        0 <= i < 9,
    ensures
        wait_codes().len() == 9,
        row_codes(true).len() == 9 && row_codes(false).len() == 9,
        wait_codes()[i] as char == row_codes(true)[i],
        i < 7 ==> row_codes(false)[i] == row_codes(true)[i],
        row_codes(false)[7] == 'P' && row_codes(false)[8] == '.',
        row_codes(true)[7] == 'N' && row_codes(true)[8] == 'p',
        row_codes(true)[0] == 'R' && row_codes(true)[1] == 'B' && row_codes(true)[2] == 'S'
            && row_codes(true)[3] == 'D' && row_codes(true)[4] == 'A' && row_codes(true)[5] == 'C'
            && row_codes(true)[6] == 'L',
{
}

/// A copper record stands one word behind its instruction where the instruction's second
/// word was fetched.
pub proof fn lemma_copper_instructions(b: BusRecord)
    ensures
        b.flags & 1 == 0 && b.subtype == 0 ==> b.instruction() == b.addr,
        b.subtype != 0 && b.addr >= 2 ==> b.instruction() == b.addr - 2,
        b.flags & 1 != 0 && b.addr >= 2 ==> b.instruction() == b.addr - 2,
{
}

/// Shares are of all the clocks, of waiting or of the bus, and never of none.
pub proof fn lemma_shares(wait_cck: int, owners: Seq<u64>)
    requires
        wait_cck >= 0,
    ensures
        wait_cck > 0 ==> share_base(true, wait_cck, owners) == wait_cck,
        total(owners) > 0 ==> share_base(false, wait_cck, owners) == total(owners),
        share_base(true, 0, owners) == 1,
        total(owners) == 0 ==> share_base(false, wait_cck, owners) == 1,
{
}

/// Each stalled instruction is a link to its place, with its symbol where it has one, in
/// order; the blitter's waits list only what waited.
pub proof fn lemma_stalls_are_listed(
    stalled: Seq<StalledPc>,
    p: StalledPc,
    waits: Seq<Counter>,
    w: Counter,
)
    ensures
        p.symbol is None ==> stalled_pieces(stalled.push(p)) == stalled_pieces(stalled).push(
            Piece::Link {
                label: "$"@ + hex(p.pc as int, 8) + "  "@ + digits_of(p.count as nat, 10)
                    + " cck"@,
                action: Action::Navigate(DebugTab::Cpu, p.pc),
            },
        ),
        p.symbol matches Some(s) ==> stalled_pieces(stalled.push(p)) == stalled_pieces(
            stalled,
        ).push(
            Piece::Link {
                label: "$"@ + hex(p.pc as int, 8) + "  "@ + digits_of(p.count as nat, 10)
                    + " cck"@,
                action: Action::Navigate(DebugTab::Cpu, p.pc),
            },
        ).push(Piece::Text(s@)),
        w.count == 0 ==> starve_pieces(waits.push(w)) == starve_pieces(waits),
        w.count > 0 ==> starve_pieces(waits.push(w)) == starve_pieces(waits).push(
            Piece::Text(w.name@ + ": "@ + digits_of(w.count as nat, 10) + " cck"@),
        ),
{
    assert(stalled.push(p).drop_last() =~= stalled);
    assert(waits.push(w).drop_last() =~= waits);
    let link: Piece<Seq<char>> = Piece::Link {
        label: "$"@ + hex(p.pc as int, 8) + "  "@ + digits_of(p.count as nat, 10) + " cck"@,
        action: Action::Navigate(DebugTab::Cpu, p.pc),
    };
    match p.symbol {
        Some(s) => {
            assert(stalled_pieces(stalled.push(p)) =~= stalled_pieces(stalled).push(link).push(
                Piece::Text(s@),
            ));
        },
        None => {
            assert(stalled_pieces(stalled.push(p)) =~= stalled_pieces(stalled).push(link));
        },
    }
    if w.count > 0 {
        assert(starve_pieces(waits.push(w)) =~= starve_pieces(waits).push(
            Piece::Text(w.name@ + ": "@ + digits_of(w.count as nat, 10) + " cck"@),
        ));
    } else {
        assert(starve_pieces(waits.push(w)) =~= starve_pieces(waits));
    }
}

/// Marks stay on the picture: a clock or line past its end is drawn at the end.
pub proof fn lemma_marks_stay_on(m: Marks, h: int, v: int)
    requires
        0 <= h <= 0xFFFF_FFFF,
        0 <= v <= 0xFFFF_FFFF,
    ensures
        h <= m.cols ==> m.clock(h) == h,
        h > m.cols ==> m.clock(h) == m.cols,
        v <= m.nominal_rows || v <= m.rows ==> m.line(v) == v,
        v > m.nominal_rows && v > m.rows ==> m.line(v) == (if m.nominal_rows >= m.rows {
            m.nominal_rows
        } else {
            m.rows
        }),
{
}

/// The display's frame is drawn first and the selected slot last; between them the display
/// window, from its start to its end, the two lines where fetching starts and stops, and the
/// markers in order.
pub proof fn lemma_overlays(m: Marks, i: int)
    ensures
        m.overlays().len() >= 2,
        m.overlays()[0] == (Overlay::Display {
            left: m.clock(m.display_hpos.0 as int),
            top: m.line(m.visible_start as int),
            right: m.clock(m.display_hpos.1 as int),
            bottom: m.line(m.visible_start + m.visible_lines),
        }),
        m.overlays().last() == (Overlay::Selected {
            at: m.clock(m.selected.0 as int),
            line: m.line(m.selected.1 as int),
        }),
        m.diw_v is None ==> m.overlays().len() == 2 + m.markers@.len(),
        m.diw_v is Some && m.diw_h is Some && m.ddf is Some ==> m.overlays().len() == 5
            + m.markers@.len(),
        m.diw_v is Some && m.diw_h is Some ==> m.overlays()[1] == (Overlay::Window {
            left: m.clock(m.diw_h.unwrap().0 as int),
            top: m.line(m.diw_v.unwrap().0 as int),
            right: m.clock(m.diw_h.unwrap().1 as int),
            bottom: m.line(m.diw_v.unwrap().1 as int),
        }),
        m.diw_v is None && 0 <= i < m.markers@.len() ==> m.overlays()[1 + i] == (Overlay::Marker {
            at: m.clock(m.markers@[i].0 as int),
            line: m.line(m.markers@[i].1 as int),
        }),
{
}

/// A record that moved data links to its memory, one of the copper to its instruction.
pub proof fn lemma_record_links(b: BusRecord, events: Seq<char>)
    ensures
        record_pieces(None, events).len() == 0,
        record_pieces(Some(b), events).len() == 1 + (if b.size > 0 {
            1int
        } else {
            0
        }) + (if b.copper {
            1int
        } else {
            0
        }),
        b.size > 0 ==> record_pieces(Some(b), events)[0] == memory_link(b.addr),
        b.copper ==> record_pieces(Some(b), events).last() == copper_link(b.instruction()),
        memory_link(b.addr) == (Piece::<Seq<char>>::Link {
            label: "Inspect memory at $"@ + hex(b.addr as int, 8),
            action: Action::Navigate(DebugTab::Memory, b.addr),
        }),
        copper_link(b.addr) == (Piece::<Seq<char>>::Link {
            label: "Copper instruction @$"@ + hex(b.addr as int, 6),
            action: Action::Navigate(DebugTab::Copper, b.addr),
        }),
{
}

/// At most eight of a slot's markers are listed, the first ones.
pub proof fn lemma_marker_lines(markers: Seq<String>, i: int)
    ensures
        marker_lines(markers).len() <= 8,
        markers.len() <= 8 ==> marker_lines(markers).len() == markers.len(),
        markers.len() > 8 ==> marker_lines(markers).len() == 8,
        0 <= i < marker_lines(markers).len() ==> marker_lines(markers)[i] == Piece::<
            Seq<char>,
        >::Text(markers[i]@),
{
}

/// The analyzer's bar: running shows how to pause and pausing how to run; on the beam's page
/// it can run to the beam once a frame is captured, on the resources' save what can be.
pub proof fn lemma_analyzer_bar(running: bool, captured: bool, exportable: bool, tab: AnalyzerTab)
    ensures
        analyzer_pieces(tab, true, captured, exportable)[0] == crate::sheets::commanded(
            "Pause (R)"@,
            UiControl::AnalyzerRun,
            true,
        ),
        analyzer_pieces(tab, false, captured, exportable)[0] == crate::sheets::commanded(
            "Run (R)"@,
            UiControl::AnalyzerRun,
            true,
        ),
        analyzer_pieces(tab, running, captured, exportable)[1] == crate::sheets::commanded(
            "Capture frame (F)"@,
            UiControl::AnalyzerFrame,
            true,
        ),
        tab is Beam ==> analyzer_pieces(tab, running, captured, exportable).len() == 3
            && analyzer_pieces(tab, running, captured, exportable)[2] == crate::sheets::commanded(
            "Run to beam (T)"@,
            UiControl::AnalyzerRunTo,
            captured,
        ),
        tab is Resources ==> analyzer_pieces(tab, running, captured, exportable).len() == 3,
        !(tab is Beam) && !(tab is Resources) ==> analyzer_pieces(
            tab,
            running,
            captured,
            exportable,
        ).len() == 2,
        beam_ticks(true, false, captured)[0] matches Piece::Tick { on, action, .. } && on && action
            == Action::Analyzer(UiControl::AnalyzerUnderlay),
        beam_ticks(running, captured, exportable)[1] matches Piece::Tick { on, action, .. } && on
            == captured && action == Action::Analyzer(UiControl::AnalyzerScrub),
        beam_ticks(running, captured, exportable)[2] matches Piece::Tick { on, action, .. } && on
            == exportable && action == Action::Analyzer(UiControl::AnalyzerCpuWait),
        beam_place(0, 0) == "v="@ + dec_wide(0, 3) + " h="@ + dec_wide(0, 3),
{
}

/// A row of presets is picked by its place, and marked where the map shows just that; the
/// map ends at its last byte and not past the address space.
pub proof fn lemma_heat_presets(presets: Seq<HeatPreset>, h: HeatView, i: int)
    requires
        0 <= i < presets.len() < 256,
    ensures
        preset_pieces(presets, Some(h)).len() == presets.len(),
        preset_pieces(presets, Some(h))[i] == (Piece::<Seq<char>>::Row {
            label: presets[i].label@,
            selected: h.base == presets[i].base && h.span == presets[i].span,
            action: Action::Analyzer(UiControl::AnalyzerHeatPreset(i as u8)),
        }),
        preset_pieces(presets, None)[i] matches Piece::Row { selected, .. } && !selected,
        h.span > 0 && h.base + h.span <= 0x1_0000_0000 ==> heat_end(h) == h.base + h.span - 1,
        h.span == 0 ==> heat_end(h) == h.base,
        h.base + h.span > 0x1_0000_0000 ==> heat_end(h) == 0xFFFF_FFFF,
{
}

/// Rows of blits and of resources are picked by their place on the page.
pub proof fn lemma_list_rows(rows: Seq<ListRow>, i: int)
    requires
        0 <= i < rows.len() < 256,
    ensures
        blit_rows(rows)[i] == (Piece::<Seq<char>>::Row {
            label: rows[i].text@,
            selected: rows[i].selected,
            action: Action::Analyzer(UiControl::AnalyzerBlitRow(i as u8)),
        }),
        resource_rows(rows)[i] == (Piece::<Seq<char>>::Row {
            label: rows[i].text@,
            selected: rows[i].selected,
            action: Action::Analyzer(UiControl::AnalyzerResourceRow(i as u8)),
        }),
        destination(DebugTab::Cpu) == "CPU disassembly"@,
        destination(DebugTab::Copper) == "Copper list"@,
        destination(DebugTab::Memory) == "memory"@,
{
}

/// The blits' page steps back and forth by one; the resources' by a page, where there is
/// more that way.
pub proof fn lemma_list_buttons(b: BlitsView, v: ResourcesView, page: i64)
    requires
        page > 0,
    ensures
        blit_pieces(Some(b))[0] matches Piece::Button { action, enabled, .. } && action
            == Action::BlitScroll((-1) as i64) && enabled,
        blit_pieces(Some(b))[1] matches Piece::Button { action, enabled, .. } && action
            == Action::BlitScroll(1) && enabled,
        blit_pieces(Some(b)).len() == 6 + b.rows@.len(),
        blit_pieces(None).len() == 1,
        resource_pieces(Some(v), page)[0] matches Piece::Button { action, enabled, .. } && action
            == Action::ResourceScroll((-page) as i64) && enabled == (v.hidden_above > 0),
        resource_pieces(Some(v), page)[1] matches Piece::Button { action, enabled, .. } && action
            == Action::ResourceScroll(page) && enabled == (v.hidden_below > 0),
        v.rows@.len() == 0 ==> resource_pieces(Some(v), page).len() == 4,
        v.rows@.len() > 0 && v.detail ==> resource_pieces(Some(v), page).len() == 3 + v.rows@.len(),
        v.rows@.len() > 0 && !v.detail ==> resource_pieces(Some(v), page).len() == 4
            + v.rows@.len(),
{
}

/// The census lists each kind of access with its cells and its bytes.
pub proof fn lemma_census(rows: Seq<CensusRow>, r: CensusRow)
    ensures
        census_pieces(Seq::empty()) == seq![Piece::<Seq<char>>::Text("Last access"@)],
        census_pieces(rows.push(r)) == census_pieces(rows).push(Piece::Text(r.name@)).push(
            Piece::Text(digits_of(r.cells as nat, 10) + " cells"@),
        ).push(Piece::Text(digits_of(r.bytes as nat, 10) + " B"@)),
{
    assert(rows.push(r).drop_last() =~= rows);
    assert(census_pieces(rows.push(r)) =~= census_pieces(rows).push(Piece::Text(r.name@)).push(
        Piece::Text(digits_of(r.cells as nat, 10) + " cells"@),
    ).push(Piece::Text(digits_of(r.bytes as nat, 10) + " B"@)));
}

} // verus!
