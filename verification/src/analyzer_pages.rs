//! What the frame analyzer's pages show: the captured frame's figures, the
//! heat map's, the blits, the registered resources, and where their addresses
//! lead.

use vstd::prelude::*;

use crate::actions::Action;
use crate::analyzer::cell_address;
use crate::analyzer::heat_cell_address;
use crate::app::DebugTab;
use crate::controls::UiControl;
use crate::number::dec;
use crate::number::dec_wide;
use crate::number::hex;
use crate::number::put_dec;
use crate::number::put_dec_wide;
use crate::number::put_hex;
use crate::sheets::Piece;
use crate::sheets::Sheet;
use crate::sheets::commanded;
use crate::text::put;

verus! {

#[derive(Clone, Copy, PartialEq, Eq, Structural, Debug)]
pub enum AnalyzerTab {
    Beam,
    Memory,
    Blits,
    Resources,
}

/// The buttons under every page, and those of the page.
pub open spec fn analyzer_pieces(
    tab: AnalyzerTab,
    running: bool,
    captured: bool,
    exportable: bool,
) -> Seq<Piece<Seq<char>>> {
    seq![
        commanded(
            if running {
                "Pause (R)"@
            } else {
                "Run (R)"@
            },
            UiControl::AnalyzerRun,
            true,
        ),
        commanded("Capture frame (F)"@, UiControl::AnalyzerFrame, true),
    ] + (match tab {
        AnalyzerTab::Beam => seq![
            commanded("Run to beam (T)"@, UiControl::AnalyzerRunTo, captured),
        ],
        AnalyzerTab::Resources => seq![
            commanded("Save resource\u{2026}"@, UiControl::AnalyzerResourceSave, exportable),
        ],
        _ => Seq::empty(),
    })
}

pub fn analyzer(tab: AnalyzerTab, running: bool, captured: bool, exportable: bool) -> (s: Sheet)
    ensures
        s@ == analyzer_pieces(tab, running, captured, exportable),
{
    let mut s = Sheet::new();
    s.command(
        if running {
            "Pause (R)"
        } else {
            "Run (R)"
        },
        UiControl::AnalyzerRun,
        true,
    );
    s.command("Capture frame (F)", UiControl::AnalyzerFrame, true);
    match tab {
        AnalyzerTab::Beam => {
            s.command("Run to beam (T)", UiControl::AnalyzerRunTo, captured);
        },
        AnalyzerTab::Resources => {
            s.command("Save resource\u{2026}", UiControl::AnalyzerResourceSave, exportable);
        },
        _ => {},
    }
    assert(s@ =~= analyzer_pieces(tab, running, captured, exportable));
    s
}

/// What the beam page says of a captured frame.
#[derive(PartialEq, Eq, Debug)]
pub struct BeamView {
    pub frame: u64,
    /// The frame's time in seconds, as it is shown.
    pub seconds: String,
    pub rows: u32,
    pub cols: u32,
    pub line_cck: u32,
    pub partial: bool,
    pub selected_vpos: u32,
    pub selected_hpos: u32,
    pub owner: String,
    pub wait: String,
    pub blit: Option<String>,
}

/// The place of the beam, line first.
pub open spec fn beam_place(v: int, h: int) -> Seq<char> {
    "v="@ + dec_wide(v, 3) + " h="@ + dec_wide(h, 3)
}

pub(crate) fn put_place(out: &mut String, v: u32, h: u32)
    ensures
        final(out)@ == old(out)@ + beam_place(v as int, h as int),
{
    put(out, "v=");
    put_dec_wide(out, v as u64, 3);
    put(out, " h=");
    put_dec_wide(out, h as u64, 3);
    assert(out@ =~= old(out)@ + beam_place(v as int, h as int));
}

pub open spec fn beam_heading(t: &BeamView) -> Seq<char> {
    "Frame "@ + dec(t.frame as int) + " \u{b7} "@ + t.seconds@ + "s \u{b7} "@ + dec(t.rows as int)
        + " lines \u{d7} "@ + dec(t.line_cck as int) + " colour clocks"@ + (if t.partial {
        " \u{b7} partial"@
    } else {
        Seq::empty()
    })
}

fn heading_of(t: &BeamView) -> (r: String)
    ensures
        r@ == beam_heading(t),
{
    let mut r = "Frame ".to_owned();
    put_dec(&mut r, t.frame);
    put(&mut r, " \u{b7} ");
    put(&mut r, t.seconds.as_str());
    put(&mut r, "s \u{b7} ");
    put_dec(&mut r, t.rows as u64);
    put(&mut r, " lines \u{d7} ");
    put_dec(&mut r, t.line_cck as u64);
    put(&mut r, " colour clocks");
    if t.partial {
        put(&mut r, " \u{b7} partial");
    }
    assert(r@ =~= beam_heading(t));
    r
}

pub open spec fn selected_text(t: &BeamView) -> Seq<char> {
    "Selected "@ + beam_place(t.selected_vpos as int, t.selected_hpos as int) + " \u{b7} "@
        + t.owner@ + " \u{b7} CPU wait: "@ + t.wait@ + (match t.blit {
        Some(b) => " \u{b7} "@ + b@,
        None => Seq::empty(),
    })
}

fn selected_of(t: &BeamView) -> (r: String)
    ensures
        r@ == selected_text(t),
{
    let mut r = "Selected ".to_owned();
    put_place(&mut r, t.selected_vpos, t.selected_hpos);
    put(&mut r, " \u{b7} ");
    put(&mut r, t.owner.as_str());
    put(&mut r, " \u{b7} CPU wait: ");
    put(&mut r, t.wait.as_str());
    match &t.blit {
        Some(b) => {
            put(&mut r, " \u{b7} ");
            put(&mut r, b.as_str());
        },
        None => {},
    }
    assert(r@ =~= selected_text(t));
    r
}

pub open spec fn scanline_text(v: int) -> Seq<char> {
    "Scanline "@ + dec(v) + " \u{b7} click or drag to select a colour clock"@
}

pub open spec fn pointer_text(v: int, h: int) -> Seq<char> {
    "Pointer "@ + beam_place(v, h)
}

pub open spec fn beam_ticks(underlay: bool, scrub: bool, waits: bool) -> Seq<Piece<Seq<char>>> {
    seq![
        Piece::Tick {
            label: "Picture (U)"@,
            on: underlay,
            action: Action::Analyzer(UiControl::AnalyzerUnderlay),
            enabled: true,
        },
        Piece::Tick {
            label: "Beam scrub (B)"@,
            on: scrub,
            action: Action::Analyzer(UiControl::AnalyzerScrub),
            enabled: true,
        },
        Piece::Tick {
            label: "CPU waits (W)"@,
            on: waits,
            action: Action::Analyzer(UiControl::AnalyzerCpuWait),
            enabled: true,
        },
    ]
}

/// What the beam page says under its ticks: without a capture how to get one,
/// of an empty one nothing, and else the frame, the legend, the selected slot
/// and the slot under the pointer.
pub open spec fn beam_texts(trace: Option<BeamView>, probe: Option<(u32, u32)>) -> Seq<
    Piece<Seq<char>>,
> {
    match trace {
        None => seq![
            Piece::Text(
                "Capture a frame to inspect chip-bus ownership, register writes and CPU waits."@,
            ),
        ],
        Some(t) => if t.rows == 0 || t.cols == 0 {
            Seq::empty()
        } else {
            let at = match probe {
                Some(p) => p,
                None => (t.selected_vpos, t.selected_hpos),
            };
            seq![
                Piece::Text(beam_heading(&t)),
                Piece::Text(
                    "White: captured display \u{b7} orange: DIW \u{b7} cyan: DDF \u{b7} left gutter: CPU stall share"@,
                ),
                Piece::Text(scanline_text(t.selected_vpos as int)),
                Piece::Text(selected_text(&t)),
                Piece::Text(pointer_text(at.0 as int, at.1 as int)),
            ]
        },
    }
}

fn put_beam_texts(s: &mut Sheet, trace: &Option<BeamView>, probe: Option<(u32, u32)>)
    ensures
        final(s)@ == old(s)@ + beam_texts(*trace, probe),
{
    match trace {
        None => {
            s.text("Capture a frame to inspect chip-bus ownership, register writes and CPU waits.");
        },
        Some(t) => {
            if t.rows != 0 && t.cols != 0 {
                s.line(heading_of(t));
                s.text(
                    "White: captured display \u{b7} orange: DIW \u{b7} cyan: DDF \u{b7} left gutter: CPU stall share",
                );
                let mut line = "Scanline ".to_owned();
                put_dec(&mut line, t.selected_vpos as u64);
                put(&mut line, " \u{b7} click or drag to select a colour clock");
                assert(line@ =~= scanline_text(t.selected_vpos as int));
                s.line(line);
                s.line(selected_of(t));
                let at: (u32, u32) = match probe {
                    Some(p) => p,
                    None => (t.selected_vpos, t.selected_hpos),
                };
                let mut pointer = "Pointer ".to_owned();
                put_place(&mut pointer, at.0, at.1);
                assert(pointer@ =~= pointer_text(at.0 as int, at.1 as int));
                s.line(pointer);
            }
        },
    }
    assert(s@ =~= old(s)@ + beam_texts(*trace, probe));
}

/// The beam page. `probe` is the slot under the pointer, if it is over the
/// diagram.
pub fn analyzer_beam(
    underlay: bool,
    scrub: bool,
    waits: bool,
    trace: &Option<BeamView>,
    probe: Option<(u32, u32)>,
) -> (s: Sheet)
    ensures
        s@ == beam_ticks(underlay, scrub, waits) + beam_texts(*trace, probe),
{
    let mut s = Sheet::new();
    s.push(
        Piece::Tick {
            label: "Picture (U)".to_owned(),
            on: underlay,
            action: Action::Analyzer(UiControl::AnalyzerUnderlay),
            enabled: true,
        },
    );
    s.push(
        Piece::Tick {
            label: "Beam scrub (B)".to_owned(),
            on: scrub,
            action: Action::Analyzer(UiControl::AnalyzerScrub),
            enabled: true,
        },
    );
    s.push(
        Piece::Tick {
            label: "CPU waits (W)".to_owned(),
            on: waits,
            action: Action::Analyzer(UiControl::AnalyzerCpuWait),
            enabled: true,
        },
    );
    assert(s@ =~= beam_ticks(underlay, scrub, waits));
    put_beam_texts(&mut s, trace, probe);
    s
}

/// A click or a drag on the diagram, or on the line below it, picks the slot
/// at that place.
pub fn beam_pick(x: u32, y: u32, scanline: bool, clicked: bool, dragged: bool) -> (r: Option<Action>)
    ensures
        r == (if clicked || dragged {
            Some(Action::Analyzer(UiControl::AnalyzerPick { x, y, scanline }))
        } else {
            None
        }),
{
    if clicked || dragged {
        Some(Action::Analyzer(UiControl::AnalyzerPick { x, y, scanline }))
    } else {
        None
    }
}

/// A click or a drag on the heat map picks the cell at that place, which is in
/// 1024ths of the map.
pub fn heat_pick(x: u32, y: u32, clicked: bool, dragged: bool) -> (r: Option<Action>)
    requires
        x < 1024,
        y < 1024,
    ensures
        r == (if clicked || dragged {
            Some(
                Action::Analyzer(
                    UiControl::AnalyzerHeatPick { x: (x / 4) as u8, y: (y / 4) as u8 },
                ),
            )
        } else {
            None
        }),
{
    if clicked || dragged {
        Some(
            Action::Analyzer(UiControl::AnalyzerHeatPick { x: (x / 4) as u8, y: (y / 4) as u8 }),
        )
    } else {
        None
    }
}

/// A stretch of memory that the heat map can show.
#[derive(PartialEq, Eq, Debug)]
pub struct HeatPreset {
    pub label: String,
    pub base: u32,
    pub span: u32,
}

#[derive(Clone, Copy, PartialEq, Eq, Structural, Debug)]
pub struct HeatView {
    pub frame: u64,
    pub base: u32,
    pub span: u32,
    pub bytes_per_cell: u32,
}

pub open spec fn preset_shown(heat: Option<HeatView>, p: HeatPreset) -> bool {
    heat matches Some(h) && h.base == p.base && h.span == p.span
}

pub open spec fn preset_pieces(presets: Seq<HeatPreset>, heat: Option<HeatView>) -> Seq<
    Piece<Seq<char>>,
> {
    Seq::new(
        presets.len(),
        |i: int|
            Piece::Row {
                label: presets[i].label@,
                selected: preset_shown(heat, presets[i]),
                action: Action::Analyzer(UiControl::AnalyzerHeatPreset(i as u8)),
            },
    )
}

/// The last address of the map, or the last there is.
pub open spec fn heat_end(h: HeatView) -> int {
    let span = if h.span == 0 {
        0
    } else {
        h.span - 1
    };
    if h.base + span > 0xFFFF_FFFF {
        0xFFFF_FFFF
    } else {
        h.base + span
    }
}

pub open spec fn heat_heading(h: HeatView) -> Seq<char> {
    "Frame "@ + dec(h.frame as int) + " \u{b7} $"@ + hex(h.base as int, 8) + "\u{2013}$"@ + hex(
        heat_end(h),
        8,
    ) + " \u{b7} "@ + dec(h.bytes_per_cell as int) + " bytes/cell"@
}

pub open spec fn fading_text(frames: int) -> Seq<char> {
    "Last access to each block, fading over "@ + dec(frames) + " frames"@
}

pub open spec fn heat_texts(heat: Option<HeatView>, decay: u64) -> Seq<Piece<Seq<char>>> {
    match heat {
        None => seq![Piece::Text("The memory heat map is not armed."@)],
        Some(h) => seq![
            Piece::Text(heat_heading(h)),
            Piece::Text(fading_text(decay as int)),
        ],
    }
}

fn heat_heading_of(h: &HeatView) -> (r: String)
    ensures
        r@ == heat_heading(*h),
{
    let span: u32 = if h.span == 0 {
        0
    } else {
        h.span - 1
    };
    let end: u64 = if h.base as u64 + span as u64 > 0xFFFF_FFFF {
        0xFFFF_FFFF
    } else {
        h.base as u64 + span as u64
    };
    let mut r = "Frame ".to_owned();
    put_dec(&mut r, h.frame);
    put(&mut r, " \u{b7} $");
    put_hex(&mut r, h.base as u64, 8);
    put(&mut r, "\u{2013}$");
    put_hex(&mut r, end, 8);
    put(&mut r, " \u{b7} ");
    put_dec(&mut r, h.bytes_per_cell as u64);
    put(&mut r, " bytes/cell");
    assert(r@ =~= heat_heading(*h));
    r
}

/// The memory page: the stretches to choose from, and what the map shows, its
/// colours fading over `decay` frames.
pub fn analyzer_memory(presets: &Vec<HeatPreset>, heat: &Option<HeatView>, decay: u64) -> (s: Sheet)
    ensures
        s@ == preset_pieces(presets@, *heat) + heat_texts(*heat, decay),
{
    let mut s = Sheet::new();
    let mut i: usize = 0;
    assert(s@ =~= preset_pieces(presets@, *heat).take(0));
    while i < presets.len()
        invariant
            i <= presets@.len(),
            s@ == preset_pieces(presets@, *heat).take(i as int),
        decreases presets@.len() - i,
    {
        let p = &presets[i];
        let selected: bool = match heat {
            Some(h) => h.base == p.base && h.span == p.span,
            None => false,
        };
        s.push(
            Piece::Row {
                label: p.label.clone(),
                selected,
                action: Action::Analyzer(UiControl::AnalyzerHeatPreset(i as u8)),
            },
        );
        assert(s@ =~= preset_pieces(presets@, *heat).take(i + 1));
        i += 1;
    }
    assert(s@ =~= preset_pieces(presets@, *heat));
    match heat {
        None => {
            s.text("The memory heat map is not armed.");
        },
        Some(h) => {
            s.line(heat_heading_of(h));
            let mut line = "Last access to each block, fading over ".to_owned();
            put_dec(&mut line, decay);
            put(&mut line, " frames");
            assert(line@ =~= fading_text(decay as int));
            s.line(line);
        },
    }
    assert(s@ =~= preset_pieces(presets@, *heat) + heat_texts(*heat, decay));
    s
}

/// The cell that the memory page describes: the one under the pointer, or
/// else the selected one.
pub fn described_cell(hovered: Option<u32>, selected: Option<u32>) -> (r: Option<u32>)
    ensures
        r == (if hovered is Some {
            hovered
        } else {
            selected
        }),
{
    if hovered.is_some() {
        hovered
    } else {
        selected
    }
}

/// What is said of the described cell: its addresses and what is registered
/// there, or how to get at one.
pub fn cell_note(described: Option<&str>) -> (s: Sheet)
    ensures
        s@ == seq![
            Piece::Text(
                match described {
                    Some(t) => t@,
                    None => "Click a cell to inspect its address and last access."@,
                },
            ),
        ],
{
    let mut s = Sheet::new();
    match described {
        Some(t) => s.text(t),
        None => s.text("Click a cell to inspect its address and last access."),
    }
    assert(s@ =~= seq![
        Piece::Text(
            match described {
                Some(t) => t@,
                None => "Click a cell to inspect its address and last access."@,
            },
        ),
    ]);
    s
}

/// How much of the map someone touched last.
#[derive(PartialEq, Eq, Debug)]
pub struct CensusRow {
    pub name: String,
    pub cells: u64,
    pub bytes: u64,
}

pub open spec fn census_pieces(rows: Seq<CensusRow>) -> Seq<Piece<Seq<char>>>
    decreases rows.len(),
{
    if rows.len() == 0 {
        seq![Piece::Text("Last access"@)]
    } else {
        let r = rows.last();
        census_pieces(rows.drop_last()) + seq![
            Piece::Text(r.name@),
            Piece::Text(dec(r.cells as int) + " cells"@),
            Piece::Text(dec(r.bytes as int) + " B"@),
        ]
    }
}

/// The table beside the map.
pub fn census(rows: &Vec<CensusRow>) -> (s: Sheet)
    ensures
        s@ == census_pieces(rows@),
{
    let mut s = Sheet::new();
    s.text("Last access");
    let mut i: usize = 0;
    assert(rows@.take(0) =~= Seq::empty());
    assert(s@ =~= census_pieces(rows@.take(0)));
    while i < rows.len()
        invariant
            i <= rows@.len(),
            s@ == census_pieces(rows@.take(i as int)),
        decreases rows@.len() - i,
    {
        let row = &rows[i];
        s.text(row.name.as_str());
        let mut cells = String::new();
        put_dec(&mut cells, row.cells);
        put(&mut cells, " cells");
        assert(cells@ =~= dec(row.cells as int) + " cells"@);
        s.line(cells);
        let mut bytes = String::new();
        put_dec(&mut bytes, row.bytes);
        put(&mut bytes, " B");
        assert(bytes@ =~= dec(row.bytes as int) + " B"@);
        s.line(bytes);
        assert(rows@.take(i + 1).drop_last() =~= rows@.take(i as int));
        assert(s@ =~= census_pieces(rows@.take(i + 1)));
        i += 1;
    }
    assert(rows@.take(i as int) =~= rows@);
    s
}

/// The cell that is pinned.
#[derive(PartialEq, Eq, Debug)]
pub struct PinnedCell {
    pub cell: u32,
    /// Its addresses, as they are shown.
    pub range: String,
    pub toucher: Option<String>,
    pub age: Option<u64>,
}

/// A text that leads to an address on a page of the debugger.
pub open spec fn address_link_piece(label: Seq<char>, tab: DebugTab, address: u32) -> Piece<Seq<char>> {
    Piece::Link { label, action: Action::Navigate(tab, address) }
}

pub fn address_link(s: &mut Sheet, label: String, tab: DebugTab, address: u32)
    ensures
        final(s)@ == old(s)@.push(address_link_piece(label@, tab, address)),
{
    s.push(Piece::Link { label, action: Action::Navigate(tab, address) });
}

/// Where a link leads, in words.
pub open spec fn destination(tab: DebugTab) -> Seq<char> {
    match tab {
        DebugTab::Cpu => "CPU disassembly"@,
        DebugTab::Copper => "Copper list"@,
        _ => "memory"@,
    }
}

pub fn link_hint(tab: DebugTab) -> (r: String)
    ensures
        r@ == "Open "@ + destination(tab)
            + " at this address in the current machine; the captured frame stays selected"@,
{
    let mut r = "Open ".to_owned();
    put(
        &mut r,
        match tab {
            DebugTab::Cpu => "CPU disassembly",
            DebugTab::Copper => "Copper list",
            _ => "memory",
        },
    );
    put(&mut r, " at this address in the current machine; the captured frame stays selected");
    r
}

pub open spec fn memory_link(address: u32) -> Piece<Seq<char>> {
    address_link_piece(
        "Inspect memory at $"@ + hex(address as int, 8),
        DebugTab::Memory,
        address,
    )
}

pub(crate) fn put_memory_link(s: &mut Sheet, address: u32)
    ensures
        final(s)@ == old(s)@.push(memory_link(address)),
{
    let mut label = "Inspect memory at $".to_owned();
    put_hex(&mut label, address as u64, 8);
    address_link(s, label, DebugTab::Memory, address);
}

pub open spec fn pinned_text(p: PinnedCell) -> Seq<char> {
    "Pinned: "@ + p.range@ + " \u{b7} "@ + (match p.toucher {
        Some(t) => t@,
        None => "untouched"@,
    }) + (match p.age {
        Some(age) => " \u{b7} "@ + dec(age as int) + " frames ago"@,
        None => Seq::empty(),
    })
}

/// What is said of the pinned cell, with a link to its memory.
pub fn pinned(h: &HeatView, p: &PinnedCell) -> (s: Sheet)
    ensures
        s@ == seq![
            memory_link(cell_address(h.base as int, h.bytes_per_cell as int, p.cell as int) as u32),
            Piece::Text(pinned_text(*p)),
        ],
{
    let mut s = Sheet::new();
    let address: u32 = heat_cell_address(h.base, h.bytes_per_cell, p.cell);
    put_memory_link(&mut s, address);
    let mut line = "Pinned: ".to_owned();
    put(&mut line, p.range.as_str());
    put(&mut line, " \u{b7} ");
    match &p.toucher {
        Some(t) => {
            put(&mut line, t.as_str());
        },
        None => {
            put(&mut line, "untouched");
        },
    }
    match p.age {
        Some(age) => {
            put(&mut line, " \u{b7} ");
            put_dec(&mut line, age);
            put(&mut line, " frames ago");
        },
        None => {},
    }
    assert(line@ =~= pinned_text(*p));
    s.line(line);
    assert(s@ =~= seq![
        memory_link(cell_address(h.base as int, h.bytes_per_cell as int, p.cell as int) as u32),
        Piece::Text(pinned_text(*p)),
    ]);
    s
}

/// A row of a list, as it is shown.
#[derive(PartialEq, Eq, Debug)]
pub struct ListRow {
    pub text: String,
    pub selected: bool,
}

#[derive(PartialEq, Eq, Debug)]
pub struct BlitsView {
    pub hidden_above: u64,
    pub hidden_below: u64,
    pub rows: Vec<ListRow>,
    pub formula: String,
    pub detail: String,
}

pub open spec fn hidden_text(above: int, below: int) -> Seq<char> {
    dec(above) + " above \u{b7} "@ + dec(below) + " below"@
}

fn hidden_of(above: u64, below: u64) -> (r: String)
    ensures
        r@ == hidden_text(above as int, below as int),
{
    let mut r = String::new();
    put_dec(&mut r, above);
    put(&mut r, " above \u{b7} ");
    put_dec(&mut r, below);
    put(&mut r, " below");
    assert(r@ =~= hidden_text(above as int, below as int));
    r
}

pub open spec fn blit_rows(rows: Seq<ListRow>) -> Seq<Piece<Seq<char>>> {
    Seq::new(
        rows.len(),
        |i: int|
            Piece::Row {
                label: rows[i].text@,
                selected: rows[i].selected,
                action: Action::Analyzer(UiControl::AnalyzerBlitRow(i as u8)),
            },
    )
}

pub open spec fn step_blit(rows: i64) -> Action {
    Action::BlitScroll(rows)
}

pub open spec fn blit_pieces(view: Option<BlitsView>) -> Seq<Piece<Seq<char>>> {
    match view {
        None => seq![
            Piece::Text(
                "No blits captured in this frame. Capture a frame containing blitter activity."@,
            ),
        ],
        Some(b) => seq![
            Piece::Button { label: "Previous blit"@, action: step_blit((-1) as i64), enabled: true },
            Piece::Button { label: "Next blit"@, action: step_blit(1), enabled: true },
            Piece::Text(hidden_text(b.hidden_above as int, b.hidden_below as int)),
            Piece::Text(
                "#  beam span        mode/channels    size       used/stall   destination"@,
            ),
        ] + blit_rows(b.rows@) + seq![Piece::Text(b.formula@), Piece::Text(b.detail@)],
    }
}

/// The page of the blits.
pub fn analyzer_blits(view: &Option<BlitsView>) -> (s: Sheet)
    ensures
        s@ == blit_pieces(*view),
{
    let mut s = Sheet::new();
    match view {
        None => {
            s.text("No blits captured in this frame. Capture a frame containing blitter activity.");
        },
        Some(b) => {
            s.button("Previous blit", Action::BlitScroll(-1), true);
            s.button("Next blit", Action::BlitScroll(1), true);
            s.line(hidden_of(b.hidden_above, b.hidden_below));
            s.text("#  beam span        mode/channels    size       used/stall   destination");
            let ghost head = s@;
            let mut i: usize = 0;
            assert(s@ =~= head + blit_rows(b.rows@).take(0));
            while i < b.rows.len()
                invariant
                    i <= b.rows@.len(),
                    s@ == head + blit_rows(b.rows@).take(i as int),
                decreases b.rows@.len() - i,
            {
                s.push(
                    Piece::Row {
                        label: b.rows[i].text.clone(),
                        selected: b.rows[i].selected,
                        action: Action::Analyzer(UiControl::AnalyzerBlitRow(i as u8)),
                    },
                );
                assert(s@ =~= head + blit_rows(b.rows@).take(i + 1));
                i += 1;
            }
            assert(blit_rows(b.rows@).take(i as int) =~= blit_rows(b.rows@));
            s.text(b.formula.as_str());
            s.text(b.detail.as_str());
        },
    }
    assert(s@ =~= blit_pieces(*view));
    s
}

#[derive(PartialEq, Eq, Debug)]
pub struct ResourcesView {
    pub hidden_above: u64,
    pub hidden_below: u64,
    pub rows: Vec<ListRow>,
    /// What the selected resource holds is shown.
    pub detail: bool,
}

pub open spec fn resource_rows(rows: Seq<ListRow>) -> Seq<Piece<Seq<char>>> {
    Seq::new(
        rows.len(),
        |i: int|
            Piece::Row {
                label: rows[i].text@,
                selected: rows[i].selected,
                action: Action::Analyzer(UiControl::AnalyzerResourceRow(i as u8)),
            },
    )
}

/// The page of the resources: a page at a time, in the directions in which
/// there are more.
pub open spec fn resource_pieces(view: Option<ResourcesView>, page: i64) -> Seq<Piece<Seq<char>>> {
    match view {
        None => Seq::empty(),
        Some(v) => seq![
            Piece::Button {
                label: "Previous page"@,
                action: Action::ResourceScroll((-page) as i64),
                enabled: v.hidden_above > 0,
            },
            Piece::Button {
                label: "Next page"@,
                action: Action::ResourceScroll(page),
                enabled: v.hidden_below > 0,
            },
            Piece::Text(hidden_text(v.hidden_above as int, v.hidden_below as int)),
        ] + (if v.rows@.len() == 0 {
            seq![Piece::Text("The guest has not registered any debug resources."@)]
        } else {
            resource_rows(v.rows@) + (if v.detail {
                Seq::empty()
            } else {
                seq![Piece::Text("Select a resource to inspect its contents."@)]
            })
        }),
    }
}

pub fn analyzer_resources(view: &Option<ResourcesView>, page: i64) -> (s: Sheet)
    requires
        page > 0,
    ensures
        s@ == resource_pieces(*view, page),
{
    let mut s = Sheet::new();
    match view {
        None => {},
        Some(v) => {
            s.button("Previous page", Action::ResourceScroll(-page), v.hidden_above > 0);
            s.button("Next page", Action::ResourceScroll(page), v.hidden_below > 0);
            s.line(hidden_of(v.hidden_above, v.hidden_below));
            if v.rows.len() == 0 {
                s.text("The guest has not registered any debug resources.");
            } else {
                let ghost head = s@;
                let mut i: usize = 0;
                assert(s@ =~= head + resource_rows(v.rows@).take(0));
                while i < v.rows.len()
                    invariant
                        i <= v.rows@.len(),
                        s@ == head + resource_rows(v.rows@).take(i as int),
                    decreases v.rows@.len() - i,
                {
                    s.push(
                        Piece::Row {
                            label: v.rows[i].text.clone(),
                            selected: v.rows[i].selected,
                            action: Action::Analyzer(UiControl::AnalyzerResourceRow(i as u8)),
                        },
                    );
                    assert(s@ =~= head + resource_rows(v.rows@).take(i + 1));
                    i += 1;
                }
                assert(resource_rows(v.rows@).take(i as int) =~= resource_rows(v.rows@));
                if !v.detail {
                    s.text("Select a resource to inspect its contents.");
                }
            }
        },
    }
    assert(s@ =~= resource_pieces(*view, page));
    s
}

} // verus!
