//! What the inspectors' pages show.

use copperline::actions::Action;
use copperline::analyzer::{
    analyzer_layout_rows, beam_probe, counter_total, heat_cell_address, heat_cell_at, probe_row,
    wait_bar, BusRecord,
};
use copperline::analyzer_pages::{
    analyzer, analyzer_beam, analyzer_blits, analyzer_memory, analyzer_resources, beam_pick,
    cell_note, census, described_cell, heat_pick, link_hint, pinned, AnalyzerTab, BeamView, BlitsView,
    CensusRow, HeatPreset, HeatView, ListRow, PinnedCell, ResourcesView,
};
use copperline::app::{App, ConsolePanel, DebugTab, DebuggerPanel};
use copperline::beam_figures::{
    beam_counters, beam_detail, counter_share_base, counter_table, counter_title, Counter,
    Counters, Marks, Overlay, StalledPc,
};
use copperline::console_page::{
    console, console_prompt, console_sheet, console_status, ConsoleInput,
};
use copperline::controls::{parse_register_edit, UiControl};
use copperline::desk::ToolPanelKind;
use copperline::inspector_keys::{
    analyzer_shortcuts, shortcuts, InspectorKey, KeyDown, KeyFocus, ShortcutStep,
};
use copperline::machine::Machine;
use copperline::memedit::{cell_text, MemColumn, MemCursor, MemEdit, MemPage};
use copperline::pages::{
    audio, bitmap_dots, colour_hint, cpu, cpu_memory_head, cpu_notes, disassembly_head,
    dump_notes, grid_label, memory_grid, video, CellLook,
};
use copperline::sheets::{
    capture_dot, display_pane, entry_left, entry_row, input_label, mode_switch, settle_address,
    show, tab_controls, title, tool_tab, tool_tab_clicked, transport, Body, EntryFacts, Piece,
    TabLook, ViewFacts,
};
use copperline::tools::ToolTabState;

const NOTHING: EntryFacts = EntryFacts {
    poke: false,
    find: false,
    region: false,
    beam: false,
    catch: false,
    wave: false,
};

fn press(label: &str, control: UiControl, enabled: bool) -> Piece<String> {
    Piece::Button {
        label: label.to_string(),
        action: Action::Control(control),
        enabled,
    }
}

fn command(label: &str, control: UiControl, enabled: bool) -> Piece<String> {
    Piece::Button {
        label: label.to_string(),
        action: Action::Analyzer(control),
        enabled,
    }
}

fn text(t: &str) -> Piece<String> {
    Piece::Text(t.to_string())
}

#[test]
fn the_transport_goes_back_only_with_a_history() {
    let s = transport(true, false);
    assert_eq!(s.pieces.len(), 9);
    assert_eq!(
        s.pieces[0],
        press("Pause (R)", UiControl::DebugRun, true)
    );
    assert_eq!(
        s.pieces[7],
        press("< Step", UiControl::DebugReverseStep, false)
    );
    assert_eq!(
        transport(false, true).pieces[0],
        press("Run (R)", UiControl::DebugRun, true)
    );
}

#[test]
fn controls_need_an_entry_that_they_can_use() {
    let mut p = DebuggerPanel::new();
    assert_eq!(
        entry_row(&p, NOTHING).pieces,
        vec![
            text("Address / command"),
            press("Run to", UiControl::DebugRunTo, false),
            press("Set Reg", UiControl::DebugPoke, false),
        ]
    );
    p.entry = " $400 ".into();
    assert_eq!(
        entry_row(&p, NOTHING).pieces[1],
        press("Run to", UiControl::DebugRunTo, true)
    );
    p.entry = "D3 12".into();
    assert_eq!(
        entry_row(&p, NOTHING).pieces[2],
        press("Set Reg", UiControl::DebugPoke, true)
    );
    p.tab = DebugTab::Memory;
    assert_eq!(
        entry_row(&p, NOTHING).pieces[2],
        press("Poke", UiControl::DebugPoke, false)
    );
    p.tab = DebugTab::Break;
    p.entry = "400".into();
    let controls = tab_controls(
        &p,
        EntryFacts {
            beam: true,
            ..NOTHING
        },
        "status",
    );
    assert_eq!(
        controls.pieces,
        vec![
            press("Break +/-", UiControl::DebugBreakToggle, true),
            press("Watch +/-", UiControl::DebugWatchToggle, true),
            press("Reg +/-", UiControl::DebugRegToggle, true),
            press("Beam +/-", UiControl::DebugBeamToggle, true),
            press("Catch +/-", UiControl::DebugCatchToggle, false),
            press("Clear all", UiControl::DebugBreaksClear, true),
        ]
    );
}

#[test]
fn each_page_has_its_own_controls() {
    let mut p = DebuggerPanel::new();
    p.tab = DebugTab::Copper;
    assert_eq!(tab_controls(&p, NOTHING, "").pieces.len(), 2);
    p.copper_addr = Some(0x400);
    assert_eq!(
        tab_controls(&p, NOTHING, "").pieces[2],
        Piece::Button {
            label: "Follow Copper".into(),
            action: Action::FollowCopper,
            enabled: true
        }
    );
    p.tab = DebugTab::Memory;
    p.mem_status = Some("Wrote 1 byte at $000100".into());
    let memory = tab_controls(&p, NOTHING, "").pieces;
    assert_eq!(memory[0], text("Goto"));
    assert_eq!(memory[1], Piece::Address);
    assert_eq!(memory[5], press("Bits", UiControl::DebugMemBits, true));
    assert_eq!(memory[8], Piece::Note("Wrote 1 byte at $000100".into()));
    p.mem_view_bits = true;
    assert_eq!(
        tab_controls(&p, NOTHING, "").pieces[5],
        press("Hex", UiControl::DebugMemBits, true)
    );
    p.tab = DebugTab::IoMap;
    assert_eq!(
        tab_controls(&p, NOTHING, "").pieces[0],
        Piece::Button {
            label: "Previous register".into(),
            action: Action::IoMapScroll(-1),
            enabled: true
        }
    );
    p.tab = DebugTab::Waveform;
    assert_eq!(
        tab_controls(&p, NOTHING, "").pieces[0],
        press("Arm", UiControl::DebugWaveArm, false)
    );
    p.tab = DebugTab::Audio;
    assert_eq!(tab_controls(&p, NOTHING, "idle").pieces, vec![text("idle")]);
}

#[test]
fn pages_show_what_the_host_has() {
    let all = ViewFacts {
        cpu: true,
        video: true,
        audio: true,
        page: true,
    };
    let none = ViewFacts {
        cpu: false,
        video: false,
        audio: false,
        page: false,
    };
    assert_eq!(show(DebugTab::Cpu, all), Body::Cpu);
    assert_eq!(show(DebugTab::Cpu, none), Body::Lines);
    assert_eq!(show(DebugTab::Memory, all), Body::Dump);
    assert_eq!(show(DebugTab::Memory, none), Body::Lines);
    assert_eq!(show(DebugTab::Video, none), Body::Nothing);
    assert_eq!(show(DebugTab::Audio, all), Body::Audio);
    assert_eq!(show(DebugTab::Break, all), Body::Lines);
    assert_eq!(entry_left(true, true), Some(Action::SubmitEntry));
    assert_eq!(entry_left(true, false), None);
}

#[test]
fn dragged_addresses_land_on_rows() {
    let mut p = DebuggerPanel::new();
    p.mem_addr = 0x1234;
    p.mem_view_bits = true;
    settle_address(&mut p, false);
    assert_eq!(p.mem_addr, 0x1234);
    settle_address(&mut p, true);
    assert_eq!(p.mem_addr, 0x1230);
}

#[test]
fn tabs_close_only_what_is_open() {
    let open = ToolTabState {
        open: true,
        capturing: false,
    };
    let closed = ToolTabState {
        open: false,
        capturing: false,
    };
    assert_eq!(tool_tab(closed, true), TabLook::Shown);
    assert_eq!(tool_tab(open, false), TabLook::Open);
    assert_eq!(tool_tab(closed, false), TabLook::Closed);
    let kind = ToolPanelKind::Console;
    assert_eq!(
        tool_tab_clicked(kind, open, false, true, true),
        Some(Action::CloseTool(kind))
    );
    assert_eq!(
        tool_tab_clicked(kind, closed, false, true, true),
        Some(Action::SelectTool(kind))
    );
    assert_eq!(tool_tab_clicked(kind, open, false, false, false), None);
    assert_eq!(capture_dot(true), "Capturing this machine");
    assert_eq!(capture_dot(false), "Open, not capturing");
    assert_eq!(mode_switch(true), Some(Action::CloseWorkspace));
    assert_eq!(mode_switch(false), None);
    assert_eq!(display_pane(true), Some(Action::CaptureDisplay));
    assert_eq!(input_label(true), "Input: Amiga");
    assert_eq!(input_label(false), "Input: debugger");
    assert_eq!(title(true), "Copperline");
    assert_eq!(title(false), "Copperline Debugger");
}

#[test]
fn a_prepared_register_edit_changes_nothing() {
    let mut m = Machine::new(0x00FF_FFFF);
    m.regs = (0..18).map(|i| 0x1000_0000 + i).collect();
    let rows = cpu(&m);
    assert_eq!(rows.len(), 18);
    assert_eq!(rows[0].entry, "PC 10000011");
    assert_eq!(rows[1].value, "00000010");
    assert_eq!(rows[2].name, "D0");
    assert_eq!(rows[17].entry, "A7 1000000F");
    for (i, row) in rows.iter().enumerate() {
        let (reg, value) = parse_register_edit(&row.entry).unwrap();
        if i == 1 {
            assert_eq!((reg, value), (16, 0x10));
        } else {
            assert_eq!(value, m.regs[reg as usize]);
        }
    }
}

#[test]
fn layers_channels_and_colours_are_listed() {
    let (planes, sprites) = video(0b0000_0101, 2, 0x80);
    assert_eq!(planes.pieces[0], text("Bitplanes"));
    assert_eq!(
        planes.pieces[3],
        Piece::Tick {
            label: "3".into(),
            on: true,
            action: Action::Control(UiControl::DebugPlaneToggle(2)),
            enabled: false
        }
    );
    assert_eq!(
        sprites.pieces[8],
        Piece::Tick {
            label: "7".into(),
            on: true,
            action: Action::Control(UiControl::DebugSpriteToggle(7)),
            enabled: true
        }
    );
    let rows = audio(&vec![false, true]);
    assert_eq!(
        rows.pieces[1],
        Piece::Tick {
            label: "Mute".into(),
            on: true,
            action: Action::Control(UiControl::DebugAudioMute(1)),
            enabled: true
        }
    );
    assert_eq!(colour_hint(17, 0xFF30_2010), "17: #102030");
    assert_eq!(colour_hint(3, 0x80FF_8040), "3: #204080");
    assert_eq!(colour_hint(0, 0x00FF_FFFF), "0: #000000");
    let dots = bitmap_dots(&vec![0x81, 0x40]);
    assert_eq!(dots.len(), 16);
    let on: Vec<usize> = (0..16).filter(|i| dots[*i]).collect();
    assert_eq!(on, vec![0, 7, 9]);
}

#[test]
fn the_dump_shows_edits_before_they_are_written() {
    let page = MemPage {
        base: 0x60000,
        bytes: (0..=255).collect(),
        mask: 0x00FF_FFFF,
    };
    let mut writable = vec![true; 256];
    writable[0x12] = false;
    let mut edit = MemEdit::new();
    edit.cursor = Some(MemCursor::new(0x60010, MemColumn::Hex));
    edit.pending = vec![(0x60011, 0x41)];
    let hex = memory_grid(&edit, &page, &writable, 1, MemColumn::Hex);
    assert_eq!(hex.len(), 16);
    assert_eq!(
        (hex[0].addr, hex[0].text.as_str(), hex[0].look),
        (0x60010, "10", CellLook::Selected)
    );
    assert_eq!((hex[1].text.as_str(), hex[1].look), ("41", CellLook::Staged));
    assert_eq!(hex[2].look, CellLook::ReadOnly);
    assert_eq!((hex[3].text.as_str(), hex[3].look), ("13", CellLook::Plain));
    let ascii = memory_grid(&edit, &page, &writable, 1, MemColumn::Ascii);
    assert_eq!((ascii[0].text.as_str(), ascii[0].look), (".", CellLook::Plain));
    assert_eq!(ascii[1].text, "A");
    assert_eq!(grid_label(&page, 1), "060010: ");
    assert_eq!(cell_text(0x7F, MemColumn::Ascii), ".");
    let top = MemPage {
        base: 0x00FF_FFF0,
        bytes: vec![],
        mask: 0x00FF_FFFF,
    };
    assert_eq!(grid_label(&top, 1), "000000: ");
}

#[test]
fn the_analyzers_buttons_follow_its_page() {
    let s = analyzer(AnalyzerTab::Beam, false, true, false);
    assert_eq!(
        s.pieces,
        vec![
            command("Run (R)", UiControl::AnalyzerRun, true),
            command("Capture frame (F)", UiControl::AnalyzerFrame, true),
            command("Run to beam (T)", UiControl::AnalyzerRunTo, true),
        ]
    );
    let s = analyzer(AnalyzerTab::Resources, true, false, false);
    assert_eq!(
        s.pieces[2],
        command("Save resource\u{2026}", UiControl::AnalyzerResourceSave, false)
    );
    assert_eq!(
        analyzer(AnalyzerTab::Blits, true, true, true).pieces.len(),
        2
    );
}

#[test]
fn the_beam_page_describes_the_frame() {
    let none = analyzer_beam(true, false, false, &None, None);
    assert_eq!(none.pieces.len(), 4);
    let view = BeamView {
        frame: 12,
        seconds: "0.240".into(),
        rows: 313,
        cols: 227,
        line_cck: 227,
        partial: true,
        selected_vpos: 44,
        selected_hpos: 7,
        owner: "Copper".into(),
        wait: "none".into(),
        blit: Some("blit #1".into()),
    };
    let s = analyzer_beam(true, false, false, &Some(view), Some((100, 5)));
    assert_eq!(
        s.pieces[3..],
        [
            text("Frame 12 \u{b7} 0.240s \u{b7} 313 lines \u{d7} 227 colour clocks \u{b7} partial"),
            text("White: captured display \u{b7} orange: DIW \u{b7} cyan: DDF \u{b7} left gutter: CPU stall share"),
            text("Scanline 44 \u{b7} click or drag to select a colour clock"),
            text("Selected v=044 h=007 \u{b7} Copper \u{b7} CPU wait: none \u{b7} blit #1"),
            text("Pointer v=100 h=005"),
        ]
    );
    assert_eq!(
        beam_pick(768, 256, false, false, true),
        Some(Action::Analyzer(UiControl::AnalyzerPick {
            x: 768,
            y: 256,
            scanline: false
        }))
    );
    assert_eq!(beam_pick(0, 0, true, false, false), None);
}

#[test]
fn the_heat_map_names_its_addresses() {
    let presets = vec![
        HeatPreset {
            label: "Chip".into(),
            base: 0,
            span: 0x80000,
        },
        HeatPreset {
            label: "Slow".into(),
            base: 0xC00000,
            span: 0x80000,
        },
    ];
    assert_eq!(
        analyzer_memory(&presets, &None, 50).pieces[2],
        text("The memory heat map is not armed.")
    );
    let heat = HeatView {
        frame: 3,
        base: 0xC00000,
        span: 0x80000,
        bytes_per_cell: 8,
    };
    let s = analyzer_memory(&presets, &Some(heat), 50);
    assert_eq!(
        s.pieces[1],
        Piece::Row {
            label: "Slow".into(),
            selected: true,
            action: Action::Analyzer(UiControl::AnalyzerHeatPreset(1))
        }
    );
    assert_eq!(
        s.pieces[2..],
        [
            text("Frame 3 \u{b7} $00C00000\u{2013}$00C7FFFF \u{b7} 8 bytes/cell"),
            text("Last access to each block, fading over 50 frames"),
        ]
    );
    let p = PinnedCell {
        cell: 257,
        range: "$C00808-$C0080F".into(),
        toucher: None,
        age: Some(4),
    };
    let s = pinned(&heat, &p);
    assert_eq!(
        s.pieces,
        vec![
            Piece::Link {
                label: "Inspect memory at $00C00808".into(),
                action: Action::Navigate(DebugTab::Memory, 0xC00808)
            },
            text("Pinned: $C00808-$C0080F \u{b7} untouched \u{b7} 4 frames ago"),
        ]
    );
    assert_eq!(described_cell(Some(3), Some(9)), Some(3));
    assert_eq!(described_cell(None, Some(9)), Some(9));
    assert_eq!(heat_cell_at(1023, 1023), 65535);
    assert_eq!(heat_cell_at(4, 8), 513);
    assert_eq!(heat_pick(4, 8, false, false), None);
    for (clicked, dragged) in [(true, false), (false, true)] {
        assert_eq!(
            heat_pick(7, 1023, clicked, dragged),
            Some(Action::Analyzer(UiControl::AnalyzerHeatPick { x: 1, y: 255 }))
        );
    }
    assert_eq!(heat_cell_address(0xFFFF_FFF8, 8, 1), 0);
    assert!(link_hint(DebugTab::Copper).starts_with("Open Copper list at this address"));
}

#[test]
fn lists_page_in_the_directions_that_have_more() {
    assert_eq!(
        analyzer_blits(&None).pieces,
        vec![text(
            "No blits captured in this frame. Capture a frame containing blitter activity."
        )]
    );
    let blits = BlitsView {
        hidden_above: 1,
        hidden_below: 2,
        rows: vec![ListRow {
            text: "0".into(),
            selected: true,
        }],
        formula: "D=A".into(),
        detail: "10x20".into(),
    };
    let s = analyzer_blits(&Some(blits));
    assert_eq!(s.pieces.len(), 7);
    assert_eq!(s.pieces[2], text("1 above \u{b7} 2 below"));
    assert_eq!(
        s.pieces[4],
        Piece::Row {
            label: "0".into(),
            selected: true,
            action: Action::Analyzer(UiControl::AnalyzerBlitRow(0))
        }
    );
    assert_eq!(s.pieces[6], text("10x20"));
    assert!(analyzer_resources(&None, 8).pieces.is_empty());
    let empty = ResourcesView {
        hidden_above: 0,
        hidden_below: 0,
        rows: vec![],
        detail: false,
    };
    assert_eq!(
        analyzer_resources(&Some(empty), 8).pieces[3],
        text("The guest has not registered any debug resources.")
    );
    let some = ResourcesView {
        hidden_above: 0,
        hidden_below: 5,
        rows: vec![ListRow {
            text: "bitmap".into(),
            selected: false,
        }],
        detail: false,
    };
    let s = analyzer_resources(&Some(some), 8);
    assert_eq!(
        s.pieces[0],
        Piece::Button {
            label: "Previous page".into(),
            action: Action::ResourceScroll(-8),
            enabled: false
        }
    );
    assert_eq!(
        s.pieces[1],
        Piece::Button {
            label: "Next page".into(),
            action: Action::ResourceScroll(8),
            enabled: true
        }
    );
    assert_eq!(
        s.pieces[4],
        text("Select a resource to inspect its contents.")
    );
}

#[test]
fn counters_take_their_shares_of_something() {
    assert_eq!(counter_total(&vec![1, 2, 3]), 6);
    assert_eq!(counter_total(&vec![]), 1);
    assert_eq!(counter_share_base(true, 0, &vec![5]), 1);
    assert_eq!(counter_share_base(true, 7, &vec![5]), 7);
    assert_eq!(counter_share_base(false, 7, &vec![5, 6]), 11);
    let c = Counters {
        wait_cck: 40,
        wait_by_kind: vec![Counter {
            name: "read".into(),
            count: 30,
        }],
        stalled: vec![StalledPc {
            pc: 0x120,
            count: 17,
            symbol: Some("main".into()),
        }],
        blitter_busy_cck: 9,
        blitter_waits: vec![
            Counter {
                name: "CPU".into(),
                count: 0,
            },
            Counter {
                name: "Copper".into(),
                count: 4,
            },
        ],
    };
    assert_eq!(
        beam_counters(true, &c, "0.1").pieces,
        vec![
            text("40 clocks waiting (0.1%)"),
            text("read: 30"),
            text("Most stalled PCs"),
            Piece::Link {
                label: "$00000120  17 cck".into(),
                action: Action::Navigate(DebugTab::Cpu, 0x120)
            },
            text("main"),
        ]
    );
    assert_eq!(
        beam_counters(false, &c, "88.0").pieces,
        vec![
            text("Blitter grant: 88.0%"),
            text("Blitter waits"),
            text("Copper: 4 cck"),
        ]
    );
    let idle = Counters {
        wait_cck: 0,
        wait_by_kind: vec![],
        stalled: vec![],
        blitter_busy_cck: 0,
        blitter_waits: vec![],
    };
    assert!(beam_counters(false, &idle, "").pieces.is_empty());
}

fn marks(rows: u32) -> Marks {
    Marks {
        cols: 227,
        rows,
        nominal_rows: 313,
        display_hpos: (50, 400),
        visible_start: 26,
        visible_lines: 300,
        diw_v: Some((44, 300)),
        diw_h: None,
        ddf: Some((56, 208)),
        markers: vec![(10, 500)],
        selected: (7, 44),
    }
}

#[test]
fn overlays_hold_still_while_the_fields_alternate() {
    let long = marks(313).beam_overlays();
    assert_eq!(marks(312).beam_overlays(), long);
    assert_eq!(
        long,
        vec![
            Overlay::Display {
                left: 50,
                top: 26,
                right: 227,
                bottom: 313
            },
            Overlay::Fetch {
                at: 56,
                top: 44,
                bottom: 300
            },
            Overlay::Fetch {
                at: 208,
                top: 44,
                bottom: 300
            },
            Overlay::Marker { at: 10, line: 313 },
            Overlay::Selected { at: 7, line: 44 },
        ]
    );
    let no_window = Marks {
        diw_v: None,
        ..marks(313)
    };
    assert_eq!(no_window.beam_overlays().len(), 3);
}

#[test]
fn a_slot_links_to_what_it_touched() {
    let record = BusRecord {
        reg: 0x180,
        addr: 0x402,
        data: 0x0FFF,
        size: 2,
        kind: 3,
        ipl: 1,
        copper: true,
        flags: 1,
        subtype: 0,
    };
    let near: Vec<String> = (0..10).map(|i| format!("marker {i}")).collect();
    let s = beam_detail(44, 7, "Copper", &Some(record), "MOVE", &near);
    assert_eq!(
        s.pieces[..4],
        [
            text("Inspect v=044 h=007 \u{b7} Copper"),
            Piece::Link {
                label: "Inspect memory at $00000402".into(),
                action: Action::Navigate(DebugTab::Memory, 0x402)
            },
            text("reg=$0180 addr=$00000402 data=$0000000000000FFF/2 kind=3:0 IPL=1 events=MOVE"),
            Piece::Link {
                label: "Copper instruction @$000400".into(),
                action: Action::Navigate(DebugTab::Copper, 0x400)
            },
        ]
    );
    assert_eq!(s.pieces.len(), 12, "eight markers at most");
    assert_eq!(
        beam_detail(0, 0, "CPU", &None, "", &vec![]).pieces.len(),
        1
    );
}

#[test]
fn probes_and_bars_read_the_captured_lines() {
    assert_eq!(analyzer_layout_rows(313, 312), 313);
    assert_eq!(probe_row(1023, 313, 312), 311);
    assert_eq!(probe_row(512, 313, 312), 156);
    assert_eq!(probe_row(5, 313, 0), 0);
    assert_eq!(beam_probe(512, 0, 227, 313, 313), (0, 113));
    assert_eq!(wait_bar(&b"....".to_vec()), None);
    assert_eq!(wait_bar(&b".RRB.".to_vec()), Some((3, b'R')));
    assert_eq!(wait_bar(&b"RB".to_vec()), Some((2, b'B')));
}

#[test]
fn a_pick_beyond_the_field_reads_its_last_line() {
    let mut app = App::new(Machine::new(0x00FF_FFFF), true);
    app.open_frame_analyzer();
    app.machine.trace = Some(copperline::machine::BusTrace {
        cols: 227,
        rows: 312,
        nominal_rows: 313,
        frame: 1,
        blits: vec![],
    });
    app.frame_analyzer_select(1023, 1023);
    let panel = app.analyzer.as_ref().unwrap();
    assert_eq!((panel.selected_hpos, panel.selected_vpos), (226, 311));
}

#[test]
fn the_consoles_page_takes_its_keys_once() {
    let mut panel = ConsolePanel::new();
    panel.history = vec!["regs".into(), "step".into()];
    panel.output = vec!["one".into(), "two".into()];
    let input = |key: InspectorKey, first_pass: bool, any_focus: bool| ConsoleInput {
        events: vec![KeyDown {
            key,
            repeat: false,
            plain: true,
        }],
        first_pass,
        entering: true,
        any_focus,
        entry_focus: any_focus,
    };
    let calls = console(&mut panel, &input(InspectorKey::Up, true, true));
    assert!(calls.focus_entry && calls.recalled && !calls.submit);
    assert_eq!((panel.input.as_str(), panel.history_pos), ("step", Some(1)));
    let calls = console(&mut panel, &input(InspectorKey::Up, false, true));
    assert!(!calls.focus_entry && !calls.recalled);
    assert_eq!(panel.input, "step");
    assert_eq!(
        console(&mut panel, &input(InspectorKey::PageUp, true, true)).pages,
        -1
    );
    let calls = console(&mut panel, &input(InspectorKey::Escape, true, true));
    assert!(calls.surrender && calls.close.is_none());
    let calls = console(&mut panel, &input(InspectorKey::Escape, true, false));
    assert_eq!(calls.close, Some(Action::CloseWorkspace));
    assert!(console(&mut panel, &input(InspectorKey::Enter, true, true)).submit);

    assert_eq!(console_prompt(&mut panel, "step".into(), false), None);
    assert_eq!(panel.history_pos, Some(1));
    assert_eq!(console_prompt(&mut panel, " \n".into(), true), None);
    assert_eq!((panel.input.as_str(), panel.history_pos), (" \n", None));
    assert_eq!(
        console_prompt(&mut panel, "step 3".into(), true),
        Some(Action::ConsoleSubmit("step 3".into()))
    );
    assert_eq!(panel.input, "");
    assert_eq!(
        console_sheet(&panel).pieces[2],
        Piece::Text("one\ntwo".to_string())
    );
    panel.output.clear();
    assert_eq!(
        console_sheet(&panel).pieces[2],
        Piece::Text(String::new())
    );
}

#[test]
fn the_cpus_page_leads_back_to_the_program_counter() {
    let mut m = Machine::new(0x00FF_FFFF);
    m.sr_text = "S--".into();
    m.stopped = true;
    assert_eq!(
        cpu_notes(&m, &vec![0x400, 0xF80010]).pieces,
        vec![
            text("S--"),
            Piece::Note("CPU stopped".into()),
            text("Recent PCs"),
            text("00000400"),
            text("00F80010"),
        ]
    );
    m.stopped = false;
    assert_eq!(cpu_notes(&m, &vec![]).pieces.len(), 2);
    let mut p = DebuggerPanel::new();
    assert_eq!(disassembly_head(&p).pieces, vec![text("Disassembly")]);
    p.disasm_addr = Some(0x400);
    assert_eq!(
        disassembly_head(&p).pieces[1],
        Piece::Button {
            label: "Follow PC".into(),
            action: Action::FollowPc,
            enabled: true
        }
    );
    let head = cpu_memory_head().pieces;
    assert_eq!(
        head[2],
        Piece::Button {
            label: "Previous page".into(),
            action: Action::MemoryScroll(-16),
            enabled: true
        }
    );
    assert_eq!(
        head[3],
        Piece::Button {
            label: "Next page".into(),
            action: Action::MemoryScroll(16),
            enabled: true
        }
    );
    assert_eq!(dump_notes(None).pieces.len(), 1);
    assert_eq!(dump_notes(Some("Page 1")).pieces[0], text("Page 1"));
}

#[test]
fn tables_name_their_rows() {
    assert_eq!(counter_title(true), "CPU waits");
    assert_eq!(counter_title(false), "Bus ownership");
    let counters: Vec<Counter> = (0..10)
        .map(|i| Counter {
            name: format!("owner {i}"),
            count: i * 10,
        })
        .collect();
    let shares: Vec<String> = (0..10).map(|i| format!("{i}.5")).collect();
    let rows = counter_table(false, &counters, &shares);
    assert_eq!(rows.len(), 9);
    let codes: String = rows.iter().map(|row| row.code).collect();
    assert_eq!(codes, "RBSDACLP.");
    assert_eq!(
        (rows[7].name.as_str(), rows[7].count.as_str(), rows[7].share.as_str()),
        ("owner 7", "70", "7.5%")
    );
    let codes: String = counter_table(true, &counters, &shares)
        .iter()
        .map(|row| row.code)
        .collect();
    assert_eq!(codes, "RBSDACLNp");
    let touched = vec![CensusRow {
        name: "CPU".into(),
        cells: 3,
        bytes: 96,
    }];
    assert_eq!(
        census(&touched).pieces,
        vec![text("Last access"), text("CPU"), text("3 cells"), text("96 B")]
    );
    assert_eq!(
        cell_note(None).pieces,
        vec![text("Click a cell to inspect its address and last access.")]
    );
    assert_eq!(cell_note(Some("$000400")).pieces, vec![text("$000400")]);
    assert_eq!(console_status(true), "Paused");
    assert_eq!(console_status(false), "Running");
}

#[test]
fn clicking_analyzer_addresses_dispatches_the_matching_destination() {
    let c = Counters {
        wait_cck: 17,
        wait_by_kind: vec![],
        stalled: vec![StalledPc {
            pc: 0x120,
            count: 17,
            symbol: None,
        }],
        blitter_busy_cck: 0,
        blitter_waits: vec![],
    };
    let actions: Vec<Action> = beam_counters(true, &c, "0.1")
        .pieces
        .into_iter()
        .filter_map(|piece| match piece {
            Piece::Link { label, action } if label == "$00000120  17 cck" => Some(action),
            _ => None,
        })
        .collect();
    assert_eq!(actions, [Action::Navigate(DebugTab::Cpu, 0x120)]);
}

const IDLE: KeyFocus = KeyFocus {
    text: false,
    modified: false,
};

#[test]
fn all_tabs_and_bitmap_inspection_leave_the_machine_byte_identical() {
    let m = Machine::new(0x00FF_FFFF);
    let before = format!("{m:?}");
    let facts = ViewFacts {
        cpu: true,
        video: true,
        audio: true,
        page: true,
    };
    let page = MemPage {
        base: 0,
        bytes: m.memory.read(0, 256),
        mask: 0x00FF_FFFF,
    };
    let mut panel = DebuggerPanel::new();
    for (tab, bits) in [
        (DebugTab::Cpu, false),
        (DebugTab::Memory, false),
        (DebugTab::Copper, false),
        (DebugTab::Break, false),
        (DebugTab::Video, false),
        (DebugTab::Audio, false),
        (DebugTab::IoMap, false),
        (DebugTab::Waveform, false),
        (DebugTab::Memory, true),
    ] {
        panel.mem_view_bits = bits;
        panel.tab = tab;
        assert_eq!(
            shortcuts(&panel, true, IDLE, &vec![]),
            ShortcutStep::Act(vec![]),
            "inspection generated an action on {tab:?}"
        );
        assert!(!transport(false, true).pieces.is_empty());
        assert!(!entry_row(&panel, NOTHING).pieces.is_empty());
        assert!(!tab_controls(&panel, NOTHING, "idle").pieces.is_empty());
        match show(tab, facts) {
            Body::Cpu => {
                assert_eq!(cpu(&m).len(), 18);
                assert!(!cpu_notes(&m, &vec![]).pieces.is_empty());
            }
            Body::Video => assert!(!video(0xFF, 5, 0xFF).0.pieces.is_empty()),
            Body::Audio => assert!(!audio(&vec![false; 4]).pieces.is_empty()),
            Body::Dump => {
                let cells =
                    memory_grid(&panel.mem_edit, &page, &vec![true; 256], 0, MemColumn::Hex);
                assert_eq!(cells.len(), 16);
            }
            Body::Lines | Body::Nothing => assert_eq!(bitmap_dots(&page.bytes).len(), 2048),
        }
    }
    assert_eq!(before, format!("{m:?}"));
}

#[test]
fn analyzer_tabs_and_resource_previews_leave_machine_state_unchanged() {
    let mut app = App::new(Machine::new(0x00FF_FFFF), true);
    app.open_frame_analyzer();
    let tabs = [
        AnalyzerTab::Beam,
        AnalyzerTab::Memory,
        AnalyzerTab::Blits,
        AnalyzerTab::Resources,
    ];
    for (tab, resource) in tabs.into_iter().map(|tab| (tab, 1)).chain([
        (AnalyzerTab::Resources, 0),
        (AnalyzerTab::Resources, 2),
    ]) {
        let before = format!("{:?}", app.machine);
        let rows: Vec<ListRow> = (0..3)
            .map(|i| ListRow {
                text: format!("resource {i}"),
                selected: i == resource,
            })
            .collect();
        assert!(analyzer_shortcuts(IDLE, &vec![]).is_empty());
        assert!(!analyzer(tab, false, true, true).pieces.is_empty());
        let sheet = match tab {
            AnalyzerTab::Beam => analyzer_beam(true, false, false, &None, None),
            AnalyzerTab::Memory => analyzer_memory(&vec![], &None, 50),
            AnalyzerTab::Blits => analyzer_blits(&Some(BlitsView {
                hidden_above: 0,
                hidden_below: 0,
                rows,
                formula: "D = A".into(),
                detail: "copy".into(),
            })),
            AnalyzerTab::Resources => analyzer_resources(
                &Some(ResourcesView {
                    hidden_above: 0,
                    hidden_below: 0,
                    rows,
                    detail: true,
                }),
                10,
            ),
        };
        assert!(!sheet.pieces.is_empty());
        if tab == AnalyzerTab::Resources {
            let chosen: Vec<bool> = sheet
                .pieces
                .iter()
                .filter_map(|piece| match piece {
                    Piece::Row { selected, .. } => Some(*selected),
                    _ => None,
                })
                .collect();
            assert_eq!(chosen.iter().position(|on| *on), Some(resource));
        }
        assert_eq!(before, format!("{:?}", app.machine), "{tab:?}");
    }
}
