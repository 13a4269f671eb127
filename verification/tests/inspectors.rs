//! The inspectors of the debug workspace as the window drives them.

use copperline::actions::{Action, ActionStep};
use copperline::analyzer::analyzer_layout_rows;
use copperline::answers::ExecOutcome;
use copperline::app::{App, DebugTab};
use copperline::breaks::WatchAccess;
use copperline::command::parse_hex_pattern;
use copperline::console::Ask;
use copperline::controls::{AudioExtraKind, ControlStep, UiControl};
use copperline::desk::ToolPanelKind;
use copperline::effects::Effect;
use copperline::inspector_keys::{
    analyzer_shortcuts, console_keys, console_submission, memory_left, shortcuts, unique_actions,
    InspectorKey, KeyDown, KeyFocus, ShortcutStep,
};
use copperline::machine::{BusTrace, Machine};
use copperline::memedit::{
    memory_click, memory_edit_keys, MemColumn, MemCursor, MemEvent, MemPage,
};
use copperline::memory::Region;
use copperline::sheets::{mode_switch, tool_tab, tool_tab_clicked, TabLook};
use copperline::workspace::{host_shortcut_reaches_main, HostKey, HostModifiers};

const ROM_BASE: u32 = 0xF80000;
const MASK: u32 = 0x00FF_FFFF;

fn test_app() -> App {
    let mut machine = Machine::new(MASK);
    machine.memory.regions.push(Region {
        base: 0,
        bytes: vec![0; 0x80000],
        writable: true,
    });
    machine.memory.regions.push(Region {
        base: ROM_BASE,
        bytes: vec![0x4E; 0x80000],
        writable: false,
    });
    machine.searchable.push((0, 0x80000));
    App::new(machine, true)
}

fn analyzer_app() -> App {
    let mut app = test_app();
    app.open_frame_analyzer();
    app.machine.frames = 1;
    app.machine.trace = Some(BusTrace {
        cols: 227,
        rows: 313,
        nominal_rows: 313,
        frame: 1,
        blits: vec![],
    });
    app.machine.resources = vec![0x30000, 0x20000, 0x40000];
    for i in 0..20 {
        app.machine.resources.push(0x31000 + i * 16);
    }
    app
}

/// What running the machine or writing to it would change.
fn state(app: &App) -> String {
    let m = &app.machine;
    format!(
        "{:?} {:?} {:?} {:?}",
        m.regs,
        (m.stopped, m.double_faulted, m.vpos, m.hpos, m.frames, m.retired),
        m.copper,
        m.memory
    )
}

fn close_all_inspectors(app: &mut App) {
    for kind in ToolPanelKind::all() {
        app.close_tool_panel(kind);
    }
}

/// Carries an action out, playing the host: a step retires an instruction.
fn act(app: &mut App, action: Action) {
    let step = app.apply_egui_debugger_action(&action);
    finish(app, step);
}

fn finish(app: &mut App, step: ActionStep) {
    if let ActionStep::Console {
        lines,
        next,
        mut ask,
    } = step
    {
        let mut from = next;
        loop {
            let answer = match &ask {
                Ask::Step(count) => {
                    app.machine.retired += *count;
                    app.console_exec_done(
                        &ask,
                        &ExecOutcome::Ran {
                            reached: true,
                            stop: None,
                        },
                    )
                }
                _ => vec![],
            };
            app.console_apply(&answer, false, false);
            match app.console_batch(&lines, from) {
                (at, Some(more)) => {
                    from = at;
                    ask = more;
                }
                (_, None) => break,
            }
        }
    }
}

fn key(key: InspectorKey) -> Vec<KeyDown> {
    vec![KeyDown {
        key,
        repeat: false,
        plain: true,
    }]
}

const FREE: KeyFocus = KeyFocus {
    text: false,
    modified: false,
};

fn page(app: &App, base: u32) -> MemPage {
    MemPage {
        base,
        bytes: app.machine.memory.read(base, 256),
        mask: MASK,
    }
}

#[test]
fn both_inspectors_share_one_window_and_restore_the_same_run_state() {
    for analyzer_first in [false, true] {
        for initially_paused in [false, true] {
            let mut app = test_app();
            app.session.paused = initially_paused;
            let first = if analyzer_first {
                ToolPanelKind::FrameAnalyzer
            } else {
                ToolPanelKind::Debugger
            };
            let second = if analyzer_first {
                ToolPanelKind::Debugger
            } else {
                ToolPanelKind::FrameAnalyzer
            };
            act(&mut app, Action::SelectTool(first));
            assert!(app.session.paused);
            assert!(app.desk.layout_active);
            act(&mut app, Action::SelectTool(second));
            assert_eq!(app.desk.selected, second);
            assert_eq!(app.desk.topmost_tool_panel(), Some(second));
            assert!(app.session.paused);
            app.close_tool_panel(first);
            assert!(
                app.session.paused,
                "closing one inspector leaves the other paused"
            );
            assert!(app.desk.layout_active);
            close_all_inspectors(&mut app);
            assert_eq!(app.session.paused, initially_paused);
            assert!(!app.desk.layout_active);
        }
    }
}

#[test]
fn console_shares_the_workspace_in_every_open_and_close_order() {
    for first in ToolPanelKind::all() {
        for second in ToolPanelKind::all() {
            if first == second {
                continue;
            }
            let third = ToolPanelKind::all()
                .into_iter()
                .find(|k| *k != first && *k != second)
                .unwrap();
            for initially_paused in [false, true] {
                for close_first in ToolPanelKind::all() {
                    let mut app = test_app();
                    app.session.paused = initially_paused;
                    for kind in [first, second, third] {
                        act(&mut app, Action::SelectTool(kind));
                        assert!(app.session.paused);
                        assert_eq!(app.desk.topmost_tool_panel(), Some(kind));
                    }
                    assert!(app.desk.layout_active);
                    app.close_tool_panel(close_first);
                    assert!(app.session.paused);
                    assert!(app.desk.tool_panel_is_open(app.desk.selected));
                    close_all_inspectors(&mut app);
                    assert_eq!(app.session.paused, initially_paused);
                    assert!(!app.desk.egui_workspace_open());
                }
            }
        }
    }
    let mut app = analyzer_app();
    app.open_console();
    act(&mut app, Action::ConsoleSubmit("RUN".into()));
    app.open_debugger();
    assert!(!app.session.paused);
    app.close_tool_panel(ToolPanelKind::Console);
    assert!(!app.session.paused);
    app.open_console();
    act(&mut app, Action::ConsoleSubmit("PAUSE\nCLOSE\nRUN".into()));
    assert!(app.console.is_none(), "CLOSE ends the submitted batch");
    close_all_inspectors(&mut app);
    assert!(
        app.session.paused,
        "the last explicit pause survives closing every inspector"
    );
}

#[test]
fn switching_inspectors_preserves_capture_selection_and_explicit_run_pause() {
    let mut app = analyzer_app();
    app.analyzer.as_mut().unwrap().selected_hpos = 90;
    let trace = app.machine.trace.as_ref().unwrap().frame;
    let retired = app.machine.retired;
    app.frame_analyzer_toggle_run();
    assert!(!app.session.paused);
    app.open_debugger();
    assert!(
        !app.session.paused,
        "switching tools must not pause a running capture"
    );
    app.open_frame_analyzer();
    assert_eq!(app.analyzer.as_ref().unwrap().selected_hpos, 90);
    assert_eq!(app.machine.trace.as_ref().unwrap().frame, trace);
    assert_eq!(app.machine.retired, retired);
    app.debugger_toggle_run();
    assert!(app.session.paused);
    close_all_inspectors(&mut app);
    assert!(
        app.session.paused,
        "an explicit Pause survives closing the shared window"
    );
}

#[test]
fn the_tab_strip_reports_open_and_capturing_per_inspector() {
    let mut app = test_app();
    let closed = app.egui_tool_tab_states();
    assert!(
        closed.iter().all(|state| !state.open && !state.capturing),
        "nothing is open on a fresh machine"
    );

    app.open_frame_analyzer();
    app.open_debugger();
    let states = app.egui_tool_tab_states();
    assert!(states[ToolPanelKind::Debugger as usize].open);
    assert!(states[ToolPanelKind::Debugger as usize].capturing);
    assert!(states[ToolPanelKind::FrameAnalyzer as usize].open);
    assert!(states[ToolPanelKind::FrameAnalyzer as usize].capturing);
    assert!(
        !states[ToolPanelKind::Console as usize].open,
        "the console was never opened"
    );

    app.machine.analyzer_on = false;
    let states = app.egui_tool_tab_states();
    assert!(states[ToolPanelKind::FrameAnalyzer as usize].open);
    assert!(!states[ToolPanelKind::FrameAnalyzer as usize].capturing);
}

#[test]
fn analyzer_navigation_pins_addresses_without_changing_the_capture_or_machine() {
    let mut app = analyzer_app();
    app.open_console();
    app.console.as_mut().unwrap().input = "status".into();
    let capture = app.machine.trace.as_ref().unwrap().frame;
    let selection = app.analyzer.as_ref().unwrap().selected_hpos;
    let before = state(&app);
    for (tab, address) in [
        (DebugTab::Cpu, 0x121),
        (DebugTab::Memory, 0x135),
        (DebugTab::Copper, 0x200),
    ] {
        act(&mut app, Action::Navigate(tab, address));
        assert_eq!(app.desk.selected, ToolPanelKind::Debugger);
        let panel = app.debugger.as_ref().unwrap();
        assert_eq!(panel.tab, tab);
        match tab {
            DebugTab::Cpu => assert_eq!(panel.disasm_addr, Some(0x120)),
            DebugTab::Memory => assert_eq!(panel.mem_addr, 0x130),
            DebugTab::Copper => assert_eq!(panel.copper_addr, Some(0x200)),
            _ => unreachable!(),
        }
        app.open_frame_analyzer();
        assert_eq!(app.analyzer.as_ref().unwrap().selected_hpos, selection);
        assert_eq!(app.machine.trace.as_ref().unwrap().frame, capture);
        assert_eq!(before, state(&app));
    }
    assert_eq!(app.console.as_ref().unwrap().input, "status");
}

#[test]
fn address_submission_register_edits_and_cpu_memory_paging_reuse_machine_actions() {
    let mut app = test_app();
    app.open_debugger();
    app.debugger.as_mut().unwrap().entry = "D0 12345678".into();
    act(&mut app, Action::Control(UiControl::DebugPoke));
    assert_eq!(app.machine.regs[0], 0x12345678);
    app.debugger.as_mut().unwrap().entry = "F80020".into();
    act(&mut app, Action::SubmitEntry);
    assert_eq!(app.debugger.as_ref().unwrap().disasm_addr, Some(0xF80020));
    let machine = state(&app);
    act(&mut app, Action::FollowPc);
    assert_eq!(app.debugger.as_ref().unwrap().disasm_addr, None);
    assert_eq!(state(&app), machine);
    app.debugger.as_mut().unwrap().mem_view_bits = true;
    app.debugger.as_mut().unwrap().mem_addr = 0;
    act(&mut app, Action::MemoryScroll(16));
    let panel = app.debugger.as_ref().unwrap();
    assert_eq!(
        panel.mem_addr, 256,
        "CPU memory always pages hex bytes, even after visiting Bits"
    );
    assert_eq!(panel.tab, DebugTab::Cpu);
    assert!(panel.mem_view_bits);
}

#[test]
fn memory_tab_edits_bytes_in_place_through_the_bus() {
    let mut app = test_app();
    app.open_debugger();
    {
        let panel = app.debugger.as_mut().unwrap();
        panel.tab = DebugTab::Memory;
        panel.mem_addr = 0x60000;
    }
    let shown = page(&app, 0x60000);
    assert_eq!(shown.base, 0x60000);
    assert_eq!(shown.bytes.len(), 256);
    assert!(
        (0x60000..0x60100).all(|a| app.machine.memory.writable_at(a)),
        "chip RAM is editable"
    );
    let original = shown.bytes[3];
    let retired = app.machine.retired;

    let panel = app.debugger.as_mut().unwrap();
    assert_eq!(
        memory_click(&mut panel.mem_edit, 0x60003, MemColumn::Hex, true),
        None
    );
    assert_eq!(
        panel.mem_edit.cursor,
        Some(MemCursor::new(0x60003, MemColumn::Hex))
    );
    assert_eq!(
        shortcuts(panel, true, FREE, &key(InspectorKey::C)),
        ShortcutStep::EditMemory
    );
    let done = memory_edit_keys(
        &mut panel.mem_edit,
        &shown,
        &vec![MemEvent::Other, MemEvent::Typed('c')],
    );
    assert!(done.commit.is_empty());
    assert_eq!(done.scroll_rows, 0);
    assert_eq!(
        panel.mem_edit.mem_pending_value(0x60003),
        Some(0xC0 | (original & 0x0F))
    );
    assert!(!panel.mem_edit.cursor.unwrap().high_nibble);
    assert_eq!(
        shortcuts(panel, true, FREE, &key(InspectorKey::F)),
        ShortcutStep::EditMemory
    );
    let done = memory_edit_keys(&mut panel.mem_edit, &shown, &vec![MemEvent::Typed('F')]);
    assert!(done.commit.is_empty());
    assert_eq!(panel.mem_edit.pending, vec![(0x60003, 0xCF)]);
    assert_eq!(
        panel.mem_edit.cursor,
        Some(MemCursor::new(0x60004, MemColumn::Hex)),
        "a completed byte advances the cursor"
    );
    assert_eq!(
        app.machine.memory.read(0x60003, 1),
        vec![original],
        "staged edits do not touch memory"
    );
    let panel = app.debugger.as_mut().unwrap();
    let done = memory_edit_keys(&mut panel.mem_edit, &shown, &vec![MemEvent::Enter]);
    assert_eq!(done.commit, vec![(0x60003, 0xCF)]);
    assert!(panel.mem_edit.cursor.is_none());
    assert!(panel.mem_edit.pending.is_empty());
    act(&mut app, Action::MemoryCommit(done.commit));
    assert_eq!(app.machine.memory.peek_word(0x60002) & 0xFF, 0xCF);
    assert_eq!(app.machine.memory.read(0x60003, 1), vec![0xCF]);
    assert_eq!(app.machine.retired, retired, "no timeline side effects");
    assert!(app.session.paused);
    let status = app.debugger.as_ref().unwrap().mem_status.as_deref();
    assert_eq!(status, Some("Wrote 1 byte at $060003"));

    let shown = page(&app, 0x60000);
    let panel = app.debugger.as_mut().unwrap();
    assert_eq!(
        memory_click(&mut panel.mem_edit, 0x60005, MemColumn::Ascii, true),
        None
    );
    let done = memory_edit_keys(&mut panel.mem_edit, &shown, &vec![MemEvent::Typed('Z')]);
    assert!(done.commit.is_empty());
    assert_eq!(panel.mem_edit.pending, vec![(0x60005, b'Z')]);
    assert_eq!(
        panel.mem_edit.cursor,
        Some(MemCursor::new(0x60006, MemColumn::Ascii))
    );
    let left = memory_left(panel, false, true, false);
    assert_eq!(left, Some(Action::MemoryCommit(vec![(0x60005, b'Z')])));
    assert!(panel.mem_edit.cursor.is_none());
    act(&mut app, left.unwrap());
    assert_eq!(app.machine.memory.read(0x60005, 1), vec![b'Z']);

    let shown = page(&app, 0x60000);
    let before = state(&app);
    let panel = app.debugger.as_mut().unwrap();
    memory_click(&mut panel.mem_edit, 0x60008, MemColumn::Hex, true);
    memory_edit_keys(&mut panel.mem_edit, &shown, &vec![MemEvent::Typed('1')]);
    assert_eq!(panel.mem_edit.pending.len(), 1);
    assert_eq!(
        shortcuts(panel, true, FREE, &key(InspectorKey::Escape)),
        ShortcutStep::EditMemory,
        "Esc while editing must not leave Debug"
    );
    let done = memory_edit_keys(&mut panel.mem_edit, &shown, &vec![MemEvent::Escape]);
    assert!(done.commit.is_empty());
    assert!(panel.mem_edit.cursor.is_none());
    assert!(panel.mem_edit.pending.is_empty());
    assert_eq!(state(&app), before);
}

#[test]
fn memory_edit_cursor_keys_follow_the_page_and_refuse_rom() {
    let mut app = test_app();
    app.open_debugger();
    {
        let panel = app.debugger.as_mut().unwrap();
        panel.tab = DebugTab::Memory;
        panel.mem_addr = 0x60000;
    }
    let shown = page(&app, 0x60000);
    let panel = app.debugger.as_mut().unwrap();
    memory_click(&mut panel.mem_edit, 0x60000, MemColumn::Hex, true);
    let done = memory_edit_keys(&mut panel.mem_edit, &shown, &vec![MemEvent::Up]);
    assert_eq!(done.scroll_rows, -1);
    assert_eq!(panel.mem_edit.cursor.unwrap().addr, 0x5FFF0);
    panel.mem_edit.cursor = Some(MemCursor::new(0x60010, MemColumn::Hex));
    let done = memory_edit_keys(
        &mut panel.mem_edit,
        &shown,
        &vec![MemEvent::Right, MemEvent::Down],
    );
    assert_eq!(done.scroll_rows, 0);
    assert_eq!(panel.mem_edit.cursor.unwrap().addr, 0x60021);
    panel.mem_edit.cursor = Some(MemCursor::new(0x600FF, MemColumn::Ascii));
    let done = memory_edit_keys(&mut panel.mem_edit, &shown, &vec![MemEvent::Right]);
    assert_eq!(done.scroll_rows, 1);
    assert_eq!(panel.mem_edit.cursor.unwrap().addr, 0x60100);
    panel.mem_edit.cursor = Some(MemCursor::new(0x60040, MemColumn::Hex));
    let done = memory_edit_keys(&mut panel.mem_edit, &shown, &vec![MemEvent::PageDown]);
    assert_eq!(done.scroll_rows, 16);
    assert_eq!(panel.mem_edit.cursor.unwrap().addr, 0x60140);
    act(&mut app, Action::MemoryScroll(done.scroll_rows as i32));
    assert_eq!(app.debugger.as_ref().unwrap().mem_addr, 0x60100);

    let writable = app.machine.memory.writable_at(ROM_BASE + 4);
    assert!((ROM_BASE..ROM_BASE + 256).all(|a| !app.machine.memory.writable_at(a)));
    let panel = app.debugger.as_mut().unwrap();
    panel.mem_edit.mem_edit_cancel();
    panel.mem_addr = ROM_BASE;
    panel.mem_status = memory_click(&mut panel.mem_edit, ROM_BASE + 4, MemColumn::Hex, writable);
    assert!(panel.mem_edit.cursor.is_none());
    assert_eq!(
        panel.mem_status.as_deref(),
        Some("$F80004 is read-only (ROM or a device window); not editable")
    );
    assert_eq!(
        shortcuts(panel, true, FREE, &key(InspectorKey::PageDown)),
        ShortcutStep::Act(vec![Action::MemoryScroll(16)])
    );
}

#[test]
fn memory_tab_commit_matches_the_control_protocol_write() {
    let mut gui = test_app();
    gui.open_debugger();
    gui.machine
        .toggle_watch(0x60010, None, None, WatchAccess::Write);
    let mut ccp = test_app();
    ccp.open_debugger();
    ccp.machine
        .toggle_watch(0x60010, None, None, WatchAccess::Write);
    assert_eq!(gui.machine, ccp.machine);

    act(
        &mut gui,
        Action::MemoryCommit(vec![(0x60010, 0x42), (0x60011, 0x43), (ROM_BASE, 0xFF)]),
    );
    assert!(ccp.machine.memory.write(0x60010, 0x42));
    assert!(ccp.machine.memory.write(0x60011, 0x43));
    assert!(!ccp.machine.memory.write(ROM_BASE, 0xFF));
    ccp.machine.rebaseline_watches();

    assert_eq!(gui.machine.memory.peek_word(0x60010), 0x4243);
    assert_eq!(
        gui.machine.breaks.watches[0].last, 0x4243,
        "the poke itself must not trip the watch"
    );
    assert_eq!(gui.machine, ccp.machine);
    assert_eq!(
        gui.debugger.as_ref().unwrap().mem_status.as_deref(),
        Some("Wrote 2 of 3 bytes; $F80000 is not writable RAM")
    );
}

#[test]
fn text_editing_and_clipboard_shortcuts_do_not_step_the_machine() {
    let mut app = test_app();
    app.open_debugger();
    let panel = app.debugger.as_mut().unwrap();
    panel.entry = "s\u{e9}\u{8def}".into();
    let typing = KeyFocus {
        text: true,
        modified: false,
    };
    assert_eq!(
        shortcuts(panel, false, typing, &key(InspectorKey::S)),
        ShortcutStep::Act(vec![])
    );
    assert_eq!(panel.entry, "s\u{e9}\u{8def}");
    assert!(
        parse_hex_pattern(&[panel.entry.chars().collect()]).is_none(),
        "non-ASCII input must be rejected without slicing inside UTF-8"
    );
    let command = KeyFocus {
        text: false,
        modified: true,
    };
    assert_eq!(
        shortcuts(panel, false, command, &key(InspectorKey::C)),
        ShortcutStep::Act(vec![]),
        "copy must not Copper-step"
    );
}

#[test]
fn step_shortcut_dispatches_once_through_the_existing_debugger() {
    let mut app = test_app();
    app.open_debugger();
    let panel = app.debugger.as_ref().unwrap();
    let before = app.machine.retired;
    let actions = match shortcuts(panel, false, FREE, &key(InspectorKey::S)) {
        ShortcutStep::Act(actions) => actions,
        other => panic!("{other:?}"),
    };
    assert_eq!(actions, [Action::Control(UiControl::DebugStep)]);
    for action in actions {
        // The host retires an instruction for each step it is asked for.
        if app.apply_egui_debugger_action(&action) == ActionStep::Host {
            app.machine.retired += 1;
        }
    }
    assert_eq!(app.machine.retired, before + 1);
}

#[test]
fn console_batches_preserve_case_and_ignore_blank_lines() {
    let mut app = test_app();
    app.open_console();
    act(&mut app, Action::ConsoleSubmit("b $c01000".into()));
    assert!(app.machine.breaks.is_breakpoint(0x00C0_1000));
    assert!(app.console.as_ref().unwrap().input.is_empty());
    act(
        &mut app,
        Action::ConsoleSubmit("btrap 100 40\n\nsetreg d2 77\nm 0".into()),
    );
    assert_eq!(app.machine.beam_traps.len(), 1);
    assert_eq!(app.machine.regs[2], 0x77);
    assert_eq!(
        app.console.as_ref().unwrap().history,
        ["b $c01000", "btrap 100 40", "setreg d2 77", "m 0"]
    );
    assert!(app.console.as_ref().unwrap().input.is_empty());
}

#[test]
fn console_submission_survives_a_failed_presentation_without_repeating() {
    let mut app = test_app();
    app.open_console();
    let panel = app.console.as_mut().unwrap();
    panel.input = "step".into();
    let keys = console_keys(&key(InspectorKey::Enter), true, true);
    assert!(keys.submit);
    let actions = vec![console_submission(panel, keys.submit).unwrap()];
    let before = app.machine.retired;
    let (next, step) = app.dispatch_egui_frame(&actions, 0);
    assert_eq!(next, 1);
    finish(&mut app, step);
    assert_eq!(app.machine.retired, before + 1);
    assert_eq!(app.console.as_ref().unwrap().history, ["step"]);
    let panel = app.console.as_mut().unwrap();
    let keys = console_keys(&vec![], true, true);
    assert_eq!(console_submission(panel, keys.submit), None);
    let (next, step) = app.dispatch_egui_frame(&vec![], 0);
    assert_eq!((next, step), (0, ActionStep::Done));
    assert_eq!(app.machine.retired, before + 1);
}

#[test]
fn console_paste_history_and_execution_are_separate_from_layout() {
    let mut app = test_app();
    app.open_console();
    let before = state(&app);
    let panel = app.console.as_mut().unwrap();
    panel.input = "status\nstep".into();
    let shifted = vec![KeyDown {
        key: InspectorKey::Enter,
        repeat: false,
        plain: false,
    }];
    assert!(
        !console_keys(&shifted, true, true).submit,
        "Shift+Enter belongs to the editor"
    );
    panel.input.push('\n');
    let submit = console_keys(&key(InspectorKey::Enter), true, true).submit;
    let action = console_submission(panel, submit);
    assert_eq!(action, Some(Action::ConsoleSubmit("status\nstep\n".into())));
    assert!(panel.input.is_empty());
    assert_eq!(before, state(&app), "layout cannot execute commands");
    let retired = app.machine.retired;
    act(&mut app, action.unwrap());
    assert_eq!(app.machine.retired, retired + 1);
    let panel = app.console.as_mut().unwrap();
    assert_eq!(panel.history, ["status", "step"]);
    for (key_name, expected) in [
        (InspectorKey::Up, "step"),
        (InspectorKey::Up, "status"),
        (InspectorKey::Down, "step"),
    ] {
        let keys = console_keys(&key(key_name), true, true);
        assert!(keys.older != keys.newer);
        panel.history_step(keys.older);
        assert_eq!(panel.input, expected);
    }
}

#[test]
fn analyzer_shortcuts_capture_once_and_pickers_track_resized_images() {
    let mut app = analyzer_app();
    let actions = analyzer_shortcuts(FREE, &key(InspectorKey::F));
    assert_eq!(actions, [Action::AnalyzerKey(InspectorKey::F)]);
    let frame = app.machine.frames;
    if app.apply_egui_debugger_action(&actions[0]) == ActionStep::Host {
        app.machine.frames += 1;
    }
    assert_eq!(app.machine.frames, frame + 1);
    act(
        &mut app,
        Action::Analyzer(UiControl::AnalyzerPick {
            x: 768,
            y: 256,
            scanline: false,
        }),
    );
    let trace = app.machine.trace.as_ref().unwrap();
    let panel = app.analyzer.as_ref().unwrap();
    assert_eq!(panel.selected_hpos as u32, 768 * trace.cols / 1024);
    assert_eq!(panel.selected_vpos as u32, 256 * trace.rows / 1024);

    act(&mut app, Action::ResourceScroll(16));
    act(
        &mut app,
        Action::Analyzer(UiControl::AnalyzerResourceRow(0)),
    );
    let panel = app.analyzer.as_ref().unwrap();
    assert!(panel.resource_scroll > 0);
    assert_eq!(
        panel.resource_selected,
        Some(app.machine.resources[panel.resource_scroll])
    );
}

#[test]
fn the_list_of_resources_stays_on_its_rows() {
    let mut app = analyzer_app();
    assert_eq!(app.analyzer.as_ref().unwrap().resource_selected, None);
    app.frame_analyzer_select_resource(1);
    assert_eq!(
        app.analyzer.as_ref().unwrap().resource_selected,
        Some(0x20000)
    );
    app.frame_analyzer_scroll_resources(16);
    assert_eq!(app.analyzer.as_ref().unwrap().resource_scroll, 16);
    act(
        &mut app,
        Action::Analyzer(UiControl::AnalyzerResourceRow(2)),
    );
    assert_eq!(
        app.analyzer.as_ref().unwrap().resource_selected,
        Some(0x31000 + 15 * 16)
    );
    act(&mut app, Action::ResourceScroll(16));
    assert_eq!(app.analyzer.as_ref().unwrap().resource_scroll, 22);
    let selected = app.analyzer.as_ref().unwrap().resource_selected;
    act(
        &mut app,
        Action::Analyzer(UiControl::AnalyzerResourceRow(1)),
    );
    assert_eq!(
        app.analyzer.as_ref().unwrap().resource_selected,
        selected,
        "no resource stands in that row"
    );
    act(&mut app, Action::ResourceScroll(-100));
    assert_eq!(app.analyzer.as_ref().unwrap().resource_scroll, 0);
    app.machine.resources.clear();
    act(&mut app, Action::ResourceScroll(3));
    assert_eq!(app.analyzer.as_ref().unwrap().resource_scroll, 0);
}

#[test]
fn a_background_tabs_close_box_closes_that_inspector() {
    let mut app = test_app();
    app.open_console();
    app.open_debugger();
    let kind = ToolPanelKind::Console;
    let tab = app.egui_tool_tab_states()[kind as usize];
    let selected = app.desk.selected == kind;
    assert_eq!(tool_tab(tab, selected), TabLook::Open);
    let actions = tool_tab_clicked(kind, tab, selected, true, true);
    assert_eq!(
        actions,
        Some(Action::CloseTool(ToolPanelKind::Console)),
        "the cross closes its own tab, not the selected one, and does not \
         also select it"
    );

    // The body of the same tab selects it instead.
    let actions = tool_tab_clicked(kind, tab, selected, false, true);
    assert_eq!(actions, Some(Action::SelectTool(ToolPanelKind::Console)));

    act(&mut app, Action::CloseTool(kind));
    assert!(!app.desk.tool_panel_is_open(ToolPanelKind::Console));
    assert!(app.desk.tool_panel_is_open(ToolPanelKind::Debugger));
    assert_eq!(app.desk.selected, ToolPanelKind::Debugger);
    act(&mut app, Action::SelectTool(ToolPanelKind::Console));
    assert_eq!(app.desk.selected, ToolPanelKind::Console);
}

#[test]
fn a_closed_tab_has_no_close_box_and_opens_on_click() {
    let mut app = test_app();
    app.open_debugger();
    let kind = ToolPanelKind::FrameAnalyzer;
    let tab = app.egui_tool_tab_states()[kind as usize];
    assert_eq!(
        tool_tab_clicked(kind, tab, false, true, false),
        None,
        "a closed inspector draws no close box"
    );
    let actions = tool_tab_clicked(kind, tab, false, false, true);
    assert_eq!(
        actions,
        Some(Action::SelectTool(ToolPanelKind::FrameAnalyzer))
    );
    act(&mut app, Action::SelectTool(kind));
    assert!(app.egui_tool_tab_states()[kind as usize].open);
}

#[test]
fn the_mode_switch_returns_to_play_without_closing_anything() {
    let mut app = test_app();
    app.open_debugger();
    assert_eq!(mode_switch(false), None);
    let action = mode_switch(true);
    assert_eq!(action, Some(Action::CloseWorkspace));
    act(&mut app, action.unwrap());
    assert!(!app.desk.layout_active, "the layout went back to Play");
    assert!(
        app.debugger.is_some(),
        "the inspector is still open behind it"
    );
    assert!(app.machine.history_on, "and still capturing");
}

#[test]
fn play_and_debug_preserve_panels_capture_and_explicit_run_state() {
    let mut app = analyzer_app();
    app.open_console();
    app.console.as_mut().unwrap().input = "status".into();
    app.open_debugger();
    app.debugger.as_mut().unwrap().tab = DebugTab::Audio;
    app.analyzer.as_mut().unwrap().selected_hpos = 96;
    let capture = app.machine.trace.as_ref().unwrap().frame;
    for paused in [true, false] {
        app.session.paused = paused;
        let before = state(&app);
        for _ in 0..3 {
            act(&mut app, Action::CloseWorkspace);
            assert!(!app.desk.layout_active);
            assert!(app.desk.topmost_tool_panel().is_none());
            assert_eq!(app.session.paused, paused);
            app.toggle_debugger();
            assert!(app.desk.layout_active);
            assert_eq!(app.session.paused, paused);
            assert_eq!(app.debugger.as_ref().unwrap().tab, DebugTab::Audio);
            assert_eq!(app.console.as_ref().unwrap().input, "status");
            assert_eq!(app.analyzer.as_ref().unwrap().selected_hpos, 96);
            assert_eq!(app.machine.trace.as_ref().unwrap().frame, capture);
            assert_eq!(state(&app), before);
        }
    }
}

#[test]
fn debug_input_focus_blocks_guest_qualifiers_and_releases_held_input() {
    let mut app = test_app();
    app.guest.main_focused = true;
    app.open_debugger();
    let before = state(&app);
    assert!(!app.handle_raw_device_key_event(0x60, true));
    assert!(!app.guest.amiga_rawkey_held(0x60));
    assert_eq!(state(&app), before);
    app.capture_debug_guest_input();
    assert!(app.desk.guest_input);
    assert!(app.handle_raw_device_key_event(0x60, true));
    assert!(app.guest.amiga_rawkey_held(0x60));
    app.release_debug_guest_input();
    assert!(!app.desk.guest_input);
    assert!(!app.guest.amiga_rawkey_held(0x60));
    assert!(app.guest.device_held.iter().all(|held| !held));
    app.handle_raw_device_key_event(0x60, true);
    assert!(!app.guest.amiga_rawkey_held(0x60));
}

#[test]
fn a_machine_with_a_mouse_asks_for_it_and_may_be_refused() {
    let mut app = test_app();
    app.guest.mouse_port = true;
    app.open_debugger();
    app.ui.nav.showing = true;
    app.fx.take();
    app.capture_debug_guest_input();
    assert!(app.guest.mouse_captured && !app.ui.nav.showing);
    assert_eq!(
        app.fx.take(),
        vec![
            Effect::SurrenderFocus,
            Effect::CaptureMouse(true),
            Effect::Redraw
        ]
    );
    app.mouse_refused();
    assert!(!app.guest.mouse_captured && app.desk.guest_input);
}

#[test]
fn host_shortcuts_remain_available_without_stealing_text_edits() {
    for mac in [false, true] {
        let held = |host: bool, shift: bool| HostModifiers { host, shift, mac };
        let mut codes: Vec<HostKey> = "ABDEFJKMPQRSWZ".chars().map(HostKey::Letter).collect();
        codes.extend((0..=9).map(HostKey::Digit));
        for code in codes {
            for shift in [false, true] {
                assert!(
                    host_shortcut_reaches_main(code, held(true, shift), false),
                    "{code:?}"
                );
                let text_edit =
                    mac && matches!(code, HostKey::Letter('A') | HostKey::Letter('Z'));
                assert_eq!(
                    host_shortcut_reaches_main(code, held(true, shift), true),
                    !text_edit,
                    "{code:?}"
                );
            }
            assert!(!host_shortcut_reaches_main(code, held(false, false), false));
        }
        for code in [
            HostKey::Letter('L'),
            HostKey::Equal,
            HostKey::Minus,
            HostKey::Period,
            HostKey::Comma,
        ] {
            assert!(host_shortcut_reaches_main(code, held(true, true), false));
            assert!(!host_shortcut_reaches_main(code, held(true, false), false));
        }
        for code in [
            HostKey::Letter('C'),
            HostKey::Letter('V'),
            HostKey::Letter('X'),
            HostKey::Letter('Y'),
            HostKey::Other,
        ] {
            for editing in [true, false] {
                assert!(
                    !host_shortcut_reaches_main(code, held(true, false), editing),
                    "{code:?}"
                );
            }
        }
    }
}

#[test]
fn alternating_interlace_fields_do_not_resize_the_beam_diagram() {
    assert_eq!(
        analyzer_layout_rows(313, 312),
        analyzer_layout_rows(313, 313),
        "both fields of one interlaced frame lay out against the long one"
    );
    assert_eq!(
        analyzer_layout_rows(200, 200),
        200,
        "a programmable total is laid out as it stands, not rounded to a field"
    );
    let mut sizes = Vec::new();
    for rows in [313, 312, 313] {
        sizes.push(analyzer_layout_rows(313, rows));
    }
    assert!(
        sizes.iter().all(|size| *size == sizes[0]),
        "the diagram keeps its size as the fields alternate, got {sizes:?}"
    );
}

#[test]
fn a_frame_laid_out_twice_acts_once() {
    let step = || Action::Control(UiControl::DebugStep);
    assert_eq!(
        unique_actions(vec![step(), Action::FollowPc, step(), Action::FollowPc]),
        vec![step(), Action::FollowPc]
    );
    assert!(unique_actions(vec![]).is_empty());
}

#[test]
fn a_row_mutes_its_source_and_dead_space_redraws_nothing() {
    let mut app = test_app();
    app.mix.extras = vec![AudioExtraKind::Synth];
    app.fx.take();
    let mut used = |row: u8| {
        let step = app.activate_tool_control(
            ToolPanelKind::Debugger,
            UiControl::DebugAudioMute(row),
        );
        assert_eq!(step, ControlStep::Done);
        (app.fx.take(), app.mix.channels[2], app.mix.synth)
    };
    let said = |text: &str| vec![Effect::Osd(text.to_string()), Effect::Redraw];
    assert_eq!(used(2), (said("AUD2 muted"), true, false));
    assert_eq!(used(4), (said("MIDI synth muted"), true, true));
    assert_eq!(used(5), (vec![], true, true));
    assert_eq!(used(4), (said("MIDI synth unmuted"), true, false));
    assert_eq!(used(2), (said("AUD2 unmuted"), false, false));
}
