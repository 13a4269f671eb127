//! A GDB client that shares the window.

use copperline::app::App;
use copperline::breaks::{SavedWatch, WatchAccess};
use copperline::effects::Effect;
use copperline::gdb::{DebugStop, GdbConfig};
use copperline::gdb_breaks::{GdbBreaks, GdbCore};
use copperline::gdb_session::{CoreReply, GdbMsg, PacketStep, ProfileOutcome, StepOutcome};
use copperline::gdb_wire::{decode_qrcmd, hex_decode, repositions_machine};
use copperline::machine::Machine;
use copperline::memory::Region;
use copperline::text::{chars_of, string_of};
use copperline::warp::WarpSource;

fn machine() -> Machine {
    let mut machine = Machine::new(0x00FF_FFFF);
    machine.memory.regions.push(Region {
        base: 0,
        bytes: vec![0; 0x1000],
        writable: true,
    });
    machine
}

fn config(bartman: bool, stop: Option<&str>) -> GdbConfig {
    GdbConfig {
        bartman,
        stop_on_load: stop.map(str::to_string),
        reverse_budget_mb: 64,
        reverse_interval_frames: 25,
        watch_cap: 256,
    }
}

fn attached() -> App {
    let mut app = App::new(machine(), true);
    app.attach_gdb(&config(false, None));
    app
}

fn packet(text: &str) -> Effect<String> {
    Effect::GdbPacket(text.to_string())
}

fn console(text: &str) -> Effect<String> {
    Effect::GdbConsole(text.to_string())
}

fn hex_of(text: &str) -> String {
    text.bytes().map(|b| format!("{b:02x}")).collect()
}

#[test]
fn attaching_waits_only_for_a_bartman_client_with_a_target() {
    let app = attached();
    assert!(!app.session.paused);
    let mut app = App::new(machine(), true);
    app.attach_gdb(&config(true, None));
    assert!(!app.session.paused);
    app.attach_gdb(&config(true, Some("game")));
    assert!(app.session.paused);
    let gdb = app.gdb.as_ref().unwrap();
    assert_eq!(gdb.core.run_stop, Some("game".into()));
    assert!(!gdb.pending);
    assert_eq!(gdb.reverse_budget_mb, 64);
}

#[test]
fn packets_of_hexadecimal_text_are_decoded() {
    assert_eq!(hex_decode(&chars_of("4e75")), Some(vec![0x4E, 0x75]));
    assert_eq!(hex_decode(&chars_of("4e7")), None);
    assert_eq!(hex_decode(&chars_of("zz")), None);
    let packet = format!("qRcmd,{}", hex_of("warp on"));
    assert_eq!(
        decode_qrcmd(&chars_of(&packet)).map(|c| string_of(&c)),
        Some("warp on".to_string())
    );
    let packet = format!("qRcmd,{}", hex_of("h\u{e9}"));
    assert_eq!(
        decode_qrcmd(&chars_of(&packet)).map(|c| string_of(&c)),
        Some("h\u{e9}".to_string())
    );
    assert_eq!(decode_qrcmd(&chars_of("qRcmd,ff")), None);
    assert_eq!(decode_qrcmd(&chars_of("g")), None);
}

#[test]
fn packets_that_move_the_machine_are_told_apart() {
    for moves in ["bs", "bc", "P11=00000400"] {
        assert!(repositions_machine(&chars_of(moves)), "{moves}");
    }
    let reset = format!("qRcmd,{}", hex_of("reset"));
    assert!(repositions_machine(&chars_of(&reset)));
    for stays in ["g", "P1=0", "qOffsets"] {
        assert!(!repositions_machine(&chars_of(stays)), "{stays}");
    }
}

#[test]
fn the_clients_stops_are_installed_beside_the_users_and_withdrawn() {
    let mut store = machine().breaks;
    let memory = machine().memory;
    store.set_breakpoint(0x100, None, 0);
    let mut core = GdbCore::fresh(None, false, 256);
    core.breakpoints = vec![0x100, 0x200];
    core.watch_words = vec![(0x300, WatchAccess::Write)];
    core.reg_watches = vec![0x96];
    let mut breaks = GdbBreaks::new();
    let notes = breaks.sync(&mut store, &memory, &core);
    assert!(notes.is_empty());
    assert!(store.is_breakpoint(0x100));
    assert!(store.is_breakpoint(0x200));
    assert_eq!(
        store.watch_at(0x300),
        Some(SavedWatch {
            filter: None,
            pc: None,
            access: WatchAccess::Write
        })
    );
    assert_eq!(store.reg_watches, vec![0x96]);
    breaks.remove_all(&mut store, &memory);
    assert!(store.is_breakpoint(0x100), "the user's own breakpoint stays");
    assert!(!store.is_breakpoint(0x200));
    assert_eq!(store.watch_at(0x300), None);
    assert!(store.reg_watches.is_empty());
    assert_eq!(breaks, GdbBreaks::new());
}

#[test]
fn a_watch_of_the_users_is_widened_and_given_back() {
    let mut store = machine().breaks;
    let memory = machine().memory;
    let own = SavedWatch {
        filter: None,
        pc: None,
        access: WatchAccess::Write,
    };
    store.toggle_watch(0x300, own, 0);
    let mut core = GdbCore::fresh(None, false, 256);
    core.watch_words = vec![(0x300, WatchAccess::Read)];
    let mut breaks = GdbBreaks::new();
    breaks.sync(&mut store, &memory, &core);
    assert_eq!(
        store.watch_at(0x300).unwrap().access,
        WatchAccess::Access,
        "both see their accesses"
    );
    core.watch_words.clear();
    breaks.sync(&mut store, &memory, &core);
    assert_eq!(store.watch_at(0x300), Some(own));
}

#[test]
fn a_second_sync_with_nothing_changed_changes_nothing() {
    let mut store = machine().breaks;
    let memory = machine().memory;
    store.set_breakpoint(0x100, None, 0);
    let mut core = GdbCore::fresh(None, true, 256);
    core.breakpoints = vec![0x100, 0x200, 0x200];
    core.watch_words = vec![(0x300, WatchAccess::Write), (0x302, WatchAccess::Read)];
    core.reg_watches = vec![0x96];
    core.loadseg_break = true;
    core.truncated = true;
    let mut breaks = GdbBreaks::new();
    let first = breaks.sync(&mut store, &memory, &core);
    let seen = format!("{store:?} {breaks:?}");
    let second = breaks.sync(&mut store, &memory, &core);
    assert_eq!(first, second);
    assert_eq!(seen, format!("{store:?} {breaks:?}"));
}

#[test]
fn detaching_after_many_syncs_gives_the_users_stops_back() {
    let mut store = machine().breaks;
    let memory = machine().memory;
    let own = SavedWatch {
        filter: Some(1),
        pc: None,
        access: WatchAccess::Write,
    };
    store.set_breakpoint(0x100, None, 0);
    store.toggle_watch(0x300, own, 0);
    store.toggle_reg_watch(0x96);
    let before = format!("{store:?}");
    let mut breaks = GdbBreaks::new();
    let mut core = GdbCore::fresh(None, true, 256);
    core.breakpoints = vec![0x100, 0x200];
    core.watch_words = vec![(0x300, WatchAccess::Read), (0x400, WatchAccess::Write)];
    core.reg_watches = vec![0x96, 0x100];
    breaks.sync(&mut store, &memory, &core);
    core.breakpoints = vec![0x202];
    core.watch_words = vec![(0x300, WatchAccess::Write)];
    core.loadseg_break = true;
    breaks.sync(&mut store, &memory, &core);
    assert_eq!(store.watch_at(0x300).unwrap().access, WatchAccess::Write);
    core.watch_words.push((0x500, WatchAccess::Access));
    core.reg_watches = vec![0x102];
    core.loadseg_break = false;
    breaks.sync(&mut store, &memory, &core);
    assert!(!store.is_breakpoint(0x200) && store.is_breakpoint(0x202));
    breaks.remove_all(&mut store, &memory);
    assert_eq!(before, format!("{store:?}"));
    breaks.remove_all(&mut store, &memory);
    assert_eq!(before, format!("{store:?}"));
}

#[test]
fn messages_of_the_server_are_taken_in_order() {
    let mut app = attached();
    let msgs = vec![
        GdbMsg::Connected,
        GdbMsg::Packet("QStartNoAckMode".into()),
        GdbMsg::Packet("g".into()),
        GdbMsg::Interrupt,
        GdbMsg::Disconnected,
    ];
    assert_eq!(app.drain_gdb(&msgs, 0), (3, PacketStep::Handle));
    assert!(app.session.paused);
    let told = app.fx.take();
    assert!(told.contains(&Effect::Osd("GDB client attached".into())));
    assert_eq!(told.last(), Some(&packet("OK")));
    assert_eq!(app.drain_gdb(&msgs, 3), (5, PacketStep::Answered));
    let told = app.fx.take();
    assert!(told.contains(&Effect::Osd("GDB: interrupted".into())));
    assert!(told.contains(&Effect::Osd("GDB client detached".into())));
    let mut alone = App::new(machine(), true);
    assert_eq!(alone.drain_gdb(&msgs, 0), (5, PacketStep::Answered));
    assert!(alone.fx.take().is_empty() && !alone.session.paused);
}

#[test]
fn too_many_watched_words_are_noted() {
    let mut store = machine().breaks;
    let memory = machine().memory;
    let mut core = GdbCore::fresh(None, false, 4);
    core.truncated = true;
    let notes = GdbBreaks::new().sync(&mut store, &memory, &core);
    assert_eq!(
        notes,
        vec!["watchpoints cover more than 4 words; watching the first 4\n".to_string()]
    );
}

#[test]
fn a_continue_is_answered_once_by_the_stop() {
    let mut app = attached();
    app.gdb.as_mut().unwrap().pending = true;
    assert!(app.gdb_resume_pending());
    assert!(app.remote_resume_pending());
    app.fx.take();
    assert!(app.gdb_completes_stop(&DebugStop::Breakpoint));
    assert!(app
        .fx
        .take()
        .contains(&packet("T05hwbreak:;thread:1;")));
    assert!(!app.gdb_completes_stop(&DebugStop::Breakpoint));
    assert!(app.fx.take().is_empty());
}

#[test]
fn stops_are_worded_for_each_kind_of_client() {
    let mut app = attached();
    assert_eq!(
        app.gdb_map_stop(&DebugStop::Watch {
            addr: 0x304,
            access: WatchAccess::Read
        }),
        "T05rwatch:304;thread:1;"
    );
    app.gdb.as_mut().unwrap().core.watch_words = vec![(0x304, WatchAccess::Access)];
    assert_eq!(
        app.gdb_map_stop(&DebugStop::Watch {
            addr: 0x304,
            access: WatchAccess::Read
        }),
        "T05awatch:304;thread:1;"
    );
    assert_eq!(
        app.gdb_map_stop(&DebugStop::Exception { vector: 4 }),
        "T05thread:1;"
    );
    assert_eq!(app.gdb_map_stop(&DebugStop::Other), "T05thread:1;");
    let mut app = App::new(machine(), true);
    app.attach_gdb(&config(true, Some("Game")));
    assert_eq!(app.gdb_map_stop(&DebugStop::Breakpoint), "S05");
    assert_eq!(
        app.gdb_map_stop(&DebugStop::Exception { vector: 3 }),
        "S0A"
    );
    assert_eq!(
        app.gdb_map_stop(&DebugStop::Exception { vector: 4 }),
        "S04"
    );
    assert_eq!(
        app.gdb_map_stop(&DebugStop::LoadSeg {
            name: "GAME".into(),
            addr: 0x2000
        }),
        "S05"
    );
    let gdb = app.gdb.as_ref().unwrap();
    assert_eq!(gdb.core.run_stop, None, "the awaited load is told once");
    assert_eq!(
        gdb.core.console,
        vec![
            "run target loaded: GAME first hunk $002000 (monitor segments / add-symbol-file FILE 0x2000)\n"
        ]
    );
}

#[test]
fn connecting_pauses_and_arms_the_history() {
    let mut app = attached();
    app.gdb_on_connected();
    assert!(app.session.paused);
    let asked = app.fx.take();
    assert!(asked.contains(&Effect::ArmTimeTravel {
        budget_mb: 64,
        interval_frames: 25
    }));
    assert!(asked.contains(&Effect::Osd("GDB client attached".into())));
}

#[test]
fn an_interrupt_ends_the_continue() {
    let mut app = attached();
    app.session.paused = false;
    app.gdb.as_mut().unwrap().pending = true;
    app.fx.take();
    app.gdb_on_interrupt();
    assert!(app.session.paused);
    assert!(!app.gdb_resume_pending());
    assert_eq!(app.last_debug_stop, Some("interrupted by gdb".into()));
    let asked = app.fx.take();
    assert!(asked.contains(&Effect::Osd("GDB: interrupted".into())));
    assert!(asked
        .iter()
        .any(|e| matches!(e, Effect::GdbPacket(_))));
}

#[test]
fn monitor_commands_of_the_window_are_its_own() {
    let mut app = attached();
    app.lexicon.registers.push((0x96, "DMACON".into()));
    let monitor = |app: &mut App, line: &str| app.gdb_monitor_intercept(&chars_of(line));
    assert_eq!(
        monitor(&mut app, "warp"),
        Some("warp off (paced)\n".into())
    );
    assert_eq!(
        monitor(&mut app, "warp on"),
        Some("warp on (emulation unpaced)\n".into())
    );
    assert!(app.session.holds.contains(WarpSource::Gdb));
    assert_eq!(
        monitor(&mut app, "warp status"),
        Some("warp on (unpaced) (held by gdb client)\n".into())
    );
    assert_eq!(
        monitor(&mut app, "warp off"),
        Some("warp off (real-time pacing)\n".into())
    );
    assert!(app.session.paced);
    assert_eq!(
        monitor(&mut app, "warp sideways"),
        Some("usage: monitor warp on|off|status\n".into())
    );
    assert_eq!(
        monitor(&mut app, "watch-reg dmacon"),
        Some("watching DMACON $096\n".into())
    );
    assert_eq!(app.gdb.as_ref().unwrap().core.reg_watches, vec![0x96]);
    assert_eq!(
        monitor(&mut app, "unwatch-reg 96"),
        Some("not watching DMACON $096\n".into())
    );
    assert_eq!(
        monitor(&mut app, "watch-reg"),
        Some("usage: monitor watch-reg NAME|OFFSET\n".into())
    );
    assert_eq!(
        monitor(&mut app, "watch-reg nosuch"),
        Some("unknown custom register nosuch\n".into())
    );
    assert_eq!(
        monitor(&mut app, "clear-reg-watches"),
        Some("cleared custom-register watches\n".into())
    );
    assert_eq!(monitor(&mut app, "regs"), None);
    assert_eq!(monitor(&mut app, ""), None);
}

#[test]
fn packets_are_answered_here_or_handed_on() {
    let mut app = attached();
    app.fx.take();
    assert_eq!(app.gdb_on_packet("QStartNoAckMode"), PacketStep::Answered);
    assert_eq!(app.fx.take(), vec![packet("OK")]);
    let warp = format!("qRcmd,{}", hex_of("warp status"));
    assert_eq!(app.gdb_on_packet(&warp), PacketStep::Answered);
    assert_eq!(
        app.fx.take(),
        vec![console("warp off (paced)\n"), packet("OK")]
    );
    assert_eq!(app.gdb_on_packet("g"), PacketStep::Handle);
    app.session.control_pending = true;
    assert_eq!(app.gdb_on_packet("bs"), PacketStep::Answered);
    assert_eq!(
        app.fx.take(),
        vec![
            console("machine is running (a control client resume is pending); pause first\n"),
            packet("E01")
        ]
    );
}

#[test]
fn replies_of_the_protocol_become_what_they_ask_for() {
    let mut app = attached();
    app.session.paused = true;
    app.fx.take();
    assert_eq!(
        app.gdb_on_result("m0,4", CoreReply::Packet("00000000".into())),
        PacketStep::Answered
    );
    assert!(app.fx.take().contains(&packet("00000000")));
    assert_eq!(
        app.gdb_on_result("s", CoreReply::Step),
        PacketStep::Step
    );
    assert_eq!(
        app.gdb_on_result("c", CoreReply::Continue),
        PacketStep::Answered
    );
    assert!(app.gdb_resume_pending());
    assert!(!app.session.paused);
    assert_eq!(
        app.gdb_on_result("k", CoreReply::Kill),
        PacketStep::Answered
    );
    assert!(!app.gdb_resume_pending());
    assert!(app
        .fx
        .take()
        .contains(&Effect::GdbDisconnect("kill request".into())));
}

#[test]
fn a_machine_that_cannot_run_is_not_continued() {
    let mut app = attached();
    app.session.powered_on = false;
    app.fx.take();
    app.gdb_on_result("c", CoreReply::Continue);
    assert!(!app.gdb_resume_pending());
    assert_eq!(
        app.fx.take(),
        vec![console("machine is powered off\n"), packet("E01")]
    );
    let mut app = attached();
    app.machine.double_faulted = true;
    app.fx.take();
    app.gdb_on_result("c", CoreReply::Continue);
    assert_eq!(
        app.fx.take(),
        vec![
            console("CPU is double-faulted; reset the machine\n"),
            packet("E01")
        ]
    );
}

#[test]
fn profiles_and_steps_are_reported() {
    let mut app = attached();
    app.fx.take();
    app.gdb_profile_done(&ProfileOutcome::Failed("no space".into()));
    assert_eq!(
        app.fx.take(),
        vec![
            console("DBG: no space\n"),
            packet("E01"),
            Effect::FinishRender,
            Effect::Redraw
        ]
    );
    app.gdb_profile_done(&ProfileOutcome::Captured);
    assert_eq!(
        app.fx.take(),
        vec![packet("OK"), Effect::FinishRender, Effect::Redraw]
    );
    app.gdb_step_begin();
    app.fx.take();
    app.gdb_step_done(&StepOutcome::Ran(None));
    assert!(app.fx.take().contains(&packet("T05thread:1;")));
}

#[test]
fn detaching_leaves_nothing_of_the_clients_behind() {
    let mut app = attached();
    app.gdb_monitor_intercept(&chars_of("warp on"));
    app.gdb.as_mut().unwrap().core.breakpoints = vec![0x200];
    app.gdb_sync_machine_debug_state();
    assert!(app.machine.breaks.is_breakpoint(0x200));
    app.gdb_detach_cleanup("GDB client gone");
    assert!(!app.machine.breaks.is_breakpoint(0x200));
    assert!(app.session.paced, "its hold on warp is gone too");
    let before = app.machine.breaks.breakpoints.len();
    app.gdb_detach_cleanup("again");
    assert_eq!(app.machine.breaks.breakpoints.len(), before);
}

#[test]
fn log_lines_are_marked_for_a_bartman_client() {
    let mut app = attached();
    app.fx.take();
    app.gdb_log_lines(&["one".to_string()]);
    assert!(app.fx.take().is_empty());
    app.attach_gdb(&config(true, None));
    app.gdb_log_lines(&["one\ntwo".to_string(), "three".to_string()]);
    assert_eq!(
        app.fx.take(),
        vec![
            console("DBG: one\n"),
            console("DBG: two\n"),
            console("DBG: three\n")
        ]
    );
}

#[test]
fn a_continue_leaves_the_rom_first_where_that_is_asked() {
    let mut app = attached();
    assert!(!app.gdb_leaves_rom(&CoreReply::Continue));
    app.gdb.as_mut().unwrap().core.outside_rom = true;
    assert!(app.gdb_leaves_rom(&CoreReply::Continue));
    assert_eq!(
        app.gdb_left_rom(Some(false)),
        CoreReply::Packet("E01".to_string())
    );
    assert!(app.gdb.as_ref().unwrap().core.outside_rom);
    assert_eq!(app.gdb_left_rom(None), CoreReply::Failed);
    assert_eq!(
        app.gdb_left_rom(Some(true)),
        CoreReply::Packet("S05".to_string())
    );
    assert!(!app.gdb_leaves_rom(&CoreReply::Continue));
}
