//! Command lines of the debugger's console, from the text to what they do.

use copperline::answers::{
    console_guru, console_trace_started, console_trace_status,
    console_trace_stopped, console_wave_started, console_wave_status, console_wave_stopped,
    console_with_exec, ExecOutcome, Reversed, WaveArm, Writer,
};
use copperline::app::App;
use copperline::command::{hex32, parse_command, parse_hex_pattern, reg_index, Command};
use copperline::console::{Ask, ConsoleStep};
use copperline::dumps::{
    console_blits_lines, console_copper_lines, console_custom_lines, console_dis_lines,
    console_history_lines, console_os_list, console_segments, console_stack_lines,
    copper_list_start, stack_frames, wave_status_lines, Instruction, OsNode, Segment, WaveStatus,
};
use copperline::lexicon::{Lexicon, WatchClass};
use copperline::machine::{Blit, BusTrace, Copper, Machine};
use copperline::memory::Region;
use copperline::prompt::{console_handle_text_input, newline_text, TextInput};
use copperline::report::{console_breaks_lines, console_help, console_regs_lines};
use copperline::text::{chars_of, split_words};

fn lexicon() -> Lexicon {
    let mut lex = Lexicon::new();
    lex.registers.push((0x96, "DMACON".into()));
    lex.registers.push((0x02, "DMACONR".into()));
    lex.classes.push(WatchClass {
        token: "CPU".into(),
        label: "cpu".into(),
        title: "CPU".into(),
        takes_pc: true,
    });
    lex.classes.push(WatchClass {
        token: "BLITTER".into(),
        label: "blitter".into(),
        title: "blitter".into(),
        takes_pc: false,
    });
    lex.vectors = (0..4).map(|i| format!("exception {i}")).collect();
    lex
}

fn app() -> App {
    let mut machine = Machine::new(0x00FF_FFFF);
    machine.memory.regions.push(Region {
        base: 0,
        bytes: vec![0; 0x1000],
        writable: true,
    });
    machine.memory.regions.push(Region {
        base: 0xF80000,
        bytes: vec![0x4E; 0x100],
        writable: false,
    });
    machine.searchable = vec![(0, 0x1000), (0xF80000, 0x100)];
    let mut app = App::new(machine, true);
    app.lexicon = lexicon();
    app.open_console();
    app
}

fn run(app: &mut App, line: &str) -> Vec<String> {
    match app.console_execute(line) {
        ConsoleStep::Done { lines, .. } => lines,
        ConsoleStep::Ask(ask) => panic!("{line}: {ask:?}"),
    }
}

fn ask(app: &mut App, line: &str) -> Ask<String> {
    match app.console_execute(line) {
        ConsoleStep::Ask(ask) => ask,
        ConsoleStep::Done { lines, .. } => panic!("{line}: {lines:?}"),
    }
}

fn lines(text: &[&str]) -> Vec<String> {
    text.iter().map(|s| s.to_string()).collect()
}

#[test]
fn blank_lines_do_nothing_and_unknown_ones_say_so() {
    let mut app = app();
    assert_eq!(run(&mut app, "   "), lines(&[]));
    assert_eq!(
        run(&mut app, "frobnicate 1"),
        lines(&["!unknown command FROBNICATE (try HELP)"])
    );
    assert_eq!(run(&mut app, "?"), console_help());
    assert_eq!(console_help().len(), 19);
}

#[test]
fn clear_and_close_are_flags_of_the_outcome() {
    let mut app = app();
    assert_eq!(
        app.console_execute("clear"),
        ConsoleStep::Done {
            lines: vec![],
            clear: true,
            close: false
        }
    );
    for word in ["CLOSE", "quit", "Exit"] {
        assert_eq!(
            app.console_execute(word),
            ConsoleStep::Done {
                lines: vec![],
                clear: false,
                close: true
            }
        );
    }
}

#[test]
fn run_and_pause_set_the_state_that_closing_restores() {
    let mut app = app();
    assert!(app.session.paused);
    assert_eq!(
        run(&mut app, "go"),
        lines(&["running (PAUSE stops; breakpoints report here or on stop)"])
    );
    assert!(!app.session.paused);
    let out = run(&mut app, "PAUSE");
    assert!(app.session.paused);
    assert_eq!(out[0], "paused");
    assert_eq!(out.len(), 2);
    assert!(out[1].starts_with("pc $000000  "));
}

#[test]
fn execution_commands_ask_the_host_with_bounded_counts() {
    let mut app = app();
    assert_eq!(ask(&mut app, "step"), Ask::Step(1));
    assert_eq!(ask(&mut app, "S 12"), Ask::Step(12));
    assert_eq!(ask(&mut app, "s 0"), Ask::Step(1));
    assert_eq!(ask(&mut app, "s 99999999"), Ask::Step(1_000_000));
    assert_eq!(ask(&mut app, "over"), Ask::Over(5_000_000));
    assert_eq!(ask(&mut app, "finish"), Ask::Out(5_000_000));
    assert_eq!(ask(&mut app, "f"), Ask::Frame);
    assert_eq!(ask(&mut app, "cstep"), Ask::CopperStep(2_000_000));
    assert_eq!(
        ask(&mut app, "runto $1234"),
        Ask::RunToPc {
            addr: 0x1234,
            budget: 2_000_000
        }
    );
    assert_eq!(
        run(&mut app, "runto"),
        lines(&["!usage: RUNTO ADDR (hex)"])
    );
    assert_eq!(
        ask(&mut app, "toslot 100 40"),
        Ask::RunToBeam {
            vpos: 100,
            hpos: Some(40),
            budget: 2_000_000
        }
    );
    assert_eq!(ask(&mut app, "rs 3"), Ask::ReverseStep(3));
    assert_eq!(ask(&mut app, "rframe"), Ask::ReverseFrame);
    assert_eq!(ask(&mut app, "rc"), Ask::ReverseRun);
}

#[test]
fn line_runs_to_the_next_line_and_wraps_at_the_frame() {
    let mut app = app();
    app.machine.vpos = 312;
    assert_eq!(
        ask(&mut app, "line"),
        Ask::RunToBeam {
            vpos: 0,
            hpos: None,
            budget: 2_000_000
        }
    );
    app.machine.vpos = 7;
    assert_eq!(
        ask(&mut app, "LINE"),
        Ask::RunToBeam {
            vpos: 8,
            hpos: None,
            budget: 2_000_000
        }
    );
}

#[test]
fn breakpoints_toggle_and_are_listed() {
    let mut app = app();
    assert_eq!(
        run(&mut app, "b $c01000"),
        lines(&["breakpoint $C01000 set"])
    );
    assert!(app.machine.breaks.is_breakpoint(0xC01000));
    assert_eq!(
        run(&mut app, "B C01000"),
        lines(&["breakpoint $C01000 removed"])
    );
    assert_eq!(
        run(&mut app, "break"),
        lines(&["!usage: BREAK ADDR [LHS OP RHS] [IGN N]"])
    );
    for bad in [
        "b 100 foo bar baz",
        "b 100 d0 ==",
        "b 100 == d0 ==",
        "b 100 d0 == < ign 2",
        "b 100 d0 == 5 ign x",
    ] {
        assert_eq!(
            run(&mut app, bad),
            lines(&["!usage: BREAK ADDR [LHS OP RHS] [IGN N]"]),
            "{bad}"
        );
    }
    assert_eq!(
        run(&mut app, "b 100 d0 >= 1f ign 2"),
        lines(&["breakpoint $000100 set"])
    );
    assert_eq!(
        run(&mut app, "breaks"),
        lines(&["break  $000100  D0 >= 1F  ign 0/2"])
    );
    run(&mut app, "b 100");
    assert_eq!(
        run(&mut app, "breaks"),
        lines(&["no breakpoints, watchpoints, traps, or catches"])
    );
    run(&mut app, "b 100");
    run(&mut app, "rwatch dmacon");
    run(&mut app, "btrap 100 40");
    run(&mut app, "cbreak 200");
    run(&mut app, "catchtask Work bench");
    assert_eq!(
        console_breaks_lines(&app.machine, &app.lexicon),
        run(&mut app, "info")
    );
    let listed = run(&mut app, "info");
    assert_eq!(listed[0], "break  $000100");
    assert_eq!(listed.len(), 5);
    assert!(listed.contains(&"rwatch DMACON ($096)".to_string()));
    assert!(listed.contains(&"btrap  v100 h40".to_string()));
    assert!(listed.contains(&"cbreak $000200".to_string()));
    assert!(listed.contains(&"ctask  name contains \"Work bench\"".to_string()));
    assert_eq!(
        run(&mut app, "clearbreaks"),
        lines(&["cleared all breakpoints, watchpoints, traps, and catches"])
    );
    assert_eq!(app.machine.breaks.breakpoints.len(), 0);
    assert_eq!(app.machine.beam_traps.len(), 0);
}

#[test]
fn watches_take_each_qualifier_once() {
    let mut app = app();
    assert_eq!(
        run(&mut app, "w 101 cpu pc=f80010"),
        lines(&["watchpoint $000100 (CPU accesses only) from $F80010 only set"])
    );
    assert_eq!(
        run(&mut app, "w 100"),
        lines(&["watchpoint $000100 removed"])
    );
    assert_eq!(
        run(&mut app, "w"),
        lines(&["!usage: WATCH ADDR [CLASS] [PC=ADDR]"])
    );
    assert_eq!(
        run(&mut app, "w 100 cpu blitter"),
        lines(&["!watch class given more than once"])
    );
    assert_eq!(
        run(&mut app, "w 100 pc=1 pc=2"),
        lines(&["!PC= given more than once"])
    );
    assert_eq!(
        run(&mut app, "w 100 PC=zz"),
        lines(&["!PC= wants an address"])
    );
    assert_eq!(
        run(&mut app, "w 100 disc"),
        lines(&[
            "!watch class is CPU, BLITTER, DISK, COPPER, or a DMA channel (BPL1..BPL8, SPR0..SPR7, AUD0..AUD3)"
        ])
    );
    assert_eq!(
        run(&mut app, "w 100 blitter pc=100"),
        lines(&[
            "!PC= only qualifies CPU accesses; a DMA engine's access has no instruction behind it"
        ])
    );
    assert_eq!(app.machine.breaks.watches.len(), 0);
}

#[test]
fn register_beam_copper_and_exception_stops_toggle() {
    let mut app = app();
    assert_eq!(
        run(&mut app, "rw 96"),
        lines(&["register watch DMACON ($096) set"])
    );
    assert_eq!(
        run(&mut app, "rw dmacon"),
        lines(&["register watch DMACON ($096) removed"])
    );
    assert_eq!(
        run(&mut app, "rw 200"),
        lines(&["!usage: RWATCH NAME|OFFSET (e.g. DMACON or 96)"])
    );
    assert_eq!(run(&mut app, "btrap 12"), lines(&["beam trap v12 set"]));
    assert_eq!(
        run(&mut app, "btrap 12 7"),
        lines(&["beam trap v12 h7 set"])
    );
    assert_eq!(
        run(&mut app, "btrap 12"),
        lines(&["beam trap v12 removed"])
    );
    assert_eq!(
        run(&mut app, "cbreak 1000201"),
        lines(&["copper breakpoint $000200 set"])
    );
    assert_eq!(
        run(&mut app, "catch vec 3"),
        lines(&["catch exception 3 set"])
    );
    assert_eq!(
        run(&mut app, "catch vec 3"),
        lines(&["catch exception 3 removed"])
    );
    assert_eq!(
        run(&mut app, "catch"),
        lines(&["!usage: CATCH IRQ N | TRAP N | VEC N"])
    );
}

#[test]
fn task_catches_keep_the_case_of_the_name() {
    let mut app = app();
    assert_eq!(
        run(&mut app, "catchtask My Task"),
        lines(&["stopping when a task whose name contains \"My Task\" is scheduled"])
    );
    assert_eq!(app.machine.breaks.task_catch, Some("My Task".into()));
    assert_eq!(run(&mut app, "catchtask"), lines(&["task catch cleared"]));
    assert_eq!(app.machine.breaks.task_catch, None);
}

#[test]
fn the_alert_catch_breaks_below_exec() {
    let mut app = app();
    assert_eq!(ask(&mut app, "catchalert"), Ask::ExecBase);
    assert_eq!(
        app.console_catch_alert(&Ok(0x0676)),
        lines(&[
            "break at exec Alert() ($00060A); on stop D7 holds the code -- GURU decodes it"
        ])
    );
    assert!(app.machine.breaks.is_breakpoint(0x60A));
    assert_eq!(
        app.console_catch_alert(&Ok(0x0676)),
        lines(&["alert catch removed ($00060A)"])
    );
    assert_eq!(
        app.console_catch_alert(&Err("no exec yet".into())),
        lines(&["!no exec yet"])
    );
}

#[test]
fn guru_codes_come_from_the_line_or_from_d7() {
    let mut app = app();
    app.machine.regs[7] = 0x8000_0004;
    assert_eq!(ask(&mut app, "guru"), Ask::Guru(0x8000_0004));
    assert_eq!(ask(&mut app, "guru 81000005"), Ask::Guru(0x8100_0005));
    assert_eq!(
        run(&mut app, "guru zz"),
        lines(&["!usage: GURU [HEXCODE] (default D7)"])
    );
    assert_eq!(
        console_guru(0x8100_0005, "dead end"),
        lines(&["81000005: dead end"])
    );
}

#[test]
fn registers_are_shown_and_set() {
    let mut app = app();
    assert_eq!(run(&mut app, "setreg d2 77"), lines(&["D2 <- $77"]));
    assert_eq!(app.machine.regs[2], 0x77);
    assert_eq!(run(&mut app, "setreg sp 1000"), lines(&["SP <- $1000"]));
    assert_eq!(app.machine.regs[15], 0x1000);
    assert_eq!(
        run(&mut app, "setreg d8 1"),
        lines(&["!usage: SETREG D0-D7|A0-A7|SP|SR|PC VALUE (hex)"])
    );
    app.machine.sr_text = "S--".into();
    let shown = run(&mut app, "r");
    assert_eq!(shown, console_regs_lines(&app.machine));
    assert_eq!(
        shown[0],
        "D0-D7 00000000 00000000 00000077 00000000 00000000 00000000 00000000 00000000"
    );
    assert_eq!(
        shown[1],
        "A0-A7 00000000 00000000 00000000 00000000 00000000 00000000 00000000 00001000"
    );
}

#[test]
fn memory_is_shown_poked_and_searched() {
    let mut app = app();
    assert_eq!(
        run(&mut app, "poke 101 4e75"),
        lines(&["poked $4E75 -> $000100"])
    );
    assert_eq!(app.machine.memory.peek_word(0x100), 0x4E75);
    assert_eq!(
        run(&mut app, "poke f80000 1"),
        lines(&["!$F80000 is not writable RAM"])
    );
    assert_eq!(
        run(&mut app, "poke 100"),
        lines(&["!usage: POKE ADDR VALUE (hex word)"])
    );
    assert_eq!(run(&mut app, "find 4E75"), lines(&["found at $000100"]));
    assert_eq!(
        run(&mut app, "find 4E75 101"),
        lines(&["found at $000100"])
    );
    assert_eq!(
        run(&mut app, "find 4E 75 100"),
        lines(&["found at $000100"])
    );
    app.machine.memory.regions.push(Region {
        base: 0xC00000,
        bytes: vec![0x4E, 0x75],
        writable: true,
    });
    app.machine.searchable.push((0xC00000, 2));
    assert_eq!(
        run(&mut app, "FIND 4E75 C00000"),
        lines(&["found at $C00000"])
    );
    assert_eq!(run(&mut app, "find 4E75"), lines(&["found at $000100"]));
    app.machine.memory.regions.pop();
    app.machine.searchable.pop();
    assert_eq!(
        run(&mut app, "find DEADBEEF"),
        lines(&["pattern not found"])
    );
    assert_eq!(
        run(&mut app, "find 4E7"),
        lines(&["!FIND takes hex byte pairs (e.g. 4E75)"])
    );
    assert_eq!(
        run(&mut app, "find"),
        lines(&["!usage: FIND HEXBYTES [START]"])
    );
    assert_eq!(run(&mut app, "m 105").len(), 4);
    let row = run(&mut app, "m 105 1");
    assert_eq!(row.len(), 1);
    assert!(row[0].starts_with("000100: 4E 75 00 "));
    assert_eq!(
        run(&mut app, "m"),
        lines(&["!usage: MEM ADDR [BYTES] (hex)"])
    );
}

#[test]
fn a_watch_reads_its_qualifier_in_either_case() {
    let mut app = app();
    for word in ["PC=1000", "pc=1000", "Pc=1000", "pC=1000"] {
        assert_eq!(
            run(&mut app, &format!("watch 10 {word}")),
            lines(&["watchpoint $000010 from $001000 only set"])
        );
        let watch = app.machine.breaks.watch_at(0x10).unwrap();
        assert_eq!((watch.filter, watch.pc), (None, Some(0x1000)));
        run(&mut app, "watch 10");
    }
}

#[test]
fn unchanged_memory_keeps_every_candidate_of_same_and_none_of_diff() {
    let mut app = app();
    run(&mut app, "hunt start w");
    run(&mut app, "hunt same");
    assert_eq!(app.hunt.as_ref().unwrap().candidate_count(), Some(0x800));
    run(&mut app, "hunt eq 0");
    run(&mut app, "hunt same");
    assert_eq!(app.hunt.as_ref().unwrap().candidate_count(), Some(0x800));
    run(&mut app, "hunt diff");
    assert_eq!(app.hunt.as_ref().unwrap().candidate_count(), Some(0));
    run(&mut app, "hunt start b");
    run(&mut app, "hunt diff");
    assert_eq!(app.hunt.as_ref().unwrap().candidate_count(), Some(0));
}

#[test]
fn hunts_narrow_down_to_what_changed() {
    let mut app = app();
    assert_eq!(
        run(&mut app, "hunt"),
        lines(&["no hunt (HUNT START [B|W] begins one)"])
    );
    assert_eq!(
        run(&mut app, "hunt same"),
        lines(&["no hunt running (HUNT START first)"])
    );
    assert_eq!(run(&mut app, "hunt list"), lines(&["no hunt running"]));
    assert_eq!(
        run(&mut app, "hunt start b"),
        lines(&[
            "hunting 8-bit values across 4096 bytes of RAM; filter with HUNT EQ/NE/LT/GT VALUE or HUNT SAME/DIFF"
        ])
    );
    assert_eq!(
        run(&mut app, "hunt"),
        lines(&["hunt active (8-bit): no filter applied yet"])
    );
    assert_eq!(
        run(&mut app, "hunt list"),
        lines(&["no filter applied yet"])
    );
    app.machine.memory.write(0x20, 5);
    app.machine.memory.write(0x30, 9);
    assert_eq!(
        run(&mut app, "hunt diff"),
        lines(&["2 candidate(s) remain  (HUNT LIST shows them)"])
    );
    assert_eq!(
        run(&mut app, "hunt list"),
        lines(&["2 candidate(s):", "  $000020 = 05", "  $000030 = 09"])
    );
    assert_eq!(
        run(&mut app, "hunt list 1"),
        lines(&["2 candidate(s):", "  $000020 = 05", "  ... 1 more"])
    );
    let kept = run(&mut app, "hunt gt 6");
    assert!(kept[0].starts_with("1 candidate(s) remain"));
    assert_eq!(
        app.hunt.as_ref().unwrap().candidates,
        Some(vec![0x30])
    );
    assert_eq!(app.hunt.as_ref().unwrap().candidate_count(), Some(1));
    assert_eq!(run(&mut app, "hunt off"), lines(&["hunt cleared"]));
    assert!(app.hunt.is_none());
    assert_eq!(
        run(&mut app, "hunt start q"),
        lines(&["!usage: HUNT START [B|W]"])
    );
    assert_eq!(
        run(&mut app, "hunt eq"),
        lines(&["!usage: HUNT EQ VALUE (hex)"])
    );
    assert_eq!(
        run(&mut app, "hunt what"),
        lines(&[
            "!usage: HUNT [START [B|W] | EQ/NE/LT/GT VALUE | SAME | DIFF | LIST [N] | OFF]"
        ])
    );
}

#[test]
fn traces_and_waveforms_are_the_hosts_and_worded_here() {
    let mut app = app();
    assert_eq!(
        ask(&mut app, "trace start /tmp/T.log"),
        Ask::TraceStart {
            path: Some("/tmp/T.log".into()),
            cap: 1_000_000
        }
    );
    assert_eq!(ask(&mut app, "trace stop"), Ask::TraceStop);
    assert_eq!(ask(&mut app, "trace"), Ask::TraceStatus);
    assert_eq!(
        run(&mut app, "trace what"),
        lines(&["!usage: TRACE [START [PATH] | STOP]"])
    );
    assert_eq!(
        console_trace_started("T.log", 1_000_000, &Ok(())),
        lines(&["tracing to T.log (cap 1000000 lines; TRACE STOP ends it)"])
    );
    assert_eq!(
        console_trace_started("T.log", 1_000_000, &Err("denied".into())),
        lines(&["!cannot open T.log: denied"])
    );
    assert_eq!(
        console_trace_stopped(&Some(("T.log".into(), 12))),
        lines(&["trace stopped: 12 lines in T.log"])
    );
    assert_eq!(console_trace_stopped(&None), lines(&["no trace running"]));
    assert_eq!(
        console_trace_status(&Some(("T.log".into(), 3))),
        lines(&["tracing to T.log (3 lines so far)"])
    );
    assert_eq!(
        console_trace_status(&None),
        lines(&["no trace running (TRACE START [PATH])"])
    );
    assert_eq!(ask(&mut app, "wave"), Ask::WaveStatus);
    assert_eq!(ask(&mut app, "waveform stop"), Ask::WaveStop);
    assert_eq!(
        run(&mut app, "wave what"),
        lines(&["!usage: WAVE [START [PATH] [TRIGGER] [DURATION] [SIGNALS] | STOP]"])
    );
    assert_eq!(
        console_wave_started(&WaveArm::Bad("no such signal".into())),
        lines(&["!WAVE START: no such signal"])
    );
    assert_eq!(
        console_wave_started(&WaveArm::Refused("busy".into())),
        lines(&["!cannot arm waveform: busy"])
    );
    assert_eq!(
        console_wave_started(&WaveArm::Armed {
            trigger: "now".into(),
            duration: "1 frame".into(),
            signals: "all".into(),
            path: "w.vcd".into()
        }),
        lines(&["waveform armed: trigger now, duration 1 frame, signals all -> w.vcd"])
    );
    assert_eq!(
        console_wave_stopped(&None),
        lines(&["no waveform capture"])
    );
    assert_eq!(
        console_wave_status(&None),
        lines(&["no waveform capture (WAVE START [PATH] ...)"])
    );
    let status = WaveStatus {
        state: "done".into(),
        trigger: "now".into(),
        duration: "1 frame".into(),
        signals: "all".into(),
        path: "w.vcd".into(),
        captured_cck: 71051,
        window_cck: None,
        samples: 9,
    };
    assert_eq!(
        wave_status_lines(&status),
        lines(&[
            "waveform done: trigger now, duration 1 frame, signals all",
            "  -> w.vcd",
            "  71051 cck captured, 9 samples"
        ])
    );
    assert_eq!(
        console_wave_stopped(&Some(status)),
        lines(&["waveform stopped: 9 samples in w.vcd"])
    );
}

#[test]
fn steps_report_the_machine_and_what_stopped_it() {
    let mut app = app();
    let out = app.console_exec_done(
        &Ask::Step(1),
        &ExecOutcome::Ran {
            reached: true,
            stop: Some("breakpoint $000100".into()),
        },
    );
    assert_eq!(out[0], "!breakpoint $000100");
    assert_eq!(app.last_debug_stop, Some("breakpoint $000100".into()));
    let out = app.console_exec_done(
        &Ask::RunToPc {
            addr: 0x1234,
            budget: 1,
        },
        &ExecOutcome::Ran {
            reached: false,
            stop: None,
        },
    );
    assert!(out.contains(&"$001234 not reached (budget)".to_string()));
    let out = app.console_exec_done(
        &Ask::CopperStep(1),
        &ExecOutcome::Ran {
            reached: false,
            stop: None,
        },
    );
    assert!(out.contains(&"copper did not advance (stopped or DMA off)".to_string()));
    let out = app.console_exec_done(&Ask::Step(1), &ExecOutcome::Halted("boom".into()));
    assert_eq!(out, lines(&["!execution halted: boom"]));
}

#[test]
fn going_back_says_how_far_it_got() {
    let mut app = app();
    let out = app.console_reverse_done(&Reversed::NotFound, true);
    assert_eq!(out[0], "reverse: no earlier stop hit");
    let out = app.console_reverse_done(&Reversed::NotFound, false);
    assert_eq!(out[0], "reverse: nothing earlier to land on");
    let out = app.console_reverse_done(&Reversed::BeyondHistory, false);
    assert_eq!(out[0], "reverse: beyond recorded history");
    let out = app.console_reverse_done(&Reversed::Failed("x".into()), false);
    assert_eq!(out, lines(&["!reverse failed: x"]));
    let out = app.console_reverse_done(&Reversed::Found("watch".into()), true);
    assert_eq!(out[0], "!watch");
    assert_eq!(app.last_debug_stop, Some("watch".into()));
}

#[test]
fn the_last_writer_is_worded() {
    let mut app = app();
    assert_eq!(ask(&mut app, "writer 101"), Ask::LastWriter(0x100));
    assert_eq!(
        app.console_writer_done(
            0x100,
            &Writer::Found {
                addr: 0x100,
                before: 1,
                after: 0x4E75,
                pc: 0xFFF8_0010,
                frame: 9
            }
        ),
        lines(&["$000100: 0001->4E75 by pc $F80010 (frame 9)"])
    );
    assert_eq!(
        app.console_writer_done(0x100, &Writer::NotFound),
        lines(&["no write to $000100 in retained history"])
    );
    assert_eq!(
        app.console_writer_done(0x100, &Writer::BeyondHistory),
        lines(&["write to $000100 predates history"])
    );
    assert_eq!(
        app.console_writer_done(0x100, &Writer::Failed("E".into())),
        lines(&["!last-writer failed: E"])
    );
}

#[test]
fn lists_of_the_operating_system_are_worded() {
    assert_eq!(
        console_with_exec(Err("exec not found".into())),
        lines(&["!exec not found"])
    );
    assert_eq!(console_os_list(&vec![], true), lines(&["(empty list)"]));
    let node = OsNode {
        addr: 0x676,
        version: 40,
        revision: 10,
        pri: -5,
        name: "exec.library".into(),
    };
    let listed = console_os_list(&vec![node], true);
    assert_eq!(listed.len(), 1);
    assert!(listed[0].starts_with("$000676  v40.10"));
    assert!(listed[0].ends_with("exec.library"));
    assert_eq!(
        console_segments(&Err("no task".into())),
        lines(&["!no task"])
    );
    assert_eq!(
        console_segments(&Ok(vec![])),
        lines(&["current task has no walkable segment list"])
    );
    let found = console_segments(&Ok(vec![Segment {
        start: 0x2000,
        size: 0x100,
    }]));
    assert_eq!(found[0], "hunk 0: $002000..$002100  (256 bytes)");
    assert!(found[1].starts_with("gdb: add-symbol-file prog.elf 0x2000"));
}

#[test]
fn code_and_history_are_listed_with_their_addresses() {
    let code = vec![
        Instruction {
            text: "NOP".into(),
            len: 2,
        },
        Instruction {
            text: "JSR x".into(),
            len: 6,
        },
        Instruction {
            text: "?".into(),
            len: 0,
        },
        Instruction {
            text: "RTS".into(),
            len: 2,
        },
    ];
    assert_eq!(
        console_dis_lines(0x1000, &code),
        lines(&["001000  NOP", "001002  JSR x", "001008  ?", "00100A  RTS"])
    );
    let history = vec![(0x10, "A".to_string()), (0x12, "B".to_string())];
    assert_eq!(console_history_lines(&history, 1), lines(&["000012  B"]));
    assert_eq!(
        console_history_lines(&vec![], 16),
        lines(&["no history yet (recorded while a debug window is open)"])
    );
    let copper = Copper {
        cop1lc: 0x400,
        cop2lc: 0x500,
        pc: 0x408,
        running: true,
    };
    assert_eq!(copper_list_start(copper, None), 0x3F8);
    assert_eq!(copper_list_start(copper, Some(0x10)), 0x10);
    assert_eq!(
        console_copper_lines(
            copper,
            &vec![(0x404, "WAIT".into()), (0x408, "MOVE".into())]
        ),
        lines(&[
            "COP1LC 000400  COP2LC 000500  COPPC 000408 (running)",
            " 000404  WAIT",
            ">000408  MOVE"
        ])
    );
}

#[test]
fn return_addresses_are_found_on_the_stack() {
    let mut app = app();
    app.machine.regs[15] = 0x800;
    // A return address behind a JSR (abs.L), whose opcode is six bytes back.
    for (i, b) in [0x4E, 0xB9, 0x00, 0x00, 0x02, 0x00].iter().enumerate() {
        app.machine.memory.write(0x100 + i as u32, *b);
    }
    for (i, b) in [0x00, 0x00, 0x01, 0x06].iter().enumerate() {
        app.machine.memory.write(0x804 + i as u32, *b);
    }
    let frames = stack_frames(&app.machine);
    assert!(frames.iter().any(|f| f.1 == 0x106 || f.0 == 0x106));
    let code: Vec<String> = frames.iter().map(|_| "MOVE".to_string()).collect();
    let shown = console_stack_lines(&app.machine, &frames, &code);
    assert!(shown[0].starts_with("#0 pc $000000  sp $000800"));
    assert_eq!(shown.len(), frames.len() + 1);
    app.machine.regs[15] = 0xF80000;
    app.machine.memory.regions[1].bytes = vec![0; 0x100];
    let none = stack_frames(&app.machine);
    assert!(none.is_empty());
    assert_eq!(
        console_stack_lines(&app.machine, &none, &vec![])[1],
        "no return-address candidates on the stack"
    );
}

#[test]
fn blits_are_listed_with_their_modes() {
    assert_eq!(
        console_blits_lines(&None),
        lines(&["no frame trace: open the Frame Analyzer (its Frame button captures one)"])
    );
    let mut trace = BusTrace {
        cols: 227,
        rows: 313,
        nominal_rows: 313,
        frame: 5,
        blits: vec![],
    };
    assert_eq!(
        console_blits_lines(&Some(BusTrace {
            cols: 1,
            rows: 1,
            nominal_rows: 1,
            frame: 4,
            blits: vec![]
        })),
        lines(&["no blits started in frame 4"])
    );
    trace.blits.push(Blit {
        start: (44, 10),
        end: None,
        bltcon0: 0x09F0,
        bltcon1: 0x000B,
        width_words: 20,
        height: 200,
        apt: 0x1,
        bpt: 0x2,
        cpt: 0x3,
        dpt: 0xFF00_0004,
    });
    assert_eq!(
        console_blits_lines(&Some(trace)),
        lines(&[
            "1 blit(s) in frame 5:",
            "#0  v44 h10 -> (running)  con0 09F0 con1 000B  20x200  LINE  FILL  DESC",
            "     A $000001  B $000002  C $000003  D $000004"
        ])
    );
}

#[test]
fn custom_registers_stand_three_to_a_row() {
    let app = app();
    let mut values: Vec<Option<u16>> = vec![None; 9];
    values[0] = Some(0x03F0);
    let shown = console_custom_lines(&app.machine, &values, &app.lexicon);
    assert_eq!(
        shown,
        lines(&["beam v0 h0  frame 0", "DMACONR  $03F0", "", ""])
    );
}

#[test]
fn words_and_numbers_are_read_as_the_console_reads_them() {
    assert_eq!(hex32(&chars_of("$ff")), Some(0xFF));
    assert_eq!(hex32(&chars_of("FFFFFFFF")), Some(0xFFFF_FFFF));
    assert_eq!(hex32(&chars_of("100000000")), None);
    assert_eq!(hex32(&chars_of("")), None);
    assert_eq!(reg_index(&chars_of("a7")), Some(15));
    assert_eq!(reg_index(&chars_of("pc")), Some(17));
    assert_eq!(reg_index(&chars_of("d9")), None);
    assert_eq!(
        parse_hex_pattern(&split_words(&chars_of("4E 75"))),
        Some(vec![0x4E, 0x75])
    );
    assert_eq!(
        parse_hex_pattern(&split_words(&chars_of("s\u{e9}\u{8def}"))),
        None
    );
    assert_eq!(
        parse_command("m 100 20", &Lexicon::new()),
        Command::Mem {
            addr: 0x100,
            len: 0x20
        }
    );
}

#[test]
fn text_is_typed_pasted_or_left_to_the_keys() {
    let line: Vec<char> = "r\u{7}egs\u{e9}".chars().collect();
    assert_eq!(
        console_handle_text_input(false, false, Some(&line)),
        TextInput::Typed("regs".chars().collect())
    );
    assert_eq!(
        console_handle_text_input(true, true, Some(&line)),
        TextInput::Paste
    );
    assert_eq!(
        console_handle_text_input(false, true, Some(&line)),
        TextInput::Pass
    );
    assert_eq!(
        console_handle_text_input(false, false, None),
        TextInput::Pass
    );
    let mut app = app();
    app.open_console();
    let pasted: Vec<char> = "frobnicate\r\nrun\rste".chars().collect();
    let text = newline_text(&pasted);
    assert_eq!(text.iter().collect::<String>(), "frobnicate\nrun\nste");
    assert_eq!(app.console_insert_text(&text, 0), (text.len(), None));
    let panel = app.console.as_ref().unwrap();
    assert_eq!(panel.input, "ste");
    assert_eq!(panel.history, vec!["frobnicate", "run"]);
    assert!(!app.session.paused);
    app.console_paste_failed("no display");
    assert_eq!(
        app.console.as_ref().unwrap().output.last().unwrap(),
        "!clipboard unavailable: no display"
    );
}
