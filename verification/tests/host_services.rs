//! What stands around the machine: captures, messages, the clipboard, the
//! strips under the display and the window itself.

use copperline::app::{App, DebugTab};
use copperline::captures::{
    dump_frame_done, fire_gif_captures, gif_close, gif_failed, ClipOutcome, ClipSource, ClipStep,
    Clips, DumpStep, FrameDump, GifCapture, GifStep, RecordStep, Recording, Schedule,
};
use copperline::clipboard::{toggle_clipboard_sharing, Board, ClipboardStep, SharedClipboard};
use copperline::controls::UiControl;
use copperline::desk::ToolPanelKind;
use copperline::effects::{Effect, Effects};
use copperline::fascia::{
    apply_csynth_press, apply_mt32_action, csynth_switched, keyboard_toggled,
    load_csynth_soundfont, load_mt32_rom, mode_name, mt32_recycled, press_csynth_control,
    press_keyboard_panel_control, release_keyboard_panel_key, report_csynth, report_mt32_fault,
    serve_mt32_demo, sync_panel, toggle_mt32_power, CsynthOrder, CsynthPress, CsynthRoute,
    DemoWant, Glass, Mt32Step, PanelAction, PanelRequest, Strip,
};
use copperline::machine::Machine;
use copperline::menu::Mt32Mode;
use copperline::osd::OsdSlot;
use copperline::preferences::{keeps_size, readable, tab_of};
use copperline::tool_window::{
    ensure_tool_window_for_kind, refresh_tool_windows_paced, ToolEvent, ToolStep, WindowPlan,
};
use copperline::ui::Panel;
use copperline::workspace::{
    host_shortcut_reaches_main, remember_play_geometry, restore_play_geometry, title_bar_visible,
    workspace_place, HostKey, HostModifiers, Monitor, PlayGeometry, PlayRestored, Prepare, Repaint,
    Route, WorkspaceEvent,
};

fn osd(text: &str) -> Effect<String> {
    Effect::Osd(text.to_string())
}

fn warning(text: &str) -> Effect<String> {
    Effect::Warning(text.to_string())
}

fn app() -> App {
    App::new(Machine::new(0x00FF_FFFF), true)
}

fn chars(t: &str) -> Vec<char> {
    t.chars().collect()
}

fn source(generation: u64) -> ClipSource {
    ClipSource {
        generation,
        overscan: 0,
        centre_h: 0,
        centre_v: 0,
        aperture_rows: None,
        capture_rows: 256,
        rtg: false,
    }
}

#[test]
fn a_recording_takes_frames_while_it_runs() {
    let mut r = Recording { active: false };
    let mut fx = Effects::new();
    assert!(r.toggle_recording());
    r.stop_recording(&mut fx, "a.avi", "1.0", true);
    assert!(fx.take().is_empty());
    r.start_recording(&mut fx, "a.avi", false);
    assert!(!r.active);
    assert_eq!(fx.take()[0], osd("Recording start failed (see log)"));
    assert_eq!(r.capture_recorder_output(true, 720, 720), RecordStep::Nothing);
    r.start_recording(&mut fx, "a.avi", true);
    assert_eq!(fx.take(), vec![osd("Recording a.avi"), Effect::Redraw]);
    assert_eq!(r.capture_recorder_output(false, 720, 720), RecordStep::Sound);
    assert_eq!(
        r.capture_recorder_output(true, 1440, 720),
        RecordStep::Picture { narrow: true }
    );
    assert!(!r.toggle_recording());
    r.stop_recording(&mut fx, "a.avi", "2.5", true);
    assert_eq!(fx.take(), vec![osd("Saved a.avi (2.5s)"), Effect::Redraw]);
    r.active = true;
    r.stop_recording(&mut fx, "a.avi", "2.5", false);
    assert_eq!(fx.take()[0], osd("Recording save failed (see log)"));
}

#[test]
fn the_clip_ring_builds_each_picture_once() {
    let mut c = Clips::new(10);
    assert!(c.takes_frames(true, true, false));
    assert!(!c.takes_frames(true, true, true));
    assert!(!Clips::new(0).takes_frames(true, true, false));
    assert_eq!(c.capture_clip_frame(false, true, source(1)), ClipStep::Skip);
    assert_eq!(c.capture_clip_frame(true, true, source(1)), ClipStep::Store);
    assert_eq!(c.capture_clip_frame(true, false, source(1)), ClipStep::Repeat);
    assert_eq!(c.capture_clip_frame(true, false, source(2)), ClipStep::Store);
    assert_eq!(c.capture_clip_frame(true, true, source(2)), ClipStep::Store);
    c.generation = u64::MAX;
    c.note_present_fb_changed();
    assert_eq!(c.generation, 0);
}

#[test]
fn one_clip_is_saved_at_a_time() {
    let mut fx = Effects::new();
    assert!(!Clips::new(0).save_clip_gif(&mut fx, true, "c.gif"));
    let mut c = Clips::new(10);
    assert!(!c.save_clip_gif(&mut fx, false, "c.gif"));
    assert!(c.save_clip_gif(&mut fx, true, "c.gif"));
    assert!(!c.save_clip_gif(&mut fx, true, "d.gif"));
    assert_eq!(
        fx.take(),
        vec![
            osd("Clip ring is off ([recording] clip_seconds = 0)"),
            osd("No clip yet"),
            osd("Saving c.gif..."),
            Effect::Redraw,
            osd("Still saving the previous clip"),
        ]
    );
    c.poll_clip_save(&mut fx, &ClipOutcome::Pending);
    assert!(c.saving);
    c.poll_clip_save(
        &mut fx,
        &ClipOutcome::Saved {
            name: "c.gif".into(),
            seconds: "10.0".into(),
        },
    );
    assert!(!c.saving);
    c.poll_clip_save(&mut fx, &ClipOutcome::Failed);
    assert_eq!(fx.take(), vec![osd("Saved c.gif (10.0s)")]);
    c.saving = true;
    c.poll_clip_save(&mut fx, &ClipOutcome::Gone);
    assert_eq!(fx.take(), vec![osd("Clip save failed (see log)")]);
}

#[test]
fn scheduled_clips_see_each_frame_once() {
    let clip = |start: u64, end: u64| GifCapture {
        start,
        end,
        finished: false,
        last_frame: None,
    };
    assert_eq!(fire_gif_captures(&mut vec![], 5, 1, Some(1)), GifStep::Idle);
    let mut all = vec![clip(0, 100), clip(50, 100), clip(0, 10)];
    assert_eq!(fire_gif_captures(&mut all, 20, 1, Some(0)), GifStep::Wait);
    assert_eq!(
        fire_gif_captures(&mut all, 20, 1, Some(1)),
        GifStep::Feed(vec![0])
    );
    assert_eq!(
        fire_gif_captures(&mut all, 21, 1, None),
        GifStep::Feed(vec![])
    );
    assert_eq!(
        fire_gif_captures(&mut all, 60, 2, Some(2)),
        GifStep::Feed(vec![0, 1])
    );
    gif_failed(&mut all, 1);
    assert_eq!(
        fire_gif_captures(&mut all, 61, 3, Some(3)),
        GifStep::Feed(vec![0])
    );
    assert_eq!(gif_close(&mut all, 61), vec![2]);
    let mut s = Schedule {
        shots: 0,
        expectations: 0,
        dump: None,
        gifs: all,
        expect_failures: 0,
    };
    assert!(s.headless_capture_active() && !s.gifs_complete());
    assert_eq!(gif_close(&mut s.gifs, 100), vec![0]);
    assert!(s.gifs_complete() && !s.other_capture_work_pending());
    s.expectations = 1;
    assert!(!s.gifs_complete());
    s.check_screenshot_expectation(true);
    s.check_screenshot_expectation(false);
    assert_eq!(s.expect_failures, 1);
}

#[test]
fn a_frame_dump_ends_with_its_count_or_a_failure() {
    let mut d = Some(FrameDump {
        start: 10,
        count: 3,
        dumped: 0,
        last_frame: None,
    });
    assert!(!d.unwrap().dump_frame_if_due(9, 1));
    assert!(d.unwrap().dump_frame_if_due(10, 1));
    let step = |over: bool, log: bool| DumpStep { over, log };
    assert_eq!(d.unwrap().file_name(), "frame-000000.png");
    assert_eq!(dump_frame_done(&mut d, 1, true), step(false, true));
    assert_eq!(d.unwrap().file_name(), "frame-000001.png");
    assert!(!d.unwrap().dump_frame_if_due(11, 1));
    assert_eq!(dump_frame_done(&mut d, 2, true), step(false, false));
    assert_eq!(dump_frame_done(&mut d, 3, true), step(true, true));
    assert_eq!(d, None);
    assert_eq!(dump_frame_done(&mut d, 4, true), step(false, false));
    let mut d = Some(FrameDump {
        start: 0,
        count: 99,
        dumped: 24,
        last_frame: Some(1),
    });
    assert_eq!(dump_frame_done(&mut d, 2, true), step(false, true));
    assert_eq!(dump_frame_done(&mut d, 3, false), step(true, false));
    assert_eq!(d, None);
}

#[test]
fn a_message_lasts_its_time() {
    let mut s = OsdSlot::new(2000);
    assert_eq!(s.active_osd_text(0), None);
    s.show_osd("hello", 100);
    assert_eq!(s.active_osd_text(2099), Some(("hello".to_string(), false)));
    s.warn_osd("careful", 200);
    assert_eq!(s.active_osd_text(2199), Some(("careful".to_string(), true)));
    assert_eq!(s.active_osd_text(2200), None);
    assert_eq!(s.shown, None);
}

#[test]
fn the_clipboards_do_not_echo_each_other() {
    let mut c = SharedClipboard::new();
    let board = |text: Option<&str>| {
        Some(Board {
            sharing: true,
            guest_text: text.map(chars),
        })
    };
    assert_eq!(
        c.service_clipboard(1000, board(Some("a\nb")), true, true),
        ClipboardStep::ToHost(chars("a\r\nb"))
    );
    assert_eq!(
        c.service_clipboard(1299, board(None), true, false),
        ClipboardStep::Nothing
    );
    assert_eq!(
        c.service_clipboard(1300, board(None), true, false),
        ClipboardStep::ReadHost
    );
    assert!(!c.host_text(&chars("a\r\nb")));
    assert!(!c.host_text(&chars("a\nb")));
    assert!(c.host_text(&chars("new")));
    assert!(!c.host_text(&chars("new")));
    assert_eq!(
        c.service_clipboard(1600, board(None), false, false),
        ClipboardStep::Nothing
    );
    assert_eq!(
        c.service_clipboard(1900, None, true, false),
        ClipboardStep::Nothing
    );
    assert_eq!(
        c.service_clipboard(2200, board(Some("x\r\ny\rz")), true, true),
        ClipboardStep::ToHost(chars("x\r\r\ny\rz"))
    );
    assert!(!c.host_text(&chars("x\r\r\ny\rz")));
    assert!(!c.host_text(&chars("x\ny\rz")));
    assert!(c.host_text(&chars("x\nyz")));
    assert!(c.open_due(false) && !c.open_due(true));
    c.opened(false);
    assert!(!c.open_due(false));
}

#[test]
fn sharing_is_switched_only_where_it_is_fitted() {
    let mut fx = Effects::new();
    assert_eq!(toggle_clipboard_sharing(&mut fx, None), None);
    assert_eq!(toggle_clipboard_sharing(&mut fx, Some(false)), Some(true));
    assert_eq!(toggle_clipboard_sharing(&mut fx, Some(true)), Some(false));
    assert_eq!(
        fx.take(),
        vec![
            osd("Clipboard sharing not fitted: start with --clipboard"),
            osd("Clipboard sharing on"),
            osd("Clipboard sharing off"),
        ]
    );
}

#[test]
fn a_strip_that_the_canvas_did_not_follow_goes_back() {
    let mut s = Strip { shown: false };
    let mut fx = Effects::new();
    assert!(s.set_panel_shown(true));
    assert!(!s.set_panel_shown(true));
    s.strip_resized(&mut fx, false);
    assert!(!s.shown);
    s.set_keyboard_panel_shown(&mut fx, true);
    s.strip_resized(&mut fx, true);
    fx.take();
    assert!(press_keyboard_panel_control(
        &mut s,
        &mut fx,
        &vec![(0x45, true), (0x45, false)],
        true
    ));
    assert!(!s.shown);
    assert_eq!(
        fx.take(),
        vec![
            Effect::PanelKey(0x45, true),
            Effect::PanelKey(0x45, false),
            Effect::ReleaseKeyboardHolds,
            Effect::Redraw,
        ]
    );
    assert!(!release_keyboard_panel_key(&mut fx, false, &vec![]));
    assert!(release_keyboard_panel_key(
        &mut fx,
        true,
        &vec![(0x20, false)]
    ));
    assert_eq!(
        fx.take(),
        vec![Effect::PanelKey(0x20, false), Effect::Redraw]
    );
    keyboard_toggled(&mut fx, true);
    keyboard_toggled(&mut fx, false);
    assert_eq!(
        fx.take(),
        vec![
            osd("On-screen keyboard shown"),
            osd("On-screen keyboard hidden")
        ]
    );
    s.shown = true;
    assert!(!sync_panel(&mut s, true));
    assert!(sync_panel(&mut s, false));
    assert!(!s.shown);
}

#[test]
fn the_sound_module_says_what_it_did() {
    let mut fx = Effects::new();
    let fault = Some("no ROM".to_string());
    report_mt32_fault(&mut fx, &fault);
    report_csynth(&mut fx, &None);
    assert_eq!(
        apply_mt32_action(&mut fx, &PanelAction::Say("Part 1".into())),
        Mt32Step::Done
    );
    assert_eq!(
        apply_mt32_action(&mut fx, &PanelAction::Power),
        Mt32Step::TogglePower
    );
    assert_eq!(
        apply_mt32_action(&mut fx, &PanelAction::Recycle),
        Mt32Step::Recycle
    );
    assert_eq!(
        apply_mt32_action(&mut fx, &PanelAction::Nothing),
        Mt32Step::Done
    );
    mt32_recycled(&mut fx);
    toggle_mt32_power(&mut fx, true, false, &fault);
    toggle_mt32_power(&mut fx, false, true, &fault);
    toggle_mt32_power(&mut fx, false, false, &fault);
    load_mt32_rom(&mut fx, "ctrl.rom", true, true, &None);
    load_mt32_rom(&mut fx, "ctrl.rom", true, false, &fault);
    assert_eq!(
        fx.take(),
        vec![
            warning("MT-32: no ROM"),
            osd("Part 1"),
            osd("MT-32: all reset"),
            osd("MT-32: power off"),
            osd("MT-32: power on"),
            warning("MT-32: no ROM"),
            osd("MT-32: ctrl.rom"),
            warning("MT-32: no ROM"),
        ]
    );
    let mut demo = |ran_out: bool, want: Option<DemoWant>, unit: bool, title: Option<&str>| {
        serve_mt32_demo(&mut fx, ran_out, want, unit, title.map(String::from))
    };
    let play = Some(DemoWant::Play);
    assert_eq!(demo(false, None, true, Some("Song")), None);
    assert_eq!(demo(false, play, false, None), Some(String::new()));
    assert_eq!(
        demo(false, Some(DemoWant::Stop), true, Some("Song")),
        Some(String::new())
    );
    assert_eq!(demo(true, play, true, Some("Song")), Some("Song".into()));
    assert_eq!(demo(false, play, true, None), Some("Needs v2.0x ROM".into()));
    assert_eq!(fx.take(), vec![Effect::Redraw]);
}

#[test]
fn the_synthesizers_panel_is_pressed_and_paced() {
    assert_eq!(press_csynth_control(true, false, true), CsynthRoute::Dial);
    assert_eq!(press_csynth_control(false, false, true), CsynthRoute::Ignored);
    assert_eq!(press_csynth_control(false, true, true), CsynthRoute::Press);
    assert_eq!(
        apply_csynth_press(
            CsynthPress::Button,
            Some(PanelRequest::Mode(Mt32Mode::Auto))
        ),
        CsynthOrder::KeepMode(Mt32Mode::Auto)
    );
    assert_eq!(
        apply_csynth_press(CsynthPress::Button, Some(PanelRequest::ResetSoundfont)),
        CsynthOrder::ResetSoundfont
    );
    assert_eq!(
        apply_csynth_press(CsynthPress::PowerOff, None),
        CsynthOrder::Power(false)
    );
    assert_eq!(
        apply_csynth_press(CsynthPress::Load, None),
        CsynthOrder::PickSoundfont
    );
    assert_eq!(mode_name(Mt32Mode::Off), "off");
    let mut fx = Effects::new();
    let fault = Some("bad file".to_string());
    csynth_switched(&mut fx, true, true, &None);
    csynth_switched(&mut fx, true, false, &fault);
    csynth_switched(&mut fx, false, false, &fault);
    load_csynth_soundfont(&mut fx, "gm.sf2", true, &None);
    load_csynth_soundfont(&mut fx, "gm.sf2", false, &fault);
    assert_eq!(
        fx.take(),
        vec![
            osd("Coppersynth: power on"),
            warning("Coppersynth: bad file"),
            osd("Coppersynth: power off"),
            osd("Coppersynth: gm.sf2"),
            warning("Coppersynth: bad file"),
        ]
    );
    let mut g = Glass { drawn_at: 100 };
    assert!(!g.animate_csynth_panel(&mut fx, true, true, true, 149));
    assert!(!g.animate_csynth_panel(&mut fx, true, false, true, 150));
    assert!(g.animate_csynth_panel(&mut fx, true, true, true, 150));
    assert_eq!(g.drawn_at, 150);
    assert!(Glass::blink_on(299) && !Glass::blink_on(300));
}

#[test]
fn an_inspectors_window_takes_its_events() {
    let mut app = app();
    app.open_frame_analyzer();
    app.open_console();
    app.fx.take();
    let pick = UiControl::AnalyzerPick {
        x: 5,
        y: 40,
        scanline: false,
    };
    let mouse = |pressed: bool, control: Option<UiControl>| ToolEvent::Mouse {
        left: true,
        pressed,
        control,
    };
    let kind = ToolPanelKind::FrameAnalyzer;
    assert_eq!(
        app.handle_tool_window_event(kind, mouse(true, Some(pick))),
        ToolStep::Activate(pick)
    );
    let moved = ToolEvent::CursorMoved {
        inside: true,
        hover_changed: false,
    };
    assert_eq!(
        app.handle_tool_window_event(kind, moved),
        ToolStep::PickUnderPointer
    );
    app.handle_tool_window_event(
        kind,
        ToolEvent::CursorLeft {
            hover_changed: true,
        },
    );
    assert_eq!(app.fx.take(), vec![Effect::Redraw]);
    assert_eq!(app.handle_tool_window_event(kind, moved), ToolStep::Nothing);
    let key = |pressed: bool, stale: bool, quits: bool| ToolEvent::Key {
        pressed,
        stale,
        quits,
    };
    assert_eq!(
        app.handle_tool_window_event(ToolPanelKind::Console, key(true, false, false)),
        ToolStep::Key
    );
    assert_eq!(app.desk.front, Some(ToolPanelKind::Console));
    assert_eq!(
        app.handle_tool_window_event(kind, key(true, true, true)),
        ToolStep::Nothing
    );
    assert_eq!(
        app.handle_tool_window_event(kind, key(true, false, true)),
        ToolStep::Quit
    );
    let wheel = |rows: i32| ToolEvent::Wheel { rows, kept: 20 };
    app.handle_tool_window_event(ToolPanelKind::Console, wheel(-30));
    assert_eq!(app.console.as_ref().unwrap().scroll, 20);
    app.handle_tool_window_event(ToolPanelKind::Console, wheel(7));
    assert_eq!(app.console.as_ref().unwrap().scroll, 13);
    app.open_debugger();
    app.debugger.as_mut().unwrap().tab = DebugTab::IoMap;
    assert_eq!(
        app.handle_tool_window_event(ToolPanelKind::Debugger, wheel(2)),
        ToolStep::MoveIoMap(2)
    );
    app.handle_tool_window_event(ToolPanelKind::Console, ToolEvent::CloseRequested);
    assert!(app.console.is_none() && app.debugger.is_some());
}

#[test]
fn calibration_is_over_once_it_is_written() {
    let mut app = app();
    app.save_calibration(true);
    assert!(app.fx.take().is_empty());
    app.ui.panel = Some(Panel::Calibration);
    app.save_calibration(false);
    assert!(app.ui.panel.is_some());
    app.save_calibration(true);
    assert!(app.ui.panel.is_none());
    assert_eq!(
        app.fx.take(),
        vec![
            osd("Calibration save failed (see log)"),
            Effect::Redraw,
            osd("Gamepad calibration saved"),
        ]
    );
}

#[test]
fn a_kept_page_is_found_by_its_name() {
    let labels: Vec<String> = vec!["CPU".into(), "Memory".into(), "Video".into()];
    assert_eq!(tab_of(&labels, "Video"), 2);
    assert_eq!(tab_of(&labels, "gone"), 0);
    assert!(readable(16384) && !readable(16385));
    assert!(keeps_size(true, false, false, false));
    assert!(!keeps_size(true, false, true, false));
}

#[test]
fn the_enlarged_window_stays_on_its_monitor() {
    assert_eq!(workspace_place(100, 0, 1920, 1440, 8, 48), 100);
    assert_eq!(workspace_place(-50, 0, 1920, 1440, 8, 48), 8);
    assert_eq!(workspace_place(900, 0, 1920, 1440, 8, 48), 432);
    assert_eq!(workspace_place(900, -1920, 1280, 1440, 8, 48), -1912);
    assert!(title_bar_visible((0, 0), (0, 0), (160, 64)));
    assert!(!title_bar_visible((1, 0), (0, 0), (160, 64)));
    assert!(!title_bar_visible((0, -1), (0, 0), (1000, 1000)));
}

#[test]
fn the_window_gets_its_own_geometry_back() {
    let play = PlayGeometry {
        size: (800, 600),
        position: Some((5000, 10)),
    };
    let screen = vec![Monitor {
        position: (0, 0),
        size: (1920, 1080),
    }];
    let mut kept = None;
    remember_play_geometry(&mut kept, false, play);
    assert!(kept.is_none());
    remember_play_geometry(&mut kept, true, play);
    remember_play_geometry(
        &mut kept,
        true,
        PlayGeometry {
            size: (1, 1),
            position: None,
        },
    );
    assert_eq!(kept, Some(play));
    assert_eq!(
        restore_play_geometry(&mut kept, true, true, false, &screen),
        None
    );
    assert_eq!(
        restore_play_geometry(&mut kept, false, false, false, &screen),
        None
    );
    assert_eq!(
        restore_play_geometry(&mut kept, false, true, false, &screen),
        Some(PlayRestored {
            geometry: PlayGeometry {
                size: (800, 600),
                position: None
            },
            awaits_snap: true
        })
    );
    assert!(kept.is_none());
    let shown = PlayGeometry {
        size: (800, 600),
        position: Some((100, 100)),
    };
    kept = Some(shown);
    assert_eq!(
        restore_play_geometry(&mut kept, false, true, true, &screen),
        Some(PlayRestored {
            geometry: shown,
            awaits_snap: false
        })
    );
}

#[test]
fn events_go_to_whoever_has_the_input() {
    let mut app = app();
    let plain = HostModifiers {
        host: false,
        shift: false,
        mac: false,
    };
    let host = HostModifiers {
        host: true,
        ..plain
    };
    let key = |c: char| WorkspaceEvent::Key {
        key: HostKey::Letter(c),
        pressed: true,
        repeat: false,
    };
    assert_eq!(
        app.route_debug_workspace_event(key('X'), plain, false, false),
        Route::Main
    );
    app.open_debugger();
    assert!(app.desk.layout_active);
    assert_eq!(
        app.route_debug_workspace_event(key('X'), plain, false, false),
        Route::Inspectors { consumed: true }
    );
    assert_eq!(
        app.route_debug_workspace_event(WorkspaceEvent::Lifecycle, plain, false, false),
        Route::Inspectors { consumed: false }
    );
    assert_eq!(
        app.route_debug_workspace_event(key('P'), host, false, false),
        Route::Main
    );
    assert_eq!(
        app.route_debug_workspace_event(key('G'), host, false, false),
        Route::Taken
    );
    assert!(app.desk.guest_input);
    assert_eq!(
        app.route_debug_workspace_event(key('X'), plain, false, false),
        Route::Main
    );
    assert_eq!(
        app.route_debug_workspace_event(
            WorkspaceEvent::MousePress { inside: false },
            plain,
            false,
            false
        ),
        Route::Inspectors { consumed: true }
    );
    assert!(!app.desk.guest_input);
    let mac = HostModifiers { mac: true, ..host };
    let shift = HostModifiers {
        shift: true,
        ..host
    };
    assert!(host_shortcut_reaches_main(HostKey::Letter('A'), mac, false));
    assert!(!host_shortcut_reaches_main(HostKey::Letter('A'), mac, true));
    assert!(!host_shortcut_reaches_main(HostKey::Letter('L'), host, false));
    assert!(host_shortcut_reaches_main(HostKey::Letter('L'), shift, false));
    assert!(host_shortcut_reaches_main(HostKey::Digit(4), host, false));
    assert!(!host_shortcut_reaches_main(HostKey::Period, host, false));
}

#[test]
fn the_inspectors_are_laid_out_when_something_changed() {
    let mut app = app();
    assert_eq!(
        app.prepare_debug_workspace(false, true, false, true, true),
        Prepare::Hidden
    );
    app.open_console();
    assert_eq!(
        app.prepare_debug_workspace(true, true, false, true, true),
        Prepare::Hidden
    );
    assert_eq!(
        app.prepare_debug_workspace(false, false, true, false, false),
        Prepare::Keep
    );
    assert_eq!(
        app.prepare_debug_workspace(false, false, true, true, false),
        Prepare::Layout { refresh: false }
    );
    assert_eq!(
        app.prepare_debug_workspace(false, true, true, false, false),
        Prepare::Layout { refresh: true }
    );
    let repaint = |due: Option<u64>, idle: bool| {
        app.schedule_egui_debugger_repaint(false, false, due, 100, idle)
    };
    assert_eq!(repaint(None, true), Repaint::Nothing);
    assert_eq!(repaint(Some(100), false), Repaint::Now);
    assert_eq!(repaint(Some(101), true), Repaint::WaitUntil(101));
    assert_eq!(repaint(Some(101), false), Repaint::Nothing);
}

#[test]
fn an_inspectors_window_follows_it() {
    assert_eq!(
        ensure_tool_window_for_kind(false, Some(false), true),
        WindowPlan::Close
    );
    assert_eq!(
        ensure_tool_window_for_kind(true, None, false),
        WindowPlan::Create
    );
    assert_eq!(
        ensure_tool_window_for_kind(true, Some(false), true),
        WindowPlan::Redraw
    );
    assert_eq!(
        ensure_tool_window_for_kind(true, Some(true), true),
        WindowPlan::Keep
    );
    assert_eq!(refresh_tool_windows_paced(100, 149, 50), (false, 100));
    assert_eq!(refresh_tool_windows_paced(100, 150, 50), (true, 150));
    assert_eq!(
        ToolPanelKind::FrameAnalyzer.tool_window_title(),
        "Copperline Frame Analyzer"
    );
}
