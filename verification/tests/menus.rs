//! The menu: following the pointer, walking it, and what its rows do.

use copperline::app::App;
use copperline::captures::Recording;
use copperline::desk::ToolPanelKind;
use copperline::effects::{Effect, Effects};
use copperline::entry::Key;
use copperline::machine::Machine;
use copperline::menu::{
    AudioFilter, Menu, MenuAction, MenuRow, Mt32Mode, Pointer, RowKind, RowPress,
    ShaderKind,
};
use copperline::menu_actions::{activate_bar_control, BarStep, MenuFacts, MenuStep};
use copperline::menu_state::{
    AudioOutput, AudioOutputChoice, CsynthUnit, MenuSettings, MenuSource, Mt32Unit,
};
use copperline::nav::BarControl;
use copperline::session::RunaheadFacts;
use copperline::ui::Panel;
use copperline::warp::WarpSpeed;

fn run(action: MenuAction, closes: bool) -> MenuRow {
    MenuRow {
        enabled: true,
        kind: RowKind::Run(action, closes),
    }
}

fn rows() -> Vec<MenuRow> {
    vec![
        run(MenuAction::OpenAbout, true),
        MenuRow {
            enabled: true,
            kind: RowKind::Submenu(vec![
                run(MenuAction::ToggleWarp, false),
                MenuRow {
                    enabled: false,
                    kind: RowKind::Submenu(vec![run(MenuAction::Quit, true)]),
                },
            ]),
        },
        MenuRow {
            enabled: true,
            kind: RowKind::Text,
        },
    ]
}

fn menu() -> Menu {
    Menu {
        open: true,
        rows: rows(),
        path: vec![],
        cursor: None,
        hover_arm: None,
    }
}

fn app() -> App {
    App::new(Machine::new(0x00FF_FFFF), true)
}

fn facts(label: &str) -> MenuFacts {
    MenuFacts {
        label: label.into(),
        failure: None,
        shown: false,
        fitted: false,
        sampler: false,
        runahead: RunaheadFacts {
            time_travel: false,
            rtg: false,
            recording: false,
            serial_is_midi: false,
            serial_safe: true,
            debug_block: false,
            coverage_block: false,
            machine_block: false,
            host_block: false,
        },
        block: String::new(),
        window: None,
        modifier: "Alt".into(),
        recording: Recording { active: false },
        slots: true,
        slot_written: true,
    }
}

fn osd(text: &str) -> Effect<String> {
    Effect::Osd(text.to_string())
}

#[test]
fn a_submenu_opens_once_the_pointer_has_rested() {
    let mut m = menu();
    let mut fx = Effects::new();
    let on = Pointer::On { depth: 0, row: 1 };
    assert!(m.follow_menu_hover(&mut fx, on, 100, 250));
    assert_eq!((m.path.len(), m.cursor), (0, Some(1)));
    assert_eq!(m.hover_arm, Some((0, 1, 100)));
    assert_eq!(fx.take(), vec![Effect::Redraw]);
    m.poll_menu_hover_arm(&mut fx, on, 300, 250);
    assert!(m.path.is_empty());
    m.poll_menu_hover_arm(&mut fx, on, 350, 250);
    assert_eq!(m.path, vec![1]);
    assert_eq!(m.cursor, None);
    assert!(!m.follow_menu_hover(&mut fx, on, 400, 250));
}

#[test]
fn passing_through_opens_nothing_and_closes_what_is_deeper() {
    let mut m = menu();
    let mut fx = Effects::new();
    m.path = vec![1];
    m.cursor = Some(0);
    assert!(m.follow_menu_hover(&mut fx, Pointer::On { depth: 0, row: 0 }, 0, 250));
    assert_eq!((m.path.len(), m.cursor, m.hover_arm), (0, Some(0), None));
    m.follow_menu_hover(&mut fx, Pointer::On { depth: 0, row: 1 }, 0, 250);
    assert!(!m.follow_menu_hover(&mut fx, Pointer::Off, 10, 250));
    assert_eq!(m.hover_arm, None);
    assert!(!m.follow_menu_hover(&mut fx, Pointer::Away, 10, 250));
    fx.take();
    m.hover_arm = Some((0, 1, 0));
    m.poll_menu_hover_arm(&mut fx, Pointer::Off, 900, 250);
    assert!(m.path.is_empty() && m.hover_arm.is_none());
    assert!(fx.take().is_empty());
}

#[test]
fn going_down_and_up_returns_to_the_row() {
    let mut m = menu();
    m.land(true);
    assert_eq!(m.cursor, Some(0));
    assert!(!m.descend());
    assert!(m.step_within(true));
    assert!(m.descend());
    assert_eq!((m.path.clone(), m.cursor), (vec![1], Some(0)));
    assert!(m.step_within(true));
    assert!(!m.descend(), "a row that cannot be used does not open");
    assert!(!m.step_within(true), "a level does not cycle");
    assert!(m.ascend());
    assert_eq!((m.path.len(), m.cursor), (0, Some(1)));
    assert!(!m.ascend());
    m.land(false);
    assert_eq!(m.cursor, Some(2));
    assert!(m.menu_row_at(0, 2).is_some());
    assert!(m.menu_row_at(1, 0).is_none());
    m.path = vec![1];
    assert_eq!(m.menu_path_to(5), vec![1]);
    assert!(m.menu_row_at(1, 1).unwrap().is_submenu());
}

#[test]
fn picking_a_row_opens_runs_or_does_nothing() {
    let mut m = menu();
    let mut fx = Effects::new();
    assert_eq!(m.activate_menu_row(&mut fx), RowPress::Nothing);
    m.cursor = Some(2);
    assert_eq!(m.activate_menu_row(&mut fx), RowPress::Nothing);
    m.cursor = Some(1);
    assert_eq!(m.activate_menu_row(&mut fx), RowPress::Opened);
    assert_eq!(m.path, vec![1]);
    assert_eq!(
        m.activate_menu_row(&mut fx),
        RowPress::Run {
            action: MenuAction::ToggleWarp,
            closes: false
        }
    );
    assert!(m.open);
    m.menu_acted(&mut fx, Some(vec![]));
    assert!(m.rows.is_empty());
    let mut m = menu();
    m.cursor = Some(0);
    assert_eq!(
        m.activate_menu_row(&mut fx),
        RowPress::Run {
            action: MenuAction::OpenAbout,
            closes: true
        }
    );
    assert!(!m.open && m.rows.is_empty() && m.cursor.is_none());
}

#[test]
fn the_menu_opens_at_its_foot_and_hands_the_mouse_back() {
    let mut app = app();
    app.guest.mouse_captured = true;
    app.toggle_menu(rows());
    assert!(app.ui.menu.open && !app.guest.mouse_captured);
    assert_eq!(app.ui.menu.cursor, Some(2));
    assert_eq!(
        app.fx.take(),
        vec![Effect::CaptureMouse(false), Effect::Redraw]
    );
    app.toggle_menu(rows());
    assert!(!app.ui.menu.open);
    assert_eq!(
        app.fx.take(),
        vec![Effect::AutoCaptureMouse, Effect::Redraw]
    );
}

#[test]
fn one_pad_button_always_leads_back_to_the_machine() {
    let mut app = app();
    app.guest.mouse_captured = true;
    app.toggle_pad_interface(rows());
    assert!(app.ui.menu.open && !app.guest.mouse_captured);
    assert_eq!(app.ui.menu.cursor, Some(0));
    app.toggle_pad_interface(rows());
    assert!(!app.ui.menu.open && app.ui.menu.cursor.is_none());
    assert!(!app.ui.nav.showing);
    app.toggle_pad_interface(vec![]);
    assert!(app.ui.menu.open && app.ui.menu.cursor.is_none());
    app.toggle_pad_interface(rows());
    app.ui.panel = Some(Panel::About);
    app.toggle_pad_interface(rows());
    assert!(app.ui.panel.is_none() && !app.ui.menu.open);
    app.open_debugger();
    app.toggle_pad_interface(rows());
    assert!(app.debugger.is_none() && !app.ui.menu.open);
    app.open_console();
    assert!(!app.ui_handle_tool_key(ToolPanelKind::Console, Key::Enter));
    assert!(app.ui_handle_tool_key(ToolPanelKind::Console, Key::Escape));
    assert!(app.console.is_none());
}

#[test]
fn rows_act_and_keep_what_was_set() {
    let mut app = app();
    assert_eq!(
        app.run_menu_action(MenuAction::OpenDebugger, &facts("")),
        MenuStep::Done
    );
    assert!(app.debugger.is_some());
    assert_eq!(app.fx.take().last(), Some(&Effect::PersistPreferences));
    app.run_menu_action(MenuAction::OpenAbout, &facts(""));
    assert_eq!(app.ui.panel, Some(Panel::About));
    app.run_menu_action(MenuAction::Quit, &facts(""));
    assert!(app.ui.quit_requested);
    assert_eq!(
        app.run_menu_action(MenuAction::TogglePerfOverlay, &facts("")),
        MenuStep::Host
    );
    app.fx.take();
    app.menu_host_done();
    assert_eq!(app.fx.take(), vec![Effect::PersistPreferences]);
}

#[test]
fn slots_of_the_menu_count_from_one() {
    let mut app = app();
    let mut f = facts("");
    assert_eq!(
        app.run_menu_action(MenuAction::QuickSave(0), &f),
        MenuStep::Save { slot: 1 }
    );
    assert!(app.session.audio_suspended && app.fx.take().is_empty());
    assert_eq!(
        app.run_menu_action(MenuAction::QuickLoad(9), &f),
        MenuStep::Load { slot: 10 }
    );
    assert_eq!(app.fx.take(), vec![Effect::ReleaseKeyboardHolds]);
    f.slot_written = false;
    assert_eq!(
        app.run_menu_action(MenuAction::QuickLoad(9), &f),
        MenuStep::Done
    );
    assert_eq!(
        app.fx.take(),
        vec![osd("Slot 10 is empty"), Effect::PersistPreferences]
    );
    f.slots = false;
    for action in [MenuAction::QuickSave(2), MenuAction::QuickLoad(2)] {
        assert_eq!(app.run_menu_action(action, &f), MenuStep::Done);
        assert_eq!(
            app.fx.take(),
            vec![
                osd("No per-user directory for save slots"),
                Effect::PersistPreferences
            ]
        );
    }
}

#[test]
fn rows_start_what_the_host_finishes() {
    let mut f = facts("");
    let ask = |action: MenuAction, f: &MenuFacts| {
        let mut app = app();
        let step = app.run_menu_action(action, f);
        (step, app.session.audio_suspended, app.fx.take())
    };
    assert_eq!(
        ask(MenuAction::SaveState, &f),
        (MenuStep::SaveFile, true, vec![])
    );
    assert_eq!(
        ask(MenuAction::LoadState, &f),
        (MenuStep::LoadFile, true, vec![])
    );
    assert_eq!(ask(MenuAction::LoadRom, &f), (MenuStep::Rom, true, vec![]));
    assert_eq!(
        ask(MenuAction::ResetMachine, &f),
        (MenuStep::Reset, false, vec![Effect::ReleaseKeyboardHolds])
    );
    assert_eq!(
        ask(MenuAction::ToggleRecord, &f),
        (MenuStep::Record { start: true }, false, vec![])
    );
    f.recording.active = true;
    assert_eq!(
        ask(MenuAction::ToggleRecord, &f).0,
        MenuStep::Record { start: false }
    );
    f.window = Some(false);
    assert_eq!(
        ask(MenuAction::ToggleFullscreen, &f),
        (
            MenuStep::Done,
            false,
            vec![
                Effect::Fullscreen(true),
                osd("Fullscreen on (Alt+F restores)"),
                Effect::AutoCaptureMouse,
                Effect::PersistPreferences,
            ]
        )
    );
}

#[test]
fn settings_of_the_host_take_the_value_that_was_chosen() {
    let chosen = |action: MenuAction, f: &MenuFacts| {
        let mut app = app();
        app.run_menu_action(action, f);
        app.fx.take().into_iter().next()
    };
    for action in [
        MenuAction::SetAudioFilter(AudioFilter::Off),
        MenuAction::SetTint(4),
        MenuAction::SetPortDevice(1, 3),
        MenuAction::SetFloppySpeed(200),
        MenuAction::SetShader(ShaderKind::Custom),
        MenuAction::SetShader(ShaderKind::BuiltIn(2)),
    ] {
        assert_eq!(
            chosen(action, &facts("x")),
            Some(Effect::Apply(action)),
            "{action:?}"
        );
    }
    let mut failed = facts("off");
    failed.failure = Some("line 3".into());
    assert_eq!(
        chosen(MenuAction::SetShader(ShaderKind::Custom), &failed),
        Some(Effect::Apply(MenuAction::SetShader(ShaderKind::Off)))
    );
    assert_eq!(
        chosen(MenuAction::SetShader(ShaderKind::BuiltIn(1)), &failed),
        Some(Effect::Apply(MenuAction::SetShader(ShaderKind::BuiltIn(1))))
    );
    let mut sampling = facts("Line in");
    assert_eq!(
        chosen(MenuAction::SetSamplerInput(2), &sampling),
        Some(Effect::PersistPreferences)
    );
    sampling.sampler = true;
    assert_eq!(
        chosen(MenuAction::SetSamplerInput(2), &sampling),
        Some(Effect::Apply(MenuAction::SetSamplerInput(2)))
    );
}

#[test]
fn settings_say_what_they_became() {
    let say = |action: MenuAction, f: &MenuFacts| {
        let mut app = app();
        app.run_menu_action(action, f);
        let mut told = app.fx.take();
        told.retain(|e| !matches!(e, Effect::Apply(_)));
        told
    };
    assert_eq!(
        say(
            MenuAction::SetAudioFilter(AudioFilter::On),
            &facts("")
        )[0],
        osd("Audio filter: Enabled")
    );
    assert_eq!(
        say(MenuAction::SetPortDevice(1, 0), &facts("Mouse"))[0],
        osd("Port 2: Mouse")
    );
    assert_eq!(
        say(MenuAction::SetWarpLimit(WarpSpeed::X8), &facts(""))[0],
        osd("Warp limit: 8x (warp off)")
    );
    assert_eq!(
        say(MenuAction::SetCsynthMt32Mode(Mt32Mode::Auto), &facts(""))[0],
        osd("Coppersynth: MT-32 mode auto")
    );
    assert_eq!(
        say(MenuAction::StepShaderStrength(true), &facts("70"))[0],
        osd("Shader strength: 70%")
    );
    let mut failed = facts("scanlines");
    failed.failure = Some("no such file".into());
    assert_eq!(
        say(MenuAction::SetShader(ShaderKind::Custom), &failed)[0],
        osd("CRT shader: scanlines (custom failed: no such file)")
    );
    assert_eq!(
        say(MenuAction::SetShader(ShaderKind::BuiltIn(1)), &failed)[0],
        osd("CRT shader: scanlines")
    );
    assert_eq!(
        say(MenuAction::SetRunAhead(1), &facts(""))[0],
        osd("Run Ahead: 1 frame")
    );
    let mut blocked = facts("");
    blocked.runahead.rtg = true;
    assert_eq!(
        say(MenuAction::SetRunAhead(2), &blocked)[0],
        osd("Run Ahead: 2 frames (inactive: RTG display active)")
    );
    assert_eq!(
        say(MenuAction::SetRunAhead(0), &blocked)[0],
        osd("Run Ahead: off")
    );
    let mut faulty = facts("Roland");
    faulty.failure = Some("no ROM".into());
    assert_eq!(
        say(MenuAction::SetMidiOutput(0), &faulty),
        vec![
            Effect::Warning("MT-32: no ROM".into()),
            osd("MIDI output: Roland"),
            Effect::PersistPreferences,
        ]
    );
    assert_eq!(
        say(MenuAction::ResetCsynthSoundfont, &faulty)[0],
        Effect::Warning("Coppersynth: no ROM".into())
    );
    faulty.fitted = true;
    assert_eq!(
        say(MenuAction::ResetCsynthSoundfont, &faulty)[0],
        osd("Coppersynth: GeneralUser-GS")
    );
    assert_eq!(
        say(MenuAction::SetSamplerInput(0), &facts("Line in")),
        vec![Effect::PersistPreferences]
    );
}

#[test]
fn the_bar_leaves_a_real_drive_alone() {
    assert_eq!(
        activate_bar_control(BarControl::DriveLoad(2), false),
        BarStep::Load(2)
    );
    assert_eq!(
        activate_bar_control(BarControl::DriveLoad(2), true),
        BarStep::Nothing
    );
    assert_eq!(
        activate_bar_control(BarControl::Reboot, false),
        BarStep::Reset
    );
    assert_eq!(
        activate_bar_control(BarControl::Volume, false),
        BarStep::Nothing
    );
}

#[test]
fn the_menu_shows_the_machine_as_it_is() {
    let mut app = app();
    app.session.run_ahead_frames = 3;
    app.session.toggle_warp(&mut app.fx);
    app.ui.bar_hidden = true;
    let settings = MenuSettings {
        player: false,
        player_save_states: true,
        bezel: 1,
        perf_overlay: true,
        autofire_hz: 12,
        joystick_input_mode: 2,
        port_one: 3,
        port_two: 4,
        pixel_aspect: 5,
        scaling: 6,
        tv_centre_h: -1,
        tv_centre_v: 2,
        shader: ShaderKind::BuiltIn(7),
        shader_strength: 80,
        tint: 8,
        menu_scale: 9,
        floppy_speed: 200,
        audio_filter: AudioFilter::On,
        mt32_panel: true,
        csynth_panel: false,
        keyboard_panel: true,
        mt32_lcd: 1,
        sampler_gain: -30,
    };
    let source = |midi: bool| MenuSource {
        settings,
        audio_output: AudioOutput::Device("Speakers".into()),
        audio_devices: vec!["Speakers".into(), "Headset".into()],
        custom_shader: true,
        fullscreen: true,
        recording: false,
        input_recording: true,
        rewind: false,
        serial_is_midi: midi,
        midi_in: "Keys".into(),
        midi_out: "Synth".into(),
        midi_inputs: vec!["Keys".into()],
        midi_outputs: vec!["Synth".into()],
        mt32_built: true,
        csynth_built: false,
        mt32: Some(Mt32Unit {
            selected: true,
            attached: false,
            input: true,
            control_rom: Some("ctrl.rom".into()),
            pcm_rom: None,
        }),
        csynth: Some(CsynthUnit {
            selected: true,
            mt32_mode: "auto".into(),
            custom_font: true,
        }),
        sampling: false,
        sampler_input: None,
        sampler_inputs: vec!["Line in".into()],
        overscan_tv: true,
        image_drive: false,
        save_slots: vec![None, Some("yesterday".into())],
    };
    let m = app.build_menu(source(true));
    assert!(m.warp && m.fullscreen && m.input_recording && m.tv_centre_applies);
    assert_eq!(m.run_ahead_frames, 3);
    assert_eq!(m.settings, settings);
    assert_eq!(m.audio_output, AudioOutputChoice::Named("Speakers".into()));
    assert_eq!(m.audio_devices[1], "Headset");
    assert!(m.custom_shader_available && m.status_bar_hidden);
    let mut silent = source(true);
    silent.audio_output = AudioOutput::Disabled;
    assert_eq!(
        app.build_menu(silent).audio_output,
        AudioOutputChoice::Disabled
    );
    assert_eq!(m.midi_in, "Keys");
    assert!(m.mt32_available && m.mt32_selected && !m.mt32_attached);
    assert_eq!(m.mt32_control_rom, Some("ctrl.rom".into()));
    assert!(!m.csynth_available && m.csynth_attached);
    assert!(m.sampler_inputs.is_empty());
    assert_eq!(m.save_slots[1], Some("yesterday".into()));
    let m = app.build_menu(source(false));
    assert!(m.midi_in.is_empty() && m.midi_inputs.is_empty() && !m.mt32_available);
}
