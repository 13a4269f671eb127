//! The session: pausing, power, warp, run-ahead, and saved states.

use copperline::app::App;
use copperline::effects::{Effect, Effects};
use copperline::entry::Key;
use copperline::launcher::Launcher;
use copperline::machine::Machine;
use copperline::nav::Dir;
use copperline::saves::Loaded;
use copperline::session::{
    BootOutcome, Gate, LaunchOutcome, RunaheadBlock, RunaheadFacts, Session,
};
use copperline::states::{states_deleted, StatesAction, StatesOp, StatesStep};
use copperline::ui::Panel;
use copperline::warp::{WarpHolds, WarpSource, WarpSpeed};

fn app() -> App {
    App::new(Machine::new(0x00FF_FFFF), true)
}

fn osd(text: &str) -> Effect<String> {
    Effect::Osd(text.to_string())
}

fn told(text: &str) -> Effect<String> {
    Effect::NotifyWarp(text.to_string())
}

const CLEAR: RunaheadFacts = RunaheadFacts {
    time_travel: false,
    rtg: false,
    recording: false,
    serial_is_midi: false,
    serial_safe: true,
    debug_block: false,
    coverage_block: false,
    machine_block: false,
    host_block: false,
};

#[test]
fn holders_are_reported_in_order_and_in_words() {
    let mut holds = WarpHolds::new();
    assert_eq!(holds.describe(), "nobody");
    assert_eq!(holds.first(), None);
    holds.insert(WarpSource::Guest);
    holds.insert(WarpSource::Control);
    assert_eq!(holds.iter(), vec![WarpSource::Control, WarpSource::Guest]);
    assert_eq!(holds.labels(), vec!["control", "guest"]);
    assert_eq!(holds.describe(), "control client and guest request");
    holds.insert(WarpSource::Gdb);
    assert_eq!(
        holds.describe(),
        "control client, gdb client and guest request"
    );
    holds.insert(WarpSource::Manual);
    assert!(!holds.contains(WarpSource::Manual));
    holds.remove(WarpSource::Gdb);
    assert!(!holds.contains(WarpSource::Gdb));
    assert!(holds.contains(WarpSource::Control));
}

#[test]
fn the_last_release_paces_the_machine() {
    let mut s = Session::new(true);
    let mut fx = Effects::new();
    let on = s.set_warp(&mut fx, true, WarpSource::Gdb);
    assert!(on.changed && on.note.is_none());
    assert_eq!(
        fx.take(),
        vec![osd("Warp on (gdb client)"), told("gdb"), Effect::Redraw]
    );
    assert!(s.audio_suspended, "a programmatic warp is silent");
    s.set_warp(&mut fx, true, WarpSource::Guest);
    fx.take();
    let off = s.set_warp(&mut fx, false, WarpSource::Gdb);
    assert!(!off.changed);
    assert_eq!(
        off.note,
        Some("warp stays on: held by guest request".into())
    );
    assert_eq!(
        fx.take(),
        vec![
            osd("Warp stays on (guest request)"),
            told("gdb"),
            Effect::Redraw
        ]
    );
    assert!(!s.paced);
    let off = s.set_warp(&mut fx, false, WarpSource::Guest);
    assert!(off.changed && off.note.is_none());
    assert!(s.paced && !s.audio_suspended);
}

#[test]
fn the_manual_toggle_is_audible_and_ends_every_warp() {
    let mut s = Session::new(true);
    let mut fx = Effects::new();
    s.toggle_warp(&mut fx);
    assert!(!s.paced && !s.audio_suspended);
    assert_eq!(
        fx.take(),
        vec![osd("Warp speed on (2x)"), told("manual"), Effect::Redraw]
    );
    s.set_warp(&mut fx, true, WarpSource::Control);
    s.boot = Some(Gate {
        started: true,
        engaged: true,
    });
    fx.take();
    s.toggle_warp(&mut fx);
    assert!(s.paced && s.holds.is_empty() && s.boot.is_none());
    assert_eq!(
        fx.take(),
        vec![osd("Warp off"), told("manual"), Effect::Redraw]
    );
}

#[test]
fn capture_runs_and_bridged_drives_refuse_warp() {
    let mut fx = Effects::new();
    let mut s = Session::new(true);
    s.capture_run = true;
    let refused = s.set_warp(&mut fx, true, WarpSource::Control);
    assert_eq!(
        refused.note,
        Some("capture run is unpaced end to end; warp is fixed".into())
    );
    assert!(fx.take().is_empty());
    let mut s = Session::new(true);
    s.bridged = true;
    let refused = s.set_warp(&mut fx, true, WarpSource::Control);
    assert_eq!(
        refused.note,
        Some("a bridged physical floppy drive keeps the machine paced".into())
    );
    assert!(s.paced && s.holds.is_empty());
    assert_eq!(
        fx.take(),
        vec![
            osd("Warp unavailable: physical floppy drive attached"),
            Effect::Redraw
        ]
    );
}

#[test]
fn boot_phases_start_once_and_end_with_a_word() {
    let mut s = Session::new(true);
    let mut fx = Effects::new();
    s.launch = Some(Gate {
        started: false,
        engaged: false,
    });
    assert!(s.engage_warp_launch(&mut fx));
    assert!(!s.paced && s.audio_suspended);
    assert!(!s.engage_warp_launch(&mut fx));
    assert_eq!(fx.take(), vec![told("launch")]);
    assert!(!s.poll_warp_launch(&mut fx, LaunchOutcome::Waiting, "game"));
    assert!(s.poll_warp_launch(&mut fx, LaunchOutcome::Loaded, "game"));
    assert!(s.paced && s.launch.is_none());
    assert_eq!(
        fx.take(),
        vec![told("launch"), osd("Warp launch: game running")]
    );
    s.boot = Some(Gate {
        started: false,
        engaged: false,
    });
    assert!(s.engage_warp_boot(&mut fx));
    s.set_warp(&mut fx, true, WarpSource::Gdb);
    fx.take();
    assert!(s.poll_warp_boot(&mut fx, BootOutcome::TimedOut));
    assert!(!s.paced, "the hold outlives the phase");
    assert_eq!(
        fx.take(),
        vec![osd("Warp boot: storage never settled, warp off")]
    );
}

#[test]
fn the_speed_cycles_and_sizes_the_burst() {
    let mut s = Session::new(true);
    let mut fx = Effects::new();
    s.cycle_warp_speed(&mut fx);
    assert_eq!(s.warp_speed, WarpSpeed::X4);
    assert_eq!(
        fx.take(),
        vec![osd("Warp limit: 4x (warp off)"), Effect::Redraw]
    );
    assert_eq!(s.warp_burst_plan(false), (1, None));
    s.toggle_warp(&mut fx);
    assert_eq!(s.warp_burst_plan(false), (4, None));
    assert_eq!(s.warp_burst_plan(true), (1, None));
    s.warp_speed = WarpSpeed::Max;
    s.max_frame_cap = 200;
    s.max_budget_ms = 12;
    assert_eq!(s.warp_burst_plan(false), (200, Some(12)));
    assert_eq!(WarpSpeed::Max.next(), WarpSpeed::X2);
}

#[test]
fn run_ahead_is_blocked_by_the_first_reason() {
    let mut s = Session::new(true);
    s.run_ahead_frames = 2;
    assert_eq!(s.runahead_effective_frames(CLEAR), 2);
    assert_eq!(s.burst_frames(false, CLEAR), (3, 2, None));
    assert_eq!(s.burst_frames(true, CLEAR), (1, 0, None));
    let blocked = RunaheadFacts {
        rtg: true,
        recording: true,
        ..CLEAR
    };
    assert_eq!(s.runahead_block_reason(blocked), Some(RunaheadBlock::Rtg));
    assert_eq!(RunaheadBlock::Rtg.describe(), Some("RTG display active"));
    assert_eq!(s.runahead_effective_frames(blocked), 0);
    s.loaded_state = true;
    assert_eq!(
        s.runahead_block_reason(CLEAR),
        Some(RunaheadBlock::LoadedState)
    );
    s.loaded_state = false;
    s.restore_runahead_anchor(Some(true), true, true);
    assert_eq!(s.run_ahead_frames, 2);
    s.restore_runahead_anchor(None, true, false);
    assert_eq!(s.run_ahead_frames, 2);
    s.restore_runahead_anchor(Some(false), true, true);
    assert_eq!(s.run_ahead_frames, 0);
}

#[test]
fn a_pause_from_the_window_answers_the_clients() {
    let mut app = app();
    app.session.control_pending = true;
    app.toggle_pause();
    assert!(app.session.paused && !app.session.control_pending);
    assert_eq!(
        app.fx.take(),
        vec![
            Effect::ControlStopped {
                reason: "user_pause".into(),
                detail: "paused from the window".into()
            },
            Effect::Redraw
        ]
    );
    app.toggle_pause();
    assert!(!app.session.paused);
    assert_eq!(app.fx.take(), vec![Effect::Redraw]);
}

#[test]
fn a_power_cycle_leaves_no_warp_and_no_key_behind() {
    let mut app = app();
    app.guest.held[0x60] = true;
    app.session
        .set_warp(&mut app.fx, true, WarpSource::Gdb);
    app.fx.take();
    assert!(app.toggle_power());
    assert!(!app.session.powered_on);
    assert!(app.session.paced && app.session.holds.is_empty());
    assert_eq!(
        app.fx.take(),
        vec![
            Effect::ReleaseKeyboardHolds,
            told("power_off"),
            Effect::ReleaseDrives
        ]
    );
    app.power_off_done(true);
    assert!(!app.guest.held[0x60]);
    assert_eq!(
        app.fx.take(),
        vec![
            Effect::ResetRender,
            Effect::ParkTestScreen,
            Effect::Redraw
        ]
    );
    assert!(!app.toggle_power());
    assert!(app.session.powered_on && !app.session.audio_suspended);
    assert_eq!(
        app.fx.take(),
        vec![Effect::AttachDrives, Effect::Redraw]
    );
}

#[test]
fn a_failed_reset_halts_the_processor() {
    let mut app = app();
    app.reset_emulator();
    assert_eq!(app.fx.take(), vec![Effect::ReleaseKeyboardHolds]);
    app.reset_done(false, true);
    assert!(app.session.cpu_halted && app.session.audio_suspended);
    assert!(app.fx.take().is_empty());
    app.reset_done(true, true);
    assert!(!app.session.cpu_halted);
    assert_eq!(app.fx.take(), vec![Effect::ResetRender]);
}

#[test]
fn the_freezer_and_full_screen_say_what_they_did() {
    let mut app = app();
    assert!(!app.freeze_cartridge(false));
    assert_eq!(app.fx.take(), vec![osd("No freezer cartridge fitted")]);
    assert!(app.freeze_cartridge(true));
    app.freeze_done("HRTmon", &Ok(()));
    assert_eq!(
        app.fx.take(),
        vec![Effect::RecordFreeze, osd("Freeze (HRTmon)")]
    );
    app.freeze_done("HRTmon", &Err("not armed".into()));
    assert_eq!(app.fx.take(), vec![osd("Freeze failed: not armed")]);
    app.toggle_fullscreen(None, "Alt");
    assert!(app.fx.take().is_empty());
    app.toggle_fullscreen(Some(false), "Alt");
    assert_eq!(
        app.fx.take(),
        vec![
            Effect::Fullscreen(true),
            osd("Fullscreen on (Alt+F restores)"),
            Effect::AutoCaptureMouse
        ]
    );
    app.toggle_fullscreen(Some(true), "Alt");
    assert_eq!(
        app.fx.take(),
        vec![Effect::Fullscreen(false), osd("Fullscreen off")]
    );
}

#[test]
fn the_guests_lines_and_its_warp_are_served() {
    let mut app = app();
    app.open_console();
    app.fx.take();
    assert!(app.service_uaelib(&vec!["hello".to_string()], Some(true)));
    assert!(!app.session.paced);
    assert_eq!(
        app.console.as_ref().unwrap().output,
        vec!["DBG: hello".to_string()]
    );
    assert!(!app.service_uaelib(&vec![], None));
}

#[test]
fn states_are_saved_and_restored_whole() {
    let mut app = app();
    app.save_state_done("a.state", true);
    assert_eq!(
        app.fx.take(),
        vec![osd("Saved a.state"), Effect::ReanchorClock]
    );
    app.save_state_done("a.state", false);
    assert_eq!(
        app.fx.take(),
        vec![osd("State save failed (see log)"), Effect::ReanchorClock]
    );
    app.session.cpu_halted = true;
    let before = app.session;
    assert!(!app.load_state_done("b", &None, false));
    assert_eq!(app.session, before, "a failed load changes nothing");
    assert_eq!(app.fx.take(), vec![osd("State load failed (see log)")]);
    let done = Some(Loaded {
        summary: "A1200".into(),
        reconfigured: true,
    });
    assert!(app.load_state_done("b", &done, false));
    assert!(app.session.loaded_state && !app.session.cpu_halted);
    assert_eq!(
        app.fx.take(),
        vec![
            Effect::ResetRender,
            Effect::DropPlaylists,
            osd("Loaded b (reconfigured to A1200)"),
            Effect::Redraw
        ]
    );
}

#[test]
fn a_state_over_the_configuration_screen_brings_sound() {
    let mut app = App::new(Machine::new(0x00FF_FFFF), false);
    app.ui.panel = Some(Panel::Launcher(Launcher::new()));
    let done = Some(Loaded {
        summary: String::new(),
        reconfigured: false,
    });
    assert!(app.load_state_done("b", &done, true));
    assert!(app.session.powered_on);
    assert!(app.ui.panel.is_none());
    assert!(app.fx.take().contains(&Effect::InstallAudio));
    app.audio_installed(true);
    assert!(!app.session.audio_suspended);
}

#[test]
fn slots_say_when_they_are_empty() {
    let mut app = app();
    assert_eq!(app.quick_save_state(3, false), None);
    assert_eq!(
        app.fx.take(),
        vec![osd("No per-user directory for save slots")]
    );
    assert_eq!(app.quick_save_state(3, true), Some(3));
    assert!(app.session.audio_suspended);
    app.quick_save_done(3, true);
    assert!(!app.session.audio_suspended);
    assert_eq!(
        app.fx.take(),
        vec![osd("Slot 3 saved"), Effect::ReanchorClock]
    );
    app.quick_save_done(3, false);
    assert_eq!(app.fx.take()[0], osd("Slot 3 save failed (see log)"));
    assert!(!app.quick_load_state(4, true, false));
    assert_eq!(app.fx.take(), vec![osd("Slot 4 is empty")]);
    assert!(app.quick_load_state(4, true, true));
    assert_eq!(app.fx.take(), vec![Effect::ReleaseKeyboardHolds]);
    let done = Some(Loaded {
        summary: String::new(),
        reconfigured: false,
    });
    assert!(app.quick_load_done(4, "slot4", &done, false));
    assert!(app.fx.take().contains(&osd("Slot 4 loaded")));
}

#[test]
fn a_lost_device_and_a_screenshot_are_told() {
    let mut app = app();
    app.audio_recovered(false);
    assert!(app.fx.take().is_empty());
    app.audio_recovered(true);
    assert_eq!(
        app.fx.take(),
        vec![osd("Audio device lost! Switched to Default")]
    );
    app.screenshot_saved("shot.png");
    assert_eq!(app.fx.take(), vec![osd("Saved shot.png")]);
}

#[test]
fn the_lines_about_the_machine_follow_the_rom() {
    let mut app = app();
    let mut about = vec![
        "Machine: A500".to_string(),
        "ROM: 1.3".to_string(),
        "Chip: 512K".to_string(),
    ];
    app.rom_load_done(&mut about, Some(("ROM: 3.1", Some("Extended ROM: CD32"))));
    assert_eq!(
        about,
        vec![
            "Machine: A500",
            "ROM: 3.1",
            "Extended ROM: CD32",
            "Chip: 512K"
        ]
    );
    app.rom_load_done(&mut about, Some(("ROM: 2.0", None)));
    assert_eq!(about, vec!["Machine: A500", "ROM: 2.0", "Chip: 512K"]);
    app.fx.take();
    app.rom_load_done(&mut about, None);
    assert_eq!(app.fx.take()[0], osd("ROM load failed (see log)"));
    let mut bare: Vec<String> = vec![];
    app.rom_load_done(&mut bare, Some(("ROM: 1.3", None)));
    assert_eq!(bare, vec!["ROM: 1.3"]);
}

#[test]
fn the_states_browser_asks_before_it_deletes() {
    let mut app = app();
    assert!(!app.ui.open_states_browser(&mut app.fx, false));
    assert!(app.ui.open_states_browser(&mut app.fx, true));
    let ui = &mut app.ui;
    assert_eq!(
        ui.states_handle_key(&mut app.fx, Key::Down),
        Some(StatesOp::Step(Dir::Down))
    );
    assert_eq!(
        ui.states_handle_key(&mut app.fx, Key::Delete),
        Some(StatesOp::AskDelete)
    );
    assert_eq!(ui.states_handle_key(&mut app.fx, Key::Escape), None);
    ui.set_confirm_delete(true);
    assert_eq!(
        ui.states_handle_key(&mut app.fx, Key::Backspace),
        Some(StatesOp::ConfirmDelete)
    );
    assert_eq!(
        ui.states_handle_key(&mut app.fx, Key::Escape),
        Some(StatesOp::Withdraw)
    );
    assert!(!ui.states_nav_back(&mut app.fx));
    ui.set_confirm_delete(true);
    assert!(ui.states_nav_back(&mut app.fx));
    assert_eq!(
        app.states_act(StatesAction::Delete(5), 3),
        StatesStep::Nothing
    );
    assert_eq!(
        app.states_act(StatesAction::Delete(2), 3),
        StatesStep::Delete(2)
    );
    assert_eq!(
        app.states_act(StatesAction::Load(1), 3),
        StatesStep::Load(1)
    );
    assert!(app.ui.panel.is_none() && app.session.audio_suspended);
    app.fx.take();
    assert_eq!(
        app.states_loaded("Friday", "f.state", &None, false, true),
        Some("Friday failed to load (see log)".into())
    );
    assert!(matches!(app.ui.panel, Some(Panel::States { .. })));
    assert_eq!(states_deleted("Friday", &Ok(())), "Deleted Friday");
    assert_eq!(
        states_deleted("Friday", &Err("busy".into())),
        "Could not delete Friday: busy"
    );
}

#[test]
fn a_cancelled_dialog_leaves_the_machine_alone() {
    let mut app = app();
    assert!(!app.load_dialog_done(None));
    assert_eq!(app.fx.take(), vec![Effect::ReanchorClock]);
    let done = Some(Loaded {
        summary: "A1200".into(),
        reconfigured: true,
    });
    app.load_state_from_path();
    assert!(app.load_dialog_done(Some(("game.clstate", &done, false))));
    assert_eq!(
        app.fx.take(),
        vec![
            Effect::ReleaseKeyboardHolds,
            Effect::ResetRender,
            Effect::DropPlaylists,
            osd("Loaded game.clstate (reconfigured to A1200)"),
            Effect::Redraw,
            Effect::ReanchorClock,
        ]
    );
    assert!(!app.load_dialog_done(Some(("game.clstate", &None, false))));
    assert_eq!(
        app.fx.take(),
        vec![
            osd("State load failed (see log)"),
            Effect::ReanchorClock
        ]
    );
}
