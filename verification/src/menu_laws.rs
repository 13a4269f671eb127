//! What the menu's actions do: what each changes, what it says, and what is kept.

use vstd::prelude::*;

use crate::app::App;
use crate::desk::ToolPanelKind;
use crate::effects::Effect;
use crate::menu::AudioFilter;
use crate::menu::MenuAction;
use crate::menu::MenuRow;
use crate::menu::ShaderKind;
use crate::menu_actions::BarStep;
use crate::menu_actions::MenuFacts;
use crate::menu_actions::MenuStep;
use crate::menu_actions::applied;
use crate::menu_actions::ask_effects;
use crate::menu_actions::asked;
use crate::menu_actions::asks;
use crate::menu_actions::bar_step;
use crate::menu_actions::frames_line;
use crate::menu_actions::fullscreen_effects;
use crate::menu_actions::is_host;
use crate::menu_actions::menu_did;
use crate::menu_actions::menu_effects;
use crate::menu_actions::menu_ran;
use crate::menu_actions::menu_words;
use crate::menu_actions::panel_of;
use crate::menu_actions::persisted;
use crate::menu_actions::session_set;
use crate::menu_actions::slow;
use crate::menu_actions::tool_of;
use crate::menu_state::AudioOutput;
use crate::menu_state::AudioOutputChoice;
use crate::menu_state::MenuSource;
use crate::menu_state::MenuState;
use crate::nav::BarControl;
use crate::number::digits_of;
use crate::session::Session;
use crate::ui::Panel;
use crate::warp::WarpSpeed;

verus! {

/// Which inspector and which panel an action opens.
pub proof fn lemma_openers(a: MenuAction)
    ensures
        tool_of(MenuAction::OpenFrameAnalyzer) == Some(ToolPanelKind::FrameAnalyzer),
        tool_of(MenuAction::OpenDebugger) == Some(ToolPanelKind::Debugger),
        tool_of(MenuAction::OpenConsole) == Some(ToolPanelKind::Console),
        panel_of(MenuAction::OpenCalibration) == Some(Panel::Calibration),
        panel_of(MenuAction::OpenShortcuts) == Some(Panel::Shortcuts),
        panel_of(MenuAction::OpenAbout) == Some(Panel::About),
        !(a is OpenFrameAnalyzer) && !(a is OpenDebugger) && !(a is OpenConsole) ==> tool_of(a)
            is None,
        !(a is OpenCalibration) && !(a is OpenShortcuts) && !(a is OpenAbout) ==> panel_of(a)
            is None,
{
}

/// The three panels come up over everything as it is; quitting only asks for it.
pub proof fn lemma_panels_open(o: &App, n: &App, a: MenuAction, f: &MenuFacts)
    requires
        menu_did(o, n, a, f),
    ensures
        a is OpenCalibration ==> n.ui.panel == Some(Panel::Calibration) && n.session == o.session,
        a is OpenShortcuts ==> n.ui.panel == Some(Panel::Shortcuts) && n.session == o.session,
        a is OpenAbout ==> n.ui.panel == Some(Panel::About) && n.session == o.session,
        a is Quit ==> n.ui.quit_requested && n.session == o.session && n.fx == o.fx,
        a is TogglePause ==> n.session.paused == !o.session.paused,
        a is ToggleWarp && !o.session.capture_run && o.session.paced && !o.session.bridged
            && o.session.launch is None && o.session.boot is None ==> !n.session.paced,
        a is ToggleWarp && !o.session.capture_run && !o.session.paced ==> n.session.paced,
        a is ToggleWarp && !o.session.capture_run && (o.session.launch is Some
            || o.session.boot is Some) ==> n.session.paced && n.session.launch is None
            && n.session.boot is None,
        a is ToggleWarp && o.session.capture_run ==> n.session == o.session,
{
}

/// Running frames ahead and the warp limit are the session's own settings; nothing else of
/// it is touched by a setting.
pub proof fn lemma_session_settings(a: MenuAction, s: Session, frames: u8, limit: WarpSpeed)
    ensures
        session_set(MenuAction::SetRunAhead(frames), s).run_ahead_frames == frames,
        session_set(MenuAction::SetRunAhead(frames), s).warp_speed == s.warp_speed,
        session_set(MenuAction::SetWarpLimit(limit), s).warp_speed == limit,
        session_set(MenuAction::SetWarpLimit(limit), s).run_ahead_frames == s.run_ahead_frames,
        session_set(a, s).paused == s.paused && session_set(a, s).paced == s.paced && session_set(
            a,
            s,
        ).holds == s.holds,
        !(a is SetRunAhead) && !(a is SetWarpLimit) ==> session_set(a, s) == s,
{
}

/// Whatever was done, the preferences are kept afterwards; an action that goes on outside
/// keeps them when it comes back.
pub proof fn lemma_actions_are_kept(o: &App, n: &App, a: MenuAction, f: &MenuFacts, step: MenuStep)
    requires
        menu_ran(o, n, a, f, step),
    ensures
        step is Done ==> n.fx@.len() > 0 && n.fx@.last() == Effect::<
            Seq<char>,
        >::PersistPreferences,
        is_host(a) ==> step is Host && *n == *o,
        !is_host(a) && !asks(a) ==> step is Done,
{
    if step is Done && !is_host(a) {
        if asks(a) {
            let mid = choose|mid: App| #[trigger]
                crate::menu_actions::host_asked(o, &mid, a, f) && persisted(&mid, n);
            assert(persisted(&mid, n));
        } else {
            let mid = choose|mid: App| #[trigger] menu_did(o, &mid, a, f) && persisted(&mid, n);
            assert(persisted(&mid, n));
        }
    }
}

/// What goes on outside: a file dialog or a ROM, with the sound held while it is up; a
/// recording, which starts where none runs; and a reset, which lets the keys go.
pub proof fn lemma_actions_outside(o: &App, n: &App, a: MenuAction, f: &MenuFacts, step: MenuStep)
    requires
        menu_ran(o, n, a, f, step),
    ensures
        a is SaveState ==> step is SaveFile && n.session.audio_suspended,
        a is LoadState ==> step is LoadFile && n.session.audio_suspended,
        a is LoadRom ==> step is Rom && n.session.audio_suspended,
        a is ResetMachine ==> step is Reset && n.session == o.session && n.fx@.last() == Effect::<
            Seq<char>,
        >::ReleaseKeyboardHolds,
        a is ToggleRecord ==> step == (MenuStep::Record { start: !f.recording.active }),
{
    reveal(crate::menu_actions::host_asked);
    assert(a is SaveState || a is LoadState || a is LoadRom || a is ResetMachine
        || a is ToggleRecord ==> !is_host(a) && asks(a));
    assert(a is SaveState ==> asked(a, f) is SaveFile);
    assert(a is LoadState ==> asked(a, f) is LoadFile);
    assert(a is LoadRom ==> asked(a, f) is Rom);
    assert(a is ResetMachine ==> asked(a, f) is Reset);
}

/// The slots count from one. Saving to one needs a place for them, loading a slot that was
/// written; otherwise the reason is said and nothing is read or written.
pub proof fn lemma_slots(i: u8, f: &MenuFacts)
    ensures
        f.slots ==> asked(MenuAction::QuickSave(i), f) == (MenuStep::Save {
            slot: (i + 1) as u64,
        }) && ask_effects(MenuAction::QuickSave(i), f).len() == 0,
        !f.slots ==> asked(MenuAction::QuickSave(i), f) is Done && ask_effects(
            MenuAction::QuickSave(i),
            f,
        ).len() == 1,
        f.slots && f.slot_written ==> asked(MenuAction::QuickLoad(i), f) == (
        MenuStep::Load { slot: (i + 1) as u64 }) && ask_effects(
            MenuAction::QuickLoad(i),
            f,
        )[0] == Effect::<Seq<char>>::ReleaseKeyboardHolds,
        !f.slots || !f.slot_written ==> asked(MenuAction::QuickLoad(i), f) is Done,
        f.slots && !f.slot_written ==> ask_effects(MenuAction::QuickLoad(i), f)[0]
            == Effect::Osd("Slot "@ + digits_of((i + 1) as nat, 10) + " is empty"@),
        slow(MenuStep::SaveFile) && slow(MenuStep::LoadFile) && slow(MenuStep::Rom),
        !slow(MenuStep::Reset) && !slow(MenuStep::Done) && !slow(MenuStep::Host),
{
}

/// A setting is applied as it was chosen, but a shader of the user's own that failed, which
/// falls back to none, and a sampler's input without a sampler, which is not applied.
pub proof fn lemma_settings_are_applied(a: MenuAction, f: &MenuFacts, kind: ShaderKind)
    ensures
        !(a is SetRunAhead) && !(a is SetWarpLimit) && !(a is SetSamplerInput) && !(a is SetShader)
            ==> applied(a, f) == Some(a),
        a is SetRunAhead || a is SetWarpLimit ==> applied(a, f) is None,
        a is SetSamplerInput ==> (applied(a, f) == if f.sampler {
            Some(a)
        } else {
            None
        }),
        kind is Custom && f.failure is Some ==> applied(MenuAction::SetShader(kind), f) == Some(
            MenuAction::SetShader(ShaderKind::Off),
        ),
        !(kind is Custom) || f.failure is None ==> applied(MenuAction::SetShader(kind), f) == Some(
            MenuAction::SetShader(kind),
        ),
{
}

/// What the settings say: ports count from one, and running ahead says how far, and why
/// not where it cannot.
pub proof fn lemma_settings_say(f: &MenuFacts, s: Session, frames: u8)
    ensures
        menu_words(MenuAction::SetAudioFilter(AudioFilter::Auto), f, s) == Some(
            "Audio filter: "@ + "Auto"@,
        ),
        menu_words(MenuAction::SetAudioFilter(AudioFilter::On), f, s) == Some(
            "Audio filter: "@ + "Enabled"@,
        ),
        menu_words(MenuAction::SetAudioFilter(AudioFilter::Off), f, s) == Some(
            "Audio filter: "@ + "Disabled"@,
        ),
        frames_line(0) == "off"@,
        frames_line(1) == digits_of(1, 10) + " frame"@,
        frames > 1 ==> frames_line(frames) == digits_of(frames as nat, 10) + " frames"@,
        f.shown ==> menu_words(MenuAction::ToggleMt32Panel, f, s) == Some(
            "MT-32: front panel shown"@,
        ) && menu_words(MenuAction::ToggleCsynthPanel, f, s) == Some(
            "Coppersynth: front panel shown"@,
        ),
        !f.shown ==> menu_words(MenuAction::ToggleMt32Panel, f, s) == Some(
            "MT-32: front panel hidden"@,
        ) && menu_words(MenuAction::ToggleCsynthPanel, f, s) == Some(
            "Coppersynth: front panel hidden"@,
        ),
        menu_words(MenuAction::ResetTvCentre, f, s) == Some("Centring: centred"@),
        menu_words(MenuAction::SetRunAhead(0), f, s) == Some("Run Ahead: "@ + "off"@),
{
    let none = Seq::<char>::empty();
    assert("Run Ahead: "@ + "off"@ + none =~= "Run Ahead: "@ + "off"@);
}

/// A setting is applied first, then said, and last the picture is drawn again where it
/// shows; a setting that is the session's own has nothing to apply.
pub proof fn lemma_settings_in_order(a: MenuAction, f: &MenuFacts, s: Session)
    ensures
        a is SetTint || a is SetMenuScale || a is SetAutofire || a is SetFloppySpeed
            || a is SetAudioFilter ==> menu_effects(a, f, s).len() == 3 && menu_effects(a, f, s)[0]
            == Effect::<Seq<char>>::Apply(a) && menu_effects(a, f, s)[1] is Osd && menu_effects(
            a,
            f,
            s,
        )[2] is Redraw,
        a is SetPortDevice || a is SetAudioOutput || a is SetMidiInput ==> menu_effects(
            a,
            f,
            s,
        ).len() == 2 && menu_effects(a, f, s)[0] == Effect::<Seq<char>>::Apply(a)
            && menu_effects(a, f, s)[1] is Osd,
        a is SetRunAhead || a is SetWarpLimit ==> menu_effects(a, f, s).len() == 2
            && menu_effects(a, f, s)[0] is Osd && menu_effects(a, f, s)[1] is Redraw,
{
    reveal(menu_effects);
}

/// The window leaves full screen where it is in it, enters it where it is not and takes the
/// mouse, and without a window nothing happens.
pub proof fn lemma_fullscreen(f: &MenuFacts)
    ensures
        f.window is None ==> fullscreen_effects(f).len() == 0,
        f.window == Some(true) ==> fullscreen_effects(f)[0] == Effect::<Seq<char>>::Fullscreen(
            false,
        ),
        f.window == Some(false) ==> fullscreen_effects(f)[0] == Effect::<Seq<char>>::Fullscreen(
            true,
        ) && fullscreen_effects(f).last() == Effect::<Seq<char>>::AutoCaptureMouse,
{
}

/// The bar's controls: each does its own; a drive that a physical one stands behind does
/// nothing.
pub proof fn lemma_bar_controls(i: usize, bridged: bool)
    ensures
        bar_step(BarControl::Power, bridged) is Power,
        bar_step(BarControl::Pause, bridged) is Pause,
        bar_step(BarControl::Reboot, bridged) is Reset,
        bar_step(BarControl::Screenshot, bridged) is Screenshot,
        bar_step(BarControl::Menu, bridged) is Menu,
        bar_step(BarControl::DriveLoad(i), false) == BarStep::Load(i),
        bar_step(BarControl::DriveSwap(i), false) == BarStep::Swap(i),
        bar_step(BarControl::DriveEject(i), false) == BarStep::Eject(i),
        bar_step(BarControl::DriveLoad(i), true) is Nothing,
        bar_step(BarControl::DriveSwap(i), true) is Nothing,
        bar_step(BarControl::DriveEject(i), true) is Nothing,
        bar_step(BarControl::CdLoad, bridged) is CdLoad,
        bar_step(BarControl::CdEject, bridged) is CdEject,
        bar_step(BarControl::Joystick, bridged) is Joystick,
        bar_step(BarControl::Keyboard, bridged) is Keyboard,
        bar_step(BarControl::Volume, bridged) is Nothing,
{
}

/// The menu opens on its last row, lets the mouse go, and shuts again with the mouse taken
/// back where that is the mode.
pub proof fn lemma_menu_toggles(o: App, n: App, rows: Seq<MenuRow>, first: bool)
    requires
        o.menu_toggled(&n, rows, first),
        rows.len() <= usize::MAX,
    ensures
        n.ui.menu.open == !o.ui.menu.open,
        !o.ui.menu.open ==> n.ui.menu.rows@ == rows && n.ui.menu.path@.len() == 0
            && !n.guest.mouse_captured,
        !o.ui.menu.open && rows.len() > 0 && !first ==> n.ui.menu.cursor == Some(
            (rows.len() - 1) as usize,
        ),
        !o.ui.menu.open && rows.len() > 0 && first ==> n.ui.menu.cursor == Some(0usize),
        o.ui.menu.open ==> n.ui.menu.rows@.len() == 0 && n.ui.menu.cursor is None && n.guest
            == o.guest,
        n.session == o.session && n.ui.panel == o.ui.panel,
{
}

/// The menu shows the settings as they are: the device that plays, what the serial port
/// has where it is a MIDI port and nothing of it where it is not, and a synthesiser only
/// where one was built in.
pub proof fn lemma_menu_shows(app: App, src: MenuSource, m: MenuState)
    requires
        app.menu_shows(src, m),
    ensures
        m.paused == app.session.paused,
        m.warp == !app.session.paced,
        m.status_bar_hidden == app.ui.bar_hidden,
        m.run_ahead_frames == app.session.run_ahead_frames,
        src.audio_output is Disabled <==> m.audio_output is Disabled,
        src.audio_output is Default <==> m.audio_output is Default,
        src.audio_output matches AudioOutput::Device(name) ==> m.audio_output
            == AudioOutputChoice::Named(name),
        !src.serial_is_midi ==> m.midi_in@.len() == 0 && m.midi_out@.len() == 0
            && m.midi_inputs@.len() == 0 && m.midi_outputs@.len() == 0 && !m.mt32_available
            && !m.csynth_available,
        src.serial_is_midi ==> m.midi_in@ == src.midi_in@ && m.midi_out@ == src.midi_out@
            && m.mt32_available == src.mt32_built && m.csynth_available == src.csynth_built,
        !src.sampling ==> m.sampler_inputs@.len() == 0,
        src.sampler_input is None ==> m.sampler_input@.len() == 0,
        m.fullscreen == src.fullscreen && m.recording == src.recording && m.rewind == src.rewind,
{
}

} // verus!
