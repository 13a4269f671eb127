//! What the rows of the menu do, what they say about it, and the buttons of
//! the status bar.

use vstd::prelude::*;

use crate::app::App;
use crate::captures::Recording;
use crate::desk::ToolPanelKind;
use crate::effects::Effect;
use crate::effects::Effects;
use crate::entry::Key;
use crate::fascia::fault_effects;
use crate::fascia::mode_name;
use crate::fascia::mode_text;
use crate::fascia::report_csynth;
use crate::fascia::report_mt32_fault;
use crate::guest::GuestInput;
use crate::menu::AudioFilter;
use crate::menu::Menu;
use crate::menu::MenuAction;
use crate::menu::MenuRow;
use crate::menu::ShaderKind;
use crate::nav::BarControl;
use crate::nav::Nav;
use crate::number::dec;
use crate::number::put_dec;
use crate::power::pause_toggled;
use crate::saves::slot_line;
use crate::session::RunaheadFacts;
use crate::session::Session;
use crate::text::put;
use crate::tools::tool_closed;
use crate::tools::tool_opened;
use crate::ui::Panel;
use crate::ui::Ui;
use crate::warp::WarpSource;

verus! {

/// What the host knows of the setting that an action changes: its name as it
/// now is, and how changing it went.
#[derive(PartialEq, Eq, Debug)]
pub struct MenuFacts {
    pub label: String,
    /// Why a shader of the user's own could not be used, or a synthesizer
    /// could not be fitted.
    pub failure: Option<String>,
    /// The front panel that an action shows or hides is now shown.
    pub shown: bool,
    /// The synthesizer has its built-in sounds again.
    pub fitted: bool,
    /// The sampler is plugged in.
    pub sampler: bool,
    pub runahead: RunaheadFacts,
    /// What keeps run-ahead off, where the session has no words for it.
    pub block: String,
    /// The window is full screen, if there is a window.
    pub window: Option<bool>,
    /// The key that full screen is left with, in words.
    pub modifier: String,
    pub recording: Recording,
    /// There is a directory for numbered slots.
    pub slots: bool,
    /// The slot that an action restores has been written.
    pub slot_written: bool,
}

/// Who carries an action out.
#[derive(Clone, Copy, PartialEq, Eq, Structural, Debug)]
pub enum MenuStep {
    Done,
    /// The host does; `menu_host_done` follows, as it does for all of the
    /// rest.
    Host,
    /// A state is written to a new file; `save_state_done` follows.
    SaveFile,
    /// A state is picked and read; `load_dialog_done` follows.
    LoadFile,
    /// A ROM is picked and read; `rom_load_done` follows.
    Rom,
    /// A numbered slot is written; `quick_save_done` follows.
    Save { slot: u64 },
    /// A numbered slot is read; `quick_load_done` follows.
    Load { slot: u64 },
    /// A recording is opened, or the running one is closed.
    Record { start: bool },
    /// The machine is reset; `reset_done` follows, and the host's keys are
    /// let go.
    Reset,
}

/// The actions that need nothing said here and are the host's alone.
pub open spec fn is_host(a: MenuAction) -> bool {
    match a {
        MenuAction::OpenMachineConfig => true,
        MenuAction::OpenInputMapping => true,
        MenuAction::SetPixelAspect(_) => true,
        MenuAction::SetDisplayScaling(_) => true,
        MenuAction::StepTvCentre(_, _) => true,
        MenuAction::ToggleStatusBar => true,
        MenuAction::SetBezel(_) => true,
        MenuAction::TogglePerfOverlay => true,
        MenuAction::SetJoystickInput(_) => true,
        MenuAction::ToggleKeyboardPanel => true,
        MenuAction::LoadCsynthSoundfont => true,
        MenuAction::LoadMt32ControlRom => true,
        MenuAction::LoadMt32PcmRom => true,
        MenuAction::StepSamplerGain(_) => true,
        MenuAction::ToggleRewind => true,
        MenuAction::ToggleRecordInput => true,
        _ => false,
    }
}

fn is_host_action(a: MenuAction) -> (r: bool)
    ensures
        r == is_host(a),
{
    match a {
        MenuAction::OpenMachineConfig
        | MenuAction::OpenInputMapping
        | MenuAction::SetPixelAspect(_)
        | MenuAction::SetDisplayScaling(_)
        | MenuAction::StepTvCentre(_, _)
        | MenuAction::ToggleStatusBar
        | MenuAction::SetBezel(_)
        | MenuAction::TogglePerfOverlay
        | MenuAction::SetJoystickInput(_)
        | MenuAction::ToggleKeyboardPanel
        | MenuAction::LoadCsynthSoundfont
        | MenuAction::LoadMt32ControlRom
        | MenuAction::LoadMt32PcmRom
        | MenuAction::StepSamplerGain(_)
        | MenuAction::ToggleRewind
        | MenuAction::ToggleRecordInput => true,
        _ => false,
    }
}

pub open spec fn filter_name(f: AudioFilter) -> Seq<char> {
    match f {
        AudioFilter::Auto => "Auto"@,
        AudioFilter::On => "Enabled"@,
        AudioFilter::Off => "Disabled"@,
    }
}

/// A number of frames in words.
pub open spec fn frames_line(frames: u8) -> Seq<char> {
    if frames == 0 {
        "off"@
    } else if frames == 1 {
        dec(1) + " frame"@
    } else {
        dec(frames as int) + " frames"@
    }
}

/// Why run-ahead stays off though it was asked for.
pub open spec fn block_line(s: Session, f: &MenuFacts) -> Option<Seq<char>> {
    match s.runahead_block(f.runahead) {
        Some(b) => match b.words() {
            Some(w) => Some(w),
            None => Some(f.block@),
        },
        None => None,
    }
}

pub open spec fn runahead_line(s: Session, frames: u8, f: &MenuFacts) -> Seq<char> {
    "Run Ahead: "@ + frames_line(frames) + (match block_line(s, f) {
        Some(why) => if frames > 0 {
            " (inactive: "@ + why + ")"@
        } else {
            Seq::empty()
        },
        None => Seq::empty(),
    })
}

/// The shader that is used: one of the user's own that will not compile falls
/// back to none.
pub open spec fn shader_used(kind: ShaderKind, f: &MenuFacts) -> ShaderKind {
    if kind is Custom && f.failure is Some {
        ShaderKind::Off
    } else {
        kind
    }
}

/// The value that an action gives to a setting that the host holds.
pub open spec fn applied(a: MenuAction, f: &MenuFacts) -> Option<MenuAction> {
    match a {
        MenuAction::SetRunAhead(_) => None,
        MenuAction::SetWarpLimit(_) => None,
        MenuAction::SetSamplerInput(_) => if f.sampler {
            Some(a)
        } else {
            None
        },
        MenuAction::SetShader(kind) => Some(MenuAction::SetShader(shader_used(kind, f))),
        _ => Some(a),
    }
}

pub open spec fn apply_effects(a: MenuAction, f: &MenuFacts) -> Seq<Effect<Seq<char>>> {
    match applied(a, f) {
        Some(set) => seq![Effect::Apply(set)],
        None => Seq::empty(),
    }
}

fn apply(fx: &mut Effects, a: MenuAction, f: &MenuFacts)
    ensures
        final(fx)@ == old(fx)@ + apply_effects(a, f),
{
    let set: Option<MenuAction> = match a {
        MenuAction::SetRunAhead(_) | MenuAction::SetWarpLimit(_) => None,
        MenuAction::SetSamplerInput(_) => if f.sampler {
            Some(a)
        } else {
            None
        },
        MenuAction::SetShader(ShaderKind::Custom) => {
            if f.failure.is_some() {
                Some(MenuAction::SetShader(ShaderKind::Off))
            } else {
                Some(a)
            }
        },
        _ => Some(a),
    };
    match set {
        Some(set) => fx.push(Effect::Apply(set)),
        None => {},
    }
    assert(fx@ =~= old(fx)@ + apply_effects(a, f));
}

/// The shader that is used, and why one of the user's own is not.
pub open spec fn shader_line(kind: ShaderKind, f: &MenuFacts) -> Seq<char> {
    "CRT shader: "@ + f.label@ + (match (kind, f.failure) {
        (ShaderKind::Custom, Some(why)) => " (custom failed: "@ + why@ + ")"@,
        _ => Seq::empty(),
    })
}

/// What an action says, where saying it is what is left to do here.
pub open spec fn menu_words(a: MenuAction, f: &MenuFacts, s: Session) -> Option<Seq<char>> {
    match a {
        MenuAction::SetAudioOutput(_) => Some("Audio output: "@ + f.label@),
        MenuAction::SetAudioFilter(m) => Some("Audio filter: "@ + filter_name(m)),
        MenuAction::ResetTvCentre => Some("Centring: centred"@),
        MenuAction::SetShader(kind) => Some(shader_line(kind, f)),
        MenuAction::SetMenuScale(_) => Some("Menu size: "@ + f.label@),
        MenuAction::SetTint(_) => Some("Screen tint: "@ + f.label@),
        MenuAction::SetPortDevice(port, _) => Some(
            "Port "@ + dec(port + 1) + ": "@ + f.label@,
        ),
        MenuAction::SetAutofire(_) => Some("Autofire: "@ + f.label@),
        MenuAction::SetRunAhead(frames) => Some(runahead_line(s, frames, f)),
        MenuAction::SetMidiInput(_) => Some("MIDI input: "@ + f.label@),
        MenuAction::SetMidiOutput(_) => Some("MIDI output: "@ + f.label@),
        MenuAction::ToggleMt32Panel => Some(
            if f.shown {
                "MT-32: front panel shown"@
            } else {
                "MT-32: front panel hidden"@
            },
        ),
        MenuAction::ToggleCsynthPanel => Some(
            if f.shown {
                "Coppersynth: front panel shown"@
            } else {
                "Coppersynth: front panel hidden"@
            },
        ),
        MenuAction::ResetCsynthSoundfont => if f.fitted {
            Some("Coppersynth: GeneralUser-GS"@)
        } else {
            None
        },
        MenuAction::SetCsynthMt32Mode(m) => Some("Coppersynth: MT-32 mode "@ + mode_text(m)),
        MenuAction::SetMt32Lcd(_) => Some("MT-32: "@ + f.label@ + " display"@),
        MenuAction::SetSamplerInput(_) => if f.sampler {
            Some("Sampler input: "@ + f.label@)
        } else {
            None
        },
        MenuAction::SetFloppySpeed(_) => Some("Floppy speed: "@ + f.label@),
        MenuAction::SetWarpLimit(limit) => Some(
            "Warp limit: "@ + limit.name() + (if s.paced {
                " (warp off)"@
            } else {
                Seq::empty()
            }),
        ),
        MenuAction::StepShaderStrength(_) => Some("Shader strength: "@ + f.label@ + "%"@),
        _ => None,
    }
}

/// A redraw of its own follows what the action says.
pub open spec fn menu_draws(a: MenuAction) -> bool {
    match a {
        MenuAction::SetAudioFilter(_) => true,
        MenuAction::ResetTvCentre => true,
        MenuAction::SetShader(_) => true,
        MenuAction::SetMenuScale(_) => true,
        MenuAction::SetTint(_) => true,
        MenuAction::SetAutofire(_) => true,
        MenuAction::SetRunAhead(_) => true,
        MenuAction::SetCsynthMt32Mode(_) => true,
        MenuAction::SetMt32Lcd(_) => true,
        MenuAction::SetFloppySpeed(_) => true,
        MenuAction::SetWarpLimit(_) => true,
        MenuAction::StepShaderStrength(_) => true,
        _ => false,
    }
}

fn draws(a: MenuAction) -> (r: bool)
    ensures
        r == menu_draws(a),
{
    match a {
        MenuAction::SetAudioFilter(_)
        | MenuAction::ResetTvCentre
        | MenuAction::SetShader(_)
        | MenuAction::SetMenuScale(_)
        | MenuAction::SetTint(_)
        | MenuAction::SetAutofire(_)
        | MenuAction::SetRunAhead(_)
        | MenuAction::SetCsynthMt32Mode(_)
        | MenuAction::SetMt32Lcd(_)
        | MenuAction::SetFloppySpeed(_)
        | MenuAction::SetWarpLimit(_)
        | MenuAction::StepShaderStrength(_) => true,
        _ => false,
    }
}

/// The faults that an action brings to light.
pub open spec fn menu_faults(a: MenuAction, f: &MenuFacts) -> Seq<Effect<Seq<char>>> {
    match a {
        MenuAction::SetMidiOutput(_) => fault_effects("MT-32: "@, f.failure),
        MenuAction::ResetCsynthSoundfont => if f.fitted {
            Seq::empty()
        } else {
            fault_effects("Coppersynth: "@, f.failure)
        },
        _ => Seq::empty(),
    }
}

fn tell_faults(fx: &mut Effects, a: MenuAction, f: &MenuFacts)
    ensures
        final(fx)@ == old(fx)@ + menu_faults(a, f),
{
    match a {
        MenuAction::SetMidiOutput(_) => report_mt32_fault(fx, &f.failure),
        MenuAction::ResetCsynthSoundfont => if !f.fitted {
            report_csynth(fx, &f.failure);
        },
        _ => {},
    }
    assert(fx@ =~= old(fx)@ + menu_faults(a, f));
}

#[verifier::opaque]
pub open spec fn menu_effects(a: MenuAction, f: &MenuFacts, s: Session) -> Seq<Effect<Seq<char>>> {
    apply_effects(a, f) + menu_faults(a, f) + (match menu_words(a, f, s) {
        Some(t) => seq![Effect::Osd(t)],
        None => Seq::empty(),
    }) + (if menu_draws(a) {
        seq![Effect::Redraw]
    } else {
        Seq::empty()
    })
}

fn labelled(head: &str, label: &str) -> (r: String)
    ensures
        r@ == head@ + label@,
{
    let mut text: String = head.to_owned();
    put(&mut text, label);
    text
}

fn runahead_text(s: &Session, frames: u8, f: &MenuFacts) -> (r: String)
    ensures
        r@ == runahead_line(*s, frames, f),
{
    let mut text: String = "Run Ahead: ".to_owned();
    if frames == 0 {
        put(&mut text, "off");
    } else {
        put_dec(&mut text, frames as u64);
        if frames == 1 {
            put(&mut text, " frame");
        } else {
            put(&mut text, " frames");
        }
    }
    assert(text@ =~= "Run Ahead: "@ + frames_line(frames));
    if frames > 0 {
        match s.runahead_block_reason(f.runahead) {
            Some(b) => {
                put(&mut text, " (inactive: ");
                match b.describe() {
                    Some(w) => put(&mut text, w),
                    None => put(&mut text, f.block.as_str()),
                }
                put(&mut text, ")");
            },
            None => {},
        }
    }
    assert(text@ =~= runahead_line(*s, frames, f));
    text
}

fn shader_text(kind: ShaderKind, f: &MenuFacts) -> (r: String)
    ensures
        r@ == shader_line(kind, f),
{
    let mut text: String = labelled("CRT shader: ", f.label.as_str());
    match (kind, &f.failure) {
        (ShaderKind::Custom, Some(why)) => {
            put(&mut text, " (custom failed: ");
            put(&mut text, why.as_str());
            put(&mut text, ")");
        },
        _ => {},
    }
    assert(text@ =~= shader_line(kind, f));
    text
}

fn video_text(a: MenuAction, f: &MenuFacts) -> (r: Option<String>)
    requires
        a is SetShader || a is SetMenuScale || a is SetTint || a is ResetTvCentre
            || a is StepShaderStrength || a is SetMt32Lcd,
    ensures
        forall|s: Session|
            crate::breaks::opt_text(r) == #[trigger] menu_words(a, f, s),
{
    match a {
        MenuAction::SetShader(kind) => Some(shader_text(kind, f)),
        MenuAction::SetMenuScale(_) => Some(labelled("Menu size: ", f.label.as_str())),
        MenuAction::SetTint(_) => Some(labelled("Screen tint: ", f.label.as_str())),
        MenuAction::ResetTvCentre => Some("Centring: centred".to_owned()),
        MenuAction::StepShaderStrength(_) => {
            let mut text: String = labelled("Shader strength: ", f.label.as_str());
            put(&mut text, "%");
            Some(text)
        },
        _ => {
            let mut text: String = labelled("MT-32: ", f.label.as_str());
            put(&mut text, " display");
            Some(text)
        },
    }
}

fn synth_text(a: MenuAction, f: &MenuFacts) -> (r: Option<String>)
    requires
        a is ToggleMt32Panel || a is ToggleCsynthPanel || a is ResetCsynthSoundfont
            || a is SetCsynthMt32Mode || a is SetSamplerInput || a is SetMidiInput
            || a is SetMidiOutput,
    ensures
        forall|s: Session|
            crate::breaks::opt_text(r) == #[trigger] menu_words(a, f, s),
{
    match a {
        MenuAction::ToggleMt32Panel => Some(
            if f.shown {
                "MT-32: front panel shown".to_owned()
            } else {
                "MT-32: front panel hidden".to_owned()
            },
        ),
        MenuAction::ToggleCsynthPanel => Some(
            if f.shown {
                "Coppersynth: front panel shown".to_owned()
            } else {
                "Coppersynth: front panel hidden".to_owned()
            },
        ),
        MenuAction::ResetCsynthSoundfont => if f.fitted {
            Some("Coppersynth: GeneralUser-GS".to_owned())
        } else {
            None
        },
        MenuAction::SetCsynthMt32Mode(m) => Some(
            labelled("Coppersynth: MT-32 mode ", mode_name(m)),
        ),
        MenuAction::SetSamplerInput(_) => if f.sampler {
            Some(labelled("Sampler input: ", f.label.as_str()))
        } else {
            None
        },
        MenuAction::SetMidiInput(_) => Some(labelled("MIDI input: ", f.label.as_str())),
        _ => Some(labelled("MIDI output: ", f.label.as_str())),
    }
}

fn menu_text(a: MenuAction, f: &MenuFacts, s: &Session) -> (r: Option<String>)
    ensures
        crate::breaks::opt_text(r) == menu_words(a, f, *s),
{
    match a {
        MenuAction::SetAudioOutput(_) => Some(labelled("Audio output: ", f.label.as_str())),
        MenuAction::SetAudioFilter(m) => {
            let name: &'static str = match m {
                AudioFilter::Auto => "Auto",
                AudioFilter::On => "Enabled",
                AudioFilter::Off => "Disabled",
            };
            Some(labelled("Audio filter: ", name))
        },
        MenuAction::SetPortDevice(port, _) => {
            let mut text: String = "Port ".to_owned();
            put_dec(&mut text, port as u64 + 1);
            put(&mut text, ": ");
            put(&mut text, f.label.as_str());
            Some(text)
        },
        MenuAction::SetAutofire(_) => Some(labelled("Autofire: ", f.label.as_str())),
        MenuAction::SetRunAhead(frames) => Some(runahead_text(s, frames, f)),
        MenuAction::SetFloppySpeed(_) => Some(labelled("Floppy speed: ", f.label.as_str())),
        MenuAction::SetWarpLimit(limit) => {
            let mut text: String = labelled("Warp limit: ", limit.label());
            if s.paced {
                put(&mut text, " (warp off)");
            }
            assert(text@ =~= "Warp limit: "@ + limit.name() + (if s.paced {
                " (warp off)"@
            } else {
                Seq::empty()
            }));
            Some(text)
        },
        MenuAction::SetShader(_)
        | MenuAction::SetMenuScale(_)
        | MenuAction::SetTint(_)
        | MenuAction::ResetTvCentre
        | MenuAction::StepShaderStrength(_)
        | MenuAction::SetMt32Lcd(_) => video_text(a, f),
        MenuAction::ToggleMt32Panel
        | MenuAction::ToggleCsynthPanel
        | MenuAction::ResetCsynthSoundfont
        | MenuAction::SetCsynthMt32Mode(_)
        | MenuAction::SetSamplerInput(_)
        | MenuAction::SetMidiInput(_)
        | MenuAction::SetMidiOutput(_) => synth_text(a, f),
        _ => None,
    }
}

fn say(fx: &mut Effects, a: MenuAction, f: &MenuFacts, s: &Session)
    ensures
        final(fx)@ == old(fx)@ + menu_effects(a, f, *s),
{
    proof {
        reveal(menu_effects);
    }
    apply(fx, a, f);
    tell_faults(fx, a, f);
    match menu_text(a, f, s) {
        Some(text) => fx.push(Effect::Osd(text)),
        None => {},
    }
    if draws(a) {
        fx.redraw();
    }
    assert(fx@ =~= old(fx)@ + menu_effects(a, f, *s));
}

/// What the user set is kept, where the build keeps it.
pub open spec fn persisted(m: &App, n: &App) -> bool {
    &&& *n == (App { fx: n.fx, ..*m })
    &&& n.fx@ == m.fx@.push(Effect::PersistPreferences)
}

/// The inspector that an action opens.
pub open spec fn tool_of(a: MenuAction) -> Option<ToolPanelKind> {
    match a {
        MenuAction::OpenFrameAnalyzer => Some(ToolPanelKind::FrameAnalyzer),
        MenuAction::OpenDebugger => Some(ToolPanelKind::Debugger),
        MenuAction::OpenConsole => Some(ToolPanelKind::Console),
        _ => None,
    }
}

/// The panel that an action opens.
pub open spec fn panel_of(a: MenuAction) -> Option<Panel> {
    match a {
        MenuAction::OpenCalibration => Some(Panel::Calibration),
        MenuAction::OpenShortcuts => Some(Panel::Shortcuts),
        MenuAction::OpenAbout => Some(Panel::About),
        _ => None,
    }
}

/// The session with the setting that an action is for.
pub open spec fn session_set(a: MenuAction, s: Session) -> Session {
    match a {
        MenuAction::SetRunAhead(frames) => Session { run_ahead_frames: frames, ..s },
        MenuAction::SetWarpLimit(limit) => Session { warp_speed: limit, ..s },
        _ => s,
    }
}

fn with_setting(a: MenuAction, s: Session) -> (r: Session)
    ensures
        r == session_set(a, s),
{
    let mut r: Session = s;
    match a {
        MenuAction::SetRunAhead(frames) => {
            r.run_ahead_frames = frames;
        },
        MenuAction::SetWarpLimit(limit) => {
            r.warp_speed = limit;
        },
        _ => {},
    }
    r
}

/// The manual warp toggle.
pub open spec fn warp_toggled(o: &App, n: &App) -> bool {
    let on = o.session.paced && !o.session.gate_pending();
    if o.session.capture_run {
        *n == (App { fx: n.fx, ..*o }) && n.fx@ == o.fx@
    } else {
        &&& *n == (App { fx: n.fx, session: o.session.warped(on, WarpSource::Manual), ..*o })
        &&& n.fx@ == o.fx@ + o.session.warp_effects(on, WarpSource::Manual)
    }
}

/// The actions that start here and that the host finishes.
pub open spec fn asks(a: MenuAction) -> bool {
    match a {
        MenuAction::SaveState | MenuAction::LoadState | MenuAction::LoadRom => true,
        MenuAction::ToggleRecord | MenuAction::ResetMachine => true,
        MenuAction::QuickSave(_) | MenuAction::QuickLoad(_) => true,
        _ => false,
    }
}

/// What is asked of the host. The slots count from one.
pub open spec fn asked(a: MenuAction, f: &MenuFacts) -> MenuStep {
    match a {
        MenuAction::SaveState => MenuStep::SaveFile,
        MenuAction::LoadState => MenuStep::LoadFile,
        MenuAction::LoadRom => MenuStep::Rom,
        MenuAction::ToggleRecord => MenuStep::Record { start: !f.recording.active },
        MenuAction::ResetMachine => MenuStep::Reset,
        MenuAction::QuickSave(i) => if f.slots {
            MenuStep::Save { slot: (i + 1) as u64 }
        } else {
            MenuStep::Done
        },
        MenuAction::QuickLoad(i) => if f.slots && f.slot_written {
            MenuStep::Load { slot: (i + 1) as u64 }
        } else {
            MenuStep::Done
        },
        _ => MenuStep::Host,
    }
}

/// What asking says.
pub open spec fn ask_effects(a: MenuAction, f: &MenuFacts) -> Seq<Effect<Seq<char>>> {
    match a {
        MenuAction::ResetMachine => seq![Effect::ReleaseKeyboardHolds],
        MenuAction::QuickSave(_) => if f.slots {
            Seq::empty()
        } else {
            seq![Effect::Osd("No per-user directory for save slots"@)]
        },
        MenuAction::QuickLoad(i) => seq![
            if !f.slots {
                Effect::Osd("No per-user directory for save slots"@)
            } else if !f.slot_written {
                Effect::Osd(slot_line((i + 1) as u64, " is empty"@))
            } else {
                Effect::ReleaseKeyboardHolds
            },
        ],
        _ => Seq::empty(),
    }
}

/// The host is asked for something slow.
pub open spec fn slow(step: MenuStep) -> bool {
    match step {
        MenuStep::SaveFile | MenuStep::LoadFile | MenuStep::Rom => true,
        MenuStep::Save { .. } | MenuStep::Load { .. } => true,
        _ => false,
    }
}

/// The host was asked. The sound stops while a state or a file is worked on.
#[verifier::opaque]
pub open spec fn host_asked(o: &App, n: &App, a: MenuAction, f: &MenuFacts) -> bool {
    &&& *n == (App { fx: n.fx, session: n.session, ..*o })
    &&& n.session == (if slow(asked(a, f)) {
        Session { audio_suspended: true, ..o.session }
    } else {
        o.session
    })
    &&& n.fx@ == o.fx@ + ask_effects(a, f)
}

pub open spec fn fullscreen_effects(f: &MenuFacts) -> Seq<Effect<Seq<char>>> {
    match f.window {
        None => Seq::empty(),
        Some(true) => seq![Effect::Fullscreen(false), Effect::Osd("Fullscreen off"@)],
        Some(false) => seq![
            Effect::Fullscreen(true),
            Effect::Osd("Fullscreen on ("@ + f.modifier@ + "+F restores)"@),
            Effect::AutoCaptureMouse,
        ],
    }
}

/// What an action does, up to keeping it.
pub open spec fn menu_did(o: &App, n: &App, a: MenuAction, f: &MenuFacts) -> bool {
    match tool_of(a) {
        Some(kind) => tool_opened(o, n, kind),
        None => match panel_of(a) {
            Some(panel) => *n == (App { ui: Ui { panel: Some(panel), ..o.ui }, ..*o }),
            None => match a {
                MenuAction::ToggleWarp => warp_toggled(o, n),
                MenuAction::TogglePause => pause_toggled(o, n),
                MenuAction::ToggleFullscreen => {
                    &&& *n == (App { fx: n.fx, ..*o })
                    &&& n.fx@ == o.fx@ + fullscreen_effects(f)
                },
                MenuAction::Quit => *n == (App {
                    ui: Ui { quit_requested: true, ..o.ui },
                    ..*o
                }),
                _ => {
                    &&& *n == (App { fx: n.fx, session: session_set(a, o.session), ..*o })
                    &&& n.fx@ == o.fx@ + menu_effects(a, f, session_set(a, o.session))
                },
            },
        },
    }
}

pub open spec fn menu_ran(o: &App, n: &App, a: MenuAction, f: &MenuFacts, step: MenuStep) -> bool {
    if is_host(a) {
        *n == *o && step is Host
    } else if asks(a) {
        &&& step == asked(a, f)
        &&& if step is Done {
            exists|mid: App| #[trigger] host_asked(o, &mid, a, f) && persisted(&mid, n)
        } else {
            host_asked(o, n, a, f)
        }
    } else {
        &&& step is Done
        &&& exists|mid: App| #[trigger] menu_did(o, &mid, a, f) && persisted(&mid, n)
    }
}

impl App {
    fn run_tool(&mut self, a: MenuAction)
        requires
            old(self).wf(),
            tool_of(a) is Some,
        ensures
            final(self).wf(),
            tool_opened(old(self), final(self), tool_of(a).unwrap()),
    {
        match a {
            MenuAction::OpenFrameAnalyzer => self.open_frame_analyzer(),
            MenuAction::OpenDebugger => self.open_debugger(),
            _ => self.open_console(),
        }
    }

    fn run_panel(&mut self, a: MenuAction)
        requires
            old(self).wf(),
            panel_of(a) is Some,
        ensures
            final(self).wf(),
            *final(self) == (App {
                ui: Ui { panel: panel_of(a), ..old(self).ui },
                ..*old(self)
            }),
    {
        let panel: Panel = match a {
            MenuAction::OpenCalibration => Panel::Calibration,
            MenuAction::OpenShortcuts => Panel::Shortcuts,
            _ => Panel::About,
        };
        self.ui.panel = Some(panel);
    }

    fn run_setting(&mut self, a: MenuAction, f: &MenuFacts)
        requires
            old(self).wf(),
        ensures
            final(self).wf(),
            *final(self) == (App {
                fx: final(self).fx,
                session: session_set(a, old(self).session),
                ..*old(self)
            }),
            final(self).fx@ == old(self).fx@ + menu_effects(
                a,
                f,
                session_set(a, old(self).session),
            ),
    {
        let s: Session = with_setting(a, self.session);
        self.session = s;
        say(&mut self.fx, a, f, &s);
    }

    fn run_warp(&mut self)
        requires
            old(self).wf(),
        ensures
            final(self).wf(),
            warp_toggled(old(self), final(self)),
    {
        self.session.toggle_warp(&mut self.fx);
    }

    fn ask_slot(&mut self, a: MenuAction, f: &MenuFacts) -> (step: MenuStep)
        requires
            old(self).wf(),
            a is QuickSave || a is QuickLoad,
        ensures
            final(self).wf(),
            step == asked(a, f),
            host_asked(old(self), final(self), a, f),
    {
        let step = match a {
            MenuAction::QuickSave(i) => match self.quick_save_state(i as u64 + 1, f.slots) {
                Some(slot) => MenuStep::Save { slot },
                None => MenuStep::Done,
            },
            MenuAction::QuickLoad(i) => {
                let slot: u64 = i as u64 + 1;
                if self.quick_load_state(slot, f.slots, f.slot_written) {
                    MenuStep::Load { slot }
                } else {
                    MenuStep::Done
                }
            },
            _ => MenuStep::Host,
        };
        assert(self.fx@ =~= old(self).fx@ + ask_effects(a, f));
        proof {
            reveal(host_asked);
        }
        step
    }

    fn ask_plain(&mut self, a: MenuAction, f: &MenuFacts) -> (step: MenuStep)
        requires
            old(self).wf(),
            a is ToggleRecord || a is ResetMachine,
        ensures
            final(self).wf(),
            step == asked(a, f),
            host_asked(old(self), final(self), a, f),
    {
        let step = match a {
            MenuAction::ToggleRecord => {
                let start: bool = f.recording.toggle_recording();
                MenuStep::Record { start }
            },
            _ => {
                self.reset_emulator();
                MenuStep::Reset
            },
        };
        assert(self.fx@ =~= old(self).fx@ + ask_effects(a, f));
        proof {
            reveal(host_asked);
        }
        step
    }

    fn ask_file(&mut self, a: MenuAction, f: &MenuFacts) -> (step: MenuStep)
        requires
            old(self).wf(),
            a is SaveState || a is LoadState || a is LoadRom,
        ensures
            final(self).wf(),
            step == asked(a, f),
            host_asked(old(self), final(self), a, f),
    {
        self.start_host_io();
        assert(self.fx@ =~= old(self).fx@ + ask_effects(a, f));
        proof {
            reveal(host_asked);
        }
        match a {
            MenuAction::SaveState => MenuStep::SaveFile,
            MenuAction::LoadState => MenuStep::LoadFile,
            _ => MenuStep::Rom,
        }
    }

    fn ask(&mut self, a: MenuAction, f: &MenuFacts) -> (step: MenuStep)
        requires
            old(self).wf(),
            asks(a),
        ensures
            final(self).wf(),
            step == asked(a, f),
            host_asked(old(self), final(self), a, f),
    {
        match a {
            MenuAction::SaveState | MenuAction::LoadState | MenuAction::LoadRom => self.ask_file(
                a,
                f,
            ),
            MenuAction::ToggleRecord | MenuAction::ResetMachine => self.ask_plain(a, f),
            _ => self.ask_slot(a, f),
        }
    }

    fn run_asked(&mut self, a: MenuAction, f: &MenuFacts) -> (step: MenuStep)
        requires
            old(self).wf(),
            asks(a),
        ensures
            final(self).wf(),
            menu_ran(old(self), final(self), a, f, step),
    {
        let step = self.ask(a, f);
        if step == MenuStep::Done {
            let ghost mid = *self;
            assert(host_asked(old(self), &mid, a, f));
            self.keep();
        }
        step
    }

    fn run_fullscreen(&mut self, f: &MenuFacts)
        requires
            old(self).wf(),
        ensures
            final(self).wf(),
            *final(self) == (App { fx: final(self).fx, ..*old(self) }),
            final(self).fx@ == old(self).fx@ + fullscreen_effects(f),
    {
        self.toggle_fullscreen(f.window, f.modifier.as_str());
    }

    fn keep(&mut self)
        ensures
            persisted(old(self), final(self)),
    {
        self.fx.push(Effect::PersistPreferences);
    }

    /// Carries out a row of the menu. Every row ends here, so that what is
    /// offered and what happens stay apart. A setting that the host holds is
    /// for it to apply, and `f` says what became of it.
    pub fn run_menu_action(&mut self, a: MenuAction, f: &MenuFacts) -> (step: MenuStep)
        requires
            old(self).wf(),
        ensures
            final(self).wf(),
            menu_ran(old(self), final(self), a, f, step),
    {
        if is_host_action(a) {
            return MenuStep::Host;
        }
        match a {
            MenuAction::OpenFrameAnalyzer | MenuAction::OpenDebugger | MenuAction::OpenConsole => {
                self.run_tool(a);
            },
            MenuAction::OpenCalibration | MenuAction::OpenShortcuts | MenuAction::OpenAbout => {
                self.run_panel(a);
            },
            MenuAction::ToggleWarp => {
                self.run_warp();
            },
            MenuAction::TogglePause => {
                self.toggle_pause();
            },
            MenuAction::ToggleFullscreen => {
                self.run_fullscreen(f);
            },
            MenuAction::SaveState
            | MenuAction::LoadState
            | MenuAction::LoadRom
            | MenuAction::ToggleRecord
            | MenuAction::ResetMachine
            | MenuAction::QuickSave(_)
            | MenuAction::QuickLoad(_) => {
                return self.run_asked(a, f);
            },
            MenuAction::Quit => {
                self.ui.quit_requested = true;
            },
            _ => {
                self.run_setting(a, f);
            },
        }
        let ghost mid = *self;
        assert(menu_did(old(self), &mid, a, f));
        self.keep();
        MenuStep::Done
    }

    /// The host carried out a row of the menu.
    pub fn menu_host_done(&mut self)
        ensures
            persisted(old(self), final(self)),
    {
        self.keep();
    }

    /// The menu was opened, on its first row or on its last, or closed.
    pub open spec fn menu_toggled(&self, n: &App, rows: Seq<MenuRow>, first: bool) -> bool {
        &&& *n == (App { fx: n.fx, guest: n.guest, ui: n.ui, ..*self })
        &&& n.ui == (Ui { menu: n.ui.menu, ..self.ui })
        &&& if self.ui.menu.open {
            &&& !n.ui.menu.open
            &&& n.ui.menu.rows@.len() == 0
            &&& n.ui.menu.stand() == (Seq::<usize>::empty(), None::<usize>, self.ui.menu.hover_arm)
            &&& n.guest == self.guest
            &&& n.fx@ == self.fx@ + seq![Effect::AutoCaptureMouse, Effect::Redraw]
        } else {
            &&& n.ui.menu.open
            &&& n.ui.menu.rows@ == rows
            &&& n.ui.menu.stand() == (
                Seq::<usize>::empty(),
                if rows.len() == 0 {
                    None::<usize>
                } else if first {
                    Some(0usize)
                } else {
                    Some((rows.len() - 1) as usize)
                },
                self.ui.menu.hover_arm,
            )
            &&& n.guest == (GuestInput { mouse_captured: false, ..self.guest })
            &&& n.fx@ == self.fx@ + seq![Effect::CaptureMouse(false), Effect::Redraw]
        }
    }

    /// Opens or closes the menu. Opening hands the mouse back, since the menu
    /// is worked with the host's pointer, and starts on the last row, which
    /// is where the menu hangs from.
    pub fn toggle_menu(&mut self, rows: Vec<MenuRow>)
        requires
            old(self).wf(),
        ensures
            final(self).wf(),
            old(self).menu_toggled(final(self), rows@, false),
    {
        self.switch_menu(rows, false);
    }

    fn switch_menu(&mut self, rows: Vec<MenuRow>, first: bool)
        requires
            old(self).wf(),
        ensures
            final(self).wf(),
            old(self).menu_toggled(final(self), rows@, first),
    {
        let opening: bool = !self.ui.menu.open;
        self.ui.menu.toggle(rows, first);
        if opening {
            self.guest.mouse_captured = false;
            self.fx.push(Effect::CaptureMouse(false));
        } else {
            self.fx.push(Effect::AutoCaptureMouse);
        }
        self.fx.redraw();
        assert(self.fx@ =~= old(self).fx@ + (if opening {
            seq![Effect::CaptureMouse(false), Effect::Redraw]
        } else {
            seq![Effect::AutoCaptureMouse, Effect::Redraw]
        }));
    }

    /// One button of the pad always leads back to the machine: what is open
    /// closes, the menu first, and with nothing open the menu opens, on its
    /// first row.
    pub open spec fn pad_toggled(&self, n: &App, rows: Seq<MenuRow>) -> bool {
        if self.ui.menu.open {
            &&& *n == (App { fx: n.fx, ui: n.ui, ..*self })
            &&& n.ui == (Ui { menu: n.ui.menu, nav: Nav::hidden(), ..self.ui })
            &&& n.ui.menu.is_shut()
            &&& n.fx@ == self.fx@.push(Effect::Redraw)
        } else if self.ui.panel is Some {
            &&& *n == (App { fx: n.fx, ui: self.ui.unpanelled(), ..*self })
            &&& n.fx@ == self.fx@ + seq![Effect::Redraw, Effect::Redraw]
        } else {
            exists|mid: App|
                #![trigger redrawn(&mid, n)]
                (match self.desk.topmost() {
                    Some(kind) => tool_closed(self, &mid, kind),
                    None => self.menu_toggled(&mid, rows, true),
                }) && redrawn(&mid, n)
        }
    }

    /// The pad's way into the interface and out of it: the menu opens with its
    /// first row chosen, and whatever else is open closes before it would.
    pub fn toggle_pad_interface(&mut self, rows: Vec<MenuRow>)
        requires
            old(self).wf(),
        ensures
            final(self).wf(),
            old(self).pad_toggled(final(self), rows@),
    {
        if self.ui.menu.open {
            self.ui.menu.close_menu();
            self.ui.nav.clear();
            self.fx.redraw();
            return;
        }
        if self.ui.panel.is_some() {
            self.ui.close_panel(&mut self.fx);
            self.fx.redraw();
            assert(self.fx@ =~= old(self).fx@ + seq![Effect::Redraw, Effect::Redraw]);
            return;
        }
        match self.desk.topmost_tool_panel() {
            Some(kind) => self.close_tool_panel(kind),
            None => self.switch_menu(rows, true),
        }
        let ghost mid = *self;
        self.fx.redraw();
        assert(redrawn(&mid, self));
    }

    /// A key of an inspector's own window: Escape closes it; says whether it
    /// was that.
    pub fn ui_handle_tool_key(&mut self, kind: ToolPanelKind, key: Key) -> (closed: bool)
        requires
            old(self).wf(),
        ensures
            final(self).wf(),
            closed == (key is Escape),
            if closed {
                tool_closed(old(self), final(self), kind)
            } else {
                *final(self) == *old(self)
            },
    {
        match key {
            Key::Escape => {
                self.close_tool_panel(kind);
                true
            },
            _ => false,
        }
    }
}

pub open spec fn redrawn(m: &App, n: &App) -> bool {
    *n == (App { fx: n.fx, ..*m }) && n.fx@ == m.fx@.push(Effect::Redraw)
}

/// The pad's button opens the menu on its first row where nothing is open, and
/// the next press of it shuts the menu and hides the focus.
pub proof fn lemma_pad_button_opens_and_shuts(o: App, n: App, m: App, rows: Seq<MenuRow>,
    again: Seq<MenuRow>)
    requires
        !o.ui.menu.open,
        o.ui.panel is None,
        o.desk.topmost() is None,
        o.pad_toggled(&n, rows),
        n.pad_toggled(&m, again),
    ensures
        n.ui.menu.open,
        n.ui.menu.rows@ == rows,
        n.ui.menu.stand() == (
            Seq::<usize>::empty(),
            if rows.len() == 0 {
                None::<usize>
            } else {
                Some(0usize)
            },
            o.ui.menu.hover_arm,
        ),
        m.ui.menu.is_shut(),
        m.ui.nav == Nav::hidden(),
{
}

/// With a panel or an inspector up the pad's button puts that away, and the
/// menu stays as it was, which is closed.
pub proof fn lemma_pad_button_closes_what_is_up(o: App, n: App, rows: Seq<MenuRow>)
    requires
        !o.ui.menu.open,
        o.ui.panel is Some || o.desk.topmost() is Some,
        o.pad_toggled(&n, rows),
    ensures
        n.ui.menu == o.ui.menu,
        n.ui.panel is None,
        o.ui.panel is Some ==> n.desk == o.desk,
{
}

impl Menu {
    /// Opens on the first of its rows or on the last, or closes. Each opening
    /// starts afresh.
    fn toggle(&mut self, rows: Vec<MenuRow>, first: bool)
        ensures
            final(self).open == !old(self).open,
            final(self).rows@ == (if final(self).open {
                rows@
            } else {
                Seq::<MenuRow>::empty()
            }),
            final(self).stand() == (
                Seq::<usize>::empty(),
                if !final(self).open || rows@.len() == 0 {
                    None::<usize>
                } else if first {
                    Some(0usize)
                } else {
                    Some((rows@.len() - 1) as usize)
                },
                old(self).hover_arm,
            ),
    {
        self.open = !self.open;
        self.path = Vec::new();
        self.cursor = None;
        if self.open {
            self.rows = rows;
            self.land(first);
        } else {
            self.rows = Vec::new();
        }
    }
}

/// What a button of the status bar comes to.
#[derive(Clone, Copy, PartialEq, Eq, Structural, Debug)]
pub enum BarStep {
    Nothing,
    Power,
    Pause,
    Reset,
    Screenshot,
    Menu,
    Load(usize),
    Swap(usize),
    Eject(usize),
    CdLoad,
    CdEject,
    Joystick,
    Keyboard,
}

/// The disk of a bridged drive is loaded, swapped and ejected by hand: its
/// buttons are drawn, and do nothing.
pub open spec fn bar_step(c: BarControl, bridged: bool) -> BarStep {
    match c {
        BarControl::Power => BarStep::Power,
        BarControl::Pause => BarStep::Pause,
        BarControl::Reboot => BarStep::Reset,
        BarControl::Screenshot => BarStep::Screenshot,
        BarControl::Menu => BarStep::Menu,
        BarControl::DriveLoad(i) => if bridged {
            BarStep::Nothing
        } else {
            BarStep::Load(i)
        },
        BarControl::DriveSwap(i) => if bridged {
            BarStep::Nothing
        } else {
            BarStep::Swap(i)
        },
        BarControl::DriveEject(i) => if bridged {
            BarStep::Nothing
        } else {
            BarStep::Eject(i)
        },
        BarControl::CdLoad => BarStep::CdLoad,
        BarControl::CdEject => BarStep::CdEject,
        BarControl::Joystick => BarStep::Joystick,
        BarControl::Keyboard => BarStep::Keyboard,
        BarControl::Volume => BarStep::Nothing,
    }
}

/// The action behind a clicked button of the status bar; `bridged` says
/// whether the drive that it is for is a real one.
pub fn activate_bar_control(c: BarControl, bridged: bool) -> (r: BarStep)
    ensures
        r == bar_step(c, bridged),
{
    match c {
        BarControl::Power => BarStep::Power,
        BarControl::Pause => BarStep::Pause,
        BarControl::Reboot => BarStep::Reset,
        BarControl::Screenshot => BarStep::Screenshot,
        BarControl::Menu => BarStep::Menu,
        BarControl::DriveLoad(i) => if bridged {
            BarStep::Nothing
        } else {
            BarStep::Load(i)
        },
        BarControl::DriveSwap(i) => if bridged {
            BarStep::Nothing
        } else {
            BarStep::Swap(i)
        },
        BarControl::DriveEject(i) => if bridged {
            BarStep::Nothing
        } else {
            BarStep::Eject(i)
        },
        BarControl::CdLoad => BarStep::CdLoad,
        BarControl::CdEject => BarStep::CdEject,
        BarControl::Joystick => BarStep::Joystick,
        BarControl::Keyboard => BarStep::Keyboard,
        BarControl::Volume => BarStep::Nothing,
    }
}

} // verus!
