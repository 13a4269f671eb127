//! What the menu is built from: everything that its rows show is read once,
//! when it opens, so that nothing it offers shifts under the pointer.

use vstd::prelude::*;

use crate::app::App;
use crate::breaks::opt_text;
use crate::menu::AudioFilter;
use crate::menu::ShaderKind;
use crate::text::texts;
use crate::warp::WarpSpeed;

verus! {

/// The MT-32 on the serial port, as the host knows it.
#[derive(PartialEq, Eq, Debug)]
pub struct Mt32Unit {
    pub selected: bool,
    pub attached: bool,
    /// Its own output is wired back to the machine.
    pub input: bool,
    pub control_rom: Option<String>,
    pub pcm_rom: Option<String>,
}

/// The Coppersynth on the serial port, as the host knows it.
#[derive(PartialEq, Eq, Debug)]
pub struct CsynthUnit {
    pub selected: bool,
    pub mt32_mode: String,
    pub custom_font: bool,
}

/// Where the host plays sound.
#[derive(PartialEq, Eq, Debug)]
pub enum AudioOutput {
    Disabled,
    Device(String),
    Default,
}

/// The row of the sound outputs that is ticked.
#[derive(PartialEq, Eq, Debug)]
pub enum AudioOutputChoice {
    Default,
    Named(String),
    Disabled,
}

/// The row that stands for an output.
pub open spec fn choice_of(output: AudioOutput) -> AudioOutputChoice {
    match output {
        AudioOutput::Disabled => AudioOutputChoice::Disabled,
        AudioOutput::Device(name) => AudioOutputChoice::Named(name),
        AudioOutput::Default => AudioOutputChoice::Default,
    }
}

fn output_choice(output: AudioOutput) -> (r: AudioOutputChoice)
    ensures
        r == choice_of(output),
{
    match output {
        AudioOutput::Disabled => AudioOutputChoice::Disabled,
        AudioOutput::Device(name) => AudioOutputChoice::Named(name),
        AudioOutput::Default => AudioOutputChoice::Default,
    }
}

/// The settings that the host holds and the rows show as they stand. A choice
/// from a list that the host keeps is an index into that list.
#[derive(Clone, Copy, PartialEq, Eq, Structural, Debug)]
pub struct MenuSettings {
    /// The build is a player's, which offers fewer rows.
    pub player: bool,
    pub player_save_states: bool,
    pub bezel: usize,
    pub perf_overlay: bool,
    pub autofire_hz: u8,
    pub joystick_input_mode: usize,
    /// What is plugged into the first port, and into the second.
    pub port_one: usize,
    pub port_two: usize,
    pub pixel_aspect: usize,
    pub scaling: usize,
    pub tv_centre_h: i8,
    pub tv_centre_v: i8,
    pub shader: ShaderKind,
    /// In percent.
    pub shader_strength: u8,
    pub tint: usize,
    pub menu_scale: usize,
    /// In percent.
    pub floppy_speed: u16,
    pub audio_filter: AudioFilter,
    pub mt32_panel: bool,
    pub csynth_panel: bool,
    pub keyboard_panel: bool,
    pub mt32_lcd: usize,
    /// In tenths of a decibel.
    pub sampler_gain: i16,
}

/// What the host reads for the menu.
#[derive(PartialEq, Eq, Debug)]
pub struct MenuSource {
    pub settings: MenuSettings,
    pub audio_output: AudioOutput,
    pub audio_devices: Vec<String>,
    /// The user has named a shader of their own.
    pub custom_shader: bool,
    pub fullscreen: bool,
    pub recording: bool,
    pub input_recording: bool,
    pub rewind: bool,
    /// The serial port is in MIDI mode.
    pub serial_is_midi: bool,
    pub midi_in: String,
    pub midi_out: String,
    pub midi_inputs: Vec<String>,
    pub midi_outputs: Vec<String>,
    /// The build has the unit at all.
    pub mt32_built: bool,
    pub csynth_built: bool,
    pub mt32: Option<Mt32Unit>,
    pub csynth: Option<CsynthUnit>,
    /// A sampler is plugged in and listening.
    pub sampling: bool,
    pub sampler_input: Option<String>,
    pub sampler_inputs: Vec<String>,
    /// The picture shows the television's own border.
    pub overscan_tv: bool,
    /// A drive has a disk image rather than a real disk.
    pub image_drive: bool,
    pub save_slots: Vec<Option<String>>,
}

/// What the rows of the menu show.
#[derive(PartialEq, Eq, Debug)]
pub struct MenuState {
    pub settings: MenuSettings,
    pub audio_output: AudioOutputChoice,
    pub audio_devices: Vec<String>,
    pub custom_shader_available: bool,
    pub status_bar_hidden: bool,
    pub paused: bool,
    pub fullscreen: bool,
    pub warp: bool,
    pub warp_speed: WarpSpeed,
    pub run_ahead_frames: u8,
    pub recording: bool,
    pub input_recording: bool,
    pub rewind: bool,
    pub tv_centre_applies: bool,
    pub floppy_speed_applies: bool,
    pub midi_in: String,
    pub midi_out: String,
    pub midi_inputs: Vec<String>,
    pub midi_outputs: Vec<String>,
    pub mt32_available: bool,
    pub mt32_selected: bool,
    pub mt32_attached: bool,
    pub mt32_input: bool,
    pub mt32_control_rom: Option<String>,
    pub mt32_pcm_rom: Option<String>,
    pub csynth_available: bool,
    pub csynth_attached: bool,
    pub csynth_mt32_mode: String,
    pub csynth_custom_font: bool,
    pub sampler_input: String,
    pub sampler_inputs: Vec<String>,
    pub save_slots: Vec<Option<String>>,
}

/// The lists of MIDI endpoints are offered only while the port is in MIDI
/// mode.
pub open spec fn midi_shown(src: MenuSource, m: MenuState) -> bool {
    if src.serial_is_midi {
        &&& m.midi_in@ == src.midi_in@
        &&& m.midi_out@ == src.midi_out@
        &&& texts(m.midi_inputs@) == texts(src.midi_inputs@)
        &&& texts(m.midi_outputs@) == texts(src.midi_outputs@)
    } else {
        &&& m.midi_in@.len() == 0
        &&& m.midi_out@.len() == 0
        &&& m.midi_inputs@.len() == 0
        &&& m.midi_outputs@.len() == 0
    }
}

pub open spec fn mt32_shown(src: MenuSource, m: MenuState) -> bool {
    &&& m.mt32_available == (src.mt32_built && src.serial_is_midi)
    &&& match src.mt32 {
        Some(u) => {
            &&& m.mt32_selected == u.selected
            &&& m.mt32_attached == u.attached
            &&& m.mt32_input == u.input
            &&& opt_text(m.mt32_control_rom) == opt_text(u.control_rom)
            &&& opt_text(m.mt32_pcm_rom) == opt_text(u.pcm_rom)
        },
        None => {
            &&& !m.mt32_selected
            &&& !m.mt32_attached
            &&& !m.mt32_input
            &&& m.mt32_control_rom is None
            &&& m.mt32_pcm_rom is None
        },
    }
}

pub open spec fn csynth_shown(src: MenuSource, m: MenuState) -> bool {
    &&& m.csynth_available == (src.csynth_built && src.serial_is_midi)
    &&& match src.csynth {
        Some(u) => {
            &&& m.csynth_attached == u.selected
            &&& m.csynth_mt32_mode@ == u.mt32_mode@
            &&& m.csynth_custom_font == u.custom_font
        },
        None => {
            &&& !m.csynth_attached
            &&& m.csynth_mt32_mode@.len() == 0
            &&& !m.csynth_custom_font
        },
    }
}

pub open spec fn sampler_shown(src: MenuSource, m: MenuState) -> bool {
    &&& m.sampler_input@ == (match src.sampler_input {
        Some(name) => name@,
        None => Seq::empty(),
    })
    &&& if src.sampling {
        texts(m.sampler_inputs@) == texts(src.sampler_inputs@)
    } else {
        m.sampler_inputs@.len() == 0
    }
}

impl App {
    pub open spec fn menu_shows(&self, src: MenuSource, m: MenuState) -> bool {
        &&& m.settings == src.settings
        &&& m.audio_output == choice_of(src.audio_output)
        &&& m.audio_devices == src.audio_devices
        &&& m.custom_shader_available == src.custom_shader
        &&& m.status_bar_hidden == self.ui.bar_hidden
        &&& m.paused == self.session.paused
        &&& m.warp == !self.session.paced
        &&& m.warp_speed == self.session.warp_speed
        &&& m.run_ahead_frames == self.session.run_ahead_frames
        &&& m.fullscreen == src.fullscreen
        &&& m.recording == src.recording
        &&& m.input_recording == src.input_recording
        &&& m.rewind == src.rewind
        &&& m.tv_centre_applies == src.overscan_tv
        &&& m.floppy_speed_applies == src.image_drive
        &&& m.save_slots == src.save_slots
        &&& midi_shown(src, m)
        &&& mt32_shown(src, m)
        &&& csynth_shown(src, m)
        &&& sampler_shown(src, m)
    }

    /// The menu's state for this session and for what the host read.
    #[verifier::rlimit(40)]
    pub fn build_menu(&self, src: MenuSource) -> (m: MenuState)
        ensures
            self.menu_shows(src, m),
    {
        let midi: bool = src.serial_is_midi;
        let (mt32_selected, mt32_attached, mt32_input, mt32_control_rom, mt32_pcm_rom): (
            bool,
            bool,
            bool,
            Option<String>,
            Option<String>,
        ) = match src.mt32 {
            Some(u) => (u.selected, u.attached, u.input, u.control_rom, u.pcm_rom),
            None => (false, false, false, None, None),
        };
        let (csynth_attached, csynth_mt32_mode, csynth_custom_font): (bool, String, bool) =
            match src.csynth {
            Some(u) => (u.selected, u.mt32_mode, u.custom_font),
            None => (false, String::new(), false),
        };
        MenuState {
            settings: src.settings,
            audio_output: output_choice(src.audio_output),
            audio_devices: src.audio_devices,
            custom_shader_available: src.custom_shader,
            status_bar_hidden: self.ui.bar_hidden,
            paused: self.session.paused,
            fullscreen: src.fullscreen,
            warp: !self.session.paced,
            warp_speed: self.session.warp_speed,
            run_ahead_frames: self.session.run_ahead_frames,
            recording: src.recording,
            input_recording: src.input_recording,
            rewind: src.rewind,
            tv_centre_applies: src.overscan_tv,
            floppy_speed_applies: src.image_drive,
            midi_in: if midi {
                src.midi_in
            } else {
                String::new()
            },
            midi_out: if midi {
                src.midi_out
            } else {
                String::new()
            },
            midi_inputs: if midi {
                src.midi_inputs
            } else {
                Vec::new()
            },
            midi_outputs: if midi {
                src.midi_outputs
            } else {
                Vec::new()
            },
            mt32_available: src.mt32_built && midi,
            mt32_selected,
            mt32_attached,
            mt32_input,
            mt32_control_rom,
            mt32_pcm_rom,
            csynth_available: src.csynth_built && midi,
            csynth_attached,
            csynth_mt32_mode,
            csynth_custom_font,
            sampler_input: match src.sampler_input {
                Some(name) => name,
                None => String::new(),
            },
            sampler_inputs: if src.sampling {
                src.sampler_inputs
            } else {
                Vec::new()
            },
            save_slots: src.save_slots,
        }
    }
}

} // verus!
