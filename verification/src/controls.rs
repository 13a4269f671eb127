//! The inspectors' buttons: which of them an inspector answers, and what
//! those do that need no more than the application itself.

use vstd::prelude::*;

use crate::analyzer::probe_row;
use crate::analyzer::probed_row;
use crate::app::App;
use crate::app::DebugTab;
use crate::app::DebuggerPanel;
use crate::command::hex32;
use crate::command::hex32_of;
use crate::command::reg_index;
use crate::command::reg_of;
use crate::console::cleared;
use crate::console::reg_value;
use crate::console::set_run;
use crate::desk::ToolPanelKind;
use crate::effects::Effect;
use crate::machine::Machine;
use crate::machine::REG_SR;
use crate::text::chars_of;
use crate::text::put;
use crate::text::split_words;
use crate::text::views;
use crate::text::words;
use crate::number::dec;
use crate::number::put_dec;
use crate::tools::tool_closed;

verus! {

/// A control of an inspector.
#[derive(Clone, Copy, PartialEq, Eq, Structural, Debug)]
pub enum UiControl {
    PanelClose,
    PanelBody,
    DebugTab(DebugTab),
    DebugRun,
    DebugStep,
    DebugStepOver,
    DebugStepOut,
    DebugStepFrame,
    DebugRunTo,
    DebugRunLine,
    DebugReverseStep,
    DebugReverseFrame,
    DebugReverseRun,
    DebugMemPrev,
    DebugMemNext,
    DebugPoke,
    DebugEntry,
    DebugBreakToggle,
    DebugWatchToggle,
    DebugRegToggle,
    DebugBeamToggle,
    DebugCatchToggle,
    DebugCopperBreakToggle,
    DebugCopperStep,
    DebugMemFind,
    DebugMemSave,
    DebugMemWriter,
    DebugMemBits,
    DebugPlaneToggle(u8),
    DebugSpriteToggle(u8),
    DebugBreaksClear,
    DebugWaveArm,
    DebugWaveStop,
    DebugAudioMute(u8),
    AnalyzerRun,
    AnalyzerFrame,
    AnalyzerPick { x: u32, y: u32, scanline: bool },
    AnalyzerUnderlay,
    AnalyzerScrub,
    AnalyzerRunTo,
    AnalyzerTab(u8),
    AnalyzerHeatPreset(u8),
    /// A cell of the heat map.
    AnalyzerHeatPick { x: u8, y: u8 },
    AnalyzerResourceRow(u8),
    AnalyzerCpuWait,
    AnalyzerBlitRow(u8),
    AnalyzerResourceSave,
}

/// Who carries a control out.
#[derive(Clone, Copy, PartialEq, Eq, Structural, Debug)]
pub enum ControlStep {
    Done,
    /// The host, which steps the machine, reads it or draws from it.
    Host,
}

/// The controls of the debugger that the host carries out.
pub open spec fn debugger_host(c: UiControl) -> bool {
    match c {
        UiControl::DebugStep | UiControl::DebugStepOver | UiControl::DebugStepOut
        | UiControl::DebugStepFrame | UiControl::DebugRunTo | UiControl::DebugRunLine
        | UiControl::DebugReverseStep | UiControl::DebugReverseFrame | UiControl::DebugReverseRun
        | UiControl::DebugMemPrev | UiControl::DebugMemNext | UiControl::DebugBreakToggle
        | UiControl::DebugWatchToggle | UiControl::DebugRegToggle | UiControl::DebugBeamToggle
        | UiControl::DebugCatchToggle | UiControl::DebugCopperBreakToggle
        | UiControl::DebugCopperStep | UiControl::DebugMemFind | UiControl::DebugMemSave
        | UiControl::DebugMemWriter | UiControl::DebugMemBits | UiControl::DebugPlaneToggle(_)
        | UiControl::DebugSpriteToggle(_) | UiControl::DebugWaveArm
        | UiControl::DebugWaveStop => true,
        _ => false,
    }
}

/// The controls of the analyzer that the host carries out.
pub open spec fn analyzer_host(c: UiControl) -> bool {
    match c {
        UiControl::AnalyzerFrame | UiControl::AnalyzerUnderlay | UiControl::AnalyzerScrub
        | UiControl::AnalyzerRunTo | UiControl::AnalyzerTab(_) | UiControl::AnalyzerHeatPreset(_)
        | UiControl::AnalyzerHeatPick { .. } | UiControl::AnalyzerCpuWait | UiControl::AnalyzerBlitRow(_)
        | UiControl::AnalyzerResourceSave => true,
        UiControl::AnalyzerPick { scanline, .. } => scanline,
        _ => false,
    }
}

fn is_debugger_host(c: UiControl) -> (r: bool)
    ensures
        r == debugger_host(c),
{
    match c {
        UiControl::DebugStep | UiControl::DebugStepOver | UiControl::DebugStepOut
        | UiControl::DebugStepFrame | UiControl::DebugRunTo | UiControl::DebugRunLine
        | UiControl::DebugReverseStep | UiControl::DebugReverseFrame | UiControl::DebugReverseRun
        | UiControl::DebugMemPrev | UiControl::DebugMemNext | UiControl::DebugBreakToggle
        | UiControl::DebugWatchToggle | UiControl::DebugRegToggle | UiControl::DebugBeamToggle
        | UiControl::DebugCatchToggle | UiControl::DebugCopperBreakToggle
        | UiControl::DebugCopperStep | UiControl::DebugMemFind | UiControl::DebugMemSave
        | UiControl::DebugMemWriter | UiControl::DebugMemBits | UiControl::DebugPlaneToggle(_)
        | UiControl::DebugSpriteToggle(_) | UiControl::DebugWaveArm
        | UiControl::DebugWaveStop => true,
        _ => false,
    }
}

fn is_analyzer_host(c: UiControl) -> (r: bool)
    ensures
        r == analyzer_host(c),
{
    match c {
        UiControl::AnalyzerFrame | UiControl::AnalyzerUnderlay | UiControl::AnalyzerScrub
        | UiControl::AnalyzerRunTo | UiControl::AnalyzerTab(_) | UiControl::AnalyzerHeatPreset(_)
        | UiControl::AnalyzerHeatPick { .. } | UiControl::AnalyzerCpuWait | UiControl::AnalyzerBlitRow(_)
        | UiControl::AnalyzerResourceSave => true,
        UiControl::AnalyzerPick { scanline, .. } => scanline,
        _ => false,
    }
}

/// A source of sound besides the four channels.
#[derive(Clone, Copy, PartialEq, Eq, Structural, Debug)]
pub enum AudioExtraKind {
    Cd,
    Synth,
    Toccata,
    Mhi,
}

/// What is muted, and which of the other sources are fitted, in the order of
/// their rows.
#[derive(PartialEq, Eq, Debug)]
pub struct AudioMix {
    pub channels: Vec<bool>,
    pub cd: bool,
    pub synth: bool,
    pub toccata: bool,
    pub mhi: bool,
    pub extras: Vec<AudioExtraKind>,
}

impl AudioMix {
    pub open spec fn wf(&self) -> bool {
        self.channels@.len() == 4
    }

    pub open spec fn muted(&self, kind: AudioExtraKind) -> bool {
        match kind {
            AudioExtraKind::Cd => self.cd,
            AudioExtraKind::Synth => self.synth,
            AudioExtraKind::Toccata => self.toccata,
            AudioExtraKind::Mhi => self.mhi,
        }
    }

    /// The source that a row stands for; rows past the fitted ones are dead
    /// space.
    pub open spec fn extra_of(&self, row: u8) -> Option<AudioExtraKind> {
        if 4 <= row && row - 4 < self.extras@.len() {
            Some(self.extras@[row - 4])
        } else {
            None
        }
    }

    pub fn new() -> (r: AudioMix)
        ensures
            r.wf(),
            r.channels@ == seq![false, false, false, false],
            !r.cd && !r.synth && !r.toccata && !r.mhi,
            r.extras@.len() == 0,
    {
        let mut channels: Vec<bool> = Vec::new();
        channels.push(false);
        channels.push(false);
        channels.push(false);
        channels.push(false);
        assert(channels@ =~= seq![false, false, false, false]);
        AudioMix {
            channels,
            cd: false,
            synth: false,
            toccata: false,
            mhi: false,
            extras: Vec::new(),
        }
    }
}

pub open spec fn extra_name(kind: AudioExtraKind) -> Seq<char> {
    match kind {
        AudioExtraKind::Cd => "CD audio"@,
        AudioExtraKind::Synth => "MIDI synth"@,
        AudioExtraKind::Toccata => "Toccata"@,
        AudioExtraKind::Mhi => "MHI"@,
    }
}

pub open spec fn mute_word(muted: bool) -> Seq<char> {
    if muted {
        " muted"@
    } else {
        " unmuted"@
    }
}

/// A row's source is muted if it was not, and the other way round.
pub open spec fn mute_toggled(a: &AudioMix, b: &AudioMix, row: u8) -> bool {
    if row < 4 {
        &&& *b == (AudioMix { channels: b.channels, ..*a })
        &&& b.channels@ == a.channels@.update(row as int, !a.channels@[row as int])
    } else {
        match a.extra_of(row) {
            None => *b == *a,
            Some(AudioExtraKind::Cd) => *b == (AudioMix { cd: !a.cd, ..*a }),
            Some(AudioExtraKind::Synth) => *b == (AudioMix { synth: !a.synth, ..*a }),
            Some(AudioExtraKind::Toccata) => *b == (AudioMix { toccata: !a.toccata, ..*a }),
            Some(AudioExtraKind::Mhi) => *b == (AudioMix { mhi: !a.mhi, ..*a }),
        }
    }
}

/// What is said of a row that was toggled.
pub open spec fn mute_line(a: &AudioMix, row: u8) -> Option<Seq<char>> {
    if row < 4 {
        Some("AUD"@ + dec(row as int) + mute_word(!a.channels@[row as int]))
    } else {
        match a.extra_of(row) {
            None => None,
            Some(kind) => Some(extra_name(kind) + mute_word(!a.muted(kind))),
        }
    }
}

fn put_mute(out: &mut String, muted: bool)
    ensures
        final(out)@ == old(out)@ + mute_word(muted),
{
    if muted {
        put(out, " muted");
    } else {
        put(out, " unmuted");
    }
}

impl AudioMix {
    /// Toggles the row that was clicked and says what to show, unless no
    /// fitted source has that row.
    pub fn toggle_row(&mut self, row: u8) -> (r: Option<String>)
        requires
            old(self).wf(),
        ensures
            final(self).wf(),
            mute_toggled(old(self), final(self), row),
            crate::breaks::opt_text(r) == mute_line(old(self), row),
    {
        if row < 4 {
            let muted: bool = !self.channels[row as usize];
            self.channels.set(row as usize, muted);
            let mut line = "AUD".to_owned();
            put_dec(&mut line, row as u64);
            put_mute(&mut line, muted);
            return Some(line);
        }
        let at: usize = row as usize - 4;
        if at >= self.extras.len() {
            return None;
        }
        match self.extras[at] {
            AudioExtraKind::Cd => {
                self.cd = !self.cd;
                let mut line = "CD audio".to_owned();
                put_mute(&mut line, self.cd);
                Some(line)
            },
            AudioExtraKind::Synth => {
                self.synth = !self.synth;
                let mut line = "MIDI synth".to_owned();
                put_mute(&mut line, self.synth);
                Some(line)
            },
            AudioExtraKind::Toccata => {
                self.toccata = !self.toccata;
                let mut line = "Toccata".to_owned();
                put_mute(&mut line, self.toccata);
                Some(line)
            },
            AudioExtraKind::Mhi => {
                self.mhi = !self.mhi;
                let mut line = "MHI".to_owned();
                put_mute(&mut line, self.mhi);
                Some(line)
            },
        }
    }
}

/// The register and the value that an entry such as "D0 1234" names.
pub open spec fn register_edit(entry: Seq<char>) -> Option<(u8, u32)> {
    let w = words(entry);
    if w.len() == 2 {
        match (reg_of(w[0]), hex32_of(w[1])) {
            (Some(reg), Some(value)) => Some((reg, value)),
            _ => None,
        }
    } else {
        None
    }
}

pub fn parse_register_edit(entry: &str) -> (r: Option<(u8, u32)>)
    ensures
        r == register_edit(entry@),
        r matches Some((reg, _)) ==> reg < 18,
{
    let w = split_words(&chars_of(entry));
    assert(views(w@).len() == w@.len());
    if w.len() != 2 {
        return None;
    }
    assert(views(w@)[0] == w@[0]@ && views(w@)[1] == w@[1]@);
    match (reg_index(&w[0]), hex32(&w[1])) {
        (Some(reg), Some(value)) => Some((reg, value)),
        _ => None,
    }
}

/// The beam position of a pick, from its place in the picture in 1024ths.
pub open spec fn picked(at: u32, size: u32) -> u16 {
    let v = at * size / 1024;
    if v > 65535 {
        65535
    } else {
        v as u16
    }
}

/// What a control of the debugger does that needs nothing of the host.
pub open spec fn debugger_did(o: &App, n: &App, c: UiControl) -> bool {
    match c {
        UiControl::PanelClose => tool_closed(o, n, ToolPanelKind::Debugger),
        UiControl::DebugTab(tab) => {
            &&& *n == (App { debugger: n.debugger, ..*o })
            &&& match (o.debugger, n.debugger) {
                (Some(p), Some(q)) => q == (DebuggerPanel { tab, ..p }),
                (None, None) => true,
                _ => false,
            }
        },
        UiControl::DebugEntry => {
            &&& *n == (App { debugger: n.debugger, ..*o })
            &&& match (o.debugger, n.debugger) {
                (Some(p), Some(q)) => q == (DebuggerPanel { entry_active: true, ..p }),
                (None, None) => true,
                _ => false,
            }
        },
        UiControl::DebugRun => {
            &&& *n == (App { fx: n.fx, ..set_run(*o, !o.session.paused) })
            &&& n.fx@ == o.fx@.push(Effect::Redraw)
        },
        UiControl::DebugBreaksClear => {
            &&& *n == (App { machine: n.machine, last_debug_stop: None, fx: n.fx, ..*o })
            &&& cleared(&o.machine, &n.machine)
            &&& n.fx@ == o.fx@.push(Effect::Osd("Cleared all breakpoints and watchpoints"@))
        },
        UiControl::DebugAudioMute(row) => {
            &&& *n == (App { mix: n.mix, fx: n.fx, ..*o })
            &&& mute_toggled(&o.mix, &n.mix, row)
            &&& n.fx@ == (match mute_line(&o.mix, row) {
                Some(line) => o.fx@.push(Effect::Osd(line)),
                None => o.fx@,
            })
        },
        UiControl::DebugPoke => match entry_edit(o) {
            Some((reg, value)) => {
                &&& *n == (App { machine: n.machine, ..*o })
                &&& n.machine == (Machine { regs: n.machine.regs, ..o.machine })
                &&& n.machine.regs@ == o.machine.regs@.update(reg as int, reg_value(reg, value))
            },
            None => *n == *o,
        },
        _ => *n == *o,
    }
}

/// The register edit that the debugger's entry spells.
pub open spec fn entry_edit(o: &App) -> Option<(u8, u32)> {
    match o.debugger {
        Some(p) => register_edit(p.entry@),
        None => None,
    }
}

/// Whether the host carries a control of the debugger out. A poke that is no
/// register edit is a write to memory.
pub open spec fn debugger_asks(o: &App, c: UiControl) -> bool {
    debugger_host(c) || (c is DebugPoke && entry_edit(o) is None)
}

impl App {
    #[verifier::rlimit(40)]
    fn debugger_control(&mut self, c: UiControl) -> (step: ControlStep)
        requires
            old(self).wf(),
        ensures
            final(self).wf(),
            (step is Host) == debugger_asks(old(self), c),
            debugger_did(old(self), final(self), c),
    {
        if is_debugger_host(c) {
            return ControlStep::Host;
        }
        match c {
            UiControl::PanelClose => {
                self.close_tool_panel(ToolPanelKind::Debugger);
            },
            UiControl::DebugTab(tab) => {
                match self.debugger.take() {
                    Some(mut p) => {
                        p.tab = tab;
                        self.debugger = Some(p);
                    },
                    None => {},
                }
            },
            UiControl::DebugEntry => {
                match self.debugger.take() {
                    Some(mut p) => {
                        p.entry_active = true;
                        self.debugger = Some(p);
                    },
                    None => {},
                }
            },
            UiControl::DebugRun => {
                self.debugger_toggle_run();
            },
            UiControl::DebugBreaksClear => {
                self.machine.breaks_clear();
                self.last_debug_stop = None;
                self.fx.osd("Cleared all breakpoints and watchpoints");
            },
            UiControl::DebugAudioMute(row) => {
                match self.mix.toggle_row(row) {
                    Some(line) => self.fx.push(Effect::Osd(line)),
                    None => {},
                }
            },
            UiControl::DebugPoke => {
                return self.debugger_poke();
            },
            _ => {},
        }
        ControlStep::Done
    }

    fn debugger_poke(&mut self) -> (step: ControlStep)
        requires
            old(self).wf(),
        ensures
            final(self).wf(),
            (step is Host) == (entry_edit(old(self)) is None),
            debugger_did(old(self), final(self), UiControl::DebugPoke),
    {
        let edit: Option<(u8, u32)> = match &self.debugger {
            Some(p) => parse_register_edit(p.entry.as_str()),
            None => None,
        };
        match edit {
            None => ControlStep::Host,
            Some((reg, value)) => {
                let kept: u32 = if reg as usize == REG_SR {
                    value % 0x1_0000
                } else {
                    value
                };
                self.machine.regs.set(reg as usize, kept);
                ControlStep::Done
            },
        }
    }

    fn analyzer_control(&mut self, c: UiControl) -> (step: ControlStep)
        requires
            old(self).wf(),
        ensures
            final(self).wf(),
            (step is Host) == analyzer_host(c),
            analyzer_did(old(self), final(self), c),
    {
        if is_analyzer_host(c) {
            return ControlStep::Host;
        }
        match c {
            UiControl::PanelClose => {
                self.close_tool_panel(ToolPanelKind::FrameAnalyzer);
            },
            UiControl::AnalyzerRun => {
                self.frame_analyzer_toggle_run();
            },
            UiControl::AnalyzerPick { x, y, .. } => {
                self.frame_analyzer_select(x, y);
            },
            UiControl::AnalyzerResourceRow(row) => {
                self.frame_analyzer_select_resource(row);
            },
            _ => {},
        }
        ControlStep::Done
    }

    /// Selects the slot of the captured frame that was picked.
    pub fn frame_analyzer_select(&mut self, x: u32, y: u32)
        requires
            old(self).wf(),
        ensures
            final(self).wf(),
            slot_selected(old(self), final(self), x, y),
    {
        match (self.analyzer.take(), &self.machine.trace) {
            (Some(mut p), Some(t)) => {
                p.selected_hpos = pick(x, t.cols);
                p.selected_vpos = pick_row(y, t.nominal_rows, t.rows);
                self.analyzer = Some(p);
            },
            (p, _) => {
                self.analyzer = p;
            },
        }
    }

    /// Selects the resource that a row of the list stands for.
    pub fn frame_analyzer_select_resource(&mut self, row: u8)
        requires
            old(self).wf(),
        ensures
            final(self).wf(),
            resource_picked(old(self), final(self), row),
    {
        match self.analyzer.take() {
            Some(mut p) => {
                let room: usize = self.machine.resources.len();
                if p.resource_scroll < room && (row as usize) < room - p.resource_scroll {
                    p.resource_selected = Some(
                        self.machine.resources[p.resource_scroll + row as usize],
                    );
                }
                self.analyzer = Some(p);
            },
            None => {},
        }
    }

    /// Moves the list of resources by so many rows.
    pub fn frame_analyzer_scroll_resources(&mut self, rows: i64)
        requires
            old(self).wf(),
        ensures
            final(self).wf(),
            resources_scrolled(old(self), final(self), rows),
    {
        match self.analyzer.take() {
            Some(mut p) => {
                p.resource_scroll = scroll_list(
                    p.resource_scroll,
                    rows,
                    self.machine.resources.len(),
                );
                self.analyzer = Some(p);
            },
            None => {},
        }
    }

    /// A control of an inspector was used. Returns whether the host is to
    /// carry it out.
    pub fn activate_tool_control(&mut self, kind: ToolPanelKind, c: UiControl) -> (step: ControlStep)
        requires
            old(self).wf(),
        ensures
            final(self).wf(),
            control_used(old(self), final(self), kind, c, step),
    {
        let dead: bool = self.over_dead_space(kind, c);
        let step = match kind {
            ToolPanelKind::Debugger => self.debugger_control(c),
            ToolPanelKind::FrameAnalyzer => self.analyzer_control(c),
            ToolPanelKind::Console => {
                if c == UiControl::PanelClose {
                    self.close_tool_panel(ToolPanelKind::Console);
                }
                ControlStep::Done
            },
        };
        let ghost mid = *self;
        if !dead {
            self.fx.redraw();
        }
        assert(control_did(old(self), &mid, kind, c));
        step
    }

    fn over_dead_space(&self, kind: ToolPanelKind, c: UiControl) -> (r: bool)
        ensures
            r == dead_space(self, kind, c),
    {
        match (kind, c) {
            (ToolPanelKind::Debugger, UiControl::DebugAudioMute(row)) => row >= 4 && (row - 4)
                as usize >= self.mix.extras.len(),
            _ => false,
        }
    }
}

fn pick(at: u32, size: u32) -> (r: u16)
    ensures
        r == picked(at, size),
{
    assert(0 <= at * size <= 0xFFFF_FFFF * 0xFFFF_FFFF) by (nonlinear_arith)
        requires
            0 <= at <= 0xFFFF_FFFF,
            0 <= size <= 0xFFFF_FFFF,
    ;
    let v: u64 = at as u64 * size as u64 / 1024;
    if v > 65535 {
        65535
    } else {
        v as u16
    }
}

fn pick_row(at: u32, nominal: u32, rows: u32) -> (r: u16)
    ensures
        r == picked_row(at, nominal, rows),
{
    let row: u32 = probe_row(at, nominal, rows);
    if row > 65535 {
        65535
    } else {
        row as u16
    }
}

/// The line of a pick.
pub open spec fn picked_row(at: u32, nominal: u32, rows: u32) -> u16 {
    let v = probed_row(at as int, nominal as int, rows as int);
    if v > 65535 {
        65535
    } else {
        v as u16
    }
}

/// Where a list of so many rows stands once it is moved: its first row shown
/// stays on the list.
pub open spec fn list_scrolled(at: int, by: int, len: int) -> int {
    if len == 0 || at + by < 0 {
        0
    } else if at + by >= len {
        len - 1
    } else {
        at + by
    }
}

fn scroll_list(at: usize, by: i64, len: usize) -> (r: usize)
    ensures
        r == list_scrolled(at as int, by as int, len as int),
{
    let to: i128 = at as i128 + by as i128;
    if len == 0 || to < 0 {
        0
    } else if to >= len as i128 {
        len - 1
    } else {
        to as usize
    }
}

/// The list of resources was moved, where the analyzer is open.
pub open spec fn resources_scrolled(o: &App, n: &App, rows: i64) -> bool {
    &&& *n == (App { analyzer: n.analyzer, ..*o })
    &&& match o.analyzer {
        Some(p) => n.analyzer == Some(
            crate::app::AnalyzerPanel {
                resource_scroll: list_scrolled(
                    p.resource_scroll as int,
                    rows as int,
                    o.machine.resources@.len() as int,
                ) as usize,
                ..p
            },
        ),
        None => n.analyzer is None,
    }
}

/// The resource that a row of the list stands for is the one selected; a row
/// past the list selects nothing new.
pub open spec fn resource_picked(o: &App, n: &App, row: u8) -> bool {
    let list = o.machine.resources@;
    &&& *n == (App { analyzer: n.analyzer, ..*o })
    &&& match o.analyzer {
        Some(p) => n.analyzer == Some(
            crate::app::AnalyzerPanel {
                resource_selected: if p.resource_scroll + row < list.len() {
                    Some(list[p.resource_scroll + row])
                } else {
                    p.resource_selected
                },
                ..p
            },
        ),
        None => n.analyzer is None,
    }
}

/// A slot is selected by its place in the captured frame; the capture and the
/// machine stay as they are.
pub open spec fn slot_selected(o: &App, n: &App, x: u32, y: u32) -> bool {
    &&& *n == (App { analyzer: n.analyzer, ..*o })
    &&& match (o.analyzer, o.machine.trace) {
        (Some(p), Some(t)) => n.analyzer == Some(
            crate::app::AnalyzerPanel {
                selected_hpos: picked(x, t.cols),
                selected_vpos: picked_row(y, t.nominal_rows, t.rows),
                ..p
            },
        ),
        _ => n.analyzer == o.analyzer,
    }
}

/// What a control of the analyzer does that needs nothing of the host.
pub open spec fn analyzer_did(o: &App, n: &App, c: UiControl) -> bool {
    match c {
        UiControl::PanelClose => tool_closed(o, n, ToolPanelKind::FrameAnalyzer),
        UiControl::AnalyzerRun => {
            &&& *n == (App { fx: n.fx, ..set_run(*o, !o.session.paused) })
            &&& n.fx@ == o.fx@.push(Effect::Redraw)
        },
        UiControl::AnalyzerPick { x, y, scanline } => if scanline {
            *n == *o
        } else {
            slot_selected(o, n, x, y)
        },
        UiControl::AnalyzerResourceRow(row) => resource_picked(o, n, row),
        _ => *n == *o,
    }
}

pub open spec fn control_did(o: &App, n: &App, kind: ToolPanelKind, c: UiControl) -> bool {
    match kind {
        ToolPanelKind::Debugger => debugger_did(o, n, c),
        ToolPanelKind::FrameAnalyzer => analyzer_did(o, n, c),
        ToolPanelKind::Console => if c is PanelClose {
            tool_closed(o, n, ToolPanelKind::Console)
        } else {
            *n == *o
        },
    }
}

/// A mute that no fitted source stands behind.
pub open spec fn dead_space(o: &App, kind: ToolPanelKind, c: UiControl) -> bool {
    match (kind, c) {
        (ToolPanelKind::Debugger, UiControl::DebugAudioMute(row)) => row >= 4 && o.mix.extra_of(
            row,
        ) is None,
        _ => false,
    }
}

/// A control did what it does, and the window is redrawn; a click on dead
/// space redraws nothing.
pub open spec fn control_used(
    o: &App,
    n: &App,
    kind: ToolPanelKind,
    c: UiControl,
    step: ControlStep,
) -> bool {
    &&& (step is Host) == (match kind {
        ToolPanelKind::Debugger => debugger_asks(o, c),
        ToolPanelKind::FrameAnalyzer => analyzer_host(c),
        ToolPanelKind::Console => false,
    })
    &&& exists|mid: App| #[trigger]
        control_did(o, &mid, kind, c) && *n == (App { fx: n.fx, ..mid }) && n.fx@ == (
        if dead_space(o, kind, c) {
            mid.fx@
        } else {
            mid.fx@.push(Effect::Redraw)
        })
}

} // verus!
