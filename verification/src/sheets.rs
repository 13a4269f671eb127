//! What the pages of the inspectors show: buttons with what they do and
//! whether they can be used, ticks, and lines of text. The host draws them and
//! says what was pressed.

use vstd::prelude::*;

use crate::actions::Action;
use crate::app::DebugTab;
use crate::app::DebuggerPanel;
use crate::command::hex32_of;
use crate::controls::UiControl;
use crate::controls::register_edit;
use crate::desk::ToolPanelKind;
use crate::inspector_keys::entry_control_live;
use crate::text::trimmed;
use crate::tools::ToolTabState;

verus! {

/// One thing on a page. `T` is the type of its texts.
#[derive(PartialEq, Eq, Debug)]
pub enum Piece<T> {
    Button { label: T, action: Action, enabled: bool },
    /// A box that is ticked or not.
    Tick { label: T, on: bool, action: Action, enabled: bool },
    /// A row of a list, which may be the selected one.
    Row { label: T, selected: bool, action: Action },
    Text(T),
    /// A text in the accent colour.
    Note(T),
    /// A text that leads to another page.
    Link { label: T, action: Action },
    /// The box with the address of the page, which can be dragged.
    Address,
}

#[derive(PartialEq, Eq, Debug)]
pub struct Sheet {
    pub pieces: Vec<Piece<String>>,
}

pub open spec fn piece_text(p: Piece<String>) -> Piece<Seq<char>> {
    match p {
        Piece::Button { label, action, enabled } => Piece::Button {
            label: label@,
            action,
            enabled,
        },
        Piece::Tick { label, on, action, enabled } => Piece::Tick {
            label: label@,
            on,
            action,
            enabled,
        },
        Piece::Row { label, selected, action } => Piece::Row { label: label@, selected, action },
        Piece::Text(t) => Piece::Text(t@),
        Piece::Note(t) => Piece::Note(t@),
        Piece::Link { label, action } => Piece::Link { label: label@, action },
        Piece::Address => Piece::Address,
    }
}

impl View for Sheet {
    type V = Seq<Piece<Seq<char>>>;

    open spec fn view(&self) -> Seq<Piece<Seq<char>>> {
        self.pieces@.map_values(|p: Piece<String>| piece_text(p))
    }
}

impl Sheet {
    pub fn new() -> (r: Sheet)
        ensures
            r@ == Seq::<Piece<Seq<char>>>::empty(),
    {
        let r = Sheet { pieces: Vec::new() };
        assert(r@ =~= Seq::empty());
        r
    }

    pub fn push(&mut self, p: Piece<String>)
        ensures
            final(self)@ == old(self)@.push(piece_text(p)),
    {
        self.pieces.push(p);
        assert(self@ =~= old(self)@.push(piece_text(p)));
    }

    pub fn button(&mut self, label: &str, action: Action, enabled: bool)
        ensures
            final(self)@ == old(self)@.push(Piece::Button { label: label@, action, enabled }),
    {
        self.push(Piece::Button { label: label.to_owned(), action, enabled });
    }

    /// A button for a control of the debugger.
    pub fn press(&mut self, label: &str, control: UiControl, enabled: bool)
        ensures
            final(self)@ == old(self)@.push(pressed(label@, control, enabled)),
    {
        self.button(label, Action::Control(control), enabled);
    }

    /// A button for a control of the analyzer.
    pub fn command(&mut self, label: &str, control: UiControl, enabled: bool)
        ensures
            final(self)@ == old(self)@.push(commanded(label@, control, enabled)),
    {
        self.button(label, Action::Analyzer(control), enabled);
    }

    pub fn text(&mut self, text: &str)
        ensures
            final(self)@ == old(self)@.push(Piece::Text(text@)),
    {
        self.push(Piece::Text(text.to_owned()));
    }

    pub fn line(&mut self, text: String)
        ensures
            final(self)@ == old(self)@.push(Piece::Text(text@)),
    {
        self.push(Piece::Text(text));
    }

    pub fn note(&mut self, text: &str)
        ensures
            final(self)@ == old(self)@.push(Piece::Note(text@)),
    {
        self.push(Piece::Note(text.to_owned()));
    }
}

pub open spec fn pressed(label: Seq<char>, control: UiControl, enabled: bool) -> Piece<Seq<char>> {
    Piece::Button { label, action: Action::Control(control), enabled }
}

pub open spec fn commanded(label: Seq<char>, control: UiControl, enabled: bool) -> Piece<Seq<char>> {
    Piece::Button { label, action: Action::Analyzer(control), enabled }
}

/// The buttons that run the machine. Going backwards needs a history.
pub open spec fn transport_pieces(running: bool, reverse: bool) -> Seq<Piece<Seq<char>>> {
    seq![
        pressed(
            if running {
                "Pause (R)"@
            } else {
                "Run (R)"@
            },
            UiControl::DebugRun,
            true,
        ),
        pressed("Step (S)"@, UiControl::DebugStep, true),
        pressed("Over (O)"@, UiControl::DebugStepOver, true),
        pressed("Out (U)"@, UiControl::DebugStepOut, true),
        pressed("Frame (F)"@, UiControl::DebugStepFrame, true),
        pressed("Line (L)"@, UiControl::DebugRunLine, true),
        pressed("< Frame"@, UiControl::DebugReverseFrame, reverse),
        pressed("< Step"@, UiControl::DebugReverseStep, reverse),
        pressed("< Run"@, UiControl::DebugReverseRun, reverse),
    ]
}

pub fn transport(running: bool, reverse: bool) -> (s: Sheet)
    ensures
        s@ == transport_pieces(running, reverse),
{
    let mut s = Sheet::new();
    s.press(
        if running {
            "Pause (R)"
        } else {
            "Run (R)"
        },
        UiControl::DebugRun,
        true,
    );
    s.press("Step (S)", UiControl::DebugStep, true);
    s.press("Over (O)", UiControl::DebugStepOver, true);
    s.press("Out (U)", UiControl::DebugStepOut, true);
    s.press("Frame (F)", UiControl::DebugStepFrame, true);
    s.press("Line (L)", UiControl::DebugRunLine, true);
    s.press("< Frame", UiControl::DebugReverseFrame, reverse);
    s.press("< Step", UiControl::DebugReverseStep, reverse);
    s.press("< Run", UiControl::DebugReverseRun, reverse);
    assert(s@ =~= transport_pieces(running, reverse));
    s
}

/// What the entry can be read as, besides an address and a register edit.
#[derive(Clone, Copy, PartialEq, Eq, Structural, Debug)]
pub struct EntryFacts {
    /// An address and a value to write there.
    pub poke: bool,
    /// Bytes to look for.
    pub find: bool,
    /// A range of memory.
    pub region: bool,
    /// A place of the beam.
    pub beam: bool,
    /// An exception.
    pub catch: bool,
    /// The terms of a capture of waveforms.
    pub wave: bool,
}

/// Whether the entry can be written as it stands: a register on the CPU's
/// page, a word on the memory's.
pub open spec fn can_poke(p: &DebuggerPanel, f: EntryFacts) -> bool {
    match p.tab {
        DebugTab::Cpu => register_edit(p.entry@) is Some,
        DebugTab::Memory => f.poke,
        _ => false,
    }
}

pub open spec fn entry_pieces(p: &DebuggerPanel, f: EntryFacts) -> Seq<Piece<Seq<char>>> {
    seq![
        Piece::Text("Address / command"@),
        pressed("Run to"@, UiControl::DebugRunTo, hex32_of(trimmed(p.entry@)) is Some),
        pressed(
            if p.tab is Cpu {
                "Set Reg"@
            } else {
                "Poke"@
            },
            UiControl::DebugPoke,
            can_poke(p, f),
        ),
    ]
}

/// What stands beside the entry of addresses and commands.
pub fn entry_row(p: &DebuggerPanel, f: EntryFacts) -> (s: Sheet)
    ensures
        s@ == entry_pieces(p, f),
{
    let mut s = Sheet::new();
    s.text("Address / command");
    s.press("Run to", UiControl::DebugRunTo, entry_control_live(p, UiControl::DebugRunTo));
    let ready: bool = match p.tab {
        DebugTab::Cpu => entry_control_live(p, UiControl::DebugPoke),
        DebugTab::Memory => f.poke,
        _ => false,
    };
    s.press(
        if p.tab == DebugTab::Cpu {
            "Set Reg"
        } else {
            "Poke"
        },
        UiControl::DebugPoke,
        ready,
    );
    assert(s@ =~= entry_pieces(p, f));
    s
}

/// What a page of the debugger shows under its controls.
#[derive(Clone, Copy, PartialEq, Eq, Structural, Debug)]
pub enum Body {
    Cpu,
    Video,
    Audio,
    /// The bytes of memory as cells.
    Dump,
    /// Lines of text, and a picture if there is one.
    Lines,
    Nothing,
}

/// What the host has to show of the machine.
#[derive(Clone, Copy, PartialEq, Eq, Structural, Debug)]
pub struct ViewFacts {
    pub cpu: bool,
    pub video: bool,
    pub audio: bool,
    pub page: bool,
}

pub open spec fn body_of(tab: DebugTab, v: ViewFacts) -> Body {
    match tab {
        DebugTab::Cpu => if v.cpu {
            Body::Cpu
        } else {
            Body::Lines
        },
        DebugTab::Video => if v.video {
            Body::Video
        } else {
            Body::Nothing
        },
        DebugTab::Audio => if v.audio {
            Body::Audio
        } else {
            Body::Nothing
        },
        DebugTab::Memory => if v.page {
            Body::Dump
        } else {
            Body::Lines
        },
        _ => Body::Lines,
    }
}

pub fn show(tab: DebugTab, v: ViewFacts) -> (r: Body)
    ensures
        r == body_of(tab, v),
{
    match tab {
        DebugTab::Cpu => if v.cpu {
            Body::Cpu
        } else {
            Body::Lines
        },
        DebugTab::Video => if v.video {
            Body::Video
        } else {
            Body::Nothing
        },
        DebugTab::Audio => if v.audio {
            Body::Audio
        } else {
            Body::Nothing
        },
        DebugTab::Memory => if v.page {
            Body::Dump
        } else {
            Body::Lines
        },
        _ => Body::Lines,
    }
}

/// Leaving the entry with Enter submits it.
pub fn entry_left(lost_focus: bool, enter: bool) -> (r: Option<Action>)
    ensures
        r == (if lost_focus && enter {
            Some(Action::SubmitEntry)
        } else {
            None
        }),
{
    if lost_focus && enter {
        Some(Action::SubmitEntry)
    } else {
        None
    }
}

/// A page of the debugger starts a row of bytes, unless it shows bits of any
/// width.
pub open spec fn row_start(addr: u32) -> u32 {
    addr & 0xFFFF_FFF0
}

/// Puts a dragged address on the start of a row: always in the CPU's memory
/// pane, and on the memory page while it shows bytes.
pub fn settle_address(p: &mut DebuggerPanel, pane: bool)
    ensures
        *final(p) == (DebuggerPanel {
            mem_addr: if pane || !old(p).mem_view_bits {
                row_start(old(p).mem_addr)
            } else {
                old(p).mem_addr
            },
            ..*old(p)
        }),
{
    if pane || !p.mem_view_bits {
        p.mem_addr = p.mem_addr & 0xFFFF_FFF0;
    }
}

pub open spec fn break_pieces(p: &DebuggerPanel, f: EntryFacts) -> Seq<Piece<Seq<char>>> {
    let address = hex32_of(trimmed(p.entry@)) is Some;
    seq![
        pressed("Break +/-"@, UiControl::DebugBreakToggle, address),
        pressed("Watch +/-"@, UiControl::DebugWatchToggle, address),
        pressed("Reg +/-"@, UiControl::DebugRegToggle, address),
        pressed("Beam +/-"@, UiControl::DebugBeamToggle, f.beam),
        pressed("Catch +/-"@, UiControl::DebugCatchToggle, f.catch),
        pressed("Clear all"@, UiControl::DebugBreaksClear, true),
    ]
}

pub open spec fn copper_pieces(p: &DebuggerPanel) -> Seq<Piece<Seq<char>>> {
    seq![
        pressed(
            "CBreak +/-"@,
            UiControl::DebugCopperBreakToggle,
            hex32_of(trimmed(p.entry@)) is Some,
        ),
        pressed("CStep (C)"@, UiControl::DebugCopperStep, true),
    ] + (if p.copper_addr is Some {
        seq![Piece::Button {
            label: "Follow Copper"@,
            action: Action::FollowCopper,
            enabled: true,
        }]
    } else {
        Seq::empty()
    })
}

pub open spec fn memory_pieces(p: &DebuggerPanel, f: EntryFacts) -> Seq<Piece<Seq<char>>> {
    seq![
        Piece::Text("Goto"@),
        Piece::Address,
        pressed("Find"@, UiControl::DebugMemFind, f.find),
        pressed("Save..."@, UiControl::DebugMemSave, f.region),
        pressed("Writer?"@, UiControl::DebugMemWriter, hex32_of(trimmed(p.entry@)) is Some),
        pressed(
            if p.mem_view_bits {
                "Hex"@
            } else {
                "Bits"@
            },
            UiControl::DebugMemBits,
            true,
        ),
        pressed("Previous page"@, UiControl::DebugMemPrev, true),
        pressed("Next page"@, UiControl::DebugMemNext, true),
    ] + (match p.mem_status {
        Some(t) => seq![Piece::Note(t@)],
        None => Seq::empty(),
    })
}

pub open spec fn scroll_back() -> Action {
    Action::IoMapScroll((-1) as i32)
}

pub open spec fn iomap_pieces() -> Seq<Piece<Seq<char>>> {
    seq![
        Piece::Button { label: "Previous register"@, action: scroll_back(), enabled: true },
        Piece::Button { label: "Next register"@, action: Action::IoMapScroll(1), enabled: true },
    ]
}

/// The controls of a page; one without any shows the status instead.
pub open spec fn tab_pieces(p: &DebuggerPanel, f: EntryFacts, status: Seq<char>) -> Seq<
    Piece<Seq<char>>,
> {
    match p.tab {
        DebugTab::Break => break_pieces(p, f),
        DebugTab::Copper => copper_pieces(p),
        DebugTab::Memory => memory_pieces(p, f),
        DebugTab::IoMap => iomap_pieces(),
        DebugTab::Waveform => seq![
            pressed("Arm"@, UiControl::DebugWaveArm, f.wave),
            pressed("Stop"@, UiControl::DebugWaveStop, true),
        ],
        _ => seq![Piece::Text(status)],
    }
}

fn break_controls(p: &DebuggerPanel, f: EntryFacts) -> (s: Sheet)
    ensures
        s@ == break_pieces(p, f),
{
    let mut s = Sheet::new();
    s.press(
        "Break +/-",
        UiControl::DebugBreakToggle,
        entry_control_live(p, UiControl::DebugBreakToggle),
    );
    s.press(
        "Watch +/-",
        UiControl::DebugWatchToggle,
        entry_control_live(p, UiControl::DebugWatchToggle),
    );
    s.press(
        "Reg +/-",
        UiControl::DebugRegToggle,
        entry_control_live(p, UiControl::DebugRegToggle),
    );
    s.press("Beam +/-", UiControl::DebugBeamToggle, f.beam);
    s.press("Catch +/-", UiControl::DebugCatchToggle, f.catch);
    s.press("Clear all", UiControl::DebugBreaksClear, true);
    assert(s@ =~= break_pieces(p, f));
    s
}

fn copper_controls(p: &DebuggerPanel) -> (s: Sheet)
    ensures
        s@ == copper_pieces(p),
{
    let mut s = Sheet::new();
    s.press(
        "CBreak +/-",
        UiControl::DebugCopperBreakToggle,
        entry_control_live(p, UiControl::DebugCopperBreakToggle),
    );
    s.press("CStep (C)", UiControl::DebugCopperStep, true);
    if p.copper_addr.is_some() {
        s.button("Follow Copper", Action::FollowCopper, true);
    }
    assert(s@ =~= copper_pieces(p));
    s
}

fn memory_controls(p: &DebuggerPanel, f: EntryFacts) -> (s: Sheet)
    ensures
        s@ == memory_pieces(p, f),
{
    let mut s = Sheet::new();
    s.text("Goto");
    s.push(Piece::Address);
    s.press("Find", UiControl::DebugMemFind, f.find);
    s.press("Save...", UiControl::DebugMemSave, f.region);
    s.press(
        "Writer?",
        UiControl::DebugMemWriter,
        entry_control_live(p, UiControl::DebugMemWriter),
    );
    s.press(
        if p.mem_view_bits {
            "Hex"
        } else {
            "Bits"
        },
        UiControl::DebugMemBits,
        true,
    );
    s.press("Previous page", UiControl::DebugMemPrev, true);
    s.press("Next page", UiControl::DebugMemNext, true);
    match &p.mem_status {
        Some(t) => {
            s.note(t.as_str());
        },
        None => {},
    }
    assert(s@ =~= memory_pieces(p, f));
    s
}

fn iomap_controls() -> (s: Sheet)
    ensures
        s@ == iomap_pieces(),
{
    let mut s = Sheet::new();
    s.button("Previous register", Action::IoMapScroll(-1), true);
    s.button("Next register", Action::IoMapScroll(1), true);
    assert(s@ =~= iomap_pieces());
    s
}

pub fn tab_controls(p: &DebuggerPanel, f: EntryFacts, status: &str) -> (s: Sheet)
    ensures
        s@ == tab_pieces(p, f, status@),
{
    match p.tab {
        DebugTab::Break => break_controls(p, f),
        DebugTab::Copper => copper_controls(p),
        DebugTab::Memory => memory_controls(p, f),
        DebugTab::IoMap => iomap_controls(),
        DebugTab::Waveform => {
            let mut s = Sheet::new();
            s.press("Arm", UiControl::DebugWaveArm, f.wave);
            s.press("Stop", UiControl::DebugWaveStop, true);
            assert(s@ =~= tab_pieces(p, f, status@));
            s
        },
        _ => {
            let mut s = Sheet::new();
            s.text(status);
            assert(s@ =~= tab_pieces(p, f, status@));
            s
        },
    }
}

/// What the window is called: the workspace is Copperline's own window.
pub fn title(workspace: bool) -> (r: &'static str)
    ensures
        r@ == (if workspace {
            "Copperline"@
        } else {
            "Copperline Debugger"@
        }),
{
    if workspace {
        "Copperline"
    } else {
        "Copperline Debugger"
    }
}

/// How an inspector's tab is drawn.
#[derive(Clone, Copy, PartialEq, Eq, Structural, Debug)]
pub enum TabLook {
    /// It is the one on the screen.
    Shown,
    /// It is open behind the one on the screen.
    Open,
    Closed,
}

/// The inspector on the screen is open, whatever was said of it.
pub open spec fn look_of(state: ToolTabState, selected: bool) -> TabLook {
    if selected {
        TabLook::Shown
    } else if state.open {
        TabLook::Open
    } else {
        TabLook::Closed
    }
}

pub fn tool_tab(state: ToolTabState, selected: bool) -> (r: TabLook)
    ensures
        r == look_of(state, selected),
{
    if selected {
        TabLook::Shown
    } else if state.open {
        TabLook::Open
    } else {
        TabLook::Closed
    }
}

/// A click on an inspector's tab. The close box, which only an open inspector
/// has, closes that inspector and does not select it too.
pub fn tool_tab_clicked(
    kind: ToolPanelKind,
    state: ToolTabState,
    selected: bool,
    close: bool,
    body: bool,
) -> (r: Option<Action>)
    ensures
        r == (if close && look_of(state, selected) !is Closed {
            Some(Action::CloseTool(kind))
        } else if body {
            Some(Action::SelectTool(kind))
        } else {
            None
        }),
{
    if close && tool_tab(state, selected) != TabLook::Closed {
        Some(Action::CloseTool(kind))
    } else if body {
        Some(Action::SelectTool(kind))
    } else {
        None
    }
}

/// What the dot of an open inspector says.
pub fn capture_dot(capturing: bool) -> (r: &'static str)
    ensures
        r@ == (if capturing {
            "Capturing this machine"@
        } else {
            "Open, not capturing"@
        }),
{
    if capturing {
        "Capturing this machine"
    } else {
        "Open, not capturing"
    }
}

/// The switch between playing and debugging: only its other half does
/// anything.
pub fn mode_switch(play_clicked: bool) -> (r: Option<Action>)
    ensures
        r == (if play_clicked {
            Some(Action::CloseWorkspace)
        } else {
            None
        }),
{
    if play_clicked {
        Some(Action::CloseWorkspace)
    } else {
        None
    }
}

/// Who has the input, as the display's pane says.
pub fn input_label(guest_input: bool) -> (r: &'static str)
    ensures
        r@ == (if guest_input {
            "Input: Amiga"@
        } else {
            "Input: debugger"@
        }),
{
    if guest_input {
        "Input: Amiga"
    } else {
        "Input: debugger"
    }
}

/// A click on the picture hands the input to the machine.
pub fn display_pane(clicked: bool) -> (r: Option<Action>)
    ensures
        r == (if clicked {
            Some(Action::CaptureDisplay)
        } else {
            None
        }),
{
    if clicked {
        Some(Action::CaptureDisplay)
    } else {
        None
    }
}

} // verus!
