//! The debug workspace's inspectors: which are open, which is selected, and
//! the run state that they share. The inspectors pause the machine when the
//! first of them opens; closing the last puts back the run state that they
//! found, or the last explicit Run or Pause.

use vstd::prelude::*;

verus! {

#[derive(Clone, Copy, PartialEq, Eq, Structural, Debug)]
pub enum ToolPanelKind {
    Debugger,
    FrameAnalyzer,
    Console,
}

impl ToolPanelKind {
    pub open spec fn name(self) -> Seq<char> {
        match self {
            ToolPanelKind::Debugger => "Copperline Debugger"@,
            ToolPanelKind::FrameAnalyzer => "Copperline Frame Analyzer"@,
            ToolPanelKind::Console => "Copperline Console"@,
        }
    }

    /// The three inspectors in tab order.
    pub fn all() -> (r: [ToolPanelKind; 3])
        ensures
            r@ == seq![
                ToolPanelKind::Debugger,
                ToolPanelKind::FrameAnalyzer,
                ToolPanelKind::Console,
            ],
    {
        [ToolPanelKind::Debugger, ToolPanelKind::FrameAnalyzer, ToolPanelKind::Console]
    }

    pub fn tool_window_title(self) -> (r: &'static str)
        ensures
            r@ == self.name(),
    {
        match self {
            ToolPanelKind::Debugger => "Copperline Debugger",
            ToolPanelKind::FrameAnalyzer => "Copperline Frame Analyzer",
            ToolPanelKind::Console => "Copperline Console",
        }
    }
}

#[derive(Clone, Copy, PartialEq, Eq, Structural, Debug)]
pub struct Desk {
    pub debugger_open: bool,
    pub analyzer_open: bool,
    pub console_open: bool,
    /// The run state that closing each inspector would restore.
    pub paused_before_debugger: bool,
    pub paused_before_analyzer: bool,
    pub paused_before_console: bool,
    pub selected: ToolPanelKind,
    /// The inspector that last had the keyboard.
    pub front: Option<ToolPanelKind>,
    /// The window shows the debug layout rather than the plain display.
    pub layout_active: bool,
    /// Input goes to the emulated machine rather than to the inspectors.
    pub guest_input: bool,
}

impl Desk {
    pub open spec fn shows(self, kind: ToolPanelKind) -> bool {
        match kind {
            ToolPanelKind::Debugger => self.debugger_open,
            ToolPanelKind::FrameAnalyzer => self.analyzer_open,
            ToolPanelKind::Console => self.console_open,
        }
    }

    pub open spec fn restores(self, kind: ToolPanelKind) -> bool {
        match kind {
            ToolPanelKind::Debugger => self.paused_before_debugger,
            ToolPanelKind::FrameAnalyzer => self.paused_before_analyzer,
            ToolPanelKind::Console => self.paused_before_console,
        }
    }

    pub open spec fn any_open(self) -> bool {
        self.debugger_open || self.analyzer_open || self.console_open
    }

    pub open spec fn with_open(self, kind: ToolPanelKind, open: bool) -> Desk {
        match kind {
            ToolPanelKind::Debugger => Desk { debugger_open: open, ..self },
            ToolPanelKind::FrameAnalyzer => Desk { analyzer_open: open, ..self },
            ToolPanelKind::Console => Desk { console_open: open, ..self },
        }
    }

    pub open spec fn with_restore(self, kind: ToolPanelKind, paused: bool) -> Desk {
        match kind {
            ToolPanelKind::Debugger => Desk { paused_before_debugger: paused, ..self },
            ToolPanelKind::FrameAnalyzer => Desk { paused_before_analyzer: paused, ..self },
            ToolPanelKind::Console => Desk { paused_before_console: paused, ..self },
        }
    }

    pub open spec fn with_all_restores(self, paused: bool) -> Desk {
        Desk {
            paused_before_debugger: paused,
            paused_before_analyzer: paused,
            paused_before_console: paused,
            ..self
        }
    }

    /// The first open inspector other than one.
    pub open spec fn other_open(self, kind: ToolPanelKind) -> Option<ToolPanelKind> {
        if self.debugger_open && kind !is Debugger {
            Some(ToolPanelKind::Debugger)
        } else if self.analyzer_open && kind !is FrameAnalyzer {
            Some(ToolPanelKind::FrameAnalyzer)
        } else if self.console_open && kind !is Console {
            Some(ToolPanelKind::Console)
        } else {
            None
        }
    }

    /// The last open inspector in tab order.
    pub open spec fn last_open(self) -> Option<ToolPanelKind> {
        if self.console_open {
            Some(ToolPanelKind::Console)
        } else if self.analyzer_open {
            Some(ToolPanelKind::FrameAnalyzer)
        } else if self.debugger_open {
            Some(ToolPanelKind::Debugger)
        } else {
            None
        }
    }

    /// The inspector that a "close this" means: none in the plain layout.
    pub open spec fn topmost(self) -> Option<ToolPanelKind> {
        if !self.layout_active {
            None
        } else if self.front matches Some(kind) && self.shows(kind) {
            self.front
        } else {
            self.last_open()
        }
    }

    /// The desk and the run state once an inspector is open and selected. A
    /// second inspector shares the first one's run state.
    #[verifier::opaque]
    pub open spec fn opened(self, kind: ToolPanelKind, paused: bool) -> (Desk, bool) {
        let fresh = if self.shows(kind) {
            self
        } else {
            self.with_open(kind, true).with_restore(kind, paused)
        };
        let entered = Desk {
            selected: kind,
            front: Some(kind),
            layout_active: true,
            guest_input: false,
            ..fresh
        };
        match self.other_open(kind) {
            Some(other) => (entered.with_all_restores(self.restores(other)), paused),
            None => (entered, paused || !self.shows(kind)),
        }
    }

    /// The desk and the run state once an inspector is closed. While another
    /// is open the run state stays; the last one leaves the debug layout and
    /// restores the run state.
    #[verifier::opaque]
    pub open spec fn closed(self, kind: ToolPanelKind, paused: bool) -> (Desk, bool) {
        let rest = self.with_open(kind, false);
        if !self.shows(kind) {
            (self, paused)
        } else if rest.any_open() {
            (
                Desk {
                    selected: if self.selected == kind {
                        rest.last_open().unwrap()
                    } else {
                        self.selected
                    },
                    ..rest
                },
                paused,
            )
        } else {
            (Desk { layout_active: false, guest_input: false, ..rest }, self.restores(kind))
        }
    }

    /// The desk after an explicit Run or Pause.
    pub open spec fn remembering(self, paused: bool) -> Desk {
        self.with_all_restores(paused)
    }

    /// All open inspectors agree on the run state to restore, and the
    /// selected one is open while any is.
    pub open spec fn wf(self) -> bool {
        &&& self.debugger_open && self.analyzer_open ==> self.paused_before_debugger
            == self.paused_before_analyzer
        &&& self.debugger_open && self.console_open ==> self.paused_before_debugger
            == self.paused_before_console
        &&& self.analyzer_open && self.console_open ==> self.paused_before_analyzer
            == self.paused_before_console
        &&& self.any_open() ==> self.shows(self.selected)
        &&& self.layout_active ==> self.any_open()
        &&& self.guest_input ==> self.layout_active
    }

    /// The run state that closing every inspector leads to.
    pub open spec fn destiny(self, paused: bool) -> bool {
        match self.last_open() {
            Some(kind) => self.restores(kind),
            None => paused,
        }
    }

    pub fn new() -> (r: Desk)
        ensures
            r.wf(),
            !r.any_open(),
            !r.layout_active,
            !r.guest_input,
            r.front is None,
    {
        Desk {
            debugger_open: false,
            analyzer_open: false,
            console_open: false,
            paused_before_debugger: false,
            paused_before_analyzer: false,
            paused_before_console: false,
            selected: ToolPanelKind::Debugger,
            front: None,
            layout_active: false,
            guest_input: false,
        }
    }

    pub fn tool_panel_is_open(&self, kind: ToolPanelKind) -> (r: bool)
        ensures
            r == self.shows(kind),
    {
        match kind {
            ToolPanelKind::Debugger => self.debugger_open,
            ToolPanelKind::FrameAnalyzer => self.analyzer_open,
            ToolPanelKind::Console => self.console_open,
        }
    }

    pub fn egui_workspace_open(&self) -> (r: bool)
        ensures
            r == self.any_open(),
    {
        self.debugger_open || self.analyzer_open || self.console_open
    }

    fn restore_of(&self, kind: ToolPanelKind) -> (r: bool)
        ensures
            r == self.restores(kind),
    {
        match kind {
            ToolPanelKind::Debugger => self.paused_before_debugger,
            ToolPanelKind::FrameAnalyzer => self.paused_before_analyzer,
            ToolPanelKind::Console => self.paused_before_console,
        }
    }

    fn set_open(&mut self, kind: ToolPanelKind, open: bool)
        ensures
            *final(self) == old(self).with_open(kind, open),
    {
        match kind {
            ToolPanelKind::Debugger => {
                self.debugger_open = open;
            },
            ToolPanelKind::FrameAnalyzer => {
                self.analyzer_open = open;
            },
            ToolPanelKind::Console => {
                self.console_open = open;
            },
        }
    }

    fn set_restore(&mut self, kind: ToolPanelKind, paused: bool)
        ensures
            *final(self) == old(self).with_restore(kind, paused),
    {
        match kind {
            ToolPanelKind::Debugger => {
                self.paused_before_debugger = paused;
            },
            ToolPanelKind::FrameAnalyzer => {
                self.paused_before_analyzer = paused;
            },
            ToolPanelKind::Console => {
                self.paused_before_console = paused;
            },
        }
    }

    /// The run state that another open inspector shares, and what it restores.
    pub fn egui_other_tool_pause(&self, kind: ToolPanelKind, paused: bool) -> (r: Option<
        (bool, bool),
    >)
        ensures
            r == (match self.other_open(kind) {
                Some(other) => Some((paused, self.restores(other))),
                None => None,
            }),
    {
        if self.debugger_open && kind != ToolPanelKind::Debugger {
            Some((paused, self.paused_before_debugger))
        } else if self.analyzer_open && kind != ToolPanelKind::FrameAnalyzer {
            Some((paused, self.paused_before_analyzer))
        } else if self.console_open && kind != ToolPanelKind::Console {
            Some((paused, self.paused_before_console))
        } else {
            None
        }
    }

    pub fn egui_remember_run_state(&mut self, paused: bool)
        ensures
            *final(self) == old(self).remembering(paused),
    {
        self.paused_before_debugger = paused;
        self.paused_before_analyzer = paused;
        self.paused_before_console = paused;
    }

    /// Selects a newly opened inspector in the debug layout, sharing the run
    /// state that another one holds. Returns the run state.
    pub fn egui_did_open_tool(
        &mut self,
        kind: ToolPanelKind,
        shared: Option<(bool, bool)>,
        paused: bool,
    ) -> (now: bool)
        ensures
            ({
                let entered = Desk {
                    selected: kind,
                    front: Some(kind),
                    layout_active: true,
                    guest_input: false,
                    ..*old(self)
                };
                match shared {
                    Some((p, restore)) => now == p && *final(self) == entered.with_all_restores(
                        restore,
                    ),
                    None => now == paused && *final(self) == entered,
                }
            }),
    {
        let mut now: bool = paused;
        match shared {
            Some((p, restore)) => {
                now = p;
                self.egui_remember_run_state(restore);
            },
            None => {},
        }
        self.selected = kind;
        self.front = Some(kind);
        self.layout_active = true;
        self.guest_input = false;
        now
    }

    /// Opens or selects an inspector. Returns the run state.
    pub fn open(&mut self, kind: ToolPanelKind, paused: bool) -> (now: bool)
        requires
            old(self).wf(),
        ensures
            (*final(self), now) == old(self).opened(kind, paused),
            final(self).wf(),
    {
        proof {
            reveal(Desk::opened);
        }
        let shared: Option<(bool, bool)> = self.egui_other_tool_pause(kind, paused);
        let mut pause: bool = paused;
        if !self.tool_panel_is_open(kind) {
            self.set_open(kind, true);
            self.set_restore(kind, paused);
            pause = true;
        }
        self.egui_did_open_tool(kind, shared, pause)
    }

    fn last_open_tool(&self) -> (r: Option<ToolPanelKind>)
        ensures
            r == self.last_open(),
    {
        if self.console_open {
            Some(ToolPanelKind::Console)
        } else if self.analyzer_open {
            Some(ToolPanelKind::FrameAnalyzer)
        } else if self.debugger_open {
            Some(ToolPanelKind::Debugger)
        } else {
            None
        }
    }

    /// Closes an inspector. Returns the run state.
    pub fn close(&mut self, kind: ToolPanelKind, paused: bool) -> (now: bool)
        requires
            old(self).wf(),
        ensures
            (*final(self), now) == old(self).closed(kind, paused),
            final(self).wf(),
    {
        proof {
            reveal(Desk::closed);
        }
        if !self.tool_panel_is_open(kind) {
            return paused;
        }
        self.set_open(kind, false);
        match self.last_open_tool() {
            Some(other) => {
                if self.selected == kind {
                    self.selected = other;
                }
                paused
            },
            None => {
                self.layout_active = false;
                self.guest_input = false;
                self.restore_of(kind)
            },
        }
    }

    /// Goes back to the plain layout; the inspectors stay open behind it.
    pub fn leave_debug_workspace(&mut self) -> (left: bool)
        requires
            old(self).wf(),
        ensures
            left == old(self).layout_active,
            *final(self) == (Desk { layout_active: false, guest_input: false, ..*old(self) }),
            final(self).wf(),
    {
        let left: bool = self.layout_active;
        self.layout_active = false;
        self.guest_input = false;
        left
    }

    pub fn topmost_tool_panel(&self) -> (r: Option<ToolPanelKind>)
        ensures
            r == self.topmost(),
    {
        if !self.layout_active {
            return None;
        }
        match self.front {
            Some(kind) => if self.tool_panel_is_open(kind) {
                return Some(kind);
            },
            None => {},
        }
        self.last_open_tool()
    }
}

/// Opening, switching and closing inspectors, in any order, never changes
/// where closing them all leads: the run state they found comes back.
pub proof fn lemma_inspectors_restore_the_run_state(d: Desk, kind: ToolPanelKind, paused: bool)
    requires
        d.wf(),
    ensures
        ({
            let (e, p) = d.opened(kind, paused);
            e.wf() && e.destiny(p) == d.destiny(paused)
        }),
        ({
            let (e, p) = d.closed(kind, paused);
            e.wf() && e.destiny(p) == d.destiny(paused)
        }),
{
    reveal(Desk::opened);
    reveal(Desk::closed);
    let (e, p) = d.opened(kind, paused);
    let (f, q) = d.closed(kind, paused);
    assert(d.last_open() matches Some(k) ==> d.shows(k));
    assert(d.other_open(kind) matches Some(k) ==> d.shows(k));
    assert(e.last_open() matches Some(k) ==> e.shows(k));
    assert(f.last_open() matches Some(k) ==> f.shows(k));
}

/// An explicit Run or Pause is what closing every inspector then leads to.
pub proof fn lemma_explicit_run_state_survives(d: Desk, paused: bool)
    requires
        d.wf(),
    ensures
        d.remembering(paused).wf(),
        d.remembering(paused).destiny(paused) == paused,
{
}

/// Switching to an inspector while another is open never changes whether the
/// machine runs, and closing one of several never does.
pub proof fn lemma_switching_keeps_the_machine_running(
    d: Desk,
    kind: ToolPanelKind,
    other: ToolPanelKind,
    paused: bool,
)
    requires
        d.wf(),
        d.shows(other),
        other != kind,
    ensures
        d.opened(kind, paused).1 == paused,
        d.closed(kind, paused).1 == paused,
        d.closed(kind, paused).0.layout_active == d.layout_active,
        d.closed(kind, paused).0.shows(d.closed(kind, paused).0.selected),
{
    reveal(Desk::opened);
    reveal(Desk::closed);
}

/// Closing the three inspectors, in tab order, ends in the plain layout with
/// the run state that was due.
pub proof fn lemma_closing_all(d: Desk, paused: bool)
    requires
        d.wf(),
    ensures
        ({
            let (a, p) = d.closed(ToolPanelKind::Debugger, paused);
            let (b, q) = a.closed(ToolPanelKind::FrameAnalyzer, p);
            let (c, r) = b.closed(ToolPanelKind::Console, q);
            &&& r == d.destiny(paused)
            &&& !c.any_open()
            &&& !c.layout_active
        }),
{
    reveal(Desk::closed);
    let (a, p) = d.closed(ToolPanelKind::Debugger, paused);
    lemma_inspectors_restore_the_run_state(d, ToolPanelKind::Debugger, paused);
    let (b, q) = a.closed(ToolPanelKind::FrameAnalyzer, p);
    lemma_inspectors_restore_the_run_state(a, ToolPanelKind::FrameAnalyzer, p);
    lemma_inspectors_restore_the_run_state(b, ToolPanelKind::Console, q);
}

/// Opening an inspector opens that one, selected, in the debug layout.
pub proof fn lemma_open_shows(d: Desk, kind: ToolPanelKind, paused: bool)
    ensures
        ({
            let e = d.opened(kind, paused).0;
            &&& e.debugger_open == (d.debugger_open || kind is Debugger)
            &&& e.analyzer_open == (d.analyzer_open || kind is FrameAnalyzer)
            &&& e.console_open == (d.console_open || kind is Console)
            &&& e.selected == kind
            &&& e.topmost() == Some(kind)
            &&& e.layout_active
            &&& !e.guest_input
        }),
{
    reveal(Desk::opened);
}

/// Closing an inspector closes that one; while another is open, the layout
/// and the input stay as they are.
pub proof fn lemma_close_hides(d: Desk, kind: ToolPanelKind, paused: bool)
    ensures
        ({
            let e = d.closed(kind, paused).0;
            &&& e.debugger_open == (d.debugger_open && kind !is Debugger)
            &&& e.analyzer_open == (d.analyzer_open && kind !is FrameAnalyzer)
            &&& e.console_open == (d.console_open && kind !is Console)
            &&& e.layout_active ==> d.layout_active && e.guest_input == d.guest_input
            &&& e.any_open() ==> e.layout_active == d.layout_active
        }),
{
    reveal(Desk::closed);
    let rest = d.with_open(kind, false);
    match kind {
        ToolPanelKind::Debugger => {
            assert(rest.any_open() == (d.analyzer_open || d.console_open));
        },
        ToolPanelKind::FrameAnalyzer => {
            assert(rest.any_open() == (d.debugger_open || d.console_open));
        },
        ToolPanelKind::Console => {
            assert(rest.any_open() == (d.debugger_open || d.analyzer_open));
        },
    }
}

} // verus!
