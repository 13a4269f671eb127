//! The inspectors of the debug workspace: opening, selecting and closing them,
//! and what that does to the machine, to its capture and to the window.

use vstd::prelude::*;

use crate::app::AnalyzerPanel;
use crate::app::App;
use crate::app::ConsolePanel;
use crate::app::DebugTab;
use crate::app::DebuggerPanel;
use crate::desk::Desk;
use crate::desk::ToolPanelKind;
use crate::desk::lemma_close_hides;
use crate::desk::lemma_open_shows;
use crate::effects::Effect;
use crate::effects::lemma_last;
use crate::effects::lemma_nothing;
use crate::effects::lemma_then;
use crate::guest::release_effects;
use crate::machine::Machine;
use crate::memedit::MemEdit;
use crate::session::Session;

verus! {

/// What an inspector's tab shows of it. `capturing` is read off the machine:
/// an inspector can be open with its capture switched off.
#[derive(Clone, Copy, PartialEq, Eq, Structural, Debug)]
pub struct ToolTabState {
    pub open: bool,
    pub capturing: bool,
}

impl DebuggerPanel {
    pub open spec fn is_fresh(&self) -> bool {
        &&& self.tab is Cpu
        &&& self.entry@.len() == 0
        &&& !self.entry_active
        &&& self.disasm_addr is None
        &&& self.copper_addr is None
        &&& self.mem_addr == 0
        &&& !self.mem_view_bits
        &&& self.bits_row == 16
        &&& self.mem_last_find is None
        &&& self.mem_edit.cursor is None
        &&& self.mem_edit.pending@.len() == 0
        &&& self.mem_status is None
    }

    pub fn new() -> (r: DebuggerPanel)
        ensures
            r.is_fresh(),
    {
        DebuggerPanel {
            tab: DebugTab::Cpu,
            entry: String::new(),
            entry_active: false,
            disasm_addr: None,
            copper_addr: None,
            mem_addr: 0,
            mem_view_bits: false,
            bits_row: 16,
            mem_last_find: None,
            mem_edit: MemEdit::new(),
            mem_status: None,
        }
    }
}

impl AnalyzerPanel {
    pub open spec fn is_fresh(&self) -> bool {
        &&& self.selected_hpos == 0
        &&& self.selected_vpos == 0
        &&& !self.heat_armed
        &&& !self.dragging
        &&& self.resource_scroll == 0
        &&& self.resource_selected is None
    }

    pub fn new() -> (r: AnalyzerPanel)
        ensures
            r.is_fresh(),
    {
        AnalyzerPanel {
            selected_hpos: 0,
            selected_vpos: 0,
            heat_armed: false,
            dragging: false,
            resource_scroll: 0,
            resource_selected: None,
        }
    }
}

impl ConsolePanel {
    pub open spec fn is_fresh(&self) -> bool {
        &&& self.input@.len() == 0
        &&& self.output@.len() == 0
        &&& self.history@.len() == 0
        &&& self.history_pos is None
        &&& self.scroll == 0
    }

    pub fn new() -> (r: ConsolePanel)
        ensures
            r.is_fresh(),
    {
        ConsolePanel {
            input: String::new(),
            output: Vec::new(),
            history: Vec::new(),
            history_pos: None,
            scroll: 0,
        }
    }
}

/// What opening an inspector asks of the host.
pub open spec fn open_effects(o: &App) -> Seq<Effect<Seq<char>>> {
    seq![Effect::SuspendMouse] + release_effects(o) + entry_effects(!o.desk.layout_active)
}

pub open spec fn entry_effects(entering: bool) -> Seq<Effect<Seq<char>>> {
    if entering {
        seq![Effect::EnterWorkspace, Effect::Redraw]
    } else {
        seq![Effect::Redraw]
    }
}

/// An inspector was opened, or selected where it was open. Its contents stay
/// where it was; a new one starts empty, with its capture armed.
pub open spec fn tool_opened(o: &App, n: &App, kind: ToolPanelKind) -> bool {
    let fresh = !o.desk.shows(kind);
    &&& *n == (App {
        fx: n.fx,
        guest: n.guest,
        desk: o.desk.opened(kind, o.session.paused).0,
        session: session_opened(o.desk, o.session, kind),
        machine: Machine {
            history_on: o.machine.history_on || (fresh && kind !is FrameAnalyzer),
            analyzer_on: o.machine.analyzer_on || (fresh && kind is FrameAnalyzer),
            ..o.machine
        },
        debugger: n.debugger,
        analyzer: n.analyzer,
        console: n.console,
        ..*o
    })
    &&& n.guest.idle()
    &&& n.guest.wf()
    &&& if fresh && kind is Debugger {
        n.debugger matches Some(p) && p.is_fresh()
    } else {
        n.debugger == o.debugger
    }
    &&& if fresh && kind is FrameAnalyzer {
        n.analyzer matches Some(p) && p.is_fresh()
    } else {
        n.analyzer == o.analyzer
    }
    &&& if fresh && kind is Console {
        n.console matches Some(p) && p.is_fresh()
    } else {
        n.console == o.console
    }
    &&& n.fx@ == o.fx@ + open_effects(o)
}

/// What leaving the debug layout asks of the host.
pub open spec fn leave_effects(o: &App) -> Seq<Effect<Seq<char>>> {
    seq![Effect::SavePreferences] + release_effects(o) + seq![
        Effect::LeaveWorkspace,
        Effect::RestoreMouse,
        Effect::AutoCaptureMouse,
    ]
}

/// What closing an inspector asks of the host.
pub open spec fn close_effects(o: &App, kind: ToolPanelKind) -> Seq<Effect<Seq<char>>> {
    heat_effects(o, kind) + (if o.desk.layout_active && !o.desk.closed(kind, o.session.paused).0.layout_active {
        leave_effects(o)
    } else {
        Seq::empty()
    }) + close_ends()
}

/// The mouse goes back to the machine as far as nothing holds it.
pub open spec fn close_ends() -> Seq<Effect<Seq<char>>> {
    seq![Effect::RestoreMouse, Effect::AutoCaptureMouse, Effect::Redraw]
}

/// The heat map goes with the inspector that armed it.
pub open spec fn heat_effects(o: &App, kind: ToolPanelKind) -> Seq<Effect<Seq<char>>> {
    if kind is FrameAnalyzer && (o.analyzer matches Some(p) && p.heat_armed) {
        seq![Effect::ReleaseHeatMap]
    } else {
        Seq::empty()
    }
}

/// An inspector was closed. The machine stops recording what no open
/// inspector shows.
pub open spec fn tool_closed(o: &App, n: &App, kind: ToolPanelKind) -> bool {
    let desk = o.desk.closed(kind, o.session.paused).0;
    let was = o.desk.shows(kind);
    &&& *n == (App {
        fx: n.fx,
        guest: n.guest,
        desk,
        session: session_closed(o.desk, o.session, kind),
        machine: Machine {
            history_on: o.machine.history_on && (desk.debugger_open || desk.console_open),
            analyzer_on: o.machine.analyzer_on && !(was && kind is FrameAnalyzer),
            ..o.machine
        },
        last_debug_stop: if was && kind is Debugger {
            None
        } else {
            o.last_debug_stop
        },
        debugger: if kind is Debugger {
            None
        } else {
            o.debugger
        },
        analyzer: if kind is FrameAnalyzer {
            None
        } else {
            o.analyzer
        },
        console: if kind is Console {
            None
        } else {
            o.console
        },
        ..*o
    })
    &&& if o.desk.layout_active && !desk.layout_active {
        n.guest.idle() && n.guest.wf()
    } else {
        n.guest == o.guest
    }
    &&& n.fx@ == o.fx@ + close_effects(o, kind)
}

/// The window went back to the plain layout; the inspectors stay open behind
/// it, the run state and the capture as they were.
pub open spec fn workspace_left(o: &App, n: &App) -> bool {
    if o.desk.layout_active {
        &&& *n == (App {
            fx: n.fx,
            guest: n.guest,
            desk: Desk { layout_active: false, guest_input: false, ..o.desk },
            ..*o
        })
        &&& n.guest.idle()
        &&& n.guest.wf()
        &&& n.fx@ == o.fx@ + leave_effects(o) + seq![Effect::Redraw]
    } else {
        *n == *o
    }
}

/// The session in which an inspector is open.
pub open spec fn session_opened(d: Desk, s: Session, kind: ToolPanelKind) -> Session {
    (Session { paused: d.opened(kind, s.paused).1, ..s }).settled()
}

/// The session in which an inspector is closed.
pub open spec fn session_closed(d: Desk, s: Session, kind: ToolPanelKind) -> Session {
    if d.shows(kind) {
        (Session { paused: d.closed(kind, s.paused).1, ..s }).settled()
    } else {
        s
    }
}

fn with_pause(s: Session, paused: bool) -> (r: Session)
    ensures
        r == (Session { paused, ..s }).settled(),
{
    let mut session: Session = s;
    session.paused = paused;
    session.sync_live_audio_suspension();
    session
}

fn desk_after_open(d: Desk, s: Session, kind: ToolPanelKind) -> (r: (Desk, Session))
    requires
        d.wf(),
    ensures
        r.0 == d.opened(kind, s.paused).0,
        r.1 == session_opened(d, s, kind),
        r.0.wf(),
        !r.0.guest_input,
        r.0.debugger_open == (d.debugger_open || kind is Debugger),
        r.0.analyzer_open == (d.analyzer_open || kind is FrameAnalyzer),
        r.0.console_open == (d.console_open || kind is Console),
{
    proof {
        lemma_open_shows(d, kind, s.paused);
    }
    let mut desk: Desk = d;
    let paused: bool = desk.open(kind, s.paused);
    (desk, with_pause(s, paused))
}

fn desk_after_close(d: Desk, s: Session, kind: ToolPanelKind) -> (r: (Desk, Session))
    requires
        d.wf(),
    ensures
        r.0 == d.closed(kind, s.paused).0,
        r.1 == session_closed(d, s, kind),
        r.0.wf(),
{
    let mut desk: Desk = d;
    let paused: bool = desk.close(kind, s.paused);
    if d.tool_panel_is_open(kind) {
        (desk, with_pause(s, paused))
    } else {
        (desk, s)
    }
}

impl App {
    fn open_tool(&mut self, kind: ToolPanelKind)
        requires
            old(self).wf(),
        ensures
            final(self).wf(),
            tool_opened(old(self), final(self), kind),
    {
        let entering: bool = !self.desk.layout_active;
        let fresh: bool = !self.desk.tool_panel_is_open(kind);
        let before: Desk = self.desk;
        self.fx.push(Effect::SuspendMouse);
        self.take_input_back();
        let (desk, session): (Desk, Session) = desk_after_open(before, self.session, kind);
        self.desk = desk;
        self.session = session;
        if fresh {
            self.start_panel(kind);
        }
        self.show_layout(entering);
        proof {
            let s = seq![Effect::SuspendMouse];
            let r = release_effects(old(self));
            let e = entry_effects(entering);
            lemma_last(old(self).fx@, Effect::SuspendMouse);
            lemma_then(old(self).fx@, s, r);
            lemma_then(old(self).fx@, s + r, e);
        }
    }

    /// Gives a new inspector its empty panel and arms its capture.
    fn start_panel(&mut self, kind: ToolPanelKind)
        ensures
            *final(self) == (App {
                machine: Machine {
                    history_on: old(self).machine.history_on || kind !is FrameAnalyzer,
                    analyzer_on: old(self).machine.analyzer_on || kind is FrameAnalyzer,
                    ..old(self).machine
                },
                debugger: final(self).debugger,
                analyzer: final(self).analyzer,
                console: final(self).console,
                ..*old(self)
            }),
            if kind is Debugger {
                final(self).debugger matches Some(p) && p.is_fresh()
            } else {
                final(self).debugger == old(self).debugger
            },
            if kind is FrameAnalyzer {
                final(self).analyzer matches Some(p) && p.is_fresh()
            } else {
                final(self).analyzer == old(self).analyzer
            },
            if kind is Console {
                final(self).console matches Some(p) && p.is_fresh()
            } else {
                final(self).console == old(self).console
            },
    {
        match kind {
            ToolPanelKind::Debugger => {
                self.debugger = Some(DebuggerPanel::new());
                self.machine.history_on = true;
            },
            ToolPanelKind::FrameAnalyzer => {
                self.analyzer = Some(AnalyzerPanel::new());
                self.machine.analyzer_on = true;
            },
            ToolPanelKind::Console => {
                self.console = Some(ConsolePanel::new());
                self.machine.history_on = true;
            },
        }
    }

    fn show_layout(&mut self, entering: bool)
        ensures
            *final(self) == (App { fx: final(self).fx, ..*old(self) }),
            final(self).fx@ == old(self).fx@ + entry_effects(entering),
    {
        if entering {
            self.fx.push(Effect::EnterWorkspace);
        }
        self.fx.redraw();
        assert(self.fx@ =~= old(self).fx@ + entry_effects(entering));
    }

    pub fn open_debugger(&mut self)
        requires
            old(self).wf(),
        ensures
            final(self).wf(),
            tool_opened(old(self), final(self), ToolPanelKind::Debugger),
    {
        self.open_tool(ToolPanelKind::Debugger);
    }

    pub fn open_frame_analyzer(&mut self)
        requires
            old(self).wf(),
        ensures
            final(self).wf(),
            tool_opened(old(self), final(self), ToolPanelKind::FrameAnalyzer),
    {
        self.open_tool(ToolPanelKind::FrameAnalyzer);
    }

    pub fn open_console(&mut self)
        requires
            old(self).wf(),
        ensures
            final(self).wf(),
            tool_opened(old(self), final(self), ToolPanelKind::Console),
    {
        self.open_tool(ToolPanelKind::Console);
    }

    fn step_out_of_layout(&mut self)
        requires
            old(self).wf(),
        ensures
            final(self).wf(),
            *final(self) == (App {
                fx: final(self).fx,
                guest: final(self).guest,
                desk: Desk { layout_active: false, guest_input: false, ..old(self).desk },
                ..*old(self)
            }),
            final(self).guest.idle(),
            final(self).fx@ == old(self).fx@ + leave_effects(old(self)),
    {
        self.fx.push(Effect::SavePreferences);
        self.release_debug_guest_input();
        self.desk.leave_debug_workspace();
        self.fx.push(Effect::LeaveWorkspace);
        self.fx.push(Effect::RestoreMouse);
        self.fx.push(Effect::AutoCaptureMouse);
        assert(self.fx@ =~= old(self).fx@ + leave_effects(old(self)));
    }

    pub fn leave_debug_workspace(&mut self)
        requires
            old(self).wf(),
        ensures
            final(self).wf(),
            workspace_left(old(self), final(self)),
    {
        if !self.desk.layout_active {
            return;
        }
        self.step_out_of_layout();
        self.fx.redraw();
        assert(self.fx@ =~= old(self).fx@ + leave_effects(old(self)) + seq![Effect::Redraw]);
    }

    fn drop_panel(&mut self, kind: ToolPanelKind)
        ensures
            *final(self) == (App {
                fx: final(self).fx,
                machine: Machine {
                    analyzer_on: old(self).machine.analyzer_on && !(old(self).desk.shows(kind)
                        && kind is FrameAnalyzer),
                    ..old(self).machine
                },
                last_debug_stop: if old(self).desk.shows(kind) && kind is Debugger {
                    None
                } else {
                    old(self).last_debug_stop
                },
                debugger: if kind is Debugger {
                    None
                } else {
                    old(self).debugger
                },
                analyzer: if kind is FrameAnalyzer {
                    None
                } else {
                    old(self).analyzer
                },
                console: if kind is Console {
                    None
                } else {
                    old(self).console
                },
                ..*old(self)
            }),
            final(self).fx@ == old(self).fx@ + heat_effects(old(self), kind),
    {
        match kind {
            ToolPanelKind::Debugger => {
                if self.desk.debugger_open {
                    self.last_debug_stop = None;
                }
                self.debugger = None;
            },
            ToolPanelKind::FrameAnalyzer => {
                if self.desk.analyzer_open {
                    self.machine.analyzer_on = false;
                }
                let armed: bool = match &self.analyzer {
                    Some(p) => p.heat_armed,
                    None => false,
                };
                if armed {
                    self.fx.push(Effect::ReleaseHeatMap);
                }
                self.analyzer = None;
            },
            ToolPanelKind::Console => {
                self.console = None;
            },
        }
        assert(self.fx@ =~= old(self).fx@ + heat_effects(old(self), kind));
    }

    pub fn close_tool_panel(&mut self, kind: ToolPanelKind)
        requires
            old(self).wf(),
        ensures
            final(self).wf(),
            tool_closed(old(self), final(self), kind),
    {
        self.drop_panel(kind);
        let ghost dropped = *self;
        let (desk, session): (Desk, Session) = desk_after_close(self.desk, self.session, kind);
        proof {
            lemma_close_hides(self.desk, kind, self.session.paused);
        }
        self.session = session;
        self.close_layout(desk);
        let ghost left = self.fx@;
        if !desk.debugger_open && !desk.console_open {
            self.machine.history_on = false;
        }
        self.fx.push(Effect::RestoreMouse);
        self.fx.push(Effect::AutoCaptureMouse);
        self.fx.redraw();
        proof {
            let f = old(self).fx@;
            let h = heat_effects(old(self), kind);
            let away = old(self).desk.layout_active && !desk.layout_active;
            let l = if away {
                leave_effects(old(self))
            } else {
                Seq::empty()
            };
            assert(left == f + h + l) by {
                if !away {
                    lemma_nothing(f + h);
                }
            }
            assert(self.fx@ =~= left + close_ends());
            lemma_then(f, h, l);
            lemma_then(f, h + l, close_ends());
        }
    }

    /// Adopts the desk as closing an inspector left it.
    fn close_layout(&mut self, desk: Desk)
        requires
            old(self).guest.wf(),
            desk.guest_input ==> desk.layout_active,
            !desk.layout_active || old(self).desk.layout_active,
            desk.layout_active ==> desk.guest_input == old(self).desk.guest_input,
        ensures
            *final(self) == (App { fx: final(self).fx, guest: final(self).guest, desk, ..*old(self) }),
            final(self).guest.wf(),
            if old(self).desk.layout_active && !desk.layout_active {
                final(self).guest.idle() && final(self).fx@ == old(self).fx@ + leave_effects(old(self))
            } else {
                final(self).guest == old(self).guest && final(self).fx == old(self).fx
            },
    {
        if self.desk.layout_active && !desk.layout_active {
            self.fx.push(Effect::SavePreferences);
            self.take_input_back();
            self.fx.push(Effect::LeaveWorkspace);
            self.fx.push(Effect::RestoreMouse);
            self.fx.push(Effect::AutoCaptureMouse);
            assert(self.fx@ =~= old(self).fx@ + leave_effects(old(self)));
        }
        self.desk = desk;
    }

    /// Leaves the debug layout, or enters it with the debugger selected.
    pub fn toggle_debugger(&mut self)
        requires
            old(self).wf(),
        ensures
            final(self).wf(),
            old(self).desk.layout_active ==> workspace_left(old(self), final(self)),
            !old(self).desk.layout_active ==> tool_opened(
                old(self),
                final(self),
                ToolPanelKind::Debugger,
            ),
    {
        if self.desk.layout_active {
            self.leave_debug_workspace();
        } else {
            self.open_debugger();
        }
    }

    /// What the inspectors' tabs show, in tab order.
    pub fn egui_tool_tab_states(&self) -> (r: [ToolTabState; 3])
        ensures
            r@ == seq![
                ToolTabState {
                    open: self.desk.debugger_open,
                    capturing: self.machine.history_on,
                },
                ToolTabState {
                    open: self.desk.analyzer_open,
                    capturing: self.machine.analyzer_on,
                },
                ToolTabState { open: self.desk.console_open, capturing: self.machine.history_on },
            ],
    {
        [
            ToolTabState { open: self.desk.debugger_open, capturing: self.machine.history_on },
            ToolTabState { open: self.desk.analyzer_open, capturing: self.machine.analyzer_on },
            ToolTabState { open: self.desk.console_open, capturing: self.machine.history_on },
        ]
    }

    /// Run or Pause from an inspector.
    fn toggle_run(&mut self)
        requires
            old(self).wf(),
        ensures
            final(self).wf(),
            *final(self) == (App {
                fx: final(self).fx,
                ..crate::console::set_run(*old(self), !old(self).session.paused)
            }),
            final(self).fx@ == old(self).fx@.push(Effect::Redraw),
    {
        let paused: bool = !self.session.paused;
        self.session.paused = paused;
        self.session.sync_live_audio_suspension();
        self.desk.egui_remember_run_state(paused);
        self.fx.redraw();
    }

    pub fn debugger_toggle_run(&mut self)
        requires
            old(self).wf(),
        ensures
            final(self).wf(),
            *final(self) == (App {
                fx: final(self).fx,
                ..crate::console::set_run(*old(self), !old(self).session.paused)
            }),
            final(self).fx@ == old(self).fx@.push(Effect::Redraw),
    {
        self.toggle_run();
    }

    pub fn frame_analyzer_toggle_run(&mut self)
        requires
            old(self).wf(),
        ensures
            final(self).wf(),
            *final(self) == (App {
                fx: final(self).fx,
                ..crate::console::set_run(*old(self), !old(self).session.paused)
            }),
            final(self).fx@ == old(self).fx@.push(Effect::Redraw),
    {
        self.toggle_run();
    }
}

/// Going back to the plain layout closes no inspector and changes nothing of
/// the machine: what they show, what is captured and whether it runs stay as
/// they were, and opening the debugger again finds everything there.
pub proof fn lemma_return_to_play_keeps_everything(o: App, n: App, again: App, kind: ToolPanelKind)
    requires
        workspace_left(&o, &n),
        o.desk.shows(kind),
        tool_opened(&n, &again, kind),
    ensures
        !n.desk.layout_active,
        n.desk.shows(kind),
        n.same_inspectors(&o),
        n.machine == o.machine,
        n.session == o.session,
        again.same_inspectors(&o),
        again.machine == o.machine,
        again.desk.layout_active,
{
    lemma_open_shows(n.desk, kind, n.session.paused);
}

impl App {
    /// The inspectors show what they showed.
    pub open spec fn same_inspectors(&self, o: &App) -> bool {
        &&& self.debugger == o.debugger
        &&& self.analyzer == o.analyzer
        &&& self.console == o.console
    }
}

} // verus!
