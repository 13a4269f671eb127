//! What the inspectors ask the application to do, one action after another.

use vstd::prelude::*;

use crate::app::App;
use crate::app::DebugTab;
use crate::app::DebuggerPanel;
use crate::breaks::opt_text;
use crate::command::hex32;
use crate::command::hex32_of;
use crate::console::Ask;
use crate::controls::ControlStep;
use crate::controls::UiControl;
use crate::controls::control_used;
use crate::controls::resources_scrolled;
use crate::desk::ToolPanelKind;
use crate::effects::Effect;
use crate::guest::given;
use crate::inspector_keys::InspectorKey;
use crate::machine::Machine;
use crate::machine::rebaselined;
use crate::memedit::commit_status;
use crate::memedit::debugger_mem_commit;
use crate::memedit::edited;
use crate::memory::same_layout;
use crate::number::hex;
use crate::number::put_hex;
use crate::prompt::batch_run;
use crate::prompt::newline_text;
use crate::prompt::newlined;
use crate::prompt::opt_ask;
use crate::text::chars_of;
use crate::text::lines_of;
use crate::text::split_lines;
use crate::text::trim;
use crate::text::trimmed;
use crate::text::views;
use crate::tools::tool_closed;
use crate::tools::tool_opened;
use crate::tools::workspace_left;

verus! {

#[derive(PartialEq, Eq, Debug)]
pub enum Action {
    Control(UiControl),
    Analyzer(UiControl),
    AnalyzerKey(InspectorKey),
    ResourceScroll(i64),
    BlitScroll(i64),
    SelectTool(ToolPanelKind),
    CloseWorkspace,
    CaptureDisplay,
    CloseTool(ToolPanelKind),
    Navigate(DebugTab, u32),
    ConsoleSubmit(String),
    SubmitEntry,
    FollowPc,
    FollowCopper,
    MemoryScroll(i32),
    /// Staged edits of memory: addresses and values.
    MemoryCommit(Vec<(u32, u8)>),
    IoMapScroll(i32),
}

/// Where an action stands.
#[derive(PartialEq, Eq, Debug)]
pub enum ActionStep {
    Done,
    /// The host carries it out.
    Host,
    /// A submitted line needs the host; the lines from `next` on follow.
    Console { lines: Vec<Vec<char>>, next: usize, ask: Ask<String> },
}

/// The debugger's panel with a page brought to an address.
pub open spec fn placed(p: DebuggerPanel, q: DebuggerPanel, tab: DebugTab, addr: u32) -> bool {
    match tab {
        DebugTab::Cpu => q == (DebuggerPanel { disasm_addr: Some(addr & 0xFFFF_FFFE), ..p }),
        DebugTab::Memory => q == (DebuggerPanel {
            mem_addr: addr & 0xFFFF_FFF0,
            mem_view_bits: false,
            mem_last_find: None,
            ..p
        }),
        DebugTab::Copper => q == (DebuggerPanel { copper_addr: Some(addr & 0xFFFF_FFFE), ..p }),
        _ => q == p,
    }
}

impl DebuggerPanel {
    fn place(&mut self, tab: DebugTab, addr: u32)
        ensures
            placed(*old(self), *final(self), tab, addr),
    {
        match tab {
            DebugTab::Cpu => {
                self.disasm_addr = Some(addr & 0xFFFF_FFFE);
            },
            DebugTab::Memory => {
                self.mem_addr = addr & 0xFFFF_FFF0;
                self.mem_view_bits = false;
                self.mem_last_find = None;
            },
            DebugTab::Copper => {
                self.copper_addr = Some(addr & 0xFFFF_FFFE);
            },
            _ => {},
        }
    }

    /// Bytes by which the memory view moves per row. The CPU page's memory
    /// is always in bytes, whatever the memory page shows.
    pub open spec fn row_bytes(&self) -> u32 {
        if self.tab is Cpu || !self.mem_view_bits {
            16
        } else {
            self.bits_row
        }
    }

    /// The address that the memory view moves to.
    pub open spec fn scrolled(&self, rows: int, mask: u32) -> u32 {
        (((self.mem_addr + rows * self.row_bytes()) % 0x1_0000_0000) as u32) & mask
    }

    fn scroll(&mut self, rows: i32, mask: u32)
        ensures
            *final(self) == (DebuggerPanel {
                mem_addr: old(self).scrolled(rows as int, mask),
                ..*old(self)
            }),
    {
        let row: u32 = if self.tab == DebugTab::Cpu || !self.mem_view_bits {
            16
        } else {
            self.bits_row
        };
        assert(-0x8000_0000 * 0xFFFF_FFFF <= rows * row <= 0x8000_0000 * 0xFFFF_FFFF)
            by (nonlinear_arith)
            requires
                -0x8000_0000 <= rows < 0x8000_0000,
                0 <= row <= 0xFFFF_FFFF,
        ;
        let sum: i128 = self.mem_addr as i128 + rows as i128 * row as i128;
        let wrapped: i128 = ((sum % 0x1_0000_0000) + 0x1_0000_0000) % 0x1_0000_0000;
        proof {
            lemma_wrap(sum as int, wrapped as int);
        }
        self.mem_addr = (wrapped as u32) & mask;
    }
}

/// Rounding towards zero and adding one turn is the remainder that is never
/// negative.
proof fn lemma_wrap(sum: int, wrapped: int)
    requires
        wrapped == (if sum >= 0 {
            (sum % 0x1_0000_0000) + 0x1_0000_0000
        } else {
            -((-sum) % 0x1_0000_0000) + 0x1_0000_0000
        }) % 0x1_0000_0000,
    ensures
        wrapped == sum % 0x1_0000_0000,
        0 <= wrapped < 0x1_0000_0000,
{
}

/// The debugger shows an address on one of its pages.
pub open spec fn navigated(o: &App, n: &App, tab: DebugTab, address: u32) -> bool {
    let addr = address & o.machine.memory.mask;
    exists|a: App|
        #![trigger tool_opened(o, &a, ToolPanelKind::Debugger)]
        tool_opened(o, &a, ToolPanelKind::Debugger) && *n == (App {
            debugger: n.debugger,
            fx: n.fx,
            ..a
        }) && n.fx@ == a.fx@.push(Effect::SurrenderFocus) && shows_address(
            a.debugger.unwrap(),
            n.debugger,
            tab,
            addr,
        )
}

pub open spec fn shows_address(
    p: DebuggerPanel,
    n: Option<DebuggerPanel>,
    tab: DebugTab,
    addr: u32,
) -> bool {
    n matches Some(q) && q.entry@ == hex(addr as int, 8) && placed(
        DebuggerPanel { tab, entry: q.entry, entry_active: false, ..p },
        q,
        tab,
        addr,
    )
}

/// An address was entered for the page that is shown.
pub open spec fn entry_submitted(o: &App, n: &App) -> bool {
    &&& *n == (App { debugger: n.debugger, ..*o })
    &&& match (o.debugger, n.debugger) {
        (Some(p), Some(q)) => match entry_address(&p) {
            Some(a) => placed(
                DebuggerPanel { entry_active: true, ..p },
                q,
                p.tab,
                a & o.machine.memory.mask,
            ),
            None => q == (DebuggerPanel { entry_active: true, ..p }),
        },
        (None, None) => true,
        _ => false,
    }
}

/// The address that an entry gives a page which shows addresses.
pub open spec fn entry_address(p: &DebuggerPanel) -> Option<u32> {
    if p.tab is Cpu || p.tab is Memory || p.tab is Copper {
        hex32_of(trimmed(p.entry@))
    } else {
        None
    }
}

/// Staged edits were written, and the watches start from the new words.
pub open spec fn committed(o: &App, n: &App, edits: Seq<(u32, u8)>) -> bool {
    if edits.len() == 0 {
        *n == *o
    } else {
        &&& *n == (App { machine: n.machine, debugger: n.debugger, ..*o })
        &&& n.machine == (Machine {
            memory: n.machine.memory,
            breaks: crate::breaks::BreakStore {
                watches: n.machine.breaks.watches,
                ..o.machine.breaks
            },
            ..o.machine
        })
        &&& n.machine.memory.mask == o.machine.memory.mask
        &&& same_layout(n.machine.memory.regions@, o.machine.memory.regions@)
        &&& forall|a: u32| #[trigger]
            n.machine.memory.at(a) == edited(&o.machine.memory, edits, a)
        &&& n.machine.breaks.watches@ == rebaselined(
            o.machine.breaks.watches@,
            &n.machine.memory,
        )
        &&& match (o.debugger, n.debugger) {
            (Some(p), Some(q)) => {
                &&& q == (DebuggerPanel { mem_status: q.mem_status, ..p })
                &&& opt_text(q.mem_status) == Some(commit_status(&o.machine.memory, edits))
            },
            (None, None) => true,
            _ => false,
        }
    }
}

/// The debugger's panel changed in this one way, where it is open.
pub open spec fn panel_follows(o: &App, n: &App, copper: bool) -> bool {
    &&& *n == (App { debugger: n.debugger, ..*o })
    &&& match (o.debugger, n.debugger) {
        (Some(p), Some(q)) => q == (if copper {
            DebuggerPanel { copper_addr: None, ..p }
        } else {
            DebuggerPanel { disasm_addr: None, ..p }
        }),
        (None, None) => true,
        _ => false,
    }
}

pub open spec fn panel_scrolled(o: &App, n: &App, rows: i32) -> bool {
    &&& *n == (App { debugger: n.debugger, ..*o })
    &&& match (o.debugger, n.debugger) {
        (Some(p), Some(q)) => q == (DebuggerPanel {
            mem_addr: p.scrolled(rows as int, o.machine.memory.mask),
            ..p
        }),
        (None, None) => true,
        _ => false,
    }
}

/// Lines were submitted to the console and run as far as they go by
/// themselves.
pub open spec fn batch_submitted(o: &App, n: &App, text: Seq<char>, step: ActionStep) -> bool {
    let lines = lines_of(newlined(text));
    match step {
        ActionStep::Done => exists|to: int| #[trigger]
            batch_run(*o, *n, lines, 0, to, None) && (to == lines.len() || n.console is None),
        ActionStep::Console { lines: l, next, ask } => views(l@) == lines && batch_run(
            *o,
            *n,
            lines,
            0,
            next as int,
            opt_ask(Some(ask)),
        ),
        ActionStep::Host => false,
    }
}

/// Whether the host carries an action out. The controls answer for themselves.
pub open spec fn host_action(a: Action) -> bool {
    match a {
        Action::AnalyzerKey(_) | Action::BlitScroll(_) | Action::IoMapScroll(_) => true,
        _ => false,
    }
}

/// What an action does, before the redraw that every action ends with.
pub open spec fn did(o: &App, n: &App, a: Action, step: ActionStep) -> bool {
    match a {
        Action::Control(c) => control_used(
            o,
            n,
            ToolPanelKind::Debugger,
            c,
            if step is Host {
                ControlStep::Host
            } else {
                ControlStep::Done
            },
        ) && step !is Console,
        Action::Analyzer(c) => control_used(
            o,
            n,
            ToolPanelKind::FrameAnalyzer,
            c,
            if step is Host {
                ControlStep::Host
            } else {
                ControlStep::Done
            },
        ) && step !is Console,
        Action::ConsoleSubmit(text) => batch_submitted(o, n, text@, step),
        _ => {
            if host_action(a) {
                step is Host && *n == *o
            } else {
                &&& step is Done
                &&& if tool_action(a) {
                    tool_did(o, n, a)
                } else {
                    panel_did(o, n, a)
                }
            }
        },
    }
}

pub open spec fn tool_action(a: Action) -> bool {
    match a {
        Action::SelectTool(_) | Action::CloseTool(_) | Action::CloseWorkspace
        | Action::CaptureDisplay | Action::Navigate(_, _) => true,
        _ => false,
    }
}

pub open spec fn panel_action(a: Action) -> bool {
    match a {
        Action::SubmitEntry | Action::FollowPc | Action::FollowCopper | Action::MemoryScroll(_)
        | Action::MemoryCommit(_) | Action::ResourceScroll(_) => true,
        _ => false,
    }
}

#[verifier::opaque]
pub open spec fn tool_did(o: &App, n: &App, a: Action) -> bool {
    match a {
        Action::SelectTool(kind) => tool_opened(o, n, kind),
        Action::CloseTool(kind) => tool_closed(o, n, kind),
        Action::CloseWorkspace => workspace_left(o, n),
        Action::CaptureDisplay => if o.desk.layout_active {
            given(o, n)
        } else {
            *n == *o
        },
        Action::Navigate(tab, addr) => navigated(o, n, tab, addr),
        _ => false,
    }
}

#[verifier::opaque]
pub open spec fn panel_did(o: &App, n: &App, a: Action) -> bool {
    match a {
        Action::SubmitEntry => entry_submitted(o, n),
        Action::FollowPc => panel_follows(o, n, false),
        Action::FollowCopper => panel_follows(o, n, true),
        Action::MemoryScroll(rows) => panel_scrolled(o, n, rows),
        Action::MemoryCommit(edits) => committed(o, n, edits@),
        Action::ResourceScroll(rows) => resources_scrolled(o, n, rows),
        _ => false,
    }
}

impl App {
    fn navigate(&mut self, tab: DebugTab, address: u32)
        requires
            old(self).wf(),
        ensures
            final(self).wf(),
            navigated(old(self), final(self), tab, address),
    {
        let addr: u32 = address & self.machine.memory.mask;
        self.open_debugger();
        let ghost a = *self;
        proof {
            crate::desk::lemma_open_shows(
                old(self).desk,
                ToolPanelKind::Debugger,
                old(self).session.paused,
            );
        }
        match self.debugger.take() {
            Some(mut p) => {
                p.tab = tab;
                let mut entry = String::new();
                put_hex(&mut entry, addr as u64, 8);
                assert(entry@ =~= hex(addr as int, 8));
                p.entry = entry;
                p.entry_active = false;
                p.place(tab, addr);
                self.debugger = Some(p);
            },
            None => {},
        }
        self.fx.push(Effect::SurrenderFocus);
        assert(tool_opened(old(self), &a, ToolPanelKind::Debugger));
    }

    fn submit_entry(&mut self)
        requires
            old(self).wf(),
        ensures
            final(self).wf(),
            entry_submitted(old(self), final(self)),
    {
        match self.debugger.take() {
            Some(mut p) => {
                p.entry_active = true;
                if p.tab == DebugTab::Cpu || p.tab == DebugTab::Memory || p.tab == DebugTab::Copper {
                    let entry = trim(&chars_of(p.entry.as_str()));
                    match hex32(&entry) {
                        Some(a) => {
                            let tab: DebugTab = p.tab;
                            p.place(tab, a & self.machine.memory.mask);
                        },
                        None => {},
                    }
                }
                self.debugger = Some(p);
            },
            None => {},
        }
    }

    fn commit_edits(&mut self, edits: &Vec<(u32, u8)>)
        requires
            old(self).wf(),
        ensures
            final(self).wf(),
            committed(old(self), final(self), edits@),
    {
        if edits.len() == 0 {
            return;
        }
        let status = debugger_mem_commit(&mut self.machine, edits);
        proof {
            crate::app::lemma_hunt_fits(
                self.hunt,
                old(self).machine.memory.regions@,
                self.machine.memory.regions@,
            );
        }
        match self.debugger.take() {
            Some(mut p) => {
                p.mem_status = Some(status);
                self.debugger = Some(p);
            },
            None => {},
        }
    }

    fn follow_machine(&mut self, copper: bool)
        requires
            old(self).wf(),
        ensures
            final(self).wf(),
            panel_follows(old(self), final(self), copper),
    {
        match self.debugger.take() {
            Some(mut p) => {
                if copper {
                    p.copper_addr = None;
                } else {
                    p.disasm_addr = None;
                }
                self.debugger = Some(p);
            },
            None => {},
        }
    }

    pub fn debugger_mem_scroll(&mut self, rows: i32)
        requires
            old(self).wf(),
        ensures
            final(self).wf(),
            panel_scrolled(old(self), final(self), rows),
    {
        match self.debugger.take() {
            Some(mut p) => {
                p.scroll(rows, self.machine.memory.mask);
                self.debugger = Some(p);
            },
            None => {},
        }
    }

    fn submit_batch(&mut self, text: &str) -> (step: ActionStep)
        requires
            old(self).wf(),
        ensures
            final(self).wf(),
            batch_submitted(old(self), final(self), text@, step),
    {
        let lines = split_lines(&newline_text(&chars_of(text)));
        let (next, ask) = self.console_batch(&lines, 0);
        assert(views(lines@).len() == lines@.len());
        match ask {
            Some(ask) => ActionStep::Console { lines, next, ask },
            None => ActionStep::Done,
        }
    }

    /// An action that opens, shows or leaves an inspector.
    fn do_tool_action(&mut self, action: &Action)
        requires
            old(self).wf(),
            tool_action(*action),
        ensures
            final(self).wf(),
            tool_did(old(self), final(self), *action),
    {
        proof {
            reveal(tool_did);
        }
        match action {
            Action::SelectTool(ToolPanelKind::Debugger) => self.open_debugger(),
            Action::SelectTool(ToolPanelKind::FrameAnalyzer) => self.open_frame_analyzer(),
            Action::SelectTool(ToolPanelKind::Console) => self.open_console(),
            Action::CloseTool(kind) => self.close_tool_panel(*kind),
            Action::CloseWorkspace => self.leave_debug_workspace(),
            Action::CaptureDisplay => {
                if self.desk.layout_active {
                    self.capture_debug_guest_input();
                }
            },
            Action::Navigate(tab, addr) => self.navigate(*tab, *addr),
            _ => {},
        }
    }

    /// An action that changes what the debugger shows, or memory.
    fn do_panel_action(&mut self, action: &Action)
        requires
            old(self).wf(),
            panel_action(*action),
        ensures
            final(self).wf(),
            panel_did(old(self), final(self), *action),
    {
        proof {
            reveal(panel_did);
        }
        match action {
            Action::SubmitEntry => self.submit_entry(),
            Action::FollowPc => self.follow_machine(false),
            Action::FollowCopper => self.follow_machine(true),
            Action::MemoryScroll(rows) => self.debugger_mem_scroll(*rows),
            Action::MemoryCommit(edits) => self.commit_edits(edits),
            Action::ResourceScroll(rows) => self.frame_analyzer_scroll_resources(*rows),
            _ => {},
        }
    }

    fn do_control(&mut self, kind: ToolPanelKind, c: UiControl) -> (step: ActionStep)
        requires
            old(self).wf(),
        ensures
            final(self).wf(),
            step !is Console,
            control_used(
                old(self),
                final(self),
                kind,
                c,
                if step is Host {
                    ControlStep::Host
                } else {
                    ControlStep::Done
                },
            ),
    {
        match self.activate_tool_control(kind, c) {
            ControlStep::Host => ActionStep::Host,
            ControlStep::Done => ActionStep::Done,
        }
    }

    fn do_action(&mut self, action: &Action) -> (step: ActionStep)
        requires
            old(self).wf(),
        ensures
            final(self).wf(),
            did(old(self), final(self), *action, step),
    {
        match action {
            Action::SelectTool(_) | Action::CloseTool(_) | Action::CloseWorkspace
            | Action::CaptureDisplay | Action::Navigate(_, _) => {
                self.do_tool_action(action);
                ActionStep::Done
            },
            Action::SubmitEntry | Action::FollowPc | Action::FollowCopper
            | Action::MemoryScroll(_) | Action::MemoryCommit(_) | Action::ResourceScroll(_) => {
                self.do_panel_action(action);
                ActionStep::Done
            },
            Action::ConsoleSubmit(text) => self.submit_batch(text.as_str()),
            Action::Control(c) => self.do_control(ToolPanelKind::Debugger, *c),
            Action::Analyzer(c) => self.do_control(ToolPanelKind::FrameAnalyzer, *c),
            Action::AnalyzerKey(_) | Action::BlitScroll(_)
            | Action::IoMapScroll(_) => ActionStep::Host,
        }
    }

    /// Does what an inspector asked for. Returns what the host is still to do.
    pub fn apply_egui_debugger_action(&mut self, action: &Action) -> (step: ActionStep)
        requires
            old(self).wf(),
        ensures
            final(self).wf(),
            acted(old(self), final(self), *action, step),
    {
        let step = self.do_action(action);
        let ghost mid = *self;
        self.fx.redraw();
        assert(did(old(self), &mid, *action, step));
        step
    }
}

/// An action was carried out, and the window is redrawn.
pub open spec fn acted(o: &App, n: &App, a: Action, step: ActionStep) -> bool {
    exists|mid: App| #[trigger]
        did(o, &mid, a, step) && *n == (App { fx: n.fx, ..mid }) && n.fx@ == mid.fx@.push(
            Effect::Redraw,
        )
}

/// The actions from `from` up to `to` were carried out one after the other;
/// only the last of them left anything to the host.
pub open spec fn dispatched(
    o: App,
    n: App,
    actions: Seq<Action>,
    from: int,
    to: int,
    step: ActionStep,
) -> bool
    decreases to - from,
{
    if to <= from {
        n == o && step is Done
    } else {
        exists|mid: App|
            #![trigger acted(&mid, &n, actions[to - 1], step)]
            dispatched(o, mid, actions, from, to - 1, ActionStep::Done) && acted(
                &mid,
                &n,
                actions[to - 1],
                step,
            )
    }
}

impl App {
    /// Carries out the actions of a frame from one on, until one needs the
    /// host. Whether the frame could be shown plays no part: its input is
    /// gone, and the user should not have to repeat it. Returns the number of
    /// the next action.
    pub fn dispatch_egui_frame(&mut self, actions: &Vec<Action>, from: usize) -> (r: (
        usize,
        ActionStep,
    ))
        requires
            old(self).wf(),
            from <= actions@.len(),
        ensures
            final(self).wf(),
            from <= r.0 <= actions@.len(),
            dispatched(*old(self), *final(self), actions@, from as int, r.0 as int, r.1),
            r.1 is Done ==> r.0 == actions@.len(),
    {
        let mut i: usize = from;
        while i < actions.len()
            invariant
                self.wf(),
                from <= i <= actions@.len(),
                dispatched(*old(self), *self, actions@, from as int, i as int, ActionStep::Done),
            decreases actions@.len() - i,
        {
            let ghost mid = *self;
            let step = self.apply_egui_debugger_action(&actions[i]);
            i += 1;
            assert(acted(&mid, self, actions@[i - 1], step));
            assert(dispatched(*old(self), *self, actions@, from as int, i as int, step));
            match step {
                ActionStep::Done => {},
                other => {
                    return (i, other);
                },
            }
        }
        (i, ActionStep::Done)
    }
}

/// Showing an address in the debugger changes neither the machine's state nor
/// its capture, nor what the other inspectors hold.
pub proof fn lemma_navigation_only_looks(o: App, n: App, tab: DebugTab, address: u32)
    requires
        navigated(&o, &n, tab, address),
    ensures
        n.machine.regs == o.machine.regs,
        n.machine.memory == o.machine.memory,
        n.machine.breaks == o.machine.breaks,
        n.machine.trace == o.machine.trace,
        n.machine.analyzer_on == o.machine.analyzer_on,
        n.analyzer == o.analyzer,
        n.console == o.console,
        n.desk.selected is Debugger,
{
    crate::desk::lemma_open_shows(o.desk, ToolPanelKind::Debugger, o.session.paused);
}

} // verus!
