//! The events of an inspector's own window: which of them close it, type into
//! it, pick in it or scroll it.

use vstd::prelude::*;

use crate::actions::panel_scrolled;
use crate::app::AnalyzerPanel;
use crate::app::App;
use crate::app::ConsolePanel;
use crate::app::DebugTab;
use crate::controls::UiControl;
use crate::desk::Desk;
use crate::desk::ToolPanelKind;
use crate::effects::Effect;
use crate::tools::tool_closed;
use crate::ui::Panel;

verus! {

/// An event of an inspector's window.
#[derive(Clone, Copy, PartialEq, Eq, Structural, Debug)]
pub enum ToolEvent {
    CloseRequested,
    Focused(bool),
    /// A key: whether it went down, whether that is a repeat which the
    /// inspector does not want, and whether it quits the program.
    Key { pressed: bool, stale: bool, quits: bool },
    Modifiers,
    /// The pointer moved: whether it is still on the picture, and whether
    /// what it is over changed.
    CursorMoved { inside: bool, hover_changed: bool },
    CursorLeft { hover_changed: bool },
    /// A mouse button, and the control that the pointer is over.
    Mouse { left: bool, pressed: bool, control: Option<UiControl> },
    Scale,
    Resized,
    /// The wheel turned by so many rows, down for more; the console keeps so
    /// many lines to scroll back to.
    Wheel { rows: i32, kept: usize },
    Redraw,
    Other,
}

/// What is left to be done about an event.
#[derive(Clone, Copy, PartialEq, Eq, Structural, Debug)]
pub enum ToolStep {
    Nothing,
    Quit,
    /// The key is for the inspector.
    Key,
    Modifiers,
    /// The place under the pointer is to be picked.
    PickUnderPointer,
    Activate(UiControl),
    Rescale,
    Resize,
    /// The I/O map moves its selection.
    MoveIoMap(i32),
    Draw,
}

/// The console scrolled back by the wheel; it stops at its ends.
pub open spec fn scrolled_back(at: int, rows: int, kept: int) -> int {
    if at - rows < 0 {
        0
    } else if at - rows > kept {
        kept
    } else {
        at - rows
    }
}

fn scroll_back(at: usize, rows: i32, kept: usize) -> (r: usize)
    ensures
        r == scrolled_back(at as int, rows as int, kept as int),
{
    let to: i128 = at as i128 - rows as i128;
    if to < 0 {
        0
    } else if to > kept as i128 {
        kept
    } else {
        to as usize
    }
}

/// The inspector that the host last gave the keyboard to is in front.
pub open spec fn fronted(o: &App, kind: ToolPanelKind, e: ToolEvent) -> App {
    if e is Key || e == ToolEvent::Focused(true) {
        App { desk: Desk { front: Some(kind), ..o.desk }, ..*o }
    } else {
        *o
    }
}

/// The drag of the diagram set or ended.
pub open spec fn drag_set(o: &App, n: &App, dragging: bool) -> bool {
    &&& *n == (App { analyzer: n.analyzer, ..*o })
    &&& n.analyzer == (match o.analyzer {
        Some(p) => Some(AnalyzerPanel { dragging, ..p }),
        None => None,
    })
}

pub open spec fn drags(o: &App) -> bool {
    o.analyzer matches Some(p) && p.dragging
}

/// Whether a button press on a control starts a drag.
pub open spec fn starts_drag(control: Option<UiControl>) -> bool {
    control matches Some(c) && c is AnalyzerPick
}

pub open spec fn redrawn_if(o: &App, n: &App, due: bool) -> bool {
    &&& *n == (App { fx: n.fx, ..*o })
    &&& n.fx@ == (if due {
        o.fx@.push(Effect::Redraw)
    } else {
        o.fx@
    })
}

/// What the wheel does to an inspector.
pub open spec fn wheeled(
    o: &App,
    n: &App,
    kind: ToolPanelKind,
    rows: i32,
    kept: usize,
    step: ToolStep,
) -> bool {
    match kind {
        ToolPanelKind::Debugger => if o.debugger matches Some(p) && p.tab is IoMap {
            *n == *o && step == ToolStep::MoveIoMap(rows)
        } else {
            panel_scrolled(o, n, rows) && step is Nothing
        },
        ToolPanelKind::Console => {
            &&& step is Nothing
            &&& match o.console {
                Some(p) => {
                    &&& *n == (App {
                        fx: n.fx,
                        console: Some(
                            ConsolePanel {
                                scroll: scrolled_back(p.scroll as int, rows as int, kept as int) as usize,
                                ..p
                            },
                        ),
                        ..*o
                    })
                    &&& n.fx@ == o.fx@.push(Effect::Redraw)
                },
                None => *n == *o,
            }
        },
        ToolPanelKind::FrameAnalyzer => *n == *o && step is Nothing,
    }
}

/// What an event does, once the window in front is known.
pub open spec fn tool_event_did(
    o: &App,
    n: &App,
    kind: ToolPanelKind,
    e: ToolEvent,
    step: ToolStep,
) -> bool {
    let analyzer = kind is FrameAnalyzer;
    match e {
        ToolEvent::CloseRequested => tool_closed(o, n, kind) && step is Nothing,
        ToolEvent::Focused(_) => *n == *o && step is Nothing,
        ToolEvent::Key { pressed, stale, quits } => *n == *o && step == (if !pressed || stale {
            ToolStep::Nothing
        } else if quits {
            ToolStep::Quit
        } else {
            ToolStep::Key
        }),
        ToolEvent::Modifiers => *n == *o && step is Modifiers,
        ToolEvent::CursorMoved { inside, hover_changed } => redrawn_if(o, n, hover_changed)
            && step == (if analyzer && inside && drags(o) {
            ToolStep::PickUnderPointer
        } else {
            ToolStep::Nothing
        }),
        ToolEvent::CursorLeft { hover_changed } => {
            &&& step is Nothing
            &&& exists|mid: App| #[trigger]
                redrawn_if(&mid, n, hover_changed) && if analyzer {
                    drag_set(o, &mid, false)
                } else {
                    mid == *o
                }
        },
        ToolEvent::Mouse { left, pressed, control } => {
            &&& step == (match control {
                Some(c) => if left && pressed {
                    ToolStep::Activate(c)
                } else {
                    ToolStep::Nothing
                },
                None => ToolStep::Nothing,
            })
            &&& if analyzer && left {
                drag_set(o, n, pressed && starts_drag(control))
            } else {
                *n == *o
            }
        },
        ToolEvent::Scale => redrawn_if(o, n, true) && step is Rescale,
        ToolEvent::Resized => *n == *o && step is Resize,
        ToolEvent::Wheel { rows, kept } => wheeled(o, n, kind, rows, kept, step),
        ToolEvent::Redraw => *n == *o && step is Draw,
        ToolEvent::Other => *n == *o && step is Nothing,
    }
}

impl App {
    fn set_dragging(&mut self, dragging: bool)
        requires
            old(self).wf(),
        ensures
            final(self).wf(),
            drag_set(old(self), final(self), dragging),
    {
        match self.analyzer.take() {
            Some(mut p) => {
                p.dragging = dragging;
                self.analyzer = Some(p);
            },
            None => {},
        }
    }

    fn is_dragging(&self) -> (r: bool)
        ensures
            r == drags(self),
    {
        match &self.analyzer {
            Some(p) => p.dragging,
            None => false,
        }
    }

    fn tool_wheel(&mut self, kind: ToolPanelKind, rows: i32, kept: usize) -> (step: ToolStep)
        requires
            old(self).wf(),
        ensures
            final(self).wf(),
            wheeled(old(self), final(self), kind, rows, kept, step),
    {
        match kind {
            ToolPanelKind::Debugger => {
                let iomap: bool = match &self.debugger {
                    Some(p) => p.tab == DebugTab::IoMap,
                    None => false,
                };
                if iomap {
                    return ToolStep::MoveIoMap(rows);
                }
                self.debugger_mem_scroll(rows);
            },
            ToolPanelKind::Console => {
                match self.console.take() {
                    Some(mut p) => {
                        p.scroll = scroll_back(p.scroll, rows, kept);
                        self.console = Some(p);
                        self.fx.redraw();
                    },
                    None => {},
                }
            },
            ToolPanelKind::FrameAnalyzer => {},
        }
        ToolStep::Nothing
    }

    fn tool_pointer(&mut self, kind: ToolPanelKind, e: ToolEvent) -> (step: ToolStep)
        requires
            old(self).wf(),
            e is CursorMoved || e is CursorLeft || e is Mouse,
        ensures
            final(self).wf(),
            tool_event_did(old(self), final(self), kind, e, step),
    {
        let analyzer: bool = match kind {
            ToolPanelKind::FrameAnalyzer => true,
            _ => false,
        };
        match e {
            ToolEvent::CursorMoved { inside, hover_changed } => {
                let pick: bool = analyzer && inside && self.is_dragging();
                if hover_changed {
                    self.fx.redraw();
                }
                if pick {
                    ToolStep::PickUnderPointer
                } else {
                    ToolStep::Nothing
                }
            },
            ToolEvent::CursorLeft { hover_changed } => {
                if analyzer {
                    self.set_dragging(false);
                }
                let ghost mid = *self;
                if hover_changed {
                    self.fx.redraw();
                }
                assert(redrawn_if(&mid, self, hover_changed));
                ToolStep::Nothing
            },
            ToolEvent::Mouse { left, pressed, control } => {
                if !left {
                    return ToolStep::Nothing;
                }
                let drag: bool = match control {
                    Some(UiControl::AnalyzerPick { .. }) => pressed,
                    _ => false,
                };
                if analyzer {
                    self.set_dragging(drag);
                }
                match control {
                    Some(c) => if pressed {
                        ToolStep::Activate(c)
                    } else {
                        ToolStep::Nothing
                    },
                    None => ToolStep::Nothing,
                }
            },
            _ => ToolStep::Nothing,
        }
    }

    /// An event of an inspector's window.
    pub fn handle_tool_window_event(&mut self, kind: ToolPanelKind, e: ToolEvent) -> (step: ToolStep)
        requires
            old(self).wf(),
        ensures
            final(self).wf(),
            tool_event_did(&fronted(old(self), kind, e), final(self), kind, e, step),
    {
        let front: bool = match e {
            ToolEvent::Key { .. } => true,
            ToolEvent::Focused(on) => on,
            _ => false,
        };
        if front {
            self.desk.front = Some(kind);
        }
        assert(*self == fronted(old(self), kind, e));
        match e {
            ToolEvent::CloseRequested => {
                self.close_tool_panel(kind);
                ToolStep::Nothing
            },
            ToolEvent::Key { pressed, stale, quits } => if !pressed || stale {
                ToolStep::Nothing
            } else if quits {
                ToolStep::Quit
            } else {
                ToolStep::Key
            },
            ToolEvent::Modifiers => ToolStep::Modifiers,
            ToolEvent::CursorMoved { .. }
            | ToolEvent::CursorLeft { .. }
            | ToolEvent::Mouse { .. } => self.tool_pointer(kind, e),
            ToolEvent::Scale => {
                self.fx.redraw();
                ToolStep::Rescale
            },
            ToolEvent::Resized => ToolStep::Resize,
            ToolEvent::Wheel { rows, kept } => self.tool_wheel(kind, rows, kept),
            ToolEvent::Redraw => ToolStep::Draw,
            _ => ToolStep::Nothing,
        }
    }

    /// The gamepad's calibration was written, or was not; it is done where it
    /// was.
    pub fn save_calibration(&mut self, ok: bool)
        requires
            old(self).wf(),
        ensures
            final(self).wf(),
            ({
                let due = old(self).ui.panel matches Some(Panel::Calibration);
                &&& *final(self) == (App {
                    fx: final(self).fx,
                    ui: if due && ok {
                        old(self).ui.unpanelled()
                    } else {
                        old(self).ui
                    },
                    ..*old(self)
                })
                &&& final(self).fx@ == old(self).fx@ + (if !due {
                    Seq::empty()
                } else if ok {
                    seq![Effect::Redraw, Effect::Osd("Gamepad calibration saved"@)]
                } else {
                    seq![Effect::Osd("Calibration save failed (see log)"@)]
                })
            }),
    {
        let due: bool = match &self.ui.panel {
            Some(Panel::Calibration) => true,
            _ => false,
        };
        if !due {
            assert(self.fx@ =~= old(self).fx@ + Seq::empty());
            return;
        }
        if ok {
            self.ui.close_panel(&mut self.fx);
            self.fx.osd("Gamepad calibration saved");
            assert(self.fx@ =~= old(self).fx@ + seq![
                Effect::Redraw,
                Effect::Osd("Gamepad calibration saved"@),
            ]);
        } else {
            self.fx.osd("Calibration save failed (see log)");
            assert(self.fx@ =~= old(self).fx@ + seq![
                Effect::Osd("Calibration save failed (see log)"@),
            ]);
        }
    }
}

/// What an inspector's window is to be.
#[derive(Clone, Copy, PartialEq, Eq, Structural, Debug)]
pub enum WindowPlan {
    /// The inspector is closed, and its window goes.
    Close,
    Create,
    Redraw,
    Keep,
}

/// The window follows the inspector: one is made for an inspector that has
/// none, and one that is there is drawn again where that is due and it can be
/// seen.
pub fn ensure_tool_window_for_kind(
    open: bool,
    window: Option<bool>,
    redraw: bool,
) -> (r: WindowPlan)
    ensures
        r == (if !open {
            WindowPlan::Close
        } else {
            match window {
                Some(minimized) => if redraw && !minimized {
                    WindowPlan::Redraw
                } else {
                    WindowPlan::Keep
                },
                None => WindowPlan::Create,
            }
        }),
{
    if !open {
        return WindowPlan::Close;
    }
    match window {
        Some(minimized) => if redraw && !minimized {
            WindowPlan::Redraw
        } else {
            WindowPlan::Keep
        },
        None => WindowPlan::Create,
    }
}

/// Whether the inspectors' windows are due a redraw, and when the next is
/// counted from.
pub fn refresh_tool_windows_paced(last: u64, now: u64, interval: u64) -> (r: (bool, u64))
    ensures
        r.0 == (crate::menu::since(now, last) >= interval),
        r.1 == (if r.0 {
            now
        } else {
            last
        }),
{
    let gone: u64 = if now >= last {
        now - last
    } else {
        0
    };
    if gone >= interval {
        (true, now)
    } else {
        (false, last)
    }
}

} // verus!
