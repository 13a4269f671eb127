//! What opening, closing and working the inspectors does: which of them record, who gets
//! the input, and what the console's prompt and the shared clipboard pass on.

use vstd::prelude::*;

use crate::app::App;
use crate::app::ConsolePanel;
use crate::clipboard::bare_lines;
use crate::clipboard::host_lines;
use crate::clipboard::is_news;
use crate::clipboard::trimmed;
use crate::desk::Desk;
use crate::desk::ToolPanelKind;
use crate::effects::Effect;
use crate::guest::GuestInput;
use crate::guest::drop_effects;
use crate::guest::given;
use crate::guest::key_releases;
use crate::guest::taken_back;
use crate::prompt::applied;
use crate::prompt::newlined;
use crate::prompt::printable_part;
use crate::prompt::prompt_line;
use crate::prompt::recalled;
use crate::prompt::remembered;
use crate::text::texts;
use crate::tool_window::ToolEvent;
use crate::tool_window::ToolStep;
use crate::tool_window::fronted;
use crate::tool_window::scrolled_back;
use crate::tool_window::tool_event_did;
use crate::tools::tool_closed;
use crate::tools::tool_opened;
use crate::tools::workspace_left;
use crate::workspace::HostKey;
use crate::workspace::HostModifiers;
use crate::workspace::Route;
use crate::workspace::WorkspaceEvent;
use crate::workspace::bar_on;
use crate::workspace::kept_on;
use crate::workspace::routed;
use crate::workspace::shortcut_of_window;

verus! {

/// The inspectors as they are told apart: which flag of the desk and which remembered run
/// state is whose.
pub proof fn lemma_desk_tells_apart(d: Desk, kind: ToolPanelKind)
    ensures
        d.shows(ToolPanelKind::Debugger) == d.debugger_open,
        d.shows(ToolPanelKind::FrameAnalyzer) == d.analyzer_open,
        d.shows(ToolPanelKind::Console) == d.console_open,
        d.restores(ToolPanelKind::Debugger) == d.paused_before_debugger,
        d.restores(ToolPanelKind::FrameAnalyzer) == d.paused_before_analyzer,
        d.restores(ToolPanelKind::Console) == d.paused_before_console,
        d.any_open() <==> d.debugger_open || d.analyzer_open || d.console_open,
        d.layout_active ==> (d.front == Some(kind) && d.shows(kind) ==> d.topmost() == Some(kind)),
        !d.layout_active ==> d.topmost() is None,
        d.layout_active && d.front is None && d.console_open ==> d.topmost() == Some(
            ToolPanelKind::Console,
        ),
        ToolPanelKind::Debugger.name() == "Copperline Debugger"@,
        ToolPanelKind::FrameAnalyzer.name() == "Copperline Frame Analyzer"@,
        ToolPanelKind::Console.name() == "Copperline Console"@,
{
}

/// Opening the first inspector pauses the machine and remembers how it ran; closing the
/// last lets it be as it was then.
pub proof fn lemma_first_inspector_pauses(d: Desk, kind: ToolPanelKind, paused: bool)
    requires
        d.wf(),
        !d.any_open(),
    ensures
        d.opened(kind, paused).1,
        d.opened(kind, paused).0.restores(kind) == paused,
        d.opened(kind, paused).0.closed(kind, true).1 == paused,
        !d.opened(kind, paused).0.closed(kind, true).0.layout_active,
{
    reveal(Desk::opened);
    reveal(Desk::closed);
}

/// Opening an inspector afresh: its own panel starts empty, the debugger and the console
/// record the history and the analyzer the frame; the mouse and the keys are let go.
pub proof fn lemma_opening(o: &App, n: &App, kind: ToolPanelKind)
    requires
        tool_opened(o, n, kind),
        !o.desk.shows(kind),
    ensures
        kind is Debugger ==> n.machine.history_on && n.machine.analyzer_on == o.machine.analyzer_on
            && n.analyzer == o.analyzer && n.console == o.console && (n.debugger matches Some(p)
            && p.tab is Cpu && p.mem_addr == 0 && p.entry@.len() == 0 && !p.entry_active),
        kind is FrameAnalyzer ==> n.machine.analyzer_on && n.machine.history_on
            == o.machine.history_on && n.debugger == o.debugger && n.console == o.console && (
        n.analyzer matches Some(p) && !p.heat_armed && !p.dragging && p.selected_hpos == 0
            && p.selected_vpos == 0),
        kind is Console ==> n.machine.history_on && n.machine.analyzer_on == o.machine.analyzer_on
            && n.debugger == o.debugger && n.analyzer == o.analyzer && (n.console matches Some(p)
            && p.input@.len() == 0 && p.output@.len() == 0 && p.history@.len() == 0),
        n.guest.idle(),
        n.machine.memory == o.machine.memory && n.machine.regs == o.machine.regs
            && n.machine.breaks == o.machine.breaks,
        n.fx@[o.fx@.len() as int] == Effect::<Seq<char>>::SuspendMouse,
        n.fx@.last() == Effect::<Seq<char>>::Redraw,
        !o.desk.layout_active ==> n.fx@[n.fx@.len() - 2] == Effect::<Seq<char>>::EnterWorkspace,
{
    reveal(crate::guest::drop_effects);
}

/// Closing an inspector ends its own recording, the history only when neither inspector
/// that shows it is left; closing the debugger forgets the last stop.
pub proof fn lemma_closing(o: &App, n: &App, kind: ToolPanelKind)
    requires
        tool_closed(o, n, kind),
        o.desk.shows(kind),
    ensures
        kind is Debugger ==> n.debugger is None && n.last_debug_stop is None && n.machine.analyzer_on
            == o.machine.analyzer_on && n.machine.history_on == (o.machine.history_on
            && o.desk.console_open),
        kind is FrameAnalyzer ==> n.analyzer is None && !n.machine.analyzer_on && n.last_debug_stop
            == o.last_debug_stop,
        kind is Console ==> n.console is None && n.last_debug_stop == o.last_debug_stop
            && n.machine.history_on == (o.machine.history_on && o.desk.debugger_open),
        !(kind is Debugger) ==> n.debugger == o.debugger,
        !(kind is FrameAnalyzer) ==> n.analyzer == o.analyzer,
        !(kind is Console) ==> n.console == o.console,
        n.machine.breaks == o.machine.breaks && n.machine.memory == o.machine.memory,
        n.fx@.last() == Effect::<Seq<char>>::Redraw,
        kind is FrameAnalyzer ==> (o.analyzer matches Some(p) ==> (p.heat_armed
            ==> n.fx@[o.fx@.len() as int] == Effect::<Seq<char>>::ReleaseHeatMap)),
{
    crate::desk::lemma_close_hides(o.desk, kind, o.session.paused);
}

/// Returning to play leaves every inspector as it is, with the keys let go and the mouse
/// given back.
pub proof fn lemma_returning_to_play(o: &App, n: &App)
    requires
        workspace_left(o, n),
    ensures
        !n.desk.layout_active,
        n.desk.debugger_open == o.desk.debugger_open && n.desk.analyzer_open
            == o.desk.analyzer_open && n.desk.console_open == o.desk.console_open,
        n.debugger == o.debugger && n.analyzer == o.analyzer && n.console == o.console,
        n.session == o.session && n.machine == o.machine,
        o.desk.layout_active ==> !n.desk.guest_input && n.guest.idle() && n.fx@[o.fx@.len() as int]
            == Effect::<Seq<char>>::SavePreferences && n.fx@.last() == Effect::<
            Seq<char>,
        >::Redraw,
{
}

/// The window keeps its own shortcuts while inspectors are up: these letters with the host
/// key, the digits, and four marks with shift; not the two that edit text while text is
/// edited on a Mac.
pub proof fn lemma_window_shortcuts(c: char, d: u8, m: HostModifiers, editing: bool)
    ensures
        !m.host ==> !shortcut_of_window(HostKey::Letter(c), m, editing) && !shortcut_of_window(
            HostKey::Digit(d),
            m,
            editing,
        ),
        m.host && d <= 9 ==> shortcut_of_window(HostKey::Digit(d), m, editing),
        m.host && (c == 'B' || c == 'D' || c == 'E' || c == 'F' || c == 'J' || c == 'K' || c == 'M'
            || c == 'P' || c == 'Q' || c == 'R' || c == 'S' || c == 'W') ==> shortcut_of_window(
            HostKey::Letter(c),
            m,
            editing,
        ),
        m.host && (c == 'A' || c == 'Z') ==> (shortcut_of_window(HostKey::Letter(c), m, editing)
            <==> !(editing && m.mac)),
        m.host ==> (shortcut_of_window(HostKey::Letter('L'), m, editing) <==> m.shift),
        m.host && (c == 'C' || c == 'G' || c == 'H' || c == 'I' || c == 'N' || c == 'O' || c == 'T'
            || c == 'U' || c == 'V' || c == 'X' || c == 'Y') ==> !shortcut_of_window(
            HostKey::Letter(c),
            m,
            editing,
        ),
        m.host ==> (shortcut_of_window(HostKey::Equal, m, editing) <==> m.shift),
        m.host ==> (shortcut_of_window(HostKey::Minus, m, editing) <==> m.shift),
        m.host ==> (shortcut_of_window(HostKey::Period, m, editing) <==> m.shift),
        m.host ==> (shortcut_of_window(HostKey::Comma, m, editing) <==> m.shift),
        !shortcut_of_window(HostKey::Other, m, editing),
{
}

/// A title bar is within reach where a handle of it, a hundred and sixty by sixty-four, lies
/// on the monitor.
pub proof fn lemma_title_bar(x: i32, y: i32, mx: i32, my: i32, w: u32, h: u32)
    ensures
        bar_on((x, y), (mx, my), (w, h)) <==> mx <= x && x + 160 <= mx + w && my <= y && y + 64
            <= my + h,
{
}

/// A window is moved no further than onto its monitor: to the near side where it sticks out
/// there or does not fit, to the far side where it sticks out there.
pub proof fn lemma_windows_are_kept(
    at: int,
    origin: int,
    extent: int,
    wanted: int,
    near: int,
    far: int,
)
    ensures
        at < origin + near ==> kept_on(at, origin, extent, wanted, near, far) == origin + near,
        wanted + near + far > extent ==> kept_on(at, origin, extent, wanted, near, far) == origin
            + near,
        wanted + near + far <= extent && at > origin + extent - wanted - far ==> kept_on(
            at,
            origin,
            extent,
            wanted,
            near,
            far,
        ) == origin + extent - wanted - far,
{
}

/// Without inspectors, or under the menu, every event is the window's; with them the
/// handover key and the window's own shortcuts come first, and input goes to whoever has it.
pub proof fn lemma_routes(
    o: &App,
    n: &App,
    e: WorkspaceEvent,
    m: HostModifiers,
    editing: bool,
    menu: bool,
    r: Route,
    k: HostKey,
)
    requires
        routed(o, n, e, m, editing, menu, r),
    ensures
        !o.desk.layout_active || menu ==> r is Main && *n == *o,
        o.desk.layout_active && !menu && e is Lifecycle ==> r == (Route::Inspectors {
            consumed: false,
        }) && *n == *o,
        o.desk.layout_active && !menu ==> (e matches WorkspaceEvent::Key { key, pressed, repeat }
            ==> {
            &&& m.host && key == HostKey::Letter('G') && pressed && !repeat ==> r is Taken
                && n.desk.guest_input == !o.desk.guest_input
            &&& m.host && key == HostKey::Letter('G') && (!pressed || repeat) ==> r is Taken && *n
                == *o
            &&& !m.host && !o.desk.guest_input ==> r == (Route::Inspectors { consumed: true })
                && *n == *o
            &&& !m.host && o.desk.guest_input ==> r is Main && *n == *o
        }),
        o.desk.layout_active && !menu && o.desk.guest_input && !o.guest.mouse_captured ==> (
        e matches WorkspaceEvent::MousePress { inside } ==> (!inside ==> r == (Route::Inspectors {
            consumed: true,
        }) && !n.desk.guest_input)),
        o.desk.layout_active && !menu && o.desk.guest_input ==> (
        e matches WorkspaceEvent::MousePress { inside } ==> (inside ==> r is Main && *n == *o)),
{
}

/// Giving the input to the guest takes the mouse where the guest has one and hides the
/// focus; taking it back lets every key and button go.
pub proof fn lemma_handovers(o: &App, n: &App, m: &App)
    ensures
        given(o, n) ==> n.desk.guest_input && !n.ui.nav.showing && n.guest.mouse_captured == (
        o.guest.mouse_captured || o.guest.mouse_port) && n.session == o.session,
        given(o, n) && o.guest.mouse_port ==> n.fx@[o.fx@.len() as int + 1] == Effect::<
            Seq<char>,
        >::CaptureMouse(true),
        taken_back(o, m) ==> !m.desk.guest_input && m.guest.idle() && !m.guest.mouse_captured
            && !m.guest.joystick_held && m.session == o.session,
{
}

proof fn lemma_releases(held: Seq<bool>, n: int, k: int)
    requires
        0 <= k < n <= 128,
        held.len() == 128,
    ensures
        held[k] ==> key_releases(held, n).contains(Effect::ReleaseRawKey(k as u8)),
        !held[k] ==> !key_releases(held, n).contains(Effect::ReleaseRawKey(k as u8)),
    decreases n,
{
    let front = key_releases(held, n - 1);
    let all = key_releases(held, n);
    if k < n - 1 {
        lemma_releases(held, n - 1, k);
        if held[k] {
            let i = choose|i: int|
                0 <= i < front.len() && front[i] == Effect::<Seq<char>>::ReleaseRawKey(k as u8);
            assert(all[i] == Effect::<Seq<char>>::ReleaseRawKey(k as u8));
        } else if all.contains(Effect::ReleaseRawKey(k as u8)) {
            let i = choose|i: int|
                0 <= i < all.len() && all[i] == Effect::<Seq<char>>::ReleaseRawKey(k as u8);
            if i < front.len() {
                assert(front[i] == Effect::<Seq<char>>::ReleaseRawKey(k as u8));
            }
        }
    } else {
        if held[k] {
            assert(all[front.len() as int] == Effect::<Seq<char>>::ReleaseRawKey(k as u8));
        } else {
            lemma_no_later_release(held, n - 1, k);
        }
    }
}

proof fn lemma_no_later_release(held: Seq<bool>, n: int, k: int)
    requires
        0 <= n <= k < 128,
    ensures
        !key_releases(held, n).contains(Effect::ReleaseRawKey(k as u8)),
    decreases n,
{
    if n > 0 {
        lemma_no_later_release(held, n - 1, k);
        let front = key_releases(held, n - 1);
        let all = key_releases(held, n);
        if all.contains(Effect::ReleaseRawKey(k as u8)) {
            let i = choose|i: int|
                0 <= i < all.len() && all[i] == Effect::<Seq<char>>::ReleaseRawKey(k as u8);
            if i < front.len() {
                assert(front[i] == Effect::<Seq<char>>::ReleaseRawKey(k as u8));
            }
        }
    }
}

/// Letting the input go releases every key that is held and no other, the mouse, and the
/// joystick where it was held.
pub proof fn lemma_everything_held_is_released(g: GuestInput, with_guest: bool, k: int)
    requires
        g.wf(),
        0 <= k < 128,
    ensures
        drop_effects(&g, with_guest)[0] == Effect::<Seq<char>>::CaptureMouse(false),
        g.held@[k] ==> drop_effects(&g, with_guest).contains(Effect::ReleaseRawKey(k as u8)),
        !g.held@[k] ==> !drop_effects(&g, with_guest).contains(Effect::ReleaseRawKey(k as u8)),
        g.joystick_held ==> drop_effects(&g, with_guest).last() == Effect::<
            Seq<char>,
        >::PumpJoystick,
        with_guest && !g.mouse_captured ==> drop_effects(&g, with_guest)[1] == Effect::<
            Seq<char>,
        >::ReleaseMouseButtons,
{
    reveal(crate::guest::drop_effects);
    lemma_releases(g.held@, 128, k);
    let keys = key_releases(g.held@, 128);
    let all = drop_effects(&g, with_guest);
    let start: int = if with_guest && !g.mouse_captured {
        2
    } else {
        1
    };
    assert(forall|i: int| 0 <= i < keys.len() ==> #[trigger] all[start + i] == keys[i]);
    if g.held@[k] {
        let i = choose|i: int|
            0 <= i < keys.len() && keys[i] == Effect::<Seq<char>>::ReleaseRawKey(k as u8);
        assert(all[start + i] == Effect::<Seq<char>>::ReleaseRawKey(k as u8));
    } else if all.contains(Effect::ReleaseRawKey(k as u8)) {
        let i = choose|i: int|
            0 <= i < all.len() && all[i] == Effect::<Seq<char>>::ReleaseRawKey(k as u8);
        if start <= i < start + keys.len() {
            assert(keys[i - start] == Effect::<Seq<char>>::ReleaseRawKey(k as u8));
        }
    }
}

/// An inspector's own window: a key or the focus brings it to the front, closing it closes
/// the inspector, a press works what is under the pointer, and dragging over the analyzer
/// picks as it goes.
pub proof fn lemma_tool_windows(o: &App, n: &App, kind: ToolPanelKind, e: ToolEvent, step: ToolStep)
    requires
        tool_event_did(&fronted(o, kind, e), n, kind, e, step),
    ensures
        e is Key ==> n.desk.front == Some(kind),
        e == ToolEvent::Focused(true) ==> n.desk.front == Some(kind) && step is Nothing,
        e == ToolEvent::Focused(false) ==> *n == *o && step is Nothing,
        e matches ToolEvent::Key { pressed, stale, quits } ==> {
            &&& !pressed || stale ==> step is Nothing
            &&& pressed && !stale && quits ==> step is Quit
            &&& pressed && !stale && !quits ==> step is Key
        },
        e matches ToolEvent::Mouse { left, pressed, control } ==> {
            &&& left && pressed ==> (control matches Some(c) ==> step == ToolStep::Activate(c))
            &&& !left || !pressed || control is None ==> step is Nothing
            &&& !left || !(kind is FrameAnalyzer) ==> *n == *o
        },
        e matches ToolEvent::CursorMoved { inside, hover_changed } ==> {
            &&& kind is FrameAnalyzer && inside && (o.analyzer matches Some(p) && p.dragging)
                ==> step is PickUnderPointer
            &&& !(kind is FrameAnalyzer) || !inside ==> step is Nothing
            &&& n.fx@.len() == o.fx@.len() + (if hover_changed {
                1int
            } else {
                0
            })
        },
        e is Redraw ==> step is Draw && *n == *o,
        e is Resized ==> step is Resize,
        e is Scale ==> step is Rescale && n.fx@.last() == Effect::<Seq<char>>::Redraw,
        e is Other ==> *n == *o && step is Nothing,
{
}

/// Scrolling back over kept lines stays between the newest and the oldest.
pub proof fn lemma_console_scrolls(at: int, rows: int, kept: int)
    requires
        0 <= at <= kept,
    ensures
        0 <= at - rows <= kept ==> scrolled_back(at, rows, kept) == at - rows,
        at - rows < 0 ==> scrolled_back(at, rows, kept) == 0,
        at - rows > kept ==> scrolled_back(at, rows, kept) == kept,
{
}

/// The prompt's history is looked through a line at a time: older from the newest, newer
/// back to an empty prompt, and no further than the oldest.
pub proof fn lemma_history_is_recalled(lines: nat, at: usize)
    ensures
        lines > 0 ==> recalled(None, lines, true) == Some(lines - 1),
        lines == 0 ==> recalled(None, lines, true) is None,
        recalled(None, lines, false) is None,
        recalled(Some(0), lines, true) == Some(0int),
        at > 0 ==> recalled(Some(at), lines, true) == Some(at - 1),
        at + 1 < lines ==> recalled(Some(at), lines, false) == Some(at + 1),
        at + 1 >= lines ==> recalled(Some(at), lines, false) is None,
{
}

/// A line is kept once in a row: entering it again leaves the history as it is.
pub proof fn lemma_lines_are_remembered(history: Seq<Seq<char>>, line: Seq<char>)
    ensures
        remembered(history, line).last() == line,
        history.len() > 0 && history.last() == line ==> remembered(history, line) == history,
        history.len() == 0 || history.last() != line ==> remembered(history, line) == history.push(
            line,
        ),
        remembered(remembered(history, line), line) == remembered(history, line),
{
}

/// Entering a line empties the prompt, scrolls to the newest, and shows and remembers the
/// line without the space around it; an empty one is neither shown nor remembered.
pub proof fn lemma_entering(p: ConsolePanel, q: ConsolePanel)
    requires
        p.entered(&q),
    ensures
        q.input@.len() == 0 && q.scroll == 0 && q.history_pos is None,
        crate::text::trimmed(p.input@).len() == 0 ==> texts(q.output@) == texts(p.output@) && texts(
            q.history@,
        ) == texts(p.history@),
        crate::text::trimmed(p.input@).len() > 0 ==> texts(q.output@).last() == "> "@
            + crate::text::trimmed(p.input@) && texts(q.history@).last() == crate::text::trimmed(
            p.input@,
        ) && q.output@.len() == p.output@.len() + 1,
{
    assert(texts(q.output@).len() == q.output@.len());
    assert(texts(p.output@).len() == p.output@.len());
}

/// What a command prints is added to the page, or is all of it where the page was cleared;
/// a command that closes the console closes it.
pub proof fn lemma_printing(
    o: &App,
    n: &App,
    lines: Seq<Seq<char>>,
    clear: bool,
    p: ConsolePanel,
)
    requires
        applied(o, n, lines, clear, false),
        o.console == Some(p),
    ensures
        n.console matches Some(q) && q.input == p.input && q.history == p.history && texts(
            q.output@,
        ) == (if clear {
            lines
        } else {
            texts(p.output@) + lines
        }),
        n.session == o.session && n.machine == o.machine,
        prompt_line(o) is Some <==> crate::text::trimmed(p.input@).len() > 0,
{
}

proof fn lemma_newlined_plain(s: Seq<char>)
    requires
        !s.contains('\r'),
    ensures
        newlined(s) == s,
    decreases s.len(),
{
    if s.len() > 0 {
        assert(s[0] != '\r');
        let t = s.skip(1);
        assert(!t.contains('\r')) by {
            if t.contains('\r') {
                let i = choose|i: int| 0 <= i < t.len() && t[i] == '\r';
                assert(s[i + 1] == '\r');
            }
        }
        lemma_newlined_plain(t);
        assert(seq![s[0]] + t =~= s);
    } else {
        assert(newlined(s) =~= s);
    }
}

/// Pasted line ends of any kind become plain ones, a pair of them one; the rest of the text
/// stays.
pub proof fn lemma_pasted_line_ends(s: Seq<char>)
    ensures
        !s.contains('\r') ==> newlined(s) == s,
        newlined(seq!['\r', '\n'] + s) == seq!['\n'] + newlined(s),
        (s.len() == 0 || s[0] != '\n') ==> newlined(seq!['\r'] + s) == seq!['\n'] + newlined(s),
        newlined(seq!['\n'] + s) == seq!['\n'] + newlined(s),
{
    if !s.contains('\r') {
        lemma_newlined_plain(s);
    }
    let a = seq!['\r', '\n'] + s;
    assert(a.skip(2) =~= s);
    let b = seq!['\r'] + s;
    assert(b.skip(1) =~= s);
    let c = seq!['\n'] + s;
    assert(c.skip(1) =~= s);
}

/// Typed text reaches the prompt without what cannot be printed.
pub proof fn lemma_printable_text(s: Seq<char>, c: char)
    ensures
        ' ' <= c <= '~' ==> printable_part(s.push(c)) == printable_part(s).push(c),
        !(' ' <= c <= '~') ==> printable_part(s.push(c)) == printable_part(s),
        printable_part(Seq::empty()).len() == 0,
{
    reveal(Seq::filter);
    assert(s.push(c).drop_last() =~= s);
}

proof fn lemma_bare_plain(s: Seq<char>)
    requires
        !s.contains('\r'),
    ensures
        bare_lines(s) == s,
    decreases s.len(),
{
    if s.len() > 0 {
        let t = s.drop_last();
        assert(!t.contains('\r')) by {
            if t.contains('\r') {
                let i = choose|i: int| 0 <= i < t.len() && t[i] == '\r';
                assert(s[i] == '\r');
            }
        }
        if t.len() > 0 {
            assert(t.last() == s[t.len() - 1]);
        }
        assert(trimmed(t) == t);
        lemma_bare_plain(t);
        assert(t.push(s.last()) =~= s);
    } else {
        assert(bare_lines(s) =~= s);
    }
}

/// Text that differs in more than its line ends is news to the guest, and any text is where
/// none was seen; the host's line ends go out as a pair where the host wants one.
pub proof fn lemma_different_text_is_news(seen: Seq<char>, text: Seq<char>, s: Seq<char>, c: char)
    ensures
        !seen.contains('\r') && !text.contains('\r') && seen != text ==> is_news(Some(seen), text),
        is_news(None, text),
        host_lines(s.push('\n'), true) == host_lines(s, true).push('\r').push('\n'),
        host_lines(s.push('\n'), false) == host_lines(s, false).push('\n'),
        c != '\n' ==> host_lines(s.push(c), true) == host_lines(s, true).push(c),
{
    if !seen.contains('\r') && !text.contains('\r') {
        lemma_bare_plain(seen);
        lemma_bare_plain(text);
    }
    assert(s.push('\n').drop_last() =~= s);
    assert(s.push(c).drop_last() =~= s);
}

} // verus!
