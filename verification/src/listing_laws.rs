//! What is said and listed: the lines that answer a command, the texts of the analyzer's
//! pages, and how work that comes in turns is done one at a time.

use vstd::prelude::*;

use crate::actions::Action;
use crate::actions::ActionStep;
use crate::actions::acted;
use crate::actions::dispatched;
use crate::analyzer::BusRecord;
use crate::analyzer::is_dominant;
use crate::analyzer::occurrences;
use crate::analyzer::wait_codes;
use crate::analyzer_pages::BeamView;
use crate::analyzer_pages::HeatView;
use crate::analyzer_pages::PinnedCell;
use crate::analyzer_pages::beam_heading;
use crate::analyzer_pages::beam_place;
use crate::analyzer_pages::beam_texts;
use crate::analyzer_pages::heat_end;
use crate::analyzer_pages::heat_texts;
use crate::analyzer_pages::pinned_text;
use crate::analyzer_pages::selected_text;
use crate::answers::Writer;
use crate::answers::trace_line;
use crate::answers::trace_stop_line;
use crate::answers::wave_stop_line;
use crate::answers::writer_line;
use crate::app::App;
use crate::beam_figures::Counter;
use crate::beam_figures::CounterRow;
use crate::beam_figures::Counters;
use crate::beam_figures::counter_pieces;
use crate::beam_figures::detail_pieces;
use crate::beam_figures::is_counter_row;
use crate::captures::GifCapture;
use crate::captures::which;
use crate::clipboard::SharedClipboard;
use crate::dumps::WaveStatus;
use crate::dumps::custom_text;
use crate::dumps::register_cell;
use crate::dumps::register_row;
use crate::dumps::wave_text;
use crate::effects::Effect;
use crate::entry::Key;
use crate::gdb::GdbGui;
use crate::gdb_session::GdbMsg;
use crate::gdb_session::PacketStep;
use crate::gdb_session::disconnected;
use crate::gdb_session::drained;
use crate::gdb_session::message_taken;
use crate::gdb_session::stepped_aside;
use crate::gdb_session::watches_regs;
use crate::keys::KeyPress;
use crate::keys::KeyStep;
use crate::lexicon::Lexicon;
use crate::machine::Machine;
use crate::memedit::MemEvent;
use crate::memedit::ending;
use crate::memedit::live_keys;
use crate::memedit::refusal;
use crate::menu::Menu;
use crate::menu::row_at;
use crate::nav::Dir;
use crate::nav::NavItem;
use crate::nav::NavTarget;
use crate::netplay::NetplaySession;
use crate::netplay::holds_buttons;
use crate::netplay_steps::restarted;
use crate::number::digits_of;
use crate::number::hex;
use crate::power::console_mirrors;
use crate::saves::Loaded;
use crate::session::BootOutcome;
use crate::session::LaunchOutcome;
use crate::session::Session;
use crate::sheets::Piece;
use crate::states::failed_line;
use crate::states::listed_loaded;
use crate::text::texts;
use crate::text::trim_end;
use crate::ui::NavStep;
use crate::ui::Panel;
use crate::ui::Ui;
use crate::workspace::Monitor;
use crate::workspace::some_shows;

verus! {

/// Whatever an inspector asked for, the picture is drawn again last.
pub proof fn lemma_actions_are_drawn(o: &App, n: &App, a: Action, step: ActionStep)
    requires
        acted(o, n, a, step),
    ensures
        n.fx@.len() > 0,
        n.fx@.last() == Effect::<Seq<char>>::Redraw,
{
}

/// A frame's actions are done one after the other, each on what the one before left; all
/// but the last of them were done with.
pub proof fn lemma_actions_in_turn(
    o: App,
    n: App,
    actions: Seq<Action>,
    from: int,
    to: int,
    step: ActionStep,
) -> (mid: App)
    requires
        dispatched(o, n, actions, from, to, step),
    ensures
        to <= from ==> n == o && step is Done,
        to > from ==> dispatched(o, mid, actions, from, to - 1, ActionStep::Done) && acted(
            &mid,
            &n,
            actions[to - 1],
            step,
        ),
{
    if to > from {
        choose|mid: App|
            #![trigger acted(&mid, &n, actions[to - 1], step)]
            dispatched(o, mid, actions, from, to - 1, ActionStep::Done) && acted(
                &mid,
                &n,
                actions[to - 1],
                step,
            )
    } else {
        o
    }
}

/// A client's messages are taken one after the other, each on what the one before left.
pub proof fn lemma_messages_in_turn(
    o: App,
    n: App,
    msgs: Seq<GdbMsg>,
    from: int,
    to: int,
    step: PacketStep,
) -> (mid: App)
    requires
        drained(o, n, msgs, from, to, step),
    ensures
        to <= from ==> n == o && step is Answered,
        to > from ==> drained(o, mid, msgs, from, to - 1, PacketStep::Answered) && message_taken(
            &mid,
            &n,
            msgs[to - 1],
            step,
        ),
{
    if to > from {
        choose|mid: App|
            #![trigger message_taken(&mid, &n, msgs[to - 1], step)]
            drained(o, mid, msgs, from, to - 1, PacketStep::Answered) && message_taken(
                &mid,
                &n,
                msgs[to - 1],
                step,
            )
    } else {
        o
    }
}

/// A client that detaches is answered first and then let go; one that profiles steps aside
/// with its points, and keeps its requests.
pub proof fn lemma_detaching_and_profiling(o: &App, n: &App, g: GdbGui, h: GdbGui)
    requires
        o.gdb == Some(g),
        n.gdb == Some(h),
    ensures
        disconnected(o, n) ==> !h.pending && n.session.paused == o.session.paused && n.fx@.last()
            == Effect::<Seq<char>>::Redraw && n.fx@[n.fx@.len() - 2] == Effect::Osd(
            "GDB client detached"@,
        ),
        stepped_aside(o, n) ==> h.core == g.core && h.pending == g.pending && n.session == o.session
            && n.machine.memory == o.machine.memory && n.machine.regs == o.machine.regs,
{
}

/// Changing a client's register watches changes nothing else of it.
pub proof fn lemma_register_watches_alone(g: GdbGui, h: GdbGui, regs: Seq<u16>)
    requires
        watches_regs(Some(g), Some(h), regs),
    ensures
        h.core.reg_watches@ == regs,
        h.core.breakpoints == g.core.breakpoints && h.core.watch_words == g.core.watch_words,
        h.core.run_stop == g.core.run_stop && h.core.console == g.core.console,
        h.breaks == g.breaks && h.pending == g.pending,
{
}

/// What the processor waited for most is what no other code was counted more often than.
pub proof fn lemma_dominant_wait(row: Seq<u8>, k: int, j: int)
    requires
        is_dominant(row, k),
        0 <= j < 9,
    ensures
        0 <= k < 9,
        occurrences(row, wait_codes()[j]) <= occurrences(row, wait_codes()[k]),
{
    assert(occurrences(row, wait_codes()[j]) <= occurrences(row, wait_codes()[k]));
}

/// The beam's page: how to get a frame where there is none; else the frame, the marks'
/// legend, the line, the slot, and where the pointer is, or the slot without one.
pub proof fn lemma_beam_page(t: BeamView, p: (u32, u32))
    ensures
        beam_texts(None, Some(p)).len() == 1,
        t.rows > 0 && t.cols > 0 ==> {
            let a = beam_texts(Some(t), Some(p));
            &&& a.len() == 5
            &&& a[0] == Piece::<Seq<char>>::Text(beam_heading(&t))
            &&& a[2] == Piece::<Seq<char>>::Text(
                "Scanline "@ + digits_of(t.selected_vpos as nat, 10)
                    + " \u{b7} click or drag to select a colour clock"@,
            )
            &&& a[3] == Piece::<Seq<char>>::Text(selected_text(&t))
            &&& a[4] == Piece::<Seq<char>>::Text(
                "Pointer "@ + beam_place(p.0 as int, p.1 as int),
            )
            &&& beam_texts(Some(t), None)[4] == Piece::<Seq<char>>::Text(
                "Pointer "@ + beam_place(t.selected_vpos as int, t.selected_hpos as int),
            )
        },
        t.rows == 0 || t.cols == 0 ==> beam_texts(Some(t), Some(p)).len() == 0,
        t.partial ==> beam_heading(&t) == "Frame "@ + digits_of(t.frame as nat, 10) + " \u{b7} "@
            + t.seconds@ + "s \u{b7} "@ + digits_of(t.rows as nat, 10) + " lines \u{d7} "@
            + digits_of(t.line_cck as nat, 10) + " colour clocks"@ + " \u{b7} partial"@,
{
}

/// The heat map's page says that there is none, or what it covers and how it fades; a pinned
/// cell what touched it last and how long ago.
pub proof fn lemma_heat_page(h: HeatView, decay: u64, p: PinnedCell)
    ensures
        heat_texts(None, decay).len() == 1,
        heat_texts(Some(h), decay).len() == 2,
        heat_texts(Some(h), decay)[0] == Piece::<Seq<char>>::Text(
            "Frame "@ + digits_of(h.frame as nat, 10) + " \u{b7} $"@ + hex(h.base as int, 8)
                + "\u{2013}$"@ + hex(heat_end(h), 8) + " \u{b7} "@ + digits_of(
                h.bytes_per_cell as nat,
                10,
            ) + " bytes/cell"@,
        ),
        heat_texts(Some(h), decay)[1] == Piece::<Seq<char>>::Text(
            "Last access to each block, fading over "@ + digits_of(decay as nat, 10) + " frames"@,
        ),
        p.toucher matches Some(t) ==> (p.age matches Some(age) ==> pinned_text(p) == "Pinned: "@
            + p.range@ + " \u{b7} "@ + t@ + (" \u{b7} "@ + digits_of(age as nat, 10)
            + " frames ago"@)),
        p.toucher is None ==> (p.age matches Some(age) ==> pinned_text(p) == "Pinned: "@ + p.range@
            + " \u{b7} "@ + "untouched"@ + (" \u{b7} "@ + digits_of(age as nat, 10)
            + " frames ago"@)),
{
}

/// The counters under the table: the waits with their kinds and the most stalled places,
/// or the blitter's share while it was busy, and nothing where it was not.
pub proof fn lemma_counters_page(c: Counters, share: Seq<char>, i: int)
    ensures
        counter_pieces(true, c, share)[0] == Piece::<Seq<char>>::Text(
            digits_of(c.wait_cck as nat, 10) + " clocks waiting ("@ + share + "%)"@,
        ),
        0 <= i < c.wait_by_kind@.len() ==> counter_pieces(true, c, share)[1 + i] == Piece::<
            Seq<char>,
        >::Text(
            c.wait_by_kind@[i].name@ + ": "@ + digits_of(c.wait_by_kind@[i].count as nat, 10),
        ),
        counter_pieces(true, c, share)[1 + c.wait_by_kind@.len() as int] == Piece::<Seq<char>>::Text(
            "Most stalled PCs"@,
        ),
        c.blitter_busy_cck == 0 ==> counter_pieces(false, c, share).len() == 0,
        c.blitter_busy_cck > 0 ==> counter_pieces(false, c, share)[0] == Piece::<Seq<char>>::Text(
            "Blitter grant: "@ + share + "%"@,
        ),
{
}

/// A row of the table is its code, its name, its count and its share.
pub proof fn lemma_counter_rows(r: CounterRow, code: char, c: Counter, share: Seq<char>)
    requires
        is_counter_row(r, code, c, share),
    ensures
        r.code == code,
        r.name@ == c.name@,
        r.count@ == digits_of(c.count as nat, 10),
        r.share@ == share + "%"@,
{
}

/// The slot's own lines: where it is and whose it was, then its record, then its markers.
pub proof fn lemma_slot_detail(
    v: int,
    h: int,
    owner: Seq<char>,
    b: Option<BusRecord>,
    events: Seq<char>,
    markers: Seq<String>,
)
    ensures
        detail_pieces(v, h, owner, b, events, markers)[0] == Piece::<Seq<char>>::Text(
            "Inspect "@ + beam_place(v, h) + " \u{b7} "@ + owner,
        ),
        b is None && markers.len() <= 8 ==> detail_pieces(v, h, owner, b, events, markers).len() == 1
            + markers.len(),
{
}

/// The last write to a word is told with what it changed, who wrote it and when; one that is
/// not known is told as such.
pub proof fn lemma_writers(
    at: u32,
    before: u16,
    after: u16,
    pc: u32,
    frame: u64,
    addr: u32,
    mask: u32,
)
    ensures
        writer_line(addr, mask, Writer::Found { addr: at, before, after, pc, frame }) == "$"@ + hex(
            at as int,
            6,
        ) + ": "@ + hex(before as int, 4) + "->"@ + hex(after as int, 4) + " by pc $"@ + hex(
            (pc & mask) as int,
            6,
        ) + " (frame "@ + digits_of(frame as nat, 10) + ")"@,
        writer_line(addr, mask, Writer::NotFound) == "no write to $"@ + hex(addr as int, 6)
            + " in retained history"@,
        writer_line(addr, mask, Writer::BeyondHistory) == "write to $"@ + hex(addr as int, 6)
            + " predates history"@,
        trace_line(None) == "no trace running (TRACE START [PATH])"@,
        trace_stop_line(None) == "no trace running"@,
        wave_stop_line(None) == "no waveform capture"@,
{
}

/// A waveform that captures says how far it is, one that is done how much it has, and any
/// other only what it waits for.
pub proof fn lemma_wave_lines(s: WaveStatus)
    ensures
        wave_text(&s)[0] == "waveform "@ + s.state@ + ": trigger "@ + s.trigger@ + ", duration "@
            + s.duration@ + ", signals "@ + s.signals@,
        wave_text(&s)[1] == "  -> "@ + s.path@,
        s.state@ == "capturing"@ ==> wave_text(&s).len() == 3,
        s.state@ == "done"@ ==> wave_text(&s).len() == 3 && wave_text(&s)[2] == "  "@ + digits_of(
            s.captured_cck as nat,
            10,
        ) + " cck captured, "@ + digits_of(s.samples as nat, 10) + " samples"@,
        s.state@ != "capturing"@ && s.state@ != "done"@ ==> wave_text(&s).len() == 2,
{
    reveal_strlit("capturing");
    reveal_strlit("done");
    assert("capturing"@.len() != "done"@.len());
}

/// The custom registers are shown three to a row, in order, under where the beam is.
pub proof fn lemma_custom_page(m: &Machine, values: Seq<Option<u16>>, lex: &Lexicon, row: int)
    requires
        0 <= row < 3,
        values.len() == 9,
    ensures
        custom_text(m, values, lex).len() == 4,
        custom_text(m, values, lex)[row + 1] == register_row(values, lex, row),
        custom_text(m, values, lex)[0] == "beam v"@ + digits_of(m.vpos as nat, 10) + " h"@
            + digits_of(m.hpos as nat, 10) + "  frame "@ + digits_of(m.frames as nat, 10),
        register_row(values, lex, 0) == trim_end(
            register_cell(0x002, values[0], lex) + register_cell(0x010, values[1], lex)
                + register_cell(0x01C, values[2], lex),
        ),
        register_row(values, lex, 1) == trim_end(
            register_cell(0x01E, values[3], lex) + register_cell(0x096, values[4], lex)
                + register_cell(0x100, values[5], lex),
        ),
        register_row(values, lex, 2) == trim_end(
            register_cell(0x102, values[6], lex) + register_cell(0x104, values[7], lex)
                + register_cell(0x108, values[8], lex),
        ),
{
}

/// What is picked of the scheduled clips is each one that is due, once and in order.
pub proof fn lemma_picked_clips(
    s: Seq<GifCapture>,
    p: spec_fn(GifCapture) -> bool,
    r: Seq<usize>,
    k: int,
    l: int,
    i: int,
)
    requires
        which(s, p, r),
    ensures
        0 <= k < r.len() ==> r[k] < s.len() && p(s[r[k] as int]),
        0 <= k < l < r.len() ==> r[k] < r[l],
        0 <= i < s.len() && p(s[i]) ==> exists|k: int| 0 <= k < r.len() && #[trigger] r[k] == i,
{
}

/// The shared clipboard is looked at when its time has come, and at first at once.
pub proof fn lemma_clipboard_polls(c: SharedClipboard, now: u64, at: u64)
    ensures
        c.next_poll is None ==> c.poll_due(now),
        c.next_poll == Some(at) ==> (c.poll_due(now) <==> now >= at),
{
}

/// A window's place is kept where any monitor shows its title bar.
pub proof fn lemma_monitors_show(monitors: Seq<Monitor>, x: i32, y: i32, i: int)
    ensures
        0 <= i < monitors.len() && monitors[i].position.0 <= x && x + 160
            <= monitors[i].position.0 + monitors[i].size.0 && monitors[i].position.1 <= y && y + 64
            <= monitors[i].position.1 + monitors[i].size.1 ==> some_shows(monitors, (x, y)),
        monitors.len() == 0 ==> !some_shows(monitors, (x, y)),
{
}

/// What the guest logs is added to the open console, marked, line by line.
pub proof fn lemma_guest_log(
    p: crate::app::ConsolePanel,
    q: crate::app::ConsolePanel,
    lines: Seq<Seq<char>>,
    i: int,
)
    requires
        console_mirrors(Some(p), Some(q), lines),
    ensures
        texts(q.output@).len() == texts(p.output@).len() + lines.len(),
        0 <= i < lines.len() ==> texts(q.output@)[texts(p.output@).len() + i] == "DBG: "@
            + lines[i],
        q.input == p.input && q.history == p.history,
{
}

/// The keys before the first Enter or Escape edit the dump; that key ends the editing, and
/// nothing after it counts.
pub proof fn lemma_edit_ends_at_the_first(events: Seq<MemEvent>, k: int)
    requires
        0 <= k <= events.len(),
        forall|j: int|
            0 <= j < k ==> !((#[trigger] events[j]) is Enter) && !(events[j] is Escape),
        k < events.len() ==> events[k] is Enter || events[k] is Escape,
    ensures
        live_keys(events) == events.take(k),
        k < events.len() ==> ending(events) == Some(events[k]),
        k == events.len() ==> ending(events) is None,
    decreases k,
{
    if k > 0 {
        let t = events.skip(1);
        assert(forall|j: int| 0 <= j < k - 1 ==> t[j] == events[j + 1]);
        assert forall|j: int| 0 <= j < k - 1 implies !((#[trigger] t[j]) is Enter) && !(t[j]
            is Escape) by {
            assert(t[j] == events[j + 1]);
        }
        lemma_edit_ends_at_the_first(t, k - 1);
        assert(seq![events[0]] + t.take(k - 1) =~= events.take(k));
    } else {
        assert(live_keys(events) =~= events.take(0));
    }
}

/// A byte that cannot be changed is refused by its address.
pub proof fn lemma_edit_refusals(addr: u32)
    ensures
        refusal(addr) == "$"@ + hex(addr as int, 6)
            + " is read-only (ROM or a device window); not editable"@,
{
}

/// A pointer that is already on a menu's row, or over one that leads to where the menu is,
/// moves nothing; a submenu that it newly rests on starts its wait.
pub proof fn lemma_menu_rests(m: Menu, depth: usize, row: usize)
    ensures
        depth < m.path@.len() && m.path@[depth as int] == row ==> m.rests(depth as int, row),
        depth == m.path@.len() && m.cursor == Some(row) ==> m.rests(depth as int, row),
        depth == m.path@.len() && m.cursor != Some(row) ==> !m.rests(depth as int, row),
        depth < m.path@.len() && m.path@[depth as int] != row ==> !m.rests(depth as int, row),
        m.hover_arm is None && (row_at(m.rows@, m.path@, depth as int, row as int) matches Some(r)
            && r.enabled && r.kind is Submenu) ==> m.arms(depth, row),
        row_at(m.rows@, m.path@, depth as int, row as int) is None ==> !m.arms(depth, row),
{
}

/// Holding buttons changes the buttons that are held, and nothing else of the session.
pub proof fn lemma_held_buttons(o: &App, n: &App, s: NetplaySession, t: NetplaySession, bits: int)
    requires
        o.netplay == Some(s),
        n.netplay == Some(t),
        holds_buttons(o, n, bits),
    ensures
        t.input.buttons == bits,
        t.input.keys == s.input.keys && t.input.left == s.input.left && t.role == s.role && t.port
            == s.port,
        n.session == o.session && n.guest == o.guest,
{
}

/// A machine that the players agreed on starts with nothing held, by the same player on the
/// same port.
pub proof fn lemma_restarts(s: NetplaySession, t: NetplaySession, controller: bool)
    requires
        restarted(Some(s), Some(t), controller),
    ensures
        t.role == s.role && t.port == s.port && t.notice_at == s.notice_at,
        t.input.buttons == 0 && !t.input.left && !t.input.right && !t.input.middle,
        t.keyboard_controller == controller,
{
}

/// What a finished phase says of its end.
pub proof fn lemma_phase_words(target: Seq<char>)
    ensures
        Session::launch_words(LaunchOutcome::Loaded, target) == "Warp launch: "@ + target
            + " running"@,
        Session::launch_words(LaunchOutcome::Finished, target) == "Warp launch: "@ + target
            + " finished"@,
        Session::launch_words(LaunchOutcome::Waiting, target) == "Warp launch: "@ + target
            + " not seen, warp off"@,
        Session::boot_words(BootOutcome::Done) == "Warp boot: done"@,
        Session::boot_words(BootOutcome::Waiting)
            == "Warp boot: storage never settled, warp off"@,
{
}

/// A listed state that could not be loaded leaves the machine as it was.
pub proof fn lemma_listed_failures(
    o: &App,
    n: &App,
    label: Seq<char>,
    name: Seq<char>,
    null_sink: bool,
    dir: bool,
)
    requires
        listed_loaded(o, n, label, name, None::<Loaded>, null_sink, dir),
    ensures
        n.machine == o.machine,
        n.session.powered_on == o.session.powered_on && n.session.paused == o.session.paused,
        dir ==> n.ui.panel == Some(Panel::States { confirm_delete: false }),
        failed_line(label) == label + " failed to load (see log)"@,
{
}

/// What a walk or a press changed is drawn; what went elsewhere is drawn there.
pub proof fn lemma_walks_are_drawn(s: NavStep)
    ensures
        s is Done ==> Ui::walk_redraws(s) && Ui::press_redraws(s),
        s is NotTaken ==> !Ui::walk_redraws(s) && !Ui::press_redraws(s),
        s is Geometry || s is Disk ==> !Ui::walk_redraws(s),
        s is Work ==> Ui::walk_redraws(s) && !Ui::press_redraws(s),
        s is PickRow || s is States ==> Ui::press_redraws(s),
{
}

/// A focus with somewhere to go goes there and is shown; one without is shown where it is.
pub proof fn lemma_focus_moves_on(
    u: Ui,
    items: Seq<NavItem>,
    dir: Dir,
    beyond: Option<NavTarget>,
    in_page: bool,
    now: u64,
)
    requires
        dir is Up || dir is Down,
    ensures
        beyond is Some ==> u.moved_on(items, dir, beyond, in_page, now).nav.focus == beyond
            && u.moved_on(items, dir, beyond, in_page, now).nav.showing,
        beyond is None && u.nav.showing ==> u.moved_on(items, dir, beyond, in_page, now) == u,
        beyond is None && !u.nav.showing && u.nav.focus is Some ==> u.moved_on(
            items,
            dir,
            beyond,
            in_page,
            now,
        ).nav.showing && u.moved_on(items, dir, beyond, in_page, now).nav.focus == u.nav.focus,
        u.moved_on(items, dir, beyond, in_page, now).panel == u.panel,
{
}

/// A key that was for the machine draws nothing, nor one that waits to be bound; Escape and
/// typing do.
pub proof fn lemma_keys_are_drawn(u: Ui, k: KeyPress, step: KeyStep)
    ensures
        u.active() && k.armed ==> u.key_effects(&k, step).len() == 0,
        u.active() && !k.armed && k.key is Escape && u.launcher() is None ==> u.key_effects(
            &k,
            step,
        ) == seq![Effect::<Seq<char>>::Redraw],
        !u.active() && !k.modal && !u.nav.showing ==> u.key_effects(&k, step).len() == 0,
        Ui::focus_redraws(Key::Escape, KeyStep::Done),
        !Ui::focus_redraws(Key::Escape, KeyStep::NotTaken),
{
}

} // verus!
