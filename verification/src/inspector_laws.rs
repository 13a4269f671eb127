//! What the inspectors' keys and controls do: which key asks for what, how far a list or a
//! dump scrolls, and what a control changes and leaves alone.

use vstd::prelude::*;

use crate::actions::Action;
use crate::actions::ActionStep;
use crate::actions::committed;
use crate::actions::did;
use crate::actions::entry_address;
use crate::actions::panel_did;
use crate::actions::panel_follows;
use crate::actions::placed;
use crate::actions::shows_address;
use crate::actions::tool_did;
use crate::app::App;
use crate::app::DebugTab;
use crate::app::DebuggerPanel;
use crate::command::hex32_of;
use crate::command::reg_of;
use crate::controls::AudioExtraKind;
use crate::controls::AudioMix;
use crate::controls::ControlStep;
use crate::controls::UiControl;
use crate::controls::analyzer_did;
use crate::controls::analyzer_host;
use crate::controls::control_used;
use crate::controls::debugger_did;
use crate::controls::debugger_host;
use crate::controls::list_scrolled;
use crate::controls::mute_line;
use crate::controls::mute_toggled;
use crate::controls::picked;
use crate::controls::register_edit;
use crate::controls::resource_picked;
use crate::desk::ToolPanelKind;
use crate::effects::Effect;
use crate::inspector_keys::InspectorKey;
use crate::inspector_keys::KeyDown;
use crate::inspector_keys::KeyFocus;
use crate::inspector_keys::alike;
use crate::inspector_keys::analyzer_hits;
use crate::inspector_keys::analyzer_key_table;
use crate::inspector_keys::console_calls;
use crate::inspector_keys::debugger_keys;
use crate::inspector_keys::edits_memory;
use crate::inspector_keys::entry_enables;
use crate::inspector_keys::has_alike;
use crate::inspector_keys::hit;
use crate::inspector_keys::leaves_dump;
use crate::inspector_keys::letter_hits;
use crate::inspector_keys::letter_table;
use crate::inspector_keys::once_each;
use crate::inspector_keys::plain_hit;
use crate::inspector_keys::scroll_hits;
use crate::inspector_keys::scroll_table;
use crate::memedit::edited;
use crate::number::digits_of;
use crate::number::hex;
use crate::text::trimmed;
use crate::text::words;

verus! {

/// An address shown on a page: code and copper lists at the even address, memory at the
/// sixteen bytes that hold it, as bytes; other pages and settings stay.
pub proof fn lemma_addresses_are_placed(p: DebuggerPanel, q: DebuggerPanel, tab: DebugTab, addr: u32)
    requires
        placed(p, q, tab, addr),
    ensures
        tab is Cpu ==> q.disasm_addr == Some(addr & 0xFFFF_FFFE) && q.mem_addr == p.mem_addr
            && q.copper_addr == p.copper_addr,
        tab is Memory ==> q.mem_addr == addr & 0xFFFF_FFF0 && !q.mem_view_bits && q.disasm_addr
            == p.disasm_addr && q.copper_addr == p.copper_addr && q.mem_last_find is None,
        tab is Copper ==> q.copper_addr == Some(addr & 0xFFFF_FFFE) && q.disasm_addr
            == p.disasm_addr && q.mem_addr == p.mem_addr,
        !(tab is Cpu) && !(tab is Memory) && !(tab is Copper) ==> q == p,
        q.tab == p.tab && q.entry == p.entry,
{
}

/// A link to an address opens the debugger on its page with the address in the entry.
pub proof fn lemma_links_show_the_address(
    p: DebuggerPanel,
    q: DebuggerPanel,
    tab: DebugTab,
    addr: u32,
)
    requires
        shows_address(p, Some(q), tab, addr),
    ensures
        q.tab == tab,
        q.entry@ == hex(addr as int, 8),
        !q.entry_active,
        tab is Memory ==> q.mem_addr == addr & 0xFFFF_FFF0,
        tab is Cpu ==> q.disasm_addr == Some(addr & 0xFFFF_FFFE),
        tab is Copper ==> q.copper_addr == Some(addr & 0xFFFF_FFFE),
{
}

/// The entry is an address on the pages that show one, and nowhere else.
pub proof fn lemma_entries_are_addresses(p: DebuggerPanel)
    ensures
        p.tab is Cpu || p.tab is Memory || p.tab is Copper ==> entry_address(&p) == hex32_of(
            trimmed(p.entry@),
        ),
        !(p.tab is Cpu) && !(p.tab is Memory) && !(p.tab is Copper) ==> entry_address(&p) is None,
{
}

/// Following the processor or the copper lets the page's own address go, and only that.
pub proof fn lemma_following(o: &App, n: &App, p: DebuggerPanel, q: DebuggerPanel, copper: bool)
    requires
        panel_follows(o, n, copper),
        o.debugger == Some(p),
        n.debugger == Some(q),
    ensures
        copper ==> q.copper_addr is None && q.disasm_addr == p.disasm_addr,
        !copper ==> q.disasm_addr is None && q.copper_addr == p.copper_addr,
        q.mem_addr == p.mem_addr && q.tab == p.tab,
        n.machine == o.machine && n.session == o.session,
{
}

/// A dump scrolls by rows of sixteen bytes, or of the bitmap's own width where it shows
/// one, and scrolling back undoes it.
pub proof fn lemma_dump_scrolls(p: DebuggerPanel, rows: int, mask: u32)
    requires
        0 <= p.mem_addr + rows * 16 < 0x1_0000_0000,
    ensures
        p.tab is Cpu || !p.mem_view_bits ==> p.row_bytes() == 16,
        !(p.tab is Cpu) && p.mem_view_bits ==> p.row_bytes() == p.bits_row,
        p.row_bytes() == 16 ==> p.scrolled(rows, mask) == ((p.mem_addr + rows * 16) as u32) & mask,
{
}

/// Bytes that were edited and written read back, every other byte stays, and no watch fires
/// on the edit.
pub proof fn lemma_written_edits(o: &App, n: &App, edits: Seq<(u32, u8)>, a: u32, i: int)
    requires
        committed(o, n, edits),
    ensures
        edits.len() == 0 ==> *n == *o,
        edits.len() > 0 ==> n.machine.memory.at(a) == edited(&o.machine.memory, edits, a),
        edits.len() > 0 && 0 <= i < n.machine.breaks.watches@.len() ==> n.machine.breaks.watches@[i].last
            == n.machine.memory.word(n.machine.breaks.watches@[i].addr),
        n.machine.regs == o.machine.regs && n.machine.breaks.breakpoints
            == o.machine.breaks.breakpoints,
        n.session == o.session,
{
}

/// What each action is: a tool is selected and closed, the workspace left, the display given
/// the input while it is up.
pub proof fn lemma_tool_actions(o: &App, n: &App, kind: ToolPanelKind)
    ensures
        tool_did(o, n, Action::SelectTool(kind)) ==> crate::tools::tool_opened(o, n, kind),
        tool_did(o, n, Action::CloseTool(kind)) ==> crate::tools::tool_closed(o, n, kind),
        tool_did(o, n, Action::CloseWorkspace) ==> !n.desk.layout_active,
        tool_did(o, n, Action::CaptureDisplay) && o.desk.layout_active ==> n.desk.guest_input,
        tool_did(o, n, Action::CaptureDisplay) && !o.desk.layout_active ==> *n == *o,
        panel_did(o, n, Action::FollowPc) ==> (n.debugger matches Some(q) ==> q.disasm_addr is None),
        panel_did(o, n, Action::FollowCopper) ==> (n.debugger matches Some(q) ==> q.copper_addr
            is None),
{
    reveal(tool_did);
    reveal(panel_did);
}

/// A key counts when it went down, and while it is held only where holding repeats.
pub proof fn lemma_key_hits(events: Seq<KeyDown>, key: InspectorKey, i: int)
    ensures
        0 <= i < events.len() && events[i].key == key && !events[i].repeat ==> hit(
            events,
            key,
            false,
        ) && hit(events, key, true),
        0 <= i < events.len() && events[i].key == key ==> hit(events, key, true),
        (forall|j: int| 0 <= j < events.len() ==> (#[trigger] events[j]).key != key) ==> !hit(
            events,
            key,
            true,
        ) && !hit(events, key, false),
        (forall|j: int| 0 <= j < events.len() ==> (#[trigger] events[j]).repeat) ==> !hit(
            events,
            key,
            false,
        ),
{
}

proof fn lemma_letter(events: Seq<KeyDown>, n: int, i: int)
    requires
        0 <= i < n <= 7,
    ensures
        hit(events, letter_table()[i].0, false) ==> letter_hits(events, n).contains(
            Action::Control(letter_table()[i].1),
        ),
        !hit(events, letter_table()[i].0, false) ==> !letter_hits(events, n).contains(
            Action::Control(letter_table()[i].1),
        ),
    decreases n,
{
    let front = letter_hits(events, n - 1);
    let all = letter_hits(events, n);
    let a = Action::Control(letter_table()[i].1);
    if i < n - 1 {
        lemma_letter(events, n - 1, i);
        if hit(events, letter_table()[i].0, false) {
            let k = choose|k: int| 0 <= k < front.len() && front[k] == a;
            assert(all[k] == a);
        } else if all.contains(a) {
            let k = choose|k: int| 0 <= k < all.len() && all[k] == a;
            if k < front.len() {
                assert(front[k] == a);
            } else {
                assert(all[k] == Action::Control(letter_table()[n - 1].1));
            }
        }
    } else {
        if hit(events, letter_table()[i].0, false) {
            assert(all[front.len() as int] == a);
        } else {
            lemma_letters_below(events, n - 1, i);
            assert(all =~= front);
        }
    }
}

proof fn lemma_letters_below(events: Seq<KeyDown>, n: int, i: int)
    requires
        0 <= n <= i < 7,
    ensures
        !letter_hits(events, n).contains(Action::Control(letter_table()[i].1)),
    decreases n,
{
    if n > 0 {
        lemma_letters_below(events, n - 1, i);
        let front = letter_hits(events, n - 1);
        let all = letter_hits(events, n);
        let a = Action::Control(letter_table()[i].1);
        if all.contains(a) {
            let k = choose|k: int| 0 <= k < all.len() && all[k] == a;
            if k < front.len() {
                assert(front[k] == a);
            } else {
                assert(all[k] == Action::Control(letter_table()[n - 1].1));
            }
        }
    }
}

/// The debugger's letters, while nothing is typed: S steps, O over, U out, F a frame, L a
/// line, C the copper, and R runs; each when it goes down and not while it is held.
pub proof fn lemma_debugger_letters(events: Seq<KeyDown>)
    ensures
        ({
            let a = letter_hits(events, 7);
            &&& a.contains(Action::Control(UiControl::DebugStep)) <==> hit(
                events,
                InspectorKey::S,
                false,
            )
            &&& a.contains(Action::Control(UiControl::DebugStepOver)) <==> hit(
                events,
                InspectorKey::O,
                false,
            )
            &&& a.contains(Action::Control(UiControl::DebugStepOut)) <==> hit(
                events,
                InspectorKey::U,
                false,
            )
            &&& a.contains(Action::Control(UiControl::DebugStepFrame)) <==> hit(
                events,
                InspectorKey::F,
                false,
            )
            &&& a.contains(Action::Control(UiControl::DebugRunLine)) <==> hit(
                events,
                InspectorKey::L,
                false,
            )
            &&& a.contains(Action::Control(UiControl::DebugCopperStep)) <==> hit(
                events,
                InspectorKey::C,
                false,
            )
            &&& a.contains(Action::Control(UiControl::DebugRun)) <==> hit(
                events,
                InspectorKey::R,
                false,
            )
        }),
        letter_table().len() == 7,
{
    lemma_letter(events, 7, 0);
    lemma_letter(events, 7, 1);
    lemma_letter(events, 7, 2);
    lemma_letter(events, 7, 3);
    lemma_letter(events, 7, 4);
    lemma_letter(events, 7, 5);
    lemma_letter(events, 7, 6);
}

/// Escape leaves the workspace; while text is typed or a modifier is held no other key of
/// the debugger acts, and otherwise its letters and its scrolling do.
pub proof fn lemma_debugger_keys(tab: DebugTab, f: KeyFocus, events: Seq<KeyDown>)
    ensures
        hit(events, InspectorKey::Escape, true) ==> debugger_keys(tab, f, events) == seq![
            Action::CloseWorkspace,
        ],
        !hit(events, InspectorKey::Escape, true) && (f.text || f.modified) ==> debugger_keys(
            tab,
            f,
            events,
        ).len() == 0,
        !hit(events, InspectorKey::Escape, true) && !f.text && !f.modified ==> debugger_keys(
            tab,
            f,
            events,
        ).take(letter_hits(events, 7).len() as int) == letter_hits(events, 7),
{
    if !hit(events, InspectorKey::Escape, true) && !f.text && !f.modified {
        assert(debugger_keys(tab, f, events).take(letter_hits(events, 7).len() as int)
            =~= letter_hits(events, 7));
    }
}

/// The arrows scroll memory by a row and the page keys by sixteen, down forwards; the map
/// of registers by one and by a page of its own; no other page scrolls so.
pub proof fn lemma_scroll_keys(events: Seq<KeyDown>, tab: DebugTab)
    requires
        !hit(events, InspectorKey::Left, true),
        !hit(events, InspectorKey::Right, true),
    ensures
        ({
            let up = hit(events, InspectorKey::Up, true);
            let down = hit(events, InspectorKey::Down, true);
            let pup = hit(events, InspectorKey::PageUp, true);
            let pdown = hit(events, InspectorKey::PageDown, true);
            let a = scroll_hits(events, tab, 4);
            &&& tab is Memory && down && !up && !pup && !pdown ==> a == seq![
                Action::MemoryScroll(1),
            ]
            &&& tab is Memory && up && !down && !pup && !pdown ==> a == seq![
                Action::MemoryScroll((-1) as i32),
            ]
            &&& tab is Memory && pdown && !down && !up && !pup ==> a == seq![
                Action::MemoryScroll(16),
            ]
            &&& tab is Memory && pup && !down && !up && !pdown ==> a == seq![
                Action::MemoryScroll((-16) as i32),
            ]
            &&& tab is IoMap && down && !up && !pup && !pdown ==> a == seq![Action::IoMapScroll(1)]
            &&& tab is IoMap && pdown && !down && !up && !pup ==> a == seq![
                Action::IoMapScroll(78),
            ]
            &&& tab is IoMap && pup && !down && !up && !pdown ==> a == seq![
                Action::IoMapScroll((-78) as i32),
            ]
            &&& !(tab is Memory) && !(tab is IoMap) ==> a.len() == 0
            &&& scroll_table().len() == 4
        }),
{
    reveal_with_fuel(scroll_hits, 5);
}

/// The analyzer's keys are these thirteen: its letters when they go down, and the ones that
/// move while they are held.
pub proof fn lemma_analyzer_keys(i: int)
    ensures
        analyzer_key_table().len() == 13,
        0 <= i < 7 ==> !analyzer_key_table()[i].1,
        7 <= i < 13 ==> analyzer_key_table()[i].1,
        analyzer_key_table()[0].0 is F && analyzer_key_table()[1].0 is R && analyzer_key_table()[2].0
            is U && analyzer_key_table()[3].0 is B && analyzer_key_table()[4].0 is W
            && analyzer_key_table()[5].0 is T && analyzer_key_table()[6].0 is M,
        analyzer_key_table()[7].0 is Up && analyzer_key_table()[8].0 is Down
            && analyzer_key_table()[9].0 is Left && analyzer_key_table()[10].0 is Right
            && analyzer_key_table()[11].0 is PageUp && analyzer_key_table()[12].0 is PageDown,
{
}

proof fn lemma_analyzer_hit(events: Seq<KeyDown>, n: int, i: int)
    requires
        0 <= i < n <= 13,
        hit(events, analyzer_key_table()[i].0, analyzer_key_table()[i].1),
    ensures
        analyzer_hits(events, n).contains(Action::AnalyzerKey(analyzer_key_table()[i].0)),
    decreases n,
{
    let front = analyzer_hits(events, n - 1);
    let all = analyzer_hits(events, n);
    let a = Action::AnalyzerKey(analyzer_key_table()[i].0);
    if i < n - 1 {
        lemma_analyzer_hit(events, n - 1, i);
        let k = choose|k: int| 0 <= k < front.len() && front[k] == a;
        assert(all[k] == a);
    } else {
        assert(all[front.len() as int] == a);
    }
}

/// Each of them that was hit is passed on as itself.
pub proof fn lemma_analyzer_hears_its_keys(events: Seq<KeyDown>, i: int)
    requires
        0 <= i < 13,
        hit(events, analyzer_key_table()[i].0, analyzer_key_table()[i].1),
    ensures
        analyzer_hits(events, 13).contains(Action::AnalyzerKey(analyzer_key_table()[i].0)),
{
    lemma_analyzer_hit(events, 13, i);
}

/// Keys edit memory only on the memory page, with a cursor in the dump, the page under the
/// focus and no text being typed; a click elsewhere or typing leaves the dump.
pub proof fn lemma_memory_editing(
    p: DebuggerPanel,
    page: bool,
    f: KeyFocus,
    cell: bool,
    clicked: bool,
    text: bool,
)
    ensures
        edits_memory(&p, page, f) <==> p.tab is Memory && p.mem_edit.cursor is Some && !f.text
            && page,
        !(p.tab is Memory) || p.mem_edit.cursor is None ==> !leaves_dump(&p, cell, clicked, text),
        p.tab is Memory && p.mem_edit.cursor is Some ==> (leaves_dump(&p, cell, clicked, text)
            <==> text || (clicked && !cell)),
{
}

proof fn lemma_once_has(s: Seq<Action>, i: int)
    requires
        0 <= i < s.len(),
    ensures
        has_alike(once_each(s), s[i]),
    decreases s.len(),
{
    let front = once_each(s.drop_last());
    if i < s.len() - 1 {
        lemma_once_has(s.drop_last(), i);
        assert(s.drop_last()[i] == s[i]);
        let k = choose|k: int| 0 <= k < front.len() && alike(#[trigger] front[k], s[i]);
        assert(once_each(s)[k] == front[k]);
    } else if !has_alike(front, s.last()) {
        assert(once_each(s)[front.len() as int] == s.last());
        assert(alike(s.last(), s.last()));
    }
}

proof fn lemma_once_alike(s: Seq<Action>, a: int, b: int)
    requires
        0 <= a < b < once_each(s).len(),
    ensures
        !alike(once_each(s)[a], once_each(s)[b]),
    decreases s.len(),
{
    if s.len() > 0 {
        let front = once_each(s.drop_last());
        if has_alike(front, s.last()) {
            lemma_once_alike(s.drop_last(), a, b);
        } else if b < front.len() {
            lemma_once_alike(s.drop_last(), a, b);
            assert(once_each(s)[a] == front[a]);
            assert(once_each(s)[b] == front[b]);
        } else {
            assert(once_each(s)[a] == front[a]);
            if alike(front[a], s.last()) {
                assert(has_alike(front, s.last()));
            }
        }
    }
}

/// What a frame asks for is done once each: nothing asked for is left out, and nothing is
/// done twice.
pub proof fn lemma_each_action_once(s: Seq<Action>, i: int, a: int, b: int)
    ensures
        0 <= i < s.len() ==> has_alike(once_each(s), s[i]),
        0 <= a < b < once_each(s).len() ==> !alike(once_each(s)[a], once_each(s)[b]),
        alike(Action::FollowPc, Action::FollowPc) && !alike(Action::FollowPc, Action::FollowCopper),
        !alike(Action::MemoryScroll(1), Action::MemoryScroll(2)),
{
    if 0 <= i < s.len() {
        lemma_once_has(s, i);
    }
    if 0 <= a < b < once_each(s).len() {
        lemma_once_alike(s, a, b);
    }
}

/// The console's keys: the page keys page, down forwards; Escape lets the focus go where
/// there is one and else closes; in the entry Up and Down recall and Enter submits.
pub proof fn lemma_console_keys(events: Seq<KeyDown>, any_focus: bool, entry_focus: bool)
    ensures
        ({
            let c = console_calls(events, any_focus, entry_focus);
            let escape = plain_hit(events, InspectorKey::Escape, false);
            &&& plain_hit(events, InspectorKey::PageDown, true) && !plain_hit(
                events,
                InspectorKey::PageUp,
                true,
            ) ==> c.pages == 1
            &&& plain_hit(events, InspectorKey::PageUp, true) && !plain_hit(
                events,
                InspectorKey::PageDown,
                true,
            ) ==> c.pages == -1
            &&& escape ==> c.surrender == any_focus && c.close == !any_focus && !c.older && !c.newer
                && !c.submit
            &&& !escape ==> !c.surrender && !c.close
            &&& !escape && entry_focus ==> c.older == plain_hit(events, InspectorKey::Up, true)
                && c.newer == plain_hit(events, InspectorKey::Down, true) && c.submit == plain_hit(
                events,
                InspectorKey::Enter,
                false,
            )
            &&& !entry_focus ==> !c.older && !c.newer && !c.submit
        }),
{
}

/// A key with a modifier is not a plain one.
pub proof fn lemma_plain_keys(events: Seq<KeyDown>, key: InspectorKey, i: int)
    ensures
        0 <= i < events.len() && events[i].key == key && events[i].plain && !events[i].repeat
            ==> plain_hit(events, key, false),
        (forall|j: int| 0 <= j < events.len() ==> !(#[trigger] events[j]).plain) ==> !plain_hit(
            events,
            key,
            true,
        ),
        plain_hit(events, key, true) ==> hit(events, key, true),
{
    if plain_hit(events, key, true) {
        let j = choose|j: int|
            0 <= j < events.len() && (#[trigger] events[j]).key == key && events[j].plain;
        assert(events[j].key == key);
    }
}

/// The controls that take the entry's address are live while it is one; setting a register
/// only on the processor's page and with a register and a value.
pub proof fn lemma_entry_controls(p: DebuggerPanel, c: UiControl)
    ensures
        c is DebugRunTo || c is DebugBreakToggle || c is DebugWatchToggle || c is DebugRegToggle
            || c is DebugCopperBreakToggle || c is DebugMemWriter ==> (entry_enables(&p, c)
            <==> hex32_of(trimmed(p.entry@)) is Some),
        entry_enables(&p, UiControl::DebugPoke) <==> p.tab is Cpu && register_edit(p.entry@)
            is Some,
        c is DebugStep || c is DebugRun || c is PanelClose ==> !entry_enables(&p, c),
{
}

/// A register edit is a register's name and a value, and nothing more.
pub proof fn lemma_register_edits(entry: Seq<char>, reg: u8, value: u32)
    ensures
        words(entry).len() == 2 && reg_of(words(entry)[0]) == Some(reg) && hex32_of(words(entry)[1])
            == Some(value) ==> register_edit(entry) == Some((reg, value)),
        words(entry).len() != 2 ==> register_edit(entry) is None,
        words(entry).len() == 2 && (reg_of(words(entry)[0]) is None || hex32_of(words(entry)[1])
            is None) ==> register_edit(entry) is None,
{
}

/// Muting toggles the channel or the source of the row, and no other; toggling again undoes
/// it.
pub proof fn lemma_mutes(a: AudioMix, b: AudioMix, c: AudioMix, row: u8, other: int)
    requires
        a.wf(),
        mute_toggled(&a, &b, row),
        mute_toggled(&b, &c, row),
        0 <= other < 4,
    ensures
        row < 4 ==> b.channels@[row as int] == !a.channels@[row as int] && c.channels@
            == a.channels@,
        row < 4 && other != row ==> b.channels@[other] == a.channels@[other],
        row < 4 ==> b.cd == a.cd && b.synth == a.synth && b.toccata == a.toccata && b.mhi == a.mhi,
        row >= 4 ==> b.channels@ == a.channels@,
        row >= 4 && row - 4 >= a.extras@.len() ==> b == a,
        row >= 4 && row - 4 < a.extras@.len() ==> {
            let kind = a.extras@[row - 4];
            &&& kind is Cd ==> b.cd == !a.cd && b.synth == a.synth && b.toccata == a.toccata
                && b.mhi == a.mhi
            &&& kind is Synth ==> b.synth == !a.synth && b.cd == a.cd && b.toccata == a.toccata
                && b.mhi == a.mhi
            &&& kind is Toccata ==> b.toccata == !a.toccata && b.cd == a.cd && b.synth == a.synth
                && b.mhi == a.mhi
            &&& kind is Mhi ==> b.mhi == !a.mhi && b.cd == a.cd && b.synth == a.synth && b.toccata
                == a.toccata
        },
{
    if row < 4 {
        assert(c.channels@ =~= a.channels@);
    }
}

/// Muting says what it did to what.
pub proof fn lemma_mutes_say(a: AudioMix, row: u8, kind: AudioExtraKind)
    requires
        a.wf(),
    ensures
        row < 4 && a.channels@[row as int] ==> mute_line(&a, row) == Some(
            "AUD"@ + digits_of(row as nat, 10) + " unmuted"@,
        ),
        row < 4 && !a.channels@[row as int] ==> mute_line(&a, row) == Some(
            "AUD"@ + digits_of(row as nat, 10) + " muted"@,
        ),
        a.extra_of(row) == Some(AudioExtraKind::Cd) && !a.cd ==> mute_line(&a, row) == Some(
            "CD audio"@ + " muted"@,
        ),
        a.extra_of(row) == Some(AudioExtraKind::Synth) && !a.synth ==> mute_line(&a, row) == Some(
            "MIDI synth"@ + " muted"@,
        ),
        a.extra_of(row) == Some(AudioExtraKind::Toccata) && a.toccata ==> mute_line(&a, row)
            == Some("Toccata"@ + " unmuted"@),
        a.extra_of(row) == Some(AudioExtraKind::Mhi) && a.mhi ==> mute_line(&a, row) == Some(
            "MHI"@ + " unmuted"@,
        ),
{
}

/// What the debugger does itself: it changes pages, takes the entry, runs and pauses, clears
/// what stops the machine, and sets a register.
pub proof fn lemma_debugger_controls(o: &App, n: &App, c: UiControl, p: DebuggerPanel)
    requires
        debugger_did(o, n, c),
        o.debugger == Some(p),
        o.machine.regs@.len() == 18,
    ensures
        c matches UiControl::DebugTab(tab) ==> (n.debugger matches Some(q) && q.tab == tab
            && q.mem_addr == p.mem_addr && q.entry == p.entry) && n.machine == o.machine,
        c is DebugEntry ==> (n.debugger matches Some(q) && q.entry_active && q.tab == p.tab),
        c is DebugRun ==> n.session.paused == !o.session.paused && n.machine == o.machine,
        c is DebugBreaksClear ==> n.machine.breaks.breakpoints@.len() == 0
            && n.machine.breaks.watches@.len() == 0 && n.machine.breaks.reg_watches@.len() == 0
            && n.machine.breaks.catches@.len() == 0 && n.machine.beam_traps@.len() == 0
            && n.machine.copper_breaks@.len() == 0 && n.last_debug_stop is None,
        c is DebugPoke && register_edit(p.entry@) is None ==> *n == *o,
        c is DebugPoke ==> (register_edit(p.entry@) matches Some((reg, value)) ==> (reg != 16 && reg
            < 18 ==> n.machine.regs@[reg as int] == value)),
{
}

/// Stepping, running to somewhere, going back, toggling points and searching are asked of
/// the machine outside; changing pages and muting are not.
pub proof fn lemma_asked_outside(tab: DebugTab, row: u8)
    ensures
        debugger_host(UiControl::DebugStep) && debugger_host(UiControl::DebugStepOver)
            && debugger_host(UiControl::DebugStepOut) && debugger_host(UiControl::DebugStepFrame),
        debugger_host(UiControl::DebugRunTo) && debugger_host(UiControl::DebugRunLine)
            && debugger_host(UiControl::DebugCopperStep),
        debugger_host(UiControl::DebugReverseStep) && debugger_host(UiControl::DebugReverseFrame)
            && debugger_host(UiControl::DebugReverseRun),
        debugger_host(UiControl::DebugBreakToggle) && debugger_host(UiControl::DebugWatchToggle)
            && debugger_host(UiControl::DebugRegToggle) && debugger_host(
            UiControl::DebugBeamToggle,
        ) && debugger_host(UiControl::DebugCatchToggle),
        !debugger_host(UiControl::DebugRun) && !debugger_host(UiControl::DebugBreaksClear)
            && !debugger_host(UiControl::DebugTab(tab)) && !debugger_host(
            UiControl::DebugAudioMute(row),
        ) && !debugger_host(UiControl::PanelClose),
        analyzer_host(UiControl::AnalyzerFrame) && analyzer_host(UiControl::AnalyzerUnderlay)
            && analyzer_host(UiControl::AnalyzerRunTo),
        !analyzer_host(UiControl::AnalyzerRun) && !analyzer_host(
            UiControl::AnalyzerResourceRow(row),
        ) && !analyzer_host(UiControl::PanelClose),
{
}

/// A list scrolls by what it is asked and stops at its ends.
pub proof fn lemma_resource_list(at: int, by: int, len: int)
    requires
        0 <= at < len,
    ensures
        0 <= at + by < len ==> list_scrolled(at, by, len) == at + by,
        at + by < 0 ==> list_scrolled(at, by, len) == 0,
        at + by >= len ==> list_scrolled(at, by, len) == len - 1,
        list_scrolled(0, by, 0) == 0,
{
}

/// A row of the resources that is picked is the one that is shown there; past the end of the
/// list nothing is picked.
pub proof fn lemma_resources_are_picked(o: &App, n: &App, row: u8)
    requires
        resource_picked(o, n, row),
        o.analyzer is Some,
    ensures
        n.analyzer matches Some(q) && {
            let p = o.analyzer.unwrap();
            &&& p.resource_scroll + row < o.machine.resources@.len() ==> q.resource_selected
                == Some(o.machine.resources@[p.resource_scroll + row])
            &&& p.resource_scroll + row >= o.machine.resources@.len() ==> q.resource_selected
                == p.resource_selected
            &&& q.resource_scroll == p.resource_scroll
        },
        n.machine == o.machine,
{
}

/// A place picked on a picture is the part of its size that it lies at, in parts of 1024.
pub proof fn lemma_picks_scale(at: u32, size: u32)
    requires
        size <= 4096,
        at < 1024,
    ensures
        picked(0, size) == 0,
        picked(at, size) <= size,
        size > 0 ==> picked(at, size) < size,
        size == 1024 ==> picked(at, size) == at,
{
    assert(at * size / 1024 <= size && (size > 0 ==> at * size / 1024 < size)) by (
        nonlinear_arith)
        requires
            at < 1024,
    ;
}

/// What the analyzer does itself: it runs and pauses, and picks rows and slots.
pub proof fn lemma_analyzer_controls(o: &App, n: &App, c: UiControl)
    requires
        analyzer_did(o, n, c),
    ensures
        c is AnalyzerRun ==> n.session.paused == !o.session.paused && n.machine == o.machine,
        c matches UiControl::AnalyzerPick { x, y, scanline } ==> (scanline ==> *n == *o),
        c matches UiControl::AnalyzerPick { x, y, scanline } ==> (!scanline ==> n.machine
            == o.machine && n.session == o.session),
        c is PanelClose ==> n.analyzer is None,
{
}

/// The console's panel has one control, which closes it.
pub proof fn lemma_console_controls(o: &App, n: &App, c: UiControl, step: ControlStep)
    requires
        control_used(o, n, ToolPanelKind::Console, c, step),
    ensures
        !(step is Host),
        c is PanelClose ==> n.console is None,
        !(c is PanelClose) ==> n.console == o.console && n.machine == o.machine,
        n.fx@.last() == Effect::<Seq<char>>::Redraw,
{
}

/// What is typed in the console's own window is a batch of commands; keys of the analyzer
/// and its lists go outside.
pub proof fn lemma_outside_actions(o: &App, n: &App, step: ActionStep, key: InspectorKey)
    ensures
        did(o, n, Action::AnalyzerKey(key), step) ==> step is Host && *n == *o,
        did(o, n, Action::CloseWorkspace, step) ==> step is Done && !n.desk.layout_active,
        did(o, n, Action::FollowPc, step) ==> step is Done,
{
    reveal(tool_did);
    reveal(panel_did);
}

} // verus!
