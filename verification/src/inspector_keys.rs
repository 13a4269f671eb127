//! The keys of the inspectors, as what they ask for: shortcuts that act on the
//! machine, keys that scroll, and keys that a text field owns.

use vstd::prelude::*;

use crate::actions::Action;
use crate::app::ConsolePanel;
use crate::app::DebugTab;
use crate::app::DebuggerPanel;
use crate::command::hex32;
use crate::command::hex32_of;
use crate::controls::UiControl;
use crate::controls::parse_register_edit;
use crate::controls::register_edit;
use crate::effects::lemma_nothing;
use crate::effects::lemma_then;
use crate::text::chars_of;
use crate::text::same;
use crate::text::trim;
use crate::text::trimmed;

verus! {

/// A key that an inspector knows.
#[derive(Clone, Copy, PartialEq, Eq, Structural, Debug)]
pub enum InspectorKey {
    B,
    C,
    F,
    L,
    M,
    O,
    R,
    S,
    T,
    U,
    W,
    Up,
    Down,
    Left,
    Right,
    PageUp,
    PageDown,
    Enter,
    Escape,
    Other,
}

/// A key that went down in this frame, whether it repeats, and whether no
/// modifier was down with it.
#[derive(Clone, Copy, PartialEq, Eq, Structural, Debug)]
pub struct KeyDown {
    pub key: InspectorKey,
    pub repeat: bool,
    pub plain: bool,
}

/// What has the keyboard, besides the shortcuts.
#[derive(Clone, Copy, PartialEq, Eq, Structural, Debug)]
pub struct KeyFocus {
    /// A text field is being typed into.
    pub text: bool,
    /// A modifier is down.
    pub modified: bool,
}

/// The key went down; `held` counts repeats too.
pub open spec fn hit(events: Seq<KeyDown>, key: InspectorKey, held: bool) -> bool {
    exists|i: int|
        0 <= i < events.len() && (#[trigger] events[i]).key == key && (held || !events[i].repeat)
}

fn is_hit(events: &Vec<KeyDown>, key: InspectorKey, held: bool) -> (r: bool)
    ensures
        r == hit(events@, key, held),
{
    let mut i: usize = 0;
    while i < events.len()
        invariant
            i <= events@.len(),
            forall|j: int|
                0 <= j < i ==> !((#[trigger] events@[j]).key == key && (held || !events@[j].repeat)),
        decreases events@.len() - i,
    {
        if events[i].key == key && (held || !events[i].repeat) {
            return true;
        }
        i += 1;
    }
    false
}

pub open spec fn when(due: bool, action: Action) -> Seq<Action> {
    if due {
        seq![action]
    } else {
        Seq::empty()
    }
}

fn push_when(actions: &mut Vec<Action>, due: bool, action: Action)
    ensures
        final(actions)@ == old(actions)@ + when(due, action),
{
    if due {
        actions.push(action);
        assert(actions@ =~= old(actions)@ + seq![action]);
    } else {
        assert(actions@ =~= old(actions)@ + Seq::empty());
    }
}

/// The letters of the debugger and what they work.
pub open spec fn letter_table() -> Seq<(InspectorKey, UiControl)> {
    seq![
        (InspectorKey::S, UiControl::DebugStep),
        (InspectorKey::O, UiControl::DebugStepOver),
        (InspectorKey::U, UiControl::DebugStepOut),
        (InspectorKey::F, UiControl::DebugStepFrame),
        (InspectorKey::L, UiControl::DebugRunLine),
        (InspectorKey::C, UiControl::DebugCopperStep),
        (InspectorKey::R, UiControl::DebugRun),
    ]
}

/// The first `n` letters, which act on a press and not on a repeat.
pub open spec fn letter_hits(events: Seq<KeyDown>, n: int) -> Seq<Action>
    decreases n,
{
    if n <= 0 {
        Seq::empty()
    } else {
        let (key, control) = letter_table()[n - 1];
        letter_hits(events, n - 1) + when(hit(events, key, false), Action::Control(control))
    }
}

pub open spec fn letter_actions(events: Seq<KeyDown>) -> Seq<Action> {
    letter_hits(events, letter_table().len() as int)
}

/// A key that scrolls the page which is shown by a row, or by sixteen; the
/// map of registers goes by its own columns instead.
pub open spec fn scroll_action(events: Seq<KeyDown>, tab: DebugTab, key: InspectorKey, rows: i32) -> Seq<
    Action,
> {
    let due = hit(events, key, true);
    match tab {
        DebugTab::Memory => when(due, Action::MemoryScroll(rows)),
        DebugTab::IoMap => when(
            due,
            Action::IoMapScroll(
                if rows == 16 {
                    78i32
                } else if rows == -16 {
                    -78i32
                } else {
                    rows
                },
            ),
        ),
        _ => Seq::empty(),
    }
}

/// The keys that scroll, and by how much.
pub open spec fn scroll_table() -> Seq<(InspectorKey, i32)> {
    seq![
        (InspectorKey::Up, (-1) as i32),
        (InspectorKey::Down, 1i32),
        (InspectorKey::PageUp, (-16) as i32),
        (InspectorKey::PageDown, 16i32),
    ]
}

pub open spec fn scroll_hits(events: Seq<KeyDown>, tab: DebugTab, n: int) -> Seq<Action>
    decreases n,
{
    if n <= 0 {
        Seq::empty()
    } else {
        let (key, rows) = scroll_table()[n - 1];
        scroll_hits(events, tab, n - 1) + scroll_action(events, tab, key, rows)
    }
}

/// The map of registers also moves by whole columns to the sides.
pub open spec fn side_actions(events: Seq<KeyDown>, tab: DebugTab) -> Seq<Action> {
    if tab is IoMap {
        when(hit(events, InspectorKey::Left, true), Action::IoMapScroll((-26) as i32)) + when(
            hit(events, InspectorKey::Right, true),
            Action::IoMapScroll(26),
        )
    } else {
        Seq::empty()
    }
}

pub open spec fn scroll_actions(events: Seq<KeyDown>, tab: DebugTab) -> Seq<Action> {
    scroll_hits(events, tab, scroll_table().len() as int) + side_actions(events, tab)
}

/// What the debugger's keys come to.
#[derive(PartialEq, Eq, Debug)]
pub enum ShortcutStep {
    /// The keys edit the selected byte of memory.
    EditMemory,
    /// The text field gives the keyboard up.
    SurrenderFocus,
    Act(Vec<Action>),
}

/// A byte of memory is selected for editing and nothing else is typed into.
pub open spec fn edits_memory(p: &DebuggerPanel, page: bool, f: KeyFocus) -> bool {
    p.tab is Memory && p.mem_edit.cursor is Some && !f.text && page
}

pub open spec fn debugger_keys(tab: DebugTab, f: KeyFocus, events: Seq<KeyDown>) -> Seq<Action> {
    if hit(events, InspectorKey::Escape, true) {
        seq![Action::CloseWorkspace]
    } else if f.text || f.modified {
        Seq::empty()
    } else {
        letter_actions(events) + scroll_actions(events, tab)
    }
}

fn push_letters(actions: &mut Vec<Action>, events: &Vec<KeyDown>)
    ensures
        final(actions)@ == old(actions)@ + letter_actions(events@),
{
    let keys: [(InspectorKey, UiControl); 7] = [
        (InspectorKey::S, UiControl::DebugStep),
        (InspectorKey::O, UiControl::DebugStepOver),
        (InspectorKey::U, UiControl::DebugStepOut),
        (InspectorKey::F, UiControl::DebugStepFrame),
        (InspectorKey::L, UiControl::DebugRunLine),
        (InspectorKey::C, UiControl::DebugCopperStep),
        (InspectorKey::R, UiControl::DebugRun),
    ];
    assert(keys@ =~= letter_table());
    let mut i: usize = 0;
    proof {
        lemma_nothing(actions@);
    }
    while i < 7
        invariant
            i <= 7,
            keys@ == letter_table(),
            actions@ == old(actions)@ + letter_hits(events@, i as int),
        decreases 7 - i,
    {
        let (key, control): (InspectorKey, UiControl) = keys[i];
        proof {
            lemma_then(
                old(actions)@,
                letter_hits(events@, i as int),
                when(hit(events@, key, false), Action::Control(control)),
            );
        }
        push_when(actions, is_hit(events, key, false), Action::Control(control));
        i += 1;
    }
}

fn push_scroll(
    actions: &mut Vec<Action>,
    events: &Vec<KeyDown>,
    tab: DebugTab,
    key: InspectorKey,
    rows: i32,
)
    ensures
        final(actions)@ == old(actions)@ + scroll_action(events@, tab, key, rows),
{
    let due: bool = is_hit(events, key, true);
    match tab {
        DebugTab::Memory => push_when(actions, due, Action::MemoryScroll(rows)),
        DebugTab::IoMap => {
            let by: i32 = if rows == 16 {
                78
            } else if rows == -16 {
                -78
            } else {
                rows
            };
            push_when(actions, due, Action::IoMapScroll(by));
        },
        _ => {
            assert(actions@ =~= old(actions)@ + Seq::empty());
        },
    }
}

fn push_sides(actions: &mut Vec<Action>, events: &Vec<KeyDown>, tab: DebugTab)
    ensures
        final(actions)@ == old(actions)@ + side_actions(events@, tab),
{
    if tab == DebugTab::IoMap {
        push_when(
            actions,
            is_hit(events, InspectorKey::Left, true),
            Action::IoMapScroll(-26),
        );
        push_when(
            actions,
            is_hit(events, InspectorKey::Right, true),
            Action::IoMapScroll(26),
        );
    }
    assert(actions@ =~= old(actions)@ + side_actions(events@, tab));
}

fn push_scrolls(actions: &mut Vec<Action>, events: &Vec<KeyDown>, tab: DebugTab)
    ensures
        final(actions)@ == old(actions)@ + scroll_actions(events@, tab),
{
    let keys: [(InspectorKey, i32); 4] = [
        (InspectorKey::Up, -1),
        (InspectorKey::Down, 1),
        (InspectorKey::PageUp, -16),
        (InspectorKey::PageDown, 16),
    ];
    assert(keys@ =~= scroll_table());
    let mut i: usize = 0;
    proof {
        lemma_nothing(actions@);
    }
    while i < 4
        invariant
            i <= 4,
            keys@ == scroll_table(),
            actions@ == old(actions)@ + scroll_hits(events@, tab, i as int),
        decreases 4 - i,
    {
        let (key, rows): (InspectorKey, i32) = keys[i];
        proof {
            lemma_then(
                old(actions)@,
                scroll_hits(events@, tab, i as int),
                scroll_action(events@, tab, key, rows),
            );
        }
        push_scroll(actions, events, tab, key, rows);
        i += 1;
    }
    proof {
        lemma_then(
            old(actions)@,
            scroll_hits(events@, tab, 4),
            side_actions(events@, tab),
        );
    }
    push_sides(actions, events, tab);
}

/// The debugger's keys. A selected byte of memory and a text field own
/// theirs: typing must never step the machine. `page` says whether a page of
/// memory is shown.
pub fn shortcuts(p: &DebuggerPanel, page: bool, f: KeyFocus, events: &Vec<KeyDown>) -> (step:
    ShortcutStep)
    ensures
        match step {
            ShortcutStep::EditMemory => edits_memory(p, page, f),
            ShortcutStep::SurrenderFocus => !edits_memory(p, page, f) && f.text && hit(
                events@,
                InspectorKey::Escape,
                true,
            ),
            ShortcutStep::Act(a) => {
                &&& !edits_memory(p, page, f)
                &&& !(f.text && hit(events@, InspectorKey::Escape, true))
                &&& a@ == debugger_keys(p.tab, f, events@)
            },
        },
{
    if p.tab == DebugTab::Memory && p.mem_edit.cursor.is_some() && !f.text && page {
        return ShortcutStep::EditMemory;
    }
    let mut actions: Vec<Action> = Vec::new();
    if is_hit(events, InspectorKey::Escape, true) {
        if f.text {
            return ShortcutStep::SurrenderFocus;
        }
        actions.push(Action::CloseWorkspace);
        assert(actions@ =~= seq![Action::CloseWorkspace]);
        return ShortcutStep::Act(actions);
    }
    if !f.text && !f.modified {
        push_letters(&mut actions, events);
        push_scrolls(&mut actions, events, p.tab);
        assert(actions@ =~= debugger_keys(p.tab, f, events@));
    }
    ShortcutStep::Act(actions)
}

/// While a text field has the keyboard, or a modifier is down, no key steps
/// or runs the machine.
pub proof fn lemma_typing_never_steps(tab: DebugTab, f: KeyFocus, events: Seq<KeyDown>)
    requires
        f.text || f.modified,
    ensures
        forall|i: int|
            0 <= i < debugger_keys(tab, f, events).len() ==> (#[trigger] debugger_keys(
                tab,
                f,
                events,
            )[i]) is CloseWorkspace,
{
}

/// The keys that the analyzer knows, in the order in which they are looked
/// for; the ones that move repeat while they are held.
pub open spec fn analyzer_key_table() -> Seq<(InspectorKey, bool)> {
    seq![
        (InspectorKey::F, false),
        (InspectorKey::R, false),
        (InspectorKey::U, false),
        (InspectorKey::B, false),
        (InspectorKey::W, false),
        (InspectorKey::T, false),
        (InspectorKey::M, false),
        (InspectorKey::Up, true),
        (InspectorKey::Down, true),
        (InspectorKey::Left, true),
        (InspectorKey::Right, true),
        (InspectorKey::PageUp, true),
        (InspectorKey::PageDown, true),
    ]
}

pub open spec fn analyzer_hits(events: Seq<KeyDown>, n: int) -> Seq<Action>
    decreases n,
{
    if n <= 0 {
        Seq::empty()
    } else {
        let (key, held) = analyzer_key_table()[n - 1];
        analyzer_hits(events, n - 1) + when(hit(events, key, held), Action::AnalyzerKey(key))
    }
}

/// The analyzer's keys. Escape closes the workspace whatever has the
/// keyboard.
pub fn analyzer_shortcuts(f: KeyFocus, events: &Vec<KeyDown>) -> (r: Vec<Action>)
    ensures
        r@ == (if hit(events@, InspectorKey::Escape, true) {
            seq![Action::CloseWorkspace]
        } else if f.text || f.modified {
            Seq::empty()
        } else {
            analyzer_hits(events@, analyzer_key_table().len() as int)
        }),
{
    let mut actions: Vec<Action> = Vec::new();
    if is_hit(events, InspectorKey::Escape, true) {
        actions.push(Action::CloseWorkspace);
        assert(actions@ =~= seq![Action::CloseWorkspace]);
        return actions;
    }
    if f.text || f.modified {
        return actions;
    }
    let keys: [(InspectorKey, bool); 13] = [
        (InspectorKey::F, false),
        (InspectorKey::R, false),
        (InspectorKey::U, false),
        (InspectorKey::B, false),
        (InspectorKey::W, false),
        (InspectorKey::T, false),
        (InspectorKey::M, false),
        (InspectorKey::Up, true),
        (InspectorKey::Down, true),
        (InspectorKey::Left, true),
        (InspectorKey::Right, true),
        (InspectorKey::PageUp, true),
        (InspectorKey::PageDown, true),
    ];
    assert(keys@ =~= analyzer_key_table());
    let mut i: usize = 0;
    while i < 13
        invariant
            i <= 13,
            keys@ == analyzer_key_table(),
            actions@ == analyzer_hits(events@, i as int),
        decreases 13 - i,
    {
        let (key, held): (InspectorKey, bool) = keys[i];
        push_when(&mut actions, is_hit(events, key, held), Action::AnalyzerKey(key));
        i += 1;
    }
    actions
}

/// Two actions ask for the same.
pub open spec fn alike(a: Action, b: Action) -> bool {
    match (a, b) {
        (Action::ConsoleSubmit(s), Action::ConsoleSubmit(t)) => s@ == t@,
        (Action::MemoryCommit(s), Action::MemoryCommit(t)) => s@ == t@,
        (Action::ConsoleSubmit(_), _) => false,
        (Action::MemoryCommit(_), _) => false,
        (_, Action::ConsoleSubmit(_)) => false,
        (_, Action::MemoryCommit(_)) => false,
        _ => a == b,
    }
}

fn same_edits(a: &Vec<(u32, u8)>, b: &Vec<(u32, u8)>) -> (r: bool)
    ensures
        r == (a@ == b@),
{
    if a.len() != b.len() {
        return false;
    }
    let mut i: usize = 0;
    while i < a.len()
        invariant
            i <= a@.len() == b@.len(),
            forall|j: int| 0 <= j < i ==> a@[j] == b@[j],
        decreases a@.len() - i,
    {
        if a[i].0 != b[i].0 || a[i].1 != b[i].1 {
            return false;
        }
        i += 1;
    }
    assert(a@ =~= b@);
    true
}

fn are_alike(a: &Action, b: &Action) -> (r: bool)
    ensures
        r == alike(*a, *b),
{
    match (a, b) {
        (Action::Control(x), Action::Control(y)) => *x == *y,
        (Action::Analyzer(x), Action::Analyzer(y)) => *x == *y,
        (Action::AnalyzerKey(x), Action::AnalyzerKey(y)) => *x == *y,
        (Action::ResourceScroll(x), Action::ResourceScroll(y)) => *x == *y,
        (Action::BlitScroll(x), Action::BlitScroll(y)) => *x == *y,
        (Action::SelectTool(x), Action::SelectTool(y)) => *x == *y,
        (Action::CloseWorkspace, Action::CloseWorkspace) => true,
        (Action::CaptureDisplay, Action::CaptureDisplay) => true,
        (Action::CloseTool(x), Action::CloseTool(y)) => *x == *y,
        (Action::Navigate(t, x), Action::Navigate(u, y)) => *t == *u && *x == *y,
        (Action::ConsoleSubmit(x), Action::ConsoleSubmit(y)) => same(
            &chars_of(x.as_str()),
            &chars_of(y.as_str()),
        ),
        (Action::SubmitEntry, Action::SubmitEntry) => true,
        (Action::FollowPc, Action::FollowPc) => true,
        (Action::FollowCopper, Action::FollowCopper) => true,
        (Action::MemoryScroll(x), Action::MemoryScroll(y)) => *x == *y,
        (Action::MemoryCommit(x), Action::MemoryCommit(y)) => same_edits(x, y),
        (Action::IoMapScroll(x), Action::IoMapScroll(y)) => *x == *y,
        _ => false,
    }
}

pub open spec fn has_alike(s: Seq<Action>, a: Action) -> bool {
    exists|i: int| 0 <= i < s.len() && alike(#[trigger] s[i], a)
}

/// The actions without those that ask for the same as an earlier one.
pub open spec fn once_each(s: Seq<Action>) -> Seq<Action>
    decreases s.len(),
{
    if s.len() == 0 {
        Seq::empty()
    } else {
        let front = once_each(s.drop_last());
        if has_alike(front, s.last()) {
            front
        } else {
            front.push(s.last())
        }
    }
}

fn knows(s: &Vec<Action>, a: &Action) -> (r: bool)
    ensures
        r == has_alike(s@, *a),
{
    let mut i: usize = 0;
    while i < s.len()
        invariant
            i <= s@.len(),
            forall|j: int| 0 <= j < i ==> !alike(#[trigger] s@[j], *a),
        decreases s@.len() - i,
    {
        if are_alike(&s[i], a) {
            return true;
        }
        i += 1;
    }
    false
}

/// A frame of the interface may be laid out more than once: what it asks for
/// is done once.
pub fn unique_actions(actions: Vec<Action>) -> (r: Vec<Action>)
    ensures
        r@ == once_each(actions@),
{
    let ghost all = actions@;
    let mut rest: Vec<Action> = actions;
    let mut back: Vec<Action> = Vec::new();
    // The actions in reverse, so that each is taken from the end in turn.
    while rest.len() > 0
        invariant
            rest@.len() + back@.len() == all.len(),
            rest@ == all.take(rest@.len() as int),
            forall|k: int|
                0 <= k < back@.len() ==> #[trigger] back@[k] == all[all.len() - 1 - k],
        decreases rest@.len(),
    {
        let ghost n = rest@.len() as int;
        match rest.pop() {
            Some(a) => {
                assert(a == all[n - 1]);
                back.push(a);
                assert(rest@ =~= all.take(n - 1));
            },
            None => {},
        }
    }
    let mut out: Vec<Action> = Vec::new();
    assert(all.take(0) =~= Seq::empty());
    while back.len() > 0
        invariant
            back@.len() <= all.len(),
            forall|k: int|
                0 <= k < back@.len() ==> #[trigger] back@[k] == all[all.len() - 1 - k],
            out@ == once_each(all.take(all.len() - back@.len())),
        decreases back@.len(),
    {
        let ghost at = all.len() - back@.len();
        match back.pop() {
            Some(a) => {
                assert(a == all[at]);
                assert(all.take(at + 1).drop_last() =~= all.take(at));
                assert(all.take(at + 1).last() == a);
                if !knows(&out, &a) {
                    out.push(a);
                }
            },
            None => {},
        }
    }
    assert(all.take(all.len() as int) =~= all);
    out
}

/// No two of the actions that are done ask for the same, and nothing that was
/// asked for is lost.
pub proof fn lemma_once_each(s: Seq<Action>)
    ensures
        forall|i: int, j: int|
            0 <= i < j < once_each(s).len() ==> !alike(
                #[trigger] once_each(s)[i],
                #[trigger] once_each(s)[j],
            ),
        forall|k: int| 0 <= k < s.len() ==> has_alike(once_each(s), #[trigger] s[k]),
    decreases s.len(),
{
    if s.len() > 0 {
        lemma_once_each(s.drop_last());
        let front = once_each(s.drop_last());
        let out = once_each(s);
        assert forall|k: int| 0 <= k < s.len() implies has_alike(out, #[trigger] s[k]) by {
            if k < s.len() - 1 {
                assert(s.drop_last()[k] == s[k]);
                let i = choose|i: int| 0 <= i < front.len() && alike(#[trigger] front[i], s[k]);
                assert(alike(out[i], s[k]));
            } else if !has_alike(front, s.last()) {
                assert(alike(out[front.len() as int], s.last()));
            }
        }
    }
}

/// What the console's keys come to: pages to scroll, whether the keyboard is
/// given up or the workspace closed, steps through the history, and whether
/// the line is to be run.
#[derive(Clone, Copy, PartialEq, Eq, Structural, Debug)]
pub struct ConsoleKeys {
    pub pages: i32,
    pub surrender: bool,
    pub close: bool,
    pub older: bool,
    pub newer: bool,
    pub submit: bool,
}

/// A key of the console went down by itself: with a modifier it is the
/// editor's.
pub open spec fn plain_hit(events: Seq<KeyDown>, key: InspectorKey, held: bool) -> bool {
    exists|i: int|
        0 <= i < events.len() && (#[trigger] events[i]).key == key && events[i].plain && (held
            || !events[i].repeat)
}

fn console_key(events: &Vec<KeyDown>, key: InspectorKey, held: bool) -> (r: bool)
    ensures
        r == plain_hit(events@, key, held),
{
    let mut i: usize = 0;
    while i < events.len()
        invariant
            i <= events@.len(),
            forall|j: int|
                0 <= j < i ==> !((#[trigger] events@[j]).key == key && events@[j].plain && (held
                    || !events@[j].repeat)),
        decreases events@.len() - i,
    {
        if events[i].key == key && events[i].plain && (held || !events[i].repeat) {
            return true;
        }
        i += 1;
    }
    false
}

pub open spec fn console_calls(events: Seq<KeyDown>, any_focus: bool, entry_focus: bool) -> ConsoleKeys {
    let escape = plain_hit(events, InspectorKey::Escape, false);
    let typing = !escape && entry_focus;
    ConsoleKeys {
        pages: ((if plain_hit(events, InspectorKey::PageDown, true) {
            1int
        } else {
            0
        }) - (if plain_hit(events, InspectorKey::PageUp, true) {
            1int
        } else {
            0
        })) as i32,
        surrender: escape && any_focus,
        close: escape && !any_focus,
        older: typing && plain_hit(events, InspectorKey::Up, true),
        newer: typing && plain_hit(events, InspectorKey::Down, true),
        submit: typing && plain_hit(events, InspectorKey::Enter, false),
    }
}

/// The console's keys. A held Enter runs one line only, and one with a
/// modifier runs none.
pub fn console_keys(events: &Vec<KeyDown>, any_focus: bool, entry_focus: bool) -> (r: ConsoleKeys)
    ensures
        r == console_calls(events@, any_focus, entry_focus),
{
    let mut pages: i32 = 0;
    if console_key(events, InspectorKey::PageUp, true) {
        pages = pages - 1;
    }
    if console_key(events, InspectorKey::PageDown, true) {
        pages = pages + 1;
    }
    let escape: bool = console_key(events, InspectorKey::Escape, false);
    let typing: bool = !escape && entry_focus;
    ConsoleKeys {
        pages,
        surrender: escape && any_focus,
        close: escape && !any_focus,
        older: typing && console_key(events, InspectorKey::Up, true),
        newer: typing && console_key(events, InspectorKey::Down, true),
        submit: typing && console_key(events, InspectorKey::Enter, false),
    }
}

/// The line that is run when it is submitted: an empty one is not, and stays.
pub fn console_submission(p: &mut ConsolePanel, submit: bool) -> (r: Option<Action>)
    ensures
        match r {
            Some(a) => {
                &&& submit && trimmed(old(p).input@).len() > 0
                &&& a matches Action::ConsoleSubmit(t) && t@ == old(p).input@
                &&& final(p).input@.len() == 0
                &&& *final(p) == (ConsolePanel { input: final(p).input, ..*old(p) })
            },
            None => {
                &&& !submit || trimmed(old(p).input@).len() == 0
                &&& *final(p) == *old(p)
            },
        },
{
    if !submit {
        return None;
    }
    let line: Vec<char> = trim(&chars_of(p.input.as_str()));
    if line.len() == 0 {
        return None;
    }
    let mut text: String = String::new();
    std::mem::swap(&mut text, &mut p.input);
    Some(Action::ConsoleSubmit(text))
}

/// The dump is left while a byte of it is selected.
pub open spec fn leaves_dump(p: &DebuggerPanel, cell_clicked: bool, clicked: bool, text: bool) -> bool {
    p.tab is Memory && p.mem_edit.cursor is Some && ((!cell_clicked && clicked) || text)
}

/// The edits of memory that leaving the dump writes: a click anywhere but on
/// a byte, or a text field that is typed into, is like Enter.
pub fn memory_left(p: &mut DebuggerPanel, cell_clicked: bool, clicked: bool, text: bool) -> (r:
    Option<Action>)
    ensures
        match r {
            Some(a) => {
                &&& leaves_dump(old(p), cell_clicked, clicked, text)
                &&& old(p).mem_edit.pending@.len() > 0
                &&& a matches Action::MemoryCommit(e) && e@ == old(p).mem_edit.pending@
            },
            None => !leaves_dump(old(p), cell_clicked, clicked, text) || old(
                p,
            ).mem_edit.pending@.len() == 0,
        },
        *final(p) == (DebuggerPanel { mem_edit: final(p).mem_edit, ..*old(p) }),
        if leaves_dump(old(p), cell_clicked, clicked, text) {
            final(p).mem_edit.pending@.len() == 0 && final(p).mem_edit.cursor is None
        } else {
            final(p).mem_edit == old(p).mem_edit
        },
{
    if p.tab != DebugTab::Memory || p.mem_edit.cursor.is_none() {
        return None;
    }
    if !((!cell_clicked && clicked) || text) {
        return None;
    }
    let edits: Vec<(u32, u8)> = p.mem_edit.mem_edit_take();
    if edits.len() == 0 {
        return None;
    }
    Some(Action::MemoryCommit(edits))
}

/// What the entry gives a control to work with.
pub open spec fn entry_enables(p: &DebuggerPanel, c: UiControl) -> bool {
    match c {
        UiControl::DebugRunTo => hex32_of(trimmed(p.entry@)) is Some,
        UiControl::DebugBreakToggle => hex32_of(trimmed(p.entry@)) is Some,
        UiControl::DebugWatchToggle => hex32_of(trimmed(p.entry@)) is Some,
        UiControl::DebugRegToggle => hex32_of(trimmed(p.entry@)) is Some,
        UiControl::DebugCopperBreakToggle => hex32_of(trimmed(p.entry@)) is Some,
        UiControl::DebugMemWriter => hex32_of(trimmed(p.entry@)) is Some,
        UiControl::DebugPoke => p.tab is Cpu && register_edit(p.entry@) is Some,
        _ => false,
    }
}

/// Whether a control that works on the entry is live: the ones for an address
/// need one there, and setting a register needs a register and a value.
pub fn entry_control_live(p: &DebuggerPanel, c: UiControl) -> (r: bool)
    ensures
        r == entry_enables(p, c),
{
    match c {
        UiControl::DebugRunTo
        | UiControl::DebugBreakToggle
        | UiControl::DebugWatchToggle
        | UiControl::DebugRegToggle
        | UiControl::DebugCopperBreakToggle
        | UiControl::DebugMemWriter => hex32(&trim(&chars_of(p.entry.as_str()))).is_some(),
        UiControl::DebugPoke => p.tab == DebugTab::Cpu && parse_register_edit(
            p.entry.as_str(),
        ).is_some(),
        _ => false,
    }
}

} // verus!
