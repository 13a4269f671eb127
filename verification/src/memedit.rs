//! Editing bytes in the Memory tab: a cursor over the hex or the ASCII column,
//! edits staged until they are committed, and the page that follows the
//! cursor.

use vstd::prelude::*;

use crate::breaks::BreakStore;
use crate::machine::Machine;
use crate::memory::Memory;
use crate::memory::lemma_layout_trans;
use crate::memory::same_layout;
use crate::number::digit;
use crate::number::digit_of;
use crate::number::hex;
use crate::number::put_dec;
use crate::number::put_hex;
use crate::text::put;

verus! {

/// Bytes on a page of the Memory tab: sixteen rows of sixteen.
pub const MEM_PAGE_BYTES: u32 = 256;

#[derive(Clone, Copy, PartialEq, Eq, Structural, Debug)]
pub enum MemColumn {
    Hex,
    Ascii,
}

#[derive(Clone, Copy, PartialEq, Eq, Structural, Debug)]
pub struct MemCursor {
    pub addr: u32,
    pub column: MemColumn,
    /// The next hexadecimal digit is the byte's upper half.
    pub high_nibble: bool,
}

impl MemCursor {
    pub fn new(addr: u32, column: MemColumn) -> (r: MemCursor)
        ensures
            r == (MemCursor { addr, column, high_nibble: true }),
    {
        MemCursor { addr, column, high_nibble: true }
    }
}

/// What the Memory tab is editing.
#[derive(PartialEq, Eq, Debug)]
pub struct MemEdit {
    pub cursor: Option<MemCursor>,
    /// Staged values by address, in the order in which they were begun.
    pub pending: Vec<(u32, u8)>,
}

/// The page on the screen.
#[derive(PartialEq, Eq, Debug)]
pub struct MemPage {
    pub base: u32,
    pub bytes: Vec<u8>,
    pub mask: u32,
}

#[derive(Clone, Copy, PartialEq, Eq, Structural, Debug)]
pub enum MemEvent {
    Escape,
    Enter,
    Left,
    Right,
    Up,
    Down,
    PageUp,
    PageDown,
    Backspace,
    Typed(char),
    Other,
}

/// What the keys ask for once they are handled.
#[derive(PartialEq, Eq, Debug)]
pub struct MemEditOutcome {
    /// Edits to write to the machine.
    pub commit: Vec<(u32, u8)>,
    /// Rows by which the page is to scroll.
    pub scroll_rows: i64,
}

/// The machine drives either 24 or 32 address lines.
pub open spec fn bus_mask(mask: u32) -> bool {
    mask == 0x00FF_FFFF || mask == 0xFFFF_FFFF
}

/// An address on the ring that the address lines make.
pub open spec fn ring(x: int, mask: u32) -> u32 {
    (x % (mask as int + 1)) as u32
}

/// How far an address lies past the start of the page, going round.
pub open spec fn offset_in(addr: u32, base: u32, mask: u32) -> int {
    (addr - base) % (mask as int + 1)
}

/// The cursor is on the page.
pub open spec fn visible(addr: u32, base: u32, mask: u32) -> bool {
    offset_in(addr, base, mask) < MEM_PAGE_BYTES
}

/// The rows that a page must scroll for an address to be on it: up to the
/// address's row, or down until it is on the last row, whichever is nearer.
pub open spec fn follow_rows(addr: u32, base: u32, mask: u32) -> int {
    let off = offset_in(addr, base, mask);
    let above = (base - addr) % (mask as int + 1);
    let below = off - MEM_PAGE_BYTES;
    if off < MEM_PAGE_BYTES {
        0
    } else if above <= below {
        -((above + 15) / 16)
    } else {
        below / 16 + 1
    }
}

pub ghost struct EditState {
    pub cursor: Option<MemCursor>,
    pub pending: Seq<(u32, u8)>,
    pub base: u32,
    pub rows: int,
}

/// Where an address is staged.
pub open spec fn pending_at(s: Seq<(u32, u8)>, addr: u32) -> Option<int>
    decreases s.len(),
{
    if s.len() == 0 {
        None
    } else if s.last().0 == addr {
        Some(s.len() - 1)
    } else {
        pending_at(s.drop_last(), addr)
    }
}

pub open spec fn staged_value(s: Seq<(u32, u8)>, addr: u32) -> Option<u8> {
    match pending_at(s, addr) {
        Some(i) => Some(s[i].1),
        None => None,
    }
}

pub open spec fn stage(s: Seq<(u32, u8)>, addr: u32, value: u8) -> Seq<(u32, u8)> {
    match pending_at(s, addr) {
        Some(i) => s.update(i, (addr, value)),
        None => s.push((addr, value)),
    }
}

pub open spec fn page_byte(page: &MemPage, addr: u32) -> u8 {
    let i = offset_in(addr, page.base, page.mask);
    if i < page.bytes@.len() {
        page.bytes@[i]
    } else {
        0
    }
}

/// The edits, the cursor and whether a byte is complete after a character was
/// typed over `actual`.
pub open spec fn typed(
    s: Seq<(u32, u8)>,
    c: MemCursor,
    ch: char,
    actual: u8,
) -> (Seq<(u32, u8)>, MemCursor, bool) {
    let now = match staged_value(s, c.addr) {
        Some(v) => v,
        None => actual,
    };
    match c.column {
        MemColumn::Hex => if digit(ch) >= 16 {
            (s, c, false)
        } else if c.high_nibble {
            (
                stage(s, c.addr, (digit(ch) * 16 + now % 16) as u8),
                MemCursor { high_nibble: false, ..c },
                false,
            )
        } else {
            (stage(s, c.addr, ((now / 16) * 16 + digit(ch)) as u8), c, true)
        },
        MemColumn::Ascii => if ' ' <= ch <= '~' {
            (stage(s, c.addr, ch as u8), c, true)
        } else {
            (s, c, false)
        },
    }
}

/// The cursor moved by a number of bytes, with the page following it; a whole
/// page pages the view, and the cursor keeps its place on it.
pub open spec fn moved(st: EditState, c: MemCursor, delta: int, mask: u32) -> EditState {
    let addr = ring(c.addr + delta, mask);
    let rows = if delta == MEM_PAGE_BYTES || delta == -(MEM_PAGE_BYTES as int) {
        delta / 16
    } else {
        follow_rows(addr, st.base, mask)
    };
    EditState {
        cursor: Some(MemCursor { addr, column: c.column, high_nibble: true }),
        base: if rows == 0 {
            st.base
        } else {
            ring(st.base + rows * 16, mask)
        },
        rows: st.rows + rows,
        ..st
    }
}

pub open spec fn delta_of(e: MemEvent) -> Option<int> {
    match e {
        MemEvent::Left => Some(-1),
        MemEvent::Right => Some(1),
        MemEvent::Up => Some(-16),
        MemEvent::Down => Some(16),
        MemEvent::PageUp => Some(-(MEM_PAGE_BYTES as int)),
        MemEvent::PageDown => Some(MEM_PAGE_BYTES as int),
        MemEvent::Backspace => Some(-1),
        _ => None,
    }
}

/// The state after one key that neither commits nor cancels.
pub open spec fn keyed(st: EditState, page: &MemPage, e: MemEvent) -> EditState {
    match st.cursor {
        None => st,
        Some(c) => if e is Backspace && !c.high_nibble {
            EditState {
                cursor: Some(MemCursor { high_nibble: true, ..c }),
                pending: st.pending.filter(|p: (u32, u8)| p.0 != c.addr),
                ..st
            }
        } else if let Some(delta) = delta_of(e) {
            moved(st, c, delta, page.mask)
        } else if let MemEvent::Typed(ch) = e {
            let (pending, c2, done) = typed(st.pending, c, ch, page_byte(page, c.addr));
            let st2 = EditState { pending, cursor: Some(c2), ..st };
            if done {
                moved(st2, c2, 1, page.mask)
            } else {
                st2
            }
        } else {
            st
        },
    }
}

/// The keys before the first Enter or Escape.
pub open spec fn live_keys(events: Seq<MemEvent>) -> Seq<MemEvent>
    decreases events.len(),
{
    if events.len() == 0 || events[0] is Enter || events[0] is Escape {
        Seq::empty()
    } else {
        seq![events[0]] + live_keys(events.skip(1))
    }
}

pub open spec fn run_keys(st: EditState, page: &MemPage, keys: Seq<MemEvent>) -> EditState
    decreases keys.len(),
{
    if keys.len() == 0 {
        st
    } else {
        keyed(run_keys(st, page, keys.drop_last()), page, keys.last())
    }
}

/// What ends the keys: the first Enter or Escape.
pub open spec fn ending(events: Seq<MemEvent>) -> Option<MemEvent> {
    let n = live_keys(events).len();
    if n < events.len() {
        Some(events[n as int])
    } else {
        None
    }
}

pub open spec fn distinct_edits(s: Seq<(u32, u8)>) -> bool {
    forall|i: int, j: int| 0 <= i < j < s.len() ==> (#[trigger] s[i]).0 != (#[trigger] s[j]).0
}

proof fn lemma_mask(x: u32, mask: u32)
    requires
        bus_mask(mask),
    ensures
        (x & mask) as int == (x as int) % (mask as int + 1),
{
    assert(x & 0x00FF_FFFFu32 == x % 0x0100_0000u32) by (bit_vector);
    assert(x & 0xFFFF_FFFFu32 == x) by (bit_vector);
    lemma_ring_facts(x as int, mask);
    if mask == 0x00FF_FFFF {
        assert((x % 0x0100_0000u32) as int == x as int % 0x0100_0000);
    }
}

proof fn lemma_ring_facts(a: int, mask: u32)
    requires
        bus_mask(mask),
    ensures
        0 <= a % (mask as int + 1) <= mask,
        0 <= a <= mask ==> a % (mask as int + 1) == a,
        -(mask as int + 1) <= a < 0 ==> a % (mask as int + 1) == a + mask + 1,
        (a + 0x2000_0000_0000) % (mask as int + 1) == a % (mask as int + 1),
        (a + 0x1_0000_0000) % (mask as int + 1) == a % (mask as int + 1),
        (a + mask + 1) % (mask as int + 1) == a % (mask as int + 1),
        (a - mask - 1) % (mask as int + 1) == a % (mask as int + 1),
{
    if mask == 0x00FF_FFFF {
        assert(mask as int + 1 == 0x0100_0000);
        assert(0 <= a % 0x0100_0000 <= 0x00FF_FFFF);
        assert(0 <= a < 0x0100_0000 ==> a % 0x0100_0000 == a);
        assert(-0x0100_0000 <= a < 0 ==> a % 0x0100_0000 == a + 0x0100_0000);
        assert((a + 0x2000_0000_0000) % 0x0100_0000 == a % 0x0100_0000);
        assert((a + 0x1_0000_0000) % 0x0100_0000 == a % 0x0100_0000);
        assert((a + 0x0100_0000) % 0x0100_0000 == a % 0x0100_0000);
        assert((a - 0x0100_0000) % 0x0100_0000 == a % 0x0100_0000);
    } else {
        assert(mask as int + 1 == 0x1_0000_0000);
        assert(0 <= a % 0x1_0000_0000 <= 0xFFFF_FFFF);
        assert(0 <= a < 0x1_0000_0000 ==> a % 0x1_0000_0000 == a);
        assert(-0x1_0000_0000 <= a < 0 ==> a % 0x1_0000_0000 == a + 0x1_0000_0000);
        assert((a + 0x2000_0000_0000) % 0x1_0000_0000 == a % 0x1_0000_0000);
        assert((a + 0x1_0000_0000) % 0x1_0000_0000 == a % 0x1_0000_0000);
        assert((a + 0x1_0000_0000) % 0x1_0000_0000 == a % 0x1_0000_0000);
        assert((a - 0x1_0000_0000) % 0x1_0000_0000 == a % 0x1_0000_0000);
    }
}

/// The distance of two addresses on the ring, from wrapping arithmetic.
fn ring_sub(a: u32, b: u32, mask: u32) -> (r: u32)
    requires
        bus_mask(mask),
    ensures
        r == (a - b) % (mask as int + 1),
{
    let d: u32 = a.wrapping_sub(b);
    proof {
        lemma_mask(d, mask);
        lemma_ring_facts(a - b, mask);
    }
    d & mask
}

fn ring_add(a: u32, delta: i64, mask: u32) -> (r: u32)
    requires
        bus_mask(mask),
        -0x1000_0000_0000 <= delta <= 0x1000_0000_0000,
    ensures
        r == ring(a + delta, mask),
{
    let n: i64 = mask as i64 + 1;
    // A multiple of the ring's size keeps the sum positive.
    let sum: i64 = a as i64 + delta + 0x2000_0000_0000;
    proof {
        lemma_ring_facts(a + delta, mask);
    }
    (sum % n) as u32
}

pub fn follow(addr: u32, base: u32, mask: u32) -> (rows: i64)
    requires
        bus_mask(mask),
    ensures
        rows == follow_rows(addr, base, mask),
        -0x1000_0000 <= rows <= 0x1000_0000,
{
    let off: u32 = ring_sub(addr, base, mask);
    if off < MEM_PAGE_BYTES {
        return 0;
    }
    let above: u32 = ring_sub(base, addr, mask);
    let below: u32 = off - MEM_PAGE_BYTES;
    if above <= below {
        -((above as i64 + 15) / 16)
    } else {
        below as i64 / 16 + 1
    }
}

/// Scrolling by the rows that an address asks for puts it on the page.
pub proof fn lemma_follow_shows(addr: u32, base: u32, mask: u32)
    requires
        bus_mask(mask),
        addr <= mask,
        base <= mask,
    ensures
        visible(addr, ring(base + follow_rows(addr, base, mask) * 16, mask), mask),
{
    let n = mask as int + 1;
    let off = offset_in(addr, base, mask);
    let rows = follow_rows(addr, base, mask);
    let above = (base - addr) % n;
    lemma_ring_facts(addr - base, mask);
    lemma_ring_facts(base - addr, mask);
    lemma_ring_facts(base as int, mask);
    assert(off == (if addr >= base {
        addr - base
    } else {
        addr - base + n
    }));
    assert(above == (if base >= addr {
        base - addr
    } else {
        base - addr + n
    }));
    if off >= MEM_PAGE_BYTES {
        if above <= off - MEM_PAGE_BYTES {
            let up = ((above + 15) / 16) * 16;
            assert(above <= up <= above + 15);
            assert(base + rows * 16 == base - up);
            lemma_ring_offset(addr, base - up, mask, up - above);
        } else {
            let below = off - MEM_PAGE_BYTES;
            let down = (below / 16 + 1) * 16;
            assert(below < down <= below + 16);
            assert(base + rows * 16 == base + down);
            lemma_ring_offset(addr, base + down, mask, off - down);
        }
    } else {
        assert(base as int % n == base);
    }
}

proof fn lemma_ring_offset(addr: u32, start: int, mask: u32, d: int)
    requires
        bus_mask(mask),
        0 <= d < MEM_PAGE_BYTES,
        addr - start == d || addr - start == d + mask + 1 || addr - start == d - mask - 1,
    ensures
        offset_in(addr, ring(start, mask), mask) == d,
{
    let n = mask as int + 1;
    assert((addr - start % n) % n == (addr - start) % n) by (nonlinear_arith)
        requires
            n > 0,
    {
        let q = start / n;
        assert(start == q * n + start % n);
        assert(addr - start % n == (addr - start) + q * n);
        vstd::arithmetic::div_mod::lemma_mod_multiples_vanish(q, addr - start, n);
        assert(((addr - start) + n * q) % n == (addr - start) % n);
    }
    lemma_ring_facts(d, mask);
}

fn find_pending(s: &Vec<(u32, u8)>, addr: u32) -> (r: Option<usize>)
    ensures
        r matches Some(i) ==> i < s@.len() && pending_at(s@, addr) == Some(i as int),
        r is None ==> pending_at(s@, addr) is None,
{
    let mut n: usize = s.len();
    assert(s@.take(n as int) =~= s@);
    while n > 0
        invariant
            n <= s@.len(),
            pending_at(s@, addr) == pending_at(s@.take(n as int), addr),
        decreases n,
    {
        assert(s@.take(n as int).drop_last() =~= s@.take(n - 1));
        assert(s@.take(n as int).last() == s@[n - 1]);
        if s[n - 1].0 == addr {
            return Some(n - 1);
        }
        n -= 1;
    }
    None
}

proof fn lemma_pending_at(s: Seq<(u32, u8)>, addr: u32)
    ensures
        pending_at(s, addr) matches Some(i) ==> 0 <= i < s.len() && s[i].0 == addr,
        pending_at(s, addr) is None ==> forall|i: int|
            0 <= i < s.len() ==> (#[trigger] s[i]).0 != addr,
    decreases s.len(),
{
    if s.len() > 0 {
        lemma_pending_at(s.drop_last(), addr);
        assert(forall|i: int| 0 <= i < s.len() - 1 ==> s.drop_last()[i] == s[i]);
    }
}

impl MemEdit {
    pub open spec fn state(&self, base: u32, rows: int) -> EditState {
        EditState { cursor: self.cursor, pending: self.pending@, base, rows }
    }

    pub fn new() -> (r: MemEdit)
        ensures
            r.cursor is None,
            r.pending@.len() == 0,
    {
        MemEdit { cursor: None, pending: Vec::new() }
    }

    /// The value staged for an address.
    pub fn mem_pending_value(&self, addr: u32) -> (r: Option<u8>)
        ensures
            r == staged_value(self.pending@, addr),
    {
        match find_pending(&self.pending, addr) {
            Some(i) => Some(self.pending[i].1),
            None => None,
        }
    }

    /// Drops the staged edits and the cursor.
    pub fn mem_edit_cancel(&mut self)
        ensures
            final(self).cursor is None,
            final(self).pending@.len() == 0,
    {
        self.cursor = None;
        self.pending = Vec::new();
    }

    /// Takes the staged edits to be written, and drops the cursor.
    pub fn mem_edit_take(&mut self) -> (r: Vec<(u32, u8)>)
        ensures
            r@ == old(self).pending@,
            final(self).cursor is None,
            final(self).pending@.len() == 0,
    {
        let mut out: Vec<(u32, u8)> = Vec::new();
        std::mem::swap(&mut out, &mut self.pending);
        self.cursor = None;
        out
    }

    fn put_edit(&mut self, addr: u32, value: u8)
        ensures
            final(self).pending@ == stage(old(self).pending@, addr, value),
            final(self).cursor == old(self).cursor,
    {
        match find_pending(&self.pending, addr) {
            Some(i) => {
                self.pending.set(i, (addr, value));
            },
            None => {
                self.pending.push((addr, value));
            },
        }
    }

    /// Types a character over the byte at the cursor; says whether that
    /// completed the byte.
    pub fn mem_type_char(&mut self, ch: char, actual: u8) -> (done: bool)
        requires
            old(self).cursor is Some,
        ensures
            ({
                let (pending, c, d) = typed(
                    old(self).pending@,
                    old(self).cursor.unwrap(),
                    ch,
                    actual,
                );
                &&& final(self).pending@ == pending
                &&& final(self).cursor == Some(c)
                &&& done == d
            }),
    {
        let mut c: MemCursor = self.cursor.unwrap();
        let now: u8 = match self.mem_pending_value(c.addr) {
            Some(v) => v,
            None => actual,
        };
        match c.column {
            MemColumn::Hex => {
                let d: u32 = digit_of(ch);
                if d >= 16 {
                    return false;
                }
                if c.high_nibble {
                    self.put_edit(c.addr, (d as u8) * 16 + now % 16);
                    c.high_nibble = false;
                    self.cursor = Some(c);
                    false
                } else {
                    self.put_edit(c.addr, (now / 16) * 16 + d as u8);
                    true
                }
            },
            MemColumn::Ascii => {
                if ' ' <= ch && ch <= '~' {
                    self.put_edit(c.addr, ch as u8);
                    true
                } else {
                    false
                }
            },
        }
    }

    fn drop_edits_at(&mut self, addr: u32)
        ensures
            final(self).pending@ == old(self).pending@.filter(|p: (u32, u8)| p.0 != addr),
            final(self).cursor == old(self).cursor,
    {
        let ghost keep = |p: (u32, u8)| p.0 != addr;
        let ghost all = self.pending@;
        let mut kept: Vec<(u32, u8)> = Vec::new();
        let mut i: usize = 0;
        assert(all.take(0).filter(keep) =~= Seq::empty()) by {
            reveal(Seq::filter);
        }
        while i < self.pending.len()
            invariant
                i <= all.len(),
                self.pending@ == all,
                self.cursor == old(self).cursor,
                keep == (|p: (u32, u8)| p.0 != addr),
                kept@ == all.take(i as int).filter(keep),
            decreases all.len() - i,
        {
            proof {
                reveal(Seq::filter);
                assert(all.take(i + 1).drop_last() =~= all.take(i as int));
                assert(all.take(i + 1).last() == all[i as int]);
            }
            if self.pending[i].0 != addr {
                kept.push(self.pending[i]);
            }
            i += 1;
        }
        assert(all.take(i as int) =~= all);
        self.pending = kept;
    }

    /// Moves the cursor; returns the rows that the page must scroll.
    fn move_cursor(&mut self, c: MemCursor, delta: i64, base: u32, mask: u32) -> (rows: i64)
        requires
            bus_mask(mask),
            -256 <= delta <= 256,
        ensures
            final(self).pending == old(self).pending,
            ({
                let m = moved(old(self).state(base, 0), c, delta as int, mask);
                &&& final(self).cursor == m.cursor
                &&& rows == m.rows
            }),
            -0x1000_0000 <= rows <= 0x1000_0000,
    {
        let addr: u32 = ring_add(c.addr, delta, mask);
        self.cursor = Some(MemCursor { addr, column: c.column, high_nibble: true });
        if delta == MEM_PAGE_BYTES as i64 {
            16
        } else if delta == -(MEM_PAGE_BYTES as i64) {
            -16
        } else {
            follow(addr, base, mask)
        }
    }
}

fn page_byte_at(page: &MemPage, addr: u32) -> (r: u8)
    requires
        bus_mask(page.mask),
    ensures
        r == page_byte(page, addr),
{
    let i: u32 = ring_sub(addr, page.base, page.mask);
    if (i as u64) < page.bytes.len() as u64 {
        page.bytes[i as usize]
    } else {
        0
    }
}

fn delta_for(e: MemEvent) -> (r: Option<i64>)
    ensures
        r matches Some(d) ==> delta_of(e) == Some(d as int) && -256 <= d <= 256,
        r is None ==> delta_of(e) is None,
{
    match e {
        MemEvent::Left => Some(-1),
        MemEvent::Right => Some(1),
        MemEvent::Up => Some(-16),
        MemEvent::Down => Some(16),
        MemEvent::PageUp => Some(-256),
        MemEvent::PageDown => Some(256),
        MemEvent::Backspace => Some(-1),
        _ => None,
    }
}

/// Handles the keys while a byte is selected: characters edit it, the cursor
/// keys move and the page follows, Enter commits the staged edits, Escape
/// drops them. Nothing here touches the machine.
pub fn memory_edit_keys(edit: &mut MemEdit, page: &MemPage, events: &Vec<MemEvent>) -> (r:
    MemEditOutcome)
    requires
        bus_mask(page.mask),
        events@.len() <= 0x1000_0000,
    ensures
        ({
            let st = run_keys(old(edit).state(page.base, 0), page, live_keys(events@));
            match ending(events@) {
                Some(MemEvent::Escape) => {
                    &&& final(edit).cursor is None
                    &&& final(edit).pending@.len() == 0
                    &&& r.commit@.len() == 0
                    &&& r.scroll_rows == 0
                },
                Some(_) => {
                    &&& final(edit).cursor is None
                    &&& final(edit).pending@.len() == 0
                    &&& r.commit@ == st.pending
                    &&& r.scroll_rows == st.rows
                },
                None => {
                    &&& final(edit).cursor == st.cursor
                    &&& final(edit).pending@ == st.pending
                    &&& r.commit@.len() == 0
                    &&& r.scroll_rows == st.rows
                },
            }
        }),
{
    let mut base: u32 = page.base;
    let mut rows: i64 = 0;
    let ghost start = edit.state(page.base, 0);
    let mut i: usize = 0;
    proof {
        lemma_live_all(events@, 0);
        assert(events@.take(0) =~= Seq::empty());
    }
    while i < events.len()
        invariant
            i <= events@.len() <= 0x1000_0000,
            bus_mask(page.mask),
            start == old(edit).state(page.base, 0),
            forall|k: int| 0 <= k < i ==> !(events@[k] is Enter) && !(events@[k] is Escape),
            edit.state(base, rows as int) == run_keys(start, page, events@.take(i as int)),
            -(i as int) * 0x1000_0000 <= rows <= i * 0x1000_0000,
        decreases events@.len() - i,
    {
        let e: MemEvent = events[i];
        let ghost before = edit.state(base, rows as int);
        proof {
            assert(events@.take(i + 1).drop_last() =~= events@.take(i as int));
            assert(events@.take(i + 1).last() == e);
        }
        if e == MemEvent::Escape {
            proof {
                lemma_live_all(events@, i as int);
            }
            edit.mem_edit_cancel();
            return MemEditOutcome { commit: Vec::new(), scroll_rows: 0 };
        }
        if e == MemEvent::Enter {
            proof {
                lemma_live_all(events@, i as int);
            }
            let commit = edit.mem_edit_take();
            return MemEditOutcome { commit, scroll_rows: rows };
        }
        match edit.cursor {
            Some(c) => {
                let mut more: i64 = 0;
                if e == MemEvent::Backspace && !c.high_nibble {
                    edit.drop_edits_at(c.addr);
                    edit.cursor =
                    Some(MemCursor { addr: c.addr, column: c.column, high_nibble: true });
                } else {
                    match delta_for(e) {
                        Some(delta) => {
                            more = edit.move_cursor(c, delta, base, page.mask);
                        },
                        None => {
                            match e {
                                MemEvent::Typed(ch) => {
                                    let actual: u8 = page_byte_at(page, c.addr);
                                    if edit.mem_type_char(ch, actual) {
                                        let c2: MemCursor = edit.cursor.unwrap();
                                        more = edit.move_cursor(c2, 1, base, page.mask);
                                    }
                                },
                                _ => {},
                            }
                        },
                    }
                }
                if more != 0 {
                    base = ring_add(base, more * 16, page.mask);
                    rows += more;
                }
                assert(edit.cursor == keyed(before, page, e).cursor);
                assert(edit.pending@ == keyed(before, page, e).pending);
                assert(rows == keyed(before, page, e).rows);
            },
            None => {},
        }
        i += 1;
    }
    proof {
        lemma_live_all(events@, i as int);
        assert(events@.take(i as int) =~= events@);
    }
    MemEditOutcome { commit: Vec::new(), scroll_rows: rows }
}

proof fn lemma_live_all(events: Seq<MemEvent>, n: int)
    requires
        0 <= n <= events.len(),
        forall|k: int| 0 <= k < n ==> !(events[k] is Enter) && !(events[k] is Escape),
        n < events.len() ==> true,
    ensures
        live_keys(events).len() >= n,
        n == events.len() || events[n] is Enter || events[n] is Escape ==> live_keys(events)
            == events.take(n),
    decreases n,
{
    if n > 0 {
        let t = events.skip(1);
        assert(forall|k: int| 0 <= k < t.len() ==> t[k] == events[k + 1]);
        lemma_live_all(t, n - 1);
        assert(seq![events[0]] + t.take(n - 1) =~= events.take(n));
    } else {
        assert(events.take(0) =~= Seq::empty());
    }
}

proof fn lemma_shift(a: u32, b: u32, d: int, mask: u32)
    requires
        bus_mask(mask),
        a <= mask,
        b <= mask,
        d == 256 || d == -256,
    ensures
        offset_in(ring(a + d, mask), ring(b + d, mask), mask) == offset_in(a, b, mask),
{
    lemma_ring_facts(a + d, mask);
    lemma_ring_facts(b + d, mask);
    lemma_ring_facts(a + d - mask - 1, mask);
    lemma_ring_facts(b + d - mask - 1, mask);
    lemma_ring_facts(a - b, mask);
    let a2 = ring(a + d, mask);
    let b2 = ring(b + d, mask);
    assert(a2 == a + d || a2 == a + d + mask + 1 || a2 == a + d - mask - 1);
    assert(b2 == b + d || b2 == b + d + mask + 1 || b2 == b + d - mask - 1);
    lemma_ring_facts(a2 - b2, mask);
}

/// A cursor on the page stays on the page whatever key is pressed: the page
/// scrolls after it.
pub proof fn lemma_cursor_stays_visible(st: EditState, page: &MemPage, e: MemEvent)
    requires
        bus_mask(page.mask),
        st.base <= page.mask,
        st.cursor matches Some(c) ==> c.addr <= page.mask && visible(c.addr, st.base, page.mask),
    ensures
        ({
            let t = keyed(st, page, e);
            &&& t.base <= page.mask
            &&& t.cursor matches Some(c) ==> c.addr <= page.mask && visible(
                c.addr,
                t.base,
                page.mask,
            )
        }),
{
    if let Some(c) = st.cursor {
        let mask = page.mask;
        if !(e is Backspace && !c.high_nibble) {
            if let Some(delta) = delta_of(e) {
                lemma_moved_visible(st, c, delta, mask);
            } else if let MemEvent::Typed(ch) = e {
                let (pending, c2, done) = typed(st.pending, c, ch, page_byte(page, c.addr));
                if done {
                    lemma_moved_visible(EditState { pending, cursor: Some(c2), ..st }, c2, 1, mask);
                }
            }
        }
    }
}

proof fn lemma_moved_visible(st: EditState, c: MemCursor, delta: int, mask: u32)
    requires
        bus_mask(mask),
        st.base <= mask,
        c.addr <= mask,
        visible(c.addr, st.base, mask),
    ensures
        ({
            let t = moved(st, c, delta, mask);
            &&& t.base <= mask
            &&& t.cursor matches Some(d) && d.addr <= mask && visible(d.addr, t.base, mask)
        }),
{
    let addr = ring(c.addr + delta, mask);
    lemma_ring_facts(c.addr + delta, mask);
    if delta == 256 || delta == -256 {
        lemma_shift(c.addr, st.base, delta, mask);
        lemma_ring_facts(st.base + delta, mask);
    } else {
        lemma_follow_shows(addr, st.base, mask);
        lemma_ring_facts(st.base + follow_rows(addr, st.base, mask) * 16, mask);
        lemma_ring_facts(st.base as int, mask);
    }
}

/// No key stages two values for one address: what Enter commits names every
/// address once.
pub proof fn lemma_edits_stay_distinct(st: EditState, page: &MemPage, e: MemEvent)
    requires
        distinct_edits(st.pending),
    ensures
        distinct_edits(keyed(st, page, e).pending),
{
    if let Some(c) = st.cursor {
        if e is Backspace && !c.high_nibble {
            lemma_filter_distinct(st.pending, |p: (u32, u8)| p.0 != c.addr);
        } else if let MemEvent::Typed(ch) = e {
            lemma_pending_at(st.pending, c.addr);
        }
    }
}

proof fn lemma_filter_distinct(s: Seq<(u32, u8)>, keep: spec_fn((u32, u8)) -> bool)
    requires
        distinct_edits(s),
    ensures
        distinct_edits(s.filter(keep)),
        forall|i: int|
            0 <= i < s.filter(keep).len() ==> s.contains(#[trigger] s.filter(keep)[i]),
    decreases s.len(),
{
    reveal(Seq::filter);
    if s.len() > 0 {
        let t = s.drop_last();
        assert(forall|i: int| 0 <= i < t.len() ==> t[i] == s[i]);
        lemma_filter_distinct(t, keep);
        let f = t.filter(keep);
        assert forall|i: int| 0 <= i < f.len() implies (#[trigger] f[i]).0 != s.last().0
            && s.contains(f[i]) by {
            let k = t.index_of(f[i]);
            assert(s[k] == f[i]);
            assert(s[s.len() - 1] == s.last());
        }
        assert(s.contains(s.last())) by {
            assert(s[s.len() - 1] == s.last());
        }
    }
}

/// An address so many bytes on, on a bus whose highest address is `mask`: past
/// either end it comes in again at the other.
pub open spec fn stepped(addr: u32, by: int, mask: u32) -> int {
    if addr + by > mask {
        addr + by - mask - 1
    } else if addr + by < 0 {
        addr + by + mask + 1
    } else {
        addr + by
    }
}

proof fn lemma_moves(st: EditState, page: &MemPage, c: MemCursor, e: MemEvent, by: int)
    requires
        bus_mask(page.mask),
        st.cursor == Some(c),
        c.addr <= page.mask,
        delta_of(e) == Some(by),
        -256 <= by <= 256,
        !(e is Backspace) || c.high_nibble,
    ensures
        run_keys(st, page, seq![e]).cursor == Some(
            MemCursor {
                addr: stepped(c.addr, by, page.mask) as u32,
                column: c.column,
                high_nibble: true,
            },
        ),
        run_keys(st, page, seq![e]).pending == st.pending,
{
    reveal_with_fuel(run_keys, 2);
    assert(seq![e].drop_last() =~= Seq::empty());
    assert(run_keys(st, page, seq![e]) == keyed(st, page, e));
    lemma_ring_facts(c.addr + by, page.mask);
    lemma_ring_facts(c.addr + by - page.mask - 1, page.mask);
}

/// The cursor keys move the cursor and stage nothing: Left and Right by a
/// byte, Up and Down by a row of sixteen, the page keys by a page of two
/// hundred and fifty-six, each on the ring of the bus; a Backspace over a byte
/// that was not begun goes back a byte. What is typed next begins a byte anew,
/// in the same column.
pub proof fn lemma_cursor_keys_move(st: EditState, page: &MemPage, c: MemCursor)
    requires
        bus_mask(page.mask),
        st.cursor == Some(c),
        c.addr <= page.mask,
    ensures
        run_keys(st, page, seq![MemEvent::Right]).cursor matches Some(d) && d.addr == (if c.addr
            == page.mask {
            0
        } else {
            c.addr + 1
        }) && d.column == c.column && d.high_nibble,
        run_keys(st, page, seq![MemEvent::Left]).cursor matches Some(d) && d.addr == (if c.addr
            == 0 {
            page.mask as int
        } else {
            c.addr - 1
        }) && d.column == c.column && d.high_nibble,
        run_keys(st, page, seq![MemEvent::Down]).cursor matches Some(d) && d.addr == stepped(
            c.addr,
            16,
            page.mask,
        ) && d.column == c.column && d.high_nibble,
        run_keys(st, page, seq![MemEvent::Up]).cursor matches Some(d) && d.addr == stepped(
            c.addr,
            -16,
            page.mask,
        ) && d.column == c.column && d.high_nibble,
        run_keys(st, page, seq![MemEvent::PageDown]).cursor matches Some(d) && d.addr == stepped(
            c.addr,
            256,
            page.mask,
        ) && d.column == c.column && d.high_nibble,
        run_keys(st, page, seq![MemEvent::PageUp]).cursor matches Some(d) && d.addr == stepped(
            c.addr,
            -256,
            page.mask,
        ) && d.column == c.column && d.high_nibble,
        c.high_nibble ==> run_keys(st, page, seq![MemEvent::Backspace]).cursor == run_keys(
            st,
            page,
            seq![MemEvent::Left],
        ).cursor,
        forall|e: MemEvent|
            (e is Left || e is Right || e is Up || e is Down || e is PageUp || e is PageDown)
                ==> #[trigger] run_keys(st, page, seq![e]).pending == st.pending,
{
    lemma_moves(st, page, c, MemEvent::Right, 1);
    lemma_moves(st, page, c, MemEvent::Left, -1);
    lemma_moves(st, page, c, MemEvent::Down, 16);
    lemma_moves(st, page, c, MemEvent::Up, -16);
    lemma_moves(st, page, c, MemEvent::PageDown, 256);
    lemma_moves(st, page, c, MemEvent::PageUp, -256);
    if c.high_nibble {
        lemma_moves(st, page, c, MemEvent::Backspace, -1);
    }
}

/// Each of the cursor keys undoes the one that goes the other way.
pub proof fn lemma_cursor_keys_undo(
    st: EditState,
    page: &MemPage,
    c: MemCursor,
    there: MemEvent,
    back: MemEvent,
)
    requires
        bus_mask(page.mask),
        st.cursor == Some(c),
        c.addr <= page.mask,
        (there is Left && back is Right) || (there is Right && back is Left) || (there is Up
            && back is Down) || (there is Down && back is Up) || (there is PageUp
            && back is PageDown) || (there is PageDown && back is PageUp),
    ensures
        run_keys(st, page, seq![there, back]).cursor matches Some(d) && d.addr == c.addr && d.column
            == c.column,
        run_keys(st, page, seq![there]).cursor matches Some(d) && d.addr != c.addr,
{
    let by = delta_of(there).unwrap();
    assert(delta_of(back) == Some(-by));
    lemma_moves(st, page, c, there, by);
    let mid = run_keys(st, page, seq![there]);
    let d = mid.cursor.unwrap();
    lemma_moves(mid, page, d, back, -by);
    lemma_run_two(st, page, there, back);
}

proof fn lemma_run_two(st: EditState, page: &MemPage, a: MemEvent, b: MemEvent)
    ensures
        run_keys(st, page, seq![a, b]) == run_keys(run_keys(st, page, seq![a]), page, seq![b]),
{
    reveal_with_fuel(run_keys, 2);
    assert(seq![a, b].drop_last() =~= seq![a]);
    assert(seq![b].drop_last() =~= Seq::empty());
}

/// A page key pages the view by its sixteen rows, so that the cursor keeps its
/// place on it.
pub proof fn lemma_page_keys_page(st: EditState, page: &MemPage)
    requires
        bus_mask(page.mask),
        st.cursor is Some,
    ensures
        run_keys(st, page, seq![MemEvent::PageDown]).rows == st.rows + 16,
        run_keys(st, page, seq![MemEvent::PageUp]).rows == st.rows - 16,
{
    reveal_with_fuel(run_keys, 2);
    assert(seq![MemEvent::PageDown].drop_last() =~= Seq::empty());
    assert(seq![MemEvent::PageUp].drop_last() =~= Seq::empty());
}

/// The value of a hexadecimal digit.
pub open spec fn nibble(ch: char) -> Option<u8> {
    if '0' <= ch <= '9' {
        Some((ch as int - '0' as int) as u8)
    } else if 'a' <= ch <= 'f' {
        Some((ch as int - 'a' as int + 10) as u8)
    } else if 'A' <= ch <= 'F' {
        Some((ch as int - 'A' as int + 10) as u8)
    } else {
        None
    }
}

proof fn lemma_staged(s: Seq<(u32, u8)>, addr: u32, value: u8)
    ensures
        staged_value(stage(s, addr, value), addr) == Some(value),
        forall|a: u32|
            a != addr ==> #[trigger] staged_value(stage(s, addr, value), a) == staged_value(s, a),
{
    lemma_pending_at(s, addr);
    let t = stage(s, addr, value);
    match pending_at(s, addr) {
        Some(i) => {
            lemma_update_pending(s, i, addr, value);
        },
        None => {
            assert(t.drop_last() =~= s);
            assert forall|a: u32| a != addr implies #[trigger] staged_value(t, a) == staged_value(
                s,
                a,
            ) by {
                lemma_pending_at(s, a);
            }
        },
    }
}

proof fn lemma_update_pending(s: Seq<(u32, u8)>, i: int, addr: u32, value: u8)
    requires
        0 <= i < s.len(),
        s[i].0 == addr,
    ensures
        forall|a: u32| #[trigger]
            pending_at(s.update(i, (addr, value)), a) == pending_at(s, a),
        pending_at(s, addr) == Some(i) ==> staged_value(s.update(i, (addr, value)), addr) == Some(
            value,
        ),
        forall|a: u32|
            a != addr ==> #[trigger] staged_value(s.update(i, (addr, value)), a) == staged_value(
                s,
                a,
            ),
    decreases s.len(),
{
    let t = s.update(i, (addr, value));
    if i < s.len() - 1 {
        assert(t.drop_last() =~= s.drop_last().update(i, (addr, value)));
        lemma_update_pending(s.drop_last(), i, addr, value);
        assert(t.last() == s.last());
        assert forall|a: u32| #[trigger] pending_at(t, a) == pending_at(s, a) by {
            assert(pending_at(t.drop_last(), a) == pending_at(s.drop_last(), a));
        }
    } else {
        assert(t.drop_last() =~= s.drop_last());
    }
    assert forall|a: u32| a != addr implies #[trigger] staged_value(t, a) == staged_value(s, a) by {
        lemma_pending_at(s, a);
        lemma_pending_at(t, a);
        assert(pending_at(t, a) == pending_at(s, a));
    }
}

/// Two hexadecimal digits typed over a byte stage the byte that they spell,
/// the first as its upper half, and take the cursor to the next byte; the
/// first alone keeps the lower half that was there, and the cursor. Nothing
/// else is staged. Any other character stages nothing.
pub proof fn lemma_digits_spell_a_byte(
    st: EditState,
    page: &MemPage,
    c: MemCursor,
    a: char,
    b: char,
)
    requires
        bus_mask(page.mask),
        st.cursor == Some(c),
        c.addr <= page.mask,
        c.column is Hex,
        c.high_nibble,
    ensures
        nibble(a) is None ==> run_keys(st, page, seq![MemEvent::Typed(a)]) == st,
        nibble(a) matches Some(x) ==> {
            let t = run_keys(st, page, seq![MemEvent::Typed(a)]);
            &&& t.cursor == Some(MemCursor { high_nibble: false, ..c })
            &&& staged_value(t.pending, c.addr) == Some(
                (x * 16 + (match staged_value(st.pending, c.addr) {
                    Some(v) => v,
                    None => page_byte(page, c.addr),
                }) % 16) as u8,
            )
            &&& forall|k: u32|
                k != c.addr ==> #[trigger] staged_value(t.pending, k) == staged_value(
                    st.pending,
                    k,
                )
        },
        nibble(a) is Some && nibble(b) is Some ==> {
            let t = run_keys(st, page, seq![MemEvent::Typed(a), MemEvent::Typed(b)]);
            &&& staged_value(t.pending, c.addr) == Some(
                (nibble(a).unwrap() * 16 + nibble(b).unwrap()) as u8,
            )
            &&& t.cursor matches Some(d) && d.addr == (if c.addr == page.mask {
                0
            } else {
                c.addr + 1
            }) && d.column is Hex && d.high_nibble
            &&& forall|k: u32|
                k != c.addr ==> #[trigger] staged_value(t.pending, k) == staged_value(
                    st.pending,
                    k,
                )
        },
{
    reveal_with_fuel(run_keys, 3);
    let e = MemEvent::Typed(a);
    let f = MemEvent::Typed(b);
    assert(seq![e].drop_last() =~= Seq::empty());
    assert(seq![e, f].drop_last() =~= seq![e]);
    let now = match staged_value(st.pending, c.addr) {
        Some(v) => v,
        None => page_byte(page, c.addr),
    };
    if nibble(a) is Some {
        let v1 = (digit(a) * 16 + now % 16) as u8;
        lemma_staged(st.pending, c.addr, v1);
        let t = run_keys(st, page, seq![e]);
        assert(t == keyed(st, page, e));
        if nibble(b) is Some {
            let v2 = ((v1 / 16) * 16 + digit(b)) as u8;
            lemma_staged(t.pending, c.addr, v2);
            lemma_ring_facts(c.addr + 1, page.mask);
            lemma_ring_facts(c.addr - page.mask, page.mask);
        }
    }
}

/// A printable character typed in the character column stages its own code
/// and takes the cursor to the next byte; any other stages nothing.
pub proof fn lemma_characters_are_their_codes(st: EditState, page: &MemPage, c: MemCursor, ch: char)
    requires
        bus_mask(page.mask),
        st.cursor == Some(c),
        c.addr <= page.mask,
        c.column is Ascii,
    ensures
        ({
            let t = run_keys(st, page, seq![MemEvent::Typed(ch)]);
            if 32 <= ch as int <= 126 {
                &&& staged_value(t.pending, c.addr) == Some(ch as u8)
                &&& t.cursor matches Some(d) && d.addr == (if c.addr == page.mask {
                    0
                } else {
                    c.addr + 1
                }) && d.column is Ascii
                &&& forall|k: u32|
                    k != c.addr ==> #[trigger] staged_value(t.pending, k) == staged_value(
                        st.pending,
                        k,
                    )
            } else {
                t == st
            }
        }),
{
    reveal_with_fuel(run_keys, 2);
    assert(seq![MemEvent::Typed(ch)].drop_last() =~= Seq::empty());
    lemma_staged(st.pending, c.addr, ch as u8);
    lemma_ring_facts(c.addr + 1, page.mask);
    lemma_ring_facts(c.addr - page.mask, page.mask);
}

/// A Backspace in the middle of a byte takes back what was begun there and
/// nothing else: the byte is no longer staged, and the cursor stays on it.
pub proof fn lemma_backspace_takes_back(st: EditState, page: &MemPage, c: MemCursor)
    requires
        st.cursor == Some(c),
        !c.high_nibble,
    ensures
        ({
            let t = run_keys(st, page, seq![MemEvent::Backspace]);
            &&& t.cursor == Some(MemCursor { high_nibble: true, ..c })
            &&& t.rows == st.rows
            &&& staged_value(t.pending, c.addr) is None
            &&& forall|i: int|
                0 <= i < st.pending.len() && (#[trigger] st.pending[i]).0 != c.addr
                    ==> t.pending.contains(st.pending[i])
        }),
{
    reveal_with_fuel(run_keys, 2);
    assert(seq![MemEvent::Backspace].drop_last() =~= Seq::empty());
    let keep = |p: (u32, u8)| p.0 != c.addr;
    let t = st.pending.filter(keep);
    assert(run_keys(st, page, seq![MemEvent::Backspace]).pending == t);
    lemma_pending_at(t, c.addr);
    if let Some(i) = pending_at(t, c.addr) {
        st.pending.lemma_filter_pred(keep, i);
        assert(keep(t[i]));
    }
    assert forall|i: int| 0 <= i < st.pending.len() && (#[trigger] st.pending[i]).0
        != c.addr implies t.contains(st.pending[i]) by {
        st.pending.lemma_filter_contains(keep, i);
    }
}

/// What the Memory tab says of a click on a byte that cannot be changed.
pub open spec fn refusal(addr: u32) -> Seq<char> {
    "$"@ + hex(addr as int, 6) + " is read-only (ROM or a device window); not editable"@
}

/// A click on a byte: RAM is selected for editing, anything else is refused
/// with a status that says so.
pub fn memory_click(edit: &mut MemEdit, addr: u32, column: MemColumn, writable: bool) -> (status:
    Option<String>)
    ensures
        final(edit).pending == old(edit).pending,
        writable ==> status is None && final(edit).cursor == Some(
            MemCursor { addr, column, high_nibble: true },
        ),
        !writable ==> final(edit).cursor == old(edit).cursor && (status matches Some(t) && t@
            == refusal(addr)),
{
    if writable {
        edit.cursor = Some(MemCursor::new(addr, column));
        return None;
    }
    let mut text = "$".to_owned();
    put_hex(&mut text, addr as u64, 6);
    put(&mut text, " is read-only (ROM or a device window); not editable");
    Some(text)
}

/// A byte as a cell shows it: two hexadecimal digits, or the character where
/// it is printable and a full stop where it is not.
pub open spec fn cell(value: u8, column: MemColumn) -> Seq<char> {
    match column {
        MemColumn::Hex => hex(value as int, 2),
        MemColumn::Ascii => if 0x20 <= value < 0x7F {
            seq![value as char]
        } else {
            seq!['.']
        },
    }
}

pub fn cell_text(value: u8, column: MemColumn) -> (r: String)
    ensures
        r@ == cell(value, column),
{
    let mut out = String::new();
    match column {
        MemColumn::Hex => put_hex(&mut out, value as u64, 2),
        MemColumn::Ascii => if 0x20 <= value && value < 0x7F {
            out.push(value as char);
        } else {
            out.push('.');
        },
    }
    assert(out@ =~= cell(value, column));
    out
}

/// How many of the edits reach writable RAM, and the first that does not.
pub open spec fn writable_edits(m: &Memory, edits: Seq<(u32, u8)>) -> nat
    decreases edits.len(),
{
    if edits.len() == 0 {
        0
    } else {
        writable_edits(m, edits.drop_last()) + (if m.can_write(edits.last().0) {
            1nat
        } else {
            0
        })
    }
}

pub open spec fn first_refused(m: &Memory, edits: Seq<(u32, u8)>) -> Option<u32>
    decreases edits.len(),
{
    if edits.len() == 0 {
        None
    } else {
        match first_refused(m, edits.drop_last()) {
            Some(a) => Some(a),
            None => if m.can_write(edits.last().0) {
                None
            } else {
                Some(edits.last().0)
            },
        }
    }
}

/// The byte at an address after the edits: the last that reaches it.
pub open spec fn edited(m: &Memory, edits: Seq<(u32, u8)>, a: u32) -> u8
    decreases edits.len(),
{
    if edits.len() == 0 {
        m.at(a)
    } else if edits.last().0 == a && m.can_write(a) {
        edits.last().1
    } else {
        edited(m, edits.drop_last(), a)
    }
}

/// A commit writes what was staged: every byte of writable RAM that an edit
/// names holds the value staged for it, and every other byte is as it was.
pub proof fn lemma_commit_writes_what_was_staged(m: &Memory, edits: Seq<(u32, u8)>, i: int)
    requires
        distinct_edits(edits),
        0 <= i < edits.len(),
    ensures
        m.can_write(edits[i].0) ==> edited(m, edits, edits[i].0) == edits[i].1,
        !m.can_write(edits[i].0) ==> edited(m, edits, edits[i].0) == m.at(edits[i].0),
        forall|a: u32|
            (forall|k: int| 0 <= k < edits.len() ==> (#[trigger] edits[k]).0 != a)
                ==> #[trigger] edited(m, edits, a) == m.at(a),
    decreases edits.len(),
{
    lemma_edited(m, edits, edits[i].0);
}

proof fn lemma_edited(m: &Memory, edits: Seq<(u32, u8)>, a: u32)
    requires
        distinct_edits(edits),
    ensures
        forall|k: int|
            0 <= k < edits.len() && (#[trigger] edits[k]).0 == a ==> edited(m, edits, a) == (
            if m.can_write(a) {
                edits[k].1
            } else {
                m.at(a)
            }),
        forall|b: u32|
            (forall|k: int| 0 <= k < edits.len() ==> (#[trigger] edits[k]).0 != b)
                ==> #[trigger] edited(m, edits, b) == m.at(b),
    decreases edits.len(),
{
    if edits.len() > 0 {
        let t = edits.drop_last();
        assert(forall|k: int| 0 <= k < t.len() ==> #[trigger] t[k] == edits[k]);
        assert(edits[edits.len() - 1] == edits.last());
        lemma_edited(m, t, a);
        assert forall|k: int| 0 <= k < edits.len() && (#[trigger] edits[k]).0 == a implies edited(
            m,
            edits,
            a,
        ) == (if m.can_write(a) {
            edits[k].1
        } else {
            m.at(a)
        }) by {
            if k < t.len() {
                assert(t[k].0 == a);
                assert(edits[k].0 != edits[edits.len() - 1].0);
            } else {
                assert forall|j: int| 0 <= j < t.len() implies (#[trigger] t[j]).0 != a by {
                    assert(edits[j].0 != edits[k].0);
                }
                assert(edited(m, t, a) == m.at(a));
            }
        }
        assert forall|b: u32|
            (forall|k: int| 0 <= k < edits.len() ==> (#[trigger] edits[k]).0 != b) implies #[trigger] edited(
        m, edits, b) == m.at(b) by {
            assert(edits.last().0 != b);
            assert(forall|k: int| 0 <= k < t.len() ==> (#[trigger] t[k]).0 != b);
            assert(edited(m, t, b) == m.at(b));
        }
    }
}

/// What the Memory tab says of a commit.
pub open spec fn commit_status(m: &Memory, edits: Seq<(u32, u8)>) -> Seq<char> {
    let done = writable_edits(m, edits) as int;
    match first_refused(m, edits) {
        Some(a) => "Wrote "@ + crate::number::dec(done) + " of "@ + crate::number::dec(
            edits.len() as int,
        ) + " bytes; $"@ + hex(a as int, 6) + " is not writable RAM"@,
        None => "Wrote "@ + crate::number::dec(done) + (if edits.len() == 1 {
            " byte at $"@
        } else {
            " bytes at $"@
        }) + hex(edits[0].0 as int, 6),
    }
}

/// Writes staged edits to the machine, as a memory write of the control
/// protocol does: bytes that are not writable RAM are skipped, and the
/// watches take the new words as their baselines, so that the edit itself
/// fires none of them.
pub fn debugger_mem_commit(machine: &mut Machine, edits: &Vec<(u32, u8)>) -> (status: String)
    requires
        old(machine).wf(),
        edits@.len() > 0,
    ensures
        final(machine).wf(),
        forall|a: u32| #[trigger]
            final(machine).memory.at(a) == edited(&old(machine).memory, edits@, a),
        final(machine).memory.mask == old(machine).memory.mask,
        final(machine).breaks.watches@ == crate::machine::rebaselined(
            old(machine).breaks.watches@,
            &final(machine).memory,
        ),
        *final(machine) == (Machine {
            memory: final(machine).memory,
            breaks: BreakStore {
                watches: final(machine).breaks.watches,
                ..old(machine).breaks
            },
            ..*old(machine)
        }),
        same_layout(final(machine).memory.regions@, old(machine).memory.regions@),
        status@ == commit_status(&old(machine).memory, edits@),
{
    let ghost before = machine.memory;
    let ghost start = *machine;
    let mut done: u64 = 0;
    let mut refused: Option<u32> = None;
    let mut i: usize = 0;
    while i < edits.len()
        invariant
            i <= edits@.len(),
            machine.wf(),
            machine.memory.mask == before.mask,
            same_layout(machine.memory.regions@, before.regions@),
            *machine == (Machine { memory: machine.memory, ..start }),
            forall|a: u32| #[trigger] machine.memory.can_write(a) == before.can_write(a),
            forall|a: u32| #[trigger]
                machine.memory.at(a) == edited(&before, edits@.take(i as int), a),
            done == writable_edits(&before, edits@.take(i as int)),
            done <= i,
            refused == first_refused(&before, edits@.take(i as int)),
        decreases edits@.len() - i,
    {
        let (addr, value): (u32, u8) = edits[i];
        proof {
            assert(edits@.take(i + 1).drop_last() =~= edits@.take(i as int));
            assert(edits@.take(i + 1).last() == (addr, value));
        }
        let ghost mid = machine.memory;
        if machine.memory.write(addr, value) {
            done += 1;
        } else if refused.is_none() {
            refused = Some(addr);
        }
        proof {
            lemma_layout_trans(machine.memory.regions@, mid.regions@, before.regions@);
            assert forall|a: u32| #[trigger]
                machine.memory.at(a) == edited(&before, edits@.take(i + 1), a) by {
                assert(mid.at(a) == edited(&before, edits@.take(i as int), a));
                assert(mid.can_write(a) == before.can_write(a));
            }
            assert forall|a: u32| #[trigger] machine.memory.can_write(a) == before.can_write(a) by {
                assert(mid.can_write(a) == before.can_write(a));
            }
        }
        i += 1;
    }
    assert(edits@.take(i as int) =~= edits@);
    let ghost written = machine.memory;
    machine.rebaseline_watches();
    assert(machine.memory == written);
    let mut text = "Wrote ".to_owned();
    put_dec(&mut text, done);
    match refused {
        Some(addr) => {
            put(&mut text, " of ");
            put_dec(&mut text, edits.len() as u64);
            put(&mut text, " bytes; $");
            put_hex(&mut text, addr as u64, 6);
            put(&mut text, " is not writable RAM");
        },
        None => {
            if edits.len() == 1 {
                put(&mut text, " byte at $");
            } else {
                put(&mut text, " bytes at $");
            }
            put_hex(&mut text, edits[0].0 as u64, 6);
        },
    }
    text
}

} // verus!
