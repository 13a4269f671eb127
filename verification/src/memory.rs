//! CPU-visible memory as the debugger sees it: banks of bytes on an address
//! bus, peeks that read unmapped space as zero, pokes that reach writable RAM
//! only, and the pattern search over the decoded map.

use vstd::prelude::*;

verus! {

/// A bank of memory: the address it starts at, what it holds, and whether it
/// is RAM that a debugger may change.
#[derive(PartialEq, Eq, Debug)]
pub struct Region {
    pub base: u32,
    pub bytes: Vec<u8>,
    pub writable: bool,
}

#[derive(PartialEq, Eq, Debug)]
pub struct Memory {
    pub regions: Vec<Region>,
    /// The address lines that the CPU drives.
    pub mask: u32,
}

impl Region {
    pub open spec fn holds(self, addr: u32) -> bool {
        self.base <= addr < self.base + self.bytes@.len()
    }

    pub open spec fn end(self) -> int {
        self.base + self.bytes@.len()
    }
}

/// The bank that answers at an address: the first that decodes it.
pub open spec fn bank(regions: Seq<Region>, addr: u32) -> Option<int>
    decreases regions.len(),
{
    if regions.len() == 0 {
        None
    } else if regions[0].holds(addr) {
        Some(0)
    } else {
        match bank(regions.skip(1), addr) {
            Some(i) => Some(i + 1),
            None => None,
        }
    }
}

proof fn lemma_bank(regions: Seq<Region>, addr: u32, k: int)
    requires
        0 <= k <= regions.len(),
        forall|j: int| 0 <= j < k ==> !(#[trigger] regions[j]).holds(addr),
        k < regions.len() ==> regions[k].holds(addr),
    ensures
        bank(regions, addr) == (if k < regions.len() {
            Some(k)
        } else {
            None
        }),
    decreases k,
{
    if k > 0 {
        assert(regions.skip(1).len() == regions.len() - 1);
        assert(forall|j: int| 0 <= j < regions.len() - 1 ==> regions.skip(1)[j] == regions[j + 1]);
        lemma_bank(regions.skip(1), addr, k - 1);
    }
}

/// The address that the bus carries for the byte `i` past `addr`.
pub open spec fn bus_addr(addr: int, i: int, mask: u32) -> u32 {
    (((addr + i) % 0x1_0000_0000) as u32) & mask
}

impl Memory {
    /// The byte that a peek reads; unmapped space reads as zero.
    pub open spec fn at(&self, addr: u32) -> u8 {
        match bank(self.regions@, addr) {
            Some(i) => self.regions@[i].bytes@[addr - self.regions@[i].base],
            None => 0,
        }
    }

    pub open spec fn can_write(&self, addr: u32) -> bool {
        match bank(self.regions@, addr) {
            Some(i) => self.regions@[i].writable,
            None => false,
        }
    }

    /// The byte `i` past `addr` as the CPU sees it.
    pub open spec fn byte(&self, addr: int, i: int) -> u8 {
        self.at(bus_addr(addr, i, self.mask))
    }

    pub open spec fn word(&self, addr: u32) -> u16 {
        (self.byte(addr as int, 0) * 256 + self.byte(addr as int, 1)) as u16
    }

    pub open spec fn long(&self, addr: u32) -> u32 {
        (self.word(addr) * 65536 + self.word(((addr + 2) % 0x1_0000_0000) as u32)) as u32
    }

    /// Every bank lies inside the 32-bit address space, and there are no more
    /// banks than it has pages.
    pub open spec fn wf(&self) -> bool {
        &&& self.regions@.len() <= 0x10_0000
        &&& forall|i: int| 0 <= i < self.regions@.len() ==> (#[trigger] self.regions@[i]).end()
            <= 0x1_0000_0000
    }

    pub fn find_bank(&self, addr: u32) -> (r: Option<usize>)
        ensures
            r matches Some(i) ==> bank(self.regions@, addr) == Some(i as int) && i
                < self.regions@.len() && self.regions@[i as int].holds(addr),
            r is None ==> bank(self.regions@, addr) is None,
    {
        let mut i: usize = 0;
        while i < self.regions.len()
            invariant
                i <= self.regions@.len(),
                forall|j: int| 0 <= j < i ==> !(#[trigger] self.regions@[j]).holds(addr),
            decreases self.regions@.len() - i,
        {
            let region = &self.regions[i];
            if region.base <= addr && ((addr - region.base) as u64) < region.bytes.len() as u64 {
                proof {
                    lemma_bank(self.regions@, addr, i as int);
                }
                return Some(i);
            }
            i += 1;
        }
        proof {
            lemma_bank(self.regions@, addr, i as int);
        }
        None
    }

    pub fn peek(&self, addr: u32) -> (r: u8)
        ensures
            r == self.at(addr),
    {
        match self.find_bank(addr) {
            Some(i) => self.regions[i].bytes[(addr - self.regions[i].base) as usize],
            None => 0,
        }
    }

    pub fn writable_at(&self, addr: u32) -> (r: bool)
        ensures
            r == self.can_write(addr),
    {
        match self.find_bank(addr) {
            Some(i) => self.regions[i].writable,
            None => false,
        }
    }

    pub fn bus(&self, addr: u32, i: u32) -> (r: u32)
        ensures
            r == bus_addr(addr as int, i as int, self.mask),
    {
        let sum: u32 = addr.wrapping_add(i);
        assert(sum == (addr + i) % 0x1_0000_0000);
        sum & self.mask
    }

    pub fn byte_at(&self, addr: u32, i: u32) -> (r: u8)
        ensures
            r == self.byte(addr as int, i as int),
    {
        self.peek(self.bus(addr, i))
    }

    pub fn peek_word(&self, addr: u32) -> (r: u16)
        ensures
            r == self.word(addr),
    {
        let hi: u8 = self.byte_at(addr, 0);
        let lo: u8 = self.byte_at(addr, 1);
        hi as u16 * 256 + lo as u16
    }

    pub fn peek_long(&self, addr: u32) -> (r: u32)
        ensures
            r == self.long(addr),
    {
        let hi: u16 = self.peek_word(addr);
        let lo: u16 = self.peek_word(addr.wrapping_add(2));
        hi as u32 * 65536 + lo as u32
    }

    /// `len` bytes from `addr` on, as the CPU would read them.
    pub fn read(&self, addr: u32, len: usize) -> (r: Vec<u8>)
        requires
            len <= 0xFFFF_FFFF,
        ensures
            r@ == Seq::new(len as nat, |i: int| self.byte(addr as int, i)),
    {
        let mut out: Vec<u8> = Vec::new();
        let mut i: usize = 0;
        while i < len
            invariant
                i <= len <= 0xFFFF_FFFF,
                out@ == Seq::new(i as nat, |j: int| self.byte(addr as int, j)),
            decreases len - i,
        {
            out.push(self.byte_at(addr, i as u32));
            i += 1;
            assert(out@ =~= Seq::new(i as nat, |j: int| self.byte(addr as int, j)));
        }
        out
    }

    /// Writes one byte where there is writable RAM, and says whether it did.
    pub fn write(&mut self, addr: u32, value: u8) -> (done: bool)
        requires
            old(self).wf(),
        ensures
            final(self).wf(),
            final(self).mask == old(self).mask,
            done == old(self).can_write(addr),
            forall|a: u32| #[trigger]
                final(self).at(a) == (if done && a == addr {
                    value
                } else {
                    old(self).at(a)
                }),
            forall|a: u32| #[trigger] final(self).can_write(a) == old(self).can_write(a),
            same_layout(final(self).regions@, old(self).regions@),
    {
        match self.find_bank(addr) {
            Some(i) => {
                if !self.regions[i].writable {
                    return false;
                }
                let ghost before = self.regions@;
                let off: usize = (addr - self.regions[i].base) as usize;
                let mut region = self.regions.remove(i);
                let ghost old_bytes = region.bytes@;
                region.bytes.set(off, value);
                self.regions.insert(i, region);
                proof {
                    let after = self.regions@;
                    assert(after =~= before.update(i as int, region));
                    assert(same_layout(after, before));
                    assert forall|a: u32| #[trigger]
                        self.at(a) == (if a == addr {
                            value
                        } else {
                            old(self).at(a)
                        }) by {
                        lemma_layout_bank(after, before, a);
                    }
                    assert forall|a: u32| #[trigger]
                        self.can_write(a) == old(self).can_write(a) by {
                        lemma_layout_bank(after, before, a);
                    }
                }
                true
            },
            None => false,
        }
    }
}

/// Two lists of banks that differ at most in what the banks hold.
pub open spec fn same_layout(a: Seq<Region>, b: Seq<Region>) -> bool {
    &&& a.len() == b.len()
    &&& forall|i: int|
        0 <= i < a.len() ==> (#[trigger] a[i]).base == b[i].base && a[i].bytes@.len()
            == b[i].bytes@.len() && a[i].writable == b[i].writable
}

pub proof fn lemma_layout_trans(a: Seq<Region>, b: Seq<Region>, c: Seq<Region>)
    requires
        same_layout(a, b),
        same_layout(b, c),
    ensures
        same_layout(a, c),
{
    assert forall|i: int| 0 <= i < a.len() implies (#[trigger] a[i]).base == c[i].base
        && a[i].bytes@.len() == c[i].bytes@.len() && a[i].writable == c[i].writable by {
        assert(b[i].base == c[i].base);
    }
}

pub proof fn lemma_layout_bank(a: Seq<Region>, b: Seq<Region>, addr: u32)
    requires
        same_layout(a, b),
    ensures
        bank(a, addr) == bank(b, addr),
        bank(a, addr) matches Some(i) ==> 0 <= i < a.len() && a[i].holds(addr),
    decreases a.len(),
{
    if a.len() > 0 {
        assert(a[0].holds(addr) == b[0].holds(addr));
        assert(same_layout(a.skip(1), b.skip(1)));
        lemma_layout_bank(a.skip(1), b.skip(1), addr);
        assert(forall|j: int| 0 <= j < a.len() - 1 ==> a.skip(1)[j] == a[j + 1]);
    }
}

/// Words and longwords are read with their most significant byte first, and
/// the bus carries only the address lines that the machine drives.
pub proof fn lemma_reads_are_big_endian(m: &Memory, addr: u32)
    requires
        addr <= 0xFFFF_FFFC,
    ensures
        m.word(addr) == m.at(addr & m.mask) * 256 + m.at((addr + 1) as u32 & m.mask),
        m.long(addr) == m.at(addr & m.mask) * 0x100_0000 + m.at((addr + 1) as u32 & m.mask)
            * 0x1_0000 + m.at((addr + 2) as u32 & m.mask) * 256 + m.at(
            (addr + 3) as u32 & m.mask,
        ),
{
}

/// A byte is read from the first bank that decodes its address, and as zero
/// where none does; it can be changed only where that bank is writable.
pub proof fn lemma_first_bank_answers(m: &Memory, addr: u32, k: int)
    requires
        0 <= k <= m.regions@.len(),
        forall|j: int|
            0 <= j < k ==> !((#[trigger] m.regions@[j]).base <= addr < m.regions@[j].base
                + m.regions@[j].bytes@.len()),
        k < m.regions@.len() ==> m.regions@[k].base <= addr < m.regions@[k].base
            + m.regions@[k].bytes@.len(),
    ensures
        k < m.regions@.len() ==> m.at(addr) == m.regions@[k].bytes@[addr - m.regions@[k].base]
            && m.can_write(addr) == m.regions@[k].writable,
        k == m.regions@.len() ==> m.at(addr) == 0 && !m.can_write(addr),
{
    lemma_bank(m.regions@, addr, k);
}

/// Whether the bytes from `addr` on, as the CPU sees them, spell the pattern.
pub open spec fn matches_at(m: &Memory, pattern: Seq<u8>, addr: int) -> bool {
    forall|k: int| 0 <= k < pattern.len() ==> m.byte(addr, k) == #[trigger] pattern[k]
}

/// The lowest address in `[from, end)` at which the pattern starts.
pub open spec fn least_match(m: &Memory, pattern: Seq<u8>, from: int, end: int) -> Option<int>
    decreases end - from,
{
    if from >= end {
        None
    } else if matches_at(m, pattern, from) {
        Some(from)
    } else {
        least_match(m, pattern, from + 1, end)
    }
}

/// The first hit over a list of spans, each an optional `[from, end)`.
pub open spec fn first_hit(m: &Memory, pattern: Seq<u8>, spans: Seq<(int, int)>) -> Option<int>
    decreases spans.len(),
{
    if spans.len() == 0 {
        None
    } else {
        match least_match(m, pattern, spans[0].0, spans[0].1) {
            Some(h) => Some(h),
            None => first_hit(m, pattern, spans.skip(1)),
        }
    }
}

/// The part of each region from `start` up.
pub open spec fn spans_from(regions: Seq<(u32, u32)>, start: int) -> Seq<(int, int)> {
    regions.map_values(
        |r: (u32, u32)|
            (
                if start > r.0 {
                    start
                } else {
                    r.0 as int
                },
                r.0 + r.1,
            ),
    )
}

/// The part of each region below `start`.
pub open spec fn spans_below(regions: Seq<(u32, u32)>, start: int) -> Seq<(int, int)> {
    regions.map_values(
        |r: (u32, u32)|
            (
                r.0 as int,
                if r.0 + r.1 < start {
                    r.0 + r.1
                } else {
                    start
                },
            ),
    )
}

/// What a search of the map from `start` finds: the regions from `start` to
/// the top, then from the bottom back up to `start`.
pub open spec fn search_result(
    m: &Memory,
    pattern: Seq<u8>,
    regions: Seq<(u32, u32)>,
    start: int,
) -> Option<int> {
    match first_hit(m, pattern, spans_from(regions, start)) {
        Some(h) => Some(h),
        None => first_hit(m, pattern, spans_below(regions, start)),
    }
}

pub open spec fn regions_fit(regions: Seq<(u32, u32)>) -> bool {
    forall|i: int|
        0 <= i < regions.len() ==> (#[trigger] regions[i]).0 + regions[i].1 <= 0x1_0000_0000
}

pub open spec fn in_regions(regions: Seq<(u32, u32)>, addr: int) -> bool {
    exists|i: int|
        0 <= i < regions.len() && (#[trigger] regions[i]).0 <= addr < regions[i].0 + regions[i].1
}

proof fn lemma_least(m: &Memory, pattern: Seq<u8>, from: int, end: int)
    ensures
        least_match(m, pattern, from, end) matches Some(h) ==> from <= h < end && matches_at(
            m,
            pattern,
            h,
        ),
        least_match(m, pattern, from, end) is None ==> forall|a: int|
            from <= a < end ==> !matches_at(m, pattern, a),
    decreases end - from,
{
    if from < end && !matches_at(m, pattern, from) {
        lemma_least(m, pattern, from + 1, end);
    }
}

proof fn lemma_least_skip(m: &Memory, pattern: Seq<u8>, from: int, mid: int, end: int)
    requires
        from <= mid <= end,
        forall|a: int| from <= a < mid ==> !matches_at(m, pattern, a),
    ensures
        least_match(m, pattern, from, end) == least_match(m, pattern, mid, end),
    decreases mid - from,
{
    if from < mid {
        lemma_least_skip(m, pattern, from + 1, mid, end);
    }
}

proof fn lemma_first_hit(m: &Memory, pattern: Seq<u8>, spans: Seq<(int, int)>)
    ensures
        first_hit(m, pattern, spans) matches Some(h) ==> matches_at(m, pattern, h) && exists|i: int|
            0 <= i < spans.len() && (#[trigger] spans[i]).0 <= h < spans[i].1,
        first_hit(m, pattern, spans) is None ==> forall|i: int, a: int|
            0 <= i < spans.len() && (#[trigger] spans[i]).0 <= a < spans[i].1 ==> !(
            #[trigger] matches_at(m, pattern, a)),
    decreases spans.len(),
{
    if spans.len() > 0 {
        lemma_least(m, pattern, spans[0].0, spans[0].1);
        let rest = spans.skip(1);
        assert(forall|i: int| 0 <= i < rest.len() ==> rest[i] == spans[i + 1]);
        lemma_first_hit(m, pattern, rest);
        if least_match(m, pattern, spans[0].0, spans[0].1) is None {
            if let Some(h) = first_hit(m, pattern, rest) {
                let i = choose|i: int|
                    0 <= i < rest.len() && (#[trigger] rest[i]).0 <= h < rest[i].1;
                assert(spans[i + 1].0 <= h < spans[i + 1].1);
            } else {
                assert forall|i: int, a: int|
                    0 <= i < spans.len() && (#[trigger] spans[i]).0 <= a < spans[i].1 implies !(
                #[trigger] matches_at(m, pattern, a)) by {
                    if i > 0 {
                        assert(rest[i - 1].0 <= a < rest[i - 1].1);
                    }
                }
            }
        }
    }
}

/// The search covers the map exactly once around: a hit starts in a region
/// and is a real match, and a search that reports none has seen every address
/// of every region, whatever the start.
pub proof fn lemma_search_covers_the_map(
    m: &Memory,
    pattern: Seq<u8>,
    regions: Seq<(u32, u32)>,
    start: int,
)
    ensures
        search_result(m, pattern, regions, start) matches Some(h) ==> in_regions(regions, h)
            && matches_at(m, pattern, h),
        search_result(m, pattern, regions, start) is None ==> forall|a: int|
            in_regions(regions, a) ==> !(#[trigger] matches_at(m, pattern, a)),
{
    let up = spans_from(regions, start);
    let down = spans_below(regions, start);
    lemma_first_hit(m, pattern, up);
    lemma_first_hit(m, pattern, down);
    match search_result(m, pattern, regions, start) {
        Some(h) => {
            if first_hit(m, pattern, up) is Some {
                let i = choose|i: int| 0 <= i < up.len() && (#[trigger] up[i]).0 <= h < up[i].1;
                assert(regions[i].0 <= h < regions[i].0 + regions[i].1);
            } else {
                let i = choose|i: int| 0 <= i < down.len() && (#[trigger] down[i]).0 <= h
                    < down[i].1;
                assert(regions[i].0 <= h < regions[i].0 + regions[i].1);
            }
        },
        None => {
            assert forall|a: int| in_regions(regions, a) implies !(#[trigger] matches_at(
                m,
                pattern,
                a,
            )) by {
                let i = choose|i: int|
                    0 <= i < regions.len() && (#[trigger] regions[i]).0 <= a < regions[i].0
                        + regions[i].1;
                if a >= start {
                    assert(up[i].0 <= a < up[i].1);
                } else {
                    assert(down[i].0 <= a < down[i].1);
                }
            }
        },
    }
}

/// A search that finds something at or above its start finds nothing below:
/// the upper sweep comes first.
pub proof fn lemma_search_prefers_the_upper_sweep(
    m: &Memory,
    pattern: Seq<u8>,
    regions: Seq<(u32, u32)>,
    start: int,
    a: int,
)
    requires
        in_regions(regions, a),
        start <= a,
        matches_at(m, pattern, a),
    ensures
        search_result(m, pattern, regions, start) matches Some(h) && h >= start,
{
    let up = spans_from(regions, start);
    lemma_first_hit(m, pattern, up);
    let i = choose|i: int|
        0 <= i < regions.len() && (#[trigger] regions[i]).0 <= a < regions[i].0 + regions[i].1;
    assert(up[i].0 <= a < up[i].1);
    let h = first_hit(m, pattern, up).unwrap();
    let j = choose|j: int| 0 <= j < up.len() && (#[trigger] up[j]).0 <= h < up[j].1;
    assert(up[j].0 >= start);
}

/// Whether the pattern stands at an address.
fn stands_at(m: &Memory, pattern: &[u8], addr: u32) -> (r: bool)
    ensures
        r == matches_at(m, pattern@, addr as int),
{
    let mut k: usize = 0;
    while k < pattern.len()
        invariant
            k <= pattern@.len(),
            forall|j: int| 0 <= j < k ==> m.byte(addr as int, j) == #[trigger] pattern@[j],
        decreases pattern@.len() - k,
    {
        let low: u32 = (k as u64 % 0x1_0000_0000) as u32;
        proof {
            assert((addr + low) % 0x1_0000_0000 == (addr + k) % 0x1_0000_0000);
        }
        if m.byte_at(addr, low) != pattern[k] {
            return false;
        }
        k += 1;
    }
    true
}

/// Searches one `[from, end)` span. The pattern may run past the end of the
/// span, into a bank that abuts; a hit always starts inside it.
pub fn search_span(m: &Memory, pattern: &[u8], from: u32, end: u64) -> (r: Option<u32>)
    requires
        end <= 0x1_0000_0000,
        from <= end,
    ensures
        r matches Some(h) ==> least_match(m, pattern@, from as int, end as int) == Some(h as int),
        r is None ==> least_match(m, pattern@, from as int, end as int) is None,
{
    let mut addr: u64 = from as u64;
    while addr < end
        invariant
            end <= 0x1_0000_0000,
            from <= addr <= end,
            forall|a: int| from <= a < addr ==> !matches_at(m, pattern@, a),
        decreases end - addr,
    {
        if stands_at(m, pattern, addr as u32) {
            proof {
                lemma_least_skip(m, pattern@, from as int, addr as int, end as int);
            }
            return Some(addr as u32);
        }
        addr += 1;
    }
    proof {
        lemma_least_skip(m, pattern@, from as int, end as int, end as int);
    }
    None
}

/// Searches the decoded map for a pattern, starting at `start` and wrapping
/// the map once.
pub fn search_cpu_memory(
    m: &Memory,
    regions: &Vec<(u32, u32)>,
    pattern: &[u8],
    start: u32,
) -> (r: Option<u32>)
    requires
        regions_fit(regions@),
    ensures
        r matches Some(h) ==> search_result(m, pattern@, regions@, start as int) == Some(h as int),
        r is None ==> search_result(m, pattern@, regions@, start as int) is None,
{
    let ghost up = spans_from(regions@, start as int);
    let ghost down = spans_below(regions@, start as int);
    assert(up.skip(0) =~= up);
    let mut i: usize = 0;
    while i < regions.len()
        invariant
            regions_fit(regions@),
            up == spans_from(regions@, start as int),
            i <= regions@.len(),
            first_hit(m, pattern@, up) == first_hit(m, pattern@, up.skip(i as int)),
        decreases regions@.len() - i,
    {
        let (base, len): (u32, u32) = regions[i];
        let end: u64 = base as u64 + len as u64;
        let from: u64 = if start > base {
            start as u64
        } else {
            base as u64
        };
        assert(regions@[i as int].0 + regions@[i as int].1 <= 0x1_0000_0000);
        assert(up.skip(i as int)[0] == (from as int, end as int));
        assert(up.skip(i as int).skip(1) =~= up.skip(i + 1));
        if from < end {
            match search_span(m, pattern, from as u32, end) {
                Some(hit) => {
                    return Some(hit);
                },
                None => {},
            }
        }
        i += 1;
    }
    assert(up.skip(i as int).len() == 0);
    let mut i: usize = 0;
    assert(down.skip(0) =~= down);
    while i < regions.len()
        invariant
            regions_fit(regions@),
            up == spans_from(regions@, start as int),
            down == spans_below(regions@, start as int),
            i <= regions@.len(),
            first_hit(m, pattern@, up) is None,
            first_hit(m, pattern@, down) == first_hit(m, pattern@, down.skip(i as int)),
        decreases regions@.len() - i,
    {
        let (base, len): (u32, u32) = regions[i];
        let top: u64 = base as u64 + len as u64;
        let end: u64 = if top < start as u64 {
            top
        } else {
            start as u64
        };
        assert(regions@[i as int].0 + regions@[i as int].1 <= 0x1_0000_0000);
        assert(down.skip(i as int)[0] == (base as int, end as int));
        assert(down.skip(i as int).skip(1) =~= down.skip(i + 1));
        if (base as u64) < end {
            match search_span(m, pattern, base, end) {
                Some(hit) => {
                    return Some(hit);
                },
                None => {},
            }
        }
        i += 1;
    }
    assert(down.skip(i as int).len() == 0);
    None
}

} // verus!
