//! The memory hunt: a search for the address of a value by how it changes.
//! Each filter compares memory with the last snapshot, keeps the candidates
//! that pass, and takes a new snapshot.

use vstd::prelude::*;

use crate::command::HuntFilter;
use crate::memory::Memory;
use crate::memory::Region;

verus! {

/// What a bank held: its base and its bytes.
#[derive(PartialEq, Eq, Debug)]
pub struct Bank {
    pub base: u32,
    pub bytes: Vec<u8>,
}

#[derive(PartialEq, Eq, Debug)]
pub struct HuntState {
    /// Bytes in a value: one or two.
    pub width: u32,
    /// Every writable bank at the last filter.
    pub snapshot: Vec<Bank>,
    /// The addresses that passed every filter; before the first one, all.
    pub candidates: Option<Vec<u32>>,
}

/// A value in a bank's bytes, the more significant byte first.
pub open spec fn value_of(bytes: Seq<u8>, off: int, width: u32) -> u32 {
    if width == 1 {
        bytes[off] as u32
    } else {
        (bytes[off] * 256 + bytes[off + 1]) as u32
    }
}

pub open spec fn survives(f: HuntFilter, before: u32, now: u32) -> bool {
    match f {
        HuntFilter::Equal(v) => now == v,
        HuntFilter::NotEqual(v) => now != v,
        HuntFilter::Less(v) => now < v,
        HuntFilter::Greater(v) => now > v,
        HuntFilter::Same => now == before,
        HuntFilter::Different => now != before,
    }
}

/// The value at an address in a snapshot, from the first bank that holds all
/// of it.
pub open spec fn value_at(s: Seq<Bank>, addr: u32, width: u32) -> Option<u32>
    decreases s.len(),
{
    if s.len() == 0 {
        None
    } else if addr >= s[0].base && addr - s[0].base + width <= s[0].bytes@.len() {
        Some(value_of(s[0].bytes@, addr - s[0].base, width))
    } else {
        value_at(s.skip(1), addr, width)
    }
}

/// Whether a candidate passes a filter between two snapshots.
pub open spec fn passes(
    before: Seq<Bank>,
    now: Seq<Bank>,
    width: u32,
    f: HuntFilter,
    addr: u32,
) -> bool {
    match (value_at(before, addr, width), value_at(now, addr, width)) {
        (Some(a), Some(b)) => survives(f, a, b),
        _ => false,
    }
}

/// The survivors among the first `n` values of a bank.
pub open spec fn bank_hits(
    base: u32,
    before: Seq<u8>,
    now: Seq<u8>,
    width: u32,
    f: HuntFilter,
    n: nat,
) -> Seq<u32>
    decreases n,
{
    if n == 0 {
        Seq::empty()
    } else {
        let s = bank_hits(base, before, now, width, f, (n - 1) as nat);
        let off = (n - 1) * width;
        if survives(f, value_of(before, off, width), value_of(now, off, width)) {
            s.push((base + off) as u32)
        } else {
            s
        }
    }
}

/// The survivors of a first filter over all banks, in address order within
/// each.
pub open spec fn first_hits(before: Seq<Bank>, now: Seq<Bank>, width: u32, f: HuntFilter) -> Seq<
    u32,
>
    decreases before.len(),
{
    if before.len() == 0 {
        Seq::empty()
    } else {
        let last = before.last();
        first_hits(before.drop_last(), now, width, f) + bank_hits(
            last.base,
            last.bytes@,
            now[before.len() - 1].bytes@,
            width,
            f,
            (last.bytes@.len() / width as nat) as nat,
        )
    }
}

/// Two snapshots of the same banks.
pub open spec fn same_banks(a: Seq<Bank>, b: Seq<Bank>) -> bool {
    &&& a.len() == b.len()
    &&& forall|i: int|
        0 <= i < a.len() ==> (#[trigger] a[i]).base == b[i].base && a[i].bytes@.len()
            == b[i].bytes@.len()
}

pub open spec fn banks_fit(s: Seq<Bank>) -> bool {
    forall|i: int| 0 <= i < s.len() ==> (#[trigger] s[i]).base + s[i].bytes@.len()
        <= 0x1_0000_0000
}

/// The writable banks of a memory, as a snapshot shows them.
pub open spec fn is_snapshot(s: Seq<Bank>, regions: Seq<Region>) -> bool
    decreases regions.len(),
{
    if regions.len() == 0 {
        s.len() == 0
    } else if regions.last().writable {
        s.len() > 0 && s.last().base == regions.last().base && s.last().bytes@
            == regions.last().bytes@ && is_snapshot(s.drop_last(), regions.drop_last())
    } else {
        is_snapshot(s, regions.drop_last())
    }
}

pub open spec fn total_bytes(s: Seq<Bank>) -> int
    decreases s.len(),
{
    if s.len() == 0 {
        0
    } else {
        total_bytes(s.drop_last()) + s.last().bytes@.len()
    }
}

pub fn value_in(bytes: &[u8], off: usize, width: u32) -> (r: u32)
    requires
        width == 1 || width == 2,
        off + width <= bytes@.len(),
    ensures
        r == value_of(bytes@, off as int, width),
{
    if width == 1 {
        bytes[off] as u32
    } else {
        let size: usize = bytes.len();
        assert(off + 2 <= size);
        bytes[off] as u32 * 256 + bytes[off + 1] as u32
    }
}

pub fn survives_filter(f: HuntFilter, before: u32, now: u32) -> (r: bool)
    ensures
        r == survives(f, before, now),
{
    match f {
        HuntFilter::Equal(v) => now == v,
        HuntFilter::NotEqual(v) => now != v,
        HuntFilter::Less(v) => now < v,
        HuntFilter::Greater(v) => now > v,
        HuntFilter::Same => now == before,
        HuntFilter::Different => now != before,
    }
}

pub fn hunt_value_at(s: &Vec<Bank>, addr: u32, width: u32) -> (r: Option<u32>)
    requires
        width == 1 || width == 2,
    ensures
        r == value_at(s@, addr, width),
{
    let mut i: usize = 0;
    assert(s@.skip(0) =~= s@);
    while i < s.len()
        invariant
            width == 1 || width == 2,
            i <= s@.len(),
            value_at(s@, addr, width) == value_at(s@.skip(i as int), addr, width),
        decreases s@.len() - i,
    {
        assert(s@.skip(i as int).skip(1) =~= s@.skip(i + 1));
        let bank = &s[i];
        if addr >= bank.base && (addr - bank.base) as u64 + width as u64 <= bank.bytes.len() as u64 {
            return Some(value_in(&bank.bytes, (addr - bank.base) as usize, width));
        }
        i += 1;
    }
    None
}

fn copy_bytes(v: &Vec<u8>) -> (r: Vec<u8>)
    ensures
        r@ == v@,
{
    let mut out: Vec<u8> = Vec::new();
    let mut i: usize = 0;
    while i < v.len()
        invariant
            i <= v@.len(),
            out@ == v@.take(i as int),
        decreases v@.len() - i,
    {
        out.push(v[i]);
        i += 1;
    }
    assert(v@.take(i as int) =~= v@);
    out
}

/// Takes a snapshot of every writable bank.
pub fn console_hunt_snapshot(m: &Memory) -> (r: Vec<Bank>)
    requires
        m.wf(),
    ensures
        is_snapshot(r@, m.regions@),
        banks_fit(r@),
{
    let mut out: Vec<Bank> = Vec::new();
    let mut i: usize = 0;
    while i < m.regions.len()
        invariant
            m.wf(),
            i <= m.regions@.len(),
            is_snapshot(out@, m.regions@.take(i as int)),
            banks_fit(out@),
        decreases m.regions@.len() - i,
    {
        proof {
            assert(m.regions@.take(i + 1).drop_last() =~= m.regions@.take(i as int));
            assert(m.regions@.take(i + 1).last() == m.regions@[i as int]);
            assert(m.regions@[i as int].end() <= 0x1_0000_0000);
        }
        if m.regions[i].writable {
            let bank = Bank { base: m.regions[i].base, bytes: copy_bytes(&m.regions[i].bytes) };
            let ghost before = out@;
            out.push(bank);
            assert(out@.drop_last() =~= before);
        }
        i += 1;
    }
    assert(m.regions@.take(i as int) =~= m.regions@);
    out
}

/// Snapshots of one memory's banks, before and after its bytes changed.
pub proof fn lemma_snapshots_agree(a: Seq<Bank>, ra: Seq<Region>, b: Seq<Bank>, rb: Seq<Region>)
    requires
        is_snapshot(a, ra),
        is_snapshot(b, rb),
        crate::memory::same_layout(ra, rb),
    ensures
        same_banks(a, b),
    decreases ra.len(),
{
    if ra.len() > 0 {
        assert(ra[ra.len() - 1].writable == rb[rb.len() - 1].writable);
        assert(crate::memory::same_layout(ra.drop_last(), rb.drop_last()));
        if ra.last().writable {
            lemma_snapshots_agree(a.drop_last(), ra.drop_last(), b.drop_last(), rb.drop_last());
            assert forall|i: int| 0 <= i < a.len() implies (#[trigger] a[i]).base == b[i].base
                && a[i].bytes@.len() == b[i].bytes@.len() by {
                if i < a.len() - 1 {
                    assert(a.drop_last()[i] == a[i]);
                    assert(b.drop_last()[i] == b[i]);
                }
            }
        } else {
            lemma_snapshots_agree(a, ra.drop_last(), b, rb.drop_last());
        }
    }
}

fn scan_bank(
    out: &mut Vec<u32>,
    base: u32,
    before: &Vec<u8>,
    now: &Vec<u8>,
    width: u32,
    f: HuntFilter,
)
    requires
        width == 1 || width == 2,
        before@.len() == now@.len(),
        base + before@.len() <= 0x1_0000_0000,
    ensures
        final(out)@ == old(out)@ + bank_hits(
            base,
            before@,
            now@,
            width,
            f,
            (before@.len() / width as nat) as nat,
        ),
{
    let step: usize = width as usize;
    let total: usize = before.len();
    let mut off: usize = 0;
    let ghost mut n: nat = 0;
    assert(out@ =~= old(out)@ + bank_hits(base, before@, now@, width, f, 0));
    while step <= total - off
        invariant
            width == 1 || width == 2,
            step == width,
            off == n * width,
            off <= total == before@.len() == now@.len(),
            base + before@.len() <= 0x1_0000_0000,
            out@ == old(out)@ + bank_hits(base, before@, now@, width, f, n),
        decreases total - off,
    {
        let a: u32 = value_in(before, off, width);
        let b: u32 = value_in(now, off, width);
        proof {
            assert((n + 1 - 1) * width == n * width);
        }
        if survives_filter(f, a, b) {
            out.push(base + off as u32);
        }
        assert(out@ =~= old(out)@ + bank_hits(base, before@, now@, width, f, n + 1));
        off += step;
        proof {
            assert((n + 1) * width == n * width + width) by (nonlinear_arith);
            n = n + 1;
        }
    }
    assert(n == before@.len() / width as nat) by (nonlinear_arith)
        requires
            width == 1 || width == 2,
            n * width <= before@.len(),
            before@.len() < n * width + width,
    ;
}

/// The survivors of a first filter.
pub fn first_filter(before: &Vec<Bank>, now: &Vec<Bank>, width: u32, f: HuntFilter) -> (r: Vec<u32>)
    requires
        width == 1 || width == 2,
        same_banks(before@, now@),
        banks_fit(before@),
    ensures
        r@ == first_hits(before@, now@, width, f),
{
    let mut out: Vec<u32> = Vec::new();
    let mut i: usize = 0;
    while i < before.len()
        invariant
            width == 1 || width == 2,
            same_banks(before@, now@),
            banks_fit(before@),
            i <= before@.len(),
            out@ == first_hits(before@.take(i as int), now@, width, f),
        decreases before@.len() - i,
    {
        proof {
            assert(before@.take(i + 1).drop_last() =~= before@.take(i as int));
            assert(before@.take(i + 1).last() == before@[i as int]);
            assert(before@[i as int].base == now@[i as int].base);
        }
        scan_bank(&mut out, before[i].base, &before[i].bytes, &now[i].bytes, width, f);
        i += 1;
    }
    assert(before@.take(i as int) =~= before@);
    out
}

/// The candidates that pass a filter.
pub fn refine(
    candidates: &Vec<u32>,
    before: &Vec<Bank>,
    now: &Vec<Bank>,
    width: u32,
    f: HuntFilter,
) -> (r: Vec<u32>)
    requires
        width == 1 || width == 2,
    ensures
        r@ == candidates@.filter(|a: u32| passes(before@, now@, width, f, a)),
{
    let ghost keep = |a: u32| passes(before@, now@, width, f, a);
    let mut out: Vec<u32> = Vec::new();
    let mut i: usize = 0;
    assert(candidates@.take(0).filter(keep) =~= Seq::empty()) by {
        reveal(Seq::filter);
    }
    while i < candidates.len()
        invariant
            width == 1 || width == 2,
            keep == (|a: u32| passes(before@, now@, width, f, a)),
            i <= candidates@.len(),
            out@ == candidates@.take(i as int).filter(keep),
        decreases candidates@.len() - i,
    {
        let addr: u32 = candidates[i];
        proof {
            reveal(Seq::filter);
            assert(candidates@.take(i + 1).drop_last() =~= candidates@.take(i as int));
            assert(candidates@.take(i + 1).last() == addr);
        }
        match (hunt_value_at(before, addr, width), hunt_value_at(now, addr, width)) {
            (Some(a), Some(b)) => {
                if survives_filter(f, a, b) {
                    out.push(addr);
                }
            },
            _ => {},
        }
        i += 1;
    }
    assert(candidates@.take(i as int) =~= candidates@);
    out
}

/// Every one of these addresses has its value inside a bank.
pub open spec fn held(s: Seq<Bank>, addrs: Seq<u32>, width: u32) -> bool {
    forall|i: int| 0 <= i < addrs.len() ==> value_at(s, #[trigger] addrs[i], width) is Some
}

impl HuntState {
    pub open spec fn wf(&self) -> bool {
        &&& self.width == 1 || self.width == 2
        &&& banks_fit(self.snapshot@)
        &&& self.candidates matches Some(c) ==> held(self.snapshot@, c@, self.width)
    }

    /// The candidates after a filter against what memory holds now.
    pub open spec fn filtered(&self, now: Seq<Bank>, f: HuntFilter) -> Seq<u32> {
        match self.candidates {
            Some(c) => c@.filter(|a: u32| passes(self.snapshot@, now, self.width, f, a)),
            None => first_hits(self.snapshot@, now, self.width, f),
        }
    }

    pub fn candidate_count(&self) -> (r: Option<usize>)
        ensures
            r == (match self.candidates {
                Some(c) => Some(c@.len() as usize),
                None => None,
            }),
            r matches Some(n) ==> self.candidates matches Some(c) && n == c@.len(),
    {
        match &self.candidates {
            Some(c) => Some(c.len()),
            None => None,
        }
    }

    /// Filters the candidates against memory and takes a new snapshot.
    pub fn filter(&mut self, m: &Memory, f: HuntFilter)
        requires
            old(self).wf(),
            m.wf(),
            exists|r: Seq<Region>|
                #![trigger is_snapshot(old(self).snapshot@, r)]
                is_snapshot(old(self).snapshot@, r) && crate::memory::same_layout(r, m.regions@),
        ensures
            final(self).wf(),
            final(self).width == old(self).width,
            is_snapshot(final(self).snapshot@, m.regions@),
            final(self).candidates matches Some(c) && c@ == old(self).filtered(
                final(self).snapshot@,
                f,
            ),
    {
        let now = console_hunt_snapshot(m);
        proof {
            let r = choose|r: Seq<Region>|
                #![trigger is_snapshot(self.snapshot@, r)]
                is_snapshot(self.snapshot@, r) && crate::memory::same_layout(r, m.regions@);
            lemma_snapshots_agree(self.snapshot@, r, now@, m.regions@);
        }
        let next = match &self.candidates {
            Some(c) => refine(c, &self.snapshot, &now, self.width, f),
            None => first_filter(&self.snapshot, &now, self.width, f),
        };
        proof {
            let before = self.snapshot@;
            let width = self.width;
            assert forall|i: int| 0 <= i < next@.len() implies value_at(
                now@,
                #[trigger] next@[i],
                width,
            ) is Some by {
                let a = next@[i];
                assert(next@.contains(a));
                match self.candidates {
                    Some(c) => {
                        lemma_filter_contains(
                            c@,
                            |x: u32| passes(before, now@, width, f, x),
                            a,
                        );
                    },
                    None => {
                        assert(before.take(before.len() as int) =~= before);
                        lemma_first_hits_held(before, now@, width, f, before.len() as int, a);
                    },
                }
            }
        }
        self.candidates = Some(next);
        self.snapshot = now;
    }
}

proof fn lemma_bank_hits(
    base: u32,
    before: Seq<u8>,
    now: Seq<u8>,
    width: u32,
    f: HuntFilter,
    n: nat,
)
    requires
        width == 1 || width == 2,
        base + n * width <= 0x1_0000_0000,
    ensures
        forall|k: int|
            #![trigger bank_slot(base, k, width)]
            0 <= k < n ==> (bank_hits(base, before, now, width, f, n).contains(
                bank_slot(base, k, width),
            ) <==> survives(
                f,
                value_of(before, k * width, width),
                value_of(now, k * width, width),
            )),
        forall|a: u32| #[trigger]
            bank_hits(base, before, now, width, f, n).contains(a) ==> exists|k: int|
                0 <= k < n && a == #[trigger] bank_slot(base, k, width),
    decreases n,
{
    if n > 0 {
        let m = (n - 1) as nat;
        assert(m * width + width == n * width) by (nonlinear_arith)
            requires
                m == n - 1,
        ;
        lemma_bank_hits(base, before, now, width, f, m);
        let s = bank_hits(base, before, now, width, f, m);
        let t = bank_hits(base, before, now, width, f, n);
        let off = m * width;
        let slot = bank_slot(base, m as int, width);
        let hit = survives(f, value_of(before, off, width), value_of(now, off, width));
        assert forall|x: u32| t.contains(x) <==> s.contains(x) || (hit && x == slot) by {
            if hit {
                if s.contains(x) {
                    assert(t[s.index_of(x)] == x);
                }
                assert(t[s.len() as int] == slot);
                if t.contains(x) {
                    let i = t.index_of(x);
                    if i < s.len() {
                        assert(s[i] == x);
                    }
                }
            }
        }
        assert forall|k: int|
            #![trigger bank_slot(base, k, width)]
            0 <= k < n implies (t.contains(bank_slot(base, k, width)) <==> survives(
            f,
            value_of(before, k * width, width),
            value_of(now, k * width, width),
        )) by {
            if k < m {
                assert(k * width < m * width) by (nonlinear_arith)
                    requires
                        0 <= k < m,
                        width > 0,
                ;
            } else {
                assert(!s.contains(slot)) by {
                    if s.contains(slot) {
                        let j = choose|j: int|
                            0 <= j < m && slot == #[trigger] bank_slot(base, j, width);
                        assert(j * width < m * width) by (nonlinear_arith)
                            requires
                                0 <= j < m,
                                width > 0,
                        ;
                    }
                }
            }
        }
        assert forall|a: u32| #[trigger] t.contains(a) implies exists|k: int|
            0 <= k < n && a == #[trigger] bank_slot(base, k, width) by {
            if s.contains(a) {
                let j = choose|j: int| 0 <= j < m && a == #[trigger] bank_slot(base, j, width);
                assert(a == bank_slot(base, j, width));
            } else {
                assert(a == slot);
            }
        }
    }
}

/// A value that some bank holds all of is found.
proof fn lemma_value_found(s: Seq<Bank>, i: int, addr: u32, width: u32)
    requires
        0 <= i < s.len(),
        addr >= s[i].base,
        addr - s[i].base + width <= s[i].bytes@.len(),
    ensures
        value_at(s, addr, width) is Some,
    decreases s.len(),
{
    if i > 0 && !(addr >= s[0].base && addr - s[0].base + width <= s[0].bytes@.len()) {
        assert(s.skip(1)[i - 1] == s[i]);
        lemma_value_found(s.skip(1), i - 1, addr, width);
    }
}

/// The survivors of a first filter over the first `n` banks lie inside them.
proof fn lemma_first_hits_held(
    before: Seq<Bank>,
    now: Seq<Bank>,
    width: u32,
    f: HuntFilter,
    n: int,
    a: u32,
)
    requires
        width == 1 || width == 2,
        same_banks(before, now),
        banks_fit(before),
        0 <= n <= before.len(),
        first_hits(before.take(n), now, width, f).contains(a),
    ensures
        value_at(now, a, width) is Some,
    decreases n,
{
    if n > 0 {
        let t = before.take(n);
        assert(t.drop_last() =~= before.take(n - 1));
        let last = before[n - 1];
        assert(t.last() == last);
        let len = last.bytes@.len();
        let slots = (len / width as nat) as nat;
        let hits = bank_hits(last.base, last.bytes@, now[n - 1].bytes@, width, f, slots);
        let rest = first_hits(before.take(n - 1), now, width, f);
        let i = (rest + hits).index_of(a);
        assert(last.base == now[n - 1].base && len == now[n - 1].bytes@.len());
        if i < rest.len() {
            assert(rest[i] == a);
            lemma_first_hits_held(before, now, width, f, n - 1, a);
        } else {
            assert(hits[i - rest.len()] == a);
            assert(hits.contains(a));
            lemma_first_filter_is_exact(last, now[n - 1], width, f);
            let k = choose|k: int|
                0 <= k < slots && a == #[trigger] bank_slot(last.base, k, width);
            assert(0 <= k * width && k * width + width <= len) by (nonlinear_arith)
                requires
                    0 <= k < slots,
                    slots == len / width as nat,
                    width == 1 || width == 2,
            ;
            lemma_value_found(now, n - 1, a, width);
        }
    } else {
        assert(before.take(0) =~= Seq::empty());
    }
}

/// The address of a bank's value number `k`.
pub open spec fn bank_slot(base: u32, k: int, width: u32) -> u32 {
    (base + k * width) as u32
}

/// A first filter over one bank keeps exactly the aligned values that pass:
/// every one of them, and nothing else.
pub proof fn lemma_first_filter_is_exact(bank: Bank, now: Bank, width: u32, f: HuntFilter)
    requires
        width == 1 || width == 2,
        bank.base + bank.bytes@.len() <= 0x1_0000_0000,
    ensures
        ({
            let n = (bank.bytes@.len() / width as nat) as nat;
            let hits = bank_hits(bank.base, bank.bytes@, now.bytes@, width, f, n);
            &&& forall|k: int|
                #![trigger bank_slot(bank.base, k, width)]
                0 <= k < n ==> (hits.contains(bank_slot(bank.base, k, width)) <==> survives(
                    f,
                    value_of(bank.bytes@, k * width, width),
                    value_of(now.bytes@, k * width, width),
                ))
            &&& forall|a: u32| #[trigger]
                hits.contains(a) ==> exists|k: int|
                    0 <= k < n && a == #[trigger] bank_slot(bank.base, k, width)
        }),
{
    let n = (bank.bytes@.len() / width as nat) as nat;
    assert(n * width <= bank.bytes@.len()) by (nonlinear_arith)
        requires
            n == bank.bytes@.len() / width as nat,
            width == 1 || width == 2,
    ;
    lemma_bank_hits(bank.base, bank.bytes@, now.bytes@, width, f, n);
}

/// A later filter only narrows: its survivors were candidates, and each of
/// them passes.
pub proof fn lemma_filters_narrow(hunt: &HuntState, now: Seq<Bank>, f: HuntFilter, a: u32)
    requires
        hunt.candidates is Some,
    ensures
        hunt.filtered(now, f).contains(a) <==> hunt.candidates.unwrap()@.contains(a) && passes(
            hunt.snapshot@,
            now,
            hunt.width,
            f,
            a,
        ),
{
    let c = hunt.candidates.unwrap()@;
    lemma_filter_contains(c, |x: u32| passes(hunt.snapshot@, now, hunt.width, f, x), a);
}

/// Nothing changed between two snapshots.
pub open spec fn unchanged(before: Seq<Bank>, now: Seq<Bank>) -> bool {
    &&& before.len() == now.len()
    &&& forall|i: int|
        0 <= i < before.len() ==> (#[trigger] before[i]).base == now[i].base && before[i].bytes@
            == now[i].bytes@
}

proof fn lemma_value_unchanged(before: Seq<Bank>, now: Seq<Bank>, addr: u32, width: u32)
    requires
        unchanged(before, now),
    ensures
        value_at(before, addr, width) == value_at(now, addr, width),
    decreases before.len(),
{
    if before.len() > 0 {
        assert(before[0].base == now[0].base);
        assert forall|i: int| 0 <= i < before.skip(1).len() implies (
        #[trigger] before.skip(1)[i]).base == now.skip(1)[i].base && before.skip(1)[i].bytes@
            == now.skip(1)[i].bytes@ by {
            assert(before[i + 1].base == now[i + 1].base);
        }
        lemma_value_unchanged(before.skip(1), now.skip(1), addr, width);
    }
}

proof fn lemma_filter_whole(s: Seq<u32>, keep: spec_fn(u32) -> bool, all: bool)
    requires
        forall|i: int| 0 <= i < s.len() ==> keep(#[trigger] s[i]) == all,
    ensures
        s.filter(keep) == (if all {
            s
        } else {
            Seq::empty()
        }),
    decreases s.len(),
{
    reveal(Seq::filter);
    if s.len() > 0 {
        let t = s.drop_last();
        assert forall|i: int| 0 <= i < t.len() implies keep(#[trigger] t[i]) == all by {
            assert(keep(s[i]) == all);
        }
        lemma_filter_whole(t, keep, all);
        assert(keep(s[s.len() - 1]) == all);
        assert(t.push(s.last()) =~= s);
    } else {
        assert(s =~= Seq::empty());
    }
}

/// The addresses of a bank's first values.
pub open spec fn bank_slots(base: u32, width: u32, n: nat) -> Seq<u32> {
    Seq::new(n, |k: int| bank_slot(base, k, width))
}

/// Every aligned value of these banks, in order.
pub open spec fn all_slots(s: Seq<Bank>, width: u32) -> Seq<u32>
    decreases s.len(),
{
    if s.len() == 0 {
        Seq::empty()
    } else {
        all_slots(s.drop_last(), width) + bank_slots(
            s.last().base,
            width,
            (s.last().bytes@.len() / width as nat) as nat,
        )
    }
}

proof fn lemma_bank_unchanged(base: u32, bytes: Seq<u8>, width: u32, n: nat)
    ensures
        bank_hits(base, bytes, bytes, width, HuntFilter::Same, n) == bank_slots(base, width, n),
        bank_hits(base, bytes, bytes, width, HuntFilter::Different, n).len() == 0,
    decreases n,
{
    if n > 0 {
        lemma_bank_unchanged(base, bytes, width, (n - 1) as nat);
        assert(bank_slots(base, width, n) =~= bank_slots(base, width, (n - 1) as nat).push(
            bank_slot(base, n - 1, width),
        ));
    } else {
        assert(bank_slots(base, width, 0) =~= Seq::empty());
    }
}

proof fn lemma_first_unchanged(before: Seq<Bank>, now: Seq<Bank>, width: u32, n: int)
    requires
        unchanged(before, now),
        0 <= n <= before.len(),
    ensures
        first_hits(before.take(n), now, width, HuntFilter::Same) == all_slots(
            before.take(n),
            width,
        ),
        first_hits(before.take(n), now, width, HuntFilter::Different).len() == 0,
    decreases n,
{
    if n > 0 {
        lemma_first_unchanged(before, now, width, n - 1);
        assert(before.take(n).drop_last() =~= before.take(n - 1));
        let last = before[n - 1];
        assert(before.take(n).last() == last);
        assert(last.bytes@ == now[n - 1].bytes@);
        lemma_bank_unchanged(
            last.base,
            last.bytes@,
            width,
            (last.bytes@.len() / width as nat) as nat,
        );
    } else {
        assert(before.take(0) =~= Seq::empty());
    }
}

/// Over memory that did not change, SAME keeps every candidate and DIFF keeps
/// none; as a first filter, SAME keeps every value there is.
pub proof fn lemma_unchanged_memory(hunt: &HuntState, now: Seq<Bank>)
    requires
        hunt.wf(),
        unchanged(hunt.snapshot@, now),
    ensures
        hunt.filtered(now, HuntFilter::Same) == (match hunt.candidates {
            Some(c) => c@,
            None => all_slots(hunt.snapshot@, hunt.width),
        }),
        hunt.filtered(now, HuntFilter::Different).len() == 0,
{
    let before = hunt.snapshot@;
    match hunt.candidates {
        Some(c) => {
            let same = |a: u32| passes(before, now, hunt.width, HuntFilter::Same, a);
            let diff = |a: u32| passes(before, now, hunt.width, HuntFilter::Different, a);
            assert forall|i: int| 0 <= i < c@.len() implies same(#[trigger] c@[i]) == true
                && diff(c@[i]) == false by {
                lemma_value_unchanged(before, now, c@[i], hunt.width);
            }
            lemma_filter_whole(c@, same, true);
            lemma_filter_whole(c@, diff, false);
        },
        None => {
            lemma_first_unchanged(before, now, hunt.width, before.len() as int);
            assert(before.take(before.len() as int) =~= before);
        },
    }
}

/// A value as it lies in memory, the more significant byte first.
pub open spec fn stored(bytes: Seq<u8>, off: int, width: u32) -> int {
    if width == 1 {
        bytes[off] as int
    } else {
        bytes[off] * 256 + bytes[off + 1]
    }
}

/// Value number `k` of bank `j` is at address `a`, and is `x`.
pub open spec fn slot_holds(s: Seq<Bank>, width: u32, j: int, k: int, a: u32, x: int) -> bool {
    &&& 0 <= j < s.len()
    &&& 0 <= k
    &&& k * width + width <= s[j].bytes@.len()
    &&& a == s[j].base + k * width
    &&& x == stored(s[j].bytes@, k * width, width)
}

/// Bank `j` is the first that holds all of the value at `a`, which is `x`.
pub open spec fn first_holds(s: Seq<Bank>, width: u32, j: int, a: u32, x: int) -> bool {
    &&& 0 <= j < s.len()
    &&& s[j].base <= a && a - s[j].base + width <= s[j].bytes@.len()
    &&& forall|i: int|
        0 <= i < j ==> !((#[trigger] s[i]).base <= a && a - s[i].base + width
            <= s[i].bytes@.len())
    &&& x == stored(s[j].bytes@, a - s[j].base, width)
}

proof fn lemma_first_hits_are(
    before: Seq<Bank>,
    now: Seq<Bank>,
    width: u32,
    f: HuntFilter,
    n: int,
    a: u32,
)
    requires
        width == 1 || width == 2,
        same_banks(before, now),
        banks_fit(before),
        0 <= n <= before.len(),
    ensures
        first_hits(before.take(n), now, width, f).contains(a) <==> exists|j: int, k: int, y: int, x:
            int|
            j < n && #[trigger] slot_holds(before, width, j, k, a, y) && #[trigger] slot_holds(
                now,
                width,
                j,
                k,
                a,
                x,
            ) && survives(f, y as u32, x as u32),
    decreases n,
{
    let t = before.take(n);
    let hits = first_hits(t, now, width, f);
    if n == 0 {
        assert(t =~= Seq::empty());
        assert(!hits.contains(a));
    } else {
        lemma_first_hits_are(before, now, width, f, n - 1, a);
        assert(t.drop_last() =~= before.take(n - 1));
        let last = before[n - 1];
        let lnow = now[n - 1];
        assert(last.base == lnow.base && last.bytes@.len() == lnow.bytes@.len());
        assert(t.last() == last);
        let len = last.bytes@.len();
        let slots = (len / width as nat) as nat;
        let bh = bank_hits(last.base, last.bytes@, lnow.bytes@, width, f, slots);
        let rest = first_hits(before.take(n - 1), now, width, f);
        assert(hits == rest + bh);
        lemma_first_filter_is_exact(last, lnow, width, f);
        assert(last.base + len <= 0x1_0000_0000);
        if hits.contains(a) {
            let i = hits.index_of(a);
            if i < rest.len() {
                assert(rest[i] == a);
            } else {
                assert(bh[i - rest.len()] == a);
                assert(bh.contains(a));
                let k = choose|k: int|
                    0 <= k < slots && a == #[trigger] bank_slot(last.base, k, width);
                assert(0 <= k * width && k * width + width <= len) by (nonlinear_arith)
                    requires
                        0 <= k < slots,
                        slots == len / width as nat,
                        width == 1 || width == 2,
                ;
                let y = stored(last.bytes@, k * width, width);
                let x = stored(lnow.bytes@, k * width, width);
                assert(slot_holds(before, width, n - 1, k, a, y));
                assert(slot_holds(now, width, n - 1, k, a, x));
            }
        }
        if exists|j: int, k: int, y: int, x: int|
            j < n && #[trigger] slot_holds(before, width, j, k, a, y) && #[trigger] slot_holds(
                now,
                width,
                j,
                k,
                a,
                x,
            ) && survives(f, y as u32, x as u32) {
            let (j, k, y, x) = choose|j: int, k: int, y: int, x: int|
                j < n && #[trigger] slot_holds(before, width, j, k, a, y) && #[trigger] slot_holds(
                    now,
                    width,
                    j,
                    k,
                    a,
                    x,
                ) && survives(f, y as u32, x as u32);
            if j < n - 1 {
                let i = rest.index_of(a);
                assert(hits[i] == a);
            } else {
                assert(k < slots) by (nonlinear_arith)
                    requires
                        0 <= k,
                        k * width + width <= len,
                        slots == len / width as nat,
                        width == 1 || width == 2,
                ;
                assert(a == bank_slot(last.base, k, width));
                assert(bh.contains(a));
                let i = bh.index_of(a);
                assert(hits[rest.len() + i] == a);
            }
        }
    }
}

/// A value of one snapshot has its fellow in another of the same banks.
proof fn lemma_fellow(before: Seq<Bank>, now: Seq<Bank>, width: u32, j: int, k: int, a: u32, x: int)
    requires
        same_banks(before, now),
        slot_holds(now, width, j, k, a, x),
    ensures
        slot_holds(
            before,
            width,
            j,
            k,
            a,
            stored(before[j].bytes@, k * width, width),
        ),
{
    assert(before[j].base == now[j].base);
}

/// A first filter goes by what memory holds now: EQ keeps every aligned value
/// that is the number now and nothing else, NE every other, LT those below it
/// and GT those above it, in every writable bank.
pub proof fn lemma_first_filter_goes_by_value(hunt: &HuntState, now: Seq<Bank>, v: u32)
    requires
        hunt.wf(),
        hunt.candidates is None,
        same_banks(hunt.snapshot@, now),
    ensures
        forall|j: int, k: int, a: u32, x: int| #[trigger]
            slot_holds(now, hunt.width, j, k, a, x) ==> {
                &&& x == v ==> hunt.filtered(now, HuntFilter::Equal(v)).contains(a)
                &&& x != v ==> hunt.filtered(now, HuntFilter::NotEqual(v)).contains(a)
                &&& x < v ==> hunt.filtered(now, HuntFilter::Less(v)).contains(a)
                &&& x > v ==> hunt.filtered(now, HuntFilter::Greater(v)).contains(a)
            },
        forall|a: u32| #[trigger]
            hunt.filtered(now, HuntFilter::Equal(v)).contains(a) ==> exists|j: int, k: int|
                slot_holds(now, hunt.width, j, k, a, v as int),
        forall|a: u32| #[trigger]
            hunt.filtered(now, HuntFilter::NotEqual(v)).contains(a) ==> exists|
                j: int,
                k: int,
                x: int,
            |
                slot_holds(now, hunt.width, j, k, a, x) && x != v,
        forall|a: u32| #[trigger]
            hunt.filtered(now, HuntFilter::Less(v)).contains(a) ==> exists|j: int, k: int, x: int|
                slot_holds(now, hunt.width, j, k, a, x) && x < v,
        forall|a: u32| #[trigger]
            hunt.filtered(now, HuntFilter::Greater(v)).contains(a) ==> exists|
                j: int,
                k: int,
                x: int,
            |
                slot_holds(now, hunt.width, j, k, a, x) && x > v,
{
    let b = hunt.snapshot@;
    let w = hunt.width;
    let n = b.len() as int;
    assert(b.take(n) =~= b);
    assert forall|j: int, k: int, a: u32, x: int| #[trigger]
        slot_holds(now, w, j, k, a, x) implies {
        &&& x == v ==> hunt.filtered(now, HuntFilter::Equal(v)).contains(a)
        &&& x != v ==> hunt.filtered(now, HuntFilter::NotEqual(v)).contains(a)
        &&& x < v ==> hunt.filtered(now, HuntFilter::Less(v)).contains(a)
        &&& x > v ==> hunt.filtered(now, HuntFilter::Greater(v)).contains(a)
    } by {
        lemma_fellow(b, now, w, j, k, a, x);
        let y = stored(b[j].bytes@, k * w, w);
        lemma_first_hits_are(b, now, w, HuntFilter::Equal(v), n, a);
        lemma_first_hits_are(b, now, w, HuntFilter::NotEqual(v), n, a);
        lemma_first_hits_are(b, now, w, HuntFilter::Less(v), n, a);
        lemma_first_hits_are(b, now, w, HuntFilter::Greater(v), n, a);
        assert(slot_holds(b, w, j, k, a, y));
    }
    assert forall|a: u32| #[trigger]
        hunt.filtered(now, HuntFilter::Equal(v)).contains(a) implies exists|j: int, k: int|
        slot_holds(now, w, j, k, a, v as int) by {
        lemma_first_hits_are(b, now, w, HuntFilter::Equal(v), n, a);
    }
    assert forall|a: u32| #[trigger]
        hunt.filtered(now, HuntFilter::NotEqual(v)).contains(a) implies exists|
        j: int,
        k: int,
        x: int,
    |
        slot_holds(now, w, j, k, a, x) && x != v by {
        lemma_first_hits_are(b, now, w, HuntFilter::NotEqual(v), n, a);
    }
    assert forall|a: u32| #[trigger]
        hunt.filtered(now, HuntFilter::Less(v)).contains(a) implies exists|j: int, k: int, x: int|
        slot_holds(now, w, j, k, a, x) && x < v by {
        lemma_first_hits_are(b, now, w, HuntFilter::Less(v), n, a);
    }
    assert forall|a: u32| #[trigger]
        hunt.filtered(now, HuntFilter::Greater(v)).contains(a) implies exists|
        j: int,
        k: int,
        x: int,
    |
        slot_holds(now, w, j, k, a, x) && x > v by {
        lemma_first_hits_are(b, now, w, HuntFilter::Greater(v), n, a);
    }
}

proof fn lemma_value_in_first(s: Seq<Bank>, width: u32, j: int, a: u32, x: int)
    requires
        width == 1 || width == 2,
        first_holds(s, width, j, a, x),
    ensures
        value_at(s, a, width) == Some(x as u32),
    decreases j,
{
    if j > 0 {
        let t = s.skip(1);
        assert(t[j - 1] == s[j]);
        assert(!(s[0].base <= a && a - s[0].base + width <= s[0].bytes@.len()));
        assert forall|i: int| 0 <= i < j - 1 implies !((#[trigger] t[i]).base <= a && a - t[i].base
            + width <= t[i].bytes@.len()) by {
            assert(t[i] == s[i + 1]);
        }
        lemma_value_in_first(t, width, j - 1, a, x);
    }
}

/// A later filter goes by what memory holds now, too: a candidate whose value
/// is `x` stays under EQ where `x` is the number, under NE where it is not,
/// under LT where it is below and under GT where it is above; whatever it was
/// at the filter before. SAME keeps it where it was `x` then, and DIFF where
/// it was not.
pub proof fn lemma_later_filter_goes_by_value(
    hunt: &HuntState,
    now: Seq<Bank>,
    v: u32,
    j: int,
    a: u32,
    x: int,
    y: int,
)
    requires
        hunt.wf(),
        hunt.candidates matches Some(c) && c@.contains(a),
        same_banks(hunt.snapshot@, now),
        first_holds(now, hunt.width, j, a, x),
        first_holds(hunt.snapshot@, hunt.width, j, a, y),
    ensures
        hunt.filtered(now, HuntFilter::Equal(v)).contains(a) <==> x == v,
        hunt.filtered(now, HuntFilter::NotEqual(v)).contains(a) <==> x != v,
        hunt.filtered(now, HuntFilter::Less(v)).contains(a) <==> x < v,
        hunt.filtered(now, HuntFilter::Greater(v)).contains(a) <==> x > v,
        hunt.filtered(now, HuntFilter::Same).contains(a) <==> x == y,
        hunt.filtered(now, HuntFilter::Different).contains(a) <==> x != y,
{
    lemma_value_in_first(now, hunt.width, j, a, x);
    lemma_value_in_first(hunt.snapshot@, hunt.width, j, a, y);
    lemma_filters_narrow(hunt, now, HuntFilter::Equal(v), a);
    lemma_filters_narrow(hunt, now, HuntFilter::NotEqual(v), a);
    lemma_filters_narrow(hunt, now, HuntFilter::Less(v), a);
    lemma_filters_narrow(hunt, now, HuntFilter::Greater(v), a);
    lemma_filters_narrow(hunt, now, HuntFilter::Same, a);
    lemma_filters_narrow(hunt, now, HuntFilter::Different, a);
}

/// Under SAME and DIFF a first filter goes by how a value compares with the
/// one at the start: SAME keeps every aligned value that did not change, and
/// DIFF every one that did.
pub proof fn lemma_first_filter_goes_by_change(
    hunt: &HuntState,
    now: Seq<Bank>,
    j: int,
    k: int,
    a: u32,
    x: int,
    y: int,
)
    requires
        hunt.wf(),
        hunt.candidates is None,
        same_banks(hunt.snapshot@, now),
        slot_holds(now, hunt.width, j, k, a, x),
        slot_holds(hunt.snapshot@, hunt.width, j, k, a, y),
    ensures
        x == y ==> hunt.filtered(now, HuntFilter::Same).contains(a),
        x != y ==> hunt.filtered(now, HuntFilter::Different).contains(a),
{
    let b = hunt.snapshot@;
    let n = b.len() as int;
    assert(b.take(n) =~= b);
    lemma_first_hits_are(b, now, hunt.width, HuntFilter::Same, n, a);
    lemma_first_hits_are(b, now, hunt.width, HuntFilter::Different, n, a);
}

/// Filters on a value forget the past: two hunts over the same banks with the
/// same candidates keep the same ones, whatever their snapshots hold.
pub proof fn lemma_value_filters_forget(g: &HuntState, h: &HuntState, now: Seq<Bank>, f: HuntFilter)
    requires
        g.wf(),
        h.wf(),
        g.width == h.width,
        g.candidates == h.candidates,
        same_banks(g.snapshot@, now),
        same_banks(h.snapshot@, now),
        !(f is Same) && !(f is Different),
    ensures
        forall|a: u32| #[trigger]
            g.filtered(now, f).contains(a) <==> h.filtered(now, f).contains(a),
{
    let w = g.width;
    match g.candidates {
        Some(c) => {
            assert forall|a: u32| #[trigger]
                g.filtered(now, f).contains(a) <==> h.filtered(now, f).contains(a) by {
                lemma_filters_narrow(g, now, f, a);
                lemma_filters_narrow(h, now, f, a);
                if c@.contains(a) {
                    let i = c@.index_of(a);
                    assert(value_at(g.snapshot@, c@[i], w) is Some);
                    assert(value_at(h.snapshot@, c@[i], w) is Some);
                }
            }
        },
        None => {
            let n = now.len() as int;
            assert(g.snapshot@.take(n) =~= g.snapshot@);
            assert(h.snapshot@.take(n) =~= h.snapshot@);
            assert forall|a: u32| #[trigger]
                g.filtered(now, f).contains(a) <==> h.filtered(now, f).contains(a) by {
                lemma_first_hits_are(g.snapshot@, now, w, f, n, a);
                lemma_first_hits_are(h.snapshot@, now, w, f, n, a);
                if g.filtered(now, f).contains(a) {
                    let (j, k, y, x) = choose|j: int, k: int, y: int, x: int|
                        j < n && #[trigger] slot_holds(g.snapshot@, w, j, k, a, y)
                            && #[trigger] slot_holds(now, w, j, k, a, x) && survives(
                            f,
                            y as u32,
                            x as u32,
                        );
                    lemma_fellow(h.snapshot@, now, w, j, k, a, x);
                }
                if h.filtered(now, f).contains(a) {
                    let (j, k, y, x) = choose|j: int, k: int, y: int, x: int|
                        j < n && #[trigger] slot_holds(h.snapshot@, w, j, k, a, y)
                            && #[trigger] slot_holds(now, w, j, k, a, x) && survives(
                            f,
                            y as u32,
                            x as u32,
                        );
                    lemma_fellow(g.snapshot@, now, w, j, k, a, x);
                }
            }
        },
    }
}

/// A bank is one of the writable ones of a memory, with what it holds.
pub open spec fn is_writable_bank(regions: Seq<Region>, b: Bank) -> bool {
    exists|i: int|
        0 <= i < regions.len() && (#[trigger] regions[i]).writable && regions[i].base == b.base
            && regions[i].bytes@ == b.bytes@
}

/// A snapshot shows every writable bank with what it holds, and no other bank.
pub proof fn lemma_snapshot_shows_the_writable(s: Seq<Bank>, regions: Seq<Region>)
    requires
        is_snapshot(s, regions),
    ensures
        forall|i: int|
            0 <= i < regions.len() && (#[trigger] regions[i]).writable ==> exists|j: int|
                0 <= j < s.len() && (#[trigger] s[j]).base == regions[i].base && s[j].bytes@
                    == regions[i].bytes@,
        forall|j: int| 0 <= j < s.len() ==> is_writable_bank(regions, #[trigger] s[j]),
    decreases regions.len(),
{
    if regions.len() > 0 {
        let r = regions.drop_last();
        assert(forall|i: int| 0 <= i < r.len() ==> #[trigger] r[i] == regions[i]);
        assert(regions[regions.len() - 1] == regions.last());
        let t = if regions.last().writable {
            s.drop_last()
        } else {
            s
        };
        lemma_snapshot_shows_the_writable(t, r);
        assert(forall|j: int| 0 <= j < t.len() ==> #[trigger] t[j] == s[j]);
        assert forall|i: int| 0 <= i < regions.len() && (
        #[trigger] regions[i]).writable implies exists|j: int|
            0 <= j < s.len() && (#[trigger] s[j]).base == regions[i].base && s[j].bytes@
                == regions[i].bytes@ by {
            if i < r.len() {
                assert(r[i].writable);
                let j = choose|j: int|
                    0 <= j < t.len() && (#[trigger] t[j]).base == r[i].base && t[j].bytes@
                        == r[i].bytes@;
                assert(s[j].base == regions[i].base);
            } else {
                assert(s[s.len() - 1].base == regions[i].base);
            }
        }
        assert forall|j: int| 0 <= j < s.len() implies is_writable_bank(
            regions,
            #[trigger] s[j],
        ) by {
            if j < t.len() {
                assert(is_writable_bank(r, t[j]));
                let i = choose|i: int|
                    0 <= i < r.len() && (#[trigger] r[i]).writable && r[i].base == t[j].base
                        && r[i].bytes@ == t[j].bytes@;
                assert(regions[i].writable);
            } else {
                assert(regions[regions.len() - 1].writable);
            }
        }
    }
}

proof fn lemma_filter_contains(s: Seq<u32>, keep: spec_fn(u32) -> bool, a: u32)
    ensures
        s.filter(keep).contains(a) <==> s.contains(a) && keep(a),
    decreases s.len(),
{
    reveal(Seq::filter);
    if s.len() > 0 {
        let t = s.drop_last();
        lemma_filter_contains(t, keep, a);
        assert(s.contains(a) <==> t.contains(a) || a == s.last()) by {
            if s.contains(a) {
                let i = s.index_of(a);
                if i < t.len() {
                    assert(t[i] == a);
                }
            }
            if t.contains(a) {
                assert(s[t.index_of(a)] == a);
            }
            assert(s[s.len() - 1] == s.last());
        }
        if keep(s.last()) {
            let f = t.filter(keep);
            let g = f.push(s.last());
            assert(s.filter(keep) == g);
            assert(g.contains(a) <==> f.contains(a) || a == s.last()) by {
                if g.contains(a) {
                    let i = g.index_of(a);
                    if i < f.len() {
                        assert(f[i] == a);
                    }
                }
                if f.contains(a) {
                    assert(g[f.index_of(a)] == a);
                }
                assert(g[f.len() as int] == s.last());
            }
        }
    }
}

} // verus!
