//! The debug stops that a GDB session installs in the machine. Points that the
//! user already had are shared untouched; a memory watch that does not cover
//! what the session asked for is replaced by the union of both and put back
//! when the session lets go of it.

use vstd::prelude::*;

use crate::breaks::BreakStore;
use crate::breaks::Breakpoint;
use crate::breaks::SavedWatch;
use crate::breaks::Watch;
use crate::breaks::WatchAccess;
use crate::breaks::catch_text;
use crate::breaks::opt_text;
use crate::breaks::plain_point;
use crate::memory::Memory;
use crate::number::dec;
use crate::number::put_dec;
use crate::text::put;
use crate::text::texts;

verus! {

/// What a GDB client's session currently asks for.
#[derive(PartialEq, Eq, Debug)]
pub struct GdbCore {
    /// The client is the Bartman toolchain, whose stop replies are plain.
    pub bartman: bool,
    /// The program whose load is to stop the machine once.
    pub run_stop: Option<String>,
    pub breakpoints: Vec<u32>,
    /// Every watched word once, with the access asked for, up to the cap.
    pub watch_words: Vec<(u32, WatchAccess)>,
    /// More words were asked for than the cap allows.
    pub truncated: bool,
    pub watch_cap: u64,
    pub reg_watches: Vec<u16>,
    pub lib_events_armed: bool,
    pub loadseg_break: bool,
    pub outside_rom: bool,
    /// Console output that waits for the next reply.
    pub console: Vec<String>,
}

impl GdbCore {
    /// Every watched word is there once.
    pub open spec fn wf(&self) -> bool {
        distinct_wants(self.watch_words@)
    }
}

#[derive(Clone, Copy, PartialEq, Eq, Debug)]
pub struct GdbWatchWord {
    pub addr: u32,
    pub requested: WatchAccess,
    pub installed: WatchAccess,
    /// The user's watch that the session's union displaced.
    pub prior: Option<SavedWatch>,
}

/// The session's own entries in the machine's debug stores.
#[derive(PartialEq, Eq, Debug)]
pub struct GdbBreaks {
    pub pc: Vec<u32>,
    pub watch_words: Vec<GdbWatchWord>,
    pub reg_watches: Vec<u16>,
    /// `Some(filter)` while the program-load catch is the session's.
    pub loadseg: Option<Option<String>>,
    pub catches: Vec<u16>,
}

pub open spec fn masked(s: Seq<u32>, mask: u32) -> Seq<u32> {
    s.map_values(|a: u32| a & mask)
}

/// The addresses in order, without those that are in `have` and without
/// repeats.
pub open spec fn fresh<T>(s: Seq<T>, have: Set<T>) -> Seq<T>
    decreases s.len(),
{
    if s.len() == 0 {
        Seq::empty()
    } else {
        let f = fresh(s.drop_last(), have);
        if have.contains(s.last()) || f.contains(s.last()) {
            f
        } else {
            f.push(s.last())
        }
    }
}

/// The entries that are the session's after a reconciliation: those of its own
/// that are still asked for and still there, and those asked for that were not
/// there.
pub open spec fn synced_owned<T>(owned: Seq<T>, wanted: Seq<T>, have: Set<T>) -> Seq<T> {
    owned.filter(|x: T| wanted.contains(x) && have.contains(x)) + fresh(wanted, have)
}

/// The breakpoint that a reconciliation leaves at an address.
pub open spec fn synced_point(
    points: Map<u32, Breakpoint>,
    owned: Seq<u32>,
    desired: Seq<u32>,
    a: u32,
) -> Option<Breakpoint> {
    if desired.contains(a) {
        if points.dom().contains(a) {
            Some(points[a])
        } else {
            Some(plain_point(a))
        }
    } else if owned.contains(a) {
        None
    } else {
        points.get(a)
    }
}

/// Whether the session keeps a word: it is still asked for, and the machine
/// still holds exactly the watch that the session installed.
pub open spec fn keeps(
    words: Map<u32, SavedWatch>,
    o: GdbWatchWord,
    desired: Seq<(u32, WatchAccess)>,
) -> bool {
    desired.contains((o.addr, o.requested)) && words.get(o.addr) == Some(
        SavedWatch::unfiltered(o.installed),
    )
}

/// The watches after the session has let go of one word: its own watch gives
/// way to the one it displaced; a watch that was edited meanwhile stays.
pub open spec fn let_go(words: Map<u32, SavedWatch>, o: GdbWatchWord) -> Map<u32, SavedWatch> {
    if words.get(o.addr) != Some(SavedWatch::unfiltered(o.installed)) {
        words
    } else {
        match o.prior {
            Some(prior) => words.insert(o.addr, prior),
            None => words.remove(o.addr),
        }
    }
}

/// The watches and the kept words after the owned words were gone through.
pub open spec fn released(
    words: Map<u32, SavedWatch>,
    owned: Seq<GdbWatchWord>,
    desired: Seq<(u32, WatchAccess)>,
) -> (Map<u32, SavedWatch>, Seq<GdbWatchWord>)
    decreases owned.len(),
{
    if owned.len() == 0 {
        (words, Seq::empty())
    } else {
        let (w, kept) = released(words, owned.drop_last(), desired);
        if keeps(w, owned.last(), desired) {
            (w, kept.push(owned.last()))
        } else {
            (let_go(w, owned.last()), kept)
        }
    }
}

pub open spec fn owns(owned: Seq<GdbWatchWord>, want: (u32, WatchAccess)) -> bool {
    exists|i: int|
        0 <= i < owned.len() && (#[trigger] owned[i]).addr == want.0 && owned[i].requested
            == want.1
}

/// The watch that covers a request beside the one that is there.
pub open spec fn union_with(prior: Option<SavedWatch>, requested: WatchAccess) -> WatchAccess {
    match prior {
        Some(w) => w.access.spec_union(requested),
        None => requested,
    }
}

/// The watches and owned words after one requested word was seen to.
pub open spec fn take_on(
    words: Map<u32, SavedWatch>,
    owned: Seq<GdbWatchWord>,
    want: (u32, WatchAccess),
) -> (Map<u32, SavedWatch>, Seq<GdbWatchWord>) {
    let prior = words.get(want.0);
    if owns(owned, want) || (prior matches Some(w) && w.covers(want.1)) {
        (words, owned)
    } else {
        let installed = union_with(prior, want.1);
        (
            words.insert(want.0, SavedWatch::unfiltered(installed)),
            owned.push(
                GdbWatchWord { addr: want.0, requested: want.1, installed, prior },
            ),
        )
    }
}

pub open spec fn taken_on(
    words: Map<u32, SavedWatch>,
    owned: Seq<GdbWatchWord>,
    desired: Seq<(u32, WatchAccess)>,
) -> (Map<u32, SavedWatch>, Seq<GdbWatchWord>)
    decreases desired.len(),
{
    if desired.len() == 0 {
        (words, owned)
    } else {
        let (w, o) = taken_on(words, owned, desired.drop_last());
        take_on(w, o, desired.last())
    }
}

/// The watches and the session's words after a reconciliation.
pub open spec fn synced_words(
    words: Map<u32, SavedWatch>,
    owned: Seq<GdbWatchWord>,
    desired: Seq<(u32, WatchAccess)>,
) -> (Map<u32, SavedWatch>, Seq<GdbWatchWord>) {
    let (w, kept) = released(words, owned, desired);
    taken_on(w, kept, desired)
}

/// The filter of the program-load catch that the session wants, if any.
pub open spec fn wanted_loadseg(core: &GdbCore) -> Option<Option<Seq<char>>> {
    if core.lib_events_armed || core.loadseg_break {
        Some(None)
    } else if core.run_stop is Some {
        Some(opt_text(core.run_stop))
    } else {
        None
    }
}

/// The machine's program-load catch and the session's claim on it after a
/// reconciliation. A catch that is not the session's is shared.
pub open spec fn synced_loadseg(
    machine: Option<Option<Seq<char>>>,
    claim: Option<Option<Seq<char>>>,
    want: Option<Option<Seq<char>>>,
) -> (Option<Option<Seq<char>>>, Option<Option<Seq<char>>>) {
    match (machine, claim) {
        (Some(_), None) => (machine, None),
        (Some(_), Some(filter)) => if want == Some(filter) {
            (machine, claim)
        } else {
            (want, want)
        },
        (None, _) => (want, want),
    }
}

pub open spec fn distinct_wants(s: Seq<(u32, WatchAccess)>) -> bool {
    forall|i: int, j: int| 0 <= i < j < s.len() ==> (#[trigger] s[i]).0 != (#[trigger] s[j]).0
}

/// Every store but the breakpoints is the same.
pub open spec fn only_points(a: &BreakStore, b: &BreakStore) -> bool {
    &&& a.watches == b.watches
    &&& a.reg_watches == b.reg_watches
    &&& a.catches == b.catches
    &&& a.loadseg_catch == b.loadseg_catch
    &&& a.task_catch == b.task_catch
}

pub open spec fn only_watches(a: &BreakStore, b: &BreakStore) -> bool {
    &&& a.breakpoints == b.breakpoints
    &&& a.reg_watches == b.reg_watches
    &&& a.catches == b.catches
    &&& a.loadseg_catch == b.loadseg_catch
    &&& a.task_catch == b.task_catch
}

pub open spec fn only_reg_watches(a: &BreakStore, b: &BreakStore) -> bool {
    &&& a.breakpoints == b.breakpoints
    &&& a.watches == b.watches
    &&& a.catches == b.catches
    &&& a.loadseg_catch == b.loadseg_catch
    &&& a.task_catch == b.task_catch
}

pub open spec fn only_catches(a: &BreakStore, b: &BreakStore) -> bool {
    &&& a.breakpoints == b.breakpoints
    &&& a.watches == b.watches
    &&& a.reg_watches == b.reg_watches
    &&& a.loadseg_catch == b.loadseg_catch
    &&& a.task_catch == b.task_catch
}

pub open spec fn only_loadseg(a: &BreakStore, b: &BreakStore) -> bool {
    &&& a.breakpoints == b.breakpoints
    &&& a.watches == b.watches
    &&& a.reg_watches == b.reg_watches
    &&& a.catches == b.catches
    &&& a.task_catch == b.task_catch
}

pub fn contains_u32(v: &Vec<u32>, x: u32) -> (r: bool)
    ensures
        r == v@.contains(x),
{
    let mut i: usize = 0;
    while i < v.len()
        invariant
            i <= v@.len(),
            forall|j: int| 0 <= j < i ==> v@[j] != x,
        decreases v@.len() - i,
    {
        if v[i] == x {
            return true;
        }
        i += 1;
    }
    false
}

pub fn contains_u16(v: &Vec<u16>, x: u16) -> (r: bool)
    ensures
        r == v@.contains(x),
{
    let mut i: usize = 0;
    while i < v.len()
        invariant
            i <= v@.len(),
            forall|j: int| 0 <= j < i ==> v@[j] != x,
        decreases v@.len() - i,
    {
        if v[i] == x {
            return true;
        }
        i += 1;
    }
    false
}

fn contains_want(v: &Vec<(u32, WatchAccess)>, addr: u32, access: WatchAccess) -> (r: bool)
    ensures
        r == v@.contains((addr, access)),
{
    let mut i: usize = 0;
    while i < v.len()
        invariant
            i <= v@.len(),
            forall|j: int| 0 <= j < i ==> v@[j] != (addr, access),
        decreases v@.len() - i,
    {
        let (a, acc): (u32, WatchAccess) = v[i];
        if a == addr && acc == access {
            assert(v@[i as int] == (addr, access));
            return true;
        }
        i += 1;
    }
    false
}

fn same_saved(a: Option<SavedWatch>, b: SavedWatch) -> (r: bool)
    ensures
        r == (a == Some(b)),
{
    match a {
        Some(x) => x.same(b),
        None => false,
    }
}

/// Every watch is an earlier one, or starts from the word as it is.
pub open spec fn carried(a: Seq<Watch>, b: Seq<Watch>, m: &Memory) -> bool {
    forall|j: int|
        0 <= j < b.len() ==> (a.contains(#[trigger] b[j]) || b[j].last == m.word(b[j].addr))
}

proof fn lemma_carried_trans(a: Seq<Watch>, b: Seq<Watch>, c: Seq<Watch>, m: &Memory)
    requires
        carried(a, b, m),
        carried(b, c, m),
    ensures
        carried(a, c, m),
{
    assert forall|j: int| 0 <= j < c.len() implies (a.contains(#[trigger] c[j]) || c[j].last
        == m.word(c[j].addr)) by {
        if b.contains(c[j]) {
            let k = b.index_of(c[j]);
            assert(b[k] == c[j]);
        }
    }
}

proof fn lemma_carried_same(a: Seq<Watch>, m: &Memory)
    ensures
        carried(a, a, m),
{
}

/// Toggles a watch whose baseline is the word as it is.
fn toggle_word(store: &mut BreakStore, memory: &Memory, addr: u32, saved: SavedWatch)
    requires
        old(store).wf(),
    ensures
        final(store).wf(),
        final(store).words() == (if old(store).words().dom().contains(addr) {
            old(store).words().remove(addr)
        } else {
            old(store).words().insert(addr, saved)
        }),
        only_watches(final(store), old(store)),
        carried(old(store).watches@, final(store).watches@, memory),
{
    let last: u16 = memory.peek_word(addr);
    let set: bool = store.toggle_watch(addr, saved, last);
    proof {
        let a = old(store).watches@;
        if set {
            assert forall|j: int| 0 <= j < store.watches@.len() implies (a.contains(
                #[trigger] store.watches@[j],
            ) || store.watches@[j].last == memory.word(store.watches@[j].addr)) by {
                if j < a.len() {
                    assert(a[j] == store.watches@[j]);
                }
            }
        } else {
            let k = choose|k: int| 0 <= k < a.len() && store.watches@ == #[trigger] a.remove(k);
            assert forall|j: int| 0 <= j < store.watches@.len() implies a.contains(
                #[trigger] store.watches@[j],
            ) by {
                if j < k {
                    assert(a[j] == store.watches@[j]);
                } else {
                    assert(a[j + 1] == store.watches@[j]);
                }
            }
        }
    }
}

/// Lets go of one word.
fn let_go_word(store: &mut BreakStore, memory: &Memory, o: GdbWatchWord)
    requires
        old(store).wf(),
    ensures
        final(store).wf(),
        final(store).words() == let_go(old(store).words(), o),
        only_watches(final(store), old(store)),
        carried(old(store).watches@, final(store).watches@, memory),
{
    let installed = SavedWatch { filter: None, pc: None, access: o.installed };
    if !same_saved(store.watch_at(o.addr), installed) {
        proof {
            lemma_carried_same(store.watches@, memory);
        }
        return;
    }
    toggle_word(store, memory, o.addr, installed);
    match o.prior {
        Some(prior) => {
            let ghost mid = store.watches@;
            toggle_word(store, memory, o.addr, prior);
            assert(store.words() =~= old(store).words().insert(o.addr, prior));
            proof {
                lemma_carried_trans(old(store).watches@, mid, store.watches@, memory);
            }
        },
        None => {},
    }
}

proof fn lemma_fresh<T>(s: Seq<T>, have: Set<T>)
    ensures
        fresh(s, have).no_duplicates(),
        forall|x: T| #[trigger]
            fresh(s, have).contains(x) <==> s.contains(x) && !have.contains(x),
    decreases s.len(),
{
    if s.len() > 0 {
        let t = s.drop_last();
        let f = fresh(t, have);
        lemma_fresh(t, have);
        assert forall|x: T| s.contains(x) <==> t.contains(x) || x == s.last() by {
            if s.contains(x) {
                let i = s.index_of(x);
                if i < t.len() {
                    assert(t[i] == x);
                }
            }
            if t.contains(x) {
                assert(s[t.index_of(x)] == x);
            }
            assert(s[s.len() - 1] == s.last());
        }
        let g = fresh(s, have);
        if !(have.contains(s.last()) || f.contains(s.last())) {
            assert forall|x: T| #[trigger] g.contains(x) <==> f.contains(x) || x == s.last() by {
                if g.contains(x) {
                    let i = g.index_of(x);
                    if i < f.len() {
                        assert(f[i] == x);
                    }
                }
                if f.contains(x) {
                    assert(g[f.index_of(x)] == x);
                }
                assert(g[f.len() as int] == s.last());
            }
        }
    }
}

impl GdbBreaks {
    pub open spec fn wf(&self) -> bool {
        &&& self.pc@.no_duplicates()
        &&& self.reg_watches@.no_duplicates()
        &&& sound_words(self.watch_words@)
    }

    pub open spec fn is_empty(&self) -> bool {
        &&& self.pc@.len() == 0
        &&& self.watch_words@.len() == 0
        &&& self.reg_watches@.len() == 0
        &&& self.loadseg is None
        &&& self.catches@.len() == 0
    }

    pub fn new() -> (r: GdbBreaks)
        ensures
            r.is_empty(),
            r.wf(),
    {
        GdbBreaks {
            pc: Vec::new(),
            watch_words: Vec::new(),
            reg_watches: Vec::new(),
            loadseg: None,
            catches: Vec::new(),
        }
    }

    /// Reconciles the PC breakpoints with the desired list. A point of the
    /// session that was removed meanwhile comes back.
    fn sync_points(&mut self, store: &mut BreakStore, desired: &Vec<u32>)
        requires
            old(store).wf(),
            old(self).wf(),
        ensures
            final(store).wf(),
            final(self).wf(),
            only_points(final(store), old(store)),
            forall|a: u32| #[trigger]
                final(store).points().get(a) == synced_point(
                    old(store).points(),
                    old(self).pc@,
                    desired@,
                    a,
                ),
            final(self).pc@ == synced_owned(
                old(self).pc@,
                desired@,
                old(store).points().dom(),
            ),
            final(self).watch_words == old(self).watch_words,
            final(self).reg_watches == old(self).reg_watches,
            final(self).loadseg == old(self).loadseg,
            final(self).catches == old(self).catches,
    {
        let ghost points = store.points();
        let ghost owned = self.pc@;
        let ghost keep = |a: u32| desired@.contains(a) && points.dom().contains(a);
        let mut kept: Vec<u32> = Vec::new();
        let mut i: usize = 0;
        while i < self.pc.len()
            invariant
                i <= owned.len(),
                self.pc@ == owned,
                owned.no_duplicates(),
                store.wf(),
                only_points(store, old(store)),
                keep == (|a: u32| desired@.contains(a) && points.dom().contains(a)),
                kept@ == owned.take(i as int).filter(keep),
                forall|a: u32| #[trigger]
                    store.points().get(a) == (if owned.take(i as int).contains(a)
                        && !desired@.contains(a) {
                        None
                    } else {
                        points.get(a)
                    }),
            decreases owned.len() - i,
        {
            let addr: u32 = self.pc[i];
            let ghost before = store.points();
            proof {
                assert(owned.take(i + 1).drop_last() =~= owned.take(i as int));
                assert(owned.take(i + 1).last() == addr);
                reveal(Seq::filter);
                assert forall|a: u32| owned.take(i + 1).contains(a) <==> owned.take(
                    i as int,
                ).contains(a) || a == addr by {
                    if owned.take(i + 1).contains(a) {
                        let k = owned.take(i + 1).index_of(a);
                        if k < i {
                            assert(owned.take(i as int)[k] == a);
                        }
                    }
                    if owned.take(i as int).contains(a) {
                        assert(owned.take(i + 1)[owned.take(i as int).index_of(a)] == a);
                    }
                    assert(owned.take(i + 1)[i as int] == addr);
                }
                assert(before.get(addr) == points.get(addr)) by {
                    assert(!owned.take(i as int).contains(addr)) by {
                        if owned.take(i as int).contains(addr) {
                            let k = owned.take(i as int).index_of(addr);
                            assert(owned[k] == owned[i as int]);
                        }
                    }
                }
            }
            let here: bool = store.is_breakpoint(addr);
            if contains_u32(desired, addr) {
                if here {
                    kept.push(addr);
                }
            } else if here {
                store.set_breakpoint(addr, None, 0);
            }
            proof {
                assert forall|a: u32| #[trigger]
                    store.points().get(a) == (if owned.take(i + 1).contains(a)
                        && !desired@.contains(a) {
                        None
                    } else {
                        points.get(a)
                    }) by {
                    assert(before.get(a) == (if owned.take(i as int).contains(a)
                        && !desired@.contains(a) {
                        None
                    } else {
                        points.get(a)
                    }));
                }
            }
            i += 1;
        }
        assert(owned.take(i as int) =~= owned);
        let ghost freed = store.points();
        let ghost kept_points = kept@;
        proof {
            lemma_filtered(owned, keep);
        }
        self.pc = kept;
        let mut k: usize = 0;
        while k < desired.len()
            invariant
                k <= desired@.len(),
                store.wf(),
                only_points(store, old(store)),
                keep == (|a: u32| desired@.contains(a) && points.dom().contains(a)),
                kept_points == owned.filter(keep),
                kept_points.no_duplicates(),
                forall|a: u32| kept_points.contains(a) <==> owned.contains(a) && keep(a),
                self.pc@ == kept_points + fresh(desired@.take(k as int), points.dom()),
                self.watch_words == old(self).watch_words,
                self.reg_watches == old(self).reg_watches,
                self.loadseg == old(self).loadseg,
                self.catches == old(self).catches,
                self.reg_watches@.no_duplicates(),
                forall|a: u32| #[trigger]
                    freed.get(a) == (if owned.contains(a) && !desired@.contains(a) {
                        None
                    } else {
                        points.get(a)
                    }),
                forall|a: u32| #[trigger]
                    store.points().get(a) == (if fresh(
                        desired@.take(k as int),
                        points.dom(),
                    ).contains(a) {
                        Some(plain_point(a))
                    } else {
                        freed.get(a)
                    }),
            decreases desired@.len() - k,
        {
            let addr: u32 = desired[k];
            let ghost seen = desired@.take(k as int);
            let ghost f = fresh(seen, points.dom());
            proof {
                assert(desired@.take(k + 1).drop_last() =~= seen);
                assert(desired@.take(k + 1).last() == addr);
                assert(desired@.contains(addr));
                lemma_fresh(seen, points.dom());
                assert(freed.get(addr) == points.get(addr));
                if self.pc@.contains(addr) {
                    let j = self.pc@.index_of(addr);
                    if j < kept_points.len() {
                        assert(kept_points[j] == addr);
                        assert(kept_points.contains(addr));
                    } else {
                        assert(f[j - kept_points.len()] == addr);
                    }
                }
                assert(store.points().get(addr) is Some <==> points.dom().contains(addr)
                    || f.contains(addr));
            }
            let ghost before = store.points();
            let ours: bool = contains_u32(&self.pc, addr);
            if !ours && !store.is_breakpoint(addr) {
                store.set_breakpoint(addr, None, 0);
                let ghost owned_now = self.pc@;
                self.pc.push(addr);
                proof {
                    assert(fresh(desired@.take(k + 1), points.dom()) == f.push(addr));
                    assert(self.pc@ =~= kept_points + f.push(addr));
                    assert forall|a: u32| f.push(addr).contains(a) <==> f.contains(a) || a
                        == addr by {
                        if f.contains(a) {
                            assert(f.push(addr)[f.index_of(a)] == a);
                        }
                        assert(f.push(addr)[f.len() as int] == addr);
                    }
                    assert forall|a: u32| #[trigger]
                        store.points().get(a) == (if f.push(addr).contains(a) {
                            Some(plain_point(a))
                        } else {
                            freed.get(a)
                        }) by {
                        assert(before.get(a) == (if f.contains(a) {
                            Some(plain_point(a))
                        } else {
                            freed.get(a)
                        }));
                    }
                }
            } else {
                assert(fresh(desired@.take(k + 1), points.dom()) == f);
            }
            k += 1;
        }
        proof {
            assert(desired@.take(k as int) =~= desired@);
            lemma_fresh(desired@, points.dom());
            let f = fresh(desired@, points.dom());
            assert forall|i: int, j: int|
                0 <= i < kept_points.len() && 0 <= j < f.len() implies kept_points[i]
                != f[j] by {
                assert(kept_points.contains(kept_points[i]));
                assert(f.contains(f[j]));
            }
        }
    }
}

/// Whether a register is watched after a reconciliation.
pub open spec fn synced_reg(watched: Set<u16>, owned: Seq<u16>, desired: Seq<u16>, r: u16) -> bool {
    desired.contains(r) || (watched.contains(r) && !owned.contains(r))
}

impl GdbBreaks {
    /// Reconciles the register watches as the breakpoints are.
    fn sync_regs(&mut self, store: &mut BreakStore, desired: &Vec<u16>)
        requires
            old(store).wf(),
            old(self).wf(),
        ensures
            final(store).wf(),
            final(self).wf(),
            only_reg_watches(final(store), old(store)),
            forall|r: u16| #[trigger]
                final(store).reg_watches@.to_set().contains(r) == synced_reg(
                    old(store).reg_watches@.to_set(),
                    old(self).reg_watches@,
                    desired@,
                    r,
                ),
            final(self).reg_watches@ == synced_owned(
                old(self).reg_watches@,
                desired@,
                old(store).reg_watches@.to_set(),
            ),
            final(self).pc == old(self).pc,
            final(self).watch_words == old(self).watch_words,
            final(self).loadseg == old(self).loadseg,
            final(self).catches == old(self).catches,
    {
        let ghost watched = store.reg_watches@.to_set();
        let ghost owned = self.reg_watches@;
        let ghost keep = |r: u16| desired@.contains(r) && watched.contains(r);
        let mut kept: Vec<u16> = Vec::new();
        let mut i: usize = 0;
        while i < self.reg_watches.len()
            invariant
                i <= owned.len(),
                self.reg_watches@ == owned,
                owned.no_duplicates(),
                store.wf(),
                only_reg_watches(store, old(store)),
                keep == (|r: u16| desired@.contains(r) && watched.contains(r)),
                kept@ == owned.take(i as int).filter(keep),
                forall|r: u16| #[trigger]
                    store.reg_watches@.to_set().contains(r) == (watched.contains(r) && !(owned.take(
                        i as int,
                    ).contains(r) && !desired@.contains(r))),
            decreases owned.len() - i,
        {
            let off: u16 = self.reg_watches[i];
            let ghost before = store.reg_watches@.to_set();
            proof {
                assert(owned.take(i + 1).drop_last() =~= owned.take(i as int));
                assert(owned.take(i + 1).last() == off);
                reveal(Seq::filter);
                assert forall|r: u16| owned.take(i + 1).contains(r) <==> owned.take(
                    i as int,
                ).contains(r) || r == off by {
                    if owned.take(i + 1).contains(r) {
                        let k = owned.take(i + 1).index_of(r);
                        if k < i {
                            assert(owned.take(i as int)[k] == r);
                        }
                    }
                    if owned.take(i as int).contains(r) {
                        assert(owned.take(i + 1)[owned.take(i as int).index_of(r)] == r);
                    }
                    assert(owned.take(i + 1)[i as int] == off);
                }
                assert(!owned.take(i as int).contains(off)) by {
                    if owned.take(i as int).contains(off) {
                        let k = owned.take(i as int).index_of(off);
                        assert(owned[k] == owned[i as int]);
                    }
                }
                assert(before.contains(off) == watched.contains(off));
                assert(before.contains(off) == store.reg_watches@.contains(off));
            }
            let here: bool = contains_u16(&store.reg_watches, off);
            if contains_u16(desired, off) {
                if here {
                    kept.push(off);
                }
            } else if here {
                store.toggle_reg_watch(off);
            }
            proof {
                assert forall|r: u16| #[trigger]
                    store.reg_watches@.to_set().contains(r) == (watched.contains(r) && !(owned.take(
                        i + 1,
                    ).contains(r) && !desired@.contains(r))) by {
                    assert(before.contains(r) == (watched.contains(r) && !(owned.take(
                        i as int,
                    ).contains(r) && !desired@.contains(r))));
                }
            }
            i += 1;
        }
        assert(owned.take(i as int) =~= owned);
        let ghost freed = store.reg_watches@.to_set();
        let ghost kept_regs = kept@;
        proof {
            lemma_filtered(owned, keep);
        }
        self.reg_watches = kept;
        let mut k: usize = 0;
        while k < desired.len()
            invariant
                k <= desired@.len(),
                store.wf(),
                only_reg_watches(store, old(store)),
                keep == (|r: u16| desired@.contains(r) && watched.contains(r)),
                kept_regs == owned.filter(keep),
                kept_regs.no_duplicates(),
                forall|r: u16| kept_regs.contains(r) <==> owned.contains(r) && keep(r),
                self.reg_watches@ == kept_regs + fresh(desired@.take(k as int), watched),
                self.pc == old(self).pc,
                self.watch_words == old(self).watch_words,
                self.loadseg == old(self).loadseg,
                self.catches == old(self).catches,
                self.pc@.no_duplicates(),
                forall|r: u16| #[trigger]
                    freed.contains(r) == (watched.contains(r) && !(owned.contains(r)
                        && !desired@.contains(r))),
                forall|r: u16| #[trigger]
                    store.reg_watches@.to_set().contains(r) == (freed.contains(r) || fresh(
                        desired@.take(k as int),
                        watched,
                    ).contains(r)),
            decreases desired@.len() - k,
        {
            let off: u16 = desired[k];
            let ghost seen = desired@.take(k as int);
            let ghost f = fresh(seen, watched);
            let ghost before = store.reg_watches@.to_set();
            proof {
                assert(desired@.take(k + 1).drop_last() =~= seen);
                assert(desired@.take(k + 1).last() == off);
                assert(desired@.contains(off));
                lemma_fresh(seen, watched);
                assert(freed.contains(off) == watched.contains(off));
                if self.reg_watches@.contains(off) {
                    let j = self.reg_watches@.index_of(off);
                    if j < kept_regs.len() {
                        assert(kept_regs[j] == off);
                        assert(kept_regs.contains(off));
                    } else {
                        assert(f[j - kept_regs.len()] == off);
                    }
                }
                assert(before.contains(off) == (watched.contains(off) || f.contains(off)));
                assert(before.contains(off) == store.reg_watches@.contains(off));
            }
            let ours: bool = contains_u16(&self.reg_watches, off);
            if !ours && !contains_u16(&store.reg_watches, off) {
                store.toggle_reg_watch(off);
                self.reg_watches.push(off);
                proof {
                    assert(fresh(desired@.take(k + 1), watched) == f.push(off));
                    assert(self.reg_watches@ =~= kept_regs + f.push(off));
                    assert forall|r: u16| f.push(off).contains(r) <==> f.contains(r) || r
                        == off by {
                        if f.contains(r) {
                            assert(f.push(off)[f.index_of(r)] == r);
                        }
                        assert(f.push(off)[f.len() as int] == off);
                    }
                    assert forall|r: u16| #[trigger]
                        store.reg_watches@.to_set().contains(r) == (freed.contains(r) || f.push(
                            off,
                        ).contains(r)) by {
                        assert(before.contains(r) == (freed.contains(r) || f.contains(r)));
                    }
                }
            } else {
                assert(fresh(desired@.take(k + 1), watched) == f);
            }
            k += 1;
        }
        proof {
            assert(desired@.take(k as int) =~= desired@);
            lemma_fresh(desired@, watched);
            let f = fresh(desired@, watched);
            assert forall|i: int, j: int|
                0 <= i < kept_regs.len() && 0 <= j < f.len() implies kept_regs[i] != f[j] by {
                assert(kept_regs.contains(kept_regs[i]));
                assert(f.contains(f[j]));
            }
        }
    }

    fn owns_want(&self, addr: u32, access: WatchAccess) -> (r: bool)
        ensures
            r == owns(self.watch_words@, (addr, access)),
    {
        let mut i: usize = 0;
        while i < self.watch_words.len()
            invariant
                i <= self.watch_words@.len(),
                forall|j: int|
                    0 <= j < i ==> !((#[trigger] self.watch_words@[j]).addr == addr
                        && self.watch_words@[j].requested == access),
            decreases self.watch_words@.len() - i,
        {
            if self.watch_words[i].addr == addr && self.watch_words[i].requested == access {
                assert(self.watch_words@[i as int].addr == addr);
                return true;
            }
            i += 1;
        }
        false
    }

    /// Reconciles the memory watches: owned words first, then new requests.
    fn sync_words(
        &mut self,
        store: &mut BreakStore,
        memory: &Memory,
        desired: &Vec<(u32, WatchAccess)>,
    )
        requires
            old(store).wf(),
            old(self).wf(),
            distinct_wants(desired@),
        ensures
            final(store).wf(),
            final(self).wf(),
            only_watches(final(store), old(store)),
            carried(old(store).watches@, final(store).watches@, memory),
            (final(store).words(), final(self).watch_words@) == synced_words(
                old(store).words(),
                old(self).watch_words@,
                desired@,
            ),
            final(self).pc == old(self).pc,
            final(self).reg_watches == old(self).reg_watches,
            final(self).loadseg == old(self).loadseg,
            final(self).catches == old(self).catches,
    {
        let ghost words = store.words();
        let ghost owned = self.watch_words@;
        let mut kept: Vec<GdbWatchWord> = Vec::new();
        proof {
            lemma_carried_same(store.watches@, memory);
        }
        let mut i: usize = 0;
        while i < self.watch_words.len()
            invariant
                i <= owned.len(),
                self.watch_words@ == owned,
                store.wf(),
                only_watches(store, old(store)),
                carried(old(store).watches@, store.watches@, memory),
                (store.words(), kept@) == released(words, owned.take(i as int), desired@),
            decreases owned.len() - i,
        {
            let o: GdbWatchWord = self.watch_words[i];
            proof {
                assert(owned.take(i + 1).drop_last() =~= owned.take(i as int));
                assert(owned.take(i + 1).last() == o);
            }
            let installed = SavedWatch { filter: None, pc: None, access: o.installed };
            let current: Option<SavedWatch> = store.watch_at(o.addr);
            if contains_want(desired, o.addr, o.requested) && same_saved(current, installed) {
                kept.push(o);
            } else {
                let ghost mid = store.watches@;
                let_go_word(store, memory, o);
                proof {
                    lemma_carried_trans(old(store).watches@, mid, store.watches@, memory);
                }
            }
            i += 1;
        }
        assert(owned.take(i as int) =~= owned);
        let ghost mid = released(words, owned, desired@);
        self.watch_words = kept;
        let mut k: usize = 0;
        assert(desired@.take(0) =~= Seq::empty());
        while k < desired.len()
            invariant
                k <= desired@.len(),
                store.wf(),
                only_watches(store, old(store)),
                carried(old(store).watches@, store.watches@, memory),
                (store.words(), self.watch_words@) == taken_on(
                    mid.0,
                    mid.1,
                    desired@.take(k as int),
                ),
                self.pc == old(self).pc,
                self.reg_watches == old(self).reg_watches,
                self.loadseg == old(self).loadseg,
                self.catches == old(self).catches,
            decreases desired@.len() - k,
        {
            let (addr, requested): (u32, WatchAccess) = desired[k];
            proof {
                assert(desired@.take(k + 1).drop_last() =~= desired@.take(k as int));
                assert(desired@.take(k + 1).last() == (addr, requested));
            }
            let ghost before = store.words();
            let prior: Option<SavedWatch> = store.watch_at(addr);
            let covered: bool = match prior {
                Some(w) => w.filter.is_none() && w.pc.is_none() && w.access.union(requested)
                    == w.access,
                None => false,
            };
            if !self.owns_want(addr, requested) && !covered {
                let ghost start = store.watches@;
                let installed: WatchAccess = match prior {
                    Some(w) => w.access.union(requested),
                    None => requested,
                };
                let watch = SavedWatch { filter: None, pc: None, access: installed };
                proof {
                    lemma_carried_same(start, memory);
                }
                if prior.is_some() {
                    toggle_word(store, memory, addr, watch);
                }
                let ghost mid = store.watches@;
                toggle_word(store, memory, addr, watch);
                proof {
                    lemma_carried_trans(start, mid, store.watches@, memory);
                    lemma_carried_trans(old(store).watches@, start, store.watches@, memory);
                }
                assert(store.words() =~= before.insert(addr, watch));
                self.watch_words.push(GdbWatchWord { addr, requested, installed, prior });
            }
            k += 1;
        }
        assert(desired@.take(k as int) =~= desired@);
        proof {
            lemma_released(words, owned, desired@);
            lemma_taken_on(mid.0, mid.1, desired@, desired@.len() as int);
        }
    }

    /// Catches the exceptions that the Bartman toolchain expects to see.
    fn sync_catches(&mut self, store: &mut BreakStore)
        requires
            old(store).wf(),
            old(self).wf(),
        ensures
            final(store).wf(),
            final(self).wf(),
            only_catches(final(store), old(store)),
            final(store).catches@.to_set() == old(store).catches@.to_set().union(
                bartman_vectors().to_set(),
            ),
            final(self).catches@ == old(self).catches@ + bartman_vectors().filter(
                |v: u16| !old(store).catches@.to_set().contains(v),
            ),
            final(self).pc == old(self).pc,
            final(self).watch_words == old(self).watch_words,
            final(self).reg_watches == old(self).reg_watches,
            final(self).loadseg == old(self).loadseg,
    {
        let ghost have = store.catches@.to_set();
        let ghost pred = |v: u16| !have.contains(v);
        let ghost all = bartman_vectors();
        let vectors: Vec<u16> = vec![3, 4, 39];
        assert(vectors@ =~= all);
        let mut i: usize = 0;
        assert(all.take(0).filter(pred) =~= Seq::empty()) by {
            reveal(Seq::filter);
        }
        while i < vectors.len()
            invariant
                i <= vectors@.len() == 3,
                vectors@ == all,
                all == bartman_vectors(),
                pred == (|v: u16| !have.contains(v)),
                store.wf(),
                self.wf(),
                only_catches(store, old(store)),
                self.pc == old(self).pc,
                self.watch_words == old(self).watch_words,
                self.reg_watches == old(self).reg_watches,
                self.loadseg == old(self).loadseg,
                self.catches@ == old(self).catches@ + all.take(i as int).filter(pred),
                forall|v: u16| #[trigger]
                    store.catches@.to_set().contains(v) == (have.contains(v) || all.take(
                        i as int,
                    ).contains(v)),
            decreases vectors@.len() - i,
        {
            let v: u16 = vectors[i];
            let ghost before = store.catches@.to_set();
            let ghost owned_before = self.catches@;
            proof {
                reveal(Seq::filter);
                assert(all.take(i + 1).drop_last() =~= all.take(i as int));
                assert(all.take(i + 1).last() == v);
                assert(all.take(i + 1) =~= all.take(i as int).push(v));
                assert forall|x: u16| all.take(i + 1).contains(x) <==> all.take(
                    i as int,
                ).contains(x) || x == v by {
                    if all.take(i as int).contains(x) {
                        assert(all.take(i + 1)[all.take(i as int).index_of(x)] == x);
                    }
                    assert(all.take(i + 1)[i as int] == v);
                }
                assert(!all.take(i as int).contains(v)) by {
                    assert(all[0] == 3 && all[1] == 4 && all[2] == 39);
                }
                assert(before.contains(v) == have.contains(v));
                assert(before.contains(v) == store.catches@.contains(v));
            }
            if !contains_u16(&store.catches, v) {
                store.toggle_catch(v);
                self.catches.push(v);
                assert(self.catches@ =~= old(self).catches@ + all.take(i + 1).filter(pred));
            }
            proof {
                assert forall|x: u16| #[trigger]
                    store.catches@.to_set().contains(x) == (have.contains(x) || all.take(
                        i + 1,
                    ).contains(x)) by {
                    assert(before.contains(x) == (have.contains(x) || all.take(i as int).contains(
                        x,
                    )));
                }
            }
            i += 1;
        }
        proof {
            assert(all.take(3) =~= all);
            assert(store.catches@.to_set() =~= have.union(all.to_set())) by {
                assert forall|x: u16| store.catches@.to_set().contains(x) == have.union(
                    all.to_set(),
                ).contains(x) by {
                    assert(store.catches@.to_set().contains(x) == (have.contains(x)
                        || all.contains(x)));
                }
            }
        }
    }

    /// Reconciles the program-load catch.
    fn sync_loadseg(&mut self, store: &mut BreakStore, core: &GdbCore)
        requires
            old(store).wf(),
            old(self).wf(),
        ensures
            final(store).wf(),
            final(self).wf(),
            only_loadseg(final(store), old(store)),
            (catch_text(final(store).loadseg_catch), catch_text(final(self).loadseg))
                == synced_loadseg(
                catch_text(old(store).loadseg_catch),
                catch_text(old(self).loadseg),
                wanted_loadseg(core),
            ),
            final(self).pc == old(self).pc,
            final(self).watch_words == old(self).watch_words,
            final(self).reg_watches == old(self).reg_watches,
            final(self).catches == old(self).catches,
    {
        let every: bool = core.lib_events_armed || core.loadseg_break;
        let want: bool = every || core.run_stop.is_some();
        let filter: Option<String> = if every {
            None
        } else {
            clone_text(&core.run_stop)
        };
        let have: bool = store.loadseg_catch.is_some();
        let claimed: bool = self.loadseg.is_some();
        if have && !claimed {
            return;
        }
        if have && want {
            let same: bool = match &self.loadseg {
                Some(installed) => same_text(installed, &filter),
                None => false,
            };
            if same {
                return;
            }
        }
        if have {
            store.toggle_loadseg_catch(None);
        }
        if want {
            store.toggle_loadseg_catch(clone_text(&filter));
            self.loadseg = Some(filter);
        } else {
            self.loadseg = None;
        }
    }

    /// Reconciles the machine's debug stores with what the client's session
    /// now holds, and returns the console notes that this gives rise to.
    pub fn sync(&mut self, store: &mut BreakStore, memory: &Memory, core: &GdbCore) -> (notes: Vec<
        String,
    >)
        requires
            old(store).wf(),
            old(self).wf(),
            core.wf(),
        ensures
            final(store).wf(),
            final(self).wf(),
            synced(old(self), old(store), memory.mask, core, final(self), final(store)),
            carried(old(store).watches@, final(store).watches@, memory),
            texts(notes@) == sync_notes(core),
    {
        let mut notes: Vec<String> = Vec::new();
        let mask: u32 = memory.mask;
        if core.bartman && core.run_stop.is_none() {
            self.sync_catches(store);
        }
        let desired = masked_list(&core.breakpoints, mask);
        self.sync_points(store, &desired);
        if core.truncated {
            let mut note = "watchpoints cover more than ".to_owned();
            put_dec(&mut note, core.watch_cap);
            put(&mut note, " words; watching the first ");
            put_dec(&mut note, core.watch_cap);
            put(&mut note, "\n");
            notes.push(note);
        }
        self.sync_words(store, memory, &core.watch_words);
        self.sync_regs(store, &core.reg_watches);
        self.sync_loadseg(store, core);
        proof {
            reveal(regs_follow);
        }
        assert(texts(notes@) =~= sync_notes(core));
        notes
    }

    /// Removes everything that the session installed. Points of the user's
    /// stay, and a point that the user removed meanwhile counts as done.
    pub fn remove_all(&mut self, store: &mut BreakStore, memory: &Memory)
        requires
            old(store).wf(),
        ensures
            final(store).wf(),
            final(self).is_empty(),
            final(self).wf(),
            withdrawn(old(self), old(store), final(store)),
    {
        let ghost owned_catches = self.catches@;
        let ghost owned_pc = self.pc@;
        let ghost owned_words = self.watch_words@;
        let ghost owned_regs = self.reg_watches@;
        let mut i: usize = 0;
        while i < self.catches.len()
            invariant
                i <= owned_catches.len(),
                *self == *old(self),
                owned_catches == self.catches@,
                store.wf(),
                only_catches(store, old(store)),
                forall|v: u16| #[trigger]
                    store.catches@.to_set().contains(v) == (old(store).catches@.to_set().contains(v)
                        && !owned_catches.take(i as int).contains(v)),
            decreases owned_catches.len() - i,
        {
            let v: u16 = self.catches[i];
            let ghost before = store.catches@.to_set();
            proof {
                lemma_take_contains(owned_catches, i as int);
                assert(before.contains(v) == store.catches@.contains(v));
            }
            if contains_u16(&store.catches, v) {
                store.toggle_catch(v);
            }
            proof {
                assert forall|x: u16| #[trigger]
                    store.catches@.to_set().contains(x) == (old(store).catches@.to_set().contains(x)
                        && !owned_catches.take(i + 1).contains(x)) by {
                    assert(before.contains(x) == (old(store).catches@.to_set().contains(x)
                        && !owned_catches.take(i as int).contains(x)));
                }
            }
            i += 1;
        }
        assert(owned_catches.take(i as int) =~= owned_catches);
        let ghost mid = *store;
        let mut i: usize = 0;
        while i < self.pc.len()
            invariant
                i <= owned_pc.len(),
                *self == *old(self),
                owned_pc == self.pc@,
                store.wf(),
                only_points(store, &mid),
                mid.breakpoints == old(store).breakpoints,
                forall|a: u32| #[trigger]
                    store.points().get(a) == (if owned_pc.take(i as int).contains(a) {
                        None
                    } else {
                        old(store).points().get(a)
                    }),
            decreases owned_pc.len() - i,
        {
            let addr: u32 = self.pc[i];
            let ghost before = store.points();
            proof {
                lemma_take_contains(owned_pc, i as int);
            }
            if store.is_breakpoint(addr) {
                store.set_breakpoint(addr, None, 0);
            }
            proof {
                assert forall|a: u32| #[trigger]
                    store.points().get(a) == (if owned_pc.take(i + 1).contains(a) {
                        None
                    } else {
                        old(store).points().get(a)
                    }) by {
                    assert(before.get(a) == (if owned_pc.take(i as int).contains(a) {
                        None
                    } else {
                        old(store).points().get(a)
                    }));
                }
            }
            i += 1;
        }
        assert(owned_pc.take(i as int) =~= owned_pc);
        let ghost mid2 = *store;
        let mut i: usize = 0;
        while i < self.watch_words.len()
            invariant
                i <= owned_words.len(),
                *self == *old(self),
                owned_words == self.watch_words@,
                store.wf(),
                only_watches(store, &mid2),
                (store.words(), Seq::<GdbWatchWord>::empty()) == released(
                    mid2.words(),
                    owned_words.take(i as int),
                    Seq::empty(),
                ),
            decreases owned_words.len() - i,
        {
            proof {
                assert(owned_words.take(i + 1).drop_last() =~= owned_words.take(i as int));
            }
            let_go_word(store, memory, self.watch_words[i]);
            i += 1;
        }
        assert(owned_words.take(i as int) =~= owned_words);
        let ghost mid3 = *store;
        let mut i: usize = 0;
        while i < self.reg_watches.len()
            invariant
                i <= owned_regs.len(),
                *self == *old(self),
                owned_regs == self.reg_watches@,
                store.wf(),
                only_reg_watches(store, &mid3),
                mid3.reg_watches == old(store).reg_watches,
                forall|v: u16| #[trigger]
                    store.reg_watches@.to_set().contains(v) == (
                    old(store).reg_watches@.to_set().contains(v) && !owned_regs.take(
                        i as int,
                    ).contains(v)),
            decreases owned_regs.len() - i,
        {
            let v: u16 = self.reg_watches[i];
            let ghost before = store.reg_watches@.to_set();
            proof {
                lemma_take_contains(owned_regs, i as int);
                assert(before.contains(v) == store.reg_watches@.contains(v));
            }
            if contains_u16(&store.reg_watches, v) {
                store.toggle_reg_watch(v);
            }
            proof {
                assert forall|x: u16| #[trigger]
                    store.reg_watches@.to_set().contains(x) == (
                    old(store).reg_watches@.to_set().contains(x) && !owned_regs.take(
                        i + 1,
                    ).contains(x)) by {
                    assert(before.contains(x) == (old(store).reg_watches@.to_set().contains(x)
                        && !owned_regs.take(i as int).contains(x)));
                }
            }
            i += 1;
        }
        assert(owned_regs.take(i as int) =~= owned_regs);
        if self.loadseg.is_some() && store.loadseg_catch.is_some() {
            store.toggle_loadseg_catch(None);
        }
        proof {
            assert forall|a: u32| #[trigger]
                store.points().get(a) == (if owned_pc.contains(a) {
                    None
                } else {
                    old(store).points().get(a)
                }) by {
                assert(store.points().get(a) == mid2.points().get(a));
            }
            assert forall|v: u16| #[trigger]
                store.catches@.to_set().contains(v) == (old(store).catches@.to_set().contains(v)
                    && !owned_catches.contains(v)) by {
                assert(store.catches@.to_set().contains(v) == mid.catches@.to_set().contains(v));
            }
        }
        self.catches = Vec::new();
        self.pc = Vec::new();
        self.watch_words = Vec::new();
        self.reg_watches = Vec::new();
        self.loadseg = None;
    }
}

pub open spec fn bartman_vectors() -> Seq<u16> {
    seq![3u16, 4, 39]
}

/// The note about a request for more watched words than can be installed.
pub open spec fn sync_notes(core: &GdbCore) -> Seq<Seq<char>> {
    if core.truncated {
        seq![
            "watchpoints cover more than "@ + dec(core.watch_cap as int)
                + " words; watching the first "@ + dec(core.watch_cap as int) + "\n"@,
        ]
    } else {
        Seq::empty()
    }
}

/// The breakpoints are reconciled with the addresses asked for.
pub open spec fn points_synced(
    own: &GdbBreaks,
    store: &BreakStore,
    wanted: Seq<u32>,
    own2: &GdbBreaks,
    store2: &BreakStore,
) -> bool {
    &&& forall|a: u32| #[trigger]
        store2.points().get(a) == synced_point(store.points(), own.pc@, wanted, a)
    &&& own2.pc@ == synced_owned(own.pc@, wanted, store.points().dom())
}

/// The register watches are reconciled with those asked for.
pub open spec fn regs_synced(
    own: &GdbBreaks,
    store: &BreakStore,
    wanted: Seq<u16>,
    own2: &GdbBreaks,
    store2: &BreakStore,
) -> bool {
    regs_follow(
        store.reg_watches@.to_set(),
        own.reg_watches@,
        wanted,
        store2.reg_watches@.to_set(),
        own2.reg_watches@,
    )
}

/// The registers watched and the session's own, before and after.
#[verifier::opaque]
pub open spec fn regs_follow(
    watched: Set<u16>,
    owned: Seq<u16>,
    wanted: Seq<u16>,
    watched2: Set<u16>,
    owned2: Seq<u16>,
) -> bool {
    &&& forall|r: u16| #[trigger]
        watched2.contains(r) == synced_reg(watched, owned, wanted, r)
    &&& owned2 == synced_owned(owned, wanted, watched)
}

/// The exceptions that the Bartman toolchain expects to see are caught.
pub open spec fn catches_synced(
    own: &GdbBreaks,
    store: &BreakStore,
    asked: bool,
    own2: &GdbBreaks,
    store2: &BreakStore,
) -> bool {
    if asked {
        &&& store2.catches@.to_set() == store.catches@.to_set().union(bartman_vectors().to_set())
        &&& own2.catches@ == own.catches@ + bartman_vectors().filter(
            |v: u16| !store.catches@.to_set().contains(v),
        )
    } else {
        &&& store2.catches == store.catches
        &&& own2.catches == own.catches
    }
}

/// What a reconciliation does to the session's entries and to the stores.
pub open spec fn synced(
    own: &GdbBreaks,
    store: &BreakStore,
    mask: u32,
    core: &GdbCore,
    own2: &GdbBreaks,
    store2: &BreakStore,
) -> bool {
    &&& points_synced(own, store, masked(core.breakpoints@, mask), own2, store2)
    &&& (store2.words(), own2.watch_words@) == synced_words(
        store.words(),
        own.watch_words@,
        core.watch_words@,
    )
    &&& regs_synced(own, store, core.reg_watches@, own2, store2)
    &&& (catch_text(store2.loadseg_catch), catch_text(own2.loadseg)) == synced_loadseg(
        catch_text(store.loadseg_catch),
        catch_text(own.loadseg),
        wanted_loadseg(core),
    )
    &&& catches_synced(own, store, core.bartman && core.run_stop is None, own2, store2)
    &&& store2.task_catch == store.task_catch
}

/// What the stores hold once a session's entries are gone.
pub open spec fn withdrawn(own: &GdbBreaks, store: &BreakStore, store2: &BreakStore) -> bool {
    &&& forall|a: u32| #[trigger]
        store2.points().get(a) == (if own.pc@.contains(a) {
            None
        } else {
            store.points().get(a)
        })
    &&& store2.words() == released(store.words(), own.watch_words@, Seq::empty()).0
    &&& forall|r: u16| #[trigger]
        store2.reg_watches@.to_set().contains(r) == (store.reg_watches@.to_set().contains(r)
            && !own.reg_watches@.contains(r))
    &&& forall|v: u16| #[trigger]
        store2.catches@.to_set().contains(v) == (store.catches@.to_set().contains(v)
            && !own.catches@.contains(v))
    &&& catch_text(store2.loadseg_catch) == (if own.loadseg is Some {
        None
    } else {
        catch_text(store.loadseg_catch)
    })
    &&& store2.task_catch == store.task_catch
}

proof fn lemma_take_contains<T>(s: Seq<T>, i: int)
    requires
        0 <= i < s.len(),
    ensures
        forall|x: T| #[trigger] s.take(i + 1).contains(x) <==> s.take(i).contains(x) || x == s[i],
{
    assert forall|x: T| #[trigger] s.take(i + 1).contains(x) <==> s.take(i).contains(x) || x
        == s[i] by {
        if s.take(i + 1).contains(x) {
            let k = s.take(i + 1).index_of(x);
            if k < i {
                assert(s.take(i)[k] == x);
            }
        }
        if s.take(i).contains(x) {
            assert(s.take(i + 1)[s.take(i).index_of(x)] == x);
        }
        assert(s.take(i + 1)[i] == s[i]);
    }
}

pub fn clone_text(o: &Option<String>) -> (r: Option<String>)
    ensures
        opt_text(r) == opt_text(*o),
{
    match o {
        Some(s) => Some(s.clone()),
        None => None,
    }
}

pub fn same_text(a: &Option<String>, b: &Option<String>) -> (r: bool)
    ensures
        r == (opt_text(*a) == opt_text(*b)),
{
    match (a, b) {
        (Some(x), Some(y)) => *x == *y,
        (None, None) => true,
        _ => false,
    }
}

fn masked_list(v: &Vec<u32>, mask: u32) -> (r: Vec<u32>)
    ensures
        r@ == masked(v@, mask),
{
    let mut out: Vec<u32> = Vec::new();
    let mut i: usize = 0;
    while i < v.len()
        invariant
            i <= v@.len(),
            out@ == masked(v@.take(i as int), mask),
        decreases v@.len() - i,
    {
        out.push(v[i] & mask);
        i += 1;
        assert(out@ =~= masked(v@.take(i as int), mask));
    }
    assert(v@.take(i as int) =~= v@);
    out
}

proof fn lemma_filtered<T>(s: Seq<T>, keep: spec_fn(T) -> bool)
    requires
        s.no_duplicates(),
    ensures
        s.filter(keep).no_duplicates(),
        forall|a: T| #[trigger] s.filter(keep).contains(a) <==> s.contains(a) && keep(a),
    decreases s.len(),
{
    reveal(Seq::filter);
    if s.len() > 0 {
        let t = s.drop_last();
        lemma_filtered(t, keep);
        assert forall|a: T| s.contains(a) <==> t.contains(a) || a == s.last() by {
            if s.contains(a) {
                let i = s.index_of(a);
                if i < t.len() {
                    assert(t[i] == a);
                }
            }
            if t.contains(a) {
                assert(s[t.index_of(a)] == a);
            }
            assert(s[s.len() - 1] == s.last());
        }
        assert(!t.contains(s.last())) by {
            if t.contains(s.last()) {
                assert(s[t.index_of(s.last())] == s[s.len() - 1]);
            }
        }
        if keep(s.last()) {
            let f = t.filter(keep);
            let g = f.push(s.last());
            assert(s.filter(keep) == g);
            assert forall|a: T| #[trigger] g.contains(a) <==> f.contains(a) || a == s.last() by {
                if g.contains(a) {
                    let i = g.index_of(a);
                    if i < f.len() {
                        assert(f[i] == a);
                    }
                }
                if f.contains(a) {
                    assert(g[f.index_of(a)] == a);
                }
                assert(g[f.len() as int] == s.last());
            }
            assert(forall|i: int| 0 <= i < f.len() ==> f.contains(f[i]));
        }
    }
}

/// No two of the session's words share an address, and what was installed for
/// each includes the access that was asked for.
pub open spec fn sound_words(s: Seq<GdbWatchWord>) -> bool {
    &&& forall|i: int, j: int|
        0 <= i < j < s.len() ==> (#[trigger] s[i]).addr != (#[trigger] s[j]).addr
    &&& forall|i: int|
        0 <= i < s.len() ==> (#[trigger] s[i]).installed.spec_union(s[i].requested)
            == s[i].installed
}

pub open spec fn owned_addr(s: Seq<GdbWatchWord>, a: u32) -> bool {
    exists|i: int| 0 <= i < s.len() && (#[trigger] s[i]).addr == a
}

pub open spec fn wanted_addr(s: Seq<(u32, WatchAccess)>, a: u32) -> bool {
    exists|i: int| 0 <= i < s.len() && (#[trigger] s[i]).0 == a
}

/// The machine holds, for each of the session's words, what was installed.
pub open spec fn in_place(w: Map<u32, SavedWatch>, s: Seq<GdbWatchWord>) -> bool {
    forall|i: int|
        0 <= i < s.len() ==> w.get((#[trigger] s[i]).addr) == Some(
            SavedWatch::unfiltered(s[i].installed),
        )
}

proof fn lemma_owned_drop(s: Seq<GdbWatchWord>)
    requires
        s.len() > 0,
    ensures
        forall|a: u32| #[trigger]
            owned_addr(s, a) <==> owned_addr(s.drop_last(), a) || s.last().addr == a,
{
    let t = s.drop_last();
    assert forall|a: u32| #[trigger] owned_addr(s, a) <==> owned_addr(t, a) || s.last().addr
        == a by {
        if owned_addr(s, a) {
            let i = choose|i: int| 0 <= i < s.len() && (#[trigger] s[i]).addr == a;
            if i < t.len() {
                assert(t[i].addr == a);
            }
        }
        if owned_addr(t, a) {
            let i = choose|i: int| 0 <= i < t.len() && (#[trigger] t[i]).addr == a;
            assert(s[i].addr == a);
        }
        assert(s[s.len() - 1].addr == s.last().addr);
    }
}

proof fn lemma_released(
    words: Map<u32, SavedWatch>,
    owned: Seq<GdbWatchWord>,
    desired: Seq<(u32, WatchAccess)>,
)
    requires
        sound_words(owned),
    ensures
        ({
            let (w, kept) = released(words, owned, desired);
            &&& sound_words(kept)
            &&& in_place(w, kept)
            &&& forall|a: u32| #[trigger] owned_addr(kept, a) ==> owned_addr(owned, a)
            &&& forall|i: int|
                0 <= i < kept.len() ==> desired.contains(
                    ((#[trigger] kept[i]).addr, kept[i].requested),
                )
            &&& forall|a: u32| !owned_addr(owned, a) ==> #[trigger] w.get(a) == words.get(a)
        }),
    decreases owned.len(),
{
    if owned.len() > 0 {
        let t = owned.drop_last();
        let last = owned.last();
        assert(forall|i: int| 0 <= i < t.len() ==> t[i] == owned[i]);
        lemma_released(words, t, desired);
        lemma_owned_drop(owned);
        let (w0, kept0) = released(words, t, desired);
        let (w, kept) = released(words, owned, desired);
        assert(!owned_addr(t, last.addr)) by {
            if owned_addr(t, last.addr) {
                let i = choose|i: int| 0 <= i < t.len() && (#[trigger] t[i]).addr == last.addr;
                assert(owned[i].addr != owned[owned.len() - 1].addr);
            }
        }
        assert(!owned_addr(kept0, last.addr));
        if keeps(w0, last, desired) {
            assert(kept.drop_last() =~= kept0);
            lemma_owned_drop(kept);
            assert forall|i: int, j: int| 0 <= i < j < kept.len() implies (#[trigger] kept[i]).addr
                != (#[trigger] kept[j]).addr by {
                if j == kept0.len() {
                    assert(kept0[i].addr != last.addr);
                }
            }
            assert(owned[owned.len() - 1] == last);
        } else {
            assert forall|i: int| 0 <= i < kept.len() implies w.get((#[trigger] kept[i]).addr)
                == Some(SavedWatch::unfiltered(kept[i].installed)) by {
                assert(kept0[i].addr != last.addr);
                assert(w0.get(kept0[i].addr) == Some(
                    SavedWatch::unfiltered(kept0[i].installed),
                ));
            }
            assert forall|a: u32| !owned_addr(owned, a) implies #[trigger] w.get(a) == words.get(
                a,
            ) by {
                assert(w0.get(a) == words.get(a));
            }
        }
    }
}

proof fn lemma_taken_on(
    words: Map<u32, SavedWatch>,
    kept: Seq<GdbWatchWord>,
    desired: Seq<(u32, WatchAccess)>,
    n: int,
)
    requires
        sound_words(kept),
        in_place(words, kept),
        distinct_wants(desired),
        forall|i: int|
            0 <= i < kept.len() ==> desired.contains(((#[trigger] kept[i]).addr, kept[i].requested)),
        0 <= n <= desired.len(),
    ensures
        ({
            let (w, owned) = taken_on(words, kept, desired.take(n));
            &&& sound_words(owned)
            &&& in_place(w, owned)
            &&& forall|i: int|
                0 <= i < owned.len() ==> desired.contains(
                    ((#[trigger] owned[i]).addr, owned[i].requested),
                )
            &&& forall|i: int|
                0 <= i < n ==> (w.get((#[trigger] desired[i]).0) matches Some(x) && x.covers(
                    desired[i].1,
                ))
            &&& forall|a: u32|
                !wanted_addr(desired.take(n), a) ==> #[trigger] w.get(a) == words.get(a)
            &&& forall|a: u32| #[trigger]
                owned_addr(owned, a) ==> owned_addr(kept, a) || wanted_addr(desired.take(n), a)
        }),
    decreases n,
{
    if n > 0 {
        lemma_taken_on(words, kept, desired, n - 1);
        let before = desired.take(n - 1);
        let now = desired.take(n);
        assert(now.drop_last() =~= before);
        let want = desired[n - 1];
        assert(now.last() == want);
        let (w0, owned0) = taken_on(words, kept, before);
        let (w, owned) = taken_on(words, kept, now);
        assert forall|a: u32| #[trigger] wanted_addr(now, a) <==> wanted_addr(before, a) || a
            == want.0 by {
            if wanted_addr(now, a) {
                let i = choose|i: int| 0 <= i < now.len() && (#[trigger] now[i]).0 == a;
                if i < before.len() {
                    assert(before[i].0 == a);
                }
            }
            if wanted_addr(before, a) {
                let i = choose|i: int| 0 <= i < before.len() && (#[trigger] before[i]).0 == a;
                assert(now[i].0 == a);
            }
            assert(now[n - 1].0 == want.0);
        }
        assert forall|i: int| 0 <= i < n - 1 implies (#[trigger] desired[i]).0 != want.0 by {
            assert(desired[n - 1] == want);
        }
        if owns(owned0, want) {
            let i = choose|i: int|
                0 <= i < owned0.len() && (#[trigger] owned0[i]).addr == want.0
                    && owned0[i].requested == want.1;
            assert(w0.get(owned0[i].addr) == Some(SavedWatch::unfiltered(owned0[i].installed)));
        } else if !(w0.get(want.0) matches Some(x) && x.covers(want.1)) {
            assert(!owned_addr(owned0, want.0)) by {
                if owned_addr(owned0, want.0) {
                    let i = choose|i: int|
                        0 <= i < owned0.len() && (#[trigger] owned0[i]).addr == want.0;
                    let pair = (owned0[i].addr, owned0[i].requested);
                    assert(desired.contains(pair));
                    let j = desired.index_of(pair);
                    assert(desired[j].0 == desired[n - 1].0);
                    assert(j == n - 1);
                }
            }
            assert(owned.drop_last() =~= owned0);
            lemma_owned_drop(owned);
            assert forall|i: int, j: int| 0 <= i < j < owned.len() implies (#[trigger] owned[i]).addr
                != (#[trigger] owned[j]).addr by {
                if j == owned0.len() {
                    assert(owned0[i].addr != want.0);
                }
            }
            assert forall|i: int| 0 <= i < owned.len() implies w.get((#[trigger] owned[i]).addr)
                == Some(SavedWatch::unfiltered(owned[i].installed)) by {
                if i < owned0.len() {
                    assert(owned0[i].addr != want.0);
                    assert(w0.get(owned0[i].addr) == Some(
                        SavedWatch::unfiltered(owned0[i].installed),
                    ));
                }
            }
            assert(desired.contains(want));
        }
        assert forall|i: int| 0 <= i < n implies (w.get((#[trigger] desired[i]).0) matches Some(x)
            && x.covers(desired[i].1)) by {
            if i < n - 1 {
                assert(w0.get(desired[i].0) matches Some(x) && x.covers(desired[i].1));
            }
        }
        assert forall|a: u32| !wanted_addr(now, a) implies #[trigger] w.get(a) == words.get(a) by {
            assert(w0.get(a) == words.get(a));
        }
    } else {
        assert(desired.take(0) =~= Seq::empty());
    }
}

/// After a reconciliation every point that the client asked for is in place:
/// each breakpoint stands on the machine's bus, each watched word stops on the
/// accesses asked for, each register is watched, a program load stops the
/// machine where anything waits for one; and the session's bookkeeping stays
/// sound. A load catch of the user's stays as it is. One of the session's is
/// for every program, unless the awaited program alone asks for it: then it is
/// for that one.
pub proof fn lemma_sync_installs(
    own: &GdbBreaks,
    store: &BreakStore,
    mask: u32,
    core: &GdbCore,
    own2: &GdbBreaks,
    store2: &BreakStore,
)
    requires
        own.wf(),
        core.wf(),
        synced(own, store, mask, core, own2, store2),
    ensures
        forall|a: u32|
            masked(core.breakpoints@, mask).contains(a) ==> #[trigger] store2.points().get(
                a,
            ) is Some,
        forall|i: int|
            0 <= i < core.watch_words@.len() ==> (store2.words().get(
                (#[trigger] core.watch_words@[i]).0,
            ) matches Some(w) && w.covers(core.watch_words@[i].1)),
        forall|i: int|
            0 <= i < core.breakpoints@.len() ==> store2.points().get(
                #[trigger] core.breakpoints@[i] & mask,
            ) is Some,
        forall|r: u16|
            core.reg_watches@.contains(r) ==> #[trigger] store2.reg_watches@.to_set().contains(r),
        core.lib_events_armed || core.loadseg_break || core.run_stop is Some
            ==> store2.loadseg_catch is Some,
        store.loadseg_catch is Some && own.loadseg is None ==> catch_text(store2.loadseg_catch)
            == catch_text(store.loadseg_catch) && own2.loadseg is None,
        (store.loadseg_catch is None || (own.loadseg is Some && catch_text(store.loadseg_catch)
            == catch_text(own.loadseg))) && (core.lib_events_armed
            || core.loadseg_break) ==> {
            &&& store2.loadseg_catch matches Some(f) && f is None
            &&& own2.loadseg matches Some(f) && f is None
        },
        (store.loadseg_catch is None || (own.loadseg is Some && catch_text(store.loadseg_catch)
            == catch_text(own.loadseg))) && !core.lib_events_armed
            && !core.loadseg_break ==> match core.run_stop {
            Some(name) => {
                &&& store2.loadseg_catch matches Some(Some(f)) && f@ == name@
                &&& own2.loadseg matches Some(Some(f)) && f@ == name@
            },
            None => store2.loadseg_catch is None && own2.loadseg is None,
        },
        sound_words(own2.watch_words@),
        in_place(store2.words(), own2.watch_words@),
{
    reveal(regs_follow);
    let desired = core.watch_words@;
    assert forall|i: int| 0 <= i < core.breakpoints@.len() implies store2.points().get(
        #[trigger] core.breakpoints@[i] & mask,
    ) is Some by {
        assert(masked(core.breakpoints@, mask)[i] == core.breakpoints@[i] & mask);
    }
    let (w, kept) = released(store.words(), own.watch_words@, desired);
    lemma_released(store.words(), own.watch_words@, desired);
    lemma_taken_on(w, kept, desired, desired.len() as int);
    assert(desired.take(desired.len() as int) =~= desired);
}

/// A reconciliation lets go of what the session holds and no longer asks for,
/// and installs nothing that was not asked for: every breakpoint and register
/// watch after it was there before or is asked for.
pub proof fn lemma_sync_lets_go(
    own: &GdbBreaks,
    store: &BreakStore,
    mask: u32,
    core: &GdbCore,
    own2: &GdbBreaks,
    store2: &BreakStore,
)
    requires
        synced(own, store, mask, core, own2, store2),
    ensures
        forall|a: u32|
            own.pc@.contains(a) && (forall|i: int|
                0 <= i < core.breakpoints@.len() ==> core.breakpoints@[i] & mask != a)
                ==> #[trigger] store2.points().get(a) is None,
        forall|a: u32|
            store.points().get(a) is None && (forall|i: int|
                0 <= i < core.breakpoints@.len() ==> core.breakpoints@[i] & mask != a)
                ==> #[trigger] store2.points().get(a) is None,
        forall|a: u32|
            store.points().get(a) is Some && (exists|i: int|
                0 <= i < core.breakpoints@.len() && core.breakpoints@[i] & mask == a)
                ==> #[trigger] store2.points().get(a) == store.points().get(a),
        forall|r: u16|
            own.reg_watches@.contains(r) && !core.reg_watches@.contains(r)
                ==> !(#[trigger] store2.reg_watches@.to_set().contains(r)),
        forall|r: u16|
            !store.reg_watches@.to_set().contains(r) && !core.reg_watches@.contains(r)
                ==> !(#[trigger] store2.reg_watches@.to_set().contains(r)),
{
    reveal(regs_follow);
    let m = masked(core.breakpoints@, mask);
    assert forall|a: u32| m.contains(a) implies exists|i: int|
        0 <= i < core.breakpoints@.len() && core.breakpoints@[i] & mask == a by {
        let i = m.index_of(a);
        assert(core.breakpoints@[i] & mask == a);
    }
    assert forall|a: u32|
        (exists|i: int| 0 <= i < core.breakpoints@.len() && core.breakpoints@[i] & mask == a)
            implies m.contains(a) by {
        let i = choose|i: int|
            0 <= i < core.breakpoints@.len() && core.breakpoints@[i] & mask == a;
        assert(m[i] == a);
    }
    assert(forall|a: u32| #[trigger] store2.points().get(a) == synced_point(store.points(), own.pc@, m, a));
}

/// While a client of the Bartman toolchain waits for no program, the address
/// error, the illegal instruction and its own trap stop the machine, beside
/// every exception that did so already; for any other client no exception is
/// caught that was not.
pub proof fn lemma_sync_catches_faults(
    own: &GdbBreaks,
    store: &BreakStore,
    mask: u32,
    core: &GdbCore,
    own2: &GdbBreaks,
    store2: &BreakStore,
)
    requires
        synced(own, store, mask, core, own2, store2),
    ensures
        forall|v: u16| #[trigger]
            store2.catches@.to_set().contains(v) <==> store.catches@.to_set().contains(v) || (
            core.bartman && core.run_stop is None && (v == 3 || v == 4 || v == 39)),
        forall|v: u16|
            own2.catches@.contains(v) && !own.catches@.contains(v)
                ==> !(#[trigger] store.catches@.to_set().contains(v)) && (v == 3 || v == 4 || v
                == 39),
{
    let b = bartman_vectors();
    assert(b.len() == 3 && b[0] == 3 && b[1] == 4 && b[2] == 39);
    assert forall|v: u16| b.to_set().contains(v) <==> v == 3 || v == 4 || v == 39 by {
        if b.contains(v) {
            let i = b.index_of(v);
            assert(b[i] == v);
        }
    }
    if core.bartman && core.run_stop is None {
        let keep = |v: u16| !store.catches@.to_set().contains(v);
        assert forall|v: u16| own2.catches@.contains(v) && !own.catches@.contains(v) implies !(
        #[trigger] store.catches@.to_set().contains(v)) && (v == 3 || v == 4 || v == 39) by {
            let i = own2.catches@.index_of(v);
            assert(own2.catches@[i] == v);
            if i < own.catches@.len() {
                assert(own.catches@[i] == v);
            } else {
                assert(b.filter(keep)[i - own.catches@.len()] == v);
                assert(b.filter(keep).contains(v));
                b.lemma_filter_pred(keep, i - own.catches@.len());
                b.lemma_filter_contains_rev(keep, v);
                assert(b.contains(v));
            }
        }
    }
}

/// A reconciliation leaves alone what is neither the session's nor asked for:
/// the user's own breakpoints, watches, register watches and catches.
pub proof fn lemma_sync_leaves_local_points(
    own: &GdbBreaks,
    store: &BreakStore,
    mask: u32,
    core: &GdbCore,
    own2: &GdbBreaks,
    store2: &BreakStore,
)
    requires
        own.wf(),
        core.wf(),
        synced(own, store, mask, core, own2, store2),
    ensures
        forall|a: u32|
            !own.pc@.contains(a) && store.points().dom().contains(a) ==> #[trigger] store2.points().get(
                a,
            ) == store.points().get(a),
        forall|a: u32|
            !owned_addr(own.watch_words@, a) && !wanted_addr(core.watch_words@, a)
                ==> #[trigger] store2.words().get(a) == store.words().get(a),
        forall|r: u16|
            !own.reg_watches@.contains(r) && store.reg_watches@.to_set().contains(r)
                ==> #[trigger] store2.reg_watches@.to_set().contains(r),
        forall|v: u16|
            store.catches@.to_set().contains(v) ==> #[trigger] store2.catches@.to_set().contains(v),
{
    reveal(regs_follow);
    let desired = core.watch_words@;
    let (w, kept) = released(store.words(), own.watch_words@, desired);
    lemma_released(store.words(), own.watch_words@, desired);
    lemma_taken_on(w, kept, desired, desired.len() as int);
    assert(desired.take(desired.len() as int) =~= desired);
    assert forall|a: u32|
        !owned_addr(own.watch_words@, a) && !wanted_addr(desired, a) implies #[trigger] store2.words().get(
        a,
    ) == store.words().get(a) by {
        assert(w.get(a) == store.words().get(a));
    }
}

/// The watches that a session's words displaced, from a session that began
/// over the watches `words`.
pub open spec fn displaced_from(words: Map<u32, SavedWatch>, s: Seq<GdbWatchWord>) -> bool {
    forall|i: int| 0 <= i < s.len() ==> (#[trigger] s[i]).prior == words.get(s[i].addr)
}

proof fn lemma_released_restores(
    words: Map<u32, SavedWatch>,
    w: Map<u32, SavedWatch>,
    owned: Seq<GdbWatchWord>,
    n: int,
)
    requires
        sound_words(owned),
        in_place(w, owned),
        displaced_from(words, owned),
        forall|a: u32| !owned_addr(owned, a) ==> #[trigger] w.get(a) == words.get(a),
        0 <= n <= owned.len(),
    ensures
        ({
            let (w2, kept) = released(w, owned.take(n), Seq::empty());
            &&& kept.len() == 0
            &&& forall|a: u32| #[trigger]
                w2.get(a) == (if owned_addr(owned.take(n), a) {
                    words.get(a)
                } else {
                    w.get(a)
                })
        }),
    decreases n,
{
    if n > 0 {
        lemma_released_restores(words, w, owned, n - 1);
        let t = owned.take(n);
        assert(t.drop_last() =~= owned.take(n - 1));
        lemma_owned_drop(t);
        let last = owned[n - 1];
        let (w1, kept1) = released(w, owned.take(n - 1), Seq::empty());
        assert(!owned_addr(owned.take(n - 1), last.addr)) by {
            if owned_addr(owned.take(n - 1), last.addr) {
                let i = choose|i: int|
                    0 <= i < n - 1 && (#[trigger] owned.take(n - 1)[i]).addr == last.addr;
                assert(owned[i].addr != owned[n - 1].addr);
            }
        }
        assert(w1.get(last.addr) == w.get(last.addr));
        let (w2, kept) = released(w, t, Seq::empty());
        assert forall|a: u32| #[trigger]
            w2.get(a) == (if owned_addr(t, a) {
                words.get(a)
            } else {
                w.get(a)
            }) by {
            assert(w1.get(a) == (if owned_addr(owned.take(n - 1), a) {
                words.get(a)
            } else {
                w.get(a)
            }));
        }
    } else {
        assert(owned.take(0) =~= Seq::empty());
    }
}

/// What the session holds over the user's own points: each word that it owns
/// remembers the watch that it displaced, each other entry of its own was not
/// there before, and everything that is not the session's is the user's,
/// untouched.
pub open spec fn holds_over(own: &GdbBreaks, store: &BreakStore, base: &BreakStore) -> bool {
    &&& forall|a: u32| #[trigger]
        own.pc@.contains(a) ==> base.points().get(a) is None && store.points().get(a) == Some(
            plain_point(a),
        )
    &&& forall|a: u32|
        !own.pc@.contains(a) ==> #[trigger] store.points().get(a) == base.points().get(a)
    &&& words_hold(base.words(), store.words(), own.watch_words@)
    &&& forall|r: u16| #[trigger]
        own.reg_watches@.contains(r) ==> !base.reg_watches@.to_set().contains(r)
            && store.reg_watches@.to_set().contains(r)
    &&& forall|r: u16|
        !own.reg_watches@.contains(r) ==> #[trigger] store.reg_watches@.to_set().contains(r)
            == base.reg_watches@.to_set().contains(r)
    &&& forall|v: u16| #[trigger]
        own.catches@.contains(v) ==> !base.catches@.to_set().contains(v)
            && store.catches@.to_set().contains(v)
    &&& forall|v: u16|
        !own.catches@.contains(v) ==> #[trigger] store.catches@.to_set().contains(v)
            == base.catches@.to_set().contains(v)
    &&& if own.loadseg is Some {
        &&& base.loadseg_catch is None
        &&& catch_text(store.loadseg_catch) == catch_text(own.loadseg)
    } else {
        catch_text(store.loadseg_catch) == catch_text(base.loadseg_catch)
    }
    &&& store.task_catch == base.task_catch
}

/// What a session's words hold over the watches `base`.
pub open spec fn words_hold(
    base: Map<u32, SavedWatch>,
    words: Map<u32, SavedWatch>,
    owned: Seq<GdbWatchWord>,
) -> bool {
    &&& sound_words(owned)
    &&& in_place(words, owned)
    &&& displaced_from(base, owned)
    &&& forall|a: u32| !owned_addr(owned, a) ==> #[trigger] words.get(a) == base.get(a)
}

proof fn lemma_released_holds(
    base: Map<u32, SavedWatch>,
    words: Map<u32, SavedWatch>,
    owned: Seq<GdbWatchWord>,
    desired: Seq<(u32, WatchAccess)>,
    n: int,
)
    requires
        words_hold(base, words, owned),
        0 <= n <= owned.len(),
    ensures
        ({
            let (w, kept) = released(words, owned.take(n), desired);
            &&& displaced_from(base, kept)
            &&& forall|a: u32| #[trigger]
                owned_addr(kept, a) ==> owned_addr(owned.take(n), a)
            &&& forall|a: u32|
                !owned_addr(kept, a) ==> #[trigger] w.get(a) == (if owned_addr(owned.take(n), a) {
                    base.get(a)
                } else {
                    words.get(a)
                })
            &&& forall|a: u32| owned_addr(kept, a) ==> #[trigger] w.get(a) == words.get(a)
        }),
    decreases n,
{
    if n > 0 {
        lemma_released_holds(base, words, owned, desired, n - 1);
        let t = owned.take(n);
        let before = owned.take(n - 1);
        assert(t.drop_last() =~= before);
        lemma_owned_drop(t);
        let last = owned[n - 1];
        assert(t.last() == last);
        assert(!owned_addr(before, last.addr)) by {
            if owned_addr(before, last.addr) {
                let i = choose|i: int| 0 <= i < n - 1 && (#[trigger] before[i]).addr == last.addr;
                assert(owned[i].addr != owned[n - 1].addr);
            }
        }
        let (w0, kept0) = released(words, before, desired);
        let (w, kept) = released(words, t, desired);
        assert(w0.get(last.addr) == words.get(last.addr));
        if keeps(w0, last, desired) {
            assert(kept.drop_last() =~= kept0);
            lemma_owned_drop(kept);
        } else {
            assert(w.get(last.addr) == base.get(last.addr));
            assert forall|a: u32| a != last.addr implies #[trigger] w.get(a) == w0.get(a) by {}
        }
    } else {
        assert(owned.take(0) =~= Seq::empty());
    }
}

proof fn lemma_taken_on_holds(
    base: Map<u32, SavedWatch>,
    words: Map<u32, SavedWatch>,
    kept: Seq<GdbWatchWord>,
    desired: Seq<(u32, WatchAccess)>,
    n: int,
)
    requires
        words_hold(base, words, kept),
        distinct_wants(desired),
        forall|i: int|
            0 <= i < kept.len() ==> desired.contains(((#[trigger] kept[i]).addr, kept[i].requested)),
        0 <= n <= desired.len(),
    ensures
        ({
            let (w, owned) = taken_on(words, kept, desired.take(n));
            words_hold(base, w, owned)
        }),
    decreases n,
{
    if n > 0 {
        lemma_taken_on_holds(base, words, kept, desired, n - 1);
        lemma_taken_on(words, kept, desired, n - 1);
        lemma_taken_on(words, kept, desired, n);
        let before = desired.take(n - 1);
        assert(desired.take(n).drop_last() =~= before);
        let want = desired[n - 1];
        assert(desired.take(n).last() == want);
        let (w0, owned0) = taken_on(words, kept, before);
        let (w, owned) = taken_on(words, kept, desired.take(n));
        if owned != owned0 {
            assert(owned.drop_last() =~= owned0);
            lemma_owned_drop(owned);
            assert(!owned_addr(owned0, want.0)) by {
                if owned_addr(owned0, want.0) {
                    let i = choose|i: int|
                        0 <= i < owned0.len() && (#[trigger] owned0[i]).addr == want.0;
                    assert(owned[i].addr != owned[owned0.len() as int].addr);
                }
            }
            assert(w0.get(want.0) == base.get(want.0));
            assert forall|a: u32| !owned_addr(owned, a) implies #[trigger] w.get(a) == base.get(
                a,
            ) by {
                assert(w0.get(a) == base.get(a));
            }
        }
    } else {
        assert(desired.take(0) =~= Seq::empty());
    }
}

proof fn lemma_synced_words_hold(
    base: Map<u32, SavedWatch>,
    words: Map<u32, SavedWatch>,
    owned: Seq<GdbWatchWord>,
    desired: Seq<(u32, WatchAccess)>,
)
    requires
        words_hold(base, words, owned),
        distinct_wants(desired),
    ensures
        ({
            let (w, o) = synced_words(words, owned, desired);
            words_hold(base, w, o)
        }),
{
    let (w, kept) = released(words, owned, desired);
    lemma_released(words, owned, desired);
    lemma_released_holds(base, words, owned, desired, owned.len() as int);
    assert(owned.take(owned.len() as int) =~= owned);
    assert forall|a: u32| !owned_addr(kept, a) implies #[trigger] w.get(a) == base.get(a) by {
        if !owned_addr(owned, a) {
            assert(words.get(a) == base.get(a));
        }
    }
    lemma_taken_on_holds(base, w, kept, desired, desired.len() as int);
    assert(desired.take(desired.len() as int) =~= desired);
}

/// A session that has installed nothing holds nothing over the user's points.
pub proof fn lemma_nothing_held_at_first(own: &GdbBreaks, store: &BreakStore)
    requires
        own.is_empty(),
    ensures
        holds_over(own, store, store),
{
}

/// Whatever a client asks for, one reconciliation after the other, the session
/// keeps knowing what the user had.
pub proof fn lemma_sync_keeps_the_hold(
    own: &GdbBreaks,
    store: &BreakStore,
    base: &BreakStore,
    mask: u32,
    core: &GdbCore,
    own2: &GdbBreaks,
    store2: &BreakStore,
)
    requires
        own.wf(),
        core.wf(),
        holds_over(own, store, base),
        synced(own, store, mask, core, own2, store2),
    ensures
        holds_over(own2, store2, base),
{
    let wanted = masked(core.breakpoints@, mask);
    lemma_points_hold(
        base.points(),
        store.points(),
        own.pc@,
        wanted,
        store2.points(),
        own2.pc@,
    );
    lemma_synced_words_hold(
        base.words(),
        store.words(),
        own.watch_words@,
        core.watch_words@,
    );
    lemma_regs_hold(
        base.reg_watches@.to_set(),
        store.reg_watches@.to_set(),
        own.reg_watches@,
        core.reg_watches@,
        store2.reg_watches@.to_set(),
        own2.reg_watches@,
    );
    if core.bartman && core.run_stop is None {
        let missing = |v: u16| !store.catches@.to_set().contains(v);
        lemma_vectors_differ();
        lemma_filtered(bartman_vectors(), missing);
        lemma_joined(own.catches@, bartman_vectors().filter(missing));
        assert forall|v: u16| store2.catches@.to_set().contains(v) == (
        store.catches@.to_set().contains(v) || bartman_vectors().contains(v)) by {}
    }
}

proof fn lemma_points_hold(
    base: Map<u32, Breakpoint>,
    points: Map<u32, Breakpoint>,
    owned: Seq<u32>,
    wanted: Seq<u32>,
    points2: Map<u32, Breakpoint>,
    owned2: Seq<u32>,
)
    requires
        owned.no_duplicates(),
        forall|a: u32| #[trigger]
            owned.contains(a) ==> base.get(a) is None && points.get(a) == Some(plain_point(a)),
        forall|a: u32| !owned.contains(a) ==> #[trigger] points.get(a) == base.get(a),
        forall|a: u32| #[trigger] points2.get(a) == synced_point(points, owned, wanted, a),
        owned2 == synced_owned(owned, wanted, points.dom()),
    ensures
        forall|a: u32| #[trigger]
            owned2.contains(a) ==> base.get(a) is None && points2.get(a) == Some(plain_point(a)),
        forall|a: u32| !owned2.contains(a) ==> #[trigger] points2.get(a) == base.get(a),
{
    let keep = |a: u32| wanted.contains(a) && points.dom().contains(a);
    lemma_filtered(owned, keep);
    lemma_fresh(wanted, points.dom());
    lemma_joined(owned.filter(keep), fresh(wanted, points.dom()));
    assert forall|a: u32| #[trigger] owned2.contains(a) implies base.get(a) is None && points2.get(
        a,
    ) == Some(plain_point(a)) by {
        assert(points2.get(a) == synced_point(points, owned, wanted, a));
        assert(owned.contains(a) || points.get(a) == base.get(a));
    }
    assert forall|a: u32| !owned2.contains(a) implies #[trigger] points2.get(a) == base.get(a) by {
        assert(points2.get(a) == synced_point(points, owned, wanted, a));
        assert(owned.contains(a) || points.get(a) == base.get(a));
    }
}

proof fn lemma_regs_hold(
    base: Set<u16>,
    watched: Set<u16>,
    owned: Seq<u16>,
    wanted: Seq<u16>,
    watched2: Set<u16>,
    owned2: Seq<u16>,
)
    requires
        owned.no_duplicates(),
        forall|r: u16| #[trigger] owned.contains(r) ==> !base.contains(r) && watched.contains(r),
        forall|r: u16| !owned.contains(r) ==> #[trigger] watched.contains(r) == base.contains(r),
        regs_follow(watched, owned, wanted, watched2, owned2),
    ensures
        forall|r: u16| #[trigger] owned2.contains(r) ==> !base.contains(r) && watched2.contains(r),
        forall|r: u16| !owned2.contains(r) ==> #[trigger] watched2.contains(r) == base.contains(r),
{
    reveal(regs_follow);
    let keep = |r: u16| wanted.contains(r) && watched.contains(r);
    lemma_filtered(owned, keep);
    lemma_fresh(wanted, watched);
    lemma_joined(owned.filter(keep), fresh(wanted, watched));
}

proof fn lemma_joined<T>(a: Seq<T>, b: Seq<T>)
    ensures
        forall|x: T| #[trigger] (a + b).contains(x) <==> a.contains(x) || b.contains(x),
{
    assert forall|x: T| #[trigger] (a + b).contains(x) <==> a.contains(x) || b.contains(x) by {
        if (a + b).contains(x) {
            let i = (a + b).index_of(x);
            if i < a.len() {
                assert(a[i] == x);
            } else {
                assert(b[i - a.len()] == x);
            }
        }
        if a.contains(x) {
            assert((a + b)[a.index_of(x)] == x);
        }
        if b.contains(x) {
            assert((a + b)[a.len() + b.index_of(x)] == x);
        }
    }
}

proof fn lemma_vectors_differ()
    ensures
        bartman_vectors().no_duplicates(),
{
}

/// Two stores hold the same stops.
pub open spec fn same_stops(a: &BreakStore, b: &BreakStore) -> bool {
    &&& a.points() == b.points()
    &&& a.words() == b.words()
    &&& a.reg_watches@.to_set() == b.reg_watches@.to_set()
    &&& a.catches@.to_set() == b.catches@.to_set()
    &&& catch_text(a.loadseg_catch) == catch_text(b.loadseg_catch)
    &&& a.task_catch == b.task_catch
}

proof fn lemma_same_map<V>(a: Map<u32, V>, b: Map<u32, V>)
    requires
        forall|k: u32| #[trigger] a.get(k) == b.get(k),
    ensures
        a =~= b,
{
    assert forall|k: u32| a.dom().contains(k) == b.dom().contains(k) by {
        assert(a.get(k) == b.get(k));
    }
    assert forall|k: u32| a.dom().contains(k) implies a[k] == b[k] by {
        assert(a.get(k) == b.get(k));
    }
}

/// Detaching gives the user's points back: what the session holds over them,
/// taken away, leaves every point as the session found it.
pub proof fn lemma_detach_gives_back(
    own: &GdbBreaks,
    store: &BreakStore,
    base: &BreakStore,
    store2: &BreakStore,
)
    requires
        holds_over(own, store, base),
        withdrawn(own, store, store2),
    ensures
        same_stops(store2, base),
{
    assert forall|a: u32| #[trigger] store2.points().get(a) == base.points().get(a) by {
        assert(own.pc@.contains(a) || store.points().get(a) == base.points().get(a));
    }
    lemma_same_map(store2.points(), base.points());
    let owned = own.watch_words@;
    lemma_released_restores(base.words(), store.words(), owned, owned.len() as int);
    assert(owned.take(owned.len() as int) =~= owned);
    assert forall|a: u32| #[trigger] store2.words().get(a) == base.words().get(a) by {
        assert(store2.words().get(a) == (if owned_addr(owned, a) {
            base.words().get(a)
        } else {
            store.words().get(a)
        }));
    }
    lemma_same_map(store2.words(), base.words());
    assert forall|r: u16| store2.reg_watches@.to_set().contains(r)
        == base.reg_watches@.to_set().contains(r) by {
        assert(own.reg_watches@.contains(r) || store.reg_watches@.to_set().contains(r)
            == base.reg_watches@.to_set().contains(r));
    }
    assert forall|v: u16| store2.catches@.to_set().contains(v) == base.catches@.to_set().contains(
        v,
    ) by {
        assert(own.catches@.contains(v) || store.catches@.to_set().contains(v)
            == base.catches@.to_set().contains(v));
    }
    assert(store2.reg_watches@.to_set() =~= base.reg_watches@.to_set());
    assert(store2.catches@.to_set() =~= base.catches@.to_set());
}

/// A session reconciled the stores once for each of these requests, in order.
pub open spec fn synced_through(
    own: GdbBreaks,
    store: BreakStore,
    mask: u32,
    cores: Seq<GdbCore>,
    own2: GdbBreaks,
    store2: BreakStore,
) -> bool
    decreases cores.len(),
{
    if cores.len() == 0 {
        own2 == own && store2 == store
    } else {
        exists|o: GdbBreaks, s: BreakStore|
            #![trigger synced(&o, &s, mask, &cores.last(), &own2, &store2)]
            synced_through(own, store, mask, cores.drop_last(), o, s) && o.wf() && synced(
                &o,
                &s,
                mask,
                &cores.last(),
                &own2,
                &store2,
            )
    }
}

proof fn lemma_hold_through(
    own: GdbBreaks,
    store: BreakStore,
    mask: u32,
    cores: Seq<GdbCore>,
    own2: GdbBreaks,
    store2: BreakStore,
)
    requires
        own.is_empty(),
        forall|i: int| 0 <= i < cores.len() ==> (#[trigger] cores[i]).wf(),
        synced_through(own, store, mask, cores, own2, store2),
    ensures
        holds_over(&own2, &store2, &store),
    decreases cores.len(),
{
    if cores.len() == 0 {
        lemma_nothing_held_at_first(&own, &store);
    } else {
        let (o, s) = choose|o: GdbBreaks, s: BreakStore|
            #![trigger synced(&o, &s, mask, &cores.last(), &own2, &store2)]
            synced_through(own, store, mask, cores.drop_last(), o, s) && o.wf() && synced(
                &o,
                &s,
                mask,
                &cores.last(),
                &own2,
                &store2,
            );
        assert forall|i: int| 0 <= i < cores.drop_last().len() implies (
        #[trigger] cores.drop_last()[i]).wf() by {
            assert(cores[i].wf());
        }
        lemma_hold_through(own, store, mask, cores.drop_last(), o, s);
        assert(cores[cores.len() - 1].wf());
        lemma_sync_keeps_the_hold(&o, &s, &store, mask, &cores.last(), &own2, &store2);
    }
}

/// Detaching restores local state: however often a session reconciled the
/// stores, and whatever it asked for each time, once it is gone every point is
/// as the session found it.
pub proof fn lemma_detach_restores_local_state(
    own: GdbBreaks,
    store: BreakStore,
    mask: u32,
    cores: Seq<GdbCore>,
    own2: GdbBreaks,
    store2: BreakStore,
    store3: BreakStore,
)
    requires
        own.is_empty(),
        forall|i: int| 0 <= i < cores.len() ==> (#[trigger] cores[i]).wf(),
        synced_through(own, store, mask, cores, own2, store2),
        withdrawn(&own2, &store2, &store3),
    ensures
        same_stops(&store3, &store),
{
    lemma_hold_through(own, store, mask, cores, own2, store2);
    lemma_detach_gives_back(&own2, &store2, &store, &store3);
}

proof fn lemma_filter_all<T>(s: Seq<T>, keep: spec_fn(T) -> bool)
    requires
        forall|x: T| #[trigger] s.contains(x) ==> keep(x),
    ensures
        s.filter(keep) == s,
    decreases s.len(),
{
    reveal(Seq::filter);
    if s.len() > 0 {
        let t = s.drop_last();
        assert forall|x: T| #[trigger] t.contains(x) implies keep(x) by {
            assert(s[t.index_of(x)] == x);
            assert(s.contains(x));
        }
        lemma_filter_all(t, keep);
        assert(s[s.len() - 1] == s.last());
        assert(s.contains(s.last()));
        assert(t.push(s.last()) =~= s);
    } else {
        assert(s.filter(keep) =~= s);
    }
}

proof fn lemma_none_left<T>(s: Seq<T>)
    requires
        forall|x: T| !s.contains(x),
    ensures
        s =~= Seq::<T>::empty(),
{
    if s.len() > 0 {
        assert(s.contains(s[0]));
    }
}

proof fn lemma_keeps_all(
    w: Map<u32, SavedWatch>,
    owned: Seq<GdbWatchWord>,
    desired: Seq<(u32, WatchAccess)>,
    n: int,
)
    requires
        in_place(w, owned),
        forall|i: int|
            0 <= i < owned.len() ==> desired.contains(
                ((#[trigger] owned[i]).addr, owned[i].requested),
            ),
        0 <= n <= owned.len(),
    ensures
        released(w, owned.take(n), desired) == (w, owned.take(n)),
    decreases n,
{
    if n > 0 {
        lemma_keeps_all(w, owned, desired, n - 1);
        assert(owned.take(n).drop_last() =~= owned.take(n - 1));
        assert(owned.take(n).last() == owned[n - 1]);
        assert(owned.take(n - 1).push(owned[n - 1]) =~= owned.take(n));
    } else {
        assert(owned.take(0) =~= Seq::empty());
    }
}

proof fn lemma_takes_none(
    w: Map<u32, SavedWatch>,
    owned: Seq<GdbWatchWord>,
    desired: Seq<(u32, WatchAccess)>,
    n: int,
)
    requires
        forall|i: int|
            0 <= i < desired.len() ==> (w.get((#[trigger] desired[i]).0) matches Some(x)
                && x.covers(desired[i].1)),
        0 <= n <= desired.len(),
    ensures
        taken_on(w, owned, desired.take(n)) == (w, owned),
    decreases n,
{
    if n > 0 {
        lemma_takes_none(w, owned, desired, n - 1);
        assert(desired.take(n).drop_last() =~= desired.take(n - 1));
        assert(desired.take(n).last() == desired[n - 1]);
    } else {
        assert(desired.take(0) =~= Seq::empty());
    }
}

proof fn lemma_points_again(
    points: Map<u32, Breakpoint>,
    owned: Seq<u32>,
    wanted: Seq<u32>,
    points2: Map<u32, Breakpoint>,
    owned2: Seq<u32>,
)
    requires
        owned.no_duplicates(),
        forall|a: u32| #[trigger] points2.get(a) == synced_point(points, owned, wanted, a),
        owned2 == synced_owned(owned, wanted, points.dom()),
    ensures
        synced_owned(owned2, wanted, points2.dom()) == owned2,
        forall|a: u32| #[trigger]
            synced_point(points2, owned2, wanted, a) == points2.get(a),
{
    let first = |a: u32| wanted.contains(a) && points.dom().contains(a);
    let again = |a: u32| wanted.contains(a) && points2.dom().contains(a);
    lemma_filtered(owned, first);
    lemma_fresh(wanted, points.dom());
    lemma_joined(owned.filter(first), fresh(wanted, points.dom()));
    assert forall|a: u32| wanted.contains(a) implies points2.dom().contains(a) by {
        assert(points2.get(a) == synced_point(points, owned, wanted, a));
    }
    lemma_filter_all(owned2, again);
    lemma_fresh(wanted, points2.dom());
    lemma_none_left(fresh(wanted, points2.dom()));
    assert(owned2 + fresh(wanted, points2.dom()) =~= owned2);
}

proof fn lemma_regs_again(
    watched: Set<u16>,
    owned: Seq<u16>,
    wanted: Seq<u16>,
    watched2: Set<u16>,
    owned2: Seq<u16>,
    watched3: Set<u16>,
    owned3: Seq<u16>,
)
    requires
        owned.no_duplicates(),
        regs_follow(watched, owned, wanted, watched2, owned2),
        regs_follow(watched2, owned2, wanted, watched3, owned3),
    ensures
        owned3 == owned2,
        watched3 == watched2,
{
    reveal(regs_follow);
    let first = |r: u16| wanted.contains(r) && watched.contains(r);
    let again = |r: u16| wanted.contains(r) && watched2.contains(r);
    lemma_filtered(owned, first);
    lemma_fresh(wanted, watched);
    lemma_joined(owned.filter(first), fresh(wanted, watched));
    lemma_filter_all(owned2, again);
    lemma_fresh(wanted, watched2);
    lemma_none_left(fresh(wanted, watched2));
    assert(owned2 + fresh(wanted, watched2) =~= owned2);
    assert(watched3 =~= watched2);
}

proof fn lemma_words_again(
    words: Map<u32, SavedWatch>,
    owned: Seq<GdbWatchWord>,
    desired: Seq<(u32, WatchAccess)>,
)
    requires
        sound_words(owned),
        distinct_wants(desired),
    ensures
        ({
            let (w, o) = synced_words(words, owned, desired);
            synced_words(w, o, desired) == (w, o)
        }),
{
    let (freed, kept) = released(words, owned, desired);
    lemma_released(words, owned, desired);
    lemma_taken_on(freed, kept, desired, desired.len() as int);
    assert(desired.take(desired.len() as int) =~= desired);
    let (w, o) = synced_words(words, owned, desired);
    lemma_keeps_all(w, o, desired, o.len() as int);
    assert(o.take(o.len() as int) =~= o);
    lemma_takes_none(w, o, desired, desired.len() as int);
}

proof fn lemma_catches_again(have: Set<u16>, owned: Seq<u16>)
    requires
        forall|v: u16| #[trigger] bartman_vectors().contains(v) ==> have.contains(v),
    ensures
        owned + bartman_vectors().filter(|v: u16| !have.contains(v)) == owned,
        have.union(bartman_vectors().to_set()) =~= have,
{
    let missing = |v: u16| !have.contains(v);
    lemma_vectors_differ();
    lemma_filtered(bartman_vectors(), missing);
    lemma_none_left(bartman_vectors().filter(missing));
    assert(owned + bartman_vectors().filter(missing) =~= owned);
}

/// A second reconciliation with nothing changed finds nothing to do: the
/// machine's stops and the session's own stay as they are. Its notes depend on
/// the requests alone, so they are the same too.
pub proof fn lemma_sync_is_idempotent(
    own: &GdbBreaks,
    store: &BreakStore,
    mask: u32,
    core: &GdbCore,
    own2: &GdbBreaks,
    store2: &BreakStore,
    own3: &GdbBreaks,
    store3: &BreakStore,
)
    requires
        own.wf(),
        core.wf(),
        synced(own, store, mask, core, own2, store2),
        synced(own2, store2, mask, core, own3, store3),
    ensures
        same_stops(store3, store2),
        own3.pc@ == own2.pc@,
        own3.watch_words@ == own2.watch_words@,
        own3.reg_watches@ == own2.reg_watches@,
        own3.catches@ == own2.catches@,
        catch_text(own3.loadseg) == catch_text(own2.loadseg),
{
    let wanted = masked(core.breakpoints@, mask);
    lemma_points_stay(own, store, wanted, own2, store2, own3, store3);
    lemma_words_again(store.words(), own.watch_words@, core.watch_words@);
    lemma_regs_stay(own, store, core.reg_watches@, own2, store2, own3, store3);
    lemma_catches_stay(
        own,
        store,
        core.bartman && core.run_stop is None,
        own2,
        store2,
        own3,
        store3,
    );
}

proof fn lemma_points_stay(
    own: &GdbBreaks,
    store: &BreakStore,
    wanted: Seq<u32>,
    own2: &GdbBreaks,
    store2: &BreakStore,
    own3: &GdbBreaks,
    store3: &BreakStore,
)
    requires
        own.pc@.no_duplicates(),
        points_synced(own, store, wanted, own2, store2),
        points_synced(own2, store2, wanted, own3, store3),
    ensures
        own3.pc@ == own2.pc@,
        store3.points() =~= store2.points(),
{
    lemma_points_again(store.points(), own.pc@, wanted, store2.points(), own2.pc@);
    assert forall|a: u32| #[trigger] store3.points().get(a) == store2.points().get(a) by {
        assert(store3.points().get(a) == synced_point(store2.points(), own2.pc@, wanted, a));
    }
    lemma_same_map(store3.points(), store2.points());
}

proof fn lemma_regs_stay(
    own: &GdbBreaks,
    store: &BreakStore,
    wanted: Seq<u16>,
    own2: &GdbBreaks,
    store2: &BreakStore,
    own3: &GdbBreaks,
    store3: &BreakStore,
)
    requires
        own.reg_watches@.no_duplicates(),
        regs_synced(own, store, wanted, own2, store2),
        regs_synced(own2, store2, wanted, own3, store3),
    ensures
        own3.reg_watches@ == own2.reg_watches@,
        store3.reg_watches@.to_set() == store2.reg_watches@.to_set(),
{
    let watched2 = store2.reg_watches@.to_set();
    lemma_regs_again(
        store.reg_watches@.to_set(),
        own.reg_watches@,
        wanted,
        watched2,
        own2.reg_watches@,
        store3.reg_watches@.to_set(),
        own3.reg_watches@,
    );
}

proof fn lemma_catches_stay(
    own: &GdbBreaks,
    store: &BreakStore,
    asked: bool,
    own2: &GdbBreaks,
    store2: &BreakStore,
    own3: &GdbBreaks,
    store3: &BreakStore,
)
    requires
        catches_synced(own, store, asked, own2, store2),
        catches_synced(own2, store2, asked, own3, store3),
    ensures
        own3.catches@ == own2.catches@,
        store3.catches@.to_set() =~= store2.catches@.to_set(),
{
    if asked {
        assert forall|v: u16| #[trigger]
            bartman_vectors().contains(v) implies store2.catches@.to_set().contains(v) by {
            assert(bartman_vectors().to_set().contains(v));
        }
        lemma_catches_again(store2.catches@.to_set(), own2.catches@);
    }
}

/// Detaching twice is detaching once: a session with nothing installed
/// removes nothing.
pub proof fn lemma_detach_is_idempotent(own: &GdbBreaks, store: &BreakStore, store2: &BreakStore)
    requires
        own.is_empty(),
        withdrawn(own, store, store2),
    ensures
        store2.points() =~= store.points(),
        store2.words() =~= store.words(),
        store2.reg_watches@.to_set() =~= store.reg_watches@.to_set(),
        store2.catches@.to_set() =~= store.catches@.to_set(),
        catch_text(store2.loadseg_catch) == catch_text(store.loadseg_catch),
{
    assert(own.watch_words@ =~= Seq::empty());
    assert forall|a: u32| store2.points().dom().contains(a) == store.points().dom().contains(a) by {
        assert(store2.points().get(a) == store.points().get(a));
    }
    assert forall|a: u32| store2.points().dom().contains(a) implies store2.points()[a]
        == store.points()[a] by {
        assert(store2.points().get(a) == store.points().get(a));
    }
}

} // verus!
