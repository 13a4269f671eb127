//! The debug stops installed in the machine: PC breakpoints, memory-word
//! watches, custom-register watches, exception catches, and the program-load
//! and task catches. The debugger window, the console and a GDB client all
//! edit this one store through the same toggles.

use vstd::prelude::*;

verus! {

/// Which accesses to a watched word stop the machine.
#[derive(Clone, Copy, PartialEq, Eq, Structural, Debug)]
pub enum WatchAccess {
    Read,
    Write,
    Access,
}

impl WatchAccess {
    pub open spec fn spec_reads(self) -> bool {
        self is Read || self is Access
    }

    pub open spec fn spec_writes(self) -> bool {
        self is Write || self is Access
    }

    /// The narrowest class that covers both.
    pub open spec fn spec_union(self, other: WatchAccess) -> WatchAccess {
        if self == other {
            self
        } else {
            WatchAccess::Access
        }
    }

    pub fn reads(self) -> (r: bool)
        ensures
            r == self.spec_reads(),
    {
        matches!(self, WatchAccess::Read | WatchAccess::Access)
    }

    pub fn writes(self) -> (r: bool)
        ensures
            r == self.spec_writes(),
    {
        matches!(self, WatchAccess::Write | WatchAccess::Access)
    }

    pub fn union(self, other: WatchAccess) -> (r: WatchAccess)
        ensures
            r == self.spec_union(other),
    {
        if self == other {
            self
        } else {
            WatchAccess::Access
        }
    }
}

/// The qualifiers of a memory watch, apart from the word it watches.
#[derive(Clone, Copy, PartialEq, Eq, Debug)]
pub struct SavedWatch {
    /// The only access class that fires it, as a row of the class table.
    pub filter: Option<u8>,
    /// The only instruction whose accesses fire it.
    pub pc: Option<u32>,
    pub access: WatchAccess,
}

pub fn same_option_u8(a: Option<u8>, b: Option<u8>) -> (r: bool)
    ensures
        r == (a == b),
{
    match (a, b) {
        (None, None) => true,
        (Some(x), Some(y)) => x == y,
        _ => false,
    }
}

pub fn same_option_u32(a: Option<u32>, b: Option<u32>) -> (r: bool)
    ensures
        r == (a == b),
{
    match (a, b) {
        (None, None) => true,
        (Some(x), Some(y)) => x == y,
        _ => false,
    }
}

pub fn same_option_u16(a: Option<u16>, b: Option<u16>) -> (r: bool)
    ensures
        r == (a == b),
{
    match (a, b) {
        (None, None) => true,
        (Some(x), Some(y)) => x == y,
        _ => false,
    }
}

impl SavedWatch {
    pub open spec fn unfiltered(access: WatchAccess) -> SavedWatch {
        SavedWatch { filter: None, pc: None, access }
    }

    /// Whether an access of the requested class always fires this watch.
    pub open spec fn covers(self, requested: WatchAccess) -> bool {
        self.filter is None && self.pc is None && self.access.spec_union(requested) == self.access
    }

    pub fn same(self, other: SavedWatch) -> (r: bool)
        ensures
            r == (self == other),
    {
        same_option_u8(self.filter, other.filter) && same_option_u32(self.pc, other.pc)
            && self.access == other.access
    }
}

/// A PC breakpoint, with an optional condition in the console's notation and
/// a number of hits to let pass.
#[derive(PartialEq, Eq, Debug)]
pub struct Breakpoint {
    pub addr: u32,
    pub cond: Option<String>,
    pub ignore: u32,
    pub hits: u32,
}

/// A watched memory word. `last` is the value that a change is measured
/// against.
#[derive(Clone, Copy, PartialEq, Eq, Debug)]
pub struct Watch {
    pub addr: u32,
    pub saved: SavedWatch,
    pub last: u16,
}

#[derive(PartialEq, Eq, Debug)]
pub struct BreakStore {
    pub breakpoints: Vec<Breakpoint>,
    pub watches: Vec<Watch>,
    pub reg_watches: Vec<u16>,
    pub catches: Vec<u16>,
    /// The program-load catch, with the program name that narrows it.
    pub loadseg_catch: Option<Option<String>>,
    pub task_catch: Option<String>,
}

pub open spec fn opt_text(o: Option<String>) -> Option<Seq<char>> {
    match o {
        Some(s) => Some(s@),
        None => None,
    }
}

pub open spec fn catch_text(o: Option<Option<String>>) -> Option<Option<Seq<char>>> {
    match o {
        Some(s) => Some(opt_text(s)),
        None => None,
    }
}

pub open spec fn distinct_points(s: Seq<Breakpoint>) -> bool {
    forall|i: int, j: int| 0 <= i < j < s.len() ==> (#[trigger] s[i]).addr != (#[trigger] s[j]).addr
}

pub open spec fn distinct_watches(s: Seq<Watch>) -> bool {
    forall|i: int, j: int| 0 <= i < j < s.len() ==> (#[trigger] s[i]).addr != (#[trigger] s[j]).addr
}

/// The breakpoints by address.
pub open spec fn point_map(s: Seq<Breakpoint>) -> Map<u32, Breakpoint>
    decreases s.len(),
{
    if s.len() == 0 {
        Map::empty()
    } else {
        point_map(s.drop_last()).insert(s.last().addr, s.last())
    }
}

/// The watches' qualifiers by word address.
pub open spec fn watch_map(s: Seq<Watch>) -> Map<u32, SavedWatch>
    decreases s.len(),
{
    if s.len() == 0 {
        Map::empty()
    } else {
        watch_map(s.drop_last()).insert(s.last().addr, s.last().saved)
    }
}

pub open spec fn plain_point(addr: u32) -> Breakpoint {
    Breakpoint { addr, cond: None, ignore: 0, hits: 0 }
}

/// A sequence of numbers after a toggle: taken out where it stood, or put at
/// the end.
pub open spec fn toggled(s: Seq<u16>, v: u16) -> Seq<u16> {
    if s.contains(v) {
        s.remove(s.index_of(v))
    } else {
        s.push(v)
    }
}

pub proof fn lemma_point_map(s: Seq<Breakpoint>)
    requires
        distinct_points(s),
    ensures
        forall|a: u32| #[trigger]
            point_map(s).dom().contains(a) <==> exists|i: int|
                0 <= i < s.len() && (#[trigger] s[i]).addr == a,
        forall|i: int| 0 <= i < s.len() ==> point_map(s)[(#[trigger] s[i]).addr] == s[i],
    decreases s.len(),
{
    if s.len() > 0 {
        let t = s.drop_last();
        assert(forall|i: int| 0 <= i < t.len() ==> t[i] == s[i]);
        lemma_point_map(t);
        assert forall|a: u32| #[trigger] point_map(s).dom().contains(a) implies exists|i: int|
            0 <= i < s.len() && (#[trigger] s[i]).addr == a by {
            if a == s.last().addr {
                assert(s[s.len() - 1].addr == a);
            } else {
                assert(point_map(t).dom().contains(a));
                let i = choose|i: int| 0 <= i < t.len() && (#[trigger] t[i]).addr == a;
                assert(s[i].addr == a);
            }
        }
        assert forall|a: u32| (exists|i: int| 0 <= i < s.len() && (#[trigger] s[i]).addr == a)
            implies #[trigger] point_map(s).dom().contains(a) by {
            let i = choose|i: int| 0 <= i < s.len() && (#[trigger] s[i]).addr == a;
            if i < t.len() {
                assert(t[i].addr == a);
            }
        }
        assert forall|i: int| 0 <= i < s.len() implies point_map(s)[(#[trigger] s[i]).addr]
            == s[i] by {
            if i < t.len() {
                assert(t[i] == s[i]);
            }
        }
    }
}

pub proof fn lemma_watch_map(s: Seq<Watch>)
    requires
        distinct_watches(s),
    ensures
        forall|a: u32| #[trigger]
            watch_map(s).dom().contains(a) <==> exists|i: int|
                0 <= i < s.len() && (#[trigger] s[i]).addr == a,
        forall|i: int| 0 <= i < s.len() ==> watch_map(s)[(#[trigger] s[i]).addr] == s[i].saved,
    decreases s.len(),
{
    if s.len() > 0 {
        let t = s.drop_last();
        assert(forall|i: int| 0 <= i < t.len() ==> t[i] == s[i]);
        lemma_watch_map(t);
        assert forall|a: u32| #[trigger] watch_map(s).dom().contains(a) implies exists|i: int|
            0 <= i < s.len() && (#[trigger] s[i]).addr == a by {
            if a == s.last().addr {
                assert(s[s.len() - 1].addr == a);
            } else {
                assert(watch_map(t).dom().contains(a));
                let i = choose|i: int| 0 <= i < t.len() && (#[trigger] t[i]).addr == a;
                assert(s[i].addr == a);
            }
        }
        assert forall|a: u32| (exists|i: int| 0 <= i < s.len() && (#[trigger] s[i]).addr == a)
            implies #[trigger] watch_map(s).dom().contains(a) by {
            let i = choose|i: int| 0 <= i < s.len() && (#[trigger] s[i]).addr == a;
            if i < t.len() {
                assert(t[i].addr == a);
            }
        }
        assert forall|i: int| 0 <= i < s.len() implies watch_map(s)[(#[trigger] s[i]).addr]
            == s[i].saved by {
            if i < t.len() {
                assert(t[i] == s[i]);
            }
        }
    }
}

pub proof fn lemma_point_remove(s: Seq<Breakpoint>, k: int)
    requires
        distinct_points(s),
        0 <= k < s.len(),
    ensures
        distinct_points(s.remove(k)),
        point_map(s.remove(k)) == point_map(s).remove(s[k].addr),
{
    let t = s.remove(k);
    assert(forall|i: int| 0 <= i < t.len() ==> t[i] == s[if i < k { i } else { i + 1 }]);
    assert(distinct_points(t));
    lemma_point_map(s);
    lemma_point_map(t);
    let old_map = point_map(s).remove(s[k].addr);
    assert forall|a: u32| point_map(t).dom().contains(a) <==> old_map.dom().contains(a) by {
        if point_map(t).dom().contains(a) {
            let i = choose|i: int| 0 <= i < t.len() && (#[trigger] t[i]).addr == a;
            assert(s[if i < k { i } else { i + 1 }].addr == a);
        }
        if old_map.dom().contains(a) {
            let i = choose|i: int| 0 <= i < s.len() && (#[trigger] s[i]).addr == a;
            assert(t[if i < k { i } else { i - 1 }].addr == a);
        }
    }
    assert forall|a: u32| point_map(t).dom().contains(a) implies point_map(t)[a]
        == old_map[a] by {
        let i = choose|i: int| 0 <= i < t.len() && (#[trigger] t[i]).addr == a;
        assert(s[if i < k { i } else { i + 1 }] == t[i]);
    }
    assert(point_map(t) =~= old_map);
}

pub proof fn lemma_watch_remove(s: Seq<Watch>, k: int)
    requires
        distinct_watches(s),
        0 <= k < s.len(),
    ensures
        distinct_watches(s.remove(k)),
        watch_map(s.remove(k)) == watch_map(s).remove(s[k].addr),
{
    let t = s.remove(k);
    assert(forall|i: int| 0 <= i < t.len() ==> t[i] == s[if i < k { i } else { i + 1 }]);
    assert(distinct_watches(t));
    lemma_watch_map(s);
    lemma_watch_map(t);
    let old_map = watch_map(s).remove(s[k].addr);
    assert forall|a: u32| watch_map(t).dom().contains(a) <==> old_map.dom().contains(a) by {
        if watch_map(t).dom().contains(a) {
            let i = choose|i: int| 0 <= i < t.len() && (#[trigger] t[i]).addr == a;
            assert(s[if i < k { i } else { i + 1 }].addr == a);
        }
        if old_map.dom().contains(a) {
            let i = choose|i: int| 0 <= i < s.len() && (#[trigger] s[i]).addr == a;
            assert(t[if i < k { i } else { i - 1 }].addr == a);
        }
    }
    assert forall|a: u32| watch_map(t).dom().contains(a) implies watch_map(t)[a]
        == old_map[a] by {
        let i = choose|i: int| 0 <= i < t.len() && (#[trigger] t[i]).addr == a;
        assert(s[if i < k { i } else { i + 1 }] == t[i]);
    }
    assert(watch_map(t) =~= old_map);
}

pub proof fn lemma_point_push(s: Seq<Breakpoint>, p: Breakpoint)
    requires
        distinct_points(s),
        !point_map(s).dom().contains(p.addr),
    ensures
        distinct_points(s.push(p)),
        point_map(s.push(p)) == point_map(s).insert(p.addr, p),
{
    lemma_point_map(s);
    assert(s.push(p).drop_last() =~= s);
    assert forall|i: int, j: int| 0 <= i < j < s.push(p).len() implies (#[trigger] s.push(
        p,
    )[i]).addr != (#[trigger] s.push(p)[j]).addr by {
        if j == s.len() {
            assert(s[i].addr != p.addr);
        }
    }
}

pub proof fn lemma_watch_push(s: Seq<Watch>, p: Watch)
    requires
        distinct_watches(s),
        !watch_map(s).dom().contains(p.addr),
    ensures
        distinct_watches(s.push(p)),
        watch_map(s.push(p)) == watch_map(s).insert(p.addr, p.saved),
{
    lemma_watch_map(s);
    assert(s.push(p).drop_last() =~= s);
    assert forall|i: int, j: int| 0 <= i < j < s.push(p).len() implies (#[trigger] s.push(
        p,
    )[i]).addr != (#[trigger] s.push(p)[j]).addr by {
        if j == s.len() {
            assert(s[i].addr != p.addr);
        }
    }
}

/// Where a number stands in a list without duplicates.
pub fn position_u16(v: &Vec<u16>, x: u16) -> (r: Option<usize>)
    requires
        v@.no_duplicates(),
    ensures
        r matches Some(i) ==> i < v@.len() && v@[i as int] == x && i == v@.index_of(x),
        r is Some <==> v@.contains(x),
{
    let mut i: usize = 0;
    while i < v.len()
        invariant
            i <= v@.len(),
            v@.no_duplicates(),
            forall|j: int| 0 <= j < i ==> v@[j] != x,
        decreases v@.len() - i,
    {
        if v[i] == x {
            assert(v@.contains(x));
            return Some(i);
        }
        i += 1;
    }
    None
}

/// Takes a number out of a list, or puts it at the end.
pub fn toggle_u16(v: &mut Vec<u16>, x: u16) -> (set: bool)
    requires
        old(v)@.no_duplicates(),
    ensures
        final(v)@ == toggled(old(v)@, x),
        final(v)@.no_duplicates(),
        set == !old(v)@.contains(x),
        final(v)@.to_set() == (if set {
            old(v)@.to_set().insert(x)
        } else {
            old(v)@.to_set().remove(x)
        }),
{
    match position_u16(v, x) {
        Some(i) => {
            proof {
                lemma_remove_set(v@, i as int);
            }
            v.remove(i);
            false
        },
        None => {
            proof {
                lemma_push_set(v@, x);
            }
            v.push(x);
            true
        },
    }
}

pub proof fn lemma_remove_set(s: Seq<u16>, k: int)
    requires
        s.no_duplicates(),
        0 <= k < s.len(),
    ensures
        s.remove(k).no_duplicates(),
        s.remove(k).to_set() == s.to_set().remove(s[k]),
{
    let t = s.remove(k);
    assert(forall|i: int| 0 <= i < t.len() ==> t[i] == s[if i < k { i } else { i + 1 }]);
    assert forall|x: u16| t.to_set().contains(x) <==> s.to_set().remove(s[k]).contains(x) by {
        if t.to_set().contains(x) {
            let i = t.index_of(x);
            assert(s[if i < k { i } else { i + 1 }] == x);
        }
        if s.to_set().remove(s[k]).contains(x) {
            let i = s.index_of(x);
            assert(t[if i < k { i } else { i - 1 }] == x);
        }
    }
    assert(t.to_set() =~= s.to_set().remove(s[k]));
}

pub proof fn lemma_push_set(s: Seq<u16>, x: u16)
    requires
        s.no_duplicates(),
        !s.contains(x),
    ensures
        s.push(x).no_duplicates(),
        s.push(x).to_set() == s.to_set().insert(x),
{
    assert forall|y: u16| s.push(x).to_set().contains(y) <==> s.to_set().insert(x).contains(y) by {
        if y == x {
            assert(s.push(x)[s.len() as int] == x);
        } else if s.contains(y) {
            assert(s.push(x)[s.index_of(y)] == y);
        }
    }
    assert(s.push(x).to_set() =~= s.to_set().insert(x));
}

impl BreakStore {
    /// No word, register, vector or instruction address is listed twice.
    pub open spec fn wf(&self) -> bool {
        &&& distinct_points(self.breakpoints@)
        &&& distinct_watches(self.watches@)
        &&& self.reg_watches@.no_duplicates()
        &&& self.catches@.no_duplicates()
    }

    pub open spec fn points(&self) -> Map<u32, Breakpoint> {
        point_map(self.breakpoints@)
    }

    pub open spec fn words(&self) -> Map<u32, SavedWatch> {
        watch_map(self.watches@)
    }

    pub fn new() -> (r: BreakStore)
        ensures
            r.wf(),
            r.breakpoints@.len() == 0,
            r.watches@.len() == 0,
            r.reg_watches@.len() == 0,
            r.catches@.len() == 0,
            r.loadseg_catch is None,
            r.task_catch is None,
    {
        BreakStore {
            breakpoints: Vec::new(),
            watches: Vec::new(),
            reg_watches: Vec::new(),
            catches: Vec::new(),
            loadseg_catch: None,
            task_catch: None,
        }
    }

    pub fn point_index(&self, addr: u32) -> (r: Option<usize>)
        requires
            self.wf(),
        ensures
            r matches Some(i) ==> i < self.breakpoints@.len() && self.breakpoints@[i as int].addr
                == addr,
            r is Some <==> self.points().dom().contains(addr),
    {
        let mut i: usize = 0;
        while i < self.breakpoints.len()
            invariant
                self.wf(),
                i <= self.breakpoints@.len(),
                forall|j: int| 0 <= j < i ==> (#[trigger] self.breakpoints@[j]).addr != addr,
            decreases self.breakpoints@.len() - i,
        {
            if self.breakpoints[i].addr == addr {
                proof {
                    lemma_point_map(self.breakpoints@);
                    assert(self.breakpoints@[i as int].addr == addr);
                }
                return Some(i);
            }
            i += 1;
        }
        proof {
            lemma_point_map(self.breakpoints@);
        }
        None
    }

    pub fn is_breakpoint(&self, addr: u32) -> (r: bool)
        requires
            self.wf(),
        ensures
            r == self.points().dom().contains(addr),
    {
        self.point_index(addr).is_some()
    }

    /// Sets a breakpoint, or changes the condition of the one that is there;
    /// an unconditional request for one that is there removes it. Returns
    /// whether a breakpoint stands at the address afterwards.
    pub fn set_breakpoint(&mut self, addr: u32, cond: Option<String>, ignore: u32) -> (set: bool)
        requires
            old(self).wf(),
        ensures
            final(self).wf(),
            set == !(old(self).points().dom().contains(addr) && cond is None && ignore == 0),
            final(self).points() == (if set {
                old(self).points().insert(addr, Breakpoint { addr, cond, ignore, hits: 0 })
            } else {
                old(self).points().remove(addr)
            }),
            final(self).watches == old(self).watches,
            final(self).reg_watches == old(self).reg_watches,
            final(self).catches == old(self).catches,
            final(self).loadseg_catch == old(self).loadseg_catch,
            final(self).task_catch == old(self).task_catch,
    {
        let remove_only: bool = cond.is_none() && ignore == 0;
        match self.point_index(addr) {
            Some(i) => {
                proof {
                    lemma_point_remove(self.breakpoints@, i as int);
                    lemma_point_map(self.breakpoints@);
                }
                self.breakpoints.remove(i);
                if remove_only {
                    return false;
                }
            },
            None => {},
        }
        let ghost before = self.breakpoints@;
        let point = Breakpoint { addr, cond, ignore, hits: 0 };
        self.breakpoints.push(point);
        proof {
            lemma_point_push(before, point);
            assert(self.points() =~= old(self).points().insert(addr, point));
        }
        true
    }

    pub fn watch_index(&self, addr: u32) -> (r: Option<usize>)
        requires
            self.wf(),
        ensures
            r matches Some(i) ==> i < self.watches@.len() && self.watches@[i as int].addr == addr
                && self.words()[addr] == self.watches@[i as int].saved,
            r is Some <==> self.words().dom().contains(addr),
    {
        let mut i: usize = 0;
        while i < self.watches.len()
            invariant
                self.wf(),
                i <= self.watches@.len(),
                forall|j: int| 0 <= j < i ==> (#[trigger] self.watches@[j]).addr != addr,
            decreases self.watches@.len() - i,
        {
            if self.watches[i].addr == addr {
                proof {
                    lemma_watch_map(self.watches@);
                    assert(self.watches@[i as int].addr == addr);
                }
                return Some(i);
            }
            i += 1;
        }
        proof {
            lemma_watch_map(self.watches@);
        }
        None
    }

    /// The qualifiers of the watch on a word.
    pub fn watch_at(&self, addr: u32) -> (r: Option<SavedWatch>)
        requires
            self.wf(),
        ensures
            r == self.words().get(addr),
    {
        match self.watch_index(addr) {
            Some(i) => Some(self.watches[i].saved),
            None => None,
        }
    }

    /// Removes the watch on a word, or installs one with these qualifiers and
    /// this baseline. Returns whether a watch stands there afterwards.
    pub fn toggle_watch(&mut self, addr: u32, saved: SavedWatch, last: u16) -> (set: bool)
        requires
            old(self).wf(),
        ensures
            final(self).wf(),
            set == !old(self).words().dom().contains(addr),
            final(self).words() == (if set {
                old(self).words().insert(addr, saved)
            } else {
                old(self).words().remove(addr)
            }),
            set ==> final(self).watches@ == old(self).watches@.push(Watch { addr, saved, last }),
            !set ==> exists|k: int|
                0 <= k < old(self).watches@.len() && final(self).watches@ == #[trigger] old(
                    self,
                ).watches@.remove(k),
            final(self).breakpoints == old(self).breakpoints,
            final(self).reg_watches == old(self).reg_watches,
            final(self).catches == old(self).catches,
            final(self).loadseg_catch == old(self).loadseg_catch,
            final(self).task_catch == old(self).task_catch,
    {
        match self.watch_index(addr) {
            Some(i) => {
                proof {
                    lemma_watch_remove(self.watches@, i as int);
                }
                self.watches.remove(i);
                false
            },
            None => {
                proof {
                    lemma_watch_push(self.watches@, Watch { addr, saved, last });
                }
                self.watches.push(Watch { addr, saved, last });
                true
            },
        }
    }

    pub fn toggle_reg_watch(&mut self, off: u16) -> (set: bool)
        requires
            old(self).wf(),
        ensures
            final(self).wf(),
            set == !old(self).reg_watches@.contains(off),
            final(self).reg_watches@ == toggled(old(self).reg_watches@, off),
            final(self).reg_watches@.to_set() == (if set {
                old(self).reg_watches@.to_set().insert(off)
            } else {
                old(self).reg_watches@.to_set().remove(off)
            }),
            final(self).breakpoints == old(self).breakpoints,
            final(self).watches == old(self).watches,
            final(self).catches == old(self).catches,
            final(self).loadseg_catch == old(self).loadseg_catch,
            final(self).task_catch == old(self).task_catch,
    {
        toggle_u16(&mut self.reg_watches, off)
    }

    pub fn toggle_catch(&mut self, vector: u16) -> (set: bool)
        requires
            old(self).wf(),
        ensures
            final(self).wf(),
            set == !old(self).catches@.contains(vector),
            final(self).catches@ == toggled(old(self).catches@, vector),
            final(self).catches@.to_set() == (if set {
                old(self).catches@.to_set().insert(vector)
            } else {
                old(self).catches@.to_set().remove(vector)
            }),
            final(self).breakpoints == old(self).breakpoints,
            final(self).watches == old(self).watches,
            final(self).reg_watches == old(self).reg_watches,
            final(self).loadseg_catch == old(self).loadseg_catch,
            final(self).task_catch == old(self).task_catch,
    {
        toggle_u16(&mut self.catches, vector)
    }

    /// Disarms the program-load catch, or arms it with a name filter.
    pub fn toggle_loadseg_catch(&mut self, filter: Option<String>)
        requires
            old(self).wf(),
        ensures
            final(self).wf(),
            final(self).loadseg_catch == (match old(self).loadseg_catch {
                Some(_) => None,
                None => Some(filter),
            }),
            final(self).breakpoints == old(self).breakpoints,
            final(self).watches == old(self).watches,
            final(self).reg_watches == old(self).reg_watches,
            final(self).catches == old(self).catches,
            final(self).task_catch == old(self).task_catch,
    {
        if self.loadseg_catch.is_some() {
            self.loadseg_catch = None;
        } else {
            self.loadseg_catch = Some(filter);
        }
    }

    pub fn set_task_catch(&mut self, target: Option<String>)
        requires
            old(self).wf(),
        ensures
            final(self).wf(),
            final(self).task_catch == target,
            final(self).breakpoints == old(self).breakpoints,
            final(self).watches == old(self).watches,
            final(self).reg_watches == old(self).reg_watches,
            final(self).catches == old(self).catches,
            final(self).loadseg_catch == old(self).loadseg_catch,
    {
        self.task_catch = target;
    }
}

} // verus!
