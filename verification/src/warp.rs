//! Warp: who asked for it, who holds it on, and how fast it runs.

use vstd::prelude::*;

use crate::text::put;

verus! {

/// Who asked for a warp change.
#[derive(Clone, Copy, PartialEq, Eq, Structural, Debug)]
pub enum WarpSource {
    Manual,
    Control,
    Gdb,
    Guest,
}

impl WarpSource {
    /// The name on the wire.
    pub open spec fn name(self) -> Seq<char> {
        match self {
            WarpSource::Manual => "manual"@,
            WarpSource::Control => "control"@,
            WarpSource::Gdb => "gdb"@,
            WarpSource::Guest => "guest"@,
        }
    }

    /// The name in messages.
    pub open spec fn title(self) -> Seq<char> {
        match self {
            WarpSource::Manual => "manual"@,
            WarpSource::Control => "control client"@,
            WarpSource::Gdb => "gdb client"@,
            WarpSource::Guest => "guest request"@,
        }
    }

    pub fn label(self) -> (r: &'static str)
        ensures
            r@ == self.name(),
    {
        match self {
            WarpSource::Manual => "manual",
            WarpSource::Control => "control",
            WarpSource::Gdb => "gdb",
            WarpSource::Guest => "guest",
        }
    }

    pub fn describe(self) -> (r: &'static str)
        ensures
            r@ == self.title(),
    {
        match self {
            WarpSource::Manual => "manual",
            WarpSource::Control => "control client",
            WarpSource::Gdb => "gdb client",
            WarpSource::Guest => "guest request",
        }
    }
}

/// The programmatic holds in force, one per source that can hold one; the
/// manual toggle never does. The machine is paced again when the last one
/// goes.
#[derive(Clone, Copy, PartialEq, Eq, Structural, Debug)]
pub struct WarpHolds {
    pub control: bool,
    pub gdb: bool,
    pub guest: bool,
}

/// The order in which holders are reported.
pub open spec fn report_order() -> Seq<WarpSource> {
    seq![WarpSource::Control, WarpSource::Gdb, WarpSource::Guest]
}

/// A list in words: "nobody", one name, or names with "and" before the last.
pub open spec fn listed(parts: Seq<Seq<char>>) -> Seq<char> {
    if parts.len() == 0 {
        "nobody"@
    } else if parts.len() == 1 {
        parts[0]
    } else {
        comma_joined(parts.drop_last()) + " and "@ + parts.last()
    }
}

pub open spec fn comma_joined(parts: Seq<Seq<char>>) -> Seq<char>
    decreases parts.len(),
{
    if parts.len() == 0 {
        Seq::empty()
    } else if parts.len() == 1 {
        parts[0]
    } else {
        comma_joined(parts.drop_last()) + ", "@ + parts.last()
    }
}

impl WarpHolds {
    pub open spec fn has(self, source: WarpSource) -> bool {
        match source {
            WarpSource::Manual => false,
            WarpSource::Control => self.control,
            WarpSource::Gdb => self.gdb,
            WarpSource::Guest => self.guest,
        }
    }

    pub open spec fn none() -> WarpHolds {
        WarpHolds { control: false, gdb: false, guest: false }
    }

    pub open spec fn with(self, source: WarpSource) -> WarpHolds {
        match source {
            WarpSource::Manual => self,
            WarpSource::Control => WarpHolds { control: true, ..self },
            WarpSource::Gdb => WarpHolds { gdb: true, ..self },
            WarpSource::Guest => WarpHolds { guest: true, ..self },
        }
    }

    pub open spec fn without(self, source: WarpSource) -> WarpHolds {
        match source {
            WarpSource::Manual => self,
            WarpSource::Control => WarpHolds { control: false, ..self },
            WarpSource::Gdb => WarpHolds { gdb: false, ..self },
            WarpSource::Guest => WarpHolds { guest: false, ..self },
        }
    }

    /// The holders in report order.
    pub open spec fn holders(self) -> Seq<WarpSource> {
        report_order().filter(|s: WarpSource| self.has(s))
    }

    /// The holders in words.
    pub open spec fn words(self) -> Seq<char> {
        listed(self.holders().map_values(|s: WarpSource| s.title()))
    }

    pub fn new() -> (r: WarpHolds)
        ensures
            r == WarpHolds::none(),
    {
        WarpHolds { control: false, gdb: false, guest: false }
    }

    pub fn insert(&mut self, source: WarpSource)
        ensures
            *final(self) == old(self).with(source),
    {
        match source {
            WarpSource::Manual => {},
            WarpSource::Control => {
                self.control = true;
            },
            WarpSource::Gdb => {
                self.gdb = true;
            },
            WarpSource::Guest => {
                self.guest = true;
            },
        }
    }

    pub fn remove(&mut self, source: WarpSource)
        ensures
            *final(self) == old(self).without(source),
    {
        match source {
            WarpSource::Manual => {},
            WarpSource::Control => {
                self.control = false;
            },
            WarpSource::Gdb => {
                self.gdb = false;
            },
            WarpSource::Guest => {
                self.guest = false;
            },
        }
    }

    pub fn clear(&mut self)
        ensures
            *final(self) == WarpHolds::none(),
    {
        *self = WarpHolds::new();
    }

    pub fn contains(self, source: WarpSource) -> (r: bool)
        ensures
            r == self.has(source),
    {
        match source {
            WarpSource::Manual => false,
            WarpSource::Control => self.control,
            WarpSource::Gdb => self.gdb,
            WarpSource::Guest => self.guest,
        }
    }

    pub fn is_empty(self) -> (r: bool)
        ensures
            r == (self == WarpHolds::none()),
    {
        !self.control && !self.gdb && !self.guest
    }

    /// Every holder, in report order.
    pub fn iter(self) -> (r: Vec<WarpSource>)
        ensures
            r@ == self.holders(),
    {
        let order: Vec<WarpSource> = vec![WarpSource::Control, WarpSource::Gdb, WarpSource::Guest];
        let ghost pred = |s: WarpSource| self.has(s);
        assert(order@ =~= report_order());
        let mut out: Vec<WarpSource> = Vec::new();
        let mut i: usize = 0;
        proof {
            reveal(Seq::filter);
            assert(report_order().take(0).filter(pred) =~= Seq::empty());
        }
        while i < order.len()
            invariant
                i <= order@.len(),
                order@ == report_order(),
                pred == (|s: WarpSource| self.has(s)),
                out@ == order@.take(i as int).filter(pred),
            decreases order@.len() - i,
        {
            proof {
                reveal(Seq::filter);
                assert(order@.take(i + 1).drop_last() =~= order@.take(i as int));
            }
            if self.contains(order[i]) {
                out.push(order[i]);
            }
            i += 1;
        }
        assert(order@.take(i as int) =~= order@);
        out
    }

    /// The holder that the wire names: the first in report order.
    pub fn first(self) -> (r: Option<WarpSource>)
        ensures
            r == (if self.holders().len() > 0 {
                Some(self.holders()[0])
            } else {
                None
            }),
    {
        let all: Vec<WarpSource> = self.iter();
        if all.len() > 0 {
            Some(all[0])
        } else {
            None
        }
    }

    /// The wire names of every holder, in report order.
    pub fn labels(self) -> (r: Vec<String>)
        ensures
            crate::text::texts(r@) == self.holders().map_values(|s: WarpSource| s.name()),
    {
        let all: Vec<WarpSource> = self.iter();
        let mut out: Vec<String> = Vec::new();
        let mut i: usize = 0;
        while i < all.len()
            invariant
                i <= all@.len(),
                crate::text::texts(out@) == all@.take(i as int).map_values(
                    |s: WarpSource| s.name(),
                ),
            decreases all@.len() - i,
        {
            let label: String = all[i].label().to_owned();
            let ghost before = out@;
            out.push(label);
            i += 1;
            proof {
                assert(crate::text::texts(out@) =~= crate::text::texts(before).push(label@));
                assert(all@.take(i as int) =~= all@.take(i - 1).push(all@[i - 1]));
                assert(all@.take(i as int).map_values(|s: WarpSource| s.name()) =~= all@.take(
                    i - 1,
                ).map_values(|s: WarpSource| s.name()).push(all@[i - 1].name()));
            }
        }
        assert(all@.take(i as int) =~= all@);
        out
    }

    /// The holders in words, for notes and messages.
    pub fn describe(self) -> (r: String)
        ensures
            r@ == self.words(),
    {
        let all: Vec<WarpSource> = self.iter();
        let ghost parts = all@.map_values(|s: WarpSource| s.title());
        if all.len() == 0 {
            return "nobody".to_owned();
        }
        let mut out: String = all[0].describe().to_owned();
        let n: usize = all.len();
        let mut i: usize = 1;
        assert(parts.take(1) =~= seq![parts[0]]);
        while i < n
            invariant
                1 <= i <= n == all@.len(),
                parts == all@.map_values(|s: WarpSource| s.title()),
                parts.len() == n,
                out@ == (if i == n {
                    listed(parts)
                } else {
                    comma_joined(parts.take(i as int))
                }),
            decreases n - i,
        {
            proof {
                assert(parts.take(i + 1).drop_last() =~= parts.take(i as int));
                assert(parts.take(i + 1).last() == parts[i as int]);
                if i + 1 == n {
                    assert(parts.take(n as int) =~= parts);
                }
            }
            if i + 1 == n {
                put(&mut out, " and ");
            } else {
                put(&mut out, ", ");
            }
            put(&mut out, all[i].describe());
            i += 1;
        }
        out
    }
}

/// Inserting, removing and asking agree, and no source touches another's
/// hold: a control client and a GDB client that share the window cannot take
/// each other's warp away.
pub proof fn lemma_holds_are_separate(holds: WarpHolds, a: WarpSource, b: WarpSource)
    ensures
        a !is Manual ==> holds.with(a).has(a),
        !holds.without(a).has(a),
        a != b ==> holds.with(a).has(b) == holds.has(b),
        a != b ==> holds.without(a).has(b) == holds.has(b),
        holds.has(b) && a != b ==> holds.without(a) != WarpHolds::none(),
        holds == WarpHolds::none() <==> holds.holders().len() == 0,
{
    reveal(Seq::filter);
    let order = report_order();
    let pred = |s: WarpSource| holds.has(s);
    reveal_with_fuel(Seq::filter, 4);
    assert(order.drop_last().drop_last().drop_last() =~= Seq::empty());
    assert(order.drop_last().drop_last().last() == WarpSource::Control);
    assert(order.drop_last().last() == WarpSource::Gdb);
    assert(order.last() == WarpSource::Guest);
}

/// How many emulated frames warp retires per presented frame.
#[derive(Clone, Copy, PartialEq, Eq, Structural, Debug)]
pub enum WarpSpeed {
    X2,
    X4,
    X8,
    X16,
    Max,
}

impl WarpSpeed {
    pub open spec fn name(self) -> Seq<char> {
        match self {
            WarpSpeed::X2 => "2x"@,
            WarpSpeed::X4 => "4x"@,
            WarpSpeed::X8 => "8x"@,
            WarpSpeed::X16 => "16x"@,
            WarpSpeed::Max => "Max"@,
        }
    }

    pub open spec fn following(self) -> WarpSpeed {
        match self {
            WarpSpeed::X2 => WarpSpeed::X4,
            WarpSpeed::X4 => WarpSpeed::X8,
            WarpSpeed::X8 => WarpSpeed::X16,
            WarpSpeed::X16 => WarpSpeed::Max,
            WarpSpeed::Max => WarpSpeed::X2,
        }
    }

    pub fn label(self) -> (r: &'static str)
        ensures
            r@ == self.name(),
    {
        match self {
            WarpSpeed::X2 => "2x",
            WarpSpeed::X4 => "4x",
            WarpSpeed::X8 => "8x",
            WarpSpeed::X16 => "16x",
            WarpSpeed::Max => "Max",
        }
    }

    pub fn next(self) -> (r: WarpSpeed)
        ensures
            r == self.following(),
    {
        match self {
            WarpSpeed::X2 => WarpSpeed::X4,
            WarpSpeed::X4 => WarpSpeed::X8,
            WarpSpeed::X8 => WarpSpeed::X16,
            WarpSpeed::X16 => WarpSpeed::Max,
            WarpSpeed::Max => WarpSpeed::X2,
        }
    }
}

/// Cycling through the five levels comes back to where it began.
pub proof fn lemma_speeds_cycle(s: WarpSpeed)
    ensures
        s.following().following().following().following().following() == s,
        s.following() != s,
{
}

} // verus!
