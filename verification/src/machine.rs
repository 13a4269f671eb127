//! The emulated machine as the front end sees it: registers, beam, memory,
//! installed debug stops and pacing, as plain values that the host refreshes
//! from the emulator and writes back to it.

use vstd::prelude::*;

use crate::breaks::BreakStore;
use crate::breaks::SavedWatch;
use crate::breaks::Watch;
use crate::breaks::WatchAccess;
use crate::breaks::same_option_u16;
use crate::memory::Memory;

verus! {

#[derive(Clone, Copy, PartialEq, Eq, Debug)]
pub struct BeamTrap {
    pub vpos: u16,
    pub hpos: Option<u16>,
    pub once: bool,
}

/// One blit of a captured frame.
#[derive(Clone, Copy, PartialEq, Eq, Debug)]
pub struct Blit {
    pub start: (u32, u32),
    pub end: Option<(u32, u32)>,
    pub bltcon0: u16,
    pub bltcon1: u16,
    pub width_words: u32,
    pub height: u32,
    pub apt: u32,
    pub bpt: u32,
    pub cpt: u32,
    pub dpt: u32,
}

/// The bus trace of one captured frame.
#[derive(PartialEq, Eq, Debug)]
pub struct BusTrace {
    /// Slots in a line, and lines, of the captured frame.
    pub cols: u32,
    pub rows: u32,
    /// Lines of the longer field, where the fields of a frame alternate.
    pub nominal_rows: u32,
    pub frame: u64,
    pub blits: Vec<Blit>,
}

#[derive(Clone, Copy, PartialEq, Eq, Debug)]
pub struct Copper {
    pub cop1lc: u32,
    pub cop2lc: u32,
    pub pc: u32,
    pub running: bool,
}

/// The machine's registers in the debug protocol's order: D0-D7, A0-A7, SR,
/// PC.
pub const REGISTERS: usize = 18;

pub const REG_SP: usize = 15;

pub const REG_SR: usize = 16;

pub const REG_PC: usize = 17;

#[derive(PartialEq, Eq, Debug)]
pub struct Machine {
    pub regs: Vec<u32>,
    pub stopped: bool,
    pub double_faulted: bool,
    pub memory: Memory,
    pub breaks: BreakStore,
    pub beam_traps: Vec<BeamTrap>,
    pub copper_breaks: Vec<u32>,
    pub vpos: u32,
    pub hpos: u32,
    pub frame_lines: u32,
    pub frames: u64,
    pub retired: u64,
    /// The disassembly of the instruction at the program counter.
    pub pc_text: String,
    /// The status register's flags in letters.
    pub sr_text: String,
    /// The retired program counters, oldest first, with their disassembly.
    pub history: Vec<(u32, String)>,
    pub history_on: bool,
    pub copper: Copper,
    pub trace: Option<BusTrace>,
    pub analyzer_on: bool,
    /// The decoded memory map that a search walks, as (base, length).
    pub searchable: Vec<(u32, u32)>,
    /// The addresses of the resources that the guest has registered, in the
    /// order in which they are listed.
    pub resources: Vec<u32>,
}

/// The memory word that an address lies in, on the machine's bus.
pub open spec fn word_of(addr: u32, mask: u32) -> u32 {
    addr & mask & 0xFFFF_FFFE
}

/// Where a trap at this beam position stands in the list.
pub open spec fn trap_at(s: Seq<BeamTrap>, vpos: u16, hpos: Option<u16>, i: int) -> bool {
    0 <= i < s.len() && s[i].vpos == vpos && s[i].hpos == hpos
}

pub open spec fn has_trap(s: Seq<BeamTrap>, vpos: u16, hpos: Option<u16>) -> bool {
    exists|i: int| #[trigger] trap_at(s, vpos, hpos, i)
}

impl Machine {
    pub open spec fn wf(&self) -> bool {
        &&& self.regs@.len() == REGISTERS
        &&& self.breaks.wf()
        &&& self.memory.wf()
        &&& crate::memory::regions_fit(self.searchable@)
    }

    /// Everything but the debug stops is the same.
    pub open spec fn same_but_breaks(&self, other: &Machine) -> bool {
        &&& self.regs == other.regs
        &&& self.stopped == other.stopped
        &&& self.double_faulted == other.double_faulted
        &&& self.memory == other.memory
        &&& self.beam_traps == other.beam_traps
        &&& self.copper_breaks == other.copper_breaks
        &&& self.same_timeline(other)
    }

    /// Nothing that running the machine changes has changed.
    pub open spec fn same_timeline(&self, other: &Machine) -> bool {
        &&& self.vpos == other.vpos
        &&& self.hpos == other.hpos
        &&& self.frame_lines == other.frame_lines
        &&& self.frames == other.frames
        &&& self.retired == other.retired
        &&& self.pc_text == other.pc_text
        &&& self.sr_text == other.sr_text
        &&& self.history == other.history
        &&& self.history_on == other.history_on
        &&& self.copper == other.copper
        &&& self.trace == other.trace
        &&& self.analyzer_on == other.analyzer_on
        &&& self.searchable == other.searchable
        &&& self.resources == other.resources
    }

    /// A powered-on machine with no memory fitted, its CPU at address zero.
    pub fn new(mask: u32) -> (r: Machine)
        ensures
            r.wf(),
            r.memory.regions@.len() == 0,
            r.memory.mask == mask,
            r.breaks.breakpoints@.len() == 0,
            r.breaks.watches@.len() == 0,
            r.breaks.reg_watches@.len() == 0,
            r.breaks.catches@.len() == 0,
            r.breaks.loadseg_catch is None,
            r.breaks.task_catch is None,
            r.beam_traps@.len() == 0,
            r.copper_breaks@.len() == 0,
            !r.history_on,
            !r.analyzer_on,
            r.trace is None,
            r.resources@.len() == 0,
            r.retired == 0,
            forall|i: int| 0 <= i < REGISTERS ==> r.regs@[i] == 0,
    {
        let mut regs: Vec<u32> = Vec::new();
        let mut i: usize = 0;
        while i < REGISTERS
            invariant
                i <= REGISTERS,
                regs@.len() == i,
                forall|j: int| 0 <= j < i ==> regs@[j] == 0,
            decreases REGISTERS - i,
        {
            regs.push(0);
            i += 1;
        }
        Machine {
            regs,
            stopped: false,
            double_faulted: false,
            memory: Memory { regions: Vec::new(), mask },
            breaks: BreakStore::new(),
            beam_traps: Vec::new(),
            copper_breaks: Vec::new(),
            vpos: 0,
            hpos: 0,
            frame_lines: 313,
            frames: 0,
            retired: 0,
            pc_text: String::new(),
            sr_text: String::new(),
            history: Vec::new(),
            history_on: false,
            copper: Copper { cop1lc: 0, cop2lc: 0, pc: 0, running: false },
            trace: None,
            analyzer_on: false,
            searchable: Vec::new(),
            resources: Vec::new(),
        }
    }

    pub fn word_addr(&self, addr: u32) -> (r: u32)
        ensures
            r == word_of(addr, self.memory.mask),
    {
        addr & self.memory.mask & 0xFFFF_FFFE
    }

    /// Removes the watch on the word that an address lies in, or installs one
    /// whose baseline is what the word holds now.
    pub fn toggle_watch(
        &mut self,
        addr: u32,
        filter: Option<u8>,
        pc: Option<u32>,
        access: WatchAccess,
    ) -> (set: bool)
        requires
            old(self).wf(),
        ensures
            final(self).wf(),
            final(self).same_but_breaks(old(self)),
            ({
                let word = word_of(addr, old(self).memory.mask);
                &&& set == !old(self).breaks.words().dom().contains(word)
                &&& final(self).breaks.words() == (if set {
                    old(self).breaks.words().insert(word, SavedWatch { filter, pc, access })
                } else {
                    old(self).breaks.words().remove(word)
                })
                &&& set ==> final(self).breaks.watches@ == old(self).breaks.watches@.push(
                    Watch {
                        addr: word,
                        saved: SavedWatch { filter, pc, access },
                        last: old(self).memory.word(word),
                    },
                )
            }),
            final(self).breaks.breakpoints == old(self).breaks.breakpoints,
            final(self).breaks.reg_watches == old(self).breaks.reg_watches,
            final(self).breaks.catches == old(self).breaks.catches,
            final(self).breaks.loadseg_catch == old(self).breaks.loadseg_catch,
            final(self).breaks.task_catch == old(self).breaks.task_catch,
    {
        let word: u32 = self.word_addr(addr);
        let last: u16 = self.memory.peek_word(word);
        self.breaks.toggle_watch(word, SavedWatch { filter, pc, access }, last)
    }

    /// Takes every watch's current word as its baseline, so that an edit made
    /// by the debugger does not fire it.
    pub fn rebaseline_watches(&mut self)
        requires
            old(self).wf(),
        ensures
            final(self).wf(),
            final(self).same_but_breaks(old(self)),
            final(self).breaks.watches@ == rebaselined(
                old(self).breaks.watches@,
                &old(self).memory,
            ),
            final(self).breaks.words() == old(self).breaks.words(),
            final(self).breaks.breakpoints == old(self).breaks.breakpoints,
            final(self).breaks.reg_watches == old(self).breaks.reg_watches,
            final(self).breaks.catches == old(self).breaks.catches,
            final(self).breaks.loadseg_catch == old(self).breaks.loadseg_catch,
            final(self).breaks.task_catch == old(self).breaks.task_catch,
    {
        let ghost before = self.breaks.watches@;
        let mut i: usize = 0;
        while i < self.breaks.watches.len()
            invariant
                i <= before.len() == self.breaks.watches@.len(),
                self.memory == old(self).memory,
                self.same_but_breaks(old(self)),
                self.breaks.breakpoints == old(self).breaks.breakpoints,
                self.breaks.reg_watches == old(self).breaks.reg_watches,
                self.breaks.catches == old(self).breaks.catches,
                self.breaks.loadseg_catch == old(self).breaks.loadseg_catch,
                self.breaks.task_catch == old(self).breaks.task_catch,
                forall|j: int|
                    0 <= j < before.len() ==> #[trigger] self.breaks.watches@[j] == (if j < i {
                        rebaselined(before, &self.memory)[j]
                    } else {
                        before[j]
                    }),
            decreases before.len() - i,
        {
            let watch: Watch = self.breaks.watches[i];
            let last: u16 = self.memory.peek_word(watch.addr);
            self.breaks.watches.set(i, Watch { addr: watch.addr, saved: watch.saved, last });
            i += 1;
        }
        proof {
            assert(self.breaks.watches@ =~= rebaselined(before, &self.memory));
            lemma_rebaselined(before, &self.memory);
        }
    }

    pub fn trap_index(&self, vpos: u16, hpos: Option<u16>) -> (r: Option<usize>)
        ensures
            r matches Some(i) ==> trap_at(self.beam_traps@, vpos, hpos, i as int) && forall|j: int|
                0 <= j < i ==> !trap_at(self.beam_traps@, vpos, hpos, j),
            r is Some <==> has_trap(self.beam_traps@, vpos, hpos),
    {
        let mut i: usize = 0;
        while i < self.beam_traps.len()
            invariant
                i <= self.beam_traps@.len(),
                forall|j: int| 0 <= j < i ==> !trap_at(self.beam_traps@, vpos, hpos, j),
            decreases self.beam_traps@.len() - i,
        {
            if self.beam_traps[i].vpos == vpos && same_option_u16(self.beam_traps[i].hpos, hpos) {
                assert(trap_at(self.beam_traps@, vpos, hpos, i as int));
                return Some(i);
            }
            i += 1;
        }
        None
    }

    /// Removes the first trap at this beam position, or sets a lasting one.
    pub fn toggle_beam_trap(&mut self, vpos: u16, hpos: Option<u16>) -> (set: bool)
        requires
            old(self).wf(),
        ensures
            final(self).wf(),
            final(self).breaks == old(self).breaks,
            final(self).regs == old(self).regs,
            final(self).memory == old(self).memory,
            final(self).copper_breaks == old(self).copper_breaks,
            final(self).stopped == old(self).stopped,
            final(self).double_faulted == old(self).double_faulted,
            final(self).same_timeline(old(self)),
            set == !has_trap(old(self).beam_traps@, vpos, hpos),
            set ==> final(self).beam_traps@ == old(self).beam_traps@.push(
                BeamTrap { vpos, hpos, once: false },
            ),
            !set ==> exists|i: int| #[trigger]
                trap_at(old(self).beam_traps@, vpos, hpos, i) && (forall|j: int|
                    0 <= j < i ==> !trap_at(old(self).beam_traps@, vpos, hpos, j))
                    && final(self).beam_traps@ == old(self).beam_traps@.remove(i),
    {
        match self.trap_index(vpos, hpos) {
            Some(i) => {
                self.beam_traps.remove(i);
                false
            },
            None => {
                self.beam_traps.push(BeamTrap { vpos, hpos, once: false });
                true
            },
        }
    }

    /// Removes the Copper breakpoint at an address, or sets one there.
    pub fn toggle_copper_break(&mut self, addr: u32) -> (set: bool)
        requires
            old(self).wf(),
        ensures
            final(self).wf(),
            final(self).breaks == old(self).breaks,
            final(self).regs == old(self).regs,
            final(self).memory == old(self).memory,
            final(self).beam_traps == old(self).beam_traps,
            final(self).stopped == old(self).stopped,
            final(self).double_faulted == old(self).double_faulted,
            final(self).same_timeline(old(self)),
            set == !old(self).copper_breaks@.contains(addr & 0x00FF_FFFE),
            set ==> final(self).copper_breaks@ == old(self).copper_breaks@.push(
                addr & 0x00FF_FFFE,
            ),
            !set ==> exists|i: int|
                #![trigger old(self).copper_breaks@[i]]
                0 <= i < old(self).copper_breaks@.len() && old(self).copper_breaks@[i] == addr
                    & 0x00FF_FFFE && final(self).copper_breaks@ == old(self).copper_breaks@.remove(
                    i,
                ),
    {
        let word: u32 = addr & 0x00FF_FFFE;
        let mut i: usize = 0;
        while i < self.copper_breaks.len()
            invariant
                i <= self.copper_breaks@.len(),
                *self == *old(self),
                old(self).wf(),
                word == addr & 0x00FF_FFFE,
                forall|j: int| 0 <= j < i ==> self.copper_breaks@[j] != word,
            decreases self.copper_breaks@.len() - i,
        {
            if self.copper_breaks[i] == word {
                assert(self.copper_breaks@.contains(word));
                self.copper_breaks.remove(i);
                return false;
            }
            i += 1;
        }
        self.copper_breaks.push(word);
        true
    }

    /// Removes every installed debug stop.
    pub fn breaks_clear(&mut self)
        requires
            old(self).wf(),
        ensures
            final(self).wf(),
            final(self).breaks.breakpoints@.len() == 0,
            final(self).breaks.watches@.len() == 0,
            final(self).breaks.reg_watches@.len() == 0,
            final(self).breaks.catches@.len() == 0,
            final(self).breaks.loadseg_catch is None,
            final(self).breaks.task_catch is None,
            final(self).beam_traps@.len() == 0,
            final(self).copper_breaks@.len() == 0,
            final(self).regs == old(self).regs,
            final(self).memory == old(self).memory,
            final(self).stopped == old(self).stopped,
            final(self).double_faulted == old(self).double_faulted,
            final(self).same_timeline(old(self)),
    {
        self.breaks = BreakStore::new();
        self.beam_traps = Vec::new();
        self.copper_breaks = Vec::new();
    }
}

/// The watches with the words they watch now as their baselines.
pub open spec fn rebaselined(s: Seq<Watch>, m: &Memory) -> Seq<Watch> {
    Seq::new(s.len(), |i: int| Watch { last: m.word(s[i].addr), ..s[i] })
}

proof fn lemma_rebaselined(s: Seq<Watch>, m: &Memory)
    requires
        crate::breaks::distinct_watches(s),
    ensures
        crate::breaks::distinct_watches(rebaselined(s, m)),
        crate::breaks::watch_map(rebaselined(s, m)) == crate::breaks::watch_map(s),
    decreases s.len(),
{
    if s.len() > 0 {
        assert(rebaselined(s, m).drop_last() =~= rebaselined(s.drop_last(), m));
        assert(crate::breaks::distinct_watches(s.drop_last())) by {
            assert(forall|i: int| 0 <= i < s.len() - 1 ==> s.drop_last()[i] == s[i]);
        }
        lemma_rebaselined(s.drop_last(), m);
    }
}

} // verus!
