//! The application: the session, the machine, its remote clients and the
//! inspectors, with what they ask of the host.

use vstd::prelude::*;

use crate::controls::AudioMix;
use crate::desk::Desk;
use crate::effects::Effects;
use crate::gdb::GdbGui;
use crate::guest::GuestInput;
use crate::hunt::HuntState;
use crate::hunt::is_snapshot;
use crate::lexicon::Lexicon;
use crate::machine::Machine;
use crate::memedit::MemEdit;
use crate::memory::Region;
use crate::memory::same_layout;
use crate::netplay::NetplaySession;
use crate::session::Session;
use crate::ui::Ui;

verus! {

/// A page of the debugger.
#[derive(Clone, Copy, PartialEq, Eq, Structural, Debug)]
pub enum DebugTab {
    Cpu,
    Memory,
    Copper,
    Break,
    Video,
    Audio,
    IoMap,
    Waveform,
}

#[derive(PartialEq, Eq, Debug)]
pub struct DebuggerPanel {
    pub tab: DebugTab,
    pub entry: String,
    pub entry_active: bool,
    /// Where the disassembly is pinned; it follows the program counter
    /// otherwise.
    pub disasm_addr: Option<u32>,
    pub copper_addr: Option<u32>,
    pub mem_addr: u32,
    pub mem_view_bits: bool,
    /// Bytes in a row of the bitmap view.
    pub bits_row: u32,
    pub mem_last_find: Option<u32>,
    pub mem_edit: MemEdit,
    pub mem_status: Option<String>,
}

#[derive(PartialEq, Eq, Debug)]
pub struct AnalyzerPanel {
    pub selected_hpos: u16,
    pub selected_vpos: u16,
    /// This panel armed the heat map that is recording.
    pub heat_armed: bool,
    /// The pointer is held on the diagram and picks as it moves.
    pub dragging: bool,
    /// The first of the guest's resources that the list shows.
    pub resource_scroll: usize,
    /// The address of the resource whose contents are shown.
    pub resource_selected: Option<u32>,
}

#[derive(PartialEq, Eq, Debug)]
pub struct ConsolePanel {
    pub input: String,
    pub output: Vec<String>,
    pub history: Vec<String>,
    pub history_pos: Option<usize>,
    pub scroll: usize,
}

#[derive(PartialEq, Eq, Debug)]
pub struct App {
    pub session: Session,
    pub machine: Machine,
    pub fx: Effects,
    pub last_debug_stop: Option<String>,
    pub gdb: Option<GdbGui>,
    pub desk: Desk,
    pub debugger: Option<DebuggerPanel>,
    pub analyzer: Option<AnalyzerPanel>,
    pub console: Option<ConsolePanel>,
    pub hunt: Option<HuntState>,
    pub lexicon: Lexicon,
    pub netplay: Option<NetplaySession>,
    pub guest: GuestInput,
    pub mix: AudioMix,
    pub ui: Ui,
}

/// A hunt's snapshot is of the banks that the machine has.
pub open spec fn hunt_fits(hunt: Option<HuntState>, regions: Seq<Region>) -> bool {
    hunt matches Some(h) ==> h.wf() && exists|r: Seq<Region>|
        #![trigger is_snapshot(h.snapshot@, r)]
        is_snapshot(h.snapshot@, r) && same_layout(r, regions)
}

pub proof fn lemma_hunt_fits(hunt: Option<HuntState>, a: Seq<Region>, b: Seq<Region>)
    requires
        hunt_fits(hunt, a),
        same_layout(b, a),
    ensures
        hunt_fits(hunt, b),
{
    if let Some(h) = hunt {
        let r = choose|r: Seq<Region>|
            #![trigger is_snapshot(h.snapshot@, r)]
            is_snapshot(h.snapshot@, r) && same_layout(r, a);
        assert(same_layout(r, b)) by {
            assert forall|i: int| 0 <= i < r.len() implies (#[trigger] r[i]).base == b[i].base
                && r[i].bytes@.len() == b[i].bytes@.len() && r[i].writable == b[i].writable by {
                assert(b[i].base == a[i].base);
            }
        }
        assert(is_snapshot(h.snapshot@, r));
    }
}

impl App {
    pub open spec fn wf(&self) -> bool {
        &&& self.machine.wf()
        &&& self.desk.wf()
        &&& self.lexicon.wf()
        &&& self.desk.debugger_open == self.debugger is Some
        &&& self.desk.analyzer_open == self.analyzer is Some
        &&& self.desk.console_open == self.console is Some
        &&& hunt_fits(self.hunt, self.machine.memory.regions@)
        &&& self.gdb matches Some(g) ==> g.breaks.wf() && g.core.wf()
        &&& self.guest.wf()
        &&& self.mix.wf()
        &&& self.ui.wf()
        &&& self.netplay matches Some(s) ==> s.wf()
    }

    /// The inspectors and their contents are the same.
    pub open spec fn same_panels(&self, o: &App) -> bool {
        &&& self.debugger == o.debugger
        &&& self.analyzer == o.analyzer
        &&& self.console == o.console
        &&& self.lexicon == o.lexicon
        &&& self.netplay == o.netplay
        &&& self.guest == o.guest
        &&& self.mix == o.mix
        &&& self.ui == o.ui
    }

    /// An application with nothing open and no client.
    pub fn new(machine: Machine, powered_on: bool) -> (r: App)
        requires
            machine.wf(),
        ensures
            r.wf(),
            r.machine == machine,
            r.session.powered_on == powered_on,
            r.session.paced,
            !r.session.paused,
            !r.session.cpu_halted,
            r.session == r.session.settled(),
            r.gdb is None,
            r.debugger is None,
            r.analyzer is None,
            r.console is None,
            r.hunt is None,
            r.netplay is None,
            r.last_debug_stop is None,
            r.fx@.len() == 0,
            !r.desk.any_open(),
            !r.desk.layout_active,
            r.guest.idle(),
            !r.ui.active(),
            !r.ui.nav.showing,
    {
        App {
            session: Session::new(powered_on),
            machine,
            fx: Effects::new(),
            last_debug_stop: None,
            gdb: None,
            desk: Desk::new(),
            debugger: None,
            analyzer: None,
            console: None,
            hunt: None,
            lexicon: Lexicon::new(),
            netplay: None,
            guest: GuestInput::new(),
            mix: AudioMix::new(),
            ui: Ui::new(false),
        }
    }
}

} // verus!
