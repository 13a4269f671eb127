//! The figures of a captured frame: who had the bus and for how long, what
//! the processor waited for, what lies over the diagram, and what a slot
//! holds.

use vstd::prelude::*;

use crate::analyzer::BusRecord;
use crate::analyzer::analyzer_layout_rows;
use crate::analyzer::counter_total;
use crate::analyzer::layout_rows;
use crate::analyzer::total;
use crate::analyzer_pages::address_link;
use crate::analyzer_pages::address_link_piece;
use crate::analyzer_pages::beam_place;
use crate::analyzer_pages::memory_link;
use crate::analyzer_pages::put_memory_link;
use crate::analyzer_pages::put_place;
use crate::app::DebugTab;
use crate::number::dec;
use crate::number::hex;
use crate::number::put_dec;
use crate::number::put_hex;
use crate::sheets::Piece;
use crate::sheets::Sheet;
use crate::text::put;

verus! {

/// A count under a name.
#[derive(PartialEq, Eq, Debug)]
pub struct Counter {
    pub name: String,
    pub count: u64,
}

/// A program counter at which the processor waited, for how many clocks, and
/// what is there.
#[derive(PartialEq, Eq, Debug)]
pub struct StalledPc {
    pub pc: u32,
    pub count: u64,
    pub symbol: Option<String>,
}

/// What the counters are of.
#[derive(PartialEq, Eq, Debug)]
pub struct Counters {
    pub wait_cck: u64,
    pub wait_by_kind: Vec<Counter>,
    pub stalled: Vec<StalledPc>,
    pub blitter_busy_cck: u64,
    pub blitter_waits: Vec<Counter>,
}

/// What the shares of a table are taken of: the clocks that the processor
/// waited, or all that were counted, and one at least.
pub open spec fn share_base(waits: bool, wait_cck: int, owners: Seq<u64>) -> int {
    let sum = if waits {
        wait_cck
    } else {
        total(owners)
    };
    if sum == 0 {
        1
    } else {
        sum
    }
}

pub fn counter_share_base(waits: bool, wait_cck: u64, owners: &Vec<u64>) -> (r: u128)
    requires
        owners@.len() <= 0xFFFF_FFFF,
    ensures
        r == share_base(waits, wait_cck as int, owners@),
        r > 0,
{
    proof {
        lemma_total_counts(owners@);
    }
    if waits {
        if wait_cck == 0 {
            1
        } else {
            wait_cck as u128
        }
    } else {
        counter_total(owners)
    }
}

proof fn lemma_total_counts(counts: Seq<u64>)
    ensures
        total(counts) >= 0,
    decreases counts.len(),
{
    if counts.len() > 0 {
        lemma_total_counts(counts.drop_last());
    }
}

/// No share of a table is more than the whole of it.
pub proof fn lemma_shares_fit(owners: Seq<u64>, i: int)
    requires
        0 <= i < owners.len(),
    ensures
        owners[i] <= share_base(false, 0, owners),
    decreases owners.len(),
{
    lemma_total_counts(owners.drop_last());
    if i < owners.len() - 1 {
        lemma_shares_fit(owners.drop_last(), i);
    }
}

/// The table's title.
pub fn counter_title(waits: bool) -> (r: &'static str)
    ensures
        r@ == (if waits {
            "CPU waits"@
        } else {
            "Bus ownership"@
        }),
{
    if waits {
        "CPU waits"
    } else {
        "Bus ownership"
    }
}

/// A row of the table: the letter that it is drawn under, and what it says.
#[derive(PartialEq, Eq, Debug)]
pub struct CounterRow {
    pub code: char,
    pub name: String,
    pub count: String,
    pub share: String,
}

/// The letters of the rows, in the order of the counters.
pub open spec fn row_codes(waits: bool) -> Seq<char> {
    if waits {
        seq!['R', 'B', 'S', 'D', 'A', 'C', 'L', 'N', 'p']
    } else {
        seq!['R', 'B', 'S', 'D', 'A', 'C', 'L', 'P', '.']
    }
}

pub open spec fn is_counter_row(r: CounterRow, code: char, c: Counter, share: Seq<char>) -> bool {
    &&& r.code == code
    &&& r.name@ == c.name@
    &&& r.count@ == dec(c.count as int)
    &&& r.share@ == share + "%"@
}

/// The rows of the table, as far as there are letters. `shares` holds each
/// counter's share in percent, as it is shown.
pub fn counter_table(waits: bool, counters: &Vec<Counter>, shares: &Vec<String>) -> (r: Vec<
    CounterRow,
>)
    requires
        shares@.len() == counters@.len(),
    ensures
        r@.len() == (if counters@.len() < 9 {
            counters@.len()
        } else {
            9
        }),
        forall|i: int|
            0 <= i < r@.len() ==> is_counter_row(
                #[trigger] r@[i],
                row_codes(waits)[i],
                counters@[i],
                shares@[i]@,
            ),
{
    let codes: [char; 9] = if waits {
        ['R', 'B', 'S', 'D', 'A', 'C', 'L', 'N', 'p']
    } else {
        ['R', 'B', 'S', 'D', 'A', 'C', 'L', 'P', '.']
    };
    assert(codes@ =~= row_codes(waits));
    let mut rows: Vec<CounterRow> = Vec::new();
    let mut i: usize = 0;
    while i < counters.len() && i < 9
        invariant
            i <= counters@.len(),
            i <= 9,
            shares@.len() == counters@.len(),
            codes@ == row_codes(waits),
            rows@.len() == i,
            forall|k: int|
                0 <= k < i ==> is_counter_row(
                    #[trigger] rows@[k],
                    row_codes(waits)[k],
                    counters@[k],
                    shares@[k]@,
                ),
        decreases counters@.len() - i,
    {
        let mut count = String::new();
        put_dec(&mut count, counters[i].count);
        assert(count@ =~= dec(counters@[i as int].count as int));
        let mut share = String::new();
        put(&mut share, shares[i].as_str());
        put(&mut share, "%");
        assert(share@ =~= shares@[i as int]@ + "%"@);
        rows.push(CounterRow { code: codes[i], name: counters[i].name.clone(), count, share });
        i += 1;
    }
    rows
}

pub open spec fn counter_line(c: Counter) -> Seq<char> {
    c.name@ + ": "@ + dec(c.count as int)
}

pub open spec fn kind_pieces(kinds: Seq<Counter>) -> Seq<Piece<Seq<char>>> {
    Seq::new(kinds.len(), |i: int| Piece::Text(counter_line(kinds[i])))
}

pub open spec fn stalled_label(p: StalledPc) -> Seq<char> {
    "$"@ + hex(p.pc as int, 8) + "  "@ + dec(p.count as int) + " cck"@
}

/// Each program counter is a link to its code, with its symbol below it.
pub open spec fn stalled_pieces(stalled: Seq<StalledPc>) -> Seq<Piece<Seq<char>>>
    decreases stalled.len(),
{
    if stalled.len() == 0 {
        Seq::empty()
    } else {
        let p = stalled.last();
        stalled_pieces(stalled.drop_last()) + seq![
            address_link_piece(stalled_label(p), DebugTab::Cpu, p.pc),
        ] + (match p.symbol {
            Some(s) => seq![Piece::Text(s@)],
            None => Seq::empty(),
        })
    }
}

/// The blitter waited for those that have any clocks.
pub open spec fn starve_pieces(waits: Seq<Counter>) -> Seq<Piece<Seq<char>>>
    decreases waits.len(),
{
    if waits.len() == 0 {
        Seq::empty()
    } else {
        starve_pieces(waits.drop_last()) + (if waits.last().count > 0 {
            seq![Piece::Text(counter_line(waits.last()) + " cck"@)]
        } else {
            Seq::empty()
        })
    }
}

/// What stands under the table of the counters. `share` is the waiting time's
/// share of the frame or the blitter's of what it asked for, as it is shown.
pub open spec fn counter_pieces(waits: bool, c: Counters, share: Seq<char>) -> Seq<
    Piece<Seq<char>>,
> {
    if waits {
        seq![
            Piece::Text(dec(c.wait_cck as int) + " clocks waiting ("@ + share + "%)"@),
        ] + kind_pieces(c.wait_by_kind@) + seq![Piece::Text("Most stalled PCs"@)]
            + stalled_pieces(c.stalled@)
    } else if c.blitter_busy_cck > 0 {
        seq![
            Piece::Text("Blitter grant: "@ + share + "%"@),
            Piece::Text("Blitter waits"@),
        ] + starve_pieces(c.blitter_waits@)
    } else {
        Seq::empty()
    }
}

fn line_of(c: &Counter) -> (r: String)
    ensures
        r@ == counter_line(*c),
{
    let mut r = c.name.clone();
    put(&mut r, ": ");
    put_dec(&mut r, c.count);
    r
}

fn put_kinds(s: &mut Sheet, kinds: &Vec<Counter>)
    ensures
        final(s)@ == old(s)@ + kind_pieces(kinds@),
{
    let mut i: usize = 0;
    assert(s@ =~= old(s)@ + kind_pieces(kinds@).take(0));
    while i < kinds.len()
        invariant
            i <= kinds@.len(),
            s@ == old(s)@ + kind_pieces(kinds@).take(i as int),
        decreases kinds@.len() - i,
    {
        s.line(line_of(&kinds[i]));
        assert(s@ =~= old(s)@ + kind_pieces(kinds@).take(i + 1));
        i += 1;
    }
    assert(kind_pieces(kinds@).take(i as int) =~= kind_pieces(kinds@));
}

fn put_stalled(s: &mut Sheet, stalled: &Vec<StalledPc>)
    ensures
        final(s)@ == old(s)@ + stalled_pieces(stalled@),
{
    let mut i: usize = 0;
    assert(stalled@.take(0) =~= Seq::empty());
    assert(s@ =~= old(s)@ + stalled_pieces(stalled@.take(0)));
    while i < stalled.len()
        invariant
            i <= stalled@.len(),
            s@ == old(s)@ + stalled_pieces(stalled@.take(i as int)),
        decreases stalled@.len() - i,
    {
        let p = &stalled[i];
        let mut label = "$".to_owned();
        put_hex(&mut label, p.pc as u64, 8);
        put(&mut label, "  ");
        put_dec(&mut label, p.count);
        put(&mut label, " cck");
        assert(label@ =~= stalled_label(*p));
        address_link(s, label, DebugTab::Cpu, p.pc);
        match &p.symbol {
            Some(t) => {
                s.text(t.as_str());
            },
            None => {},
        }
        assert(stalled@.take(i + 1).drop_last() =~= stalled@.take(i as int));
        assert(s@ =~= old(s)@ + stalled_pieces(stalled@.take(i + 1)));
        i += 1;
    }
    assert(stalled@.take(i as int) =~= stalled@);
}

fn put_starved(s: &mut Sheet, waits: &Vec<Counter>)
    ensures
        final(s)@ == old(s)@ + starve_pieces(waits@),
{
    let mut i: usize = 0;
    assert(waits@.take(0) =~= Seq::empty());
    assert(s@ =~= old(s)@ + starve_pieces(waits@.take(0)));
    while i < waits.len()
        invariant
            i <= waits@.len(),
            s@ == old(s)@ + starve_pieces(waits@.take(i as int)),
        decreases waits@.len() - i,
    {
        if waits[i].count > 0 {
            let mut line = line_of(&waits[i]);
            put(&mut line, " cck");
            s.line(line);
        }
        assert(waits@.take(i + 1).drop_last() =~= waits@.take(i as int));
        assert(s@ =~= old(s)@ + starve_pieces(waits@.take(i + 1)));
        i += 1;
    }
    assert(waits@.take(i as int) =~= waits@);
}

pub fn beam_counters(waits: bool, c: &Counters, share: &str) -> (s: Sheet)
    ensures
        s@ == counter_pieces(waits, *c, share@),
{
    let mut s = Sheet::new();
    if waits {
        let mut line = String::new();
        put_dec(&mut line, c.wait_cck);
        put(&mut line, " clocks waiting (");
        put(&mut line, share);
        put(&mut line, "%)");
        assert(line@ =~= dec(c.wait_cck as int) + " clocks waiting ("@ + share@ + "%)"@);
        s.line(line);
        put_kinds(&mut s, &c.wait_by_kind);
        s.text("Most stalled PCs");
        put_stalled(&mut s, &c.stalled);
    } else if c.blitter_busy_cck > 0 {
        let mut line = "Blitter grant: ".to_owned();
        put(&mut line, share);
        put(&mut line, "%");
        s.line(line);
        s.text("Blitter waits");
        put_starved(&mut s, &c.blitter_waits);
    }
    assert(s@ =~= counter_pieces(waits, *c, share@));
    s
}

/// A mark over the diagram, in clocks and lines of it.
#[derive(Clone, Copy, PartialEq, Eq, Structural, Debug)]
pub enum Overlay {
    /// The part of the frame that was captured as a picture.
    Display { left: u32, top: u32, right: u32, bottom: u32 },
    /// The display window.
    Window { left: u32, top: u32, right: u32, bottom: u32 },
    /// An end of the data fetch.
    Fetch { at: u32, top: u32, bottom: u32 },
    Marker { at: u32, line: u32 },
    Selected { at: u32, line: u32 },
}

/// Where the marks of a frame are. A pair is first and last.
#[derive(PartialEq, Eq, Debug)]
pub struct Marks {
    pub cols: u32,
    pub rows: u32,
    pub nominal_rows: u32,
    pub display_hpos: (u32, u32),
    pub visible_start: u32,
    pub visible_lines: u32,
    pub diw_v: Option<(u32, u32)>,
    pub diw_h: Option<(u32, u32)>,
    pub ddf: Option<(u32, u32)>,
    pub markers: Vec<(u32, u32)>,
    pub selected: (u32, u32),
}

impl Marks {
    /// A clock inside the diagram.
    pub open spec fn clock(&self, h: int) -> u32 {
        if h > self.cols {
            self.cols
        } else {
            h as u32
        }
    }

    /// A line inside the diagram, which is laid out against the longer field.
    pub open spec fn line(&self, v: int) -> u32 {
        let rows = layout_rows(self.nominal_rows as int, self.rows as int);
        if v > rows {
            rows as u32
        } else {
            v as u32
        }
    }

    pub open spec fn marker_overlays(&self) -> Seq<Overlay> {
        Seq::new(
            self.markers@.len(),
            |i: int|
                Overlay::Marker {
                    at: self.clock(self.markers@[i].0 as int),
                    line: self.line(self.markers@[i].1 as int),
                },
        )
    }

    pub open spec fn window_overlays(&self) -> Seq<Overlay> {
        match self.diw_v {
            None => Seq::empty(),
            Some((v0, v1)) => (match self.diw_h {
                None => Seq::empty(),
                Some((h0, h1)) => seq![
                    Overlay::Window {
                        left: self.clock(h0 as int),
                        top: self.line(v0 as int),
                        right: self.clock(h1 as int),
                        bottom: self.line(v1 as int),
                    },
                ],
            }) + (match self.ddf {
                None => Seq::empty(),
                Some((h0, h1)) => seq![
                    Overlay::Fetch {
                        at: self.clock(h0 as int),
                        top: self.line(v0 as int),
                        bottom: self.line(v1 as int),
                    },
                    Overlay::Fetch {
                        at: self.clock(h1 as int),
                        top: self.line(v0 as int),
                        bottom: self.line(v1 as int),
                    },
                ],
            }),
        }
    }

    /// The marks in the order in which they are drawn.
    pub open spec fn overlays(&self) -> Seq<Overlay> {
        seq![
            Overlay::Display {
                left: self.clock(self.display_hpos.0 as int),
                top: self.line(self.visible_start as int),
                right: self.clock(self.display_hpos.1 as int),
                bottom: self.line(self.visible_start + self.visible_lines),
            },
        ] + self.window_overlays() + self.marker_overlays() + seq![
            Overlay::Selected {
                at: self.clock(self.selected.0 as int),
                line: self.line(self.selected.1 as int),
            },
        ]
    }

    fn clock_of(&self, h: u64) -> (r: u32)
        ensures
            r == self.clock(h as int),
    {
        if h > self.cols as u64 {
            self.cols
        } else {
            h as u32
        }
    }

    fn line_of(&self, v: u64) -> (r: u32)
        ensures
            r == self.line(v as int),
    {
        let rows: u32 = analyzer_layout_rows(self.nominal_rows, self.rows);
        if v > rows as u64 {
            rows
        } else {
            v as u32
        }
    }

    fn put_windows(&self, out: &mut Vec<Overlay>)
        ensures
            final(out)@ == old(out)@ + self.window_overlays(),
    {
        match self.diw_v {
            None => {},
            Some((v0, v1)) => {
                let top: u32 = self.line_of(v0 as u64);
                let bottom: u32 = self.line_of(v1 as u64);
                match self.diw_h {
                    None => {},
                    Some((h0, h1)) => {
                        out.push(
                            Overlay::Window {
                                left: self.clock_of(h0 as u64),
                                top,
                                right: self.clock_of(h1 as u64),
                                bottom,
                            },
                        );
                    },
                }
                match self.ddf {
                    None => {},
                    Some((h0, h1)) => {
                        out.push(Overlay::Fetch { at: self.clock_of(h0 as u64), top, bottom });
                        out.push(Overlay::Fetch { at: self.clock_of(h1 as u64), top, bottom });
                    },
                }
            },
        }
        assert(out@ =~= old(out)@ + self.window_overlays());
    }

    /// What lies over the diagram.
    pub fn beam_overlays(&self) -> (r: Vec<Overlay>)
        ensures
            r@ == self.overlays(),
    {
        let mut out: Vec<Overlay> = Vec::new();
        out.push(
            Overlay::Display {
                left: self.clock_of(self.display_hpos.0 as u64),
                top: self.line_of(self.visible_start as u64),
                right: self.clock_of(self.display_hpos.1 as u64),
                bottom: self.line_of(self.visible_start as u64 + self.visible_lines as u64),
            },
        );
        self.put_windows(&mut out);
        let ghost head = out@;
        let mut i: usize = 0;
        assert(out@ =~= head + self.marker_overlays().take(0));
        while i < self.markers.len()
            invariant
                i <= self.markers@.len(),
                out@ == head + self.marker_overlays().take(i as int),
            decreases self.markers@.len() - i,
        {
            let (h, v): (u32, u32) = self.markers[i];
            out.push(
                Overlay::Marker { at: self.clock_of(h as u64), line: self.line_of(v as u64) },
            );
            assert(out@ =~= head + self.marker_overlays().take(i + 1));
            i += 1;
        }
        assert(self.marker_overlays().take(i as int) =~= self.marker_overlays());
        out.push(
            Overlay::Selected {
                at: self.clock_of(self.selected.0 as u64),
                line: self.line_of(self.selected.1 as u64),
            },
        );
        assert(out@ =~= self.overlays());
        out
    }
}

/// The marks keep their places while the fields alternate: what is laid over
/// the short field lies where it lies over the long one.
pub proof fn lemma_marks_hold_still(m: Marks, rows: u32)
    requires
        m.rows <= m.nominal_rows,
        rows <= m.nominal_rows,
    ensures
        (Marks { rows, ..m }).overlays() == m.overlays(),
{
    let other = Marks { rows, ..m };
    assert(forall|v: int| #[trigger] other.line(v) == m.line(v));
    assert(other.marker_overlays() =~= m.marker_overlays());
    assert(other.overlays() =~= m.overlays());
}

/// What is said of a slot's record.
pub open spec fn record_text(b: BusRecord, events: Seq<char>) -> Seq<char> {
    "reg=$"@ + hex(b.reg as int, 4) + " addr=$"@ + hex(b.addr as int, 8) + " data=$"@ + hex(
        b.data as int,
        16,
    ) + "/"@ + dec(b.size as int) + " kind="@ + dec(b.kind as int) + ":"@ + dec(b.subtype as int)
        + " IPL="@ + dec(b.ipl as int) + " events="@ + events
}

pub open spec fn copper_link(address: u32) -> Piece<Seq<char>> {
    address_link_piece(
        "Copper instruction @$"@ + hex(address as int, 6),
        DebugTab::Copper,
        address,
    )
}

/// A slot's record: the memory that it touched, the record itself, and the
/// copper's instruction.
pub open spec fn record_pieces(record: Option<BusRecord>, events: Seq<char>) -> Seq<
    Piece<Seq<char>>,
> {
    match record {
        None => Seq::empty(),
        Some(b) => (if b.size > 0 {
            seq![memory_link(b.addr)]
        } else {
            Seq::empty()
        }) + seq![Piece::Text(record_text(b, events))] + (if b.copper {
            seq![copper_link(b.instruction())]
        } else {
            Seq::empty()
        }),
    }
}

/// The markers near a slot, of which the first eight are shown.
pub open spec fn marker_lines(markers: Seq<String>) -> Seq<Piece<Seq<char>>> {
    Seq::new(
        if markers.len() > 8 {
            8
        } else {
            markers.len()
        },
        |i: int| Piece::Text(markers[i]@),
    )
}

pub open spec fn detail_pieces(
    v: int,
    h: int,
    owner: Seq<char>,
    record: Option<BusRecord>,
    events: Seq<char>,
    markers: Seq<String>,
) -> Seq<Piece<Seq<char>>> {
    seq![Piece::Text("Inspect "@ + beam_place(v, h) + " \u{b7} "@ + owner)] + record_pieces(
        record,
        events,
    ) + marker_lines(markers)
}

fn record_line(b: &BusRecord, events: &str) -> (r: String)
    ensures
        r@ == record_text(*b, events@),
{
    let mut r = "reg=$".to_owned();
    put_hex(&mut r, b.reg as u64, 4);
    put(&mut r, " addr=$");
    put_hex(&mut r, b.addr as u64, 8);
    put(&mut r, " data=$");
    put_hex(&mut r, b.data, 16);
    put(&mut r, "/");
    put_dec(&mut r, b.size as u64);
    put(&mut r, " kind=");
    put_dec(&mut r, b.kind as u64);
    put(&mut r, ":");
    put_dec(&mut r, b.subtype as u64);
    put(&mut r, " IPL=");
    put_dec(&mut r, b.ipl as u64);
    put(&mut r, " events=");
    put(&mut r, events);
    assert(r@ =~= record_text(*b, events@));
    r
}

fn put_record(s: &mut Sheet, record: &Option<BusRecord>, events: &str)
    ensures
        final(s)@ == old(s)@ + record_pieces(*record, events@),
{
    match record {
        None => {},
        Some(b) => {
            if b.size > 0 {
                put_memory_link(s, b.addr);
            }
            s.line(record_line(b, events));
            if b.copper {
                let address: u32 = b.instruction_address();
                let mut label = "Copper instruction @$".to_owned();
                put_hex(&mut label, address as u64, 6);
                address_link(s, label, DebugTab::Copper, address);
            }
        },
    }
    assert(s@ =~= old(s)@ + record_pieces(*record, events@));
}

/// What is said of the selected slot. `events` names what happened in it, and
/// `markers` are those near it.
pub fn beam_detail(
    v: u32,
    h: u32,
    owner: &str,
    record: &Option<BusRecord>,
    events: &str,
    markers: &Vec<String>,
) -> (s: Sheet)
    ensures
        s@ == detail_pieces(v as int, h as int, owner@, *record, events@, markers@),
{
    let mut s = Sheet::new();
    let mut line = "Inspect ".to_owned();
    put_place(&mut line, v, h);
    put(&mut line, " \u{b7} ");
    put(&mut line, owner);
    s.line(line);
    put_record(&mut s, record, events);
    let ghost head = s@;
    let mut i: usize = 0;
    assert(s@ =~= head + marker_lines(markers@).take(0));
    while i < markers.len() && i < 8
        invariant
            i <= markers@.len(),
            i <= 8,
            s@ == head + marker_lines(markers@).take(i as int),
        decreases markers@.len() - i,
    {
        s.text(markers[i].as_str());
        assert(s@ =~= head + marker_lines(markers@).take(i + 1));
        i += 1;
    }
    assert(marker_lines(markers@).take(i as int) =~= marker_lines(markers@));
    assert(s@ =~= detail_pieces(v as int, h as int, owner@, *record, events@, markers@));
    s
}

} // verus!
