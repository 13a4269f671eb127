//! The frame analyzer's arithmetic: from a place in its pictures to a slot of
//! the captured frame or a block of memory, and what its counters add up.

use vstd::prelude::*;

verus! {

/// The lines that the beam diagram is laid out against: the longer field's,
/// so that the diagram keeps its size while the fields alternate.
pub open spec fn layout_rows(nominal: int, rows: int) -> int {
    if nominal >= rows {
        nominal
    } else {
        rows
    }
}

pub fn analyzer_layout_rows(nominal: u32, rows: u32) -> (r: u32)
    ensures
        r == layout_rows(nominal as int, rows as int),
{
    if nominal >= rows {
        nominal
    } else {
        rows
    }
}

/// The line under a place of the diagram, in 1024ths of its height: one of
/// those that were captured.
pub open spec fn probed_row(y: int, nominal: int, rows: int) -> int {
    let v = y * layout_rows(nominal, rows) / 1024;
    if rows == 0 {
        0
    } else if v > rows - 1 {
        rows - 1
    } else {
        v
    }
}

pub open spec fn probed_col(x: int, cols: int) -> int {
    x * cols / 1024
}

proof fn lemma_product(a: int, b: int)
    requires
        0 <= a <= 0xFFFF_FFFF,
        0 <= b <= 0xFFFF_FFFF,
    ensures
        0 <= a * b <= 0xFFFF_FFFF * 0xFFFF_FFFF,
{
    assert(0 <= a * b <= 0xFFFF_FFFF * 0xFFFF_FFFF) by (nonlinear_arith)
        requires
            0 <= a <= 0xFFFF_FFFF,
            0 <= b <= 0xFFFF_FFFF,
    ;
}

pub fn probe_row(y: u32, nominal: u32, rows: u32) -> (r: u32)
    ensures
        r == probed_row(y as int, nominal as int, rows as int),
{
    let size: u32 = analyzer_layout_rows(nominal, rows);
    proof {
        lemma_product(y as int, size as int);
    }
    let v: u64 = y as u64 * size as u64 / 1024;
    if rows == 0 {
        0
    } else if v > (rows - 1) as u64 {
        rows - 1
    } else {
        v as u32
    }
}

/// The slot under the pointer, as its line and its place in the line.
pub fn beam_probe(x: u32, y: u32, cols: u32, nominal: u32, rows: u32) -> (r: (u32, u64))
    ensures
        r.0 == probed_row(y as int, nominal as int, rows as int),
        r.1 == probed_col(x as int, cols as int),
{
    proof {
        lemma_product(x as int, cols as int);
    }
    (probe_row(y, nominal, rows), x as u64 * cols as u64 / 1024)
}

/// A pointer held still reads one line while the fields alternate, as far as
/// the captured field has it, and always reads a captured line.
pub proof fn lemma_fields_share_their_lines(y: int, long: int, short: int)
    requires
        0 < short <= long,
        0 <= y,
    ensures
        layout_rows(long, short) == layout_rows(long, long),
        0 <= probed_row(y, long, short) < short,
        probed_row(y, long, long) < short ==> probed_row(y, long, short) == probed_row(
            y,
            long,
            long,
        ),
{
    assert(0 <= y * long) by (nonlinear_arith)
        requires
            0 <= y,
            0 < long,
    ;
}

/// The side of the heat map, in cells.
pub const GRID: u32 = 256;

/// The cell of the heat map under a place of it, in 1024ths.
pub open spec fn heat_cell(x: int, y: int) -> int {
    (y / 4) * GRID + x / 4
}

pub fn heat_cell_at(x: u32, y: u32) -> (r: u32)
    requires
        x < 1024,
        y < 1024,
    ensures
        r == heat_cell(x as int, y as int),
        r < 65536,
{
    (y / 4) * GRID + x / 4
}

/// Where the block of memory that a cell stands for begins.
pub open spec fn cell_address(base: int, bytes: int, cell: int) -> int {
    (base + cell * bytes) % 0x1_0000_0000
}

pub fn heat_cell_address(base: u32, bytes_per_cell: u32, cell: u32) -> (r: u32)
    ensures
        r == cell_address(base as int, bytes_per_cell as int, cell as int),
{
    proof {
        lemma_product(cell as int, bytes_per_cell as int);
    }
    let sum: u128 = base as u128 + cell as u128 * bytes_per_cell as u128;
    (sum % 0x1_0000_0000) as u32
}

/// Every cell of the map stands for bytes of its own: the blocks of two cells
/// do not overlap, where the map stays inside the address space.
pub proof fn lemma_cells_are_apart(base: int, bytes: int, a: int, b: int)
    requires
        0 <= base,
        0 < bytes,
        0 <= a < b < 65536,
        base + 65536 * bytes <= 0x1_0000_0000,
    ensures
        cell_address(base, bytes, a) + bytes <= cell_address(base, bytes, b),
{
    assert(0 <= a * bytes && (a + 1) * bytes <= b * bytes && (b + 1) * bytes <= 65536 * bytes)
        by (nonlinear_arith)
        requires
            0 < bytes,
            0 <= a < b < 65536,
    ;
    assert((a + 1) * bytes == a * bytes + bytes) by (nonlinear_arith);
    assert((b + 1) * bytes == b * bytes + bytes) by (nonlinear_arith);
}

/// The counts of a table added up, and one at least, so that a share of it
/// can be taken.
pub open spec fn total(counts: Seq<u64>) -> int
    decreases counts.len(),
{
    if counts.len() == 0 {
        0
    } else {
        total(counts.drop_last()) + counts.last()
    }
}

pub fn counter_total(counts: &Vec<u64>) -> (r: u128)
    requires
        counts@.len() <= 0xFFFF_FFFF,
    ensures
        r == (if total(counts@) == 0 {
            1
        } else {
            total(counts@)
        }),
{
    let mut sum: u128 = 0;
    let mut i: usize = 0;
    assert(counts@.take(0) =~= Seq::empty());
    while i < counts.len()
        invariant
            i <= counts@.len() <= 0xFFFF_FFFF,
            sum == total(counts@.take(i as int)),
            sum <= i * 0xFFFF_FFFF_FFFF_FFFF,
        decreases counts@.len() - i,
    {
        assert(counts@.take(i + 1).drop_last() =~= counts@.take(i as int));
        assert(i * 0xFFFF_FFFF_FFFF_FFFF <= 0xFFFF_FFFF * 0xFFFF_FFFF_FFFF_FFFF);
        sum = sum + counts[i] as u128;
        i += 1;
    }
    assert(counts@.take(i as int) =~= counts@);
    if sum == 0 {
        1
    } else {
        sum
    }
}

/// The letters of what the processor can wait for, in the order of the table.
pub open spec fn wait_codes() -> Seq<u8> {
    seq![0x52u8, 0x42u8, 0x53u8, 0x44u8, 0x41u8, 0x43u8, 0x4Cu8, 0x4Eu8, 0x70u8]
}

/// A slot in which the processor did not wait.
pub const NO_WAIT: u8 = 0x2E;

pub open spec fn occurrences(row: Seq<u8>, code: u8) -> int
    decreases row.len(),
{
    if row.len() == 0 {
        0
    } else {
        occurrences(row.drop_last(), code) + (if row.last() == code {
            1int
        } else {
            0
        })
    }
}

pub open spec fn waits(row: Seq<u8>) -> int
    decreases row.len(),
{
    if row.len() == 0 {
        0
    } else {
        waits(row.drop_last()) + (if row.last() != NO_WAIT {
            1int
        } else {
            0
        })
    }
}

/// The reason at `k` is the one that a line's waits are drawn in: none has
/// more of the line, and none after it has as much.
pub open spec fn is_dominant(row: Seq<u8>, k: int) -> bool {
    &&& 0 <= k < wait_codes().len()
    &&& forall|j: int|
        0 <= j < wait_codes().len() ==> {
            &&& occurrences(row, #[trigger] wait_codes()[j]) <= occurrences(row, wait_codes()[k])
            &&& j > k ==> occurrences(row, wait_codes()[j]) < occurrences(row, wait_codes()[k])
        }
}

fn count_of(row: &Vec<u8>, code: u8) -> (r: usize)
    ensures
        r == occurrences(row@, code),
{
    let mut n: usize = 0;
    let mut i: usize = 0;
    assert(row@.take(0) =~= Seq::empty());
    while i < row.len()
        invariant
            i <= row@.len(),
            n <= i,
            n == occurrences(row@.take(i as int), code),
        decreases row@.len() - i,
    {
        assert(row@.take(i + 1).drop_last() =~= row@.take(i as int));
        if row[i] == code {
            n = n + 1;
        }
        i += 1;
    }
    assert(row@.take(i as int) =~= row@);
    n
}

fn count_waits(row: &Vec<u8>) -> (r: usize)
    ensures
        r == waits(row@),
{
    let mut n: usize = 0;
    let mut i: usize = 0;
    assert(row@.take(0) =~= Seq::empty());
    while i < row.len()
        invariant
            i <= row@.len(),
            n <= i,
            n == waits(row@.take(i as int)),
        decreases row@.len() - i,
    {
        assert(row@.take(i + 1).drop_last() =~= row@.take(i as int));
        if row[i] != NO_WAIT {
            n = n + 1;
        }
        i += 1;
    }
    assert(row@.take(i as int) =~= row@);
    n
}

/// The bar beside a captured line: in how many of its slots the processor
/// waited, and what for most of all. A line without waits has none.
pub fn wait_bar(row: &Vec<u8>) -> (r: Option<(usize, u8)>)
    ensures
        r is Some == (waits(row@) > 0),
        r matches Some((n, code)) ==> {
            &&& n == waits(row@)
            &&& exists|k: int| #[trigger] is_dominant(row@, k) && code == wait_codes()[k]
        },
{
    let n: usize = count_waits(row);
    if n == 0 {
        return None;
    }
    let codes: [u8; 9] = [0x52, 0x42, 0x53, 0x44, 0x41, 0x43, 0x4C, 0x4E, 0x70];
    assert(codes@ =~= wait_codes());
    let mut best: usize = 0;
    let mut most: usize = count_of(row, codes[0]);
    let mut i: usize = 1;
    while i < 9
        invariant
            1 <= i <= 9,
            best < i,
            codes@ == wait_codes(),
            most == occurrences(row@, wait_codes()[best as int]),
            forall|j: int|
                0 <= j < i ==> {
                    &&& occurrences(row@, #[trigger] wait_codes()[j]) <= most
                    &&& j > best ==> occurrences(row@, wait_codes()[j]) < most
                },
        decreases 9 - i,
    {
        let here: usize = count_of(row, codes[i]);
        if here >= most {
            best = i;
            most = here;
        }
        i += 1;
    }
    assert(is_dominant(row@, best as int));
    Some((n, codes[best]))
}

/// What was recorded in a slot of the bus.
#[derive(Clone, Copy, PartialEq, Eq, Structural, Debug)]
pub struct BusRecord {
    pub reg: u16,
    pub addr: u32,
    pub data: u64,
    /// The bytes that were moved.
    pub size: u8,
    pub kind: u8,
    pub ipl: u8,
    /// The access was the copper's.
    pub copper: bool,
    pub flags: u8,
    pub subtype: u8,
}

impl BusRecord {
    /// Where the copper's instruction begins: a slot may be its second word.
    pub open spec fn instruction(self) -> u32 {
        if self.flags & 1 != 0 || self.subtype != 0 {
            if self.addr >= 2 {
                (self.addr - 2) as u32
            } else {
                0
            }
        } else {
            self.addr
        }
    }

    pub fn instruction_address(&self) -> (r: u32)
        ensures
            r == self.instruction(),
    {
        if self.flags & 1 != 0 || self.subtype != 0 {
            if self.addr >= 2 {
                self.addr - 2
            } else {
                0
            }
        } else {
            self.addr
        }
    }
}

} // verus!
