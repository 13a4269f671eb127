//! What the debugger's pages show of the machine: the registers, the picture's
//! layers, the sound's channels, and memory as bits or as cells to edit.

use vstd::prelude::*;

use crate::actions::Action;
use crate::app::DebuggerPanel;
use crate::command::bare;
use crate::command::hex32_of;
use crate::command::reg_of;
use crate::controls::UiControl;
use crate::controls::register_edit;
use crate::machine::Machine;
use crate::machine::REG_PC;
use crate::machine::REG_SR;
use crate::machine::REGISTERS;
use crate::memedit::MemColumn;
use crate::memedit::MemEdit;
use crate::memedit::MemPage;
use crate::memedit::cell;
use crate::memedit::cell_text;
use crate::memedit::staged_value;
use crate::number::all_digits;
use crate::number::dec;
use crate::number::digits_of;
use crate::number::digits_value;
use crate::number::fill;
use crate::number::hex;
use crate::number::lemma_digits_of;
use crate::number::number;
use crate::number::put_dec;
use crate::number::put_hex;
use crate::number::unsigned_part;
use crate::saves::opt_view;
use crate::sheets::Piece;
use crate::sheets::Sheet;
use crate::text::is_space;
use crate::text::put;
use crate::text::split_state;
use crate::text::upper;
use crate::text::words;

verus! {

/// A row of the register table, with what "Edit" puts in the entry.
#[derive(PartialEq, Eq, Debug)]
pub struct RegisterRow {
    pub name: String,
    pub value: String,
    pub entry: String,
}

/// The table's rows: the program counter, the status register, the data
/// registers and the address registers.
pub open spec fn row_name(i: int) -> Seq<char> {
    if i == 0 {
        "PC"@
    } else if i == 1 {
        "SR"@
    } else if i < 10 {
        "D"@ + dec(i - 2)
    } else {
        "A"@ + dec(i - 10)
    }
}

/// The number of the register in a row.
pub open spec fn row_register(i: int) -> int {
    if i == 0 {
        REG_PC as int
    } else if i == 1 {
        REG_SR as int
    } else {
        i - 2
    }
}

pub open spec fn row_value(m: &Machine, i: int) -> int {
    if i == 1 {
        m.regs@[REG_SR as int] as int % 0x1_0000
    } else {
        m.regs@[row_register(i)] as int
    }
}

pub open spec fn row_entry(m: &Machine, i: int) -> Seq<char> {
    row_name(i) + " "@ + hex(row_value(m, i), 8)
}

pub open spec fn is_row(m: &Machine, r: RegisterRow, i: int) -> bool {
    &&& r.name@ == row_name(i)
    &&& r.value@ == hex(row_value(m, i), 8)
    &&& r.entry@ == row_entry(m, i)
}

fn name_of(i: usize) -> (r: String)
    requires
        i < REGISTERS,
    ensures
        r@ == row_name(i as int),
{
    if i == 0 {
        return "PC".to_owned();
    }
    if i == 1 {
        return "SR".to_owned();
    }
    if i < 10 {
        let mut name = "D".to_owned();
        put_dec(&mut name, (i - 2) as u64);
        name
    } else {
        let mut name = "A".to_owned();
        put_dec(&mut name, (i - 10) as u64);
        name
    }
}

fn register_row(m: &Machine, i: usize) -> (r: RegisterRow)
    requires
        m.wf(),
        i < REGISTERS,
    ensures
        is_row(m, r, i as int),
{
    let name = name_of(i);
    let at: usize = if i == 0 {
        REG_PC
    } else if i == 1 {
        REG_SR
    } else {
        i - 2
    };
    let whole: u32 = m.regs[at];
    let shown: u32 = if i == 1 {
        whole % 0x1_0000
    } else {
        whole
    };
    let mut value = String::new();
    put_hex(&mut value, shown as u64, 8);
    assert(value@ =~= hex(shown as int, 8));
    let mut entry = String::new();
    put(&mut entry, name.as_str());
    put(&mut entry, " ");
    put_hex(&mut entry, shown as u64, 8);
    assert(entry@ =~= row_entry(m, i as int));
    RegisterRow { name, value, entry }
}

/// The register table of the CPU's page.
pub fn cpu(m: &Machine) -> (r: Vec<RegisterRow>)
    requires
        m.wf(),
    ensures
        r@.len() == REGISTERS,
        forall|i: int| 0 <= i < REGISTERS ==> is_row(m, #[trigger] r@[i], i),
{
    let mut rows: Vec<RegisterRow> = Vec::new();
    let mut i: usize = 0;
    while i < REGISTERS
        invariant
            m.wf(),
            i <= REGISTERS,
            rows@.len() == i,
            forall|k: int| 0 <= k < i ==> is_row(m, #[trigger] rows@[k], k),
        decreases REGISTERS - i,
    {
        rows.push(register_row(m, i));
        i += 1;
    }
    rows
}

/// The program counters that were retired last, as they are listed.
pub open spec fn recent_pieces(history: Seq<u32>) -> Seq<Piece<Seq<char>>> {
    Seq::new(history.len(), |i: int| Piece::Text(hex(history[i] as int, 8)))
}

/// What stands under the register table.
pub open spec fn cpu_note_pieces(m: &Machine, history: Seq<u32>) -> Seq<Piece<Seq<char>>> {
    seq![Piece::Text(m.sr_text@)] + (if m.stopped {
        seq![Piece::Note("CPU stopped"@)]
    } else {
        Seq::empty()
    }) + seq![Piece::Text("Recent PCs"@)] + recent_pieces(history)
}

pub fn cpu_notes(m: &Machine, history: &Vec<u32>) -> (s: Sheet)
    ensures
        s@ == cpu_note_pieces(m, history@),
{
    let mut s = Sheet::new();
    s.text(m.sr_text.as_str());
    if m.stopped {
        s.note("CPU stopped");
    }
    s.text("Recent PCs");
    let ghost head = s@;
    let mut i: usize = 0;
    assert(s@ =~= head + recent_pieces(history@).take(0));
    while i < history.len()
        invariant
            i <= history@.len(),
            s@ == head + recent_pieces(history@).take(i as int),
        decreases history@.len() - i,
    {
        let mut line = String::new();
        put_hex(&mut line, history[i] as u64, 8);
        assert(line@ =~= hex(history@[i as int] as int, 8));
        s.line(line);
        assert(s@ =~= head + recent_pieces(history@).take(i + 1));
        i += 1;
    }
    assert(recent_pieces(history@).take(i as int) =~= recent_pieces(history@));
    assert(s@ =~= cpu_note_pieces(m, history@));
    s
}

/// What stands over the disassembly: where it is pinned to an address, a way
/// back to the program counter.
pub open spec fn disassembly_pieces(pinned: bool) -> Seq<Piece<Seq<char>>> {
    seq![Piece::Text("Disassembly"@)] + (if pinned {
        seq![Piece::Button { label: "Follow PC"@, action: Action::FollowPc, enabled: true }]
    } else {
        Seq::empty()
    })
}

pub fn disassembly_head(p: &DebuggerPanel) -> (s: Sheet)
    ensures
        s@ == disassembly_pieces(p.disasm_addr is Some),
{
    let mut s = Sheet::new();
    s.text("Disassembly");
    if p.disasm_addr.is_some() {
        s.button("Follow PC", Action::FollowPc, true);
    }
    assert(s@ =~= disassembly_pieces(p.disasm_addr is Some));
    s
}

pub open spec fn page_scroll(down: bool) -> Action {
    Action::MemoryScroll(
        if down {
            16i32
        } else {
            (-16) as i32
        },
    )
}

/// What stands over the memory of the CPU's page.
pub open spec fn cpu_memory_pieces() -> Seq<Piece<Seq<char>>> {
    seq![
        Piece::Text("Memory"@),
        Piece::Address,
        Piece::Button { label: "Previous page"@, action: page_scroll(false), enabled: true },
        Piece::Button { label: "Next page"@, action: page_scroll(true), enabled: true },
    ]
}

pub fn cpu_memory_head() -> (s: Sheet)
    ensures
        s@ == cpu_memory_pieces(),
{
    let mut s = Sheet::new();
    s.text("Memory");
    s.push(Piece::Address);
    s.button("Previous page", Action::MemoryScroll(-16), true);
    s.button("Next page", Action::MemoryScroll(16), true);
    assert(s@ =~= cpu_memory_pieces());
    s
}

/// What stands over the dump: the page's own hint, if it has one, and how
/// bytes are edited.
pub open spec fn dump_note_pieces(hint: Option<Seq<char>>) -> Seq<Piece<Seq<char>>> {
    (match hint {
        Some(t) => seq![Piece::Text(t)],
        None => Seq::empty(),
    }) + seq![
        Piece::Text(
            "click a byte to edit: hex digits or ASCII text overwrite it, arrows move, Enter commits, Esc cancels"@,
        ),
    ]
}

pub fn dump_notes(hint: Option<&str>) -> (s: Sheet)
    ensures
        s@ == dump_note_pieces(opt_view(hint)),
{
    let mut s = Sheet::new();
    match hint {
        Some(t) => s.text(t),
        None => {},
    }
    s.text(
        "click a byte to edit: hex digits or ASCII text overwrite it, arrows move, Enter commits, Esc cancels",
    );
    assert(s@ =~= dump_note_pieces(opt_view(hint)));
    s
}

proof fn lemma_run(s: Seq<char>, t: Seq<char>)
    requires
        forall|i: int| 0 <= i < t.len() ==> !is_space(#[trigger] t[i]),
    ensures
        split_state(s + t) == (split_state(s).0, split_state(s).1 + t),
    decreases t.len(),
{
    if t.len() == 0 {
        assert(s + t =~= s);
        assert(split_state(s).1 + t =~= split_state(s).1);
    } else {
        lemma_run(s, t.drop_last());
        assert((s + t).drop_last() =~= s + t.drop_last());
        assert(split_state(s).1 + t =~= (split_state(s).1 + t.drop_last()).push(t.last()));
    }
}

proof fn lemma_two_words(a: Seq<char>, b: Seq<char>)
    requires
        a.len() > 0,
        b.len() > 0,
        forall|i: int| 0 <= i < a.len() ==> !is_space(#[trigger] a[i]),
        forall|i: int| 0 <= i < b.len() ==> !is_space(#[trigger] b[i]),
    ensures
        words(a + seq![' '] + b) == seq![a, b],
{
    lemma_run(Seq::empty(), a);
    assert(Seq::<char>::empty() + a =~= a);
    assert(split_state(a).0 =~= Seq::empty());
    assert(split_state(a).1 =~= a);
    let spaced = a + seq![' '];
    assert(spaced.drop_last() =~= a);
    assert(is_space(' '));
    assert(split_state(spaced).0 =~= seq![a]);
    assert(split_state(spaced).1 =~= Seq::empty());
    lemma_run(spaced, b);
    assert(split_state(spaced).1 + b =~= b);
    assert(words(spaced + b) =~= seq![a, b]);
}

proof fn lemma_leading_zeros(n: nat, s: Seq<char>)
    ensures
        digits_value(fill('0', n as int) + s, 16) == digits_value(s, 16),
    decreases s.len(), n,
{
    let z = fill('0', n as int);
    if s.len() > 0 {
        lemma_leading_zeros(n, s.drop_last());
        assert((z + s).drop_last() =~= z + s.drop_last());
    } else if n > 0 {
        lemma_leading_zeros((n - 1) as nat, s);
        assert((z + s).drop_last() =~= fill('0', n - 1) + s);
    } else {
        assert(z + s =~= s);
    }
}

proof fn lemma_hex_reads_back(v: u32)
    ensures
        hex32_of(hex(v as int, 8)) == Some(v),
        hex(v as int, 8).len() > 0,
        forall|i: int| 0 <= i < hex(v as int, 8).len() ==> !is_space(#[trigger] hex(v as int, 8)[i]),
{
    let d = digits_of(v as nat, 16);
    lemma_digits_of(v as nat, 16);
    let n: nat = if d.len() < 8 {
        (8 - d.len()) as nat
    } else {
        0
    };
    let h = hex(v as int, 8);
    assert(h =~= fill('0', n as int) + d);
    lemma_leading_zeros(n, d);
    assert forall|i: int| 0 <= i < h.len() implies #[trigger] digit_at(h, i) by {
        if i >= n {
            assert(h[i] == d[i - n]);
        }
    }
    assert forall|i: int| 0 <= i < h.len() implies crate::number::digit(#[trigger] h[i]) < 16
        && !is_space(h[i]) by {
        assert(digit_at(h, i));
    }
    assert(all_digits(h, 16));
    assert(digit_at(h, 0));
    assert(h[0] != '+' && h[0] != '$');
    assert(unsigned_part(h) =~= h);
    assert(bare(h) =~= h);
}

spec fn digit_at(s: Seq<char>, i: int) -> bool {
    crate::number::digit(s[i]) < 16
}

proof fn lemma_name_reads_back(i: int)
    requires
        0 <= i < REGISTERS,
    ensures
        reg_of(row_name(i)) == Some(row_register(i) as u8),
        row_name(i).len() > 0,
        forall|k: int| 0 <= k < row_name(i).len() ==> !is_space(#[trigger] row_name(i)[k]),
{
    reveal_strlit("PC");
    reveal_strlit("SR");
    reveal_strlit("SP");
    reveal_strlit("D");
    reveal_strlit("A");
    let name = row_name(i);
    if i < 2 {
        assert(upper(name) =~= name);
    } else {
        let n: nat = if i < 10 {
            (i - 2) as nat
        } else {
            (i - 10) as nat
        };
        lemma_digits_of(n, 10);
        assert(digits_of(n, 10) == seq![crate::number::digit_char(n)]);
        let digits = seq![crate::number::digit_char(n)];
        assert(name.len() == 2);
        assert(name[1] == crate::number::digit_char(n));
        assert(upper(name) =~= name);
        assert(name.skip(1) =~= digits);
        assert(unsigned_part(digits) =~= digits);
        assert(number(digits, 10, 7) == Some(n));
    }
}

/// Preparing an edit and applying it as it stands changes nothing: the entry
/// that a row puts up names its register and the value that it has.
pub proof fn lemma_prepared_edit_is_neutral(m: &Machine, i: int)
    requires
        m.wf(),
        0 <= i < REGISTERS,
    ensures
        register_edit(row_entry(m, i)) == Some((row_register(i) as u8, row_value(m, i) as u32)),
{
    let v = row_value(m, i) as u32;
    lemma_name_reads_back(i);
    lemma_hex_reads_back(v);
    reveal_strlit(" ");
    assert(" "@ =~= seq![' ']);
    lemma_two_words(row_name(i), hex(v as int, 8));
}

/// The ticks of the layers that a picture is put together from.
pub open spec fn plane_pieces(mask: u8, planes: u8) -> Seq<Piece<Seq<char>>> {
    seq![Piece::Text("Bitplanes"@)] + Seq::new(
        8,
        |i: int|
            Piece::Tick {
                label: dec(i + 1),
                on: mask & (1u8 << (i as u8)) != 0,
                action: Action::Control(UiControl::DebugPlaneToggle(i as u8)),
                enabled: i < planes,
            },
    )
}

pub open spec fn sprite_pieces(mask: u8) -> Seq<Piece<Seq<char>>> {
    seq![Piece::Text("Sprites"@)] + Seq::new(
        8,
        |i: int|
            Piece::Tick {
                label: dec(i),
                on: mask & (1u8 << (i as u8)) != 0,
                action: Action::Control(UiControl::DebugSpriteToggle(i as u8)),
                enabled: true,
            },
    )
}

/// The ticks of the planes, of which the picture has some, and of the
/// sprites.
pub fn video(plane_mask: u8, planes: u8, sprite_mask: u8) -> (r: (Sheet, Sheet))
    ensures
        r.0@ == plane_pieces(plane_mask, planes),
        r.1@ == sprite_pieces(sprite_mask),
{
    let mut p = Sheet::new();
    let mut s = Sheet::new();
    p.text("Bitplanes");
    s.text("Sprites");
    let mut i: u8 = 0;
    assert(p@ =~= plane_pieces(plane_mask, planes).take(1));
    assert(s@ =~= sprite_pieces(sprite_mask).take(1));
    while i < 8
        invariant
            i <= 8,
            p@ == plane_pieces(plane_mask, planes).take(i + 1),
            s@ == sprite_pieces(sprite_mask).take(i + 1),
        decreases 8 - i,
    {
        let mut label = String::new();
        put_dec(&mut label, i as u64 + 1);
        assert(label@ =~= dec(i + 1));
        p.push(
            Piece::Tick {
                label,
                on: plane_mask & (1u8 << i) != 0,
                action: Action::Control(UiControl::DebugPlaneToggle(i)),
                enabled: i < planes,
            },
        );
        let mut label = String::new();
        put_dec(&mut label, i as u64);
        assert(label@ =~= dec(i as int));
        s.push(
            Piece::Tick {
                label,
                on: sprite_mask & (1u8 << i) != 0,
                action: Action::Control(UiControl::DebugSpriteToggle(i)),
                enabled: true,
            },
        );
        assert(p@ =~= plane_pieces(plane_mask, planes).take(i + 2));
        assert(s@ =~= sprite_pieces(sprite_mask).take(i + 2));
        i += 1;
    }
    assert(p@ =~= plane_pieces(plane_mask, planes));
    assert(s@ =~= sprite_pieces(sprite_mask));
    (p, s)
}

/// A part of a colour as it is painted with an opacity: that share of it, to
/// the nearest.
pub open spec fn weakened(part: int, alpha: int) -> int {
    (2 * part * alpha + 255) / 510
}

/// `Color32::from_rgba_unmultiplied` of `egui`, with the red, green and blue
/// of the colour that it makes: its source multiplies each part by the
/// opacity over 255, rounding to the nearest.
#[verifier::external_body]
fn painted(red: u8, green: u8, blue: u8, alpha: u8) -> (c: (u8, u8, u8))
    ensures
        c.0 == weakened(red as int, alpha as int),
        c.1 == weakened(green as int, alpha as int),
        c.2 == weakened(blue as int, alpha as int),
{
    let c = egui::Color32::from_rgba_unmultiplied(red, green, blue, alpha);
    (c.r(), c.g(), c.b())
}

/// What a colour of the palette is called: its number, and its red, green and
/// blue as they are painted. The colour's bytes are red, green, blue and
/// opacity, the first of them lowest.
pub open spec fn colour_name(index: int, rgba: int) -> Seq<char> {
    let alpha = rgba / 0x100_0000;
    dec(index) + ": #"@ + hex(weakened(rgba % 256, alpha), 2) + hex(
        weakened(rgba / 256 % 256, alpha),
        2,
    ) + hex(weakened(rgba / 65536 % 256, alpha), 2)
}

pub fn colour_hint(index: u64, rgba: u32) -> (r: String)
    ensures
        r@ == colour_name(index as int, rgba as int),
{
    let (red, green, blue): (u8, u8, u8) = painted(
        (rgba % 256) as u8,
        (rgba / 256 % 256) as u8,
        (rgba / 65536 % 256) as u8,
        (rgba / 0x100_0000) as u8,
    );
    let mut r = String::new();
    put_dec(&mut r, index);
    put(&mut r, ": #");
    put_hex(&mut r, red as u64, 2);
    put_hex(&mut r, green as u64, 2);
    put_hex(&mut r, blue as u64, 2);
    assert(r@ =~= colour_name(index as int, rgba as int));
    r
}

/// An opaque colour is called by its own bytes.
pub proof fn lemma_opaque_colours_show_their_bytes(index: int, rgba: u32)
    requires
        rgba >= 0xFF00_0000,
    ensures
        colour_name(index, rgba as int) == dec(index) + ": #"@ + hex(rgba as int % 256, 2) + hex(
            rgba as int / 256 % 256,
            2,
        ) + hex(rgba as int / 65536 % 256, 2),
{
    assert(rgba as int / 0x100_0000 == 255);
    assert forall|part: int| 0 <= part < 256 implies #[trigger] weakened(part, 255) == part by {
        assert(2 * part * 255 == 510 * part);
    }
}

/// The rows of the sound page, each with its tick: the four channels and then
/// the sources that are mixed in.
pub open spec fn mute_pieces(muted: Seq<bool>) -> Seq<Piece<Seq<char>>> {
    Seq::new(
        muted.len(),
        |i: int|
            Piece::Tick {
                label: "Mute"@,
                on: muted[i],
                action: Action::Control(UiControl::DebugAudioMute(i as u8)),
                enabled: true,
            },
    )
}

pub fn audio(muted: &Vec<bool>) -> (s: Sheet)
    ensures
        s@ == mute_pieces(muted@),
{
    let mut s = Sheet::new();
    let mut i: usize = 0;
    assert(s@ =~= mute_pieces(muted@).take(0));
    while i < muted.len()
        invariant
            i <= muted@.len(),
            s@ == mute_pieces(muted@).take(i as int),
        decreases muted@.len() - i,
    {
        s.push(
            Piece::Tick {
                label: "Mute".to_owned(),
                on: muted[i],
                action: Action::Control(UiControl::DebugAudioMute(i as u8)),
                enabled: true,
            },
        );
        assert(s@ =~= mute_pieces(muted@).take(i + 1));
        i += 1;
    }
    assert(s@ =~= mute_pieces(muted@));
    s
}

/// The dot of a picture of memory: each byte is eight dots, its highest bit
/// the leftmost.
pub open spec fn dot(data: Seq<u8>, k: int) -> bool {
    data[k / 8] & (0x80u8 >> ((k % 8) as u8)) != 0
}

/// Memory as a picture of one bit per dot.
pub fn bitmap_dots(data: &Vec<u8>) -> (r: Vec<bool>)
    requires
        data@.len() <= 0x1000_0000,
    ensures
        r@.len() == 8 * data@.len(),
        forall|k: int| 0 <= k < r@.len() ==> #[trigger] r@[k] == dot(data@, k),
{
    let mut r: Vec<bool> = Vec::new();
    let mut i: usize = 0;
    while i < data.len()
        invariant
            i <= data@.len() <= 0x1000_0000,
            r@.len() == 8 * i,
            forall|k: int| 0 <= k < r@.len() ==> #[trigger] r@[k] == dot(data@, k),
        decreases data@.len() - i,
    {
        let mut bit: u8 = 0;
        while bit < 8
            invariant
                i < data@.len(),
                bit <= 8,
                r@.len() == 8 * i + bit,
                forall|k: int| 0 <= k < r@.len() ==> #[trigger] r@[k] == dot(data@, k),
            decreases 8 - bit,
        {
            r.push(data[i] & (0x80u8 >> bit) != 0);
            assert((8 * i + bit) / 8 == i && (8 * i + bit) % 8 == bit);
            bit += 1;
        }
        i += 1;
    }
    r
}

/// How a byte of the dump is drawn.
#[derive(Clone, Copy, PartialEq, Eq, Structural, Debug)]
pub enum CellLook {
    /// It is the one being edited.
    Selected,
    /// It has been typed over and not written yet.
    Staged,
    ReadOnly,
    Plain,
}

#[derive(PartialEq, Eq, Debug)]
pub struct GridCell {
    pub addr: u32,
    pub text: String,
    pub look: CellLook,
}

/// The address of a row of the dump.
pub open spec fn grid_row_addr(page: &MemPage, row: int) -> u32 {
    ((page.base + row * 16) % 0x1_0000_0000) as u32 & page.mask
}

pub open spec fn grid_addr(page: &MemPage, row: int, i: int) -> u32 {
    ((grid_row_addr(page, row) + i) % 0x1_0000_0000) as u32 & page.mask
}

pub open spec fn byte_of(page: &MemPage, at: int) -> u8 {
    if at < page.bytes@.len() {
        page.bytes@[at]
    } else {
        0
    }
}

pub open spec fn open_to_edits(writable: Seq<bool>, at: int) -> bool {
    at < writable.len() && writable[at]
}

/// What a cell shows: the byte that was typed, or else the one in memory.
pub open spec fn is_cell(
    c: GridCell,
    edit: &MemEdit,
    page: &MemPage,
    writable: Seq<bool>,
    row: int,
    column: MemColumn,
    i: int,
) -> bool {
    let addr = grid_addr(page, row, i);
    let typed = staged_value(edit.pending@, addr);
    &&& c.addr == addr
    &&& c.text@ == cell(
        match typed {
            Some(v) => v,
            None => byte_of(page, row * 16 + i),
        },
        column,
    )
    &&& c.look == (if edit.cursor matches Some(k) && k.addr == addr && k.column == column {
        CellLook::Selected
    } else if typed is Some {
        CellLook::Staged
    } else if !open_to_edits(writable, row * 16 + i) {
        CellLook::ReadOnly
    } else {
        CellLook::Plain
    })
}

fn grid_cell(
    edit: &MemEdit,
    page: &MemPage,
    writable: &Vec<bool>,
    row: usize,
    column: MemColumn,
    i: usize,
) -> (c: GridCell)
    requires
        row < 16,
        i < 16,
    ensures
        is_cell(c, edit, page, writable@, row as int, column, i as int),
{
    let start: u32 = page.base.wrapping_add(row as u32 * 16) & page.mask;
    let addr: u32 = start.wrapping_add(i as u32) & page.mask;
    assert(addr == grid_addr(page, row as int, i as int));
    let at: usize = row * 16 + i;
    let actual: u8 = if at < page.bytes.len() {
        page.bytes[at]
    } else {
        0
    };
    let typed: Option<u8> = edit.mem_pending_value(addr);
    let value: u8 = match typed {
        Some(v) => v,
        None => actual,
    };
    let selected: bool = match edit.cursor {
        Some(k) => k.addr == addr && k.column == column,
        None => false,
    };
    let free: bool = at < writable.len() && writable[at];
    let look: CellLook = if selected {
        CellLook::Selected
    } else if typed.is_some() {
        CellLook::Staged
    } else if !free {
        CellLook::ReadOnly
    } else {
        CellLook::Plain
    };
    GridCell { addr, text: cell_text(value, column), look }
}

/// One row of the dump in one of its columns.
pub fn memory_grid(
    edit: &MemEdit,
    page: &MemPage,
    writable: &Vec<bool>,
    row: usize,
    column: MemColumn,
) -> (r: Vec<GridCell>)
    requires
        row < 16,
    ensures
        r@.len() == 16,
        forall|i: int|
            0 <= i < 16 ==> is_cell(
                #[trigger] r@[i],
                edit,
                page,
                writable@,
                row as int,
                column,
                i,
            ),
{
    let mut r: Vec<GridCell> = Vec::new();
    let mut i: usize = 0;
    while i < 16
        invariant
            row < 16,
            i <= 16,
            r@.len() == i,
            forall|k: int|
                0 <= k < i ==> is_cell(
                    #[trigger] r@[k],
                    edit,
                    page,
                    writable@,
                    row as int,
                    column,
                    k,
                ),
        decreases 16 - i,
    {
        r.push(grid_cell(edit, page, writable, row, column, i));
        i += 1;
    }
    r
}

/// What stands before a row of the dump.
pub fn grid_label(page: &MemPage, row: usize) -> (r: String)
    requires
        row < 16,
    ensures
        r@ == hex(grid_row_addr(page, row as int) as int, 6) + ": "@,
{
    let start: u32 = page.base.wrapping_add(row as u32 * 16) & page.mask;
    let mut r = String::new();
    put_hex(&mut r, start as u64, 6);
    put(&mut r, ": ");
    assert(r@ =~= hex(grid_row_addr(page, row as int) as int, 6) + ": "@);
    r
}

} // verus!
