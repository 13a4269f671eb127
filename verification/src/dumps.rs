//! The console's longer listings: the call stack, memory, disassembly, the
//! Copper list, blits, and what the guest's operating system keeps.

use vstd::prelude::*;

use crate::lexicon::Lexicon;
use crate::machine::Blit;
use crate::machine::BusTrace;
use crate::machine::Copper;
use crate::machine::Machine;
use crate::machine::REG_PC;
use crate::machine::REG_SP;
use crate::memory::Memory;
use crate::number::dec;
use crate::number::fill;
use crate::number::hex;
use crate::number::padded;
use crate::number::put_dec;
use crate::number::put_fill;
use crate::number::put_hex;
use crate::number::put_padded;
use crate::number::right_aligned;
use crate::report::no_lines;
use crate::report::one_line;
use crate::report::push_line;
use crate::report::push_text;
use crate::text::chars_of;
use crate::text::put;
use crate::text::string_of;
use crate::text::texts;
use crate::text::trim_end;
use crate::text::trim_tail;

verus! {

pub open spec fn before(addr: u32, n: int) -> u32 {
    ((addr - n) % 0x1_0000_0000) as u32
}

/// Whether an address could be one that a subroutine returns to: even, on the
/// bus, and right behind the encoding of a call. The short calls end two bytes
/// before it, those with a word of extension four, the long ones six.
#[verifier::opaque]
pub open spec fn returns_to(m: &Memory, addr: u32) -> bool {
    let w2 = m.word(before(addr, 2));
    let w4 = m.word(before(addr, 4));
    let w6 = m.word(before(addr, 6));
    &&& addr != 0 && addr % 2 == 0 && addr & m.mask == addr
    &&& {
        ||| 0x4E90 <= w2 <= 0x4E97
        ||| w2 / 256 == 0x61 && w2 % 256 != 0 && w2 % 256 != 0xFF
        ||| w4 == 0x6100 || w4 == 0x4EB8 || w4 == 0x4EBA || w4 == 0x4EBB
        ||| 0x4EA8 <= w4 <= 0x4EB7
        ||| w6 == 0x4EB9 || w6 == 0x61FF
    }
}

pub fn looks_like_return(m: &Memory, addr: u32) -> (r: bool)
    ensures
        r == returns_to(m, addr),
{
    proof {
        reveal(returns_to);
    }
    if addr == 0 || addr % 2 != 0 || addr & m.mask != addr {
        return false;
    }
    let w2: u16 = m.peek_word(addr.wrapping_sub(2));
    if (0x4E90 <= w2 && w2 <= 0x4E97) || (w2 / 256 == 0x61 && w2 % 256 != 0 && w2 % 256 != 0xFF) {
        return true;
    }
    let w4: u16 = m.peek_word(addr.wrapping_sub(4));
    if w4 == 0x6100 || w4 == 0x4EB8 || w4 == 0x4EBA || w4 == 0x4EBB || (0x4EA8 <= w4 && w4
        <= 0x4EB7) {
        return true;
    }
    let w6: u16 = m.peek_word(addr.wrapping_sub(6));
    w6 == 0x4EB9 || w6 == 0x61FF
}

/// Stack slots that a backtrace looks at, and frames that it shows.
pub const STACK_SLOTS: u32 = 64;

pub const STACK_FRAMES: usize = 8;

/// The longword in a stack slot, on the bus.
#[verifier::opaque]
pub open spec fn slot_value(m: &Memory, sp: u32, slot: int) -> u32 {
    m.long(((sp + slot * 4) % 0x1_0000_0000) as u32) & m.mask
}

/// The return addresses in the first `n` slots, with their offsets from the
/// stack pointer; no more than the frames that are shown.
pub open spec fn frames_in(m: &Memory, sp: u32, n: nat) -> Seq<(u32, u32)>
    decreases n,
{
    if n == 0 {
        Seq::empty()
    } else {
        let s = frames_in(m, sp, (n - 1) as nat);
        let value = slot_value(m, sp, n - 1);
        if s.len() < STACK_FRAMES && returns_to(m, value) {
            s.push((((n - 1) * 4) as u32, value))
        } else {
            s
        }
    }
}

fn slot_address(sp: u32, slot: u32) -> (r: u32)
    requires
        slot < STACK_SLOTS,
    ensures
        r == ((sp + slot * 4) % 0x1_0000_0000) as u32,
{
    sp.wrapping_add(slot * 4)
}

fn slot_at(m: &Memory, sp: u32, slot: u32) -> (r: u32)
    requires
        slot < STACK_SLOTS,
    ensures
        r == slot_value(m, sp, slot as int),
{
    let at: u32 = slot_address(sp, slot);
    let value: u32 = m.peek_long(at);
    proof {
        reveal(slot_value);
        assert(at == ((sp + slot * 4) % 0x1_0000_0000) as u32);
    }
    value & m.mask
}

/// Walks the stack for return addresses.
pub fn stack_frames(m: &Machine) -> (r: Vec<(u32, u32)>)
    requires
        m.wf(),
    ensures
        r@ == frames_in(&m.memory, m.regs@[REG_SP as int], STACK_SLOTS as nat),
{
    let sp: u32 = m.regs[REG_SP];
    let mut out: Vec<(u32, u32)> = Vec::new();
    let mut slot: u32 = 0;
    while slot < STACK_SLOTS
        invariant
            slot <= STACK_SLOTS,
            out@ == frames_in(&m.memory, sp, slot as nat),
        decreases STACK_SLOTS - slot,
    {
        if out.len() < STACK_FRAMES {
            let value: u32 = slot_at(&m.memory, sp, slot);
            if looks_like_return(&m.memory, value) {
                out.push((slot * 4, value));
            }
        }
        slot += 1;
    }
    out
}

/// Slot number `slot` of the stack, of the sixty-four that are looked at, holds
/// the even address `v`, which is not zero.
pub open spec fn in_stack_slot(m: &Machine, slot: int, v: u32) -> bool {
    &&& 0 <= slot < 64
    &&& v == m.memory.long(((m.regs@[15] + slot * 4) % 0x1_0000_0000) as u32) & m.memory.mask
    &&& v != 0 && v % 2 == 0
}

/// The address in this slot is among the frames, unless eight others were
/// found before it.
pub open spec fn listed_or_full(frames: Seq<(u32, u32)>, slot: int, v: u32) -> bool {
    frames.contains(((slot * 4) as u32, v)) || (frames.len() == 8 && forall|i: int|
        0 <= i < 8 ==> (#[trigger] frames[i]).0 < slot * 4)
}

proof fn lemma_mask_twice(x: u32, mask: u32)
    ensures
        x & mask & mask == x & mask,
{
    assert(x & mask & mask == x & mask) by (bit_vector);
}

/// The frames come from the slots in order, the nearest first: at most eight,
/// each at its slot's place, with what the slot holds.
proof fn lemma_frames_in_order(m: &Memory, sp: u32, n: nat)
    requires
        n <= 64,
    ensures
        frames_in(m, sp, n).len() <= 8,
        forall|i: int|
            0 <= i < frames_in(m, sp, n).len() ==> {
                let f = #[trigger] frames_in(m, sp, n)[i];
                &&& f.0 < n * 4
                &&& f.0 % 4 == 0
                &&& f.1 == slot_value(m, sp, f.0 as int / 4)
                &&& returns_to(m, f.1)
            },
        forall|i: int, j: int|
            0 <= i < j < frames_in(m, sp, n).len() ==> (#[trigger] frames_in(m, sp, n)[i]).0 < (
            #[trigger] frames_in(m, sp, n)[j]).0,
    decreases n,
{
    if n > 0 {
        lemma_frames_in_order(m, sp, (n - 1) as nat);
    }
}

proof fn lemma_frame_listed(m: &Memory, sp: u32, n: nat, slot: int)
    requires
        0 <= slot < n <= 64,
    ensures
        returns_to(m, slot_value(m, sp, slot)) ==> listed_or_full(
            frames_in(m, sp, n),
            slot,
            slot_value(m, sp, slot),
        ),
    decreases n,
{
    let s = frames_in(m, sp, (n - 1) as nat);
    let t = frames_in(m, sp, n);
    lemma_frames_in_order(m, sp, (n - 1) as nat);
    if returns_to(m, slot_value(m, sp, slot)) {
        if slot == n - 1 {
            if s.len() < 8 {
                assert(t[s.len() as int] == ((slot * 4) as u32, slot_value(m, sp, slot)));
            }
        } else {
            lemma_frame_listed(m, sp, (n - 1) as nat, slot);
            let f = ((slot * 4) as u32, slot_value(m, sp, slot));
            if s.contains(f) {
                let i = s.index_of(f);
                assert(t[i] == f);
            }
        }
    }
}

/// A return address behind a short BSR is listed: one whose displacement is
/// its own low byte.
pub proof fn lemma_short_branch_returns(m: &Machine, slot: int, v: u32)
    requires
        m.wf(),
        in_stack_slot(m, slot, v),
        0x6101 <= m.memory.word(((v - 2) % 0x1_0000_0000) as u32) <= 0x61FE,
    ensures
        listed_or_full(frames_in(&m.memory, m.regs@[15], 64), slot, v),
{
    reveal(returns_to);
    reveal(slot_value);
    lemma_frame_listed(&m.memory, m.regs@[15], 64, slot);
    lemma_mask_twice(m.memory.long(((m.regs@[15] + slot * 4) % 0x1_0000_0000) as u32), m.memory.mask);
}

/// A return address behind a BSR with a word of displacement is listed.
pub proof fn lemma_word_branch_returns(m: &Machine, slot: int, v: u32)
    requires
        m.wf(),
        in_stack_slot(m, slot, v),
        m.memory.word(((v - 4) % 0x1_0000_0000) as u32) == 0x6100,
    ensures
        listed_or_full(frames_in(&m.memory, m.regs@[15], 64), slot, v),
{
    reveal(returns_to);
    reveal(slot_value);
    lemma_frame_listed(&m.memory, m.regs@[15], 64, slot);
    lemma_mask_twice(m.memory.long(((m.regs@[15] + slot * 4) % 0x1_0000_0000) as u32), m.memory.mask);
}

/// A return address behind a BSR with a longword of displacement is listed.
pub proof fn lemma_long_branch_returns(m: &Machine, slot: int, v: u32)
    requires
        m.wf(),
        in_stack_slot(m, slot, v),
        m.memory.word(((v - 6) % 0x1_0000_0000) as u32) == 0x61FF,
    ensures
        listed_or_full(frames_in(&m.memory, m.regs@[15], 64), slot, v),
{
    reveal(returns_to);
    reveal(slot_value);
    lemma_frame_listed(&m.memory, m.regs@[15], 64, slot);
    lemma_mask_twice(m.memory.long(((m.regs@[15] + slot * 4) % 0x1_0000_0000) as u32), m.memory.mask);
}

/// A return address behind JSR (An) is listed, for each of the registers.
pub proof fn lemma_jump_through_register_returns(m: &Machine, slot: int, v: u32)
    requires
        m.wf(),
        in_stack_slot(m, slot, v),
        0x4E90 <= m.memory.word(((v - 2) % 0x1_0000_0000) as u32) <= 0x4E97,
    ensures
        listed_or_full(frames_in(&m.memory, m.regs@[15], 64), slot, v),
{
    reveal(returns_to);
    reveal(slot_value);
    lemma_frame_listed(&m.memory, m.regs@[15], 64, slot);
    lemma_mask_twice(m.memory.long(((m.regs@[15] + slot * 4) % 0x1_0000_0000) as u32), m.memory.mask);
}

/// A return address behind JSR d16(An) or JSR d8(An,Xn) is listed, for each of
/// the registers.
pub proof fn lemma_jump_displaced_returns(m: &Machine, slot: int, v: u32)
    requires
        m.wf(),
        in_stack_slot(m, slot, v),
        0x4EA8 <= m.memory.word(((v - 4) % 0x1_0000_0000) as u32) <= 0x4EB7,
    ensures
        listed_or_full(frames_in(&m.memory, m.regs@[15], 64), slot, v),
{
    reveal(returns_to);
    reveal(slot_value);
    lemma_frame_listed(&m.memory, m.regs@[15], 64, slot);
    lemma_mask_twice(m.memory.long(((m.regs@[15] + slot * 4) % 0x1_0000_0000) as u32), m.memory.mask);
}

/// A return address behind JSR of a short absolute address is listed.
pub proof fn lemma_jump_absolute_word_returns(m: &Machine, slot: int, v: u32)
    requires
        m.wf(),
        in_stack_slot(m, slot, v),
        m.memory.word(((v - 4) % 0x1_0000_0000) as u32) == 0x4EB8,
    ensures
        listed_or_full(frames_in(&m.memory, m.regs@[15], 64), slot, v),
{
    reveal(returns_to);
    reveal(slot_value);
    lemma_frame_listed(&m.memory, m.regs@[15], 64, slot);
    lemma_mask_twice(m.memory.long(((m.regs@[15] + slot * 4) % 0x1_0000_0000) as u32), m.memory.mask);
}

/// A return address behind JSR of a long absolute address is listed.
pub proof fn lemma_jump_absolute_long_returns(m: &Machine, slot: int, v: u32)
    requires
        m.wf(),
        in_stack_slot(m, slot, v),
        m.memory.word(((v - 6) % 0x1_0000_0000) as u32) == 0x4EB9,
    ensures
        listed_or_full(frames_in(&m.memory, m.regs@[15], 64), slot, v),
{
    reveal(returns_to);
    reveal(slot_value);
    lemma_frame_listed(&m.memory, m.regs@[15], 64, slot);
    lemma_mask_twice(m.memory.long(((m.regs@[15] + slot * 4) % 0x1_0000_0000) as u32), m.memory.mask);
}

/// A return address behind JSR d16(PC) or JSR d8(PC,Xn) is listed.
pub proof fn lemma_jump_pc_relative_returns(m: &Machine, slot: int, v: u32)
    requires
        m.wf(),
        in_stack_slot(m, slot, v),
        m.memory.word(((v - 4) % 0x1_0000_0000) as u32) == 0x4EBA || m.memory.word(((v - 4) % 0x1_0000_0000) as u32) == 0x4EBB,
    ensures
        listed_or_full(frames_in(&m.memory, m.regs@[15], 64), slot, v),
{
    reveal(returns_to);
    reveal(slot_value);
    lemma_frame_listed(&m.memory, m.regs@[15], 64, slot);
    lemma_mask_twice(m.memory.long(((m.regs@[15] + slot * 4) % 0x1_0000_0000) as u32), m.memory.mask);
}

/// Nothing else is listed: every frame is an even address that is not zero, at
/// its place on the stack, right behind the encoding of a call. There are
/// eight at most, and the nearest comes first.
pub proof fn lemma_frames_are_calls(m: &Machine, i: int)
    requires
        m.wf(),
        0 <= i < frames_in(&m.memory, m.regs@[15], 64).len(),
    ensures
        frames_in(&m.memory, m.regs@[15], 64).len() <= 8,
        ({
            let (off, v) = frames_in(&m.memory, m.regs@[15], 64)[i];
            let w2 = m.memory.word(((v - 2) % 0x1_0000_0000) as u32);
            let w4 = m.memory.word(((v - 4) % 0x1_0000_0000) as u32);
            let w6 = m.memory.word(((v - 6) % 0x1_0000_0000) as u32);
            &&& off % 4 == 0 && off < 256
            &&& v == m.memory.long(((m.regs@[15] + off) % 0x1_0000_0000) as u32) & m.memory.mask
            &&& v != 0 && v % 2 == 0
            &&& {
                ||| 0x6101 <= w2 <= 0x61FE
                ||| 0x4E90 <= w2 <= 0x4E97
                ||| w4 == 0x6100
                ||| 0x4EA8 <= w4 <= 0x4EB8
                ||| w4 == 0x4EBA
                ||| w4 == 0x4EBB
                ||| w6 == 0x61FF
                ||| w6 == 0x4EB9
            }
        }),
        forall|j: int|
            i < j < frames_in(&m.memory, m.regs@[15], 64).len() ==> frames_in(
                &m.memory,
                m.regs@[15],
                64,
            )[i].0 < (#[trigger] frames_in(&m.memory, m.regs@[15], 64)[j]).0,
{
    reveal(returns_to);
    reveal(slot_value);
    lemma_frames_in_order(&m.memory, m.regs@[15], 64);
}

pub open spec fn frame_text(i: int, frame: (u32, u32), text: Seq<char>) -> Seq<char> {
    "#"@ + dec(i) + " ret $"@ + hex(frame.1 as int, 6) + "  (at sp+"@ + hex(frame.0 as int, 3)
        + ")  "@ + text
}

/// The backtrace, given the disassembly at each return address.
pub open spec fn stack_text(m: &Machine, frames: Seq<(u32, u32)>, code: Seq<Seq<char>>) -> Seq<
    Seq<char>,
> {
    let head = "#0 pc $"@ + hex((m.regs@[REG_PC as int] & m.memory.mask) as int, 6) + "  sp $"@
        + hex((m.regs@[REG_SP as int] & m.memory.mask) as int, 6);
    if frames.len() == 0 {
        seq![head, "no return-address candidates on the stack"@]
    } else {
        seq![head] + Seq::new(frames.len(), |i: int| frame_text(i + 1, frames[i], code[i]))
    }
}

pub fn console_stack_lines(m: &Machine, frames: &Vec<(u32, u32)>, code: &Vec<String>) -> (r: Vec<
    String,
>)
    requires
        m.wf(),
        code@.len() == frames@.len(),
    ensures
        texts(r@) == stack_text(m, frames@, texts(code@)),
{
    let mut r = no_lines();
    let mut head = "#0 pc $".to_owned();
    put_hex(&mut head, (m.regs[REG_PC] & m.memory.mask) as u64, 6);
    put(&mut head, "  sp $");
    put_hex(&mut head, (m.regs[REG_SP] & m.memory.mask) as u64, 6);
    let ghost top = head@;
    push_line(&mut r, head);
    if frames.len() == 0 {
        push_text(&mut r, "no return-address candidates on the stack");
        assert(texts(r@) =~= stack_text(m, frames@, texts(code@)));
        return r;
    }
    let ghost all = Seq::new(
        frames@.len(),
        |i: int| frame_text(i + 1, frames@[i], texts(code@)[i]),
    );
    let mut i: usize = 0;
    assert(texts(r@) =~= seq![top] + all.take(0));
    while i < frames.len()
        invariant
            i <= frames@.len() == code@.len(),
            all == Seq::new(
                frames@.len(),
                |i: int| frame_text(i + 1, frames@[i], texts(code@)[i]),
            ),
            texts(r@) == seq![top] + all.take(i as int),
        decreases frames@.len() - i,
    {
        let mut line = "#".to_owned();
        put_dec(&mut line, i as u64 + 1);
        put(&mut line, " ret $");
        put_hex(&mut line, frames[i].1 as u64, 6);
        put(&mut line, "  (at sp+");
        put_hex(&mut line, frames[i].0 as u64, 3);
        put(&mut line, ")  ");
        put(&mut line, code[i].as_str());
        push_line(&mut r, line);
        i += 1;
        proof {
            assert(all[i - 1] == line@);
            assert(all.take(i as int) =~= all.take(i - 1).push(line@));
            assert(texts(r@) =~= seq![top] + all.take(i as int));
        }
    }
    assert(all.take(i as int) =~= all);
    r
}

/// Sixteen bytes as a row of a dump: address, hexadecimal, characters.
pub open spec fn dump_hex(m: &Memory, base: int, n: nat) -> Seq<char>
    decreases n,
{
    if n == 0 {
        Seq::empty()
    } else {
        dump_hex(m, base, (n - 1) as nat) + hex(m.byte(base, n - 1) as int, 2) + " "@
    }
}

pub open spec fn dump_chars(m: &Memory, base: int, n: nat) -> Seq<char>
    decreases n,
{
    if n == 0 {
        Seq::empty()
    } else {
        let b = m.byte(base, n - 1);
        dump_chars(m, base, (n - 1) as nat).push(
            if 0x20 <= b < 0x7F {
                b as char
            } else {
                '.'
            },
        )
    }
}

pub open spec fn dump_row(m: &Memory, base: u32) -> Seq<char> {
    hex(base as int, 6) + ": "@ + dump_hex(m, base as int, 16) + " "@ + dump_chars(
        m,
        base as int,
        16,
    )
}

pub fn hex_dump_row(m: &Memory, base: u32) -> (r: String)
    ensures
        r@ == dump_row(m, base),
{
    let mut out = String::new();
    put_hex(&mut out, base as u64, 6);
    put(&mut out, ": ");
    let ghost head = out@;
    let mut i: u32 = 0;
    assert(out@ =~= head + dump_hex(m, base as int, 0));
    while i < 16
        invariant
            i <= 16,
            out@ == head + dump_hex(m, base as int, i as nat),
        decreases 16 - i,
    {
        put_hex(&mut out, m.byte_at(base, i) as u64, 2);
        put(&mut out, " ");
        i += 1;
        assert(out@ =~= head + dump_hex(m, base as int, i as nat));
    }
    put(&mut out, " ");
    let ghost mid = out@;
    let mut i: u32 = 0;
    assert(out@ =~= mid + dump_chars(m, base as int, 0));
    while i < 16
        invariant
            i <= 16,
            out@ == mid + dump_chars(m, base as int, i as nat),
        decreases 16 - i,
    {
        let b: u8 = m.byte_at(base, i);
        if 0x20 <= b && b < 0x7F {
            out.push(b as char);
        } else {
            out.push('.');
        }
        i += 1;
        assert(out@ =~= mid + dump_chars(m, base as int, i as nat));
    }
    assert(out@ =~= dump_row(m, base));
    out
}

/// A dump of `len` bytes, in whole rows from the row that the address is on.
pub open spec fn dump_text(m: &Memory, addr: u32, len: u32) -> Seq<Seq<char>> {
    let base = addr - addr % 16;
    Seq::new(
        ((len + 15) / 16) as nat,
        |i: int| dump_row(m, ((base + i * 16) % 0x1_0000_0000) as u32),
    )
}

pub fn console_mem_lines(m: &Memory, addr: u32, len: u32) -> (r: Vec<String>)
    requires
        len <= 0x400,
    ensures
        texts(r@) == dump_text(m, addr, len),
{
    let base: u32 = addr - addr % 16;
    let rows: u32 = (len + 15) / 16;
    let ghost all = dump_text(m, addr, len);
    let mut r = no_lines();
    let mut i: u32 = 0;
    assert(texts(r@) =~= all.take(0));
    while i < rows
        invariant
            i <= rows <= 64,
            base == addr - addr % 16,
            rows == (len + 15) / 16,
            all == dump_text(m, addr, len),
            texts(r@) == all.take(i as int),
        decreases rows - i,
    {
        let line = hex_dump_row(m, base.wrapping_add(i * 16));
        push_line(&mut r, line);
        i += 1;
        assert(all.take(i as int) =~= all.take(i - 1).push(line@));
    }
    assert(all.take(i as int) =~= all);
    r
}

/// An instruction as the host disassembled it: its text and its length.
#[derive(PartialEq, Eq, Debug)]
pub struct Instruction {
    pub text: String,
    pub len: u32,
}

/// Where each of a run of instructions starts.
pub open spec fn code_addr(pc: u32, code: Seq<Instruction>, i: int) -> u32
    decreases i,
{
    if i <= 0 {
        pc
    } else {
        let len = code[i - 1].len;
        ((code_addr(pc, code, i - 1) + if len < 2 {
            2
        } else {
            len as int
        }) % 0x1_0000_0000) as u32
    }
}

pub open spec fn code_text(pc: u32, code: Seq<Instruction>) -> Seq<Seq<char>> {
    Seq::new(
        code.len(),
        |i: int| hex(code_addr(pc, code, i) as int, 6) + "  "@ + code[i].text@,
    )
}

/// A disassembly from an address on.
pub fn console_dis_lines(pc: u32, code: &Vec<Instruction>) -> (r: Vec<String>)
    ensures
        texts(r@) == code_text(pc, code@),
{
    let mut r = no_lines();
    let ghost all = code_text(pc, code@);
    let mut at: u32 = pc;
    let mut i: usize = 0;
    assert(texts(r@) =~= all.take(0));
    while i < code.len()
        invariant
            i <= code@.len(),
            at == code_addr(pc, code@, i as int),
            all == code_text(pc, code@),
            texts(r@) == all.take(i as int),
        decreases code@.len() - i,
    {
        let mut line = String::new();
        put_hex(&mut line, at as u64, 6);
        put(&mut line, "  ");
        put(&mut line, code[i].text.as_str());
        assert(line@ =~= all[i as int]);
        push_line(&mut r, line);
        let step: u32 = if code[i].len < 2 {
            2
        } else {
            code[i].len
        };
        at = at.wrapping_add(step);
        i += 1;
        assert(all.take(i as int) =~= all.take(i - 1).push(line@));
    }
    assert(all.take(i as int) =~= all);
    r
}

/// The last retired instructions, oldest first.
pub open spec fn history_text(h: Seq<(u32, String)>, count: u64) -> Seq<Seq<char>> {
    let n = if count < h.len() {
        count as nat
    } else {
        h.len()
    };
    Seq::new(
        n,
        |i: int|
            hex(h[h.len() - n + i].0 as int, 6) + "  "@ + h[h.len() - n + i].1@,
    )
}

pub fn console_history_lines(h: &Vec<(u32, String)>, count: u64) -> (r: Vec<String>)
    ensures
        h@.len() == 0 ==> texts(r@) == seq![
            "no history yet (recorded while a debug window is open)"@,
        ],
        h@.len() > 0 ==> texts(r@) == history_text(h@, count),
{
    let mut r = no_lines();
    if h.len() == 0 {
        push_text(&mut r, "no history yet (recorded while a debug window is open)");
        assert(texts(r@) =~= seq!["no history yet (recorded while a debug window is open)"@]);
        return r;
    }
    let n: usize = if count < h.len() as u64 {
        count as usize
    } else {
        h.len()
    };
    let size: usize = h.len();
    let from: usize = size - n;
    let ghost all = history_text(h@, count);
    let mut i: usize = 0;
    assert(texts(r@) =~= all.take(0));
    while i < n
        invariant
            i <= n <= size == h@.len(),
            from == h@.len() - n,
            n == (if count < h@.len() {
                count as int
            } else {
                h@.len() as int
            }),
            all == history_text(h@, count),
            texts(r@) == all.take(i as int),
        decreases n - i,
    {
        let mut line = String::new();
        put_hex(&mut line, h[from + i].0 as u64, 6);
        put(&mut line, "  ");
        put(&mut line, h[from + i].1.as_str());
        assert(line@ =~= all[i as int]);
        push_line(&mut r, line);
        i += 1;
        assert(all.take(i as int) =~= all.take(i - 1).push(line@));
    }
    assert(all.take(i as int) =~= all);
    r
}

/// The Copper list, with a mark at the Copper's own position.
pub open spec fn copper_text(c: Copper, list: Seq<(u32, String)>) -> Seq<Seq<char>> {
    seq![
        "COP1LC "@ + hex(c.cop1lc as int, 6) + "  COP2LC "@ + hex(c.cop2lc as int, 6)
            + "  COPPC "@ + hex(c.pc as int, 6) + " ("@ + (if c.running {
            "running"@
        } else {
            "stopped"@
        }) + ")"@,
    ] + Seq::new(
        list.len(),
        |i: int|
            (if list[i].0 == c.pc {
                ">"@
            } else {
                " "@
            }) + hex(list[i].0 as int, 6) + "  "@ + list[i].1@,
    )
}

pub fn console_copper_lines(c: Copper, list: &Vec<(u32, String)>) -> (r: Vec<String>)
    ensures
        texts(r@) == copper_text(c, list@),
{
    let mut r = no_lines();
    let mut head = "COP1LC ".to_owned();
    put_hex(&mut head, c.cop1lc as u64, 6);
    put(&mut head, "  COP2LC ");
    put_hex(&mut head, c.cop2lc as u64, 6);
    put(&mut head, "  COPPC ");
    put_hex(&mut head, c.pc as u64, 6);
    put(&mut head, " (");
    if c.running {
        put(&mut head, "running");
    } else {
        put(&mut head, "stopped");
    }
    put(&mut head, ")");
    let ghost all = copper_text(c, list@);
    assert(head@ =~= all[0]);
    push_line(&mut r, head);
    assert(texts(r@) =~= all.take(1));
    let mut i: usize = 0;
    while i < list.len()
        invariant
            i <= list@.len(),
            all == copper_text(c, list@),
            texts(r@) == all.take(i + 1),
        decreases list@.len() - i,
    {
        let mut line = String::new();
        if list[i].0 == c.pc {
            put(&mut line, ">");
        } else {
            put(&mut line, " ");
        }
        put_hex(&mut line, list[i].0 as u64, 6);
        put(&mut line, "  ");
        put(&mut line, list[i].1.as_str());
        assert(line@ =~= all[i + 1]);
        push_line(&mut r, line);
        i += 1;
        assert(all.take(i + 1) =~= all.take(i as int).push(line@));
    }
    assert(all.take(i + 1) =~= all);
    r
}

/// Where a listing of the Copper list starts: a few instructions before the
/// Copper's position unless an address is given.
pub open spec fn copper_start(c: Copper, start: Option<u32>) -> u32 {
    match start {
        Some(a) => a,
        None => if c.pc < 16 {
            0
        } else {
            (c.pc - 16) as u32
        },
    }
}

pub fn copper_list_start(c: Copper, start: Option<u32>) -> (r: u32)
    ensures
        r == copper_start(c, start),
{
    match start {
        Some(a) => a,
        None => if c.pc < 16 {
            0
        } else {
            c.pc - 16
        },
    }
}

pub open spec fn beam_text(at: (u32, u32)) -> Seq<char> {
    "v"@ + dec(at.0 as int) + " h"@ + dec(at.1 as int)
}

pub open spec fn flag(on: bool, text: Seq<char>) -> Seq<char> {
    if on {
        text
    } else {
        Seq::empty()
    }
}

/// A blit on two lines: when, how and how large; and its four pointers.
pub open spec fn blit_head(i: int, b: Blit) -> Seq<char> {
    "#"@ + padded(dec(i), 2) + " "@ + beam_text(b.start) + " -> "@ + (match b.end {
        Some(end) => beam_text(end),
        None => "(running)"@,
    }) + "  con0 "@ + hex(b.bltcon0 as int, 4) + " con1 "@ + hex(b.bltcon1 as int, 4) + "  "@
        + dec(b.width_words as int) + "x"@ + dec(b.height as int) + flag(
        b.bltcon1 % 2 == 1,
        "  LINE"@,
    ) + flag((b.bltcon1 / 8) % 2 == 1, "  FILL"@) + flag((b.bltcon1 / 2) % 2 == 1, "  DESC"@)
}

pub open spec fn blit_pointers(b: Blit) -> Seq<char> {
    "     A $"@ + hex((b.apt & 0x00FF_FFFF) as int, 6) + "  B $"@ + hex(
        (b.bpt & 0x00FF_FFFF) as int,
        6,
    ) + "  C $"@ + hex((b.cpt & 0x00FF_FFFF) as int, 6) + "  D $"@ + hex(
        (b.dpt & 0x00FF_FFFF) as int,
        6,
    )
}

pub open spec fn blit_list(blits: Seq<Blit>, n: nat) -> Seq<Seq<char>>
    decreases n,
{
    if n == 0 {
        Seq::empty()
    } else {
        blit_list(blits, (n - 1) as nat).push(blit_head(n - 1, blits[n - 1])).push(
            blit_pointers(blits[n - 1]),
        )
    }
}

pub open spec fn blits_text(trace: Option<BusTrace>) -> Seq<Seq<char>> {
    match trace {
        None => seq!["no frame trace: open the Frame Analyzer (its Frame button captures one)"@],
        Some(t) => if t.blits@.len() == 0 {
            seq!["no blits started in frame "@ + dec(t.frame as int)]
        } else {
            seq![dec(t.blits@.len() as int) + " blit(s) in frame "@ + dec(t.frame as int) + ":"@]
                + blit_list(t.blits@, t.blits@.len())
        },
    }
}

fn put_beam(out: &mut String, at: (u32, u32))
    ensures
        final(out)@ == old(out)@ + beam_text(at),
{
    put(out, "v");
    put_dec(out, at.0 as u64);
    put(out, " h");
    put_dec(out, at.1 as u64);
    assert(out@ =~= old(out)@ + beam_text(at));
}

fn put_flag(out: &mut String, on: bool, text: &str)
    ensures
        final(out)@ == old(out)@ + flag(on, text@),
{
    if on {
        put(out, text);
    }
    assert(out@ =~= old(out)@ + flag(on, text@));
}

fn blit_line(i: usize, b: Blit) -> (r: String)
    ensures
        r@ == blit_head(i as int, b),
{
    let mut number = String::new();
    put_dec(&mut number, i as u64);
    let digits = chars_of(number.as_str());
    assert(digits@ =~= dec(i as int));
    let mut out = "#".to_owned();
    put_padded(&mut out, &digits, 2);
    put(&mut out, " ");
    put_beam(&mut out, b.start);
    put(&mut out, " -> ");
    match b.end {
        Some(end) => put_beam(&mut out, end),
        None => put(&mut out, "(running)"),
    }
    put(&mut out, "  con0 ");
    put_hex(&mut out, b.bltcon0 as u64, 4);
    put(&mut out, " con1 ");
    put_hex(&mut out, b.bltcon1 as u64, 4);
    put(&mut out, "  ");
    put_dec(&mut out, b.width_words as u64);
    put(&mut out, "x");
    put_dec(&mut out, b.height as u64);
    put_flag(&mut out, b.bltcon1 % 2 == 1, "  LINE");
    put_flag(&mut out, (b.bltcon1 / 8) % 2 == 1, "  FILL");
    put_flag(&mut out, (b.bltcon1 / 2) % 2 == 1, "  DESC");
    out
}

/// The blits of the captured frame.
pub fn console_blits_lines(trace: &Option<BusTrace>) -> (r: Vec<String>)
    ensures
        texts(r@) == blits_text(*trace),
{
    match trace {
        None => one_line(
            "no frame trace: open the Frame Analyzer (its Frame button captures one)".to_owned(),
        ),
        Some(t) => {
            if t.blits.len() == 0 {
                let mut line = "no blits started in frame ".to_owned();
                put_dec(&mut line, t.frame);
                return one_line(line);
            }
            let mut head = String::new();
            put_dec(&mut head, t.blits.len() as u64);
            put(&mut head, " blit(s) in frame ");
            put_dec(&mut head, t.frame);
            put(&mut head, ":");
            let ghost top = head@;
            assert(top =~= dec(t.blits@.len() as int) + " blit(s) in frame "@ + dec(t.frame as int)
                + ":"@);
            let mut r = one_line(head);
            let mut i: usize = 0;
            assert(texts(r@) =~= seq![top] + blit_list(t.blits@, 0));
            while i < t.blits.len()
                invariant
                    i <= t.blits@.len(),
                    texts(r@) == seq![top] + blit_list(t.blits@, i as nat),
                decreases t.blits@.len() - i,
            {
                let b: Blit = t.blits[i];
                push_line(&mut r, blit_line(i, b));
                let mut line = "     A $".to_owned();
                put_hex(&mut line, (b.apt & 0x00FF_FFFF) as u64, 6);
                put(&mut line, "  B $");
                put_hex(&mut line, (b.bpt & 0x00FF_FFFF) as u64, 6);
                put(&mut line, "  C $");
                put_hex(&mut line, (b.cpt & 0x00FF_FFFF) as u64, 6);
                put(&mut line, "  D $");
                put_hex(&mut line, (b.dpt & 0x00FF_FFFF) as u64, 6);
                push_line(&mut r, line);
                i += 1;
                assert(texts(r@) =~= seq![top] + blit_list(t.blits@, i as nat));
            }
            r
        },
    }
}

/// The custom registers that the console shows, three to a row.
pub open spec fn shown_registers() -> Seq<u16> {
    seq![0x002u16, 0x010, 0x01C, 0x01E, 0x096, 0x100, 0x102, 0x104, 0x108]
}

pub open spec fn register_cell(off: u16, value: Option<u16>, lex: &Lexicon) -> Seq<char> {
    match value {
        Some(v) => padded(lex.register_name(off), 8) + " $"@ + hex(v as int, 4) + "   "@,
        None => Seq::empty(),
    }
}

pub open spec fn register_row(values: Seq<Option<u16>>, lex: &Lexicon, row: int) -> Seq<char> {
    let offs = shown_registers();
    trim_end(
        register_cell(offs[row * 3], values[row * 3], lex) + register_cell(
            offs[row * 3 + 1],
            values[row * 3 + 1],
            lex,
        ) + register_cell(offs[row * 3 + 2], values[row * 3 + 2], lex),
    )
}

pub open spec fn custom_text(m: &Machine, values: Seq<Option<u16>>, lex: &Lexicon) -> Seq<
    Seq<char>,
> {
    seq![
        "beam v"@ + dec(m.vpos as int) + " h"@ + dec(m.hpos as int) + "  frame "@ + dec(
            m.frames as int,
        ),
        register_row(values, lex, 0),
        register_row(values, lex, 1),
        register_row(values, lex, 2),
    ]
}

fn put_register(out: &mut String, off: u16, value: Option<u16>, lex: &Lexicon)
    ensures
        final(out)@ == old(out)@ + register_cell(off, value, lex),
{
    match value {
        Some(v) => {
            let name = chars_of(lex.custom_reg_name(off).as_str());
            put_padded(out, &name, 8);
            put(out, " $");
            put_hex(out, v as u64, 4);
            put(out, "   ");
        },
        None => {},
    }
    assert(out@ =~= old(out)@ + register_cell(off, value, lex));
}

fn register_line(values: &Vec<Option<u16>>, lex: &Lexicon, row: usize, offs: (u16, u16, u16)) -> (r:
    String)
    requires
        values@.len() == 9,
        row < 3,
        offs.0 == shown_registers()[row * 3],
        offs.1 == shown_registers()[row * 3 + 1],
        offs.2 == shown_registers()[row * 3 + 2],
    ensures
        r@ == register_row(values@, lex, row as int),
{
    let mut out = String::new();
    put_register(&mut out, offs.0, values[row * 3], lex);
    put_register(&mut out, offs.1, values[row * 3 + 1], lex);
    put_register(&mut out, offs.2, values[row * 3 + 2], lex);
    assert(out@ =~= register_cell(offs.0, values@[row * 3], lex) + register_cell(
        offs.1,
        values@[row * 3 + 1],
        lex,
    ) + register_cell(offs.2, values@[row * 3 + 2], lex));
    let chars = chars_of(out.as_str());
    let cut = trim_tail(&chars);
    string_of(&cut)
}

/// The custom registers, given the words that can be read.
pub fn console_custom_lines(m: &Machine, values: &Vec<Option<u16>>, lex: &Lexicon) -> (r: Vec<
    String,
>)
    requires
        values@.len() == 9,
    ensures
        texts(r@) == custom_text(m, values@, lex),
{
    let mut r = no_lines();
    let mut head = "beam v".to_owned();
    put_dec(&mut head, m.vpos as u64);
    put(&mut head, " h");
    put_dec(&mut head, m.hpos as u64);
    put(&mut head, "  frame ");
    put_dec(&mut head, m.frames);
    push_line(&mut r, head);
    push_line(&mut r, register_line(values, lex, 0, (0x002, 0x010, 0x01C)));
    push_line(&mut r, register_line(values, lex, 1, (0x01E, 0x096, 0x100)));
    push_line(&mut r, register_line(values, lex, 2, (0x102, 0x104, 0x108)));
    assert(texts(r@) =~= custom_text(m, values@, lex));
    r
}

/// A waveform capture's settings and progress.
#[derive(PartialEq, Eq, Debug)]
pub struct WaveStatus {
    pub state: String,
    pub trigger: String,
    pub duration: String,
    pub signals: String,
    pub path: String,
    pub captured_cck: u64,
    pub window_cck: Option<u64>,
    pub samples: u64,
}

pub open spec fn wave_text(s: &WaveStatus) -> Seq<Seq<char>> {
    let head = seq![
        "waveform "@ + s.state@ + ": trigger "@ + s.trigger@ + ", duration "@ + s.duration@
            + ", signals "@ + s.signals@,
        "  -> "@ + s.path@,
    ];
    if s.state@ == "capturing"@ {
        head.push(
            "  "@ + dec(s.captured_cck as int) + " / "@ + dec(
                match s.window_cck {
                    Some(n) => n as int,
                    None => 0,
                },
            ) + " cck, "@ + dec(s.samples as int) + " samples"@,
        )
    } else if s.state@ == "done"@ {
        head.push(
            "  "@ + dec(s.captured_cck as int) + " cck captured, "@ + dec(s.samples as int)
                + " samples"@,
        )
    } else {
        head
    }
}

pub fn wave_status_lines(s: &WaveStatus) -> (r: Vec<String>)
    ensures
        texts(r@) == wave_text(s),
{
    let mut r = no_lines();
    let mut head = "waveform ".to_owned();
    put(&mut head, s.state.as_str());
    put(&mut head, ": trigger ");
    put(&mut head, s.trigger.as_str());
    put(&mut head, ", duration ");
    put(&mut head, s.duration.as_str());
    put(&mut head, ", signals ");
    put(&mut head, s.signals.as_str());
    push_line(&mut r, head);
    let mut path = "  -> ".to_owned();
    put(&mut path, s.path.as_str());
    push_line(&mut r, path);
    let state = chars_of(s.state.as_str());
    if crate::text::spells(&state, "capturing") {
        let mut line = "  ".to_owned();
        put_dec(&mut line, s.captured_cck);
        put(&mut line, " / ");
        let window: u64 = match s.window_cck {
            Some(n) => n,
            None => 0,
        };
        put_dec(&mut line, window);
        put(&mut line, " cck, ");
        put_dec(&mut line, s.samples);
        put(&mut line, " samples");
        push_line(&mut r, line);
    } else if crate::text::spells(&state, "done") {
        let mut line = "  ".to_owned();
        put_dec(&mut line, s.captured_cck);
        put(&mut line, " cck captured, ");
        put_dec(&mut line, s.samples);
        put(&mut line, " samples");
        push_line(&mut r, line);
    }
    assert(texts(r@) =~= wave_text(s));
    r
}

/// A loaded hunk of a program.
#[derive(Clone, Copy, PartialEq, Eq, Debug)]
pub struct Segment {
    pub start: u32,
    pub size: u32,
}

pub open spec fn segment_text(i: int, s: Segment) -> Seq<char> {
    "hunk "@ + dec(i) + ": $"@ + hex(s.start as int, 6) + "..$"@ + hex(s.start + s.size, 6)
        + "  ("@ + dec(s.size as int) + " bytes)"@
}

pub open spec fn segments_text(found: Result<Seq<Segment>, Seq<char>>) -> Seq<Seq<char>> {
    match found {
        Err(reason) => seq!["!"@ + reason],
        Ok(segs) => if segs.len() == 0 {
            seq!["current task has no walkable segment list"@]
        } else {
            Seq::new(segs.len(), |i: int| segment_text(i, segs[i])).push(
                "gdb: add-symbol-file prog.elf 0x"@ + hex(segs[0].start as int, 0),
            )
        },
    }
}

pub open spec fn segments_view(found: Result<Vec<Segment>, String>) -> Result<
    Seq<Segment>,
    Seq<char>,
> {
    match found {
        Ok(v) => Ok(v@),
        Err(e) => Err(e@),
    }
}

/// The current process's hunks, and the line that a debugger needs for them.
pub fn console_segments(found: &Result<Vec<Segment>, String>) -> (r: Vec<String>)
    ensures
        texts(r@) == segments_text(segments_view(*found)),
{
    match found {
        Err(reason) => {
            let mut line = "!".to_owned();
            put(&mut line, reason.as_str());
            one_line(line)
        },
        Ok(segs) => {
            if segs.len() == 0 {
                return one_line("current task has no walkable segment list".to_owned());
            }
            let ghost all = Seq::new(segs@.len(), |i: int| segment_text(i, segs@[i]));
            let mut r = no_lines();
            let mut i: usize = 0;
            assert(texts(r@) =~= all.take(0));
            while i < segs.len()
                invariant
                    i <= segs@.len(),
                    all == Seq::new(segs@.len(), |i: int| segment_text(i, segs@[i])),
                    texts(r@) == all.take(i as int),
                decreases segs@.len() - i,
            {
                let s: Segment = segs[i];
                let mut line = "hunk ".to_owned();
                put_dec(&mut line, i as u64);
                put(&mut line, ": $");
                put_hex(&mut line, s.start as u64, 6);
                put(&mut line, "..$");
                put_hex(&mut line, s.start as u64 + s.size as u64, 6);
                put(&mut line, "  (");
                put_dec(&mut line, s.size as u64);
                put(&mut line, " bytes)");
                push_line(&mut r, line);
                i += 1;
                assert(all.take(i as int) =~= all.take(i - 1).push(line@));
            }
            assert(all.take(i as int) =~= all);
            let mut line = "gdb: add-symbol-file prog.elf 0x".to_owned();
            put_hex(&mut line, segs[0].start as u64, 0);
            push_line(&mut r, line);
            r
        },
    }
}

/// A node of one of the system's lists.
#[derive(PartialEq, Eq, Debug)]
pub struct OsNode {
    pub addr: u32,
    pub version: u16,
    pub revision: u16,
    pub pri: i8,
    pub name: String,
}

/// A signed number in decimal.
pub open spec fn signed(v: int) -> Seq<char> {
    if v < 0 {
        "-"@ + dec(-v)
    } else {
        dec(v)
    }
}

pub open spec fn node_text(n: OsNode, library: bool) -> Seq<char> {
    if library {
        "$"@ + hex(n.addr as int, 6) + "  v"@ + dec(n.version as int) + "."@ + padded(
            dec(n.revision as int),
            4,
        ) + " "@ + n.name@
    } else {
        "$"@ + hex(n.addr as int, 6) + "  pri "@ + right_aligned(signed(n.pri as int), 4) + "  "@
            + n.name@
    }
}

pub open spec fn nodes_text(nodes: Seq<OsNode>, library: bool) -> Seq<Seq<char>> {
    if nodes.len() == 0 {
        seq!["(empty list)"@]
    } else {
        nodes.map_values(|n: OsNode| node_text(n, library))
    }
}

fn node_line(n: &OsNode, library: bool) -> (r: String)
    ensures
        r@ == node_text(*n, library),
{
    let mut out = "$".to_owned();
    put_hex(&mut out, n.addr as u64, 6);
    if library {
        put(&mut out, "  v");
        put_dec(&mut out, n.version as u64);
        put(&mut out, ".");
        let mut rev = String::new();
        put_dec(&mut rev, n.revision as u64);
        let digits = chars_of(rev.as_str());
        assert(digits@ =~= dec(n.revision as int));
        put_padded(&mut out, &digits, 4);
        put(&mut out, " ");
    } else {
        put(&mut out, "  pri ");
        let mut pri = String::new();
        if n.pri < 0 {
            put(&mut pri, "-");
            put_dec(&mut pri, (-(n.pri as i64)) as u64);
        } else {
            put_dec(&mut pri, n.pri as u64);
        }
        assert(pri@ =~= signed(n.pri as int));
        let digits = chars_of(pri.as_str());
        if digits.len() < 4 {
            put_fill(&mut out, ' ', 4 - digits.len());
        } else {
            assert(fill(' ', 4 - digits@.len()) =~= Seq::empty());
        }
        put(&mut out, pri.as_str());
        put(&mut out, "  ");
    }
    put(&mut out, n.name.as_str());
    assert(out@ =~= node_text(*n, library));
    out
}

/// One line per node of a system list; libraries and devices show their
/// version, the others their priority.
pub fn console_os_list(nodes: &Vec<OsNode>, library: bool) -> (r: Vec<String>)
    ensures
        texts(r@) == nodes_text(nodes@, library),
{
    if nodes.len() == 0 {
        return one_line("(empty list)".to_owned());
    }
    let ghost all = nodes@.map_values(|n: OsNode| node_text(n, library));
    let mut r = no_lines();
    let mut i: usize = 0;
    assert(texts(r@) =~= all.take(0));
    while i < nodes.len()
        invariant
            i <= nodes@.len(),
            all == nodes@.map_values(|n: OsNode| node_text(n, library)),
            texts(r@) == all.take(i as int),
        decreases nodes@.len() - i,
    {
        let line = node_line(&nodes[i], library);
        push_line(&mut r, line);
        i += 1;
        assert(all.take(i as int) =~= all.take(i - 1).push(line@));
    }
    assert(all.take(i as int) =~= all);
    r
}

} // verus!
