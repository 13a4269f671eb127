//! Unsigned numbers as text: reading a number of a given radix from a word,
//! and writing one padded to a width.

use vstd::prelude::*;

use crate::text::put_chars;

verus! {

/// The value of a digit character, or a number no radix reaches.
pub open spec fn digit(c: char) -> nat {
    if '0' <= c <= '9' {
        (c as int - '0' as int) as nat
    } else if 'a' <= c <= 'f' {
        (c as int - 'a' as int + 10) as nat
    } else if 'A' <= c <= 'F' {
        (c as int - 'A' as int + 10) as nat
    } else {
        99
    }
}

pub open spec fn all_digits(s: Seq<char>, radix: nat) -> bool {
    forall|i: int| 0 <= i < s.len() ==> digit(#[trigger] s[i]) < radix
}

/// The number that a run of digits denotes.
pub open spec fn digits_value(s: Seq<char>, radix: nat) -> nat
    decreases s.len(),
{
    if s.len() == 0 {
        0
    } else {
        digits_value(s.drop_last(), radix) * radix + digit(s.last())
    }
}

/// A word without its optional leading plus sign.
pub open spec fn unsigned_part(s: Seq<char>) -> Seq<char> {
    if s.len() > 0 && s[0] == '+' {
        s.skip(1)
    } else {
        s
    }
}

/// The number that a word spells, if it is one and is at most `max`.
pub open spec fn number(s: Seq<char>, radix: nat, max: nat) -> Option<nat> {
    let body = unsigned_part(s);
    if body.len() > 0 && all_digits(body, radix) && digits_value(body, radix) <= max {
        Some(digits_value(body, radix))
    } else {
        None
    }
}

proof fn lemma_value_grows(s: Seq<char>, n: int, radix: nat)
    requires
        0 <= n <= s.len(),
        1 <= radix,
    ensures
        digits_value(s.take(n), radix) <= digits_value(s, radix),
    decreases s.len() - n,
{
    if n < s.len() {
        lemma_value_grows(s, n + 1, radix);
        assert(s.take(n + 1).drop_last() =~= s.take(n));
        let low = digits_value(s.take(n), radix);
        assert(low <= low * radix) by (nonlinear_arith)
            requires
                1 <= radix,
        ;
    } else {
        assert(s.take(n) =~= s);
    }
}

pub fn digit_of(c: char) -> (r: u32)
    ensures
        r == digit(c),
{
    if '0' <= c && c <= '9' {
        c as u32 - '0' as u32
    } else if 'a' <= c && c <= 'f' {
        c as u32 - 'a' as u32 + 10
    } else if 'A' <= c && c <= 'F' {
        c as u32 - 'A' as u32 + 10
    } else {
        99
    }
}

/// Reads a word as a number of the given radix, as far as `max`.
pub fn parse_number(s: &[char], radix: u32, max: u64) -> (r: Option<u64>)
    requires
        2 <= radix <= 16,
    ensures
        r matches Some(v) ==> number(s@, radix as nat, max as nat) == Some(v as nat),
        r is None ==> number(s@, radix as nat, max as nat) is None,
{
    let start: usize = if s.len() > 0 && s[0] == '+' {
        1
    } else {
        0
    };
    let ghost body = unsigned_part(s@);
    assert(body =~= s@.skip(start as int));
    if s.len() == start {
        return None;
    }
    let mut value: u128 = 0;
    let mut i: usize = start;
    while i < s.len()
        invariant
            start <= i <= s@.len(),
            start < s@.len(),
            2 <= radix <= 16,
            body == s@.skip(start as int),
            body == unsigned_part(s@),
            all_digits(body.take(i - start), radix as nat),
            value == digits_value(body.take(i - start), radix as nat),
            value <= max,
        decreases s@.len() - i,
    {
        let d: u32 = digit_of(s[i]);
        assert(body[i - start] == s@[i as int]);
        if d >= radix {
            return None;
        }
        assert(body.take(i + 1 - start).drop_last() =~= body.take(i - start));
        assert(value * radix <= 0xFFFF_FFFF_FFFF_FFFF * 16) by (nonlinear_arith)
            requires
                value <= 0xFFFF_FFFF_FFFF_FFFFu64,
                radix <= 16,
        ;
        value = value * (radix as u128) + d as u128;
        assert(value == digits_value(body.take(i + 1 - start), radix as nat));
        if value > max as u128 {
            proof {
                lemma_value_grows(body, i + 1 - start, radix as nat);
            }
            return None;
        }
        i += 1;
    }
    assert(body.take(i - start) =~= body);
    Some(value as u64)
}

pub open spec fn digit_char(d: nat) -> char {
    if d < 10 {
        ((d + 48) as u8) as char
    } else {
        ((d + 55) as u8) as char
    }
}

pub open spec fn lower_digit_char(d: nat) -> char {
    if d < 10 {
        ((d + 48) as u8) as char
    } else {
        ((d + 87) as u8) as char
    }
}

/// A number's digits, most significant first, without leading zeros.
pub open spec fn digits_of(v: nat, radix: nat) -> Seq<char>
    decreases v,
{
    if v < radix || radix < 2 {
        seq![digit_char(v)]
    } else {
        proof {
            assert(v / radix < v) by (nonlinear_arith)
                requires
                    2 <= radix <= v,
            ;
        }
        digits_of(v / radix, radix).push(digit_char(v % radix))
    }
}

/// The lowercase hexadecimal digits of a number.
pub open spec fn lower_hex_of(v: nat) -> Seq<char>
    decreases v,
{
    if v < 16 {
        seq![lower_digit_char(v)]
    } else {
        lower_hex_of(v / 16).push(lower_digit_char(v % 16))
    }
}

pub open spec fn fill(c: char, n: int) -> Seq<char> {
    Seq::new(
        if n > 0 {
            n as nat
        } else {
            0
        },
        |i: int| c,
    )
}

/// Decimal digits.
pub open spec fn dec(v: int) -> Seq<char> {
    digits_of(v as nat, 10)
}

/// Decimal digits, zero-padded on the left to a width.
pub open spec fn dec_wide(v: int, width: int) -> Seq<char> {
    fill('0', width - dec(v).len()) + dec(v)
}

/// Uppercase hexadecimal digits, zero-padded on the left to a width.
pub open spec fn hex(v: int, width: int) -> Seq<char> {
    fill('0', width - digits_of(v as nat, 16).len()) + digits_of(v as nat, 16)
}

/// A text padded with spaces on its right to a width.
pub open spec fn padded(s: Seq<char>, width: int) -> Seq<char> {
    s + fill(' ', width - s.len())
}

/// A text padded with spaces on its left to a width.
pub open spec fn right_aligned(s: Seq<char>, width: int) -> Seq<char> {
    fill(' ', width - s.len()) + s
}

proof fn lemma_digit_char(d: nat)
    requires
        d < 16,
    ensures
        digit(digit_char(d)) == d,
        digit_char(d) != '+',
{
}

/// Writing a number and reading it back gives the same number.
pub proof fn lemma_number_round_trip(v: nat, radix: nat)
    requires
        2 <= radix <= 16,
    ensures
        number(digits_of(v, radix), radix, v) == Some(v),
    decreases v,
{
    lemma_digits_of(v, radix);
    let s = digits_of(v, radix);
    assert(unsigned_part(s) =~= s);
}

pub(crate) proof fn lemma_digits_of(v: nat, radix: nat)
    requires
        2 <= radix <= 16,
    ensures
        digits_of(v, radix).len() > 0,
        digits_of(v, radix)[0] != '+',
        all_digits(digits_of(v, radix), radix),
        digits_value(digits_of(v, radix), radix) == v,
    decreases v,
{
    let s = digits_of(v, radix);
    if v < radix {
        lemma_digit_char(v);
        assert(s.drop_last() =~= Seq::empty());
        assert(digits_value(Seq::empty(), radix) == 0);
        assert(0 * radix == 0);
    } else {
        lemma_digit_char(v % radix);
        assert(v / radix < v && (v / radix) * radix + v % radix == v) by (nonlinear_arith)
            requires
                2 <= radix <= v,
        ;
        lemma_digits_of(v / radix, radix);
        assert(s.drop_last() =~= digits_of(v / radix, radix));
    }
}

pub fn put_digit(out: &mut String, d: u64)
    requires
        d < 16,
    ensures
        final(out)@ == old(out)@.push(digit_char(d as nat)),
{
    if d < 10 {
        out.push((d as u8 + 48) as char);
    } else {
        out.push((d as u8 + 55) as char);
    }
}

pub fn put_number(out: &mut String, v: u64, radix: u64)
    requires
        2 <= radix <= 16,
    ensures
        final(out)@ == old(out)@ + digits_of(v as nat, radix as nat),
    decreases v,
{
    if v >= radix {
        assert(v / radix < v) by (nonlinear_arith)
            requires
                2 <= radix <= v,
        ;
        put_number(out, v / radix, radix);
    }
    assert(0 <= v % radix < radix) by (nonlinear_arith)
        requires
            2 <= radix,
    ;
    if v < radix {
        assert(v % radix == v) by (nonlinear_arith)
            requires
                v < radix,
        ;
    }
    put_digit(out, v % radix);
}

pub fn put_lower_hex(out: &mut String, v: u64)
    ensures
        final(out)@ == old(out)@ + lower_hex_of(v as nat),
    decreases v,
{
    if v >= 16 {
        put_lower_hex(out, v / 16);
    }
    let d: u64 = v % 16;
    if d < 10 {
        out.push((d as u8 + 48) as char);
    } else {
        out.push((d as u8 + 87) as char);
    }
}

pub fn put_dec(out: &mut String, v: u64)
    ensures
        final(out)@ == old(out)@ + dec(v as int),
{
    put_number(out, v, 10);
}

/// The number of digits of a number.
pub fn digit_count(v: u64, radix: u64) -> (r: usize)
    requires
        2 <= radix <= 16,
    ensures
        r == digits_of(v as nat, radix as nat).len(),
        r <= v + 1,
        r <= 64,
    decreases v,
{
    let mut rest: u64 = v;
    let mut n: usize = 1;
    let ghost mut scale: nat = 1;
    proof {
        vstd::arithmetic::power2::lemma2_to64();
    }
    while rest >= radix
        invariant
            2 <= radix <= 16,
            1 <= n <= 64,
            n - 1 + digits_of(rest as nat, radix as nat).len() == digits_of(
                v as nat,
                radix as nat,
            ).len(),
            rest + n <= v + 1,
            scale == vstd::arithmetic::power2::pow2((n - 1) as nat),
            rest * scale <= v,
        decreases rest,
    {
        proof {
            assert(rest / radix < rest && 2 * (rest / radix) <= rest) by (nonlinear_arith)
                requires
                    2 <= radix <= rest,
            ;
            vstd::arithmetic::power2::lemma_pow2_unfold(n as nat);
            let half = (rest / radix) as nat;
            assert(half * (2 * scale) <= rest * scale) by (nonlinear_arith)
                requires
                    2 * half <= rest,
            ;
            assert(half >= 1) by (nonlinear_arith)
                requires
                    half == rest / radix,
                    2 <= radix <= rest,
            ;
            assert(2 * scale <= half * (2 * scale)) by (nonlinear_arith)
                requires
                    half >= 1,
            ;
            if n >= 64 {
                vstd::arithmetic::power2::lemma2_to64();
                vstd::arithmetic::power2::lemma_pow2_strictly_increases(63, n as nat);
            }
        }
        rest = rest / radix;
        n += 1;
        proof {
            scale = scale * 2;
        }
    }
    n
}

pub fn put_fill(out: &mut String, c: char, n: usize)
    ensures
        final(out)@ == old(out)@ + fill(c, n as int),
{
    let mut i: usize = 0;
    while i < n
        invariant
            i <= n,
            out@ == old(out)@ + fill(c, i as int),
        decreases n - i,
    {
        out.push(c);
        i += 1;
        assert(fill(c, i as int) =~= fill(c, i - 1).push(c));
    }
}

pub fn put_dec_wide(out: &mut String, v: u64, width: usize)
    ensures
        final(out)@ == old(out)@ + dec_wide(v as int, width as int),
{
    let n: usize = digit_count(v, 10);
    if n < width {
        put_fill(out, '0', width - n);
    } else {
        assert(fill('0', width - n) =~= Seq::empty());
    }
    put_dec(out, v);
    assert(out@ =~= old(out)@ + dec_wide(v as int, width as int));
}

pub fn put_hex(out: &mut String, v: u64, width: usize)
    ensures
        final(out)@ == old(out)@ + hex(v as int, width as int),
{
    let n: usize = digit_count(v, 16);
    if n < width {
        put_fill(out, '0', width - n);
    } else {
        assert(fill('0', width - n) =~= Seq::empty());
    }
    put_number(out, v, 16);
    assert(out@ =~= old(out)@ + hex(v as int, width as int));
}

pub fn put_padded(out: &mut String, s: &[char], width: usize)
    ensures
        final(out)@ == old(out)@ + padded(s@, width as int),
{
    put_chars(out, s);
    if s.len() < width {
        put_fill(out, ' ', width - s.len());
    } else {
        assert(fill(' ', width - s@.len()) =~= Seq::empty());
    }
}

} // verus!
