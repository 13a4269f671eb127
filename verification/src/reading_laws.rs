//! How typed text is read and figures are written: digits, numbers, case, words,
//! lines, and the names that a lexicon knows.

use vstd::prelude::*;

use crate::command::bare;
use crate::command::hex32_of;
use crate::lexicon::Lexicon;
use crate::lexicon::class_row;
use crate::lexicon::first_row;
use crate::lexicon::offset_row;
use crate::number::all_digits;
use crate::number::dec_wide;
use crate::number::digit;
use crate::number::digits_of;
use crate::number::digits_value;
use crate::number::fill;
use crate::number::hex;
use crate::number::lower_hex_of;
use crate::number::number;
use crate::number::padded;
use crate::number::right_aligned;
use crate::number::unsigned_part;
use crate::text::is_space;
use crate::text::joined;
use crate::text::line_state;
use crate::text::lines_of;
use crate::text::split_state;
use crate::text::trim_end;
use crate::text::trim_start;
use crate::text::trimmed;
use crate::text::upper;
use crate::text::words;

verus! {

/// A decimal digit is worth its place among the ten, a letter ten more than its place
/// in the alphabet in either case, and nothing else is a digit.
pub proof fn lemma_digits(c: char)
    ensures
        '0' <= c <= '9' ==> digit(c) == c as int - 48,
        'a' <= c <= 'f' ==> digit(c) == c as int - 97 + 10,
        'A' <= c <= 'F' ==> digit(c) == c as int - 65 + 10,
        !('0' <= c <= '9') && !('a' <= c <= 'f') && !('A' <= c <= 'F') ==> digit(c) >= 16,
{
}

/// One more digit makes a number its radix times as large and adds the digit, as long
/// as it stays within the bound; past the bound, or with anything that is no digit, there
/// is no number.
pub proof fn lemma_number_grows_by_digits(s: Seq<char>, c: char, radix: nat, max: nat, v: nat)
    requires
        2 <= radix <= 16,
        number(s, radix, max) == Some(v),
    ensures
        digit(c) < radix && v * radix + digit(c) <= max ==> number(s.push(c), radix, max) == Some(
            v * radix + digit(c),
        ),
        digit(c) < radix && v * radix + digit(c) > max ==> number(s.push(c), radix, max) is None,
        digit(c) >= radix ==> number(s.push(c), radix, max) is None,
{
    let body = unsigned_part(s);
    let t = s.push(c);
    if s[0] == '+' {
        assert(t.skip(1) =~= s.skip(1).push(c));
    }
    assert(unsigned_part(t) =~= body.push(c));
    assert(body.push(c).drop_last() =~= body);
    if digit(c) < radix {
        assert forall|i: int| 0 <= i < body.len() + 1 implies digit(#[trigger] body.push(c)[i])
            < radix by {
            if i < body.len() {
                assert(body.push(c)[i] == body[i]);
            }
        }
    } else {
        assert(body.push(c)[body.len() as int] == c);
    }
}

/// One digit is its value. A plus sign before digits changes nothing, and by itself is
/// no number; nor is nothing at all.
pub proof fn lemma_number_begins(c: char, s: Seq<char>, radix: nat, max: nat)
    requires
        2 <= radix <= 16,
    ensures
        digit(c) < radix && digit(c) <= max ==> number(seq![c], radix, max) == Some(digit(c)),
        s.len() > 0 && s[0] != '+' ==> number(seq!['+'] + s, radix, max) == number(s, radix, max),
        number(seq!['+'], radix, max) is None,
        number(Seq::empty(), radix, max) is None,
{
    let one = seq![c];
    assert(one.drop_last() =~= Seq::empty());
    assert(digits_value(Seq::empty(), radix) == 0);
    assert(digits_value(one, radix) == digit(c)) by {
        assert(0 * radix == 0);
    }
    assert(digit('+') >= radix);
    if digit(c) < radix {
        assert(unsigned_part(one) =~= one);
        assert(all_digits(one, radix));
    }
    assert((seq!['+'] + s).skip(1) =~= s);
    assert(seq!['+'].skip(1) =~= Seq::<char>::empty());
}

/// Any number of dollar signs before an address is as good as none.
pub proof fn lemma_dollars_are_dropped(s: Seq<char>)
    ensures
        hex32_of(seq!['$'] + s) == hex32_of(s),
        s.len() > 0 && s[0] != '$' ==> hex32_of(s) == (match number(s, 16, 0xFFFF_FFFF) {
            Some(v) => Some(v as u32),
            None => None,
        }),
{
    assert((seq!['$'] + s).skip(1) =~= s);
    assert(bare(seq!['$'] + s) == bare(s));
}

proof fn lemma_filled_value(n: nat, s: Seq<char>, radix: nat)
    requires
        2 <= radix <= 16,
        all_digits(s, radix),
    ensures
        digits_value(fill('0', n as int) + s, radix) == digits_value(s, radix),
        all_digits(fill('0', n as int) + s, radix),
    decreases n + s.len(),
{
    let t = fill('0', n as int) + s;
    if s.len() > 0 {
        assert(t.drop_last() =~= fill('0', n as int) + s.drop_last());
        lemma_filled_value(n, s.drop_last(), radix);
        assert forall|i: int| 0 <= i < t.len() implies digit(#[trigger] t[i]) < radix by {
            if i >= n {
                assert(t[i] == s[i - n]);
            }
        }
    } else if n > 0 {
        assert(t.drop_last() =~= fill('0', n - 1) + s);
        lemma_filled_value((n - 1) as nat, s, radix);
        assert(digits_value(t, radix) == digits_value(t.drop_last(), radix) * radix + digit('0'));
        assert(0 * radix == 0);
        assert(digits_value(s, radix) == 0);
    } else {
        assert(t =~= s);
    }
}

/// A figure written to a width reads back as the figure and is at least as wide.
pub proof fn lemma_figures_read_back(v: nat, width: int)
    ensures
        number(hex(v as int, width), 16, v) == Some(v),
        number(dec_wide(v as int, width), 10, v) == Some(v),
        hex(v as int, width).len() >= width,
        dec_wide(v as int, width).len() >= width,
        width <= digits_of(v, 16).len() ==> hex(v as int, width) == digits_of(v, 16),
        width <= digits_of(v, 10).len() ==> dec_wide(v as int, width) == digits_of(v, 10),
{
    crate::number::lemma_digits_of(v, 16);
    crate::number::lemma_digits_of(v, 10);
    let h = width - digits_of(v, 16).len();
    let d = width - digits_of(v, 10).len();
    let hn: nat = if h > 0 {
        h as nat
    } else {
        0
    };
    let dn: nat = if d > 0 {
        d as nat
    } else {
        0
    };
    assert(fill('0', h) =~= fill('0', hn as int));
    assert(fill('0', d) =~= fill('0', dn as int));
    lemma_filled_value(hn, digits_of(v, 16), 16);
    lemma_filled_value(dn, digits_of(v, 10), 10);
    assert(hn == 0 ==> fill('0', h) + digits_of(v, 16) =~= digits_of(v, 16));
    assert(dn == 0 ==> fill('0', d) + digits_of(v, 10) =~= digits_of(v, 10));
    assert(hex(v as int, width)[0] != '+');
    assert(dec_wide(v as int, width)[0] != '+');
}

proof fn lemma_lower_hex(v: nat)
    ensures
        lower_hex_of(v).len() > 0,
        lower_hex_of(v)[0] != '+',
        all_digits(lower_hex_of(v), 16),
        digits_value(lower_hex_of(v), 16) == v,
        forall|i: int|
            0 <= i < lower_hex_of(v).len() ==> !('A' <= (#[trigger] lower_hex_of(v)[i]) <= 'Z'),
    decreases v,
{
    let s = lower_hex_of(v);
    if v < 16 {
        assert(s.drop_last() =~= Seq::empty());
        assert(digits_value(Seq::empty(), 16) == 0);
    } else {
        lemma_lower_hex(v / 16);
        assert(s.drop_last() =~= lower_hex_of(v / 16));
    }
}

/// A packet's figure has no capitals and reads back as the figure.
pub proof fn lemma_lower_figures_read_back(v: nat)
    ensures
        number(lower_hex_of(v), 16, v) == Some(v),
        forall|i: int|
            0 <= i < lower_hex_of(v).len() ==> !('A' <= (#[trigger] lower_hex_of(v)[i]) <= 'Z'),
{
    lemma_lower_hex(v);
}

/// Padding adds spaces behind a text, aligning adds them before it, up to the width
/// and never cutting anything off.
pub proof fn lemma_padding_keeps_the_text(s: Seq<char>, width: int)
    ensures
        padded(s, width).take(s.len() as int) == s,
        right_aligned(s, width).skip(right_aligned(s, width).len() - s.len()) == s,
        padded(s, width).len() == (if width > s.len() {
            width
        } else {
            s.len() as int
        }),
        right_aligned(s, width).len() == padded(s, width).len(),
        forall|i: int|
            s.len() <= i < padded(s, width).len() ==> #[trigger] padded(s, width)[i] == ' ',
        forall|i: int|
            0 <= i < right_aligned(s, width).len() - s.len() ==> #[trigger] right_aligned(
                s,
                width,
            )[i] == ' ',
{
    assert(padded(s, width).take(s.len() as int) =~= s);
    assert(right_aligned(s, width).skip(right_aligned(s, width).len() - s.len()) =~= s);
}

/// Capitals: a small letter becomes the capital thirty-two places before it, and every
/// other character stays. Doing it twice is doing it once.
pub proof fn lemma_capitals(s: Seq<char>)
    ensures
        upper(s).len() == s.len(),
        forall|i: int|
            #![trigger upper(s)[i]]
            0 <= i < s.len() ==> ('a' <= s[i] <= 'z' ==> upper(s)[i] as int == s[i] as int - 32)
                && (!('a' <= s[i] <= 'z') ==> upper(s)[i] == s[i]),
        upper(upper(s)) == upper(s),
{
    assert(upper(upper(s)) =~= upper(s));
}

proof fn lemma_split_grows(s: Seq<char>, w: Seq<char>)
    requires
        forall|i: int| 0 <= i < w.len() ==> !is_space(#[trigger] w[i]),
    ensures
        split_state(s + w) == (split_state(s).0, split_state(s).1 + w),
    decreases w.len(),
{
    if w.len() == 0 {
        assert(s + w =~= s);
        assert(split_state(s).1 + w =~= split_state(s).1);
    } else {
        assert((s + w).drop_last() =~= s + w.drop_last());
        assert((s + w).last() == w.last());
        lemma_split_grows(s, w.drop_last());
        assert((split_state(s).1 + w.drop_last()).push(w.last()) =~= split_state(s).1 + w);
    }
}

/// Words put together with a space between them are split into the same words.
pub proof fn lemma_words_of_joined(parts: Seq<Seq<char>>)
    requires
        forall|i: int| 0 <= i < parts.len() ==> (#[trigger] parts[i]).len() > 0,
        forall|i: int, j: int|
            0 <= i < parts.len() && 0 <= j < parts[i].len() ==> !is_space(#[trigger] parts[i][j]),
    ensures
        words(joined(parts)) == parts,
        parts.len() > 0 ==> split_state(joined(parts)) == (parts.drop_last(), parts.last()),
    decreases parts.len(),
{
    if parts.len() == 0 {
        assert(words(joined(parts)) =~= parts);
    } else if parts.len() == 1 {
        let w = parts[0];
        lemma_split_grows(Seq::empty(), w);
        assert(Seq::<char>::empty() + w =~= w);
        assert(parts.drop_last() =~= Seq::empty());
        assert(words(joined(parts)) =~= parts);
    } else {
        let front = parts.drop_last();
        let w = parts.last();
        assert forall|j: int| 0 <= j < w.len() implies !is_space(#[trigger] w[j]) by {
            assert(!is_space(parts[parts.len() - 1][j]));
        }
        lemma_words_of_joined(front);
        let s = joined(front).push(' ');
        assert(s.drop_last() =~= joined(front));
        assert(front.drop_last().push(front.last()) =~= front);
        assert(split_state(s) == (front, Seq::<char>::empty()));
        lemma_split_grows(s, w);
        assert(Seq::<char>::empty() + w =~= w);
        assert(words(joined(parts)) =~= parts);
    }
}

/// Tabs, line ends and spaces part words; letters, digits and marks do not.
pub proof fn lemma_spaces(c: char)
    ensures
        is_space(' ') && is_space('\t') && is_space('\n') && is_space('\r'),
        '!' <= c <= '~' ==> !is_space(c),
{
}

proof fn lemma_trim_start(s: Seq<char>) -> (k: int)
    ensures
        0 <= k <= s.len(),
        trim_start(s) == s.skip(k),
        forall|i: int| 0 <= i < k ==> is_space(#[trigger] s[i]),
        k < s.len() ==> !is_space(s[k]),
    decreases s.len(),
{
    if s.len() > 0 && is_space(s[0]) {
        let k = lemma_trim_start(s.skip(1));
        assert(s.skip(1).skip(k) =~= s.skip(k + 1));
        assert forall|i: int| 0 <= i < k + 1 implies is_space(#[trigger] s[i]) by {
            if i > 0 {
                assert(s[i] == s.skip(1)[i - 1]);
            }
        }
        k + 1
    } else {
        assert(s.skip(0) =~= s);
        0
    }
}

proof fn lemma_trim_end(s: Seq<char>) -> (k: int)
    ensures
        0 <= k <= s.len(),
        trim_end(s) == s.take(k),
        forall|i: int| k <= i < s.len() ==> is_space(#[trigger] s[i]),
        k > 0 ==> !is_space(s[k - 1]),
    decreases s.len(),
{
    if s.len() > 0 && is_space(s.last()) {
        let k = lemma_trim_end(s.drop_last());
        assert(s.drop_last().take(k) =~= s.take(k));
        assert forall|i: int| k <= i < s.len() implies is_space(#[trigger] s[i]) by {
            if i < s.len() - 1 {
                assert(s[i] == s.drop_last()[i]);
            }
        }
        k
    } else {
        assert(s.take(s.len() as int) =~= s);
        s.len() as int
    }
}

/// Trimming takes whitespace off both ends and nothing else: what is left is a piece
/// of the text without whitespace at either end, and what is gone was whitespace.
pub proof fn lemma_trimming(s: Seq<char>) -> (r: (int, int))
    ensures
        0 <= r.0 <= r.1 <= s.len(),
        trimmed(s) == s.subrange(r.0, r.1),
        forall|i: int| 0 <= i < r.0 ==> is_space(#[trigger] s[i]),
        forall|i: int| r.1 <= i < s.len() ==> is_space(#[trigger] s[i]),
        trimmed(s).len() > 0 ==> !is_space(trimmed(s)[0]) && !is_space(trimmed(s).last()),
{
    let a = lemma_trim_start(s);
    let t = s.skip(a);
    let b = lemma_trim_end(t);
    assert(t.take(b) =~= s.subrange(a, a + b));
    assert forall|i: int| a + b <= i < s.len() implies is_space(#[trigger] s[i]) by {
        assert(s[i] == t[i - a]);
    }
    if b > 0 {
        assert(t[b - 1] == s.subrange(a, a + b).last());
        assert(s[a] == s.subrange(a, a + b)[0]);
        assert(a < s.len());
    }
    (a, a + b)
}

proof fn lemma_line_grows(s: Seq<char>, l: Seq<char>)
    requires
        !l.contains('\n'),
    ensures
        line_state(s + l) == (line_state(s).0, line_state(s).1 + l),
    decreases l.len(),
{
    if l.len() == 0 {
        assert(s + l =~= s);
        assert(line_state(s).1 + l =~= line_state(s).1);
    } else {
        assert((s + l).drop_last() =~= s + l.drop_last());
        assert(l.last() != '\n') by {
            assert(l[l.len() - 1] == l.last());
        }
        assert(!l.drop_last().contains('\n')) by {
            if l.drop_last().contains('\n') {
                let i = choose|i: int| 0 <= i < l.drop_last().len() && l.drop_last()[i] == '\n';
                assert(l[i] == '\n');
            }
        }
        assert((s + l).last() == l.last());
        lemma_line_grows(s, l.drop_last());
        assert((line_state(s).1 + l.drop_last()).push(l.last()) =~= line_state(s).1 + l);
    }
}

/// A line that ends adds itself to the lines, and starts the next one afresh; a carriage
/// return before the end belongs to the end.
pub proof fn lemma_lines_end(s: Seq<char>, l: Seq<char>)
    requires
        s.len() == 0 || s.last() == '\n',
        !l.contains('\n'),
        !l.contains('\r'),
    ensures
        lines_of((s + l).push('\n')) == lines_of(s).push(l),
        lines_of((s + l).push('\r').push('\n')) == lines_of(s).push(l),
        l.len() > 0 ==> lines_of(s + l) == lines_of(s).push(l),
{
    assert(line_state(s).1.len() == 0);
    lemma_line_grows(s, l);
    assert(line_state(s).1 + l =~= l);
    assert(l.len() > 0 ==> l.last() != '\r') by {
        if l.len() > 0 {
            assert(l[l.len() - 1] == l.last());
        }
    }
    let a = (s + l).push('\n');
    assert(a.drop_last() =~= s + l);
    let m = (s + l).push('\r');
    assert(m.drop_last() =~= s + l);
    assert(m.last() == '\r');
    assert(line_state(m) == (line_state(s).0, l.push('\r')));
    let b = m.push('\n');
    assert(b.drop_last() =~= m);
    assert(b.last() == '\n');
    assert(l.push('\r').drop_last() =~= l);
    assert(line_state(b) == (line_state(s).0.push(l), Seq::<char>::empty()));
}

proof fn lemma_first_row(s: Seq<(u16, String)>, name: Seq<char>, i: int)
    requires
        0 <= i < s.len(),
        s[i].1@ == name,
        forall|j: int| 0 <= j < i ==> (#[trigger] s[j]).1@ != name,
    ensures
        first_row(s, name) == i,
    decreases i,
{
    if i > 0 {
        let t = s.skip(1);
        assert forall|j: int| 0 <= j < i - 1 implies (#[trigger] t[j]).1@ != name by {
            assert(t[j] == s[j + 1]);
        }
        lemma_first_row(t, name, i - 1);
    }
}

proof fn lemma_offset_row(s: Seq<(u16, String)>, off: u16, i: int)
    requires
        0 <= i <= s.len(),
        i < s.len() ==> s[i].0 == off,
        forall|j: int| 0 <= j < i ==> (#[trigger] s[j]).0 != off,
    ensures
        offset_row(s, off) == i,
    decreases i,
{
    if i > 0 {
        let t = s.skip(1);
        assert forall|j: int| 0 <= j < i - 1 implies (#[trigger] t[j]).0 != off by {
            assert(t[j] == s[j + 1]);
        }
        lemma_offset_row(t, off, i - 1);
    }
}

/// A register goes by its first name in the table, in any case of letters; a word that
/// names none is an offset in hexadecimal, within the chip's registers.
pub proof fn lemma_registers_by_name(lex: &Lexicon, word: Seq<char>, i: int)
    ensures
        0 <= i < lex.registers@.len() && lex.registers@[i].1@ == upper(word) && (forall|j: int|
            0 <= j < i ==> (#[trigger] lex.registers@[j]).1@ != upper(word)) ==> lex.register(word)
            == Some(lex.registers@[i].0),
        (forall|j: int|
            0 <= j < lex.registers@.len() ==> (#[trigger] lex.registers@[j]).1@ != upper(word))
            ==> lex.register(word) == (match number(upper(word), 16, 0x1FE) {
            Some(v) => Some(v as u16),
            None => None,
        }),
        lex.register(upper(word)) == lex.register(word),
{
    lemma_capitals(word);
    if 0 <= i < lex.registers@.len() && lex.registers@[i].1@ == upper(word) && (forall|j: int|
        0 <= j < i ==> (#[trigger] lex.registers@[j]).1@ != upper(word)) {
        lemma_first_row(lex.registers@, upper(word), i);
        assert(lex.names_register(upper(word), i));
    }
    if forall|j: int|
        0 <= j < lex.registers@.len() ==> (#[trigger] lex.registers@[j]).1@ != upper(word) {
        assert forall|k: int| !lex.names_register(upper(word), k) by {
            if lex.names_register(upper(word), k) {
                assert(lex.registers@[k].1@ == upper(word));
            }
        }
    }
}

/// A register is shown by the first name that stands at its offset, or by a question
/// mark.
pub proof fn lemma_registers_are_named(lex: &Lexicon, off: u16, i: int)
    ensures
        0 <= i < lex.registers@.len() && lex.registers@[i].0 == off && (forall|j: int|
            0 <= j < i ==> (#[trigger] lex.registers@[j]).0 != off) ==> lex.register_name(off)
            == lex.registers@[i].1@,
        (forall|j: int| 0 <= j < lex.registers@.len() ==> (#[trigger] lex.registers@[j]).0 != off)
            ==> lex.register_name(off) == "?"@,
{
    if 0 <= i < lex.registers@.len() && lex.registers@[i].0 == off && (forall|j: int|
        0 <= j < i ==> (#[trigger] lex.registers@[j]).0 != off) {
        lemma_offset_row(lex.registers@, off, i);
    }
    if forall|j: int| 0 <= j < lex.registers@.len() ==> (#[trigger] lex.registers@[j]).0 != off {
        lemma_offset_row(lex.registers@, off, lex.registers@.len() as int);
    }
}

proof fn lemma_class_row(s: Seq<crate::lexicon::WatchClass>, name: Seq<char>, i: int)
    requires
        0 <= i <= s.len(),
        i < s.len() ==> s[i].token@ == name,
        forall|j: int| 0 <= j < i ==> (#[trigger] s[j]).token@ != name,
    ensures
        class_row(s, name) == i,
    decreases i,
{
    if i > 0 {
        let t = s.skip(1);
        assert forall|j: int| 0 <= j < i - 1 implies (#[trigger] t[j]).token@ != name by {
            assert(t[j] == s[j + 1]);
        }
        lemma_class_row(t, name, i - 1);
    }
}

/// A watch class goes by its token, in any case of letters, and by nothing else.
pub proof fn lemma_classes_by_token(lex: &Lexicon, word: Seq<char>, i: int)
    requires
        lex.wf(),
    ensures
        0 <= i < lex.classes@.len() && lex.classes@[i].token@ == upper(word) && (forall|j: int|
            0 <= j < i ==> (#[trigger] lex.classes@[j]).token@ != upper(word)) ==> lex.class(word)
            == Some(i as u8),
        (forall|j: int|
            0 <= j < lex.classes@.len() ==> (#[trigger] lex.classes@[j]).token@ != upper(word))
            ==> lex.class(word) is None,
{
    if 0 <= i < lex.classes@.len() && lex.classes@[i].token@ == upper(word) && (forall|j: int|
        0 <= j < i ==> (#[trigger] lex.classes@[j]).token@ != upper(word)) {
        lemma_class_row(lex.classes@, upper(word), i);
    }
    if forall|j: int|
        0 <= j < lex.classes@.len() ==> (#[trigger] lex.classes@[j]).token@ != upper(word) {
        lemma_class_row(lex.classes@, upper(word), lex.classes@.len() as int);
    }
}

/// An exception vector is shown by its name in the table, and past the table by its
/// number.
pub proof fn lemma_vectors_are_named(lex: &Lexicon, vector: u16)
    ensures
        vector < lex.vectors@.len() ==> lex.vector_name(vector) == lex.vectors@[vector as int]@,
        vector >= lex.vectors@.len() ==> lex.vector_name(vector) == "vector "@ + digits_of(
            vector as nat,
            10,
        ),
{
}

} // verus!
