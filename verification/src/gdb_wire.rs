//! The GDB packets that the window itself has to understand: monitor commands
//! and packets that move the machine.

use vstd::prelude::*;
use vstd::utf8::{decode_utf8, valid_utf8};

use crate::number::digit;
use crate::number::digit_of;
use crate::text::chars_of;
use crate::text::spells;
use crate::text::split_words;
use crate::text::starts;
use crate::text::starts_with;
use crate::text::tail;
use crate::text::trim;
use crate::text::trimmed;
use crate::text::views;
use crate::text::words;

verus! {

/// `String::from_utf8`: the documentation says that it makes a string of the
/// bytes where they are valid UTF-8, and gives an error where they are not.
#[verifier::external_body]
fn utf8_text(bytes: Vec<u8>) -> (r: Option<String>)
    ensures
        r is Some <==> valid_utf8(bytes@),
        r matches Some(s) ==> s@ == decode_utf8(bytes@),
{
    String::from_utf8(bytes).ok()
}

/// The bytes that pairs of hexadecimal digits spell.
pub open spec fn hex_bytes(s: Seq<char>) -> Option<Seq<u8>> {
    if s.len() % 2 == 0 && crate::number::all_digits(s, 16) {
        Some(
            Seq::new(
                (s.len() / 2) as nat,
                |i: int| (digit(s[2 * i]) * 16 + digit(s[2 * i + 1])) as u8,
            ),
        )
    } else {
        None
    }
}

pub fn hex_decode(s: &[char]) -> (r: Option<Vec<u8>>)
    ensures
        r matches Some(v) ==> hex_bytes(s@) == Some(v@),
        r is None ==> hex_bytes(s@) is None,
{
    if s.len() % 2 != 0 {
        return None;
    }
    let mut out: Vec<u8> = Vec::new();
    let mut i: usize = 0;
    while i < s.len()
        invariant
            i <= s@.len(),
            i % 2 == 0,
            s@.len() % 2 == 0,
            out@.len() == i / 2,
            forall|k: int| 0 <= k < i ==> digit(#[trigger] s@[k]) < 16,
            forall|k: int|
                0 <= k < i / 2 ==> #[trigger] out@[k] == (digit(s@[2 * k]) * 16 + digit(
                    s@[2 * k + 1],
                )) as u8,
        decreases s@.len() - i,
    {
        let hi: u32 = digit_of(s[i]);
        let lo: u32 = digit_of(s[i + 1]);
        if hi >= 16 || lo >= 16 {
            return None;
        }
        out.push((hi * 16 + lo) as u8);
        i += 2;
    }
    assert(out@ =~= hex_bytes(s@).unwrap());
    Some(out)
}

/// The text of a monitor command packet, when it is one.
pub open spec fn qrcmd(p: Seq<char>) -> Option<Seq<char>> {
    if !starts(p, "qRcmd,"@) {
        None
    } else {
        match hex_bytes(p.skip("qRcmd,"@.len() as int)) {
            Some(bytes) => if valid_utf8(bytes) {
                Some(trimmed(decode_utf8(bytes)))
            } else {
                None
            },
            None => None,
        }
    }
}

pub fn decode_qrcmd(packet: &[char]) -> (r: Option<Vec<char>>)
    ensures
        r matches Some(t) ==> qrcmd(packet@) == Some(t@),
        r is None ==> qrcmd(packet@) is None,
{
    if !starts_with(packet, "qRcmd,") {
        return None;
    }
    proof {
        reveal_strlit("qRcmd,");
    }
    let rest = tail(packet, 6);
    match hex_decode(&rest) {
        Some(bytes) => match utf8_text(bytes) {
            Some(text) => {
                let chars = chars_of(text.as_str());
                Some(trim(&chars))
            },
            None => None,
        },
        None => None,
    }
}

pub open spec fn first_word_is(s: Seq<char>, word: Seq<char>) -> bool {
    words(s).len() > 0 && words(s)[0] == word
}

/// Whether a packet moves the machine rather than reading it or resuming it
/// in place: reverse execution, a resume at an address, a write to the
/// program counter, a profile run or a reset.
pub open spec fn repositions(p: Seq<char>) -> bool {
    ||| p == "bs"@
    ||| p == "bc"@
    ||| p.len() > 1 && (p[0] == 's' || p[0] == 'c')
    ||| starts(p, "P11="@)
    ||| p.len() > 0 && (p[0] == 'C' || p[0] == 'S') && p.contains(';')
    ||| (qrcmd(p) matches Some(c) && (first_word_is(c, "profile"@) || first_word_is(c, "reset"@)))
}

fn has_char(s: &[char], c: char) -> (r: bool)
    ensures
        r == s@.contains(c),
{
    let mut i: usize = 0;
    while i < s.len()
        invariant
            i <= s@.len(),
            forall|j: int| 0 <= j < i ==> s@[j] != c,
        decreases s@.len() - i,
    {
        if s[i] == c {
            return true;
        }
        i += 1;
    }
    false
}

pub fn repositions_machine(packet: &[char]) -> (r: bool)
    ensures
        r == repositions(packet@),
{
    if spells(packet, "bs") || spells(packet, "bc") {
        return true;
    }
    if packet.len() > 1 && (packet[0] == 's' || packet[0] == 'c') {
        return true;
    }
    if starts_with(packet, "P11=") {
        return true;
    }
    if packet.len() > 0 && (packet[0] == 'C' || packet[0] == 'S') && has_char(packet, ';') {
        return true;
    }
    match decode_qrcmd(packet) {
        Some(command) => {
            let parts = split_words(&command);
            assert(parts@.len() == views(parts@).len());
            parts.len() > 0 && (spells(&parts[0], "profile") || spells(&parts[0], "reset"))
        },
        None => false,
    }
}

} // verus!
