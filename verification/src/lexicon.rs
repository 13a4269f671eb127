//! The names that the console and the monitor commands go by: custom
//! registers, watch classes and exception vectors, as tables that the host
//! supplies for the machine it runs.

use vstd::prelude::*;

use crate::number::dec;
use crate::number::number;
use crate::number::parse_number;
use crate::number::put_dec;
use crate::text::same;
use crate::text::chars_of;
use crate::text::to_upper;
use crate::text::upper;

verus! {

/// A kind of access that a watch can be narrowed to.
#[derive(PartialEq, Eq, Debug)]
pub struct WatchClass {
    /// The word that names it, in capitals.
    pub token: String,
    /// Its short name, for lists.
    pub label: String,
    /// Its name in a sentence.
    pub title: String,
    /// An instruction stands behind such an access.
    pub takes_pc: bool,
}

#[derive(PartialEq, Eq, Debug)]
pub struct Lexicon {
    pub registers: Vec<(u16, String)>,
    pub classes: Vec<WatchClass>,
    pub vectors: Vec<String>,
}

/// The highest offset of a custom register.
pub const LAST_REGISTER: u64 = 0x1FE;

impl Lexicon {
    /// A class is referred to by a one-byte row number.
    pub open spec fn wf(&self) -> bool {
        self.classes@.len() <= 255
    }

    pub open spec fn names_register(&self, name: Seq<char>, i: int) -> bool {
        0 <= i < self.registers@.len() && self.registers@[i].1@ == name
    }

    /// The offset of a register by its name in the table, or else by a
    /// hexadecimal number.
    pub open spec fn register(&self, word: Seq<char>) -> Option<u16> {
        let name = upper(word);
        if exists|i: int| #[trigger] self.names_register(name, i) {
            Some(self.registers@[first_row(self.registers@, name)].0)
        } else {
            match number(name, 16, LAST_REGISTER as nat) {
                Some(v) => Some(v as u16),
                None => None,
            }
        }
    }

    /// The name of a register, by the first row of the table that has it.
    pub open spec fn register_name(&self, off: u16) -> Seq<char> {
        let i = offset_row(self.registers@, off);
        if i < self.registers@.len() {
            self.registers@[i].1@
        } else {
            "?"@
        }
    }

    pub open spec fn class(&self, word: Seq<char>) -> Option<u8> {
        let i = class_row(self.classes@, upper(word));
        if i < self.classes@.len() {
            Some(i as u8)
        } else {
            None
        }
    }

    pub open spec fn vector_name(&self, vector: u16) -> Seq<char> {
        if vector < self.vectors@.len() {
            self.vectors@[vector as int]@
        } else {
            "vector "@ + dec(vector as int)
        }
    }

    pub fn new() -> (r: Lexicon)
        ensures
            r.wf(),
            r.registers@.len() == 0,
            r.classes@.len() == 0,
            r.vectors@.len() == 0,
    {
        Lexicon { registers: Vec::new(), classes: Vec::new(), vectors: Vec::new() }
    }

    pub fn parse_custom_reg(&self, word: &[char]) -> (r: Option<u16>)
        ensures
            r == self.register(word@),
    {
        let name = to_upper(word);
        let mut i: usize = 0;
        assert(self.registers@.skip(0) =~= self.registers@);
        while i < self.registers.len()
            invariant
                i <= self.registers@.len(),
                name@ == upper(word@),
                forall|j: int| 0 <= j < i ==> !self.names_register(name@, j),
                first_row(self.registers@, name@) == i + first_row(
                    self.registers@.skip(i as int),
                    name@,
                ),
            decreases self.registers@.len() - i,
        {
            let entry = chars_of(self.registers[i].1.as_str());
            assert(self.registers@.skip(i as int).skip(1) =~= self.registers@.skip(i + 1));
            if same(&entry, &name) {
                assert(self.names_register(name@, i as int));
                return Some(self.registers[i].0);
            }
            i += 1;
        }
        match parse_number(&name, 16, LAST_REGISTER) {
            Some(v) => Some(v as u16),
            None => None,
        }
    }

    pub fn custom_reg_name(&self, off: u16) -> (r: String)
        ensures
            r@ == self.register_name(off),
    {
        let mut i: usize = 0;
        assert(self.registers@.skip(0) =~= self.registers@);
        while i < self.registers.len()
            invariant
                i <= self.registers@.len(),
                offset_row(self.registers@, off) == i + offset_row(
                    self.registers@.skip(i as int),
                    off,
                ),
            decreases self.registers@.len() - i,
        {
            assert(self.registers@.skip(i as int).skip(1) =~= self.registers@.skip(i + 1));
            if self.registers[i].0 == off {
                return self.registers[i].1.clone();
            }
            i += 1;
        }
        "?".to_owned()
    }

    pub fn parse_class(&self, word: &[char]) -> (r: Option<u8>)
        requires
            self.wf(),
        ensures
            r == self.class(word@),
            r matches Some(i) ==> i < self.classes@.len(),
    {
        let name = to_upper(word);
        let mut i: usize = 0;
        assert(self.classes@.skip(0) =~= self.classes@);
        while i < self.classes.len()
            invariant
                self.wf(),
                i <= self.classes@.len(),
                name@ == upper(word@),
                class_row(self.classes@, name@) == i + class_row(
                    self.classes@.skip(i as int),
                    name@,
                ),
            decreases self.classes@.len() - i,
        {
            let entry = chars_of(self.classes[i].token.as_str());
            assert(self.classes@.skip(i as int).skip(1) =~= self.classes@.skip(i + 1));
            if same(&entry, &name) {
                return Some(i as u8);
            }
            i += 1;
        }
        None
    }

    pub fn exception_vector_name(&self, vector: u16) -> (r: String)
        ensures
            r@ == self.vector_name(vector),
    {
        if (vector as usize) < self.vectors.len() {
            self.vectors[vector as usize].clone()
        } else {
            let mut out = "vector ".to_owned();
            put_dec(&mut out, vector as u64);
            out
        }
    }
}

pub open spec fn first_row(s: Seq<(u16, String)>, name: Seq<char>) -> int
    decreases s.len(),
{
    if s.len() == 0 || s[0].1@ == name {
        0
    } else {
        1 + first_row(s.skip(1), name)
    }
}

pub open spec fn offset_row(s: Seq<(u16, String)>, off: u16) -> int
    decreases s.len(),
{
    if s.len() == 0 || s[0].0 == off {
        0
    } else {
        1 + offset_row(s.skip(1), off)
    }
}

pub open spec fn class_row(s: Seq<WatchClass>, name: Seq<char>) -> int
    decreases s.len(),
{
    if s.len() == 0 || s[0].token@ == name {
        0
    } else {
        1 + class_row(s.skip(1), name)
    }
}

} // verus!
