//! The console's command language: a line of words becomes a command with its
//! arguments read, or the message that says what is wrong with it. Command
//! names are matched without regard to case; arguments keep theirs.

use vstd::prelude::*;

use crate::lexicon::Lexicon;
use crate::number::number;
use crate::number::parse_number;
use crate::text::chars_of;
use crate::text::glue;
use crate::text::glued;
use crate::text::join;
use crate::text::joined;
use crate::text::spells;
use crate::text::split_words;
use crate::text::starts;
use crate::text::starts_with;
use crate::text::string_of;
use crate::text::tail;
use crate::text::to_upper;
use crate::text::upper;
use crate::text::views;
use crate::text::words;
use crate::text::words_from;

verus! {

/// How a hunt filter compares a candidate's current value.
#[derive(Clone, Copy, PartialEq, Eq, Structural, Debug)]
pub enum HuntFilter {
    Equal(u32),
    NotEqual(u32),
    Less(u32),
    Greater(u32),
    Same,
    Different,
}

#[derive(Clone, Copy, PartialEq, Eq, Structural, Debug)]
pub enum HuntCommand {
    Show,
    Off,
    /// Begin, with values of this many bytes.
    Start(u32),
    List(u64),
    Filter(HuntFilter),
}

/// A list that the guest's operating system keeps.
#[derive(Clone, Copy, PartialEq, Eq, Structural, Debug)]
pub enum OsList {
    Tasks,
    Exec,
    Memory,
    Libraries,
    Devices,
    Resources,
    Ports,
    Segments,
}

/// A console command. `T` is the type of its texts, `B` of its bytes.
#[allow(inconsistent_fields)]
#[derive(PartialEq, Eq, Debug)]
pub enum Command<T, B> {
    Nothing,
    Help,
    Clear,
    Close,
    Status,
    Run,
    Pause,
    Step(u64),
    Over,
    Out,
    Frame,
    Line,
    CopperStep,
    RunTo(u32),
    ToSlot(u16, Option<u16>),
    ReverseStep(u64),
    ReverseFrame,
    ReverseRun,
    Break { addr: u32, cond: Option<T>, ignore: u32 },
    Watch { addr: u32, filter: Option<u8>, pc: Option<u32> },
    RegWatch(u16),
    BeamTrap(u16, Option<u16>),
    CopperBreak(u32),
    Catch(u16),
    Os(OsList),
    Task(T),
    CatchTask(Option<T>),
    CatchAlert,
    Guru(Option<u32>),
    Breaks,
    ClearBreaks,
    Regs,
    History(u64),
    Stack,
    Mem { addr: u32, len: u32 },
    Dis { addr: Option<u32>, count: u64 },
    Copper { start: Option<u32>, count: u64 },
    Hunt(HuntCommand),
    TraceStart(Option<T>),
    TraceStop,
    TraceStatus,
    WaveStart(T),
    WaveStop,
    WaveStatus,
    Blits,
    Custom,
    Poke { addr: u32, value: u16 },
    SetReg { reg: u8, value: u32, name: T },
    Find { pattern: B, start: u32 },
    Writer(u32),
    /// What is wrong with the line.
    Bad(T),
}

pub open spec fn opt_string(o: Option<String>) -> Option<Seq<char>> {
    match o {
        Some(s) => Some(s@),
        None => None,
    }
}

/// A command with its texts and bytes as sequences.
pub open spec fn command_view(c: Command<String, Vec<u8>>) -> Command<Seq<char>, Seq<u8>> {
    match c {
        Command::Nothing => Command::Nothing,
        Command::Help => Command::Help,
        Command::Clear => Command::Clear,
        Command::Close => Command::Close,
        Command::Status => Command::Status,
        Command::Run => Command::Run,
        Command::Pause => Command::Pause,
        Command::Step(n) => Command::Step(n),
        Command::Over => Command::Over,
        Command::Out => Command::Out,
        Command::Frame => Command::Frame,
        Command::Line => Command::Line,
        Command::CopperStep => Command::CopperStep,
        Command::RunTo(a) => Command::RunTo(a),
        Command::ToSlot(v, h) => Command::ToSlot(v, h),
        Command::ReverseStep(n) => Command::ReverseStep(n),
        Command::ReverseFrame => Command::ReverseFrame,
        Command::ReverseRun => Command::ReverseRun,
        Command::Break { addr, cond, ignore } => Command::Break {
            addr,
            cond: opt_string(cond),
            ignore,
        },
        Command::Watch { addr, filter, pc } => Command::Watch { addr, filter, pc },
        Command::RegWatch(r) => Command::RegWatch(r),
        Command::BeamTrap(v, h) => Command::BeamTrap(v, h),
        Command::CopperBreak(a) => Command::CopperBreak(a),
        Command::Catch(v) => Command::Catch(v),
        Command::Os(l) => Command::Os(l),
        Command::Task(t) => Command::Task(t@),
        Command::CatchTask(t) => Command::CatchTask(opt_string(t)),
        Command::CatchAlert => Command::CatchAlert,
        Command::Guru(c) => Command::Guru(c),
        Command::Breaks => Command::Breaks,
        Command::ClearBreaks => Command::ClearBreaks,
        Command::Regs => Command::Regs,
        Command::History(n) => Command::History(n),
        Command::Stack => Command::Stack,
        Command::Mem { addr, len } => Command::Mem { addr, len },
        Command::Dis { addr, count } => Command::Dis { addr, count },
        Command::Copper { start, count } => Command::Copper { start, count },
        Command::Hunt(h) => Command::Hunt(h),
        Command::TraceStart(t) => Command::TraceStart(opt_string(t)),
        Command::TraceStop => Command::TraceStop,
        Command::TraceStatus => Command::TraceStatus,
        Command::WaveStart(t) => Command::WaveStart(t@),
        Command::WaveStop => Command::WaveStop,
        Command::WaveStatus => Command::WaveStatus,
        Command::Blits => Command::Blits,
        Command::Custom => Command::Custom,
        Command::Poke { addr, value } => Command::Poke { addr, value },
        Command::SetReg { reg, value, name } => Command::SetReg { reg, value, name: name@ },
        Command::Find { pattern, start } => Command::Find { pattern: pattern@, start },
        Command::Writer(a) => Command::Writer(a),
        Command::Bad(t) => Command::Bad(t@),
    }
}

/// A word without its leading dollar signs.
pub open spec fn bare(s: Seq<char>) -> Seq<char>
    decreases s.len(),
{
    if s.len() > 0 && s[0] == '$' {
        bare(s.skip(1))
    } else {
        s
    }
}

/// A hexadecimal address or value; dollar signs may stand before it.
pub open spec fn hex32_of(s: Seq<char>) -> Option<u32> {
    match number(bare(s), 16, 0xFFFF_FFFF) {
        Some(v) => Some(v as u32),
        None => None,
    }
}

pub open spec fn dec16_of(s: Seq<char>) -> Option<u16> {
    match number(s, 10, 0xFFFF) {
        Some(v) => Some(v as u16),
        None => None,
    }
}

pub fn hex32(s: &[char]) -> (r: Option<u32>)
    ensures
        r == hex32_of(s@),
{
    let mut i: usize = 0;
    assert(s@.skip(0) =~= s@);
    while i < s.len() && s[i] == '$'
        invariant
            i <= s@.len(),
            bare(s@) == bare(s@.skip(i as int)),
        decreases s@.len() - i,
    {
        assert(s@.skip(i as int).skip(1) =~= s@.skip(i + 1));
        i += 1;
    }
    let rest = tail(s, i);
    match parse_number(&rest, 16, 0xFFFF_FFFF) {
        Some(v) => Some(v as u32),
        None => None,
    }
}

pub fn dec_u16(s: &[char]) -> (r: Option<u16>)
    ensures
        r == dec16_of(s@),
{
    match parse_number(s, 10, 0xFFFF) {
        Some(v) => Some(v as u16),
        None => None,
    }
}

/// A register by name, in the debug protocol's numbering: D0-D7, A0-A7, SP,
/// SR, PC.
pub open spec fn reg_of(s: Seq<char>) -> Option<u8> {
    let name = upper(s);
    if name.len() > 0 && (name[0] == 'D' || name[0] == 'A') {
        match number(name.skip(1), 10, 7) {
            Some(n) => Some(
                (n + if name[0] == 'A' {
                    8nat
                } else {
                    0
                }) as u8,
            ),
            None => None,
        }
    } else if name == "SP"@ {
        Some(15)
    } else if name == "SR"@ {
        Some(16)
    } else if name == "PC"@ {
        Some(17)
    } else {
        None
    }
}

pub fn reg_index(s: &[char]) -> (r: Option<u8>)
    ensures
        r == reg_of(s@),
        r matches Some(i) ==> i < 18,
{
    let name = to_upper(s);
    if name.len() > 0 && (name[0] == 'D' || name[0] == 'A') {
        let rest = tail(&name, 1);
        return match parse_number(&rest, 10, 7) {
            Some(n) => Some(
                n as u8 + if name[0] == 'A' {
                    8
                } else {
                    0
                },
            ),
            None => None,
        };
    }
    if spells(&name, "SP") {
        Some(15)
    } else if spells(&name, "SR") {
        Some(16)
    } else if spells(&name, "PC") {
        Some(17)
    } else {
        None
    }
}

/// A byte from two characters; a plus sign may stand for the upper digit.
pub open spec fn pair_byte(a: char, b: char) -> Option<u8> {
    match number(seq![a, b], 16, 0xFF) {
        Some(v) => Some(v as u8),
        None => None,
    }
}

/// The bytes that ASCII text spells in pairs of hexadecimal digits.
pub open spec fn hex_pattern(s: Seq<char>) -> Option<Seq<u8>>
    decreases s.len(),
{
    if s.len() == 0 {
        Some(Seq::empty())
    } else if s.len() == 1 {
        None
    } else {
        let n = s.len();
        match (hex_pattern(s.take(n - 2)), pair_byte(s[n - 2], s[n - 1])) {
            (Some(front), Some(b)) => Some(front.push(b)),
            _ => None,
        }
    }
}

/// A search pattern from words: at least one byte.
pub open spec fn pattern_of(parts: Seq<Seq<char>>) -> Option<Seq<u8>> {
    let all = glued(parts);
    if all.len() == 0 {
        None
    } else {
        hex_pattern(all)
    }
}

fn pair(a: char, b: char) -> (r: Option<u8>)
    ensures
        r == pair_byte(a, b),
{
    let two: Vec<char> = vec![a, b];
    assert(two@ =~= seq![a, b]);
    match parse_number(&two, 16, 0xFF) {
        Some(v) => Some(v as u8),
        None => None,
    }
}

pub fn parse_hex_pattern(parts: &[Vec<char>]) -> (r: Option<Vec<u8>>)
    ensures
        r matches Some(v) ==> pattern_of(views(parts@)) == Some(v@) && v@.len() > 0,
        r is None ==> pattern_of(views(parts@)) is None,
{
    let all = glue(parts);
    if all.len() == 0 {
        return None;
    }
    let mut out: Vec<u8> = Vec::new();
    let mut i: usize = 0;
    while i + 1 < all.len()
        invariant
            i <= all@.len(),
            i % 2 == 0,
            out@.len() == i / 2,
            all@.len() > 0,
            all@ == glued(views(parts@)),
            hex_pattern(all@.take(i as int)) == Some(out@),
        decreases all@.len() - i,
    {
        proof {
            let t = all@.take(i + 2);
            assert(t.take(i as int) =~= all@.take(i as int));
            assert(t[i as int] == all@[i as int] && t[i + 1] == all@[i + 1]);
        }
        match pair(all[i], all[i + 1]) {
            Some(b) => {
                out.push(b);
            },
            None => {
                proof {
                    lemma_pattern_prefix(all@, i + 2);
                }
                return None;
            },
        }
        i += 2;
    }
    if i < all.len() {
        proof {
            lemma_odd_pattern(all@);
        }
        return None;
    }
    assert(all@.take(i as int) =~= all@);
    Some(out)
}

proof fn lemma_odd_pattern(s: Seq<char>)
    requires
        s.len() % 2 == 1,
    ensures
        hex_pattern(s) is None,
    decreases s.len(),
{
    if s.len() > 1 {
        lemma_odd_pattern(s.take(s.len() - 2));
    }
}

proof fn lemma_pattern_prefix(s: Seq<char>, n: int)
    requires
        0 <= n <= s.len(),
        n % 2 == 0,
        hex_pattern(s.take(n)) is None,
    ensures
        hex_pattern(s) is None,
    decreases s.len(),
{
    if s.len() % 2 == 1 {
        lemma_odd_pattern(s);
    } else if n == s.len() {
        assert(s.take(n) =~= s);
    } else {
        let t = s.take(s.len() - 2);
        assert(t.take(n) =~= s.take(n));
        lemma_pattern_prefix(t, n);
    }
}

/// A count from a word of the arguments, within bounds.
pub open spec fn count_of(args: Seq<Seq<char>>, i: int, default: u64, lo: u64, hi: u64) -> u64 {
    let n = if i < args.len() {
        match number(args[i], 10, u64::MAX as nat) {
            Some(v) => v as u64,
            None => default,
        }
    } else {
        default
    };
    if n < lo {
        lo
    } else if n > hi {
        hi
    } else {
        n
    }
}

fn count(args: &Vec<Vec<char>>, i: usize, default: u64, lo: u64, hi: u64) -> (r: u64)
    ensures
        r == count_of(views(args@), i as int, default, lo, hi),
{
    let n: u64 = if i < args.len() {
        match parse_number(&args[i], 10, u64::MAX) {
            Some(v) => v,
            None => default,
        }
    } else {
        default
    };
    if n < lo {
        lo
    } else if n > hi {
        hi
    } else {
        n
    }
}

/// An argument that is an address, if it is there and is one.
pub open spec fn addr_arg(args: Seq<Seq<char>>, i: int) -> Option<u32> {
    if i < args.len() {
        hex32_of(args[i])
    } else {
        None
    }
}

fn addr_at(args: &Vec<Vec<char>>, i: usize) -> (r: Option<u32>)
    ensures
        r == addr_arg(views(args@), i as int),
{
    if i < args.len() {
        hex32(&args[i])
    } else {
        None
    }
}

pub open spec fn beam_arg(args: Seq<Seq<char>>, i: int) -> Option<u16> {
    if i < args.len() {
        dec16_of(args[i])
    } else {
        None
    }
}

fn beam_at(args: &Vec<Vec<char>>, i: usize) -> (r: Option<u16>)
    ensures
        r == beam_arg(views(args@), i as int),
{
    if i < args.len() {
        dec_u16(&args[i])
    } else {
        None
    }
}

pub open spec fn bad(message: Seq<char>) -> Command<Seq<char>, Seq<u8>> {
    Command::Bad(message)
}

fn bad_line(message: &str) -> (r: Command<String, Vec<u8>>)
    ensures
        command_view(r) == bad(message@),
{
    Command::Bad(message.to_owned())
}

pub open spec fn is_any(cmd: Seq<char>, a: Seq<char>, b: Seq<char>) -> bool {
    cmd == a || cmd == b
}

fn either(cmd: &[char], a: &str, b: &str) -> (r: bool)
    ensures
        r == is_any(cmd@, a@, b@),
{
    spells(cmd, a) || spells(cmd, b)
}

/// The commands about the console itself and about running the machine.
pub open spec fn run_command(cmd: Seq<char>, args: Seq<Seq<char>>) -> Option<
    Command<Seq<char>, Seq<u8>>,
> {
    if is_any(cmd, "HELP"@, "?"@) {
        Some(Command::Help)
    } else if cmd == "CLEAR"@ {
        Some(Command::Clear)
    } else if cmd == "CLOSE"@ || is_any(cmd, "QUIT"@, "EXIT"@) {
        Some(Command::Close)
    } else if cmd == "STATUS"@ {
        Some(Command::Status)
    } else if is_any(cmd, "RUN"@, "GO"@) || is_any(cmd, "CONTINUE"@, "C"@) {
        Some(Command::Run)
    } else if cmd == "PAUSE"@ {
        Some(Command::Pause)
    } else if is_any(cmd, "STEP"@, "S"@) {
        Some(Command::Step(count_of(args, 0, 1, 1, 1_000_000)))
    } else if cmd == "OVER"@ || is_any(cmd, "NEXT"@, "N"@) {
        Some(Command::Over)
    } else if is_any(cmd, "OUT"@, "FINISH"@) {
        Some(Command::Out)
    } else if is_any(cmd, "FRAME"@, "F"@) {
        Some(Command::Frame)
    } else if cmd == "LINE"@ {
        Some(Command::Line)
    } else if cmd == "CSTEP"@ {
        Some(Command::CopperStep)
    } else if cmd == "RUNTO"@ {
        Some(
            match addr_arg(args, 0) {
                Some(addr) => Command::RunTo(addr),
                None => bad("usage: RUNTO ADDR (hex)"@),
            },
        )
    } else if cmd == "TOSLOT"@ {
        Some(
            match beam_arg(args, 0) {
                Some(vpos) => Command::ToSlot(vpos, beam_arg(args, 1)),
                None => bad("usage: TOSLOT VPOS [HPOS] (decimal)"@),
            },
        )
    } else if is_any(cmd, "RSTEP"@, "RS"@) {
        Some(Command::ReverseStep(count_of(args, 0, 1, 1, 1_000_000)))
    } else if cmd == "RFRAME"@ {
        Some(Command::ReverseFrame)
    } else if is_any(cmd, "RRUN"@, "RC"@) {
        Some(Command::ReverseRun)
    } else {
        None
    }
}

fn parse_run(cmd: &[char], args: &Vec<Vec<char>>) -> (r: Option<Command<String, Vec<u8>>>)
    ensures
        r matches Some(c) ==> run_command(cmd@, views(args@)) == Some(command_view(c)),
        r is None ==> run_command(cmd@, views(args@)) is None,
{
    if either(cmd, "HELP", "?") {
        Some(Command::Help)
    } else if spells(cmd, "CLEAR") {
        Some(Command::Clear)
    } else if spells(cmd, "CLOSE") || either(cmd, "QUIT", "EXIT") {
        Some(Command::Close)
    } else if spells(cmd, "STATUS") {
        Some(Command::Status)
    } else if either(cmd, "RUN", "GO") || either(cmd, "CONTINUE", "C") {
        Some(Command::Run)
    } else if spells(cmd, "PAUSE") {
        Some(Command::Pause)
    } else if either(cmd, "STEP", "S") {
        Some(Command::Step(count(args, 0, 1, 1, 1_000_000)))
    } else if spells(cmd, "OVER") || either(cmd, "NEXT", "N") {
        Some(Command::Over)
    } else if either(cmd, "OUT", "FINISH") {
        Some(Command::Out)
    } else if either(cmd, "FRAME", "F") {
        Some(Command::Frame)
    } else if spells(cmd, "LINE") {
        Some(Command::Line)
    } else if spells(cmd, "CSTEP") {
        Some(Command::CopperStep)
    } else if spells(cmd, "RUNTO") {
        Some(
            match addr_at(args, 0) {
                Some(addr) => Command::RunTo(addr),
                None => bad_line("usage: RUNTO ADDR (hex)"),
            },
        )
    } else if spells(cmd, "TOSLOT") {
        Some(
            match beam_at(args, 0) {
                Some(vpos) => Command::ToSlot(vpos, beam_at(args, 1)),
                None => bad_line("usage: TOSLOT VPOS [HPOS] (decimal)"),
            },
        )
    } else if either(cmd, "RSTEP", "RS") {
        Some(Command::ReverseStep(count(args, 0, 1, 1, 1_000_000)))
    } else if spells(cmd, "RFRAME") {
        Some(Command::ReverseFrame)
    } else if either(cmd, "RRUN", "RC") {
        Some(Command::ReverseRun)
    } else {
        None
    }
}

pub open spec fn is_comparison(s: Seq<char>) -> bool {
    s == "=="@ || s == "="@ || s == "!="@ || s == "<"@ || s == "<="@ || s == ">"@ || s == ">="@
}

/// A condition: a comparison between two sides. What a side names is the
/// machine's to read.
pub open spec fn is_condition(w: Seq<Seq<char>>) -> bool {
    w.len() == 3 && !is_comparison(w[0]) && is_comparison(w[1]) && !is_comparison(w[2])
}

/// A breakpoint request: an address, an optional condition of three words, and
/// an optional number of hits to ignore. All of it is read in capitals.
pub open spec fn break_of(args: Seq<Seq<char>>) -> Option<(u32, Option<Seq<char>>, u32)> {
    let w = args.map_values(|s: Seq<char>| upper(s));
    if w.len() == 0 || hex32_of(w[0]) is None {
        None
    } else {
        let addr = hex32_of(w[0]).unwrap();
        if w.len() == 1 {
            Some((addr, None, 0))
        } else if w.len() >= 4 && !is_condition(w.subrange(1, 4)) {
            None
        } else if w.len() == 4 {
            Some((addr, Some(joined(w.subrange(1, 4))), 0))
        } else if (w.len() == 3 || w.len() == 6) && w[w.len() - 2] == "IGN"@ {
            match number(w[w.len() - 1], 10, 0xFFFF_FFFF) {
                Some(n) => Some(
                    (
                        addr,
                        if w.len() == 6 {
                            Some(joined(w.subrange(1, 4)))
                        } else {
                            None
                        },
                        n as u32,
                    ),
                ),
                None => None,
            }
        } else {
            None
        }
    }
}

fn upper_words(args: &Vec<Vec<char>>) -> (r: Vec<Vec<char>>)
    ensures
        views(r@) == views(args@).map_values(|s: Seq<char>| upper(s)),
{
    let mut out: Vec<Vec<char>> = Vec::new();
    let mut i: usize = 0;
    while i < args.len()
        invariant
            i <= args@.len(),
            views(out@) == views(args@).take(i as int).map_values(|s: Seq<char>| upper(s)),
        decreases args@.len() - i,
    {
        let word = to_upper(&args[i]);
        let ghost before = out@;
        out.push(word);
        i += 1;
        proof {
            assert(views(out@) =~= views(before).push(word@));
            assert(views(args@).take(i as int) =~= views(args@).take(i - 1).push(args@[i - 1]@));
            assert(views(out@) =~= views(args@).take(i as int).map_values(
                |s: Seq<char>| upper(s),
            ));
        }
    }
    assert(views(args@).take(i as int) =~= views(args@));
    out
}

fn compares(word: &Vec<char>) -> (r: bool)
    ensures
        r == is_comparison(word@),
{
    either(word, "==", "=") || either(word, "!=", "<") || either(word, "<=", ">") || spells(
        word,
        ">=",
    )
}

fn has_condition(w: &Vec<Vec<char>>) -> (r: bool)
    requires
        w@.len() >= 4,
    ensures
        r == is_condition(views(w@).subrange(1, 4)),
{
    !compares(&w[1]) && compares(&w[2]) && !compares(&w[3])
}

fn condition(w: &Vec<Vec<char>>) -> (r: String)
    requires
        w@.len() >= 4,
    ensures
        r@ == joined(views(w@).subrange(1, 4)),
{
    let mut three: Vec<Vec<char>> = Vec::new();
    three.push(crate::text::copy_chars(&w[1]));
    three.push(crate::text::copy_chars(&w[2]));
    three.push(crate::text::copy_chars(&w[3]));
    assert(views(three@) =~= views(w@).subrange(1, 4));
    let text = join(&three);
    string_of(&text)
}

pub fn parse_break_spec(args: &Vec<Vec<char>>) -> (r: Option<(u32, Option<String>, u32)>)
    ensures
        r matches Some(b) ==> break_of(views(args@)) == Some((b.0, opt_string(b.1), b.2)),
        r is None ==> break_of(views(args@)) is None,
{
    let w = upper_words(args);
    assert(views(w@).len() == w@.len());
    let n: usize = w.len();
    if n == 0 {
        return None;
    }
    let addr: u32 = match hex32(&w[0]) {
        Some(a) => a,
        None => {
            return None;
        },
    };
    if n == 1 {
        return Some((addr, None, 0));
    }
    if n >= 4 && !has_condition(&w) {
        return None;
    }
    if n == 4 {
        return Some((addr, Some(condition(&w)), 0));
    }
    if (n == 3 || n == 6) && spells(&w[n - 2], "IGN") {
        return match parse_number(&w[n - 1], 10, 0xFFFF_FFFF) {
            Some(count) => {
                let cond: Option<String> = if n == 6 {
                    Some(condition(&w))
                } else {
                    None
                };
                Some((addr, cond, count as u32))
            },
            None => None,
        };
    }
    None
}

/// The qualifiers of a watch: an access class and an instruction address, each
/// at most once and in either case.
pub open spec fn watch_quals(args: Seq<Seq<char>>, lex: &Lexicon) -> Result<
    (Option<u8>, Option<u32>),
    Seq<char>,
>
    decreases args.len(),
{
    if args.len() == 0 {
        Ok((None, None))
    } else {
        let token = args.last();
        match watch_quals(args.drop_last(), lex) {
            Err(message) => Err(message),
            Ok((filter, pc)) => if starts(upper(token), "PC="@) {
                if pc is Some {
                    Err("PC= given more than once"@)
                } else {
                    match hex32_of(token.skip(3)) {
                        Some(addr) => Ok((filter, Some(addr))),
                        None => Err("PC= wants an address"@),
                    }
                }
            } else {
                match lex.class(token) {
                    Some(class) => if filter is Some {
                        Err("watch class given more than once"@)
                    } else {
                        Ok((Some(class), pc))
                    },
                    None => Err(
                        "watch class is CPU, BLITTER, DISK, COPPER, or a DMA channel (BPL1..BPL8, SPR0..SPR7, AUD0..AUD3)"@,
                    ),
                }
            },
        }
    }
}

pub open spec fn watch_command(args: Seq<Seq<char>>, lex: &Lexicon) -> Command<
    Seq<char>,
    Seq<u8>,
> {
    match addr_arg(args, 0) {
        None => bad("usage: WATCH ADDR [CLASS] [PC=ADDR]"@),
        Some(addr) => match watch_quals(args.skip(1), lex) {
            Err(message) => bad(message),
            Ok((filter, pc)) => if pc is Some && (filter matches Some(f)
                && !lex.classes@[f as int].takes_pc) {
                bad(
                    "PC= only qualifies CPU accesses; a DMA engine's access has no instruction behind it"@,
                )
            } else {
                Command::Watch { addr, filter, pc }
            },
        },
    }
}

fn parse_watch_quals(args: &Vec<Vec<char>>, lex: &Lexicon) -> (r: Result<
    (Option<u8>, Option<u32>),
    String,
>)
    requires
        lex.wf(),
        args@.len() > 0,
    ensures
        r matches Ok(q) ==> watch_quals(views(args@).skip(1), lex) == Ok::<_, Seq<char>>(q)
            && (q.0 matches Some(f) ==> f < lex.classes@.len()),
        r matches Err(e) ==> watch_quals(views(args@).skip(1), lex) == Err::<
            (Option<u8>, Option<u32>),
            _,
        >(e@),
{
    let ghost all = views(args@).skip(1);
    let mut filter: Option<u8> = None;
    let mut pc: Option<u32> = None;
    let mut i: usize = 1;
    assert(all.take(0) =~= Seq::empty());
    proof {
        reveal_strlit("PC=");
    }
    while i < args.len()
        invariant
            1 <= i <= args@.len(),
            lex.wf(),
            all == views(args@).skip(1),
            "PC="@.len() == 3,
            watch_quals(all.take(i - 1), lex) == Ok::<_, Seq<char>>((filter, pc)),
            filter matches Some(f) ==> f < lex.classes@.len(),
        decreases args@.len() - i,
    {
        proof {
            assert(all.take(i as int).drop_last() =~= all.take(i - 1));
            assert(all.take(i as int).last() == args@[i as int]@);
        }
        let folded = to_upper(&args[i]);
        if starts_with(&folded, "PC=") {
            if pc.is_some() {
                proof {
                    lemma_quals_err(all, i as int, lex);
                }
                return Err("PC= given more than once".to_owned());
            }
            let value = tail(&args[i], 3);
            match hex32(&value) {
                Some(addr) => {
                    pc = Some(addr);
                },
                None => {
                    proof {
                        lemma_quals_err(all, i as int, lex);
                    }
                    return Err("PC= wants an address".to_owned());
                },
            }
        } else {
            match lex.parse_class(&args[i]) {
                Some(class) => {
                    if filter.is_some() {
                        proof {
                            lemma_quals_err(all, i as int, lex);
                        }
                        return Err("watch class given more than once".to_owned());
                    }
                    filter = Some(class);
                },
                None => {
                    proof {
                        lemma_quals_err(all, i as int, lex);
                    }
                    return Err(
                        "watch class is CPU, BLITTER, DISK, COPPER, or a DMA channel (BPL1..BPL8, SPR0..SPR7, AUD0..AUD3)".to_owned(),
                    );
                },
            }
        }
        i += 1;
    }
    assert(all.take(i - 1) =~= all);
    Ok((filter, pc))
}

proof fn lemma_quals_err(all: Seq<Seq<char>>, n: int, lex: &Lexicon)
    requires
        0 <= n <= all.len(),
        watch_quals(all.take(n), lex) is Err,
    ensures
        watch_quals(all, lex) == watch_quals(all.take(n), lex),
    decreases all.len() - n,
{
    if n < all.len() {
        assert(all.take(n + 1).drop_last() =~= all.take(n));
        lemma_quals_err(all, n + 1, lex);
    } else {
        assert(all.take(n) =~= all);
    }
}

fn parse_watch(args: &Vec<Vec<char>>, lex: &Lexicon) -> (r: Command<String, Vec<u8>>)
    requires
        lex.wf(),
    ensures
        command_view(r) == watch_command(views(args@), lex),
{
    match addr_at(args, 0) {
        None => bad_line("usage: WATCH ADDR [CLASS] [PC=ADDR]"),
        Some(addr) => {
            match parse_watch_quals(args, lex) {
                Err(message) => Command::Bad(message),
                Ok((filter, pc)) => {
                    let dma: bool = match filter {
                        Some(f) => !lex.classes[f as usize].takes_pc,
                        None => false,
                    };
                    if pc.is_some() && dma {
                        bad_line(
                            "PC= only qualifies CPU accesses; a DMA engine's access has no instruction behind it",
                        )
                    } else {
                        Command::Watch { addr, filter, pc }
                    }
                },
            }
        },
    }
}

/// The exception vector that a catch request names: an interrupt level, a
/// trap number or the vector itself.
pub open spec fn catch_of(args: Seq<Seq<char>>) -> Option<u16> {
    if args.len() != 2 {
        None
    } else {
        let kind = upper(args[0]);
        if kind == "IRQ"@ {
            match number(args[1], 10, 7) {
                Some(n) => if n >= 1 {
                    Some((24 + n) as u16)
                } else {
                    None
                },
                None => None,
            }
        } else if kind == "TRAP"@ {
            match number(args[1], 10, 15) {
                Some(n) => Some((32 + n) as u16),
                None => None,
            }
        } else if kind == "VEC"@ {
            match number(args[1], 10, 255) {
                Some(n) => Some(n as u16),
                None => None,
            }
        } else {
            None
        }
    }
}

pub fn parse_catch_spec(args: &Vec<Vec<char>>) -> (r: Option<u16>)
    ensures
        r == catch_of(views(args@)),
{
    assert(views(args@).len() == args@.len());
    if args.len() != 2 {
        return None;
    }
    let kind = to_upper(&args[0]);
    if spells(&kind, "IRQ") {
        match parse_number(&args[1], 10, 7) {
            Some(n) => if n >= 1 {
                Some(24 + n as u16)
            } else {
                None
            },
            None => None,
        }
    } else if spells(&kind, "TRAP") {
        match parse_number(&args[1], 10, 15) {
            Some(n) => Some(32 + n as u16),
            None => None,
        }
    } else if spells(&kind, "VEC") {
        match parse_number(&args[1], 10, 255) {
            Some(n) => Some(n as u16),
            None => None,
        }
    } else {
        None
    }
}

/// The commands that set and clear stops.
pub open spec fn stop_command(cmd: Seq<char>, args: Seq<Seq<char>>, lex: &Lexicon) -> Option<
    Command<Seq<char>, Seq<u8>>,
> {
    if is_any(cmd, "BREAK"@, "B"@) {
        Some(
            match break_of(args) {
                Some((addr, cond, ignore)) => Command::Break { addr, cond, ignore },
                None => bad("usage: BREAK ADDR [LHS OP RHS] [IGN N]"@),
            },
        )
    } else if is_any(cmd, "WATCH"@, "W"@) {
        Some(watch_command(args, lex))
    } else if is_any(cmd, "RWATCH"@, "RW"@) {
        Some(
            if args.len() > 0 && lex.register(args[0]) is Some {
                Command::RegWatch(lex.register(args[0]).unwrap())
            } else {
                bad("usage: RWATCH NAME|OFFSET (e.g. DMACON or 96)"@)
            },
        )
    } else if cmd == "BTRAP"@ {
        Some(
            match beam_arg(args, 0) {
                Some(vpos) => Command::BeamTrap(vpos, beam_arg(args, 1)),
                None => bad("usage: BTRAP VPOS [HPOS] (decimal)"@),
            },
        )
    } else if cmd == "CBREAK"@ {
        Some(
            match addr_arg(args, 0) {
                Some(addr) => Command::CopperBreak(addr),
                None => bad("usage: CBREAK ADDR (hex copper-list address)"@),
            },
        )
    } else if cmd == "CATCH"@ {
        Some(
            match catch_of(args) {
                Some(vector) => Command::Catch(vector),
                None => bad("usage: CATCH IRQ N | TRAP N | VEC N"@),
            },
        )
    } else if cmd == "CATCHTASK"@ {
        Some(
            if args.len() == 0 {
                Command::CatchTask(None)
            } else {
                Command::CatchTask(Some(joined(args)))
            },
        )
    } else if cmd == "CATCHALERT"@ {
        Some(Command::CatchAlert)
    } else if is_any(cmd, "BREAKS"@, "INFO"@) {
        Some(Command::Breaks)
    } else if cmd == "CLEARBREAKS"@ {
        Some(Command::ClearBreaks)
    } else {
        None
    }
}

fn parse_stop(cmd: &[char], args: &Vec<Vec<char>>, lex: &Lexicon) -> (r: Option<
    Command<String, Vec<u8>>,
>)
    requires
        lex.wf(),
    ensures
        r matches Some(c) ==> stop_command(cmd@, views(args@), lex) == Some(command_view(c)),
        r is None ==> stop_command(cmd@, views(args@), lex) is None,
{
    assert(views(args@).len() == args@.len());
    if either(cmd, "BREAK", "B") {
        Some(
            match parse_break_spec(args) {
                Some((addr, cond, ignore)) => Command::Break { addr, cond, ignore },
                None => bad_line("usage: BREAK ADDR [LHS OP RHS] [IGN N]"),
            },
        )
    } else if either(cmd, "WATCH", "W") {
        Some(parse_watch(args, lex))
    } else if either(cmd, "RWATCH", "RW") {
        let off: Option<u16> = if args.len() > 0 {
            lex.parse_custom_reg(&args[0])
        } else {
            None
        };
        Some(
            match off {
                Some(off) => Command::RegWatch(off),
                None => bad_line("usage: RWATCH NAME|OFFSET (e.g. DMACON or 96)"),
            },
        )
    } else if spells(cmd, "BTRAP") {
        Some(
            match beam_at(args, 0) {
                Some(vpos) => Command::BeamTrap(vpos, beam_at(args, 1)),
                None => bad_line("usage: BTRAP VPOS [HPOS] (decimal)"),
            },
        )
    } else if spells(cmd, "CBREAK") {
        Some(
            match addr_at(args, 0) {
                Some(addr) => Command::CopperBreak(addr),
                None => bad_line("usage: CBREAK ADDR (hex copper-list address)"),
            },
        )
    } else if spells(cmd, "CATCH") {
        Some(
            match parse_catch_spec(args) {
                Some(vector) => Command::Catch(vector),
                None => bad_line("usage: CATCH IRQ N | TRAP N | VEC N"),
            },
        )
    } else if spells(cmd, "CATCHTASK") {
        if args.len() == 0 {
            Some(Command::CatchTask(None))
        } else {
            let target = join(args);
            Some(Command::CatchTask(Some(string_of(&target))))
        }
    } else if spells(cmd, "CATCHALERT") {
        Some(Command::CatchAlert)
    } else if either(cmd, "BREAKS", "INFO") {
        Some(Command::Breaks)
    } else if spells(cmd, "CLEARBREAKS") {
        Some(Command::ClearBreaks)
    } else {
        None
    }
}

/// The commands that list what the guest's operating system keeps.
pub open spec fn os_command(cmd: Seq<char>, args: Seq<Seq<char>>) -> Option<
    Command<Seq<char>, Seq<u8>>,
> {
    if cmd == "TASKS"@ {
        Some(Command::Os(OsList::Tasks))
    } else if cmd == "TASK"@ {
        Some(Command::Task(joined(args)))
    } else if is_any(cmd, "EXECBASE"@, "EXEC"@) {
        Some(Command::Os(OsList::Exec))
    } else if is_any(cmd, "MEMLIST"@, "AVAIL"@) {
        Some(Command::Os(OsList::Memory))
    } else if is_any(cmd, "LIBS"@, "LIBRARIES"@) {
        Some(Command::Os(OsList::Libraries))
    } else if is_any(cmd, "DEVS"@, "DEVICES"@) {
        Some(Command::Os(OsList::Devices))
    } else if cmd == "RESOURCES"@ {
        Some(Command::Os(OsList::Resources))
    } else if cmd == "PORTS"@ {
        Some(Command::Os(OsList::Ports))
    } else if cmd == "SEGMENTS"@ {
        Some(Command::Os(OsList::Segments))
    } else {
        None
    }
}

fn parse_os(cmd: &[char], args: &Vec<Vec<char>>) -> (r: Option<Command<String, Vec<u8>>>)
    ensures
        r matches Some(c) ==> os_command(cmd@, views(args@)) == Some(command_view(c)),
        r is None ==> os_command(cmd@, views(args@)) is None,
{
    if spells(cmd, "TASKS") {
        Some(Command::Os(OsList::Tasks))
    } else if spells(cmd, "TASK") {
        let name = join(args);
        Some(Command::Task(string_of(&name)))
    } else if either(cmd, "EXECBASE", "EXEC") {
        Some(Command::Os(OsList::Exec))
    } else if either(cmd, "MEMLIST", "AVAIL") {
        Some(Command::Os(OsList::Memory))
    } else if either(cmd, "LIBS", "LIBRARIES") {
        Some(Command::Os(OsList::Libraries))
    } else if either(cmd, "DEVS", "DEVICES") {
        Some(Command::Os(OsList::Devices))
    } else if spells(cmd, "RESOURCES") {
        Some(Command::Os(OsList::Resources))
    } else if spells(cmd, "PORTS") {
        Some(Command::Os(OsList::Ports))
    } else if spells(cmd, "SEGMENTS") {
        Some(Command::Os(OsList::Segments))
    } else {
        None
    }
}

/// What a search looks for and where it starts: behind at least one word of
/// the pattern, a last word that reads as an address is the start.
pub open spec fn find_command(args: Seq<Seq<char>>) -> Command<Seq<char>, Seq<u8>> {
    if args.len() == 0 {
        bad("usage: FIND HEXBYTES [START]"@)
    } else {
        let last = args.last();
        let with_start = args.len() > 1 && hex32_of(last) is Some;
        let parts = if with_start {
            args.drop_last()
        } else {
            args
        };
        match pattern_of(parts) {
            Some(pattern) => Command::Find {
                pattern,
                start: if with_start {
                    hex32_of(last).unwrap()
                } else {
                    0
                },
            },
            None => bad("FIND takes hex byte pairs (e.g. 4E75)"@),
        }
    }
}

fn parse_find(args: &Vec<Vec<char>>) -> (r: Command<String, Vec<u8>>)
    ensures
        command_view(r) == find_command(views(args@)),
        r matches Command::Find { pattern, .. } ==> pattern@.len() > 0,
{
    assert(views(args@).len() == args@.len());
    let n: usize = args.len();
    if n == 0 {
        return bad_line("usage: FIND HEXBYTES [START]");
    }
    let mut start: u32 = 0;
    let mut take: usize = n;
    if n > 1 {
        match hex32(&args[n - 1]) {
            Some(addr) => {
                start = addr;
                take = n - 1;
            },
            None => {},
        }
    }
    let mut parts: Vec<Vec<char>> = Vec::new();
    let mut i: usize = 0;
    while i < take
        invariant
            i <= take <= args@.len(),
            views(parts@) == views(args@).take(i as int),
        decreases take - i,
    {
        let word = crate::text::copy_chars(&args[i]);
        let ghost before = parts@;
        parts.push(word);
        i += 1;
        assert(views(parts@) =~= views(before).push(word@));
        assert(views(parts@) =~= views(args@).take(i as int));
    }
    proof {
        if take == n {
            assert(views(args@).take(take as int) =~= views(args@));
        } else {
            assert(views(args@).take(take as int) =~= views(args@).drop_last());
        }
    }
    match parse_hex_pattern(&parts) {
        Some(pattern) => Command::Find { pattern, start },
        None => bad_line("FIND takes hex byte pairs (e.g. 4E75)"),
    }
}

/// The commands that look at the machine.
pub open spec fn inspect_command(cmd: Seq<char>, args: Seq<Seq<char>>) -> Option<
    Command<Seq<char>, Seq<u8>>,
> {
    if cmd == "GURU"@ {
        Some(
            if args.len() == 0 {
                Command::Guru(None)
            } else {
                match hex32_of(args[0]) {
                    Some(code) => Command::Guru(Some(code)),
                    None => bad("usage: GURU [HEXCODE] (default D7)"@),
                }
            },
        )
    } else if is_any(cmd, "REGS"@, "R"@) {
        Some(Command::Regs)
    } else if is_any(cmd, "HISTORY"@, "H"@) {
        Some(Command::History(count_of(args, 0, 16, 1, u64::MAX)))
    } else if is_any(cmd, "STACK"@, "BT"@) {
        Some(Command::Stack)
    } else if is_any(cmd, "MEM"@, "M"@) {
        Some(
            match addr_arg(args, 0) {
                Some(addr) => Command::Mem { addr, len: dump_len(addr_arg(args, 1)) },
                None => bad("usage: MEM ADDR [BYTES] (hex)"@),
            },
        )
    } else if is_any(cmd, "DIS"@, "D"@) {
        Some(Command::Dis { addr: addr_arg(args, 0), count: count_of(args, 1, 8, 1, 32) })
    } else if cmd == "COPPER"@ {
        let start = if args.len() > 0 {
            upper(args[0])
        } else {
            "PC"@
        };
        Some(
            if start == "PC"@ {
                Command::Copper { start: None, count: count_of(args, 1, 16, 1, 64) }
            } else {
                match hex32_of(start) {
                    Some(addr) => Command::Copper {
                        start: Some(addr),
                        count: count_of(args, 1, 16, 1, 64),
                    },
                    None => bad("usage: COPPER [PC|ADDR] [COUNT]"@),
                }
            },
        )
    } else if cmd == "BLITS"@ {
        Some(Command::Blits)
    } else if cmd == "CUSTOM"@ {
        Some(Command::Custom)
    } else if cmd == "FIND"@ {
        Some(find_command(args))
    } else if cmd == "WRITER"@ {
        Some(
            match addr_arg(args, 0) {
                Some(addr) => Command::Writer(addr),
                None => bad("usage: WRITER ADDR (hex, word)"@),
            },
        )
    } else {
        None
    }
}

/// The length of a memory dump: as asked, within bounds.
pub open spec fn dump_len(asked: Option<u32>) -> u32 {
    match asked {
        None => 0x40,
        Some(n) => if n < 1 {
            1
        } else if n > 0x400 {
            0x400
        } else {
            n
        },
    }
}

fn parse_inspect(cmd: &[char], args: &Vec<Vec<char>>) -> (r: Option<Command<String, Vec<u8>>>)
    ensures
        r matches Some(c) ==> inspect_command(cmd@, views(args@)) == Some(command_view(c)),
        r is None ==> inspect_command(cmd@, views(args@)) is None,
{
    assert(views(args@).len() == args@.len());
    if spells(cmd, "GURU") {
        if args.len() == 0 {
            return Some(Command::Guru(None));
        }
        Some(
            match hex32(&args[0]) {
                Some(code) => Command::Guru(Some(code)),
                None => bad_line("usage: GURU [HEXCODE] (default D7)"),
            },
        )
    } else if either(cmd, "REGS", "R") {
        Some(Command::Regs)
    } else if either(cmd, "HISTORY", "H") {
        Some(Command::History(count(args, 0, 16, 1, u64::MAX)))
    } else if either(cmd, "STACK", "BT") {
        Some(Command::Stack)
    } else if either(cmd, "MEM", "M") {
        Some(
            match addr_at(args, 0) {
                Some(addr) => {
                    let len: u32 = match addr_at(args, 1) {
                        None => 0x40,
                        Some(n) => if n < 1 {
                            1
                        } else if n > 0x400 {
                            0x400
                        } else {
                            n
                        },
                    };
                    Command::Mem { addr, len }
                },
                None => bad_line("usage: MEM ADDR [BYTES] (hex)"),
            },
        )
    } else if either(cmd, "DIS", "D") {
        Some(Command::Dis { addr: addr_at(args, 0), count: count(args, 1, 8, 1, 32) })
    } else if spells(cmd, "COPPER") {
        let start = if args.len() > 0 {
            to_upper(&args[0])
        } else {
            chars_of("PC")
        };
        let n: u64 = count(args, 1, 16, 1, 64);
        if spells(&start, "PC") {
            return Some(Command::Copper { start: None, count: n });
        }
        Some(
            match hex32(&start) {
                Some(addr) => Command::Copper { start: Some(addr), count: n },
                None => bad_line("usage: COPPER [PC|ADDR] [COUNT]"),
            },
        )
    } else if spells(cmd, "BLITS") {
        Some(Command::Blits)
    } else if spells(cmd, "CUSTOM") {
        Some(Command::Custom)
    } else if spells(cmd, "FIND") {
        Some(parse_find(args))
    } else if spells(cmd, "WRITER") {
        Some(
            match addr_at(args, 0) {
                Some(addr) => Command::Writer(addr),
                None => bad_line("usage: WRITER ADDR (hex, word)"),
            },
        )
    } else {
        None
    }
}

/// The hunt family: a search for values that change as the player sees them
/// change.
pub open spec fn hunt_command(args: Seq<Seq<char>>) -> Command<Seq<char>, Seq<u8>> {
    if args.len() == 0 {
        Command::Hunt(HuntCommand::Show)
    } else {
        let sub = upper(args[0]);
        let value = addr_arg(args, 1);
        if sub == "OFF"@ {
            Command::Hunt(HuntCommand::Off)
        } else if sub == "START"@ {
            let width = if args.len() > 1 {
                upper(args[1])
            } else {
                "W"@
            };
            if width == "B"@ {
                Command::Hunt(HuntCommand::Start(1))
            } else if width == "W"@ {
                Command::Hunt(HuntCommand::Start(2))
            } else {
                bad("usage: HUNT START [B|W]"@)
            }
        } else if sub == "LIST"@ {
            Command::Hunt(HuntCommand::List(count_of(args, 1, 16, 1, 64)))
        } else if sub == "EQ"@ {
            match value {
                Some(v) => Command::Hunt(HuntCommand::Filter(HuntFilter::Equal(v))),
                None => bad("usage: HUNT EQ VALUE (hex)"@),
            }
        } else if sub == "NE"@ {
            match value {
                Some(v) => Command::Hunt(HuntCommand::Filter(HuntFilter::NotEqual(v))),
                None => bad("usage: HUNT NE VALUE (hex)"@),
            }
        } else if sub == "LT"@ {
            match value {
                Some(v) => Command::Hunt(HuntCommand::Filter(HuntFilter::Less(v))),
                None => bad("usage: HUNT LT VALUE (hex)"@),
            }
        } else if sub == "GT"@ {
            match value {
                Some(v) => Command::Hunt(HuntCommand::Filter(HuntFilter::Greater(v))),
                None => bad("usage: HUNT GT VALUE (hex)"@),
            }
        } else if sub == "SAME"@ {
            Command::Hunt(HuntCommand::Filter(HuntFilter::Same))
        } else if sub == "DIFF"@ {
            Command::Hunt(HuntCommand::Filter(HuntFilter::Different))
        } else {
            bad(
                "usage: HUNT [START [B|W] | EQ/NE/LT/GT VALUE | SAME | DIFF | LIST [N] | OFF]"@,
            )
        }
    }
}

fn parse_hunt(args: &Vec<Vec<char>>) -> (r: Command<String, Vec<u8>>)
    ensures
        command_view(r) == hunt_command(views(args@)),
{
    assert(views(args@).len() == args@.len());
    if args.len() == 0 {
        return Command::Hunt(HuntCommand::Show);
    }
    let sub = to_upper(&args[0]);
    let value: Option<u32> = addr_at(args, 1);
    if spells(&sub, "OFF") {
        Command::Hunt(HuntCommand::Off)
    } else if spells(&sub, "START") {
        let width = if args.len() > 1 {
            to_upper(&args[1])
        } else {
            chars_of("W")
        };
        if spells(&width, "B") {
            Command::Hunt(HuntCommand::Start(1))
        } else if spells(&width, "W") {
            Command::Hunt(HuntCommand::Start(2))
        } else {
            bad_line("usage: HUNT START [B|W]")
        }
    } else if spells(&sub, "LIST") {
        Command::Hunt(HuntCommand::List(count(args, 1, 16, 1, 64)))
    } else if spells(&sub, "EQ") {
        match value {
            Some(v) => Command::Hunt(HuntCommand::Filter(HuntFilter::Equal(v))),
            None => bad_line("usage: HUNT EQ VALUE (hex)"),
        }
    } else if spells(&sub, "NE") {
        match value {
            Some(v) => Command::Hunt(HuntCommand::Filter(HuntFilter::NotEqual(v))),
            None => bad_line("usage: HUNT NE VALUE (hex)"),
        }
    } else if spells(&sub, "LT") {
        match value {
            Some(v) => Command::Hunt(HuntCommand::Filter(HuntFilter::Less(v))),
            None => bad_line("usage: HUNT LT VALUE (hex)"),
        }
    } else if spells(&sub, "GT") {
        match value {
            Some(v) => Command::Hunt(HuntCommand::Filter(HuntFilter::Greater(v))),
            None => bad_line("usage: HUNT GT VALUE (hex)"),
        }
    } else if spells(&sub, "SAME") {
        Command::Hunt(HuntCommand::Filter(HuntFilter::Same))
    } else if spells(&sub, "DIFF") {
        Command::Hunt(HuntCommand::Filter(HuntFilter::Different))
    } else {
        bad_line("usage: HUNT [START [B|W] | EQ/NE/LT/GT VALUE | SAME | DIFF | LIST [N] | OFF]")
    }
}

/// The commands that change the machine or record what it does.
pub open spec fn modify_command(cmd: Seq<char>, args: Seq<Seq<char>>) -> Option<
    Command<Seq<char>, Seq<u8>>,
> {
    if cmd == "HUNT"@ {
        Some(hunt_command(args))
    } else if cmd == "TRACE"@ {
        Some(
            if args.len() == 0 {
                Command::TraceStatus
            } else if upper(args[0]) == "START"@ {
                Command::TraceStart(
                    if args.len() > 1 {
                        Some(args[1])
                    } else {
                        None
                    },
                )
            } else if upper(args[0]) == "STOP"@ {
                Command::TraceStop
            } else {
                bad("usage: TRACE [START [PATH] | STOP]"@)
            },
        )
    } else if is_any(cmd, "WAVE"@, "WAVEFORM"@) {
        Some(
            if args.len() == 0 {
                Command::WaveStatus
            } else if upper(args[0]) == "START"@ {
                Command::WaveStart(joined(args.skip(1)))
            } else if upper(args[0]) == "STOP"@ {
                Command::WaveStop
            } else {
                bad("usage: WAVE [START [PATH] [TRIGGER] [DURATION] [SIGNALS] | STOP]"@)
            },
        )
    } else if cmd == "POKE"@ {
        Some(
            match (addr_arg(args, 0), addr_arg(args, 1)) {
                (Some(addr), Some(value)) => Command::Poke { addr, value: (value % 65536) as u16 },
                _ => bad("usage: POKE ADDR VALUE (hex word)"@),
            },
        )
    } else if cmd == "SETREG"@ {
        let reg = if args.len() > 0 {
            reg_of(args[0])
        } else {
            None
        };
        Some(
            match (reg, addr_arg(args, 1)) {
                (Some(reg), Some(value)) => Command::SetReg { reg, value, name: upper(args[0]) },
                _ => bad("usage: SETREG D0-D7|A0-A7|SP|SR|PC VALUE (hex)"@),
            },
        )
    } else {
        None
    }
}

fn parse_modify(cmd: &[char], args: &Vec<Vec<char>>) -> (r: Option<Command<String, Vec<u8>>>)
    ensures
        r matches Some(c) ==> modify_command(cmd@, views(args@)) == Some(command_view(c)),
        r is None ==> modify_command(cmd@, views(args@)) is None,
{
    assert(views(args@).len() == args@.len());
    if spells(cmd, "HUNT") {
        Some(parse_hunt(args))
    } else if spells(cmd, "TRACE") {
        if args.len() == 0 {
            return Some(Command::TraceStatus);
        }
        let sub = to_upper(&args[0]);
        if spells(&sub, "START") {
            let path: Option<String> = if args.len() > 1 {
                Some(string_of(&args[1]))
            } else {
                None
            };
            Some(Command::TraceStart(path))
        } else if spells(&sub, "STOP") {
            Some(Command::TraceStop)
        } else {
            Some(bad_line("usage: TRACE [START [PATH] | STOP]"))
        }
    } else if either(cmd, "WAVE", "WAVEFORM") {
        if args.len() == 0 {
            return Some(Command::WaveStatus);
        }
        let sub = to_upper(&args[0]);
        if spells(&sub, "START") {
            let rest = words_from(args, 1);
            let text = join(&rest);
            Some(Command::WaveStart(string_of(&text)))
        } else if spells(&sub, "STOP") {
            Some(Command::WaveStop)
        } else {
            Some(bad_line("usage: WAVE [START [PATH] [TRIGGER] [DURATION] [SIGNALS] | STOP]"))
        }
    } else if spells(cmd, "POKE") {
        Some(
            match (addr_at(args, 0), addr_at(args, 1)) {
                (Some(addr), Some(value)) => Command::Poke { addr, value: (value % 65536) as u16 },
                _ => bad_line("usage: POKE ADDR VALUE (hex word)"),
            },
        )
    } else if spells(cmd, "SETREG") {
        let reg: Option<u8> = if args.len() > 0 {
            reg_index(&args[0])
        } else {
            None
        };
        match (reg, addr_at(args, 1)) {
            (Some(reg), Some(value)) => {
                let name = to_upper(&args[0]);
                Some(Command::SetReg { reg, value, name: string_of(&name) })
            },
            _ => Some(bad_line("usage: SETREG D0-D7|A0-A7|SP|SR|PC VALUE (hex)")),
        }
    } else {
        None
    }
}

/// The command that a line spells.
pub open spec fn command_of(line: Seq<char>, lex: &Lexicon) -> Command<Seq<char>, Seq<u8>> {
    let w = words(line);
    if w.len() == 0 {
        Command::Nothing
    } else {
        let cmd = upper(w[0]);
        let args = w.skip(1);
        if let Some(c) = run_command(cmd, args) {
            c
        } else if let Some(c) = stop_command(cmd, args, lex) {
            c
        } else if let Some(c) = os_command(cmd, args) {
            c
        } else if let Some(c) = inspect_command(cmd, args) {
            c
        } else if let Some(c) = modify_command(cmd, args) {
            c
        } else {
            bad("unknown command "@ + cmd + " (try HELP)"@)
        }
    }
}

/// Reads one console line.
pub fn parse_command(line: &str, lex: &Lexicon) -> (r: Command<String, Vec<u8>>)
    requires
        lex.wf(),
    ensures
        command_view(r) == command_of(line@, lex),
{
    let chars = chars_of(line);
    let all = split_words(&chars);
    assert(views(all@).len() == all@.len());
    if all.len() == 0 {
        return Command::Nothing;
    }
    let cmd = to_upper(&all[0]);
    let args = words_from(&all, 1);
    match parse_run(&cmd, &args) {
        Some(c) => {
            return c;
        },
        None => {},
    }
    match parse_stop(&cmd, &args, lex) {
        Some(c) => {
            return c;
        },
        None => {},
    }
    match parse_os(&cmd, &args) {
        Some(c) => {
            return c;
        },
        None => {},
    }
    match parse_inspect(&cmd, &args) {
        Some(c) => {
            return c;
        },
        None => {},
    }
    match parse_modify(&cmd, &args) {
        Some(c) => {
            return c;
        },
        None => {},
    }
    let mut message = "unknown command ".to_owned();
    crate::text::put_chars(&mut message, &cmd);
    crate::text::put(&mut message, " (try HELP)");
    Command::Bad(message)
}

/// The arguments of a command are within what the machine has.
pub open spec fn in_bounds(c: Command<Seq<char>, Seq<u8>>) -> bool {
    match c {
        Command::SetReg { reg, .. } => reg < 18,
        Command::Mem { len, .. } => 1 <= len <= 0x400,
        Command::Hunt(HuntCommand::Start(width)) => width == 1 || width == 2,
        Command::Hunt(HuntCommand::List(n)) => 1 <= n <= 64,
        Command::Step(n) => 1 <= n <= 1_000_000,
        Command::ReverseStep(n) => 1 <= n <= 1_000_000,
        Command::Dis { count, .. } => 1 <= count <= 32,
        Command::Copper { count, .. } => 1 <= count <= 64,
        _ => true,
    }
}

/// However a line is written, the command that it spells stays in bounds.
pub proof fn lemma_commands_are_bounded(line: Seq<char>, lex: &Lexicon)
    ensures
        in_bounds(command_of(line, lex)),
{
    let w = words(line);
    if w.len() > 0 {
        let cmd = upper(w[0]);
        let args = w.skip(1);
        assert(run_command(cmd, args) matches Some(c) ==> in_bounds(c));
        assert(stop_command(cmd, args, lex) matches Some(c) ==> in_bounds(c));
        assert(os_command(cmd, args) matches Some(c) ==> in_bounds(c));
        assert(inspect_command(cmd, args) matches Some(c) ==> in_bounds(c));
        assert(modify_command(cmd, args) matches Some(c) ==> in_bounds(c));
    }
}

} // verus!
