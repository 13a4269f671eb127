//! What a console line means: the words that name each command, its arguments, what
//! they default to and how far they go.

use vstd::prelude::*;

use crate::command::Command;
use crate::command::HuntCommand;
use crate::command::HuntFilter;
use crate::command::OsList;
use crate::command::break_of;
use crate::command::command_of;
use crate::command::hex32_of;
use crate::command::hex_pattern;
use crate::command::pattern_of;
use crate::command::reg_of;
use crate::command::watch_quals;
use crate::lexicon::Lexicon;
use crate::number::number;
use crate::text::glued;
use crate::text::joined;
use crate::text::starts;
use crate::text::upper;
use crate::text::words;

verus! {

/// The first word of a line, in any case of letters.
pub open spec fn says(line: Seq<char>, verb: Seq<char>) -> bool {
    words(line).len() > 0 && upper(words(line)[0]) == verb
}

/// An argument of a line that is an address in hexadecimal.
pub open spec fn given_hex(line: Seq<char>, i: int, v: u32) -> bool {
    0 < i < words(line).len() && hex32_of(words(line)[i]) == Some(v)
}

/// A line without an address at an argument.
pub open spec fn no_hex(line: Seq<char>, i: int) -> bool {
    0 < i && (words(line).len() <= i || hex32_of(words(line)[i]) is None)
}

/// An argument of a line that is a beam position in decimal.
pub open spec fn given_dec(line: Seq<char>, i: int, v: u16) -> bool {
    0 < i < words(line).len() && number(words(line)[i], 10, 0xFFFF) == Some(v as nat)
}

/// A line without a beam position at an argument.
pub open spec fn no_dec(line: Seq<char>, i: int) -> bool {
    0 < i && (words(line).len() <= i || number(words(line)[i], 10, 0xFFFF) is None)
}

/// An argument of a line that is a count in decimal.
pub open spec fn given_count(line: Seq<char>, i: int, v: u64) -> bool {
    0 < i < words(line).len() && number(words(line)[i], 10, u64::MAX as nat) == Some(v as nat)
}

/// A line without a count at an argument.
pub open spec fn no_count(line: Seq<char>, i: int) -> bool {
    0 < i && (words(line).len() <= i || number(words(line)[i], 10, u64::MAX as nat) is None)
}

/// A number by which the words of the console are told apart: its length and its
/// first, last and middle characters.
#[verifier::opaque]
pub open spec fn mark(s: Seq<char>) -> int {
    ((s.len() * 128 + s[0] as int) * 128 + s[s.len() - 1] as int) * 128 + s[s.len() as int
        / 2] as int
}

proof fn lemma_marks()
    ensures
        mark("HELP"@) == 9578572,
        mark("?"@) == 3137471,
        mark("CLEAR"@) == 11594053,
        mark("CLOSE"@) == 11592399,
        mark("QUIT"@) == 9726537,
        mark("EXIT"@) == 9529929,
        mark("STATUS"@) == 13953492,
        mark("RUN"@) == 7645013,
        mark("GO"@) == 5367759,
        mark("CONTINUE"@) == 17883849,
        mark("C"@) == 3203523,
        mark("PAUSE"@) == 11805397,
        mark("STEP"@) == 9758789,
        mark("S"@) == 3467731,
        mark("OVER"@) == 9693509,
        mark("NEXT"@) == 9677400,
        mark("N"@) == 3385166,
        mark("OUT"@) == 7596629,
        mark("FINISH"@) == 13739081,
        mark("FRAME"@) == 11641537,
        mark("F"@) == 3253062,
        mark("LINE"@) == 9642702,
        mark("CSTEP"@) == 11593812,
        mark("RUNTO"@) == 11839438,
        mark("TOSLOT"@) == 13969996,
        mark("RSTEP"@) == 11839572,
        mark("RS"@) == 5548499,
        mark("RFRAME"@) == 13935297,
        mark("RRUN"@) == 9742165,
        mark("RC"@) == 5546435,
        mark("BREAK"@) == 11576773,
        mark("B"@) == 3187010,
        mark("WATCH"@) == 11920468,
        mark("W"@) == 3533783,
        mark("RWATCH"@) == 13935700,
        mark("RW"@) == 5549015,
        mark("BTRAP"@) == 11577426,
        mark("CBREAK"@) == 13690309,
        mark("CATCH"@) == 11592788,
        mark("CATCHTASK"@) == 19981768,
        mark("CATCHALERT"@) == 22080065,
        mark("BREAKS"@) == 13674945,
        mark("INFO"@) == 9594822,
        mark("CLEARBREAKS"@) == 24177090,
        mark("TASKS"@) == 11872723,
        mark("TASK"@) == 9774547,
        mark("EXECBASE"@) == 17916610,
        mark("EXEC"@) == 9527749,
        mark("MEMLIST"@) == 15952460,
        mark("AVAIL"@) == 11560513,
        mark("LIBS"@) == 9644482,
        mark("LIBRARIES"@) == 20130241,
        mark("DEVS"@) == 9513430,
        mark("DEVICES"@) == 15804873,
        mark("RESOURCES"@) == 20228565,
        mark("PORTS"@) == 11807186,
        mark("SEGMENTS"@) == 18147781,
        mark("GURU"@) == 9562834,
        mark("REGS"@) == 9742791,
        mark("R"@) == 3451218,
        mark("HISTORY"@) == 15871188,
        mark("H"@) == 3286088,
        mark("STACK"@) == 11855297,
        mark("BT"@) == 5286484,
        mark("MEM"@) == 7562949,
        mark("M"@) == 3368653,
        mark("DIS"@) == 7416265,
        mark("D"@) == 3220036,
        mark("COPPER"@) == 13691216,
        mark("BLITS"@) == 11577801,
        mark("CUSTOM"@) == 13690580,
        mark("FIND"@) == 9544270,
        mark("WRITER"@) == 14018900,
        mark("HUNT"@) == 9579086,
        mark("TRACE"@) == 11870913,
        mark("WAVE"@) == 9822934,
        mark("WAVEFORM"@) == 18212550,
        mark("POKE"@) == 9708235,
        mark("SETREG"@) == 13951954,
        mark("IRQ"@) == 7497938,
        mark("TRAP"@) == 9775169,
        mark("VEC"@) == 7709125,
        mark("OFF"@) == 7594822,
        mark("START"@) == 11856449,
        mark("STOP"@) == 9758799,
        mark("LIST"@) == 9644627,
        mark("EQ"@) == 5335249,
        mark("NE"@) == 5481157,
        mark("LT"@) == 5450324,
        mark("GT"@) == 5368404,
        mark("SAME"@) == 9757389,
        mark("DIFF"@) == 9511750,
        mark("PC"@) == 5513667,
        mark("IGN"@) == 7497543,
{
    reveal(mark);
    reveal_strlit("HELP");
    assert("HELP"@[0] == 'H' && "HELP"@[3] == 'P' && "HELP"@[2] == 'L');
    reveal_strlit("?");
    assert("?"@[0] == '?' && "?"@[0] == '?' && "?"@[0] == '?');
    reveal_strlit("CLEAR");
    assert("CLEAR"@[0] == 'C' && "CLEAR"@[4] == 'R' && "CLEAR"@[2] == 'E');
    reveal_strlit("CLOSE");
    assert("CLOSE"@[0] == 'C' && "CLOSE"@[4] == 'E' && "CLOSE"@[2] == 'O');
    reveal_strlit("QUIT");
    assert("QUIT"@[0] == 'Q' && "QUIT"@[3] == 'T' && "QUIT"@[2] == 'I');
    reveal_strlit("EXIT");
    assert("EXIT"@[0] == 'E' && "EXIT"@[3] == 'T' && "EXIT"@[2] == 'I');
    reveal_strlit("STATUS");
    assert("STATUS"@[0] == 'S' && "STATUS"@[5] == 'S' && "STATUS"@[3] == 'T');
    reveal_strlit("RUN");
    assert("RUN"@[0] == 'R' && "RUN"@[2] == 'N' && "RUN"@[1] == 'U');
    reveal_strlit("GO");
    assert("GO"@[0] == 'G' && "GO"@[1] == 'O' && "GO"@[1] == 'O');
    reveal_strlit("CONTINUE");
    assert("CONTINUE"@[0] == 'C' && "CONTINUE"@[7] == 'E' && "CONTINUE"@[4] == 'I');
    reveal_strlit("C");
    assert("C"@[0] == 'C' && "C"@[0] == 'C' && "C"@[0] == 'C');
    reveal_strlit("PAUSE");
    assert("PAUSE"@[0] == 'P' && "PAUSE"@[4] == 'E' && "PAUSE"@[2] == 'U');
    reveal_strlit("STEP");
    assert("STEP"@[0] == 'S' && "STEP"@[3] == 'P' && "STEP"@[2] == 'E');
    reveal_strlit("S");
    assert("S"@[0] == 'S' && "S"@[0] == 'S' && "S"@[0] == 'S');
    reveal_strlit("OVER");
    assert("OVER"@[0] == 'O' && "OVER"@[3] == 'R' && "OVER"@[2] == 'E');
    reveal_strlit("NEXT");
    assert("NEXT"@[0] == 'N' && "NEXT"@[3] == 'T' && "NEXT"@[2] == 'X');
    reveal_strlit("N");
    assert("N"@[0] == 'N' && "N"@[0] == 'N' && "N"@[0] == 'N');
    reveal_strlit("OUT");
    assert("OUT"@[0] == 'O' && "OUT"@[2] == 'T' && "OUT"@[1] == 'U');
    reveal_strlit("FINISH");
    assert("FINISH"@[0] == 'F' && "FINISH"@[5] == 'H' && "FINISH"@[3] == 'I');
    reveal_strlit("FRAME");
    assert("FRAME"@[0] == 'F' && "FRAME"@[4] == 'E' && "FRAME"@[2] == 'A');
    reveal_strlit("F");
    assert("F"@[0] == 'F' && "F"@[0] == 'F' && "F"@[0] == 'F');
    reveal_strlit("LINE");
    assert("LINE"@[0] == 'L' && "LINE"@[3] == 'E' && "LINE"@[2] == 'N');
    reveal_strlit("CSTEP");
    assert("CSTEP"@[0] == 'C' && "CSTEP"@[4] == 'P' && "CSTEP"@[2] == 'T');
    reveal_strlit("RUNTO");
    assert("RUNTO"@[0] == 'R' && "RUNTO"@[4] == 'O' && "RUNTO"@[2] == 'N');
    reveal_strlit("TOSLOT");
    assert("TOSLOT"@[0] == 'T' && "TOSLOT"@[5] == 'T' && "TOSLOT"@[3] == 'L');
    reveal_strlit("RSTEP");
    assert("RSTEP"@[0] == 'R' && "RSTEP"@[4] == 'P' && "RSTEP"@[2] == 'T');
    reveal_strlit("RS");
    assert("RS"@[0] == 'R' && "RS"@[1] == 'S' && "RS"@[1] == 'S');
    reveal_strlit("RFRAME");
    assert("RFRAME"@[0] == 'R' && "RFRAME"@[5] == 'E' && "RFRAME"@[3] == 'A');
    reveal_strlit("RRUN");
    assert("RRUN"@[0] == 'R' && "RRUN"@[3] == 'N' && "RRUN"@[2] == 'U');
    reveal_strlit("RC");
    assert("RC"@[0] == 'R' && "RC"@[1] == 'C' && "RC"@[1] == 'C');
    reveal_strlit("BREAK");
    assert("BREAK"@[0] == 'B' && "BREAK"@[4] == 'K' && "BREAK"@[2] == 'E');
    reveal_strlit("B");
    assert("B"@[0] == 'B' && "B"@[0] == 'B' && "B"@[0] == 'B');
    reveal_strlit("WATCH");
    assert("WATCH"@[0] == 'W' && "WATCH"@[4] == 'H' && "WATCH"@[2] == 'T');
    reveal_strlit("W");
    assert("W"@[0] == 'W' && "W"@[0] == 'W' && "W"@[0] == 'W');
    reveal_strlit("RWATCH");
    assert("RWATCH"@[0] == 'R' && "RWATCH"@[5] == 'H' && "RWATCH"@[3] == 'T');
    reveal_strlit("RW");
    assert("RW"@[0] == 'R' && "RW"@[1] == 'W' && "RW"@[1] == 'W');
    reveal_strlit("BTRAP");
    assert("BTRAP"@[0] == 'B' && "BTRAP"@[4] == 'P' && "BTRAP"@[2] == 'R');
    reveal_strlit("CBREAK");
    assert("CBREAK"@[0] == 'C' && "CBREAK"@[5] == 'K' && "CBREAK"@[3] == 'E');
    reveal_strlit("CATCH");
    assert("CATCH"@[0] == 'C' && "CATCH"@[4] == 'H' && "CATCH"@[2] == 'T');
    reveal_strlit("CATCHTASK");
    assert("CATCHTASK"@[0] == 'C' && "CATCHTASK"@[8] == 'K' && "CATCHTASK"@[4] == 'H');
    reveal_strlit("CATCHALERT");
    assert("CATCHALERT"@[0] == 'C' && "CATCHALERT"@[9] == 'T' && "CATCHALERT"@[5] == 'A');
    reveal_strlit("BREAKS");
    assert("BREAKS"@[0] == 'B' && "BREAKS"@[5] == 'S' && "BREAKS"@[3] == 'A');
    reveal_strlit("INFO");
    assert("INFO"@[0] == 'I' && "INFO"@[3] == 'O' && "INFO"@[2] == 'F');
    reveal_strlit("CLEARBREAKS");
    assert("CLEARBREAKS"@[0] == 'C' && "CLEARBREAKS"@[10] == 'S' && "CLEARBREAKS"@[5] == 'B');
    reveal_strlit("TASKS");
    assert("TASKS"@[0] == 'T' && "TASKS"@[4] == 'S' && "TASKS"@[2] == 'S');
    reveal_strlit("TASK");
    assert("TASK"@[0] == 'T' && "TASK"@[3] == 'K' && "TASK"@[2] == 'S');
    reveal_strlit("EXECBASE");
    assert("EXECBASE"@[0] == 'E' && "EXECBASE"@[7] == 'E' && "EXECBASE"@[4] == 'B');
    reveal_strlit("EXEC");
    assert("EXEC"@[0] == 'E' && "EXEC"@[3] == 'C' && "EXEC"@[2] == 'E');
    reveal_strlit("MEMLIST");
    assert("MEMLIST"@[0] == 'M' && "MEMLIST"@[6] == 'T' && "MEMLIST"@[3] == 'L');
    reveal_strlit("AVAIL");
    assert("AVAIL"@[0] == 'A' && "AVAIL"@[4] == 'L' && "AVAIL"@[2] == 'A');
    reveal_strlit("LIBS");
    assert("LIBS"@[0] == 'L' && "LIBS"@[3] == 'S' && "LIBS"@[2] == 'B');
    reveal_strlit("LIBRARIES");
    assert("LIBRARIES"@[0] == 'L' && "LIBRARIES"@[8] == 'S' && "LIBRARIES"@[4] == 'A');
    reveal_strlit("DEVS");
    assert("DEVS"@[0] == 'D' && "DEVS"@[3] == 'S' && "DEVS"@[2] == 'V');
    reveal_strlit("DEVICES");
    assert("DEVICES"@[0] == 'D' && "DEVICES"@[6] == 'S' && "DEVICES"@[3] == 'I');
    reveal_strlit("RESOURCES");
    assert("RESOURCES"@[0] == 'R' && "RESOURCES"@[8] == 'S' && "RESOURCES"@[4] == 'U');
    reveal_strlit("PORTS");
    assert("PORTS"@[0] == 'P' && "PORTS"@[4] == 'S' && "PORTS"@[2] == 'R');
    reveal_strlit("SEGMENTS");
    assert("SEGMENTS"@[0] == 'S' && "SEGMENTS"@[7] == 'S' && "SEGMENTS"@[4] == 'E');
    reveal_strlit("GURU");
    assert("GURU"@[0] == 'G' && "GURU"@[3] == 'U' && "GURU"@[2] == 'R');
    reveal_strlit("REGS");
    assert("REGS"@[0] == 'R' && "REGS"@[3] == 'S' && "REGS"@[2] == 'G');
    reveal_strlit("R");
    assert("R"@[0] == 'R' && "R"@[0] == 'R' && "R"@[0] == 'R');
    reveal_strlit("HISTORY");
    assert("HISTORY"@[0] == 'H' && "HISTORY"@[6] == 'Y' && "HISTORY"@[3] == 'T');
    reveal_strlit("H");
    assert("H"@[0] == 'H' && "H"@[0] == 'H' && "H"@[0] == 'H');
    reveal_strlit("STACK");
    assert("STACK"@[0] == 'S' && "STACK"@[4] == 'K' && "STACK"@[2] == 'A');
    reveal_strlit("BT");
    assert("BT"@[0] == 'B' && "BT"@[1] == 'T' && "BT"@[1] == 'T');
    reveal_strlit("MEM");
    assert("MEM"@[0] == 'M' && "MEM"@[2] == 'M' && "MEM"@[1] == 'E');
    reveal_strlit("M");
    assert("M"@[0] == 'M' && "M"@[0] == 'M' && "M"@[0] == 'M');
    reveal_strlit("DIS");
    assert("DIS"@[0] == 'D' && "DIS"@[2] == 'S' && "DIS"@[1] == 'I');
    reveal_strlit("D");
    assert("D"@[0] == 'D' && "D"@[0] == 'D' && "D"@[0] == 'D');
    reveal_strlit("COPPER");
    assert("COPPER"@[0] == 'C' && "COPPER"@[5] == 'R' && "COPPER"@[3] == 'P');
    reveal_strlit("BLITS");
    assert("BLITS"@[0] == 'B' && "BLITS"@[4] == 'S' && "BLITS"@[2] == 'I');
    reveal_strlit("CUSTOM");
    assert("CUSTOM"@[0] == 'C' && "CUSTOM"@[5] == 'M' && "CUSTOM"@[3] == 'T');
    reveal_strlit("FIND");
    assert("FIND"@[0] == 'F' && "FIND"@[3] == 'D' && "FIND"@[2] == 'N');
    reveal_strlit("WRITER");
    assert("WRITER"@[0] == 'W' && "WRITER"@[5] == 'R' && "WRITER"@[3] == 'T');
    reveal_strlit("HUNT");
    assert("HUNT"@[0] == 'H' && "HUNT"@[3] == 'T' && "HUNT"@[2] == 'N');
    reveal_strlit("TRACE");
    assert("TRACE"@[0] == 'T' && "TRACE"@[4] == 'E' && "TRACE"@[2] == 'A');
    reveal_strlit("WAVE");
    assert("WAVE"@[0] == 'W' && "WAVE"@[3] == 'E' && "WAVE"@[2] == 'V');
    reveal_strlit("WAVEFORM");
    assert("WAVEFORM"@[0] == 'W' && "WAVEFORM"@[7] == 'M' && "WAVEFORM"@[4] == 'F');
    reveal_strlit("POKE");
    assert("POKE"@[0] == 'P' && "POKE"@[3] == 'E' && "POKE"@[2] == 'K');
    reveal_strlit("SETREG");
    assert("SETREG"@[0] == 'S' && "SETREG"@[5] == 'G' && "SETREG"@[3] == 'R');
    reveal_strlit("IRQ");
    assert("IRQ"@[0] == 'I' && "IRQ"@[2] == 'Q' && "IRQ"@[1] == 'R');
    reveal_strlit("TRAP");
    assert("TRAP"@[0] == 'T' && "TRAP"@[3] == 'P' && "TRAP"@[2] == 'A');
    reveal_strlit("VEC");
    assert("VEC"@[0] == 'V' && "VEC"@[2] == 'C' && "VEC"@[1] == 'E');
    reveal_strlit("OFF");
    assert("OFF"@[0] == 'O' && "OFF"@[2] == 'F' && "OFF"@[1] == 'F');
    reveal_strlit("START");
    assert("START"@[0] == 'S' && "START"@[4] == 'T' && "START"@[2] == 'A');
    reveal_strlit("STOP");
    assert("STOP"@[0] == 'S' && "STOP"@[3] == 'P' && "STOP"@[2] == 'O');
    reveal_strlit("LIST");
    assert("LIST"@[0] == 'L' && "LIST"@[3] == 'T' && "LIST"@[2] == 'S');
    reveal_strlit("EQ");
    assert("EQ"@[0] == 'E' && "EQ"@[1] == 'Q' && "EQ"@[1] == 'Q');
    reveal_strlit("NE");
    assert("NE"@[0] == 'N' && "NE"@[1] == 'E' && "NE"@[1] == 'E');
    reveal_strlit("LT");
    assert("LT"@[0] == 'L' && "LT"@[1] == 'T' && "LT"@[1] == 'T');
    reveal_strlit("GT");
    assert("GT"@[0] == 'G' && "GT"@[1] == 'T' && "GT"@[1] == 'T');
    reveal_strlit("SAME");
    assert("SAME"@[0] == 'S' && "SAME"@[3] == 'E' && "SAME"@[2] == 'M');
    reveal_strlit("DIFF");
    assert("DIFF"@[0] == 'D' && "DIFF"@[3] == 'F' && "DIFF"@[2] == 'F');
    reveal_strlit("PC");
    assert("PC"@[0] == 'P' && "PC"@[1] == 'C' && "PC"@[1] == 'C');
    reveal_strlit("IGN");
    assert("IGN"@[0] == 'I' && "IGN"@[2] == 'N' && "IGN"@[1] == 'G');
}

/// A line without a word does nothing.
pub proof fn lemma_empty_line(line: Seq<char>, lex: &Lexicon)
    ensures
        words(line).len() == 0 ==> command_of(line, lex) is Nothing,
{
}

/// The commands that run and stop the machine and take no argument.
pub proof fn lemma_plain_run_commands(line: Seq<char>, lex: &Lexicon)
    ensures
        says(line, "HELP"@) || says(line, "?"@) ==> command_of(line, lex) is Help,
        says(line, "CLEAR"@) ==> command_of(line, lex) is Clear,
        says(line, "CLOSE"@) || says(line, "QUIT"@) || says(line, "EXIT"@)
            ==> command_of(line, lex) is Close,
        says(line, "STATUS"@) ==> command_of(line, lex) is Status,
        says(line, "RUN"@) || says(line, "GO"@) || says(line, "CONTINUE"@) || says(line, "C"@)
            ==> command_of(line, lex) is Run,
        says(line, "PAUSE"@) ==> command_of(line, lex) is Pause,
        says(line, "OVER"@) || says(line, "NEXT"@) || says(line, "N"@)
            ==> command_of(line, lex) is Over,
        says(line, "OUT"@) || says(line, "FINISH"@) ==> command_of(line, lex) is Out,
        says(line, "FRAME"@) || says(line, "F"@) ==> command_of(line, lex) is Frame,
        says(line, "LINE"@) ==> command_of(line, lex) is Line,
        says(line, "CSTEP"@) ==> command_of(line, lex) is CopperStep,
        says(line, "RFRAME"@) ==> command_of(line, lex) is ReverseFrame,
        says(line, "RRUN"@) || says(line, "RC"@) ==> command_of(line, lex) is ReverseRun,
{
    lemma_marks();
}

/// A step goes one instruction, or as many as it says, at least one and at most a million,
/// forwards or backwards.
pub proof fn lemma_step_counts(line: Seq<char>, lex: &Lexicon, n: u64)
    ensures
        (says(line, "STEP"@) || says(line, "S"@)) && no_count(line, 1)
            ==> command_of(line, lex) == Command::<Seq<char>, Seq<u8>>::Step(1),
        (says(line, "STEP"@) || says(line, "S"@)) && given_count(line, 1, n) && 1 <= n <= 1_000_000
            ==> command_of(line, lex) == Command::<Seq<char>, Seq<u8>>::Step(n),
        (says(line, "STEP"@) || says(line, "S"@)) && given_count(line, 1, n) && n == 0
            ==> command_of(line, lex) == Command::<Seq<char>, Seq<u8>>::Step(1),
        (says(line, "STEP"@) || says(line, "S"@)) && given_count(line, 1, n) && n > 1_000_000
            ==> command_of(line, lex) == Command::<Seq<char>, Seq<u8>>::Step(1_000_000),
        (says(line, "RSTEP"@) || says(line, "RS"@)) && no_count(line, 1)
            ==> command_of(line, lex) == Command::<Seq<char>, Seq<u8>>::ReverseStep(1),
        (says(line, "RSTEP"@) || says(line, "RS"@)) && given_count(line, 1, n)
            && 1 <= n <= 1_000_000
            ==> command_of(line, lex) == Command::<Seq<char>, Seq<u8>>::ReverseStep(n),
        (says(line, "RSTEP"@) || says(line, "RS"@)) && given_count(line, 1, n) && n == 0
            ==> command_of(line, lex) == Command::<Seq<char>, Seq<u8>>::ReverseStep(1),
        (says(line, "RSTEP"@) || says(line, "RS"@)) && given_count(line, 1, n) && n > 1_000_000
            ==> command_of(line, lex) == Command::<Seq<char>, Seq<u8>>::ReverseStep(1_000_000),
{
    lemma_marks();
}

/// Running to an address, and to a line of the beam with or without a place on it.
pub proof fn lemma_running_to_places(line: Seq<char>, lex: &Lexicon, addr: u32, v: u16, h: u16)
    ensures
        says(line, "RUNTO"@) && given_hex(line, 1, addr)
            ==> command_of(line, lex) == Command::<Seq<char>, Seq<u8>>::RunTo(addr),
        says(line, "RUNTO"@) && no_hex(line, 1) ==> command_of(line, lex) is Bad,
        says(line, "TOSLOT"@) && given_dec(line, 1, v) && given_dec(line, 2, h)
            ==> command_of(line, lex) == Command::<Seq<char>, Seq<u8>>::ToSlot(v, Some(h)),
        says(line, "TOSLOT"@) && given_dec(line, 1, v) && no_dec(line, 2)
            ==> command_of(line, lex) == Command::<Seq<char>, Seq<u8>>::ToSlot(v, None),
        says(line, "TOSLOT"@) && no_dec(line, 1) ==> command_of(line, lex) is Bad,
{
    lemma_marks();
}

/// The commands that set and clear what stops the machine.
#[verifier::rlimit(30)]
pub proof fn lemma_stop_commands(line: Seq<char>, lex: &Lexicon, addr: u32, v: u16, h: u16, off: u16)
    ensures
        (says(line, "RWATCH"@) || says(line, "RW"@)) && words(line).len() > 1
            && lex.register(words(line)[1]) == Some(off)
            ==> command_of(line, lex) == Command::<Seq<char>, Seq<u8>>::RegWatch(off),
        (says(line, "RWATCH"@) || says(line, "RW"@))
            && (words(line).len() == 1 || lex.register(words(line)[1]) is None)
            ==> command_of(line, lex) is Bad,
        says(line, "BTRAP"@) && given_dec(line, 1, v) && given_dec(line, 2, h)
            ==> command_of(line, lex) == Command::<Seq<char>, Seq<u8>>::BeamTrap(v, Some(h)),
        says(line, "BTRAP"@) && given_dec(line, 1, v) && no_dec(line, 2)
            ==> command_of(line, lex) == Command::<Seq<char>, Seq<u8>>::BeamTrap(v, None),
        says(line, "BTRAP"@) && no_dec(line, 1) ==> command_of(line, lex) is Bad,
        says(line, "CBREAK"@) && given_hex(line, 1, addr)
            ==> command_of(line, lex) == Command::<Seq<char>, Seq<u8>>::CopperBreak(addr),
        says(line, "CBREAK"@) && no_hex(line, 1) ==> command_of(line, lex) is Bad,
        says(line, "CATCHALERT"@) ==> command_of(line, lex) is CatchAlert,
        says(line, "BREAKS"@) || says(line, "INFO"@) ==> command_of(line, lex) is Breaks,
        says(line, "CLEARBREAKS"@) ==> command_of(line, lex) is ClearBreaks,
        says(line, "CATCHTASK"@) && words(line).len() == 1
            ==> command_of(line, lex) == Command::<Seq<char>, Seq<u8>>::CatchTask(None),
        says(line, "CATCHTASK"@) && words(line).len() > 1
            ==> command_of(line, lex)
            == Command::<Seq<char>, Seq<u8>>::CatchTask(Some(joined(words(line).skip(1)))),
{
    lemma_marks();
}

/// An interrupt level is caught at its autovector, a trap at its own, and a vector by its
/// number; there are seven levels, sixteen traps and two hundred and fifty-six vectors.
#[verifier::rlimit(30)]
pub proof fn lemma_catches(line: Seq<char>, lex: &Lexicon, n: u16)
    ensures
        says(line, "CATCH"@) && words(line).len() == 3 && upper(words(line)[1]) == "IRQ"@
            && given_dec(line, 2, n) && 1 <= n <= 7
            ==> command_of(line, lex) == Command::<Seq<char>, Seq<u8>>::Catch((24 + n) as u16),
        says(line, "CATCH"@) && words(line).len() == 3 && upper(words(line)[1]) == "IRQ"@
            && given_dec(line, 2, n) && !(1 <= n <= 7) ==> command_of(line, lex) is Bad,
        says(line, "CATCH"@) && words(line).len() == 3 && upper(words(line)[1]) == "TRAP"@
            && given_dec(line, 2, n) && n <= 15
            ==> command_of(line, lex) == Command::<Seq<char>, Seq<u8>>::Catch((32 + n) as u16),
        says(line, "CATCH"@) && words(line).len() == 3 && upper(words(line)[1]) == "TRAP"@
            && given_dec(line, 2, n) && n > 15 ==> command_of(line, lex) is Bad,
        says(line, "CATCH"@) && words(line).len() == 3 && upper(words(line)[1]) == "VEC"@
            && given_dec(line, 2, n) && n <= 255
            ==> command_of(line, lex) == Command::<Seq<char>, Seq<u8>>::Catch(n),
        says(line, "CATCH"@) && words(line).len() == 3 && upper(words(line)[1]) == "VEC"@
            && given_dec(line, 2, n) && n > 255 ==> command_of(line, lex) is Bad,
        says(line, "CATCH"@) && words(line).len() != 3 ==> command_of(line, lex) is Bad,
{
    lemma_marks();
    assert(words(line).len() == 3
        ==> words(line).skip(1)[0] == words(line)[1] && words(line).skip(1)[1] == words(line)[2]);
}

/// The lists that the guest keeps, by name.
#[verifier::rlimit(40)]
pub proof fn lemma_os_commands(line: Seq<char>, lex: &Lexicon)
    ensures
        says(line, "TASKS"@)
            ==> command_of(line, lex) == Command::<Seq<char>, Seq<u8>>::Os(OsList::Tasks),
        says(line, "EXECBASE"@) || says(line, "EXEC"@)
            ==> command_of(line, lex) == Command::<Seq<char>, Seq<u8>>::Os(OsList::Exec),
        says(line, "MEMLIST"@) || says(line, "AVAIL"@)
            ==> command_of(line, lex) == Command::<Seq<char>, Seq<u8>>::Os(OsList::Memory),
        says(line, "LIBS"@) || says(line, "LIBRARIES"@)
            ==> command_of(line, lex) == Command::<Seq<char>, Seq<u8>>::Os(OsList::Libraries),
        says(line, "DEVS"@) || says(line, "DEVICES"@)
            ==> command_of(line, lex) == Command::<Seq<char>, Seq<u8>>::Os(OsList::Devices),
        says(line, "RESOURCES"@)
            ==> command_of(line, lex) == Command::<Seq<char>, Seq<u8>>::Os(OsList::Resources),
        says(line, "PORTS"@)
            ==> command_of(line, lex) == Command::<Seq<char>, Seq<u8>>::Os(OsList::Ports),
        says(line, "SEGMENTS"@)
            ==> command_of(line, lex) == Command::<Seq<char>, Seq<u8>>::Os(OsList::Segments),
        says(line, "TASK"@)
            ==> command_of(line, lex)
            == Command::<Seq<char>, Seq<u8>>::Task(joined(words(line).skip(1))),
{
    lemma_marks();
}

/// The commands that look at the machine.
#[verifier::rlimit(50)]
pub proof fn lemma_inspecting_commands(line: Seq<char>, lex: &Lexicon, addr: u32)
    ensures
        says(line, "REGS"@) || says(line, "R"@) ==> command_of(line, lex) is Regs,
        says(line, "STACK"@) || says(line, "BT"@) ==> command_of(line, lex) is Stack,
        says(line, "BLITS"@) ==> command_of(line, lex) is Blits,
        says(line, "CUSTOM"@) ==> command_of(line, lex) is Custom,
        says(line, "GURU"@) && words(line).len() == 1
            ==> command_of(line, lex) == Command::<Seq<char>, Seq<u8>>::Guru(None),
        says(line, "GURU"@) && given_hex(line, 1, addr)
            ==> command_of(line, lex) == Command::<Seq<char>, Seq<u8>>::Guru(Some(addr)),
        says(line, "GURU"@) && words(line).len() > 1 && no_hex(line, 1)
            ==> command_of(line, lex) is Bad,
        says(line, "WRITER"@) && given_hex(line, 1, addr)
            ==> command_of(line, lex) == Command::<Seq<char>, Seq<u8>>::Writer(addr),
        says(line, "WRITER"@) && no_hex(line, 1) ==> command_of(line, lex) is Bad,
{
    lemma_marks();
}

/// A memory dump shows sixty-four bytes, or as many as it says, at least one and at most
/// a kilobyte.
#[verifier::rlimit(50)]
pub proof fn lemma_memory_dump_lengths(line: Seq<char>, lex: &Lexicon, addr: u32, n: u32)
    ensures
        (says(line, "MEM"@) || says(line, "M"@)) && given_hex(line, 1, addr) && no_hex(line, 2)
            ==> command_of(line, lex) == (Command::<Seq<char>, Seq<u8>>::Mem { addr, len: 64 }),
        (says(line, "MEM"@) || says(line, "M"@)) && given_hex(line, 1, addr)
            && given_hex(line, 2, n) && 1 <= n <= 1024
            ==> command_of(line, lex) == (Command::<Seq<char>, Seq<u8>>::Mem { addr, len: n }),
        (says(line, "MEM"@) || says(line, "M"@)) && given_hex(line, 1, addr)
            && given_hex(line, 2, n) && n == 0
            ==> command_of(line, lex) == (Command::<Seq<char>, Seq<u8>>::Mem { addr, len: 1 }),
        (says(line, "MEM"@) || says(line, "M"@)) && given_hex(line, 1, addr)
            && given_hex(line, 2, n) && n > 1024
            ==> command_of(line, lex) == (Command::<Seq<char>, Seq<u8>>::Mem { addr, len: 1024 }),
        (says(line, "MEM"@) || says(line, "M"@)) && no_hex(line, 1)
            ==> command_of(line, lex) is Bad,
{
    lemma_marks();
}

/// The history shows sixteen entries, or as many as it says.
#[verifier::rlimit(50)]
pub proof fn lemma_history_counts(line: Seq<char>, lex: &Lexicon, n: u64)
    ensures
        (says(line, "HISTORY"@) || says(line, "H"@)) && no_count(line, 1)
            ==> command_of(line, lex) == Command::<Seq<char>, Seq<u8>>::History(16),
        (says(line, "HISTORY"@) || says(line, "H"@)) && given_count(line, 1, n)
            && 1 <= n <= u64::MAX
            ==> command_of(line, lex) == Command::<Seq<char>, Seq<u8>>::History(n),
        (says(line, "HISTORY"@) || says(line, "H"@)) && given_count(line, 1, n) && n == 0
            ==> command_of(line, lex) == Command::<Seq<char>, Seq<u8>>::History(1),
{
    lemma_marks();
}

/// A disassembly starts where it says, or at the program counter, and goes on for eight
/// instructions, or as many as it says, up to thirty-two.
#[verifier::rlimit(50)]
pub proof fn lemma_disassembly(line: Seq<char>, lex: &Lexicon, n: u64, addr: u32)
    ensures
        (says(line, "DIS"@) || says(line, "D"@)) && given_hex(line, 1, addr) && no_count(line, 2)
            ==> command_of(line, lex)
            == (Command::<Seq<char>, Seq<u8>>::Dis { addr: Some(addr), count: 8 }),
        (says(line, "DIS"@) || says(line, "D"@)) && given_hex(line, 1, addr)
            && given_count(line, 2, n) && 1 <= n <= 32
            ==> command_of(line, lex)
            == (Command::<Seq<char>, Seq<u8>>::Dis { addr: Some(addr), count: n }),
        (says(line, "DIS"@) || says(line, "D"@)) && given_hex(line, 1, addr)
            && given_count(line, 2, n) && n == 0
            ==> command_of(line, lex)
            == (Command::<Seq<char>, Seq<u8>>::Dis { addr: Some(addr), count: 1 }),
        (says(line, "DIS"@) || says(line, "D"@)) && given_hex(line, 1, addr)
            && given_count(line, 2, n) && n > 32
            ==> command_of(line, lex)
            == (Command::<Seq<char>, Seq<u8>>::Dis { addr: Some(addr), count: 32 }),
        (says(line, "DIS"@) || says(line, "D"@)) && no_hex(line, 1)
            ==> (command_of(line, lex) matches Command::Dis { addr, .. } && addr is None),
{
    lemma_marks();
}

/// A copper list starts where it says, or where the copper stands, and goes on for sixteen
/// instructions, or as many as it says, up to sixty-four.
#[verifier::rlimit(60)]
pub proof fn lemma_copper_lists(line: Seq<char>, lex: &Lexicon, n: u64, addr: u32)
    ensures
        says(line, "COPPER"@) && (words(line).len() == 1 || upper(words(line)[1]) == "PC"@)
            && no_count(line, 2)
            ==> command_of(line, lex)
            == (Command::<Seq<char>, Seq<u8>>::Copper { start: None, count: 16 }),
        says(line, "COPPER"@) && (words(line).len() == 1 || upper(words(line)[1]) == "PC"@)
            && given_count(line, 2, n) && 1 <= n <= 64
            ==> command_of(line, lex)
            == (Command::<Seq<char>, Seq<u8>>::Copper { start: None, count: n }),
        says(line, "COPPER"@) && (words(line).len() == 1 || upper(words(line)[1]) == "PC"@)
            && given_count(line, 2, n) && n == 0
            ==> command_of(line, lex)
            == (Command::<Seq<char>, Seq<u8>>::Copper { start: None, count: 1 }),
        says(line, "COPPER"@) && (words(line).len() == 1 || upper(words(line)[1]) == "PC"@)
            && given_count(line, 2, n) && n > 64
            ==> command_of(line, lex)
            == (Command::<Seq<char>, Seq<u8>>::Copper { start: None, count: 64 }),
        says(line, "COPPER"@) && words(line).len() > 1 && upper(words(line)[1]) != "PC"@
            && hex32_of(upper(words(line)[1])) == Some(addr) && no_count(line, 2)
            ==> command_of(line, lex)
            == (Command::<Seq<char>, Seq<u8>>::Copper { start: Some(addr), count: 16 }),
        says(line, "COPPER"@) && words(line).len() > 1 && upper(words(line)[1]) != "PC"@
            && hex32_of(upper(words(line)[1])) == Some(addr) && given_count(line, 2, n)
            && 1 <= n <= 64
            ==> command_of(line, lex)
            == (Command::<Seq<char>, Seq<u8>>::Copper { start: Some(addr), count: n }),
        says(line, "COPPER"@) && words(line).len() > 1 && upper(words(line)[1]) != "PC"@
            && hex32_of(upper(words(line)[1])) == Some(addr) && given_count(line, 2, n) && n == 0
            ==> command_of(line, lex)
            == (Command::<Seq<char>, Seq<u8>>::Copper { start: Some(addr), count: 1 }),
        says(line, "COPPER"@) && words(line).len() > 1 && upper(words(line)[1]) != "PC"@
            && hex32_of(upper(words(line)[1])) == Some(addr) && given_count(line, 2, n) && n > 64
            ==> command_of(line, lex)
            == (Command::<Seq<char>, Seq<u8>>::Copper { start: Some(addr), count: 64 }),
        says(line, "COPPER"@) && words(line).len() > 1 && upper(words(line)[1]) != "PC"@
            && hex32_of(upper(words(line)[1])) is None ==> command_of(line, lex) is Bad,
{
    lemma_marks();
}

/// The hunt's filters by name, each with its value.
#[verifier::rlimit(80)]
pub proof fn lemma_hunt_filters(line: Seq<char>, lex: &Lexicon, v: u32)
    ensures
        says(line, "HUNT"@) && words(line).len() > 1 && upper(words(line)[1]) == "EQ"@
            && given_hex(line, 2, v)
            ==> command_of(line, lex)
            == Command::<Seq<char>, Seq<u8>>::Hunt(HuntCommand::Filter(HuntFilter::Equal(v))),
        says(line, "HUNT"@) && words(line).len() > 1 && upper(words(line)[1]) == "EQ"@
            && no_hex(line, 2) ==> command_of(line, lex) is Bad,
        says(line, "HUNT"@) && words(line).len() > 1 && upper(words(line)[1]) == "NE"@
            && given_hex(line, 2, v)
            ==> command_of(line, lex)
            == Command::<Seq<char>, Seq<u8>>::Hunt(HuntCommand::Filter(HuntFilter::NotEqual(v))),
        says(line, "HUNT"@) && words(line).len() > 1 && upper(words(line)[1]) == "NE"@
            && no_hex(line, 2) ==> command_of(line, lex) is Bad,
        says(line, "HUNT"@) && words(line).len() > 1 && upper(words(line)[1]) == "LT"@
            && given_hex(line, 2, v)
            ==> command_of(line, lex)
            == Command::<Seq<char>, Seq<u8>>::Hunt(HuntCommand::Filter(HuntFilter::Less(v))),
        says(line, "HUNT"@) && words(line).len() > 1 && upper(words(line)[1]) == "LT"@
            && no_hex(line, 2) ==> command_of(line, lex) is Bad,
        says(line, "HUNT"@) && words(line).len() > 1 && upper(words(line)[1]) == "GT"@
            && given_hex(line, 2, v)
            ==> command_of(line, lex)
            == Command::<Seq<char>, Seq<u8>>::Hunt(HuntCommand::Filter(HuntFilter::Greater(v))),
        says(line, "HUNT"@) && words(line).len() > 1 && upper(words(line)[1]) == "GT"@
            && no_hex(line, 2) ==> command_of(line, lex) is Bad,
        says(line, "HUNT"@) && words(line).len() > 1 && upper(words(line)[1]) == "SAME"@
            ==> command_of(line, lex)
            == Command::<Seq<char>, Seq<u8>>::Hunt(HuntCommand::Filter(HuntFilter::Same)),
        says(line, "HUNT"@) && words(line).len() > 1 && upper(words(line)[1]) == "DIFF"@
            ==> command_of(line, lex)
            == Command::<Seq<char>, Seq<u8>>::Hunt(HuntCommand::Filter(HuntFilter::Different)),
        says(line, "HUNT"@) && words(line).len() > 1 && upper(words(line)[1]) == "OFF"@
            ==> command_of(line, lex) == Command::<Seq<char>, Seq<u8>>::Hunt(HuntCommand::Off),
        says(line, "HUNT"@) && words(line).len() == 1
            ==> command_of(line, lex) == Command::<Seq<char>, Seq<u8>>::Hunt(HuntCommand::Show),
{
    lemma_marks();
}

/// A hunt starts over words unless it says bytes, and lists sixteen of what is left, or as
/// many as it says, up to sixty-four.
#[verifier::rlimit(80)]
pub proof fn lemma_hunt_starts_and_lists(line: Seq<char>, lex: &Lexicon, n: u64)
    ensures
        says(line, "HUNT"@) && words(line).len() > 1 && upper(words(line)[1]) == "START"@
            && (words(line).len() == 2 || upper(words(line)[2]) == "W"@)
            ==> command_of(line, lex) == Command::<Seq<char>, Seq<u8>>::Hunt(HuntCommand::Start(2)),
        says(line, "HUNT"@) && words(line).len() > 1 && upper(words(line)[1]) == "START"@
            && words(line).len() > 2 && upper(words(line)[2]) == "B"@
            ==> command_of(line, lex) == Command::<Seq<char>, Seq<u8>>::Hunt(HuntCommand::Start(1)),
        says(line, "HUNT"@) && words(line).len() > 1 && upper(words(line)[1]) == "START"@
            && words(line).len() > 2 && upper(words(line)[2]) != "B"@
            && upper(words(line)[2]) != "W"@ ==> command_of(line, lex) is Bad,
        says(line, "HUNT"@) && words(line).len() > 1 && upper(words(line)[1]) == "LIST"@
            && no_count(line, 2)
            ==> command_of(line, lex) == Command::<Seq<char>, Seq<u8>>::Hunt(HuntCommand::List(16)),
        says(line, "HUNT"@) && words(line).len() > 1 && upper(words(line)[1]) == "LIST"@
            && given_count(line, 2, n) && 1 <= n <= 64
            ==> command_of(line, lex) == Command::<Seq<char>, Seq<u8>>::Hunt(HuntCommand::List(n)),
        says(line, "HUNT"@) && words(line).len() > 1 && upper(words(line)[1]) == "LIST"@
            && given_count(line, 2, n) && n == 0
            ==> command_of(line, lex) == Command::<Seq<char>, Seq<u8>>::Hunt(HuntCommand::List(1)),
        says(line, "HUNT"@) && words(line).len() > 1 && upper(words(line)[1]) == "LIST"@
            && given_count(line, 2, n) && n > 64
            ==> command_of(line, lex) == Command::<Seq<char>, Seq<u8>>::Hunt(HuntCommand::List(64)),
{
    lemma_marks();
}

/// Tracing and wave dumps: started, stopped, or asked after.
#[verifier::rlimit(80)]
pub proof fn lemma_recordings(line: Seq<char>, lex: &Lexicon)
    ensures
        says(line, "TRACE"@) && words(line).len() == 1 ==> command_of(line, lex) is TraceStatus,
        says(line, "TRACE"@) && words(line).len() > 1 && upper(words(line)[1]) == "STOP"@
            ==> command_of(line, lex) is TraceStop,
        says(line, "TRACE"@) && words(line).len() == 2 && upper(words(line)[1]) == "START"@
            ==> command_of(line, lex) == Command::<Seq<char>, Seq<u8>>::TraceStart(None),
        says(line, "TRACE"@) && words(line).len() > 2 && upper(words(line)[1]) == "START"@
            ==> command_of(line, lex)
            == Command::<Seq<char>, Seq<u8>>::TraceStart(Some(words(line)[2])),
        (says(line, "WAVE"@) || says(line, "WAVEFORM"@)) && words(line).len() == 1
            ==> command_of(line, lex) is WaveStatus,
        (says(line, "WAVE"@) || says(line, "WAVEFORM"@)) && words(line).len() > 1
            && upper(words(line)[1]) == "STOP"@ ==> command_of(line, lex) is WaveStop,
        (says(line, "WAVE"@) || says(line, "WAVEFORM"@)) && words(line).len() > 1
            && upper(words(line)[1]) == "START"@
            ==> command_of(line, lex)
            == Command::<Seq<char>, Seq<u8>>::WaveStart(joined(words(line).skip(2))),
{
    lemma_marks();
    assert(words(line).len() > 1 ==> words(line).skip(1).skip(1) =~= words(line).skip(2));
}

/// A poke writes the low word of its value, and setting a register takes the whole value.
#[verifier::rlimit(80)]
pub proof fn lemma_changes(line: Seq<char>, lex: &Lexicon, addr: u32, v: u32, reg: u8)
    ensures
        says(line, "POKE"@) && given_hex(line, 1, addr) && given_hex(line, 2, v) && v < 0x1_0000
            ==> command_of(line, lex)
            == (Command::<Seq<char>, Seq<u8>>::Poke { addr, value: v as u16 }),
        says(line, "POKE"@) && given_hex(line, 1, addr) && given_hex(line, 2, v)
            ==> (command_of(line, lex) matches Command::Poke { addr: a, value } && a == addr
            && (v - value) % 0x1_0000 == 0),
        says(line, "POKE"@) && (no_hex(line, 1) || no_hex(line, 2))
            ==> command_of(line, lex) is Bad,
        says(line, "SETREG"@) && words(line).len() > 1
            && reg_of(words(line)[1]) == Some(reg) && given_hex(line, 2, v)
            ==> command_of(line, lex)
            == (Command::<Seq<char>, Seq<u8>>::SetReg { reg, value: v, name: upper(words(line)[1]) }),
        says(line, "SETREG"@)
            && (words(line).len() < 3 || reg_of(words(line)[1]) is None || no_hex(line, 2))
            ==> command_of(line, lex) is Bad,
{
    lemma_marks();
}

/// A data register is its number, an address register eight more; the stack pointer is
/// the last address register, and the status register and program counter follow.
pub proof fn lemma_register_numbers(s: Seq<char>, n: nat)
    ensures
        s.len() > 1 && (s[0] == 'd' || s[0] == 'D') && number(upper(s).skip(1), 10, 7) == Some(n)
            ==> reg_of(s) == Some(n as u8),
        s.len() > 1 && (s[0] == 'a' || s[0] == 'A') && number(upper(s).skip(1), 10, 7) == Some(n)
            ==> reg_of(s) == Some((n + 8) as u8),
        s.len() > 1 && (s[0] == 'd' || s[0] == 'D' || s[0] == 'a' || s[0] == 'A') && number(
            upper(s).skip(1),
            10,
            7,
        ) is None ==> reg_of(s) is None,
        upper(s) == "SP"@ ==> reg_of(s) == Some(15u8),
        upper(s) == "SR"@ ==> reg_of(s) == Some(16u8),
        upper(s) == "PC"@ ==> reg_of(s) == Some(17u8),
{
    reveal_strlit("SP");
    reveal_strlit("SR");
    reveal_strlit("PC");
    assert("SP"@[0] == 'S' && "SR"@[0] == 'S' && "PC"@[0] == 'P');
    assert("SP"@[1] == 'P' && "SR"@[1] == 'R');
    if s.len() > 0 {
        assert(upper(s)[0] == crate::text::upper_char(s[0]));
    }
}

/// A breakpoint is an address, then where it says so a condition of three words and a
/// count to ignore; the words are taken in capitals.
pub proof fn lemma_breakpoints(args: Seq<Seq<char>>, addr: u32, n: u32)
    requires
        args.len() > 0,
        hex32_of(upper(args[0])) == Some(addr),
    ensures
        args.len() == 1 ==> break_of(args) == Some((addr, None::<Seq<char>>, 0u32)),
        args.len() == 3 && upper(args[1]) == "IGN"@ && number(upper(args[2]), 10, 0xFFFF_FFFF)
            == Some(n as nat) ==> break_of(args) == Some((addr, None::<Seq<char>>, n)),
        args.len() == 3 && (upper(args[1]) != "IGN"@ || number(upper(args[2]), 10, 0xFFFF_FFFF)
            is None) ==> break_of(args) is None,
        args.len() == 4 && comparison(upper(args[2])) && !comparison(upper(args[1]))
            && !comparison(upper(args[3])) ==> break_of(args) == Some(
            (addr, Some(joined(seq![upper(args[1]), upper(args[2]), upper(args[3])])), 0u32),
        ),
        args.len() == 4 && !comparison(upper(args[2])) ==> break_of(args) is None,
        args.len() == 6 && comparison(upper(args[2])) && !comparison(upper(args[1]))
            && !comparison(upper(args[3])) && upper(args[4]) == "IGN"@ && number(
            upper(args[5]),
            10,
            0xFFFF_FFFF,
        ) == Some(n as nat) ==> break_of(args) == Some(
            (addr, Some(joined(seq![upper(args[1]), upper(args[2]), upper(args[3])])), n),
        ),
        args.len() == 2 || args.len() == 5 || args.len() > 6 ==> break_of(args) is None,
{
    let w = args.map_values(|s: Seq<char>| upper(s));
    if args.len() >= 4 {
        assert(w.subrange(1, 4) =~= seq![upper(args[1]), upper(args[2]), upper(args[3])]);
    }
}

/// The six ways to compare, equality under two names.
pub open spec fn comparison(s: Seq<char>) -> bool {
    s == "=="@ || s == "="@ || s == "!="@ || s == "<"@ || s == "<="@ || s == ">"@ || s == ">="@
}

/// A watch may name a class and an instruction, in either order and each once; one more
/// of either is a mistake.
pub proof fn lemma_watch_qualifiers(args: Seq<Seq<char>>, lex: &Lexicon, token: Seq<char>)
    ensures
        watch_quals(Seq::empty(), lex) == Ok::<(Option<u8>, Option<u32>), Seq<char>>((None, None)),
        watch_quals(args, lex) matches Ok((filter, pc)) ==> {
            let more = watch_quals(args.push(token), lex);
            &&& !starts(upper(token), "PC="@) && lex.class(token) is Some && filter is None
                ==> more == Ok::<(Option<u8>, Option<u32>), Seq<char>>((lex.class(token), pc))
            &&& !starts(upper(token), "PC="@) && (lex.class(token) is None || filter is Some)
                ==> more is Err
            &&& starts(upper(token), "PC="@) && pc is None && hex32_of(token.skip(3)) is Some
                ==> more == Ok::<(Option<u8>, Option<u32>), Seq<char>>(
                (filter, hex32_of(token.skip(3))),
            )
            &&& starts(upper(token), "PC="@) && (pc is Some || hex32_of(token.skip(3)) is None)
                ==> more is Err
        },
        watch_quals(args, lex) is Err ==> watch_quals(args.push(token), lex) is Err,
{
    assert(args.push(token).drop_last() =~= args);
    assert(args.push(token).last() == token);
}

/// A watch is on the address it names; a class that no instruction stands behind takes no
/// instruction.
#[verifier::rlimit(40)]
pub proof fn lemma_watches(line: Seq<char>, lex: &Lexicon, addr: u32, f: u8, pc: u32)
    ensures
        (says(line, "WATCH"@) || says(line, "W"@)) && no_hex(line, 1)
            ==> command_of(line, lex) is Bad,
        (says(line, "WATCH"@) || says(line, "W"@)) && given_hex(line, 1, addr)
            && words(line).len() == 2
            ==> command_of(line, lex)
            == (Command::<Seq<char>, Seq<u8>>::Watch { addr, filter: None, pc: None }),
        (says(line, "WATCH"@) || says(line, "W"@)) && given_hex(line, 1, addr)
            && watch_quals(words(line).skip(2), lex) is Err ==> command_of(line, lex) is Bad,
        (says(line, "WATCH"@) || says(line, "W"@)) && given_hex(line, 1, addr)
            && watch_quals(words(line).skip(2), lex)
            == Ok::<(Option<u8>, Option<u32>), Seq<char>>((Some(f), None))
            ==> command_of(line, lex)
            == (Command::<Seq<char>, Seq<u8>>::Watch { addr, filter: Some(f), pc: None }),
        (says(line, "WATCH"@) || says(line, "W"@)) && given_hex(line, 1, addr)
            && watch_quals(words(line).skip(2), lex)
            == Ok::<(Option<u8>, Option<u32>), Seq<char>>((None, Some(pc)))
            ==> command_of(line, lex)
            == (Command::<Seq<char>, Seq<u8>>::Watch { addr, filter: None, pc: Some(pc) }),
        (says(line, "WATCH"@) || says(line, "W"@)) && given_hex(line, 1, addr)
            && watch_quals(words(line).skip(2), lex)
            == Ok::<(Option<u8>, Option<u32>), Seq<char>>((Some(f), Some(pc)))
            && lex.classes@[f as int].takes_pc
            ==> command_of(line, lex)
            == (Command::<Seq<char>, Seq<u8>>::Watch { addr, filter: Some(f), pc: Some(pc) }),
        (says(line, "WATCH"@) || says(line, "W"@)) && given_hex(line, 1, addr)
            && watch_quals(words(line).skip(2), lex)
            == Ok::<(Option<u8>, Option<u32>), Seq<char>>((Some(f), Some(pc)))
            && !lex.classes@[f as int].takes_pc ==> command_of(line, lex) is Bad,
{
    lemma_marks();
    if words(line).len() > 1 {
        assert(words(line).skip(1).skip(1) =~= words(line).skip(2));
        if words(line).len() == 2 {
            assert(words(line).skip(2) =~= Seq::empty());
        }
    }
}

/// A breakpoint command is what its arguments spell, or a mistake.
#[verifier::rlimit(40)]
pub proof fn lemma_break_commands(line: Seq<char>, lex: &Lexicon, addr: u32, cond: Option<Seq<char>>, ignore: u32)
    ensures
        (says(line, "BREAK"@) || says(line, "B"@))
            && break_of(words(line).skip(1)) == Some((addr, cond, ignore))
            ==> command_of(line, lex)
            == (Command::<Seq<char>, Seq<u8>>::Break { addr, cond, ignore }),
        (says(line, "BREAK"@) || says(line, "B"@)) && break_of(words(line).skip(1)) is None
            ==> command_of(line, lex) is Bad,
{
    lemma_marks();
}

proof fn lemma_pattern_grows(s: Seq<char>, a: char, b: char)
    ensures
        hex_pattern(s.push(a).push(b)) == (match (hex_pattern(s), number(seq![a, b], 16, 0xFF)) {
            (Some(front), Some(v)) => Some(front.push(v as u8)),
            _ => None,
        }),
{
    let t = s.push(a).push(b);
    assert(t.take(t.len() - 2) =~= s);
}

/// A pattern is its bytes in order, two digits each, the high one first; half a byte, or
/// nothing at all, is no pattern.
pub proof fn lemma_patterns(s: Seq<char>, a: char, b: char, front: Seq<u8>, parts: Seq<Seq<char>>)
    ensures
        hex_pattern(Seq::empty()) == Some(Seq::<u8>::empty()),
        hex_pattern(s) == Some(front) && crate::number::digit(a) < 16 && crate::number::digit(b)
            < 16 ==> hex_pattern(s.push(a).push(b)) == Some(
            front.push((crate::number::digit(a) * 16 + crate::number::digit(b)) as u8),
        ),
        s.len() % 2 == 1 ==> hex_pattern(s) is None,
        glued(parts).len() == 0 ==> pattern_of(parts) is None,
        glued(parts).len() > 0 ==> pattern_of(parts) == hex_pattern(glued(parts)),
    decreases s.len(),
{
    lemma_pattern_grows(s, a, b);
    if crate::number::digit(a) < 16 && crate::number::digit(b) < 16 {
        crate::reading_laws::lemma_number_begins(a, Seq::empty(), 16, 0xFF);
        crate::reading_laws::lemma_number_grows_by_digits(
            seq![a],
            b,
            16,
            0xFF,
            crate::number::digit(a),
        );
        assert(seq![a].push(b) =~= seq![a, b]);
    }
    if s.len() % 2 == 1 && s.len() > 1 {
        lemma_patterns(s.take(s.len() - 2), a, b, front, parts);
    }
}

/// A search takes its last word as where to start, where there are other words and it is an
/// address; without one it starts at the bottom of memory.
#[verifier::rlimit(60)]
pub proof fn lemma_find(line: Seq<char>, lex: &Lexicon, start: u32, p: Seq<u8>)
    ensures
        says(line, "FIND"@) && words(line).len() > 2
            && hex32_of(words(line).last()) == Some(start)
            && pattern_of(words(line).skip(1).drop_last()) == Some(p)
            ==> command_of(line, lex)
            == (Command::<Seq<char>, Seq<u8>>::Find { pattern: p, start }),
        says(line, "FIND"@) && words(line).len() == 2 && pattern_of(words(line).skip(1)) == Some(p)
            ==> command_of(line, lex)
            == (Command::<Seq<char>, Seq<u8>>::Find { pattern: p, start: 0 }),
        says(line, "FIND"@) && words(line).len() > 2 && hex32_of(words(line).last()) is None
            && pattern_of(words(line).skip(1)) == Some(p)
            ==> command_of(line, lex)
            == (Command::<Seq<char>, Seq<u8>>::Find { pattern: p, start: 0 }),
        says(line, "FIND"@) && words(line).len() == 1 ==> command_of(line, lex) is Bad,
{
    lemma_marks();
}

} // verus!
