//! The console's page of the workspace: the keys that it takes, its prompt
//! and what was printed.

use vstd::prelude::*;

use crate::actions::Action;
use crate::app::ConsolePanel;
use crate::inspector_keys::ConsoleKeys;
use crate::inspector_keys::KeyDown;
use crate::inspector_keys::console_calls;
use crate::inspector_keys::console_keys;
use crate::inspector_keys::console_submission;
use crate::sheets::Piece;
use crate::sheets::Sheet;
use crate::text::chars_of;
use crate::text::put;
use crate::text::same;
use crate::text::texts;
use crate::text::trimmed;

verus! {

/// The most characters that the prompt holds.
pub const MOST_TYPED: usize = 16384;

/// What the page finds when it is laid out. A layout may take several passes;
/// the keys belong to the first of them.
#[derive(PartialEq, Eq, Debug)]
pub struct ConsoleInput {
    pub events: Vec<KeyDown>,
    pub first_pass: bool,
    /// Another inspector was on the screen before.
    pub entering: bool,
    /// Something of the page has the keyboard, and whether that is the prompt.
    pub any_focus: bool,
    pub entry_focus: bool,
}

/// What the keys of the page call for, once the history was stepped through.
#[derive(PartialEq, Eq, Debug)]
pub struct ConsoleCalls {
    /// The prompt takes the keyboard.
    pub focus_entry: bool,
    /// Whatever has the keyboard lets go of it.
    pub surrender: bool,
    /// How many pages the output scrolls down.
    pub pages: i32,
    /// The prompt holds another line, whose end the caret goes to.
    pub recalled: bool,
    pub submit: bool,
    pub close: Option<Action>,
}

pub open spec fn no_keys() -> ConsoleKeys {
    ConsoleKeys {
        pages: 0,
        surrender: false,
        close: false,
        older: false,
        newer: false,
        submit: false,
    }
}

/// The keys that a pass of the layout takes.
pub open spec fn keys_of(i: &ConsoleInput) -> ConsoleKeys {
    if i.first_pass {
        console_calls(i.events@, i.any_focus, i.entry_focus)
    } else {
        no_keys()
    }
}

pub open spec fn stepped_if(o: &ConsolePanel, n: &ConsolePanel, due: bool, older: bool) -> bool {
    if due {
        o.history_stepped(n, older)
    } else {
        *n == *o
    }
}

/// The keys of the page: paging, leaving, the history, and running a line.
pub fn console(p: &mut ConsolePanel, i: &ConsoleInput) -> (r: ConsoleCalls)
    requires
        old(p).recall_fits(),
    ensures
        final(p).recall_fits(),
        exists|mid: ConsolePanel| #[trigger]
            stepped_if(old(p), &mid, keys_of(i).older, true) && stepped_if(
                &mid,
                final(p),
                keys_of(i).newer,
                false,
            ),
        r == (ConsoleCalls {
            focus_entry: i.first_pass && i.entering,
            surrender: keys_of(i).surrender,
            pages: keys_of(i).pages,
            recalled: keys_of(i).older || keys_of(i).newer,
            submit: keys_of(i).submit,
            close: if keys_of(i).close {
                Some(Action::CloseWorkspace)
            } else {
                None
            },
        }),
{
    let keys: ConsoleKeys = if i.first_pass {
        console_keys(&i.events, i.any_focus, i.entry_focus)
    } else {
        ConsoleKeys {
            pages: 0,
            surrender: false,
            close: false,
            older: false,
            newer: false,
            submit: false,
        }
    };
    if keys.older {
        p.history_step(true);
    }
    let ghost mid = *p;
    assert(stepped_if(old(p), &mid, keys_of(i).older, true));
    if keys.newer {
        p.history_step(false);
    }
    ConsoleCalls {
        focus_entry: i.first_pass && i.entering,
        surrender: keys.surrender,
        pages: keys.pages,
        recalled: keys.older || keys.newer,
        submit: keys.submit,
        close: if keys.close {
            Some(Action::CloseWorkspace)
        } else {
            None
        },
    }
}

/// The prompt after it was typed into: a line that differs is no line of the
/// history any more.
pub open spec fn typed_into(o: &ConsolePanel, n: &ConsolePanel, text: Seq<char>) -> bool {
    &&& n.input@ == text
    &&& *n == (ConsolePanel {
        input: n.input,
        history_pos: if text == o.input@ {
            o.history_pos
        } else {
            None
        },
        ..*o
    })
}

/// The prompt holds `text` once it was edited. Gives the line to run, where
/// one was asked for and there is any; the output then scrolls to its end and
/// the prompt keeps the keyboard.
pub fn console_prompt(p: &mut ConsolePanel, text: String, submit: bool) -> (r: Option<Action>)
    requires
        old(p).recall_fits(),
    ensures
        final(p).recall_fits(),
        match r {
            Some(a) => {
                &&& submit && trimmed(text@).len() > 0
                &&& a matches Action::ConsoleSubmit(t) && t@ == text@
                &&& final(p).input@.len() == 0
                &&& exists|mid: ConsolePanel| #[trigger]
                    typed_into(old(p), &mid, text@) && *final(p) == (ConsolePanel {
                        input: final(p).input,
                        ..mid
                    })
            },
            None => {
                &&& !submit || trimmed(text@).len() == 0
                &&& typed_into(old(p), final(p), text@)
            },
        },
{
    if !same(&chars_of(text.as_str()), &chars_of(p.input.as_str())) {
        p.history_pos = None;
    }
    p.input = text;
    let ghost mid = *p;
    assert(typed_into(old(p), &mid, text@));
    console_submission(p, submit)
}

/// Lines under each other.
pub open spec fn under_each_other(lines: Seq<Seq<char>>) -> Seq<char>
    decreases lines.len(),
{
    if lines.len() == 0 {
        Seq::empty()
    } else if lines.len() == 1 {
        lines[0]
    } else {
        under_each_other(lines.drop_last()) + "\n"@ + lines.last()
    }
}

fn stacked(lines: &Vec<String>) -> (r: String)
    ensures
        r@ == under_each_other(texts(lines@)),
{
    let mut text: String = String::new();
    let ghost all = texts(lines@);
    assert(text@ =~= under_each_other(all.take(0)));
    let mut i: usize = 0;
    while i < lines.len()
        invariant
            i <= lines@.len(),
            all == texts(lines@),
            text@ == under_each_other(all.take(i as int)),
        decreases lines@.len() - i,
    {
        if i > 0 {
            put(&mut text, "\n");
        }
        put(&mut text, lines[i].as_str());
        proof {
            let t = all.take(i + 1);
            assert(t.drop_last() =~= all.take(i as int));
            assert(t.last() == lines@[i as int]@);
            if i == 0 {
                assert(text@ =~= t[0]);
            }
        }
        i += 1;
    }
    assert(all.take(all.len() as int) =~= all);
    text
}

pub open spec fn console_pieces(p: &ConsolePanel) -> Seq<Piece<Seq<char>>> {
    seq![
        Piece::Note("Command"@),
        Piece::Text(
            "Enter executes \u{b7} Shift+Enter adds a line \u{b7} Up/Down history"@,
        ),
        Piece::Text(under_each_other(texts(p.output@))),
    ]
}

/// What the page says: how the prompt is used, and everything printed so far.
pub fn console_sheet(p: &ConsolePanel) -> (s: Sheet)
    ensures
        s@ == console_pieces(p),
{
    let mut s = Sheet::new();
    s.note("Command");
    s.text("Enter executes \u{b7} Shift+Enter adds a line \u{b7} Up/Down history");
    s.line(stacked(&p.output));
    assert(s@ =~= console_pieces(p));
    s
}

/// How the machine stands, as the title says it while the console is shown.
pub fn console_status(paused: bool) -> (r: &'static str)
    ensures
        r@ == (if paused {
            "Paused"@
        } else {
            "Running"@
        }),
{
    if paused {
        "Paused"
    } else {
        "Running"
    }
}

/// However many passes a layout takes, only the first of them acts on the
/// keys: a line is run once, and the history steps once.
pub proof fn lemma_later_passes_do_nothing(i: ConsoleInput, o: ConsolePanel, n: ConsolePanel)
    requires
        !i.first_pass,
        stepped_if(&o, &n, keys_of(&i).older, true) || stepped_if(&o, &n, keys_of(&i).newer, false),
    ensures
        n == o,
        !keys_of(&i).submit,
        !keys_of(&i).close,
{
}

} // verus!
