//! The console's prompt: what is typed or pasted into it, the history, and
//! running the lines that are entered.

use vstd::prelude::*;

use crate::app::App;
use crate::app::ConsolePanel;
use crate::command::command_of;
use crate::console::Ask;
use crate::console::ConsoleStep;
use crate::console::ask_view;
use crate::console::executed;
use crate::console::step_view;
use crate::desk::ToolPanelKind;
use crate::effects::Effect;
use crate::text::chars_of;
use crate::text::put;
use crate::text::same;
use crate::text::string_of;
use crate::text::texts;
use crate::text::trim;
use crate::text::trimmed;
use crate::text::views;
use crate::tools::tool_closed;

verus! {

/// Text with every kind of line end as a newline.
pub open spec fn newlined(s: Seq<char>) -> Seq<char>
    decreases s.len(),
{
    if s.len() == 0 {
        Seq::empty()
    } else if s[0] == '\r' && s.len() > 1 && s[1] == '\n' {
        seq!['\n'] + newlined(s.skip(2))
    } else if s[0] == '\r' {
        seq!['\n'] + newlined(s.skip(1))
    } else {
        seq![s[0]] + newlined(s.skip(1))
    }
}

pub fn newline_text(s: &[char]) -> (r: Vec<char>)
    ensures
        r@ == newlined(s@),
{
    let mut out: Vec<char> = Vec::new();
    let mut i: usize = 0;
    let size: usize = s.len();
    assert(s@.skip(0) =~= s@);
    assert(out@ + newlined(s@) =~= newlined(s@));
    while i < size
        invariant
            i <= size == s@.len(),
            out@ + newlined(s@.skip(i as int)) == newlined(s@),
        decreases size - i,
    {
        let ghost before = out@;
        let ghost rest = s@.skip(i as int);
        if s[i] == '\r' && i + 1 < size && s[i + 1] == '\n' {
            out.push('\n');
            assert(rest.skip(2) =~= s@.skip(i + 2));
            assert(out@ + newlined(s@.skip(i + 2)) =~= before + newlined(rest));
            i += 2;
        } else {
            let c: char = if s[i] == '\r' {
                '\n'
            } else {
                s[i]
            };
            out.push(c);
            assert(rest.skip(1) =~= s@.skip(i + 1));
            assert(out@ + newlined(s@.skip(i + 1)) =~= before + newlined(rest));
            i += 1;
        }
    }
    assert(s@.skip(i as int) =~= Seq::empty());
    assert(out@ + newlined(Seq::empty()) =~= out@);
    out
}

/// The history once a line was entered: a repeated line is kept once.
pub open spec fn remembered(history: Seq<Seq<char>>, line: Seq<char>) -> Seq<Seq<char>> {
    if history.len() > 0 && history.last() == line {
        history
    } else {
        history.push(line)
    }
}

/// Where a step through the history leads: to the newest line first, then to
/// older ones and no further than the oldest; and back past the newest to the
/// line being written.
pub open spec fn recalled(pos: Option<usize>, lines: nat, older: bool) -> Option<int> {
    match pos {
        None => if older && lines > 0 {
            Some(lines - 1)
        } else {
            None
        },
        Some(at) => if older {
            Some(if at == 0 {
                0
            } else {
                at - 1
            })
        } else if at + 1 < lines {
            Some(at + 1)
        } else {
            None
        },
    }
}

/// A newer line after an older one is the line that was there.
pub proof fn lemma_newer_undoes_older(pos: usize, lines: nat)
    requires
        0 < pos < lines,
    ensures
        recalled(Some(pos), lines, true) == Some(pos - 1),
        recalled(Some((pos - 1) as usize), lines, false) == Some(pos as int),
{
}

impl ConsolePanel {
    /// The history is looked at inside itself.
    pub open spec fn recall_fits(&self) -> bool {
        self.history_pos matches Some(at) ==> at < self.history@.len()
    }

    /// The input is the line of the history that a step led to, and empty
    /// past the newest.
    pub open spec fn history_stepped(&self, n: &ConsolePanel, older: bool) -> bool {
        &&& *n == (ConsolePanel { input: n.input, history_pos: n.history_pos, ..*self })
        &&& match recalled(self.history_pos, self.history@.len(), older) {
            Some(at) => {
                &&& n.history_pos == Some(at as usize)
                &&& n.input@ == self.history@[at]@
            },
            None => {
                &&& n.history_pos is None
                &&& if self.history_pos is Some {
                    n.input@.len() == 0
                } else {
                    n.input == self.input
                }
            },
        }
    }

    /// Steps through the lines entered before.
    pub fn history_step(&mut self, older: bool)
        requires
            old(self).recall_fits(),
        ensures
            final(self).recall_fits(),
            old(self).history_stepped(final(self), older),
    {
        let lines: usize = self.history.len();
        let to: Option<usize> = match self.history_pos {
            None => if older && lines > 0 {
                Some(lines - 1)
            } else {
                None
            },
            Some(at) => if older {
                Some(if at == 0 {
                    0
                } else {
                    at - 1
                })
            } else if at + 1 < lines {
                Some(at + 1)
            } else {
                None
            },
        };
        match to {
            Some(at) => {
                self.input = self.history[at].clone();
            },
            None => {
                if self.history_pos.is_some() {
                    self.input = String::new();
                }
            },
        }
        self.history_pos = to;
    }
}

impl ConsolePanel {
    pub fn push_output(&mut self, line: String)
        ensures
            *final(self) == (ConsolePanel { output: final(self).output, ..*old(self) }),
            texts(final(self).output@) == texts(old(self).output@).push(line@),
    {
        self.output.push(line);
        assert(texts(self.output@) =~= texts(old(self).output@).push(line@));
    }

    pub fn push_input_char(&mut self, c: char)
        ensures
            *final(self) == (ConsolePanel { input: final(self).input, ..*old(self) }),
            final(self).input@ == old(self).input@.push(c),
    {
        self.input.push(c);
    }

    /// The panel with its line taken: trimmed, and entered if there is
    /// anything in it.
    pub open spec fn entered(&self, n: &ConsolePanel) -> bool {
        let line = trimmed(self.input@);
        &&& n.scroll == 0
        &&& n.history_pos is None
        &&& n.input@.len() == 0
        &&& texts(n.output@) == (if line.len() == 0 {
            texts(self.output@)
        } else {
            texts(self.output@).push("> "@ + line)
        })
        &&& texts(n.history@) == (if line.len() == 0 {
            texts(self.history@)
        } else {
            remembered(texts(self.history@), line)
        })
    }

    fn enter(&mut self) -> (r: Option<String>)
        ensures
            old(self).entered(final(self)),
            match r {
                Some(line) => line@ == trimmed(old(self).input@) && line@.len() > 0,
                None => trimmed(old(self).input@).len() == 0,
            },
    {
        self.scroll = 0;
        self.history_pos = None;
        let mut input = String::new();
        std::mem::swap(&mut input, &mut self.input);
        let line = trim(&chars_of(input.as_str()));
        if line.len() == 0 {
            return None;
        }
        let text = string_of(&line);
        let mut echo = "> ".to_owned();
        put(&mut echo, text.as_str());
        self.push_output(echo);
        self.remember(&line, text.clone());
        Some(text)
    }

    fn remember(&mut self, line: &Vec<char>, text: String)
        requires
            text@ == line@,
        ensures
            *final(self) == (ConsolePanel { history: final(self).history, ..*old(self) }),
            texts(final(self).history@) == remembered(texts(old(self).history@), line@),
    {
        let count: usize = self.history.len();
        assert(texts(self.history@).len() == count);
        if count > 0 {
            let last = chars_of(self.history[count - 1].as_str());
            assert(texts(self.history@).last() == last@);
            if same(&last, line) {
                return;
            }
        }
        self.history.push(text);
        assert(texts(self.history@) =~= texts(old(self).history@).push(line@));
    }

    fn print(&mut self, lines: &Vec<String>, clear: bool)
        ensures
            *final(self) == (ConsolePanel { output: final(self).output, ..*old(self) }),
            texts(final(self).output@) == (if clear {
                texts(lines@)
            } else {
                texts(old(self).output@) + texts(lines@)
            }),
    {
        if clear {
            self.output = Vec::new();
        }
        let ghost start = texts(self.output@);
        assert(clear ==> start =~= Seq::empty());
        let mut i: usize = 0;
        assert(start =~= start + texts(lines@).take(0));
        while i < lines.len()
            invariant
                i <= lines@.len(),
                *self == (ConsolePanel { output: self.output, ..*old(self) }),
                texts(self.output@) == start + texts(lines@).take(i as int),
            decreases lines@.len() - i,
        {
            self.push_output(lines[i].clone());
            i += 1;
            assert(texts(lines@).take(i as int) =~= texts(lines@).take(i - 1).push(
                lines@[i - 1]@,
            ));
            assert(texts(self.output@) =~= start + texts(lines@).take(i as int));
        }
        assert(texts(lines@).take(i as int) =~= texts(lines@));
        assert(clear ==> start + texts(lines@) =~= texts(lines@));
    }
}

/// The application once a line was taken off the prompt.
pub open spec fn line_taken(o: &App, n: &App) -> bool {
    &&& *n == (App { console: n.console, ..*o })
    &&& match (o.console, n.console) {
        (Some(p), Some(q)) => p.entered(&q),
        (None, None) => true,
        _ => false,
    }
}

/// The line on the prompt, if there is anything on it.
pub open spec fn prompt_line(o: &App) -> Option<Seq<char>> {
    match o.console {
        Some(p) => if trimmed(p.input@).len() > 0 {
            Some(trimmed(p.input@))
        } else {
            None
        },
        None => None,
    }
}

/// The output of a command is on the console, or the console is closed.
pub open spec fn applied(
    o: &App,
    n: &App,
    lines: Seq<Seq<char>>,
    clear: bool,
    close: bool,
) -> bool {
    if close {
        tool_closed(o, n, ToolPanelKind::Console)
    } else {
        &&& *n == (App { console: n.console, ..*o })
        &&& match (o.console, n.console) {
            (Some(p), Some(q)) => {
                &&& q == (ConsolePanel { output: q.output, ..p })
                &&& texts(q.output@) == (if clear {
                    lines
                } else {
                    texts(p.output@) + lines
                })
            },
            (None, None) => true,
            _ => false,
        }
    }
}

/// A command's step has had its effect: its output is applied, or the host is
/// asked.
pub open spec fn settled_step(
    o: &App,
    n: &App,
    step: ConsoleStep<Seq<Seq<char>>, Seq<char>>,
    ask: Option<Ask<Seq<char>>>,
) -> bool {
    match step {
        ConsoleStep::Done { lines, clear, close } => applied(o, n, lines, clear, close)
            && ask is None,
        ConsoleStep::Ask(a) => *n == *o && ask == Some(a),
    }
}

/// A line was run: taken off the prompt, executed and its output applied.
pub open spec fn line_run(o: &App, n: &App, ask: Option<Ask<Seq<char>>>) -> bool {
    match prompt_line(o) {
        None => line_taken(o, n) && ask is None,
        Some(line) => exists|a: App, b: App, step: ConsoleStep<Seq<Seq<char>>, Seq<char>>|
            #![trigger line_taken(o, &a), settled_step(&b, n, step, ask)]
            line_taken(o, &a) && executed(&a, &b, command_of(line, &o.lexicon), step)
                && settled_step(&b, n, step, ask),
    }
}

pub open spec fn opt_ask(a: Option<Ask<String>>) -> Option<Ask<Seq<char>>> {
    match a {
        Some(a) => Some(ask_view(a)),
        None => None,
    }
}

impl App {
    fn console_take_line(&mut self) -> (r: Option<String>)
        requires
            old(self).wf(),
        ensures
            final(self).wf(),
            line_taken(old(self), final(self)),
            match r {
                Some(line) => prompt_line(old(self)) == Some(line@),
                None => prompt_line(old(self)) is None,
            },
    {
        match self.console.take() {
            Some(mut p) => {
                let r = p.enter();
                self.console = Some(p);
                r
            },
            None => None,
        }
    }

    /// Applies what a command printed.
    pub fn console_apply(&mut self, lines: &Vec<String>, clear: bool, close: bool)
        requires
            old(self).wf(),
        ensures
            final(self).wf(),
            applied(old(self), final(self), texts(lines@), clear, close),
    {
        if close {
            self.close_tool_panel(ToolPanelKind::Console);
            return;
        }
        match self.console.take() {
            Some(mut p) => {
                p.print(lines, clear);
                self.console = Some(p);
            },
            None => {},
        }
    }

    /// Runs the line on the prompt: it is echoed, remembered and executed. A
    /// command that needs the host is handed back.
    pub fn console_submit(&mut self) -> (ask: Option<Ask<String>>)
        requires
            old(self).wf(),
        ensures
            final(self).wf(),
            line_run(old(self), final(self), opt_ask(ask)),
    {
        match self.console_take_line() {
            None => None,
            Some(line) => {
                let ghost a = *self;
                let step = self.console_execute(line.as_str());
                let ghost b = *self;
                let ghost seen = step_view(step);
                assert(line_taken(old(self), &a));
                match step {
                    ConsoleStep::Done { lines, clear, close } => {
                        self.console_apply(&lines, clear, close);
                        assert(settled_step(&b, self, seen, None));
                        None
                    },
                    ConsoleStep::Ask(ask) => {
                        assert(settled_step(&b, self, seen, Some(ask_view(ask))));
                        Some(ask)
                    },
                }
            },
        }
    }
}

/// The application with a line on its prompt.
pub open spec fn with_input(o: &App, n: &App, line: Seq<char>) -> bool {
    &&& *n == (App { console: n.console, ..*o })
    &&& match (o.console, n.console) {
        (Some(p), Some(q)) => {
            &&& q == (ConsolePanel { input: q.input, ..p })
            &&& q.input@ == line
        },
        (None, None) => true,
        _ => false,
    }
}

/// A line of a batch was put on the prompt and run.
pub open spec fn batch_line(o: &App, n: &App, line: Seq<char>, ask: Option<Ask<Seq<char>>>) -> bool {
    o.console is Some && exists|a: App|
        #![trigger with_input(o, &a, line)]
        with_input(o, &a, line) && line_run(&a, n, ask)
}

/// The lines from `from` up to `to` were run one after the other; only the
/// last of them asks for anything.
pub open spec fn batch_run(
    o: App,
    n: App,
    lines: Seq<Seq<char>>,
    from: int,
    to: int,
    ask: Option<Ask<Seq<char>>>,
) -> bool
    decreases to - from,
{
    if to <= from {
        n == o && ask is None
    } else {
        exists|mid: App|
            #![trigger batch_line(&mid, &n, lines[to - 1], ask)]
            batch_run(o, mid, lines, from, to - 1, None) && batch_line(&mid, &n, lines[to - 1], ask)
    }
}

impl App {
    fn console_run_line(&mut self, line: &[char]) -> (ask: Option<Ask<String>>)
        requires
            old(self).wf(),
            old(self).console is Some,
        ensures
            final(self).wf(),
            batch_line(old(self), final(self), line@, opt_ask(ask)),
    {
        match self.console.take() {
            Some(mut p) => {
                p.input = string_of(line);
                self.console = Some(p);
            },
            None => {},
        }
        let ghost a = *self;
        assert(with_input(old(self), &a, line@));
        self.console_submit()
    }

    /// Runs submitted lines from one on, until one of them closes the console
    /// or needs the host. Returns the number of the next line, and what the
    /// host is asked for.
    pub fn console_batch(&mut self, lines: &Vec<Vec<char>>, from: usize) -> (r: (
        usize,
        Option<Ask<String>>,
    ))
        requires
            old(self).wf(),
            from <= lines@.len(),
        ensures
            final(self).wf(),
            from <= r.0 <= lines@.len(),
            batch_run(
                *old(self),
                *final(self),
                views(lines@),
                from as int,
                r.0 as int,
                opt_ask(r.1),
            ),
            r.1 is None ==> r.0 == lines@.len() || final(self).console is None,
    {
        let mut i: usize = from;
        assert(views(lines@).len() == lines@.len());
        while i < lines.len()
            invariant
                self.wf(),
                from <= i <= lines@.len(),
                views(lines@).len() == lines@.len(),
                batch_run(*old(self), *self, views(lines@), from as int, i as int, None),
            decreases lines@.len() - i,
        {
            if self.console.is_none() {
                return (i, None);
            }
            let ghost mid = *self;
            let ask = self.console_run_line(&lines[i]);
            i += 1;
            proof {
                assert(views(lines@)[i - 1] == lines@[i - 1]@);
                assert(batch_run(*old(self), mid, views(lines@), from as int, i - 1, None));
                assert(batch_line(&mid, self, views(lines@)[i - 1], opt_ask(ask)));
                assert(batch_run(
                    *old(self),
                    *self,
                    views(lines@),
                    from as int,
                    i as int,
                    opt_ask(ask),
                ));
            }
            if ask.is_some() {
                return (i, ask);
            }
        }
        (i, None)
    }

    /// Inserts text at the prompt from a character on. A newline runs the
    /// line, so that a paste of several lines runs as a script; what is left
    /// after the last one stays on the prompt. Stops after a line that needs
    /// the host, and returns where it stopped.
    pub fn console_insert_text(&mut self, text: &[char], from: usize) -> (r: (
        usize,
        Option<Ask<String>>,
    ))
        requires
            old(self).wf(),
            from <= text@.len(),
        ensures
            final(self).wf(),
            from <= r.0 <= text@.len(),
            r.1 is None ==> r.0 == text@.len(),
            ({
                exists|mid: App| #[trigger]
                    typed(*old(self), mid, text@, from as int, r.0 as int, opt_ask(r.1))
                        && *final(self) == (App { fx: final(self).fx, ..mid }) && final(self).fx@
                        == mid.fx@.push(Effect::Redraw)
            }),
    {
        let r = self.console_type(text, from);
        let ghost mid = *self;
        self.fx.redraw();
        assert(typed(*old(self), mid, text@, from as int, r.0 as int, opt_ask(r.1)));
        r
    }

    fn console_type(&mut self, text: &[char], from: usize) -> (r: (usize, Option<Ask<String>>))
        requires
            old(self).wf(),
            from <= text@.len(),
        ensures
            final(self).wf(),
            from <= r.0 <= text@.len(),
            r.1 is None ==> r.0 == text@.len(),
            typed(*old(self), *final(self), text@, from as int, r.0 as int, opt_ask(r.1)),
    {
        let mut i: usize = from;
        while i < text.len()
            invariant
                self.wf(),
                from <= i <= text@.len(),
                typed(*old(self), *self, text@, from as int, i as int, None),
            decreases text@.len() - i,
        {
            let ghost mid = *self;
            let mut ask: Option<Ask<String>> = None;
            if text[i] == '\n' {
                ask = self.console_submit();
            } else {
                self.console_key(text[i]);
            }
            i += 1;
            proof {
                assert(typed(*old(self), mid, text@, from as int, i - 1, None));
                assert(char_typed(&mid, self, text@[i - 1], opt_ask(ask)));
                assert(typed(*old(self), *self, text@, from as int, i as int, opt_ask(ask)));
            }
            if ask.is_some() {
                return (i, ask);
            }
        }
        (i, None)
    }

    fn console_key(&mut self, c: char)
        requires
            old(self).wf(),
        ensures
            final(self).wf(),
            *final(self) == (App { console: final(self).console, ..*old(self) }),
            match (old(self).console, final(self).console) {
                (Some(p), Some(q)) => {
                    &&& q == (ConsolePanel { input: q.input, ..p })
                    &&& q.input@ == p.input@.push(c)
                },
                (None, None) => true,
                _ => false,
            },
    {
        match self.console.take() {
            Some(mut p) => {
                p.push_input_char(c);
                self.console = Some(p);
            },
            None => {},
        }
    }

    /// The clipboard could not be read.
    pub fn console_paste_failed(&mut self, why: &str)
        requires
            old(self).wf(),
        ensures
            final(self).wf(),
            *final(self) == (App {
                console: final(self).console,
                fx: final(self).fx,
                ..*old(self)
            }),
            final(self).fx@ == old(self).fx@.push(Effect::Redraw),
            match (old(self).console, final(self).console) {
                (Some(p), Some(q)) => {
                    &&& q == (ConsolePanel { output: q.output, ..p })
                    &&& texts(q.output@) == texts(p.output@).push(
                        "!clipboard unavailable: "@ + why@,
                    )
                },
                (None, None) => true,
                _ => false,
            },
    {
        match self.console.take() {
            Some(mut p) => {
                let mut line = "!clipboard unavailable: ".to_owned();
                put(&mut line, why);
                p.push_output(line);
                self.console = Some(p);
            },
            None => {},
        }
        self.fx.redraw();
    }
}

/// One character was typed at the prompt.
pub open spec fn char_typed(o: &App, n: &App, c: char, ask: Option<Ask<Seq<char>>>) -> bool {
    if c == '\n' {
        line_run(o, n, ask)
    } else {
        &&& ask is None
        &&& *n == (App { console: n.console, ..*o })
        &&& match (o.console, n.console) {
            (Some(p), Some(q)) => {
                &&& q == (ConsolePanel { input: q.input, ..p })
                &&& q.input@ == p.input@.push(c)
            },
            (None, None) => true,
            _ => false,
        }
    }
}

/// The characters from `from` up to `to` were typed one after the other.
pub open spec fn typed(
    o: App,
    n: App,
    text: Seq<char>,
    from: int,
    to: int,
    ask: Option<Ask<Seq<char>>>,
) -> bool
    decreases to - from,
{
    if to <= from {
        n == o && ask is None
    } else {
        exists|mid: App|
            #![trigger char_typed(&mid, &n, text[to - 1], ask)]
            typed(o, mid, text, from, to - 1, None) && char_typed(&mid, &n, text[to - 1], ask)
    }
}

/// What a key press with text means to the console.
#[derive(Debug, PartialEq, Eq)]
pub enum TextInput {
    Paste,
    /// Text to insert.
    Typed(Vec<char>),
    /// An editing key or a shortcut.
    Pass,
}

pub open spec fn printable(c: char) -> bool {
    ' ' <= c && c <= '~'
}

pub open spec fn printable_part(s: Seq<char>) -> Seq<char> {
    s.filter(|c: char| printable(c))
}

fn keep_printable(s: &[char]) -> (r: Vec<char>)
    ensures
        r@ == printable_part(s@),
{
    let ghost keep = |c: char| printable(c);
    let mut out: Vec<char> = Vec::new();
    let mut i: usize = 0;
    assert(s@.take(0).filter(keep) =~= Seq::empty()) by {
        reveal(Seq::filter);
    }
    while i < s.len()
        invariant
            i <= s@.len(),
            keep == (|c: char| printable(c)),
            out@ == s@.take(i as int).filter(keep),
        decreases s@.len() - i,
    {
        proof {
            reveal(Seq::filter);
            assert(s@.take(i + 1).drop_last() =~= s@.take(i as int));
        }
        if ' ' <= s[i] && s[i] <= '~' {
            out.push(s[i]);
        }
        i += 1;
    }
    assert(s@.take(i as int) =~= s@);
    out
}

/// Decides what a key press means: the paste shortcut, text to insert, or
/// something for the key handler. Text with a shortcut modifier down is no
/// input.
pub fn console_handle_text_input(is_v: bool, shortcut: bool, text: Option<&[char]>) -> (r: TextInput)
    ensures
        match r {
            TextInput::Paste => is_v && shortcut,
            TextInput::Typed(t) => {
                &&& !shortcut
                &&& text matches Some(s) && t@ == printable_part(s@)
                &&& t@.len() > 0
            },
            TextInput::Pass => {
                &&& !(is_v && shortcut)
                &&& shortcut || text is None || printable_part(text.unwrap()@).len() == 0
            },
        },
{
    if shortcut {
        return if is_v {
            TextInput::Paste
        } else {
            TextInput::Pass
        };
    }
    match text {
        None => TextInput::Pass,
        Some(s) => {
            let t = keep_printable(s);
            if t.len() == 0 {
                TextInput::Pass
            } else {
                TextInput::Typed(t)
            }
        },
    }
}

} // verus!
