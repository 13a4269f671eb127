//! The clipboard that the host and the guest share. Both sides are polled,
//! slowly, and the last text that was seen keeps the two directions from
//! echoing each other.

use vstd::prelude::*;

use crate::effects::Effect;
use crate::effects::Effects;
use crate::text::same;

verus! {

/// Milliseconds between two looks at the clipboards.
pub const POLL: u64 = 300;

#[derive(PartialEq, Eq, Debug)]
pub struct SharedClipboard {
    pub next_poll: Option<u64>,
    /// The last text that either side held.
    pub seen: Option<Vec<char>>,
    /// The host has no clipboard: this is tried once.
    pub unavailable: bool,
}

/// What a look at the clipboards calls for.
#[derive(Debug, PartialEq, Eq)]
pub enum ClipboardStep {
    Nothing,
    /// The guest's text goes to the host.
    ToHost(Vec<char>),
    /// The host's clipboard is to be read; `host_text` takes it.
    ReadHost,
}

/// The services board of the machine, as far as the clipboard goes.
#[derive(PartialEq, Eq, Debug)]
pub struct Board {
    pub sharing: bool,
    /// What the guest copied since the last look.
    pub guest_text: Option<Vec<char>>,
}

/// A text as the host wants its line ends.
pub open spec fn host_lines(s: Seq<char>, crlf: bool) -> Seq<char>
    decreases s.len(),
{
    if s.len() == 0 {
        Seq::empty()
    } else if crlf && s.last() == '\n' {
        host_lines(s.drop_last(), crlf).push('\r').push('\n')
    } else {
        host_lines(s.drop_last(), crlf).push(s.last())
    }
}

fn to_host_lines(s: &Vec<char>, crlf: bool) -> (r: Vec<char>)
    ensures
        r@ == host_lines(s@, crlf),
{
    let mut out: Vec<char> = Vec::new();
    let mut i: usize = 0;
    assert(s@.take(0) =~= Seq::empty());
    while i < s.len()
        invariant
            i <= s@.len(),
            out@ == host_lines(s@.take(i as int), crlf),
        decreases s@.len() - i,
    {
        assert(s@.take(i + 1).drop_last() =~= s@.take(i as int));
        let c: char = s[i];
        if crlf && c == '\n' {
            out.push('\r');
        }
        out.push(c);
        i += 1;
    }
    assert(s@.take(i as int) =~= s@);
    out
}

pub open spec fn opt_chars(v: Option<Vec<char>>) -> Option<Seq<char>> {
    match v {
        Some(t) => Some(t@),
        None => None,
    }
}

/// A text without the carriage returns at its end.
pub open spec fn trimmed(s: Seq<char>) -> Seq<char>
    decreases s.len(),
{
    if s.len() > 0 && s.last() == '\r' {
        trimmed(s.drop_last())
    } else {
        s
    }
}

/// A text with bare line ends: what carriage returns stand before a line feed
/// are gone.
pub open spec fn bare_lines(s: Seq<char>) -> Seq<char>
    decreases s.len(),
{
    if s.len() == 0 {
        Seq::empty()
    } else if s.last() == '\n' {
        proof {
            lemma_trimmed_is_shorter(s.drop_last());
        }
        bare_lines(trimmed(s.drop_last())).push('\n')
    } else {
        bare_lines(s.drop_last()).push(s.last())
    }
}

/// Trimming adds nothing.
pub proof fn lemma_trimmed_is_shorter(s: Seq<char>)
    ensures
        trimmed(s).len() <= s.len(),
    decreases s.len(),
{
    if s.len() > 0 {
        lemma_trimmed_is_shorter(s.drop_last());
    }
}

proof fn lemma_trim_first(s: Seq<char>)
    ensures
        trimmed(bare_lines(s)) == bare_lines(trimmed(s)),
    decreases s.len(),
{
    if s.len() > 0 && s.last() == '\r' {
        lemma_trim_first(s.drop_last());
        assert(bare_lines(s).drop_last() =~= bare_lines(s.drop_last()));
    }
}

fn to_bare_lines(s: &Vec<char>) -> (r: Vec<char>)
    ensures
        r@ == bare_lines(s@),
{
    let mut out: Vec<char> = Vec::new();
    let mut i: usize = 0;
    assert(s@.take(0) =~= Seq::empty());
    while i < s.len()
        invariant
            i <= s@.len(),
            out@ == bare_lines(s@.take(i as int)),
        decreases s@.len() - i,
    {
        let ghost before = s@.take(i as int);
        assert(s@.take(i + 1).drop_last() =~= before);
        let c: char = s[i];
        if c == '\n' {
            while out.len() > 0 && out[out.len() - 1] == '\r'
                invariant
                    trimmed(out@) == trimmed(bare_lines(before)),
                decreases out@.len(),
            {
                let ghost longer = out@;
                out.pop();
                assert(out@ =~= longer.drop_last());
            }
            proof {
                lemma_trim_first(before);
            }
        }
        out.push(c);
        i += 1;
    }
    assert(s@.take(i as int) =~= s@);
    out
}

/// The text is another than the last one seen, whichever line ends the two
/// have.
pub open spec fn is_news(seen: Option<Seq<char>>, text: Seq<char>) -> bool {
    match seen {
        Some(s) => bare_lines(s) != bare_lines(text),
        None => true,
    }
}

impl SharedClipboard {
    pub open spec fn poll_due(&self, now: u64) -> bool {
        !(self.next_poll matches Some(at) && now < at)
    }

    pub fn new() -> (r: SharedClipboard)
        ensures
            r.next_poll is None,
            r.seen is None,
            !r.unavailable,
    {
        SharedClipboard { next_poll: None, seen: None, unavailable: false }
    }

    /// Notes a text; says whether it is another than the last one.
    fn note(&mut self, text: &Vec<char>) -> (changed: bool)
        ensures
            changed == is_news(opt_chars(old(self).seen), text@),
            opt_chars(final(self).seen) == Some(text@),
            final(self).next_poll == old(self).next_poll,
            final(self).unavailable == old(self).unavailable,
    {
        let known: bool = match &self.seen {
            Some(s) => same(to_bare_lines(s).as_slice(), to_bare_lines(text).as_slice()),
            None => false,
        };
        self.seen = Some(crate::text::copy_chars(text.as_slice()));
        !known
    }

    /// A look at the clipboards, if one is due. What the guest copied goes
    /// first; the host's side is read only while the window has the focus,
    /// which is when the user is about to paste here.
    pub fn service_clipboard(&mut self, now: u64, board: Option<Board>, focused: bool, crlf: bool) -> (
    step: ClipboardStep)
        requires
            now + POLL <= u64::MAX,
        ensures
            ({
                let due = old(self).poll_due(now);
                let open = board matches Some(b) && b.sharing;
                let guest = match board {
                    Some(b) => opt_chars(b.guest_text),
                    None => None,
                };
                &&& final(self).unavailable == old(self).unavailable
                &&& final(self).next_poll == (if due {
                    Some((now + POLL) as u64)
                } else {
                    old(self).next_poll
                })
                &&& match step {
                    ClipboardStep::ToHost(t) => due && open && guest is Some && t@ == host_lines(
                        guest.unwrap(),
                        crlf,
                    ),
                    ClipboardStep::ReadHost => due && open && guest is None && focused,
                    ClipboardStep::Nothing => !due || !open || (guest is None && !focused),
                }
                &&& opt_chars(final(self).seen) == (if due && open && guest is Some {
                    guest
                } else {
                    opt_chars(old(self).seen)
                })
            }),
    {
        match self.next_poll {
            Some(at) => {
                if now < at {
                    return ClipboardStep::Nothing;
                }
            },
            None => {},
        }
        self.next_poll = Some(now + POLL);
        match board {
            None => ClipboardStep::Nothing,
            Some(b) => {
                if !b.sharing {
                    return ClipboardStep::Nothing;
                }
                match b.guest_text {
                    Some(text) => {
                        self.note(&text);
                        ClipboardStep::ToHost(to_host_lines(&text, crlf))
                    },
                    None => if focused {
                        ClipboardStep::ReadHost
                    } else {
                        ClipboardStep::Nothing
                    },
                }
            },
        }
    }

    /// The host's clipboard holds this text. Says whether it is to be handed
    /// to the guest: only where it is another than the last one seen.
    pub fn host_text(&mut self, text: &Vec<char>) -> (stage: bool)
        ensures
            stage == is_news(opt_chars(old(self).seen), text@),
            opt_chars(final(self).seen) == Some(text@),
            final(self).next_poll == old(self).next_poll,
            final(self).unavailable == old(self).unavailable,
    {
        self.note(text)
    }

    /// Whether the host's clipboard is to be opened: on its first use, and
    /// not again once that failed.
    pub fn open_due(&self, have: bool) -> (r: bool)
        ensures
            r == (!have && !self.unavailable),
    {
        !have && !self.unavailable
    }

    pub fn opened(&mut self, ok: bool)
        ensures
            *final(self) == (SharedClipboard {
                unavailable: old(self).unavailable || !ok,
                ..*old(self)
            }),
    {
        if !ok {
            self.unavailable = true;
        }
    }
}

/// Switches sharing, where the machine was started with it; gives the new
/// setting.
pub fn toggle_clipboard_sharing(fx: &mut Effects, fitted: Option<bool>) -> (on: Option<bool>)
    ensures
        on == (match fitted {
            Some(sharing) => Some(!sharing),
            None => None,
        }),
        final(fx)@ == old(fx)@.push(
            Effect::Osd(
                match fitted {
                    Some(sharing) => if sharing {
                        "Clipboard sharing off"@
                    } else {
                        "Clipboard sharing on"@
                    },
                    None => "Clipboard sharing not fitted: start with --clipboard"@,
                },
            ),
        ),
{
    match fitted {
        None => {
            fx.osd("Clipboard sharing not fitted: start with --clipboard");
            None
        },
        Some(sharing) => {
            if sharing {
                fx.osd("Clipboard sharing off");
            } else {
                fx.osd("Clipboard sharing on");
            }
            Some(!sharing)
        },
    }
}

/// Text without line ends, and any text on a host that wants them bare, goes
/// over as it is.
pub proof fn lemma_bare_lines(s: Seq<char>, crlf: bool)
    requires
        !crlf || !s.contains('\n'),
    ensures
        host_lines(s, crlf) == s,
    decreases s.len(),
{
    if s.len() > 0 {
        assert(s.drop_last().contains('\n') ==> s.contains('\n')) by {
            if s.drop_last().contains('\n') {
                let k = choose|k: int| 0 <= k < s.drop_last().len() && s.drop_last()[k] == '\n';
                assert(s[k] == '\n');
            }
        }
        assert(s.last() == '\n' ==> s.contains('\n'));
        lemma_bare_lines(s.drop_last(), crlf);
        assert(s.drop_last().push(s.last()) =~= s);
    } else {
        assert(s =~= Seq::empty());
    }
}

proof fn lemma_host_lines_read_bare(s: Seq<char>, crlf: bool)
    ensures
        bare_lines(host_lines(s, crlf)) == bare_lines(s),
        bare_lines(trimmed(host_lines(s, crlf))) == bare_lines(trimmed(s)),
    decreases s.len(),
{
    if s.len() > 0 {
        let t = s.drop_last();
        lemma_host_lines_read_bare(t, crlf);
        let h = host_lines(t, crlf);
        let g = host_lines(s, crlf);
        if crlf && s.last() == '\n' {
            assert(g.drop_last() =~= h.push('\r'));
            assert(h.push('\r').drop_last() =~= h);
        } else {
            assert(g.drop_last() =~= h);
        }
    }
}

/// The guest's own text does not come back to it: found on the host's
/// clipboard as it was put there, or with bare line ends, it is no other text
/// than the last one seen.
pub proof fn lemma_no_echo(text: Seq<char>, crlf: bool)
    ensures
        !is_news(Some(text), host_lines(text, crlf)),
        !is_news(Some(text), text),
{
    lemma_host_lines_read_bare(text, crlf);
}

} // verus!
