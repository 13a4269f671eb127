//! The transient message over the display.

use vstd::prelude::*;

verus! {

/// A message, when it goes away, and whether it says that something did not
/// go as asked.
#[derive(PartialEq, Eq, Debug)]
pub struct Osd {
    pub text: String,
    pub expires_at: u64,
    pub warning: bool,
}

/// The place for one message, and how long one stays, in milliseconds.
#[derive(PartialEq, Eq, Debug)]
pub struct OsdSlot {
    pub shown: Option<Osd>,
    pub duration: u64,
}

impl OsdSlot {
    pub open spec fn holds(&self, text: Seq<char>, at: int, warning: bool) -> bool {
        self.shown matches Some(o) && o.text@ == text && o.expires_at == at && o.warning == warning
    }

    /// The message of this moment.
    pub open spec fn current(&self, now: u64) -> Option<(Seq<char>, bool)> {
        match self.shown {
            Some(o) => if now < o.expires_at {
                Some((o.text@, o.warning))
            } else {
                None
            },
            None => None,
        }
    }

    pub fn new(duration: u64) -> (r: OsdSlot)
        ensures
            r.shown is None,
            r.duration == duration,
    {
        OsdSlot { shown: None, duration }
    }

    /// Shows a message in place of the one before it.
    pub fn show_osd(&mut self, text: &str, now: u64)
        requires
            now + old(self).duration <= u64::MAX,
        ensures
            final(self).duration == old(self).duration,
            final(self).holds(text@, now + old(self).duration, false),
    {
        self.shown =
        Some(Osd { text: text.to_owned(), expires_at: now + self.duration, warning: false });
    }

    /// The same in amber.
    pub fn warn_osd(&mut self, text: &str, now: u64)
        requires
            now + old(self).duration <= u64::MAX,
        ensures
            final(self).duration == old(self).duration,
            final(self).holds(text@, now + old(self).duration, true),
    {
        self.shown =
        Some(Osd { text: text.to_owned(), expires_at: now + self.duration, warning: true });
    }

    /// The message to draw; one that has expired is dropped.
    pub fn active_osd_text(&mut self, now: u64) -> (r: Option<(String, bool)>)
        ensures
            match r {
                Some((t, w)) => {
                    &&& old(self).current(now) == Some((t@, w))
                    &&& *final(self) == *old(self)
                },
                None => {
                    &&& old(self).current(now) is None
                    &&& final(self).shown is None
                    &&& final(self).duration == old(self).duration
                },
            },
    {
        let live: bool = match &self.shown {
            Some(o) => now < o.expires_at,
            None => false,
        };
        if !live {
            self.shown = None;
            return None;
        }
        match &self.shown {
            Some(o) => Some((o.text.as_str().to_owned(), o.warning)),
            None => None,
        }
    }
}

/// A message shows for its whole time and not a moment longer.
pub proof fn lemma_message_lasts(s: OsdSlot, text: Seq<char>, at: u64, warning: bool, now: u64)
    requires
        s.holds(text, at as int, warning),
    ensures
        now < at ==> s.current(now) == Some((text, warning)),
        now >= at ==> s.current(now) is None,
{
}

} // verus!
