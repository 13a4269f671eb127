//! Running a native file picker.

use vstd::prelude::*;

verus! {

/// Shows a native file picker and gives what it picked: what the picker chose
/// is what comes back, and a cancelled one comes back as such.
pub fn pick<T: Send, F: FnOnce() -> T + Send>(picker: F) -> (r: T)
    requires
        picker.requires(()),
    ensures
        picker.ensures((), r),
{
    picker()
}

/// The windows whose paints were held back while a picker ran on another
/// thread; each is to be painted once when it is over.
#[derive(PartialEq, Eq, Debug)]
pub struct HeldPaints {
    pub windows: Vec<i64>,
}

impl HeldPaints {
    /// No window is remembered twice.
    pub open spec fn wf(&self) -> bool {
        self.windows@.no_duplicates()
    }

    pub fn new() -> (r: HeldPaints)
        ensures
            r.wf(),
            r.windows@.len() == 0,
    {
        HeldPaints { windows: Vec::new() }
    }

    pub fn hold(&mut self, window: i64)
        requires
            old(self).wf(),
        ensures
            final(self).wf(),
            final(self).windows@ == (if old(self).windows@.contains(window) {
                old(self).windows@
            } else {
                old(self).windows@.push(window)
            }),
    {
        let mut i: usize = 0;
        while i < self.windows.len()
            invariant
                i <= self.windows@.len(),
                self.windows@ == old(self).windows@,
                old(self).wf(),
                forall|j: int| 0 <= j < i ==> self.windows@[j] != window,
            decreases self.windows@.len() - i,
        {
            if self.windows[i] == window {
                assert(old(self).windows@.contains(window));
                return;
            }
            i += 1;
        }
        assert(!old(self).windows@.contains(window));
        self.windows.push(window);
    }
}

} // verus!
