//! What the inspectors' layout is kept as between sessions, as far as it is
//! names: a page is kept by the words on its tab.

use vstd::prelude::*;

use crate::text::chars_of;
use crate::text::same;
use crate::text::texts;

verus! {

/// The largest file of preferences that is read: one that grew past this is
/// not ours.
pub const MOST_BYTES: u64 = 16384;

pub fn readable(len: u64) -> (r: bool)
    ensures
        r == (len <= MOST_BYTES),
{
    len <= MOST_BYTES
}

pub open spec fn named(labels: Seq<Seq<char>>, name: Seq<char>, i: int) -> bool {
    0 <= i < labels.len() && labels[i] == name && forall|j: int| 0 <= j < i ==> labels[j] != name
}

/// The page whose tab says this: the first such, or the first page of all
/// where the name is not known.
pub fn tab_of(labels: &Vec<String>, name: &str) -> (r: usize)
    ensures
        texts(labels@).contains(name@) ==> named(texts(labels@), name@, r as int),
        !texts(labels@).contains(name@) ==> r == 0,
{
    let want: Vec<char> = chars_of(name);
    let mut i: usize = 0;
    while i < labels.len()
        invariant
            i <= labels@.len(),
            want@ == name@,
            forall|j: int| 0 <= j < i ==> texts(labels@)[j] != name@,
        decreases labels@.len() - i,
    {
        assert(texts(labels@)[i as int] == labels@[i as int]@);
        if same(&chars_of(labels[i].as_str()), &want) {
            return i;
        }
        i += 1;
    }
    0
}

/// A page that is kept by its name is found again, whatever the names are, as
/// long as no two pages share one.
pub proof fn lemma_kept_page_is_found(labels: Seq<Seq<char>>, i: int, r: int)
    requires
        labels.no_duplicates(),
        0 <= i < labels.len(),
        named(labels, labels[i], r),
    ensures
        r == i,
{
}

/// The size that the workspace is kept at: a window that is maximized, full
/// screen or put away does not say what size is wanted.
pub fn keeps_size(layout_active: bool, minimized: bool, maximized: bool, fullscreen: bool) -> (r: bool)
    ensures
        r == (layout_active && !minimized && !maximized && !fullscreen),
{
    layout_active && !minimized && !maximized && !fullscreen
}

} // verus!
