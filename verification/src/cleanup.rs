//! The sweep over the working directory after a fresh installation: every
//! entry but the directory of the installed version is to go.

use vstd::prelude::*;

verus! {

/// What reading one entry of the working directory gave.
#[derive(Clone, Debug, PartialEq, Eq)]
pub enum DirEntry {
    /// An entry with this name.
    Named(String),
    /// An entry whose name is not valid Unicode. No version directory is
    /// named so.
    Unnamed,
    /// Reading the entry failed, with this description.
    Unreadable(String),
}

/// The mathematical content of a [`DirEntry`].
pub enum DirEntryView {
    Named(Seq<char>),
    Unnamed,
    Unreadable(Seq<char>),
}

impl View for DirEntry {
    type V = DirEntryView;

    open spec fn view(&self) -> DirEntryView {
        match *self {
            DirEntry::Named(name) => DirEntryView::Named(name@),
            DirEntry::Unnamed => DirEntryView::Unnamed,
            DirEntry::Unreadable(detail) => DirEntryView::Unreadable(detail@),
        }
    }
}

/// The contents of a listing, entry by entry.
pub open spec fn entries_view(entries: Seq<DirEntry>) -> Seq<DirEntryView> {
    Seq::new(entries.len(), |i: int| entries[i]@)
}

/// The position of the first entry at or after `from` that is not the
/// directory `keep`; the length of the listing if there is none.
pub open spec fn first_foreign(entries: Seq<DirEntryView>, keep: Seq<char>, from: int) -> int
    decreases entries.len() - from,
{
    if from < 0 || from >= entries.len() {
        entries.len() as int
    } else if entries[from] == DirEntryView::Named(keep) {
        first_foreign(entries, keep, from + 1)
    } else {
        from
    }
}

/// `first_foreign` is the least position at or after `from` whose entry
/// differs from the kept directory.
pub proof fn lemma_first_foreign(entries: Seq<DirEntryView>, keep: Seq<char>, from: int)
    requires
        0 <= from,
    ensures
        from <= first_foreign(entries, keep, from) || first_foreign(entries, keep, from)
            == entries.len(),
        first_foreign(entries, keep, from) <= entries.len(),
        forall|j: int|
            from <= j < first_foreign(entries, keep, from) ==> entries[j] == DirEntryView::Named(
                keep,
            ),
        first_foreign(entries, keep, from) < entries.len() ==> entries[first_foreign(
            entries,
            keep,
            from,
        )] != DirEntryView::Named(keep),
    decreases entries.len() - from,
{
    if from < entries.len() && entries[from] == DirEntryView::Named(keep) {
        lemma_first_foreign(entries, keep, from + 1);
    }
}

/// Whether `entry` is the directory named `keep`.
pub fn is_kept(entry: &DirEntry, keep: &String) -> (kept: bool)
    ensures
        kept == (entry@ == DirEntryView::Named(keep@)),
{
    match entry {
        DirEntry::Named(name) => *name == *keep,
        _ => false,
    }
}

/// Finds the first entry at or after `from` that is not the directory
/// `keep`. Returns the length of the listing if every remaining entry is.
pub fn next_foreign(entries: &Vec<DirEntry>, keep: &String, from: usize) -> (position: usize)
    ensures
        position == first_foreign(entries_view(entries@), keep@, from as int),
        position <= entries.len(),
{
    let ghost listing = entries_view(entries@);
    if from >= entries.len() {
        return entries.len();
    }
    let mut position: usize = from;
    while position < entries.len() && is_kept(&entries[position], keep)
        invariant
            from <= position <= entries.len(),
            listing == entries_view(entries@),
            first_foreign(listing, keep@, from as int) == first_foreign(
                listing,
                keep@,
                position as int,
            ),
        decreases entries.len() - position,
    {
        position = position + 1;
    }
    position
}

} // verus!
