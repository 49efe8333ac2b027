//! Directory listings: what one read of a directory's immediate children
//! becomes once the hidden-file policy has been applied. The read itself is
//! the caller's; its outcome comes in as a value.

use vstd::prelude::*;
use crate::hidden::{entry_views, shown, Entry, EntryView, HiddenRule};

verus! {

/// Why a directory could not be opened.
#[derive(Clone, Copy, Debug, PartialEq, Eq, Structural)]
pub enum ListError {
    NotADirectory,
    NotFound,
    PermissionDenied,
}

impl ListError {
    /// The failure in words.
    pub open spec fn reason(self) -> Seq<char> {
        match self {
            ListError::NotADirectory => "not a directory"@,
            ListError::NotFound => "not found"@,
            ListError::PermissionDenied => "permission denied"@,
        }
    }

    /// The failure in words, tied to the path that was attempted.
    pub open spec fn report(self, path: Seq<char>) -> Seq<char> {
        self.reason() + ": "@ + path
    }

    /// The message that reports this failure for the directory `path`.
    pub fn message(self, path: &str) -> (message: String)
        ensures
            message@ == self.report(path@),
    {
        let reason = match self {
            ListError::NotADirectory => "not a directory",
            ListError::NotFound => "not found",
            ListError::PermissionDenied => "permission denied",
        };
        let mut message = String::from_str(reason);
        message.append(": ");
        message.append(path);
        message
    }
}

/// The texts of `paths`, in order.
pub open spec fn texts(paths: Seq<String>) -> Seq<Seq<char>> {
    paths.map_values(|p: String| p@)
}

/// The filter that a listing applies, as a predicate on entries.
pub open spec fn passes(show_hidden: bool, rule: HiddenRule, sep: char) -> spec_fn(
    EntryView,
) -> bool {
    |e: EntryView| shown(e, show_hidden, rule, sep)
}

/// The paths of the entries that pass the filter, in the order of the read.
pub open spec fn visible(
    entries: Seq<EntryView>,
    show_hidden: bool,
    rule: HiddenRule,
    sep: char,
) -> Seq<Seq<char>> {
    entries.filter(passes(show_hidden, rule, sep)).map_values(|e: EntryView| e.path)
}

/// Adding one entry to a read adds its path to the listing if it passes the
/// filter, and nothing otherwise.
pub proof fn visible_of_push(
    entries: Seq<EntryView>,
    entry: EntryView,
    show_hidden: bool,
    rule: HiddenRule,
    sep: char,
)
    ensures
        visible(entries.push(entry), show_hidden, rule, sep) == if shown(
            entry,
            show_hidden,
            rule,
            sep,
        ) {
            visible(entries, show_hidden, rule, sep).push(entry.path)
        } else {
            visible(entries, show_hidden, rule, sep)
        },
{
    let keep = passes(show_hidden, rule, sep);
    entries.lemma_filter_push(entry, keep);
    if shown(entry, show_hidden, rule, sep) {
        assert(entries.filter(keep).push(entry).map_values(|e: EntryView| e.path)
            =~= entries.filter(keep).map_values(|e: EntryView| e.path).push(entry.path));
    }
}

/// A listing holds paths of the read only, each entry at most as often as the
/// read has it, and none that the filter rejects; with hidden files shown it
/// is the whole read.
pub proof fn visible_is_filtered_read(
    entries: Seq<EntryView>,
    show_hidden: bool,
    rule: HiddenRule,
    sep: char,
)
    ensures
        visible(entries, show_hidden, rule, sep).len() <= entries.len(),
        forall|i: int|
            0 <= i < visible(entries, show_hidden, rule, sep).len() ==> exists|j: int|
                0 <= j < entries.len() && shown(entries[j], show_hidden, rule, sep)
                    && #[trigger] visible(entries, show_hidden, rule, sep)[i] == entries[j].path,
        show_hidden ==> visible(entries, show_hidden, rule, sep) == entries.map_values(
            |e: EntryView| e.path,
        ),
    decreases entries.len(),
{
    let keep = passes(show_hidden, rule, sep);
    if entries.len() == 0 {
        reveal(Seq::filter);
        assert(entries.filter(keep) =~= entries);
        assert(visible(entries, show_hidden, rule, sep) =~= entries.map_values(
            |e: EntryView| e.path,
        ));
    } else {
        let before = entries.drop_last();
        let last = entries.last();
        assert(before.push(last) =~= entries);
        visible_is_filtered_read(before, show_hidden, rule, sep);
        visible_of_push(before, last, show_hidden, rule, sep);
        let all = visible(entries, show_hidden, rule, sep);
        let head = visible(before, show_hidden, rule, sep);
        assert forall|i: int| 0 <= i < all.len() implies exists|j: int|
            0 <= j < entries.len() && shown(entries[j], show_hidden, rule, sep) && #[trigger] all[i]
                == entries[j].path by {
            if i < head.len() {
                let j = choose|j: int|
                    0 <= j < before.len() && shown(before[j], show_hidden, rule, sep) && head[i]
                        == before[j].path;
                assert(entries[j] == before[j]);
            } else {
                assert(all[i] == entries[entries.len() - 1].path);
            }
        }
        if show_hidden {
            assert(all =~= entries.map_values(|e: EntryView| e.path));
        }
    }
}

/// The listing of one directory read. A failed read is handed on as it is; a
/// read that succeeded gives the paths of its entries in the order of the
/// read, without those that the filter rejects.
pub fn list(
    read: Result<Vec<Entry>, ListError>,
    show_hidden: bool,
    rule: HiddenRule,
    separator: char,
) -> (listed: Result<Vec<String>, ListError>)
    ensures
        read is Err ==> listed == Err::<Vec<String>, ListError>(read->Err_0),
        read is Ok ==> listed is Ok && texts(listed->Ok_0@) == visible(
            entry_views(read->Ok_0@),
            show_hidden,
            rule,
            separator,
        ),
{
    match read {
        Err(e) => Err(e),
        Ok(entries) => Ok(keep_visible(&entries, show_hidden, rule, separator)),
    }
}

/// The paths of those of `entries` that pass the filter, in order.
pub(crate) fn keep_visible(
    entries: &Vec<Entry>,
    show_hidden: bool,
    rule: HiddenRule,
    separator: char,
) -> (paths: Vec<String>)
    ensures
        texts(paths@) == visible(entry_views(entries@), show_hidden, rule, separator),
{
    let mut paths: Vec<String> = Vec::new();
    let mut i: usize = 0;
    proof {
        reveal(Seq::filter);
        assert(entry_views(entries@).take(0).filter(passes(show_hidden, rule, separator))
            =~= Seq::<EntryView>::empty());
        assert(texts(paths@) =~= visible(
            entry_views(entries@).take(0),
            show_hidden,
            rule,
            separator,
        ));
    }
    while i < entries.len()
        invariant
            i <= entries.len(),
            texts(paths@) == visible(
                entry_views(entries@).take(i as int),
                show_hidden,
                rule,
                separator,
            ),
        decreases entries.len() - i,
    {
        let entry = &entries[i];
        proof {
            let all = entry_views(entries@);
            assert(all.take(i as int).push(entry@) =~= all.take(i + 1));
            visible_of_push(all.take(i as int), entry@, show_hidden, rule, separator);
        }
        if rule.shows(entry, show_hidden, separator) {
            let ghost before = paths@;
            let path = entry.path.clone();
            paths.push(path);
            assert(texts(paths@) =~= texts(before).push(entry.path@));
        }
        i += 1;
    }
    assert(entry_views(entries@).take(i as int) =~= entry_views(entries@));
    paths
}

} // verus!
