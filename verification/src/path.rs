//! Path algebra. A path is text that is never parsed beyond its final
//! separator: what follows it is the last segment, what precedes it is the
//! parent. The separator is a parameter, so that one build serves every
//! platform's convention.

use vstd::prelude::*;
use crate::text::{append_char, from_chars, to_chars};

verus! {

/// The text that names the parent of the current directory.
pub open spec fn parent_marker() -> Seq<char> {
    seq!['.', '.']
}

/// The index of the final separator in `path`, or -1 where it has none.
pub open spec fn last_separator(path: Seq<char>, sep: char) -> int
    decreases path.len(),
{
    if path.len() == 0 {
        -1
    } else if path.last() == sep {
        path.len() - 1
    } else {
        last_separator(path.drop_last(), sep)
    }
}

/// The text after the final separator; the whole path where it has none.
pub open spec fn last_segment(path: Seq<char>, sep: char) -> Seq<char> {
    path.subrange(last_separator(path, sep) + 1, path.len() as int)
}

/// `path` up to and including its final separator; empty where it has none.
pub open spec fn stem(path: Seq<char>, sep: char) -> Seq<char> {
    path.take(last_separator(path, sep) + 1)
}

/// `path` without its trailing separators.
pub open spec fn trimmed(path: Seq<char>, sep: char) -> Seq<char>
    decreases path.len(),
{
    if path.len() > 0 && path.last() == sep {
        trimmed(path.drop_last(), sep)
    } else {
        path
    }
}

/// The form in which a directory is kept. Trailing separators are removed,
/// with two exceptions that keep exactly one: the root (text made of
/// separators alone) and a drive designator (text that then ends in `:`).
pub open spec fn normalized(path: Seq<char>, sep: char) -> Seq<char> {
    let bare = trimmed(path, sep);
    if bare.len() == 0 {
        if path.len() > 0 {
            seq![sep]
        } else {
            bare
        }
    } else if bare.last() == ':' {
        bare.push(sep)
    } else {
        bare
    }
}

/// The directory above `path`: the text before its final separator, in the
/// form in which a directory is kept. Empty where `path` has no separator.
pub open spec fn parent(path: Seq<char>, sep: char) -> Seq<char> {
    normalized(stem(path, sep), sep)
}

/// `path` is a drive designator followed by exactly one separator.
pub open spec fn is_drive_root(path: Seq<char>, sep: char) -> bool {
    &&& sep != ':'
    &&& path.len() >= 2
    &&& path[path.len() - 1] == sep
    &&& path[path.len() - 2] == ':'
}

/// `path` does not end in a separator, unless it is the root or a drive
/// root.
pub open spec fn tidy(path: Seq<char>, sep: char) -> bool {
    ||| path.len() == 0
    ||| path.last() != sep
    ||| path == seq![sep]
    ||| is_drive_root(path, sep)
}

/// `last_separator` is an index of a separator after which none follows, or -1
/// where the path holds no separator at all.
pub proof fn last_separator_is_final(path: Seq<char>, sep: char)
    ensures
        -1 <= last_separator(path, sep) < path.len(),
        last_separator(path, sep) >= 0 ==> path[last_separator(path, sep)] == sep,
        forall|i: int| last_separator(path, sep) < i < path.len() ==> path[i] != sep,
    decreases path.len(),
{
    if path.len() > 0 && path.last() != sep {
        let shorter = path.drop_last();
        last_separator_is_final(shorter, sep);
        assert forall|i: int| last_separator(path, sep) < i < path.len() implies path[i] != sep by {
            if i < shorter.len() {
                assert(shorter[i] == path[i]);
            }
        }
    }
}

/// Only one index is that of a separator with none after it.
pub proof fn last_separator_is_unique(path: Seq<char>, sep: char, at: int)
    requires
        -1 <= at < path.len(),
        at >= 0 ==> path[at] == sep,
        forall|i: int| at < i < path.len() ==> path[i] != sep,
    ensures
        last_separator(path, sep) == at,
{
    last_separator_is_final(path, sep);
}

/// The last segment holds no separator, and a path is its stem followed by
/// its last segment.
pub proof fn path_splits_at_last_separator(path: Seq<char>, sep: char)
    ensures
        forall|i: int| 0 <= i < last_segment(path, sep).len() ==> last_segment(path, sep)[i] != sep,
        last_separator(path, sep) < 0 ==> last_segment(path, sep) == path,
        path == stem(path, sep) + last_segment(path, sep),
{
    last_separator_is_final(path, sep);
    if last_separator(path, sep) < 0 {
        assert(last_segment(path, sep) =~= path);
    }
    assert(path =~= stem(path, sep) + last_segment(path, sep));
}

/// Where the text before the final separator is itself a plain directory
/// (not empty, ending neither in a separator nor in `:`), it is the parent.
pub proof fn parent_is_text_before_final_separator(path: Seq<char>, sep: char)
    requires
        last_separator(path, sep) > 0,
        path[last_separator(path, sep) - 1] != sep,
        path[last_separator(path, sep) - 1] != ':',
    ensures
        parent(path, sep) == path.take(last_separator(path, sep)),
{
    last_separator_is_final(path, sep);
    let at = last_separator(path, sep);
    let through = stem(path, sep);
    trimmed_is_unique(through, sep, at);
    assert(through.take(at) =~= path.take(at));
}

/// `trimmed` is the longest prefix that does not end in a separator.
pub proof fn trimmed_is_bare_prefix(path: Seq<char>, sep: char)
    ensures
        trimmed(path, sep).len() <= path.len(),
        trimmed(path, sep) == path.take(trimmed(path, sep).len() as int),
        trimmed(path, sep).len() > 0 ==> trimmed(path, sep).last() != sep,
        forall|i: int| trimmed(path, sep).len() <= i < path.len() ==> path[i] == sep,
    decreases path.len(),
{
    if path.len() > 0 && path.last() == sep {
        let shorter = path.drop_last();
        trimmed_is_bare_prefix(shorter, sep);
        let n = trimmed(shorter, sep).len() as int;
        assert(shorter.take(n) =~= path.take(n));
        assert forall|i: int| n <= i < path.len() implies path[i] == sep by {
            if i < shorter.len() {
                assert(shorter[i] == path[i]);
            }
        }
    } else {
        assert(path.take(path.len() as int) =~= path);
    }
}

/// Only one prefix does not end in a separator and is followed by separators
/// alone.
pub proof fn trimmed_is_unique(path: Seq<char>, sep: char, len: int)
    requires
        0 <= len <= path.len(),
        len > 0 ==> path[len - 1] != sep,
        forall|i: int| len <= i < path.len() ==> path[i] == sep,
    ensures
        trimmed(path, sep) == path.take(len),
{
    trimmed_is_bare_prefix(path, sep);
    let n = trimmed(path, sep).len() as int;
    if n < len {
        assert(path[len - 1] == sep);
    } else if n > len {
        assert(trimmed(path, sep).last() == path[n - 1]);
    }
}

/// A normalized path is tidy, and normalizing it again changes nothing.
pub proof fn normalized_is_tidy(path: Seq<char>, sep: char)
    ensures
        tidy(normalized(path, sep), sep),
        normalized(normalized(path, sep), sep) == normalized(path, sep),
{
    trimmed_is_bare_prefix(path, sep);
    let bare = trimmed(path, sep);
    let kept = normalized(path, sep);
    if bare.len() == 0 {
        if path.len() > 0 {
            assert(kept.drop_last() =~= Seq::<char>::empty());
            assert(trimmed(kept, sep) == trimmed(kept.drop_last(), sep));
        }
    } else if bare.last() == ':' {
        assert(kept.drop_last() =~= bare);
        assert(trimmed(kept, sep) == trimmed(bare, sep));
        trimmed_is_unique(bare, sep, bare.len() as int);
        assert(bare.take(bare.len() as int) =~= bare);
    } else {
        trimmed_is_unique(bare, sep, bare.len() as int);
        assert(bare.take(bare.len() as int) =~= bare);
    }
}

/// A drive designator, with or without separators behind it, becomes the
/// drive root: the designator followed by exactly one separator.
pub proof fn drive_designator_keeps_one_separator(path: Seq<char>, sep: char)
    requires
        sep != ':',
        trimmed(path, sep).len() > 0,
        trimmed(path, sep).last() == ':',
    ensures
        normalized(path, sep) == trimmed(path, sep).push(sep),
        is_drive_root(normalized(path, sep), sep),
        trimmed(normalized(path, sep), sep) == trimmed(path, sep),
{
    let bare = trimmed(path, sep);
    let full = bare.push(sep);
    assert(full.drop_last() =~= bare);
    trimmed_is_bare_prefix(path, sep);
    trimmed_is_unique(bare, sep, bare.len() as int);
    assert(bare.take(bare.len() as int) =~= bare);
}

/// A tidy directory that is neither empty nor a drive designator without its
/// separator is kept as it is.
pub proof fn tidy_directory_is_kept(path: Seq<char>, sep: char)
    requires
        tidy(path, sep),
        path.len() > 0,
        path.last() != ':',
    ensures
        normalized(path, sep) == path,
{
    if path.last() != sep {
        trimmed_is_unique(path, sep, path.len() as int);
        assert(path.take(path.len() as int) =~= path);
    } else if path =~= seq![sep] {
        assert(path.drop_last() =~= Seq::<char>::empty());
        assert(trimmed(path, sep) == trimmed(path.drop_last(), sep));
    } else {
        let bare = path.drop_last();
        assert(bare.push(sep) =~= path);
        assert(trimmed(path, sep) == trimmed(bare, sep));
        trimmed_is_unique(bare, sep, bare.len() as int);
        assert(bare.take(bare.len() as int) =~= bare);
    }
}

/// The index of the final separator among `chars`.
pub(crate) fn find_last_separator(chars: &Vec<char>, separator: char) -> (at: Option<usize>)
    ensures
        at is Some ==> at->0 < chars.len() && at->0 as int == last_separator(chars@, separator),
        at is None ==> last_separator(chars@, separator) == -1,
{
    let mut i: usize = chars.len();
    while i > 0
        invariant
            i <= chars.len(),
            forall|j: int| i <= j < chars.len() ==> chars@[j] != separator,
        decreases i,
    {
        if chars[i - 1] == separator {
            proof {
                last_separator_is_unique(chars@, separator, i - 1);
            }
            return Some(i - 1);
        }
        i -= 1;
    }
    proof {
        last_separator_is_unique(chars@, separator, -1);
    }
    None
}

/// The last segment of `path`: the text after its final separator.
pub fn file_name(path: &str, separator: char) -> (name: String)
    ensures
        name@ == last_segment(path@, separator),
{
    let chars = to_chars(path);
    let from: usize = match find_last_separator(&chars, separator) {
        Some(at) => at + 1,
        None => 0,
    };
    from_chars(&chars, from, chars.len())
}

/// The kept form of `chars[..len]`.
fn normalize_chars(chars: &Vec<char>, len: usize, separator: char) -> (kept: String)
    requires
        len <= chars.len(),
    ensures
        kept@ == normalized(chars@.take(len as int), separator),
        tidy(kept@, separator),
{
    let ghost path = chars@.take(len as int);
    let mut bare: usize = len;
    while bare > 0 && chars[bare - 1] == separator
        invariant
            bare <= len <= chars.len(),
            path == chars@.take(len as int),
            forall|j: int| bare <= j < len ==> path[j] == separator,
        decreases bare,
    {
        bare -= 1;
    }
    proof {
        trimmed_is_unique(path, separator, bare as int);
        assert(path.take(bare as int) =~= chars@.subrange(0, bare as int));
        normalized_is_tidy(path, separator);
    }
    let mut kept = from_chars(chars, 0, bare);
    if bare == 0 {
        if len > 0 {
            append_char(&mut kept, separator);
            assert(kept@ =~= seq![separator]);
        }
    } else if chars[bare - 1] == ':' {
        append_char(&mut kept, separator);
    }
    kept
}

/// The directory above `path`.
pub fn parent_of(path: &str, separator: char) -> (up: String)
    ensures
        up@ == parent(path@, separator),
        tidy(up@, separator),
{
    let chars = to_chars(path);
    let len: usize = match find_last_separator(&chars, separator) {
        Some(at) => at + 1,
        None => 0,
    };
    normalize_chars(&chars, len, separator)
}

/// `path` in the form in which a directory is kept.
pub fn normalize(path: &str, separator: char) -> (kept: String)
    ensures
        kept@ == normalized(path@, separator),
        tidy(kept@, separator),
{
    let chars = to_chars(path);
    assert(chars@.take(chars.len() as int) =~= path@);
    normalize_chars(&chars, chars.len(), separator)
}

/// Whether `path` is the parent marker `..`.
pub fn is_parent_marker(path: &str) -> (up: bool)
    ensures
        up == (path@ == parent_marker()),
{
    let chars = to_chars(path);
    let up = chars.len() == 2 && chars[0] == '.' && chars[1] == '.';
    proof {
        if up {
            assert(path@ =~= parent_marker());
        }
    }
    up
}

} // verus!
