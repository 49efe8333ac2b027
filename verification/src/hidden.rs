//! The hidden-file policy. Two rules exist and a deployment follows exactly
//! one of them: by the dot convention an entry is hidden when its last segment
//! starts with `.`; by the attribute bit it is hidden when the file system
//! marks it so in its attribute word.

use vstd::prelude::*;
use crate::path::{find_last_separator, last_segment};
use crate::text::to_chars;

verus! {

/// The bit of an attribute word that marks an entry as hidden.
pub const HIDDEN_ATTRIBUTE: u32 = 0x2;

/// Which of the two rules decides whether an entry is hidden.
#[derive(Clone, Copy, Debug, PartialEq, Eq, Structural)]
pub enum HiddenRule {
    /// The last path segment starts with `.`.
    DotPrefix,
    /// The hidden bit of the attribute word is set.
    AttributeBit,
}

/// A file-system entry as the metadata probe reports it.
#[derive(Debug)]
pub struct Entry {
    /// The full path of the entry.
    pub path: String,
    /// The attribute word, where the platform has one and the probe
    /// succeeded.
    pub attributes: Option<u32>,
}

/// An [`Entry`] as plain values.
pub struct EntryView {
    pub path: Seq<char>,
    pub attributes: Option<u32>,
}

impl View for Entry {
    type V = EntryView;

    open spec fn view(&self) -> EntryView {
        EntryView { path: self.path@, attributes: self.attributes }
    }
}

/// The views of `entries`, in order.
pub open spec fn entry_views(entries: Seq<Entry>) -> Seq<EntryView> {
    entries.map_values(|e: Entry| e@)
}

/// Dot convention: the last segment of `path` starts with `.`.
pub open spec fn dot_hidden(path: Seq<char>, sep: char) -> bool {
    last_segment(path, sep).len() > 0 && last_segment(path, sep)[0] == '.'
}

/// Attribute bit: the probe gave an attribute word and its hidden bit is set.
/// A failed probe hides nothing.
pub open spec fn bit_hidden(attributes: Option<u32>) -> bool {
    attributes is Some && attributes->0 & HIDDEN_ATTRIBUTE != 0
}

/// Whether `entry` is hidden by `rule`.
pub open spec fn hidden(rule: HiddenRule, entry: EntryView, sep: char) -> bool {
    match rule {
        HiddenRule::DotPrefix => dot_hidden(entry.path, sep),
        HiddenRule::AttributeBit => bit_hidden(entry.attributes),
    }
}

/// Whether `entry` passes the filter: every entry does while hidden files are
/// shown, and otherwise those that `rule` does not hide.
pub open spec fn shown(entry: EntryView, show_hidden: bool, rule: HiddenRule, sep: char) -> bool {
    show_hidden || !hidden(rule, entry, sep)
}

/// The two rules are never combined: by the dot convention the attribute word
/// plays no part, and by the attribute bit the path plays none.
pub proof fn rules_are_kept_apart(a: EntryView, b: EntryView, sep_a: char, sep_b: char)
    ensures
        a.path == b.path && sep_a == sep_b ==> hidden(HiddenRule::DotPrefix, a, sep_a) == hidden(
            HiddenRule::DotPrefix,
            b,
            sep_b,
        ),
        a.attributes == b.attributes ==> hidden(HiddenRule::AttributeBit, a, sep_a) == hidden(
            HiddenRule::AttributeBit,
            b,
            sep_b,
        ),
{
}

/// Dot convention: whether the last segment of `file_path` starts with `.`.
pub fn is_hidden(file_path: &str, separator: char) -> (hides: bool)
    ensures
        hides == dot_hidden(file_path@, separator),
{
    let chars = to_chars(file_path);
    let from: usize = match find_last_separator(&chars, separator) {
        Some(at) => at + 1,
        None => 0,
    };
    from < chars.len() && chars[from] == '.'
}

/// Attribute bit: whether the probed attribute word carries the hidden bit.
/// Where the probe failed (`None`) the entry is not hidden.
pub fn has_hidden_attribute(attributes: Option<u32>) -> (hides: bool)
    ensures
        hides == bit_hidden(attributes),
{
    match attributes {
        Some(word) => (word & HIDDEN_ATTRIBUTE) != 0,
        None => false,
    }
}

impl HiddenRule {
    /// Whether this rule hides `entry`.
    pub fn hides(self, entry: &Entry, separator: char) -> (hides: bool)
        ensures
            hides == hidden(self, entry@, separator),
    {
        match self {
            HiddenRule::DotPrefix => is_hidden(entry.path.as_str(), separator),
            HiddenRule::AttributeBit => has_hidden_attribute(entry.attributes),
        }
    }

    /// Whether `entry` passes the filter under this rule.
    pub fn shows(self, entry: &Entry, show_hidden: bool, separator: char) -> (passes: bool)
        ensures
            passes == shown(entry@, show_hidden, self, separator),
    {
        show_hidden || !self.hides(entry, separator)
    }
}

} // verus!
