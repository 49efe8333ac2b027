//! The browser state: the current directory, the entries on display, and the
//! search session, if one is running. Every action of the user is a
//! transition of this state. What a transition needs from outside (the read
//! of a directory, the results that a traversal has delivered) comes in as a
//! value, and what it asks of the outside (a stop signal, a directory to
//! read, a traversal to start) is in what it returns.
//!
//! A search session is known by a number. The caller keeps one result stream
//! and one cancel handle per session and tells the state which session a
//! delivery belongs to: what a session that is no longer live delivers is
//! dropped.

use vstd::prelude::*;
use crate::hidden::{entry_views, Entry, EntryView, HiddenRule};
use crate::listing::{list, texts, visible, ListError};
use crate::path::{
    file_name, is_parent_marker, last_segment, normalize, normalized, normalized_is_tidy, parent,
    parent_marker, parent_of, stem, tidy,
};
use crate::search::{Walker, WalkerView};
use crate::text::{from_chars, starts_with, starts_with_chars, to_chars};

verus! {

/// The three states of the browser.
#[derive(Clone, Copy, Debug, PartialEq, Eq, Structural)]
pub enum Mode {
    /// No navigation awaits its read and no search results are on display.
    Idle,
    /// A navigation has been requested and awaits the read of its directory.
    Listing,
    /// The entries on display are the results of a search.
    Searching,
}

/// What kind of entry is activated.
#[derive(Clone, Copy, Debug, PartialEq, Eq, Structural)]
pub enum EntryKind {
    Directory,
    File,
    /// The pseudo-entry that stands for the parent of the current directory.
    Parent,
}

/// What the caller has to do after an activation.
#[derive(Clone, Copy, Debug, PartialEq, Eq, Structural)]
pub enum Effect {
    /// Read the directory that [`Fst::target`] names and hand the outcome to
    /// [`Fst::generate_sub_items`].
    List,
    /// Open the activated file with the platform's default handler.
    Open,
}

/// The answer to [`Fst::action`].
#[derive(Clone, Copy, Debug)]
pub struct Activation {
    /// The session whose cancel handle has to be signalled, if any.
    pub cancelled: Option<u64>,
    pub effect: Effect,
}

/// The answer to [`Fst::generate_sub_items`].
#[derive(Clone, Copy, Debug)]
pub struct Listed {
    /// The session whose cancel handle has to be signalled, if any.
    pub cancelled: Option<u64>,
    /// Whether the directory was entered, or why it could not be read.
    pub outcome: Result<(), ListError>,
}

/// The answer to [`Fst::search`].
#[derive(Debug)]
pub struct Launch {
    /// The session whose cancel handle has to be signalled, if any.
    pub cancelled: Option<u64>,
    /// The traversal to run for the new session.
    pub walker: Walker,
}

/// The number of the session that follows `session`.
pub open spec fn next_session(session: u64) -> u64 {
    if session == u64::MAX {
        0
    } else {
        (session + 1) as u64
    }
}

/// The browser state as plain values.
pub struct Browser {
    /// The directory on display.
    pub current_path: Seq<char>,
    /// The full paths on display, in order.
    pub entries: Seq<Seq<char>>,
    /// The text that the next search looks for.
    pub search_term: Seq<char>,
    pub show_hidden: bool,
    /// The entries are the results of the search session `session`.
    pub searching: bool,
    /// The traversal of session `session` has not been stopped and has not
    /// been seen to end.
    pub active: bool,
    pub session: u64,
    /// The directory that a requested navigation leads to, while its read is
    /// awaited.
    pub pending: Option<Seq<char>>,
    pub separator: char,
    pub rule: HiddenRule,
}

impl Browser {
    /// What holds of every browser state: the directories it names are tidy,
    /// no search runs while a navigation awaits its read, and a traversal is
    /// active only while its results are on display.
    pub open spec fn wf(self) -> bool {
        &&& tidy(self.current_path, self.separator)
        &&& self.pending is Some ==> tidy(self.pending->0, self.separator) && !self.searching
        &&& self.active ==> self.searching
    }

    /// The state in which a browser starts: in `path`, with nothing on
    /// display.
    pub open spec fn initial(
        path: Seq<char>,
        show_hidden: bool,
        separator: char,
        rule: HiddenRule,
    ) -> Browser {
        Browser {
            current_path: normalized(path, separator),
            entries: Seq::empty(),
            search_term: Seq::empty(),
            show_hidden,
            searching: false,
            active: false,
            session: 0,
            pending: None,
            separator,
            rule,
        }
    }

    pub open spec fn mode(self) -> Mode {
        if self.pending is Some {
            Mode::Listing
        } else if self.searching {
            Mode::Searching
        } else {
            Mode::Idle
        }
    }

    /// The session whose traversal is active, if any. At most one is.
    pub open spec fn live(self) -> Option<u64> {
        if self.active {
            Some(self.session)
        } else {
            None
        }
    }

    /// The directory that the next read has to list.
    pub open spec fn target(self) -> Seq<char> {
        match self.pending {
            Some(directory) => directory,
            None => self.current_path,
        }
    }

    /// Where a navigation to `path` leads: to the parent of the current
    /// directory for the parent marker, to `path` otherwise, normalized.
    pub open spec fn resolved(self, path: Seq<char>) -> Seq<char> {
        if path == parent_marker() {
            parent(self.current_path, self.separator)
        } else {
            normalized(path, self.separator)
        }
    }

    /// The search is stopped.
    pub open spec fn stopped(self) -> Browser {
        Browser { searching: false, active: false, ..self }
    }

    /// A navigation to `path` is requested: the search is stopped and the
    /// read of the directory is awaited.
    pub open spec fn requested(self, path: Seq<char>) -> Browser {
        Browser { pending: Some(self.resolved(path)), ..self.stopped() }
    }

    /// The read of the target directory has come back. Where it succeeded the
    /// directory is entered and its listing replaces the entries; where it
    /// failed the directory and the entries stay as they were.
    pub open spec fn listed(self, read: Result<Seq<EntryView>, ListError>) -> Browser {
        match read {
            Ok(entries) => Browser {
                current_path: self.target(),
                entries: visible(entries, self.show_hidden, self.rule, self.separator),
                pending: None,
                ..self.stopped()
            },
            Err(_) => Browser { pending: None, ..self.stopped() },
        }
    }

    /// The traversal that a search started now runs.
    pub open spec fn walker(self) -> WalkerView {
        WalkerView {
            session: next_session(self.session),
            root: self.current_path,
            term: self.search_term,
            show_hidden: self.show_hidden,
            rule: self.rule,
            separator: self.separator,
            stopped: false,
        }
    }

    /// A search is started: a new session, with nothing on display yet.
    pub open spec fn launched(self) -> Browser {
        Browser {
            entries: Seq::empty(),
            searching: true,
            active: true,
            session: next_session(self.session),
            pending: None,
            ..self
        }
    }

    /// `results` have arrived from the traversal of `session`, and `closed`
    /// says whether it was seen to have ended. What a session that is not
    /// live delivers is dropped.
    pub open spec fn drained(self, session: u64, results: Seq<Seq<char>>, closed: bool) -> Browser {
        if self.active && session == self.session {
            Browser { entries: self.entries + results, active: !closed, ..self }
        } else {
            self
        }
    }

    /// An entry is activated.
    pub open spec fn activated(self, path: Seq<char>, kind: EntryKind) -> Browser {
        match kind {
            EntryKind::File => self.stopped(),
            EntryKind::Directory => self.requested(path),
            EntryKind::Parent => self.requested(parent_marker()),
        }
    }

    /// What the activation asks of the caller.
    pub open spec fn effect(kind: EntryKind) -> Effect {
        match kind {
            EntryKind::File => Effect::Open,
            EntryKind::Directory => Effect::List,
            EntryKind::Parent => Effect::List,
        }
    }

    /// The label under which `item` is displayed: while search results are
    /// on display, what follows the current directory in it, so that nested
    /// matches show where they lie; otherwise its last segment.
    pub open spec fn label(self, item: Seq<char>) -> Seq<char> {
        if !self.searching {
            last_segment(item, self.separator)
        } else if starts_with(item, self.current_path) {
            item.skip(self.current_path.len() as int)
        } else {
            item
        }
    }
}

/// The browser state.
#[derive(Debug)]
pub struct Fst {
    current_path: String,
    sub_items: Vec<String>,
    search_term: String,
    show_hidden_files: bool,
    searching: bool,
    active: bool,
    session: u64,
    pending: Option<String>,
    separator: char,
    rule: HiddenRule,
}

impl View for Fst {
    type V = Browser;

    closed spec fn view(&self) -> Browser {
        Browser {
            current_path: self.current_path@,
            entries: texts(self.sub_items@),
            search_term: self.search_term@,
            show_hidden: self.show_hidden_files,
            searching: self.searching,
            active: self.active,
            session: self.session,
            pending: match self.pending {
                Some(directory) => Some(directory@),
                None => None,
            },
            separator: self.separator,
            rule: self.rule,
        }
    }
}

/// `std::path::MAIN_SEPARATOR` of the standard library: the character that
/// separates path components on the platform the program was built for.
/// Nothing is claimed of it.
#[verifier::external_body]
fn platform_separator() -> (separator: char) {
    std::path::MAIN_SEPARATOR
}

impl Fst {
    /// A browser in `path`, with the separator of this platform and the dot
    /// convention for hidden files. Nothing is on display yet: the caller
    /// reads [`Fst::target`] and hands the outcome to
    /// [`Fst::generate_sub_items`].
    pub fn new(path: String, show_hidden_files: bool) -> (fst: Fst)
        ensures
            fst@ == Browser::initial(
                path@,
                show_hidden_files,
                fst@.separator,
                HiddenRule::DotPrefix,
            ),
            fst@.wf(),
    {
        let separator = platform_separator();
        Fst::with_platform(path, show_hidden_files, separator, HiddenRule::DotPrefix)
    }

    /// A browser in `path` for a platform with the given separator and
    /// hidden-file rule.
    pub fn with_platform(
        path: String,
        show_hidden_files: bool,
        separator: char,
        rule: HiddenRule,
    ) -> (fst: Fst)
        ensures
            fst@ == Browser::initial(path@, show_hidden_files, separator, rule),
            fst@.wf(),
    {
        let current_path = normalize(path.as_str(), separator);
        let fst = Fst {
            current_path,
            sub_items: Vec::new(),
            search_term: String::new(),
            show_hidden_files,
            searching: false,
            active: false,
            session: 0,
            pending: None,
            separator,
            rule,
        };
        assert(texts(fst.sub_items@) =~= Seq::<Seq<char>>::empty());
        fst
    }

    /// Stops the search, if one is on display. Returns the session whose
    /// cancel handle the caller has to signal: the live one, if there was
    /// one. A second call, or a call after the traversal has ended, returns
    /// `None`.
    pub fn stop_search(&mut self) -> (cancelled: Option<u64>)
        ensures
            cancelled == old(self)@.live(),
            final(self)@ == old(self)@.stopped(),
            old(self)@.wf() ==> final(self)@.wf(),
    {
        let cancelled = if self.active {
            Some(self.session)
        } else {
            None
        };
        self.active = false;
        self.searching = false;
        cancelled
    }

    /// Requests a navigation to `path`, or to the parent of the current
    /// directory where `path` is `..`. A running search is stopped first.
    /// The caller then reads [`Fst::target`] and hands the outcome to
    /// [`Fst::generate_sub_items`]; until then the current directory and the
    /// entries stay as they are.
    pub fn change_dir(&mut self, path: &str) -> (cancelled: Option<u64>)
        ensures
            cancelled == old(self)@.live(),
            final(self)@ == old(self)@.requested(path@),
            old(self)@.wf() ==> final(self)@.wf(),
    {
        let cancelled = self.stop_search();
        let target = if is_parent_marker(path) {
            parent_of(self.current_path.as_str(), self.separator)
        } else {
            normalize(path, self.separator)
        };
        self.pending = Some(target);
        cancelled
    }

    /// Takes the outcome of the read of [`Fst::target`]. A running search is
    /// stopped. Where the read succeeded, the target becomes the current
    /// directory and the entries that pass the hidden-file filter replace
    /// what was on display, in the order of the read. Where it failed, the
    /// current directory and the entries stay as they were and the error is
    /// returned.
    pub fn generate_sub_items(&mut self, read: Result<Vec<Entry>, ListError>) -> (listed: Listed)
        ensures
            listed.cancelled == old(self)@.live(),
            listed.outcome == match read {
                Ok(_) => Ok::<(), ListError>(()),
                Err(e) => Err::<(), ListError>(e),
            },
            final(self)@ == old(self)@.listed(
                match read {
                    Ok(entries) => Ok::<Seq<EntryView>, ListError>(entry_views(entries@)),
                    Err(e) => Err::<Seq<EntryView>, ListError>(e),
                },
            ),
            old(self)@.wf() ==> final(self)@.wf(),
    {
        let cancelled = self.stop_search();
        let pending = self.pending.take();
        match list(read, self.show_hidden_files, self.rule, self.separator) {
            Ok(paths) => {
                match pending {
                    Some(directory) => {
                        self.current_path = directory;
                    },
                    None => {},
                }
                self.sub_items = paths;
                Listed { cancelled, outcome: Ok(()) }
            },
            Err(e) => Listed { cancelled, outcome: Err(e) },
        }
    }

    /// Activates an entry. A running search is stopped. A directory or the
    /// parent marker requests a navigation, as [`Fst::change_dir`] does; a
    /// file is left to the caller to open, and the current directory and the
    /// entries stay as they are.
    pub fn action(&mut self, path: &str, kind: EntryKind) -> (activation: Activation)
        ensures
            activation.cancelled == old(self)@.live(),
            activation.effect == Browser::effect(kind),
            final(self)@ == old(self)@.activated(path@, kind),
            old(self)@.wf() ==> final(self)@.wf(),
    {
        match kind {
            EntryKind::File => {
                let cancelled = self.stop_search();
                Activation { cancelled, effect: Effect::Open }
            },
            EntryKind::Directory => {
                let cancelled = self.change_dir(path);
                Activation { cancelled, effect: Effect::List }
            },
            EntryKind::Parent => {
                proof {
                    reveal_strlit("..");
                    assert(".."@ =~= parent_marker());
                }
                let cancelled = self.change_dir("..");
                Activation { cancelled, effect: Effect::List }
            },
        }
    }

    /// Starts a search for the search term in the subtree of the current
    /// directory. A running search is stopped first and a requested
    /// navigation is given up; the entries are cleared. The caller signals
    /// the cancelled session, if any, and runs the returned traversal.
    pub fn search(&mut self) -> (launch: Launch)
        ensures
            launch.cancelled == old(self)@.live(),
            launch.walker@ == old(self)@.walker(),
            final(self)@ == old(self)@.launched(),
            old(self)@.wf() ==> final(self)@.wf(),
    {
        let cancelled = self.stop_search();
        self.pending = None;
        self.sub_items = Vec::new();
        self.session = if self.session == u64::MAX {
            0
        } else {
            self.session + 1
        };
        self.searching = true;
        self.active = true;
        let walker = Walker::new(
            self.session,
            self.current_path.clone(),
            self.search_term.clone(),
            self.show_hidden_files,
            self.rule,
            self.separator,
        );
        assert(texts(self.sub_items@) =~= Seq::<Seq<char>>::empty());
        Launch { cancelled, walker }
    }

    /// Takes what the result stream of `session` held: `results` in the
    /// order of arrival, and in `closed` whether the stream was found closed
    /// behind them. Results of the live session are appended to the entries;
    /// a closed stream ends the session. What any other session delivers is
    /// dropped. Without results and with the stream open, nothing changes.
    pub fn drain(&mut self, session: u64, results: Vec<String>, closed: bool)
        ensures
            final(self)@ == old(self)@.drained(session, texts(results@), closed),
            old(self)@.wf() ==> final(self)@.wf(),
    {
        if self.active && session == self.session {
            let ghost before = self.sub_items@;
            let ghost arrived = results@;
            let mut results = results;
            self.sub_items.append(&mut results);
            assert(texts(self.sub_items@) =~= texts(before) + texts(arrived)) by {
                assert(self.sub_items@ == before + arrived);
            }
            if closed {
                self.active = false;
            }
        }
    }

    /// The label under which `item` is displayed.
    pub fn label(&self, item: &str) -> (label: String)
        ensures
            label@ == self@.label(item@),
    {
        if !self.searching {
            file_name(item, self.separator)
        } else {
            let chars = to_chars(item);
            let prefix = to_chars(self.current_path.as_str());
            if starts_with_chars(&chars, &prefix) {
                let label = from_chars(&chars, prefix.len(), chars.len());
                assert(label@ =~= item@.skip(self.current_path@.len() as int));
                label
            } else {
                let label = from_chars(&chars, 0, chars.len());
                assert(label@ =~= item@);
                label
            }
        }
    }

    /// The directory on display.
    pub fn current_path(&self) -> (path: &String)
        ensures
            path@ == self@.current_path,
    {
        &self.current_path
    }

    /// The full paths on display, in order.
    pub fn sub_items(&self) -> (items: &Vec<String>)
        ensures
            texts(items@) == self@.entries,
    {
        &self.sub_items
    }

    /// The text that the next search looks for.
    pub fn search_term(&self) -> (term: &String)
        ensures
            term@ == self@.search_term,
    {
        &self.search_term
    }

    /// Sets the text that the next search looks for. A search that is
    /// running goes on with the term it was started with.
    pub fn set_search_term(&mut self, term: String)
        ensures
            final(self)@ == (Browser { search_term: term@, ..old(self)@ }),
            old(self)@.wf() ==> final(self)@.wf(),
    {
        self.search_term = term;
    }

    /// Whether hidden entries are shown.
    pub fn show_hidden_files(&self) -> (show: bool)
        ensures
            show == self@.show_hidden,
    {
        self.show_hidden_files
    }

    /// Whether the entries on display are the results of a search.
    pub fn searching(&self) -> (searching: bool)
        ensures
            searching == self@.searching,
    {
        self.searching
    }

    /// The session whose traversal is active, if any.
    pub fn live(&self) -> (session: Option<u64>)
        ensures
            session == self@.live(),
    {
        if self.active {
            Some(self.session)
        } else {
            None
        }
    }

    /// The separator of path segments.
    pub fn separator(&self) -> (separator: char)
        ensures
            separator == self@.separator,
    {
        self.separator
    }

    /// The rule by which entries count as hidden.
    pub fn rule(&self) -> (rule: HiddenRule)
        ensures
            rule == self@.rule,
    {
        self.rule
    }

    /// Which of its three states the browser is in.
    pub fn mode(&self) -> (mode: Mode)
        ensures
            mode == self@.mode(),
    {
        if self.pending.is_some() {
            Mode::Listing
        } else if self.searching {
            Mode::Searching
        } else {
            Mode::Idle
        }
    }

    /// The directory that the next read has to list: where a requested
    /// navigation leads, or else the current directory.
    pub fn target(&self) -> (directory: &String)
        ensures
            directory@ == self@.target(),
    {
        match &self.pending {
            Some(directory) => directory,
            None => &self.current_path,
        }
    }
}

/// Every transition leads from a well-formed state to a well-formed state.
pub proof fn transitions_keep_well_formed(
    s: Browser,
    path: Seq<char>,
    kind: EntryKind,
    read: Result<Seq<EntryView>, ListError>,
    session: u64,
    results: Seq<Seq<char>>,
    closed: bool,
    term: Seq<char>,
)
    requires
        s.wf(),
    ensures
        s.stopped().wf(),
        s.requested(path).wf(),
        s.listed(read).wf(),
        s.launched().wf(),
        s.drained(session, results, closed).wf(),
        s.activated(path, kind).wf(),
        (Browser { search_term: term, ..s }).wf(),
{
    normalized_is_tidy(path, s.separator);
    normalized_is_tidy(stem(s.current_path, s.separator), s.separator);
}

/// At most one search runs. A search that is started while another runs
/// cancels it and begins with nothing on display. Whatever the cancelled
/// session still delivers is dropped, so the entries are what the new session
/// delivered, in the order of arrival. Once the new session has ended,
/// nothing is appended any more, whichever session a delivery names.
pub proof fn one_search_at_a_time(
    s: Browser,
    stale: Seq<Seq<char>>,
    stale_closed: bool,
    results: Seq<Seq<char>>,
    late_session: u64,
    late: Seq<Seq<char>>,
    late_closed: bool,
)
    ensures
        ({
            let first = s.launched();
            let second = first.launched();
            let ended = second.drained(second.session, results, true);
            &&& first.live() == Some(first.session)
            &&& first.entries == Seq::<Seq<char>>::empty()
            &&& second.live() == Some(second.session)
            &&& second.session != first.session
            &&& second.entries == Seq::<Seq<char>>::empty()
            &&& second.drained(first.session, stale, stale_closed) == second
            &&& second.drained(second.session, results, false).entries == results
            &&& ended.entries == results
            &&& ended.live() is None
            &&& ended.drained(late_session, late, late_closed) == ended
        }),
{
    let second = s.launched().launched();
    assert(second.entries + results =~= results);
}

/// Activating the parent marker while search results are on display leads,
/// once the read of the parent directory has come back, to the idle state in
/// the parent directory, and the entries are exactly the listing of that
/// read: nothing of the search is left among them.
pub proof fn parent_activation_restores_listing(
    s: Browser,
    results: Seq<Seq<char>>,
    closed: bool,
    path: Seq<char>,
    read: Seq<EntryView>,
)
    ensures
        ({
            let found = s.launched().drained(next_session(s.session), results, closed);
            let back = found.activated(path, EntryKind::Parent).listed(
                Ok::<Seq<EntryView>, ListError>(read),
            );
            &&& found.mode() == Mode::Searching
            &&& found.activated(path, EntryKind::Parent).live() is None
            &&& back.mode() == Mode::Idle
            &&& back.live() is None
            &&& back.current_path == parent(s.current_path, s.separator)
            &&& tidy(back.current_path, s.separator)
            &&& back.entries == visible(read, s.show_hidden, s.rule, s.separator)
        }),
{
    normalized_is_tidy(stem(s.current_path, s.separator), s.separator);
}

/// A navigation whose read fails leaves the current directory and the
/// entries as they were.
pub proof fn failed_navigation_changes_no_directory(
    s: Browser,
    path: Seq<char>,
    error: ListError,
)
    ensures
        ({
            let after = s.requested(path).listed(Err::<Seq<EntryView>, ListError>(error));
            &&& after.current_path == s.current_path
            &&& after.entries == s.entries
            &&& after.mode() == Mode::Idle
        }),
{
}

/// Cancelling is idempotent. The first cancellation of a running search
/// names its session for the stop signal; after it, and after the traversal
/// has ended by itself, no session is live, so a further cancellation names
/// none and changes nothing.
pub proof fn cancelling_twice_signals_once(s: Browser, results: Seq<Seq<char>>)
    ensures
        s.stopped().live() is None,
        s.stopped().stopped() == s.stopped(),
        s.drained(s.session, results, true).live() is None,
{
}

/// Draining a result stream that holds nothing adds nothing: the state stays
/// as it was, whichever session the stream belongs to.
pub proof fn empty_drain_changes_nothing(s: Browser, session: u64)
    ensures
        s.drained(session, Seq::<Seq<char>>::empty(), false) == s,
{
    assert(s.entries + Seq::<Seq<char>>::empty() =~= s.entries);
}

} // verus!
