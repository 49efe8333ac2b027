//! The decisions of a subtree search. A traversal visits the entries of a
//! subtree one at a time; at each of them it polls for a stop request, skips
//! what the hidden-file policy rejects (and does not descend into it), and
//! emits the entry if its last segment contains the search term. The walk
//! over the file system and the channels belong to the caller: it hands each
//! visited entry to a [`Walker`] and carries out what the walker decides.

use vstd::prelude::*;
use crate::hidden::{shown, Entry, EntryView, HiddenRule};
use crate::path::{file_name, last_segment};
use crate::text::{contains, empty_occurs_everywhere, str_contains};

verus! {

/// What the traversal met at one step.
#[derive(Debug)]
pub enum Found {
    /// An entry, as the metadata probe reports it.
    Entry(Entry),
    /// An entry that could not be read.
    Unreadable,
}

/// A [`Found`] as plain values.
pub enum FoundView {
    Entry(EntryView),
    Unreadable,
}

impl View for Found {
    type V = FoundView;

    open spec fn view(&self) -> FoundView {
        match self {
            Found::Entry(e) => FoundView::Entry(e@),
            Found::Unreadable => FoundView::Unreadable,
        }
    }
}

/// What the traversal does with the entry it just visited.
#[derive(Clone, Copy, Debug, PartialEq, Eq, Structural)]
pub enum Step {
    /// A stop was requested: end the traversal, visit nothing further.
    Stop,
    /// Nothing to report for this entry: go on with the next.
    Skip,
    /// Send the entry's full path to the result stream, then go on.
    Emit,
}

/// The parameters of one traversal, and whether it has been told to stop.
#[derive(Debug)]
pub struct Walker {
    session: u64,
    root: String,
    term: String,
    show_hidden: bool,
    rule: HiddenRule,
    separator: char,
    stopped: bool,
}

/// A [`Walker`] as plain values.
pub struct WalkerView {
    pub session: u64,
    pub root: Seq<char>,
    pub term: Seq<char>,
    pub show_hidden: bool,
    pub rule: HiddenRule,
    pub separator: char,
    pub stopped: bool,
}

/// Whether the last segment of `path` contains `term`.
pub open spec fn matches(path: Seq<char>, term: Seq<char>, sep: char) -> bool {
    contains(last_segment(path, sep), term)
}

impl WalkerView {
    /// Whether the traversal yields `entry` and descends into it.
    pub open spec fn admits(self, entry: EntryView) -> bool {
        shown(entry, self.show_hidden, self.rule, self.separator)
    }

    /// The decision at one visited entry, `stop` being what the poll for a
    /// stop request gave.
    pub open spec fn decide(self, stop: bool, found: FoundView) -> Step {
        if self.stopped || stop {
            Step::Stop
        } else {
            match found {
                FoundView::Unreadable => Step::Skip,
                FoundView::Entry(e) => if self.admits(e) && matches(
                    e.path,
                    self.term,
                    self.separator,
                ) {
                    Step::Emit
                } else {
                    Step::Skip
                },
            }
        }
    }

    /// The walker after that visit: a stop, once seen, stays.
    pub open spec fn after(self, stop: bool) -> WalkerView {
        WalkerView { stopped: self.stopped || stop, ..self }
    }
}

impl View for Walker {
    type V = WalkerView;

    closed spec fn view(&self) -> WalkerView {
        WalkerView {
            session: self.session,
            root: self.root@,
            term: self.term@,
            show_hidden: self.show_hidden,
            rule: self.rule,
            separator: self.separator,
            stopped: self.stopped,
        }
    }
}

impl Clone for Walker {
    /// A walker with the same parameters, for the caller that needs one to
    /// ask [`Walker::admits`] of while another visits.
    fn clone(&self) -> (copy: Walker)
        ensures
            copy@ == self@,
    {
        Walker {
            session: self.session,
            root: self.root.clone(),
            term: self.term.clone(),
            show_hidden: self.show_hidden,
            rule: self.rule,
            separator: self.separator,
            stopped: self.stopped,
        }
    }
}

/// Whether the last segment of `path` contains `term`.
pub fn name_matches(path: &str, term: &str, separator: char) -> (hit: bool)
    ensures
        hit == matches(path@, term@, separator),
{
    let name = file_name(path, separator);
    str_contains(name.as_str(), term)
}

impl Walker {
    /// A walker for the subtree under `root` that has not been told to stop.
    pub fn new(
        session: u64,
        root: String,
        term: String,
        show_hidden: bool,
        rule: HiddenRule,
        separator: char,
    ) -> (walker: Walker)
        ensures
            walker@ == (WalkerView {
                session,
                root: root@,
                term: term@,
                show_hidden,
                rule,
                separator,
                stopped: false,
            }),
    {
        Walker { session, root, term, show_hidden, rule, separator, stopped: false }
    }

    /// The session that this traversal serves.
    pub fn session(&self) -> (session: u64)
        ensures
            session == self@.session,
    {
        self.session
    }

    /// The directory whose subtree is searched.
    pub fn root(&self) -> (root: &String)
        ensures
            root@ == self@.root,
    {
        &self.root
    }

    /// The text that is searched for.
    pub fn term(&self) -> (term: &String)
        ensures
            term@ == self@.term,
    {
        &self.term
    }

    /// Whether a stop request has been seen.
    pub fn stopped(&self) -> (stopped: bool)
        ensures
            stopped == self@.stopped,
    {
        self.stopped
    }

    /// Whether the traversal yields `entry` and, if it is a directory,
    /// descends into it. An entry that is not admitted is pruned: neither it
    /// nor anything below it is visited.
    pub fn admits(&self, entry: &Entry) -> (admitted: bool)
        ensures
            admitted == self@.admits(entry@),
    {
        self.rule.shows(entry, self.show_hidden, self.separator)
    }

    /// Decides what to do with one visited entry. `stop_requested` is what
    /// the poll of the cancel signal gave just before. Once a stop has been
    /// seen, every later visit answers [`Step::Stop`].
    pub fn visit(&mut self, stop_requested: bool, found: &Found) -> (step: Step)
        ensures
            step == old(self)@.decide(stop_requested, found@),
            final(self)@ == old(self)@.after(stop_requested),
    {
        if stop_requested {
            self.stopped = true;
        }
        if self.stopped {
            return Step::Stop;
        }
        match found {
            Found::Unreadable => Step::Skip,
            Found::Entry(entry) => {
                if self.admits(entry) && name_matches(
                    entry.path.as_str(),
                    self.term.as_str(),
                    self.separator,
                ) {
                    Step::Emit
                } else {
                    Step::Skip
                }
            },
        }
    }
}

/// With the empty term every admitted entry is emitted.
pub proof fn empty_term_matches_every_entry(walker: WalkerView, entry: EntryView)
    requires
        walker.term == Seq::<char>::empty(),
        !walker.stopped,
    ensures
        walker.decide(false, FoundView::Entry(entry)) == if walker.admits(entry) {
            Step::Emit
        } else {
            Step::Skip
        },
{
    empty_occurs_everywhere(last_segment(entry.path, walker.separator));
}

/// After a stop request has been seen nothing is emitted any more, whatever
/// is visited and whatever later polls give.
pub proof fn nothing_is_emitted_after_stop(walker: WalkerView, stop: bool, found: FoundView)
    requires
        walker.stopped,
    ensures
        walker.decide(stop, found) == Step::Stop,
        walker.after(stop) == walker,
{
}

/// One visit of a traversal: what the poll for a stop request gave, and what
/// was met.
pub struct Visit {
    pub stop: bool,
    pub found: FoundView,
}

impl WalkerView {
    /// The walker after `visits`.
    pub open spec fn after_all(self, visits: Seq<Visit>) -> WalkerView
        decreases visits.len(),
    {
        if visits.len() == 0 {
            self
        } else {
            self.after_all(visits.drop_last()).after(visits.last().stop)
        }
    }

    /// The result stream of a traversal that makes `visits`: the paths it
    /// emits, in the order of the visits.
    pub open spec fn stream(self, visits: Seq<Visit>) -> Seq<Seq<char>>
        decreases visits.len(),
    {
        if visits.len() == 0 {
            Seq::empty()
        } else {
            let before = visits.drop_last();
            let last = visits.last();
            if self.after_all(before).decide(last.stop, last.found) == Step::Emit {
                self.stream(before).push(last.found->Entry_0.path)
            } else {
                self.stream(before)
            }
        }
    }

    /// Whether the traversal emits what it met at this visit, polls aside.
    pub open spec fn reports(self) -> spec_fn(Visit) -> bool {
        |v: Visit|
            v.found is Entry && self.admits(v.found->Entry_0) && matches(
                v.found->Entry_0.path,
                self.term,
                self.separator,
            )
    }
}

/// A walker has seen a stop request exactly when it had seen one before or
/// one of the polls gave one.
pub proof fn stop_is_remembered(walker: WalkerView, visits: Seq<Visit>)
    ensures
        walker.after_all(visits).stopped == (walker.stopped || exists|i: int|
            0 <= i < visits.len() && visits[i].stop),
        walker.after_all(visits) == (WalkerView {
            stopped: walker.after_all(visits).stopped,
            ..walker
        }),
    decreases visits.len(),
{
    if visits.len() > 0 {
        let before = visits.drop_last();
        stop_is_remembered(walker, before);
        if walker.after_all(visits).stopped && !walker.stopped {
            if visits.last().stop {
                assert(visits[visits.len() - 1].stop);
            } else {
                let i = choose|i: int| 0 <= i < before.len() && before[i].stop;
                assert(visits[i].stop);
            }
        }
        if exists|i: int| 0 <= i < visits.len() && visits[i].stop {
            let i = choose|i: int| 0 <= i < visits.len() && visits[i].stop;
            if i < before.len() {
                assert(before[i].stop);
            }
        }
    }
}

/// While no stop is requested, the result stream is exactly the paths of the
/// visited entries that are admitted and whose last segment contains the
/// term, in the order of the traversal.
pub proof fn stream_follows_traversal(walker: WalkerView, visits: Seq<Visit>)
    requires
        !walker.stopped,
        forall|i: int| 0 <= i < visits.len() ==> !visits[i].stop,
    ensures
        walker.stream(visits) == visits.filter(walker.reports()).map_values(
            |v: Visit| v.found->Entry_0.path,
        ),
    decreases visits.len(),
{
    let reports = walker.reports();
    if visits.len() == 0 {
        reveal(Seq::filter);
        assert(visits.filter(reports) =~= visits);
        assert(walker.stream(visits) =~= visits.filter(reports).map_values(
            |v: Visit| v.found->Entry_0.path,
        ));
    } else {
        let before = visits.drop_last();
        let last = visits.last();
        assert(before.push(last) =~= visits);
        stream_follows_traversal(walker, before);
        stop_is_remembered(walker, before);
        before.lemma_filter_push(last, reports);
        assert(walker.after_all(before) == walker);
        if reports(last) {
            assert(before.filter(reports).push(last).map_values(|v: Visit| v.found->Entry_0.path)
                =~= before.filter(reports).map_values(|v: Visit| v.found->Entry_0.path).push(
                last.found->Entry_0.path,
            ));
        }
    }
}

/// Nothing is emitted from the visit whose poll gives a stop request
/// onwards: the result stream is what had been emitted before that visit.
pub proof fn stream_ends_at_stop(walker: WalkerView, visits: Seq<Visit>, at: int)
    requires
        0 <= at < visits.len(),
        visits[at].stop,
    ensures
        walker.stream(visits) == walker.stream(visits.take(at)),
    decreases visits.len(),
{
    let before = visits.drop_last();
    if at == visits.len() - 1 {
        assert(visits.take(at) =~= before);
    } else {
        stream_ends_at_stop(walker, before, at);
        assert(before.take(at) =~= visits.take(at));
        stop_is_remembered(walker, before);
        assert(before[at].stop);
    }
}

} // verus!
