use fxplorer::fss::{Effect, EntryKind, Fst, Mode};
use fxplorer::hidden::{Entry, HiddenRule};
use fxplorer::listing::ListError;
use fxplorer::search::{Found, Step};

fn entry(path: &str) -> Entry {
    Entry { path: path.to_string(), attributes: None }
}

fn entries(paths: &[&str]) -> Vec<Entry> {
    paths.iter().map(|p| entry(p)).collect()
}

fn strings(paths: &[&str]) -> Vec<String> {
    paths.iter().map(|p| p.to_string()).collect()
}

fn unix(path: &str, show_hidden: bool) -> Fst {
    Fst::with_platform(path.to_string(), show_hidden, '/', HiddenRule::DotPrefix)
}

/// A browser in `path` that displays the listing of `children`.
fn browsing(path: &str, children: &[&str]) -> Fst {
    let mut fst = unix(path, false);
    let listed = fst.generate_sub_items(Ok(entries(children)));
    assert_eq!(listed.outcome, Ok(()));
    fst
}

#[test]
fn new_browser_is_idle_and_empty() {
    let fst = Fst::new("/a/b/c".to_string(), true);
    assert_eq!(fst.current_path(), "/a/b/c");
    assert!(fst.sub_items().is_empty());
    assert_eq!(fst.search_term(), "");
    assert!(fst.show_hidden_files());
    assert!(!fst.searching());
    assert_eq!(fst.live(), None);
    assert_eq!(fst.mode(), Mode::Idle);
    assert_eq!(fst.target(), "/a/b/c");
    assert_eq!(fst.rule(), HiddenRule::DotPrefix);
}

#[test]
fn new_browser_uses_the_platform_separator() {
    let fst = Fst::new("x".to_string(), false);
    assert_eq!(fst.separator(), std::path::MAIN_SEPARATOR);
}

#[test]
fn with_platform_keeps_its_configuration() {
    let fst = Fst::with_platform("C:".to_string(), false, '\\', HiddenRule::AttributeBit);
    assert_eq!(fst.current_path(), "C:\\");
    assert_eq!(fst.separator(), '\\');
    assert_eq!(fst.rule(), HiddenRule::AttributeBit);
    assert!(!fst.show_hidden_files());
}

#[test]
fn start_directory_is_normalized() {
    assert_eq!(unix("/home/me/", false).current_path(), "/home/me");
    assert_eq!(unix("/home/me///", false).current_path(), "/home/me");
}

#[test]
fn first_listing_fills_the_entries() {
    let mut fst = unix("/r", false);
    let listed = fst.generate_sub_items(Ok(entries(&["/r/b", "/r/.h", "/r/a"])));
    assert_eq!(listed.cancelled, None);
    assert_eq!(listed.outcome, Ok(()));
    assert_eq!(fst.current_path(), "/r");
    assert_eq!(fst.sub_items(), &strings(&["/r/b", "/r/a"]));
    assert_eq!(fst.mode(), Mode::Idle);
}

#[test]
fn listing_shows_hidden_entries_when_asked_to() {
    let mut fst = unix("/r", true);
    fst.generate_sub_items(Ok(entries(&["/r/b", "/r/.h", "/r/a"])));
    assert_eq!(fst.sub_items(), &strings(&["/r/b", "/r/.h", "/r/a"]));
}

#[test]
fn navigation_awaits_its_read() {
    let mut fst = browsing("/r", &["/r/d", "/r/f"]);
    let cancelled = fst.change_dir("/r/d");
    assert_eq!(cancelled, None);
    assert_eq!(fst.mode(), Mode::Listing);
    assert_eq!(fst.target(), "/r/d");
    assert_eq!(fst.current_path(), "/r");
    assert_eq!(fst.sub_items(), &strings(&["/r/d", "/r/f"]));
}

#[test]
fn navigation_replaces_the_entries() {
    let mut fst = browsing("/r", &["/r/d", "/r/f"]);
    fst.change_dir("/r/d");
    let listed = fst.generate_sub_items(Ok(entries(&["/r/d/x", "/r/d/y"])));
    assert_eq!(listed.outcome, Ok(()));
    assert_eq!(fst.current_path(), "/r/d");
    assert_eq!(fst.sub_items(), &strings(&["/r/d/x", "/r/d/y"]));
    assert_eq!(fst.mode(), Mode::Idle);
    assert_eq!(fst.target(), "/r/d");
}

#[test]
fn navigation_strips_trailing_separator() {
    let mut fst = browsing("/r", &[]);
    fst.change_dir("/r/d/");
    assert_eq!(fst.target(), "/r/d");
    fst.generate_sub_items(Ok(vec![]));
    assert_eq!(fst.current_path(), "/r/d");
}

#[test]
fn up_navigation_goes_to_the_parent() {
    let mut fst = browsing("/a/b/c", &["/a/b/c/x"]);
    fst.change_dir("..");
    assert_eq!(fst.target(), "/a/b");
    fst.generate_sub_items(Ok(entries(&["/a/b/c", "/a/b/d"])));
    assert_eq!(fst.current_path(), "/a/b");
    assert_eq!(fst.sub_items(), &strings(&["/a/b/c", "/a/b/d"]));
}

#[test]
fn up_navigation_reaches_the_root_and_stays_there() {
    let mut fst = browsing("/a", &[]);
    fst.change_dir("..");
    assert_eq!(fst.target(), "/");
    fst.generate_sub_items(Ok(entries(&["/a", "/b"])));
    assert_eq!(fst.current_path(), "/");
    fst.change_dir("..");
    assert_eq!(fst.target(), "/");
}

#[test]
fn up_navigation_from_a_bare_name_leads_nowhere() {
    let mut fst = browsing("here", &[]);
    fst.change_dir("..");
    assert_eq!(fst.target(), "");
    let listed = fst.generate_sub_items(Err(ListError::NotFound));
    assert_eq!(listed.outcome, Err(ListError::NotFound));
    assert_eq!(fst.current_path(), "here");
}

#[test]
fn up_navigation_to_a_drive_keeps_one_separator() {
    let mut fst = Fst::with_platform("C:\\Users".to_string(), false, '\\', HiddenRule::DotPrefix);
    fst.change_dir("..");
    assert_eq!(fst.target(), "C:\\");
    fst.generate_sub_items(Ok(vec![]));
    assert_eq!(fst.current_path(), "C:\\");
    fst.change_dir("..");
    assert_eq!(fst.target(), "C:\\");
    fst.generate_sub_items(Ok(vec![]));
    assert_eq!(fst.current_path(), "C:\\");
}

#[test]
fn navigation_to_a_drive_designator_gives_the_drive_root() {
    let mut fst = Fst::with_platform("D:\\x".to_string(), false, '\\', HiddenRule::DotPrefix);
    fst.change_dir("C:");
    assert_eq!(fst.target(), "C:\\");
    fst.change_dir("C:\\\\");
    assert_eq!(fst.target(), "C:\\");
}

#[test]
fn failed_navigation_leaves_directory_and_entries() {
    for error in [ListError::NotADirectory, ListError::NotFound, ListError::PermissionDenied] {
        let mut fst = browsing("/r", &["/r/d", "/r/f"]);
        fst.change_dir("/r/gone");
        let listed = fst.generate_sub_items(Err(error));
        assert_eq!(listed.outcome, Err(error));
        assert_eq!(fst.current_path(), "/r");
        assert_eq!(fst.sub_items(), &strings(&["/r/d", "/r/f"]));
        assert_eq!(fst.mode(), Mode::Idle);
        assert_eq!(fst.target(), "/r");
    }
}

#[test]
fn search_starts_a_session_with_nothing_on_display() {
    let mut fst = browsing("/r", &["/r/d", "/r/f"]);
    fst.set_search_term("foo".to_string());
    let launch = fst.search();
    assert_eq!(launch.cancelled, None);
    assert_eq!(launch.walker.session(), 1);
    assert_eq!(launch.walker.root(), "/r");
    assert_eq!(launch.walker.term(), "foo");
    assert!(!launch.walker.stopped());
    assert!(fst.searching());
    assert_eq!(fst.live(), Some(1));
    assert_eq!(fst.mode(), Mode::Searching);
    assert!(fst.sub_items().is_empty());
    assert_eq!(fst.current_path(), "/r");
}

#[test]
fn search_walker_inherits_the_hidden_file_policy() {
    let mut hiding = unix("/r", false);
    let w = hiding.search().walker;
    assert!(!w.admits(&entry("/r/.git")));
    let mut showing = unix("/r", true);
    let w = showing.search().walker;
    assert!(w.admits(&entry("/r/.git")));
}

#[test]
fn drained_results_are_appended_in_order() {
    let mut fst = browsing("/r", &["/r/d"]);
    let session = fst.search().walker.session();
    fst.drain(session, strings(&["/r/2", "/r/1"]), false);
    assert_eq!(fst.sub_items(), &strings(&["/r/2", "/r/1"]));
    fst.drain(session, strings(&["/r/3"]), false);
    assert_eq!(fst.sub_items(), &strings(&["/r/2", "/r/1", "/r/3"]));
    assert_eq!(fst.live(), Some(session));
}

#[test]
fn empty_drain_adds_nothing() {
    let mut fst = browsing("/r", &["/r/d"]);
    fst.drain(0, vec![], false);
    assert_eq!(fst.sub_items(), &strings(&["/r/d"]));
    assert_eq!(fst.mode(), Mode::Idle);
    let session = fst.search().walker.session();
    fst.drain(session, strings(&["/r/x"]), false);
    fst.drain(session, vec![], false);
    assert_eq!(fst.sub_items(), &strings(&["/r/x"]));
    assert_eq!(fst.live(), Some(session));
    assert_eq!(fst.mode(), Mode::Searching);
}

#[test]
fn second_search_supersedes_the_first() {
    let mut fst = browsing("/r", &["/r/d"]);
    fst.set_search_term("a".to_string());
    let first = fst.search();
    fst.set_search_term("b".to_string());
    let second = fst.search();
    assert_eq!(second.cancelled, Some(first.walker.session()));
    assert_ne!(second.walker.session(), first.walker.session());
    assert_eq!(second.walker.term(), "b");
    assert_eq!(fst.live(), Some(second.walker.session()));
    fst.drain(first.walker.session(), strings(&["/r/a1", "/r/a2"]), false);
    assert!(fst.sub_items().is_empty());
    fst.drain(second.walker.session(), strings(&["/r/b1"]), false);
    fst.drain(first.walker.session(), strings(&["/r/a3"]), true);
    assert_eq!(fst.sub_items(), &strings(&["/r/b1"]));
    assert_eq!(fst.live(), Some(second.walker.session()));
}

#[test]
fn nothing_is_appended_after_the_session_has_ended() {
    let mut fst = browsing("/r", &[]);
    let first = fst.search().walker.session();
    let second = fst.search().walker.session();
    fst.drain(second, strings(&["/r/b1", "/r/b2"]), true);
    assert_eq!(fst.live(), None);
    assert!(fst.searching());
    fst.drain(second, strings(&["/r/late"]), false);
    fst.drain(first, strings(&["/r/stale"]), false);
    assert_eq!(fst.sub_items(), &strings(&["/r/b1", "/r/b2"]));
}

#[test]
fn earlier_results_do_not_survive_a_new_search() {
    let mut fst = browsing("/r", &[]);
    let first = fst.search().walker.session();
    fst.drain(first, strings(&["/r/a1"]), false);
    assert_eq!(fst.sub_items(), &strings(&["/r/a1"]));
    fst.search();
    assert!(fst.sub_items().is_empty());
}

#[test]
fn stop_search_names_the_live_session_once() {
    let mut fst = browsing("/r", &[]);
    let session = fst.search().walker.session();
    assert_eq!(fst.stop_search(), Some(session));
    assert!(!fst.searching());
    assert_eq!(fst.live(), None);
    assert_eq!(fst.mode(), Mode::Idle);
    assert_eq!(fst.stop_search(), None);
    assert!(!fst.searching());
    assert_eq!(fst.mode(), Mode::Idle);
}

#[test]
fn stop_search_without_a_search_does_nothing() {
    let mut fst = browsing("/r", &["/r/d"]);
    assert_eq!(fst.stop_search(), None);
    assert_eq!(fst.current_path(), "/r");
    assert_eq!(fst.sub_items(), &strings(&["/r/d"]));
    assert_eq!(fst.mode(), Mode::Idle);
}

#[test]
fn stop_search_after_the_traversal_ended_signals_nothing() {
    let mut fst = browsing("/r", &[]);
    let session = fst.search().walker.session();
    fst.drain(session, strings(&["/r/x"]), true);
    assert_eq!(fst.stop_search(), None);
    assert!(!fst.searching());
    assert_eq!(fst.sub_items(), &strings(&["/r/x"]));
}

#[test]
fn results_after_cancellation_are_dropped() {
    let mut fst = browsing("/r", &[]);
    let session = fst.search().walker.session();
    fst.drain(session, strings(&["/r/x"]), false);
    fst.stop_search();
    fst.drain(session, strings(&["/r/y"]), false);
    assert_eq!(fst.sub_items(), &strings(&["/r/x"]));
}

#[test]
fn navigation_cancels_a_running_search() {
    let mut fst = browsing("/r", &[]);
    let session = fst.search().walker.session();
    fst.drain(session, strings(&["/r/d/x"]), false);
    assert_eq!(fst.change_dir("/r/d"), Some(session));
    assert!(!fst.searching());
    assert_eq!(fst.mode(), Mode::Listing);
    fst.drain(session, strings(&["/r/d/y"]), false);
    let listed = fst.generate_sub_items(Ok(entries(&["/r/d/1"])));
    assert_eq!(listed.cancelled, None);
    assert_eq!(fst.sub_items(), &strings(&["/r/d/1"]));
}

#[test]
fn refresh_during_a_search_cancels_it() {
    let mut fst = browsing("/r", &[]);
    let session = fst.search().walker.session();
    fst.drain(session, strings(&["/r/d/x"]), false);
    let listed = fst.generate_sub_items(Ok(entries(&["/r/d"])));
    assert_eq!(listed.cancelled, Some(session));
    assert_eq!(fst.mode(), Mode::Idle);
    assert_eq!(fst.current_path(), "/r");
    assert_eq!(fst.sub_items(), &strings(&["/r/d"]));
}

#[test]
fn search_gives_up_a_requested_navigation() {
    let mut fst = browsing("/r", &[]);
    fst.change_dir("/r/d");
    let launch = fst.search();
    assert_eq!(launch.cancelled, None);
    assert_eq!(launch.walker.root(), "/r");
    assert_eq!(fst.mode(), Mode::Searching);
    assert_eq!(fst.target(), "/r");
}

#[test]
fn parent_activation_restores_a_plain_listing() {
    let mut fst = browsing("/top/root", &["/top/root/a"]);
    fst.set_search_term("x".to_string());
    let session = fst.search().walker.session();
    fst.drain(session, strings(&["/top/root/a/x1", "/top/root/x2"]), false);
    let activation = fst.action("..", EntryKind::Parent);
    assert_eq!(activation.cancelled, Some(session));
    assert_eq!(activation.effect, Effect::List);
    assert_eq!(fst.target(), "/top");
    fst.drain(session, strings(&["/top/root/x3"]), false);
    let listed = fst.generate_sub_items(Ok(entries(&["/top/root", "/top/.cache", "/top/other"])));
    assert_eq!(listed.outcome, Ok(()));
    assert_eq!(fst.mode(), Mode::Idle);
    assert_eq!(fst.current_path(), "/top");
    assert_eq!(fst.sub_items(), &strings(&["/top/root", "/top/other"]));
}

#[test]
fn directory_activation_requests_navigation() {
    let mut fst = browsing("/r", &["/r/d"]);
    let activation = fst.action("/r/d", EntryKind::Directory);
    assert_eq!(activation.cancelled, None);
    assert_eq!(activation.effect, Effect::List);
    assert_eq!(fst.mode(), Mode::Listing);
    assert_eq!(fst.target(), "/r/d");
}

#[test]
fn parent_activation_ignores_the_path() {
    let mut fst = browsing("/a/b", &[]);
    fst.action("/somewhere/else", EntryKind::Parent);
    assert_eq!(fst.target(), "/a");
}

#[test]
fn file_activation_opens_and_stays() {
    let mut fst = browsing("/r", &["/r/f.txt"]);
    let session = fst.search().walker.session();
    fst.drain(session, strings(&["/r/d/f.txt"]), false);
    let activation = fst.action("/r/d/f.txt", EntryKind::File);
    assert_eq!(activation.cancelled, Some(session));
    assert_eq!(activation.effect, Effect::Open);
    assert_eq!(fst.current_path(), "/r");
    assert_eq!(fst.target(), "/r");
    assert_eq!(fst.mode(), Mode::Idle);
    assert_eq!(fst.sub_items(), &strings(&["/r/d/f.txt"]));
    let again = fst.action("/r/d/f.txt", EntryKind::File);
    assert_eq!(again.cancelled, None);
    assert_eq!(again.effect, Effect::Open);
}

#[test]
fn label_while_browsing_is_the_last_segment() {
    let fst = browsing("/r", &["/r/d/f.txt"]);
    assert_eq!(fst.label("/r/d/f.txt"), "f.txt");
    assert_eq!(fst.label("/r/d"), "d");
    assert_eq!(fst.label("plain"), "plain");
}

#[test]
fn label_while_searching_is_relative_to_the_current_directory() {
    let mut fst = browsing("/r", &[]);
    fst.search();
    assert_eq!(fst.label("/r/d/f.txt"), "/d/f.txt");
    assert_eq!(fst.label("/r"), "");
    assert_eq!(fst.label("/elsewhere/f.txt"), "/elsewhere/f.txt");
    assert_eq!(fst.label("/"), "/");
}

#[test]
fn search_term_is_kept_until_changed() {
    let mut fst = unix("/r", false);
    fst.set_search_term("abc".to_string());
    assert_eq!(fst.search_term(), "abc");
    let first = fst.search();
    assert_eq!(first.walker.term(), "abc");
    fst.set_search_term("xyz".to_string());
    assert_eq!(first.walker.term(), "abc");
    assert_eq!(fst.search_term(), "xyz");
    assert_eq!(fst.live(), Some(first.walker.session()));
}

#[test]
fn whole_search_round_trip() {
    let mut fst = browsing("root", &["root/foo.txt", "root/barfoo.txt", "root/bar.txt"]);
    fst.set_search_term("foo".to_string());
    let mut walker = fst.search().walker;
    let mut batch = Vec::new();
    for path in ["root", "root/foo.txt", "root/barfoo.txt", "root/bar.txt"] {
        let found = Found::Entry(entry(path));
        if walker.visit(false, &found) == Step::Emit {
            batch.push(path.to_string());
        }
    }
    fst.drain(walker.session(), batch, true);
    assert_eq!(fst.sub_items(), &strings(&["root/foo.txt", "root/barfoo.txt"]));
    assert_eq!(fst.label("root/barfoo.txt"), "/barfoo.txt");
    assert_eq!(fst.live(), None);
}
