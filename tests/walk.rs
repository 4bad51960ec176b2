use mutils::walk::{extension_matches, path_matches, DirEntry, Listing, Step, Walker};

fn file(path: &str) -> DirEntry {
    DirEntry { path: path.to_string(), is_dir: false }
}

fn dir(path: &str) -> DirEntry {
    DirEntry { path: path.to_string(), is_dir: true }
}

/// A small tree: `root` holds `a.txt`, `b.log` and `sub`; `sub` holds `c.txt`;
/// `locked` is present only when `with_locked` is set, and cannot be read.
fn listing_of(path: &str, with_locked: bool) -> Listing {
    match path {
        "root" => {
            let mut es = vec![file("root/a.txt"), file("root/b.log"), dir("root/sub")];
            if with_locked {
                es.push(dir("root/locked"));
            }
            Listing::Entries(es)
        }
        "root/sub" => Listing::Entries(vec![file("root/sub/c.txt")]),
        "root/locked" => Listing::Denied,
        _ => Listing::Entries(vec![]),
    }
}

/// Runs a walk to completion, answering listings from `listing_of`, and
/// returns the visited paths and the skipped directories.
fn run(root: &str, root_is_dir: bool, filter: &str, with_locked: bool) -> (Vec<String>, Vec<String>) {
    let mut w = Walker::new(root, root_is_dir, filter);
    let mut visited = Vec::new();
    let mut rounds = 0;
    loop {
        rounds += 1;
        assert!(rounds < 1000, "walk does not finish");
        match w.advance() {
            Step::List(p) => {
                assert!(w.deliver(listing_of(&p, with_locked)));
            }
            Step::Visit(p) => visited.push(p),
            Step::Pass => {}
            Step::Done => break,
        }
    }
    assert!(w.is_done());
    (visited, w.skipped().clone())
}

#[test]
fn filter_txt_visits_matching_files_only() {
    let (visited, skipped) = run("root", true, "txt", false);
    assert_eq!(visited, vec!["root/a.txt".to_string(), "root/sub/c.txt".to_string()]);
    assert!(skipped.is_empty());
}

#[test]
fn wildcard_visits_every_file() {
    let (visited, _) = run("root", true, "*", false);
    assert_eq!(
        visited,
        vec!["root/a.txt".to_string(), "root/b.log".to_string(), "root/sub/c.txt".to_string()]
    );
}

#[test]
fn unreadable_directory_is_skipped_and_reported() {
    let (visited, skipped) = run("root", true, "*", true);
    assert_eq!(
        visited,
        vec!["root/a.txt".to_string(), "root/b.log".to_string(), "root/sub/c.txt".to_string()]
    );
    assert_eq!(skipped, vec!["root/locked".to_string()]);
}

#[test]
fn root_that_is_not_a_directory_gives_no_visits() {
    let (visited, skipped) = run("root/a.txt", false, "*", false);
    assert!(visited.is_empty());
    assert!(skipped.is_empty());
}

#[test]
fn subdirectory_is_walked_before_later_siblings() {
    let mut w = Walker::new("top", true, "*");
    assert!(matches!(w.advance(), Step::List(p) if p == "top"));
    assert!(w.deliver(Listing::Entries(vec![dir("top/d"), file("top/z.rs")])));
    assert!(matches!(w.advance(), Step::List(p) if p == "top/d"));
    assert!(w.deliver(Listing::Entries(vec![file("top/d/y.rs")])));
    assert!(matches!(w.advance(), Step::Visit(p) if p == "top/d/y.rs"));
    assert!(matches!(w.advance(), Step::Pass));
    assert!(matches!(w.advance(), Step::Visit(p) if p == "top/z.rs"));
    assert!(matches!(w.advance(), Step::Pass));
    assert!(matches!(w.advance(), Step::Done));
}

#[test]
fn listing_is_asked_again_until_delivered() {
    let mut w = Walker::new("top", true, "*");
    assert!(matches!(w.advance(), Step::List(p) if p == "top"));
    assert!(matches!(w.advance(), Step::List(p) if p == "top"));
    assert!(!w.is_done());
}

#[test]
fn delivery_without_a_request_is_refused() {
    let mut w = Walker::new("f.txt", false, "*");
    assert!(!w.deliver(Listing::Denied));
    assert!(w.skipped().is_empty());
    assert!(matches!(w.advance(), Step::Done));
}

#[test]
fn extension_comparison_is_exact_and_case_sensitive() {
    assert!(extension_matches(Some("txt"), "txt"));
    assert!(!extension_matches(Some("TXT"), "txt"));
    assert!(!extension_matches(Some("txt"), "tx"));
    assert!(!extension_matches(Some("txt2"), "txt"));
}

#[test]
fn file_without_extension_matches_only_the_wildcard() {
    assert!(extension_matches(None, "*"));
    assert!(!extension_matches(None, ""));
    assert!(!extension_matches(None, "txt"));
    assert!(extension_matches(Some("log"), "*"));
}

#[test]
fn path_extension_is_taken_from_the_last_dot() {
    assert!(path_matches("dir/a.txt", "txt"));
    assert!(path_matches("dir/archive.tar.gz", "gz"));
    assert!(!path_matches("dir/archive.tar.gz", "tar.gz"));
    assert!(!path_matches("dir/.bashrc", "bashrc"));
    assert!(!path_matches("dir/Makefile", "Makefile"));
    assert!(!path_matches("dir/Makefile", ""));
    assert!(path_matches("dir/Makefile", "*"));
}
