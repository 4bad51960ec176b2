//! Depth-first directory walk with extension filtering.
//!
//! The walk is a state machine: the caller performs the directory listings
//! that the walker asks for and hands the outcome back, and invokes its own
//! visitor on each path that the walker selects.
use vstd::prelude::*;

verus! {

/// The filter that accepts every file.
pub open spec fn wildcard() -> Seq<char> {
    seq!['*']
}

/// A file whose extension is `ext` passes `filter` when the filter is the
/// wildcard, or when the file has an extension equal to the filter, compared
/// exactly and case-sensitively.
pub open spec fn accepts(ext: Option<Seq<char>>, filter: Seq<char>) -> bool {
    filter == wildcard() || ext == Some(filter)
}

/// What `std::path::Path::extension` gives for a path.
pub uninterp spec fn extension_of(path: Seq<char>) -> Option<Seq<char>>;

/// Relies on `std::path::Path::extension`: the part of the file name after its
/// final `.`; none when there is no file name, no `.` in it, or only a leading
/// one. It depends on the path's characters alone.
#[verifier::external_body]
fn path_extension(path: &str) -> (r: Option<String>)
    ensures
        match r {
            Some(e) => extension_of(path@) == Some(e@),
            None => extension_of(path@) is None,
        },
{
    match std::path::Path::new(path).extension() {
        Some(e) => Some(e.to_string_lossy().into_owned()),
        None => None,
    }
}

/// Whether a file with extension `ext` (none for `None`) passes `filter`.
pub fn extension_matches(ext: Option<&str>, filter: &str) -> (r: bool)
    ensures
        r == accepts(
            match ext {
                Some(e) => Some(e@),
                None => None,
            },
            filter@,
        ),
{
    let f = filter.to_owned();
    let star = "*".to_owned();
    proof {
        reveal_strlit("*");
        assert(star@ =~= wildcard());
    }
    if f == star {
        return true;
    }
    match ext {
        Some(e) => {
            let e = e.to_owned();
            e == f
        },
        None => false,
    }
}

/// Whether the file at `path` passes `filter`, going by the path's extension.
pub fn path_matches(path: &str, filter: &str) -> (r: bool)
    ensures
        r == accepts(extension_of(path@), filter@),
{
    let ext = path_extension(path);
    match ext {
        Some(e) => extension_matches(Some(e.as_str()), filter),
        None => extension_matches(None, filter),
    }
}

/// One entry of a directory listing: its full path, and whether it is a
/// directory.
pub struct DirEntry {
    pub path: String,
    pub is_dir: bool,
}

/// A directory entry as the contracts see it.
pub struct EntryView {
    pub path: Seq<char>,
    pub is_dir: bool,
}

impl View for DirEntry {
    type V = EntryView;

    open spec fn view(&self) -> EntryView {
        EntryView { path: self.path@, is_dir: self.is_dir }
    }
}

/// The outcome of listing a directory.
pub enum Listing {
    /// The directory's entries, in the order the listing gave them.
    Entries(Vec<DirEntry>),
    /// The directory could not be read for want of permission.
    Denied,
}

/// A listing as the contracts see it.
pub enum ListingView {
    Entries(Seq<EntryView>),
    Denied,
}

impl View for Listing {
    type V = ListingView;

    open spec fn view(&self) -> ListingView {
        match self {
            Listing::Entries(es) => ListingView::Entries(es@.map_values(|e: DirEntry| e@)),
            Listing::Denied => ListingView::Denied,
        }
    }
}

/// What the walker asks of its caller next.
pub enum Step {
    /// List this directory and hand the outcome to `deliver`.
    List(String),
    /// Invoke the visitor on this file.
    Visit(String),
    /// An entry was discarded or a directory was finished: ask again.
    Pass,
    /// The walk is complete.
    Done,
}

/// A step as the contracts see it.
pub enum StepView {
    List(Seq<char>),
    Visit(Seq<char>),
    Pass,
    Done,
}

impl View for Step {
    type V = StepView;

    open spec fn view(&self) -> StepView {
        match self {
            Step::List(p) => StepView::List(p@),
            Step::Visit(p) => StepView::Visit(p@),
            Step::Pass => StepView::Pass,
            Step::Done => StepView::Done,
        }
    }
}

/// The walker's state: the filter, the entries still to classify in each open
/// directory (innermost last), the directory whose listing is awaited, and the
/// directories that were skipped for want of permission, in order.
pub struct WalkState {
    pub filter: Seq<char>,
    pub frames: Seq<Seq<EntryView>>,
    pub pending: Option<Seq<char>>,
    pub skipped: Seq<Seq<char>>,
}

/// The state at the start of a walk from `root`: its listing is awaited when it
/// is a directory; otherwise there is nothing to walk.
pub open spec fn start(root: Seq<char>, root_is_dir: bool, filter: Seq<char>) -> WalkState {
    WalkState {
        filter,
        frames: Seq::empty(),
        pending: if root_is_dir { Some(root) } else { None },
        skipped: Seq::empty(),
    }
}

/// One transition of the walk and the step it hands to the caller.
///
/// While a listing is awaited the walker keeps asking for it. Otherwise the
/// next entry of the innermost open directory is classified: a directory is
/// descended into, a file that passes the filter is visited, any other file is
/// discarded. An exhausted directory is closed, and with no directory open the
/// walk is done.
pub open spec fn next(s: WalkState) -> (WalkState, StepView) {
    if let Some(p) = s.pending {
        (s, StepView::List(p))
    } else if s.frames.len() == 0 {
        (s, StepView::Done)
    } else {
        let top = s.frames.last();
        if top.len() == 0 {
            (WalkState { frames: s.frames.drop_last(), ..s }, StepView::Pass)
        } else {
            let e = top[0];
            let rest = WalkState {
                frames: s.frames.update(s.frames.len() - 1, top.drop_first()),
                ..s
            };
            if e.is_dir {
                (WalkState { pending: Some(e.path), ..rest }, StepView::List(e.path))
            } else if accepts(extension_of(e.path), s.filter) {
                (rest, StepView::Visit(e.path))
            } else {
                (rest, StepView::Pass)
            }
        }
    }
}

/// The state after the awaited listing came back: its entries become the
/// innermost open directory, or, when it was denied, the directory is recorded
/// as skipped and the walk goes on with its parent.
pub open spec fn delivered(s: WalkState, l: ListingView) -> WalkState {
    match (s.pending, l) {
        (Some(p), ListingView::Entries(es)) => WalkState {
            frames: s.frames.push(es),
            pending: None,
            ..s
        },
        (Some(p), ListingView::Denied) => WalkState {
            pending: None,
            skipped: s.skipped.push(p),
            ..s
        },
        (None, _) => s,
    }
}

/// Only files are visited, each one the next entry of the innermost open
/// directory, and only when its extension passes the filter.
pub proof fn lemma_visit_is_filtered_file(s: WalkState)
    ensures
        next(s).1 matches StepView::Visit(p) ==> {
            &&& s.pending is None
            &&& s.frames.len() > 0
            &&& s.frames.last().len() > 0
            &&& s.frames.last()[0] == EntryView { path: p, is_dir: false }
            &&& accepts(extension_of(p), s.filter)
        },
{
}

/// A depth-first walk in progress.
pub struct Walker {
    filter: String,
    frames: Vec<Vec<DirEntry>>,
    pending: Option<String>,
    skipped: Vec<String>,
}

impl View for Walker {
    type V = WalkState;

    closed spec fn view(&self) -> WalkState {
        WalkState {
            filter: self.filter@,
            frames: self.frames@.map_values(|f: Vec<DirEntry>| f@.map_values(|e: DirEntry| e@)),
            pending: match self.pending {
                Some(p) => Some(p@),
                None => None,
            },
            skipped: self.skipped@.map_values(|p: String| p@),
        }
    }
}

impl Walker {
    /// Starts a walk from `root` with the given filter; `root_is_dir` says
    /// whether the root is a directory. A root that is not one gives a walk
    /// with no visits.
    pub fn new(root: &str, root_is_dir: bool, filter: &str) -> (w: Walker)
        ensures
            w@ == start(root@, root_is_dir, filter@),
    {
        let w = Walker {
            filter: filter.to_owned(),
            frames: Vec::new(),
            pending: if root_is_dir {
                Some(root.to_owned())
            } else {
                None
            },
            skipped: Vec::new(),
        };
        proof {
            assert(w@.frames =~= Seq::empty());
            assert(w@.skipped =~= Seq::empty());
        }
        w
    }

    /// Makes one transition and returns what the caller is to do next.
    pub fn advance(&mut self) -> (r: Step)
        ensures
            (final(self)@, r@) == next(old(self)@),
    {
        if let Some(p) = &self.pending {
            return Step::List(p.clone());
        }
        let popped = self.frames.pop();
        let mut top = match popped {
            Some(t) => t,
            None => {
                return Step::Done;
            },
        };
        if top.len() == 0 {
            proof {
                assert(self@.frames =~= old(self)@.frames.drop_last());
            }
            return Step::Pass;
        }
        let ghost top0 = top@;
        let e = top.remove(0);
        proof {
            let s = old(self)@;
            assert(top0.map_values(|e: DirEntry| e@) == s.frames.last());
            assert(top@.map_values(|e: DirEntry| e@) =~= s.frames.last().drop_first());
        }
        self.frames.push(top);
        proof {
            let s = old(self)@;
            assert(self@.frames =~= s.frames.update(s.frames.len() - 1, s.frames.last().drop_first()));
        }
        if e.is_dir {
            self.pending = Some(e.path.clone());
            Step::List(e.path)
        } else if path_matches(e.path.as_str(), self.filter.as_str()) {
            Step::Visit(e.path)
        } else {
            Step::Pass
        }
    }

    /// Hands back the outcome of the listing that was asked for. Returns
    /// whether a listing was awaited; when none was, nothing changes.
    pub fn deliver(&mut self, listing: Listing) -> (accepted: bool)
        ensures
            accepted == old(self)@.pending is Some,
            final(self)@ == delivered(old(self)@, listing@),
    {
        let p = match self.pending.take() {
            Some(p) => p,
            None => {
                return false;
            },
        };
        match listing {
            Listing::Entries(es) => {
                self.frames.push(es);
                proof {
                    assert(self@.frames =~= old(self)@.frames.push(listing@->Entries_0));
                }
            },
            Listing::Denied => {
                self.skipped.push(p);
                proof {
                    assert(self@.skipped =~= old(self)@.skipped.push(old(self)@.pending->Some_0));
                }
            },
        }
        true
    }

    /// Whether the walk is complete.
    pub fn is_done(&self) -> (r: bool)
        ensures
            r == (self@.pending is None && self@.frames.len() == 0),
    {
        self.pending.is_none() && self.frames.len() == 0
    }

    /// The directories skipped so far for want of permission, in order.
    pub fn skipped(&self) -> (r: &Vec<String>)
        ensures
            r@.map_values(|p: String| p@) == self@.skipped,
    {
        &self.skipped
    }
}

} // verus!
