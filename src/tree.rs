//! The walk over a file-system tree: which files a complete walk visits and
//! which directories it reports, when each listing the walker asks for is
//! answered with the listing of the directory it names.
use vstd::prelude::*;

use crate::walk::{
    accepts, delivered, extension_of, next, start, EntryView, ListingView, StepView, WalkState,
};

verus! {

/// A file-system tree as the walker meets it: a file with its path, or a
/// directory with its path and its entries, `None` when it cannot be read.
pub enum Node {
    File(Seq<char>),
    Dir(Seq<char>, Option<Seq<Node>>),
}

/// The listing entry of a node.
pub open spec fn entry_of(n: Node) -> EntryView {
    match n {
        Node::File(p) => EntryView { path: p, is_dir: false },
        Node::Dir(p, _) => EntryView { path: p, is_dir: true },
    }
}

/// The listing of a directory node: its entries, or a denial when it cannot be
/// read.
pub open spec fn listing_of(n: Node) -> ListingView {
    match n {
        Node::Dir(_, Some(cs)) => ListingView::Entries(cs.map_values(|c: Node| entry_of(c))),
        _ => ListingView::Denied,
    }
}

/// The files under a node that pass `filter`, in depth-first order, leaving out
/// everything under directories that cannot be read.
pub open spec fn found(n: Node, filter: Seq<char>) -> Seq<Seq<char>>
    decreases n,
{
    match n {
        Node::File(p) => if accepts(extension_of(p), filter) {
            seq![p]
        } else {
            Seq::empty()
        },
        Node::Dir(_, None) => Seq::empty(),
        Node::Dir(_, Some(cs)) => found_all(cs, filter),
    }
}

/// The files under a sequence of nodes that pass `filter`, in order.
pub open spec fn found_all(cs: Seq<Node>, filter: Seq<char>) -> Seq<Seq<char>>
    decreases cs,
{
    if cs.len() == 0 {
        Seq::empty()
    } else {
        found(cs[0], filter) + found_all(cs.subrange(1, cs.len() as int), filter)
    }
}

/// The files that pass `filter` under the nodes still to classify in each open
/// directory, innermost first.
pub open spec fn found_in_frames(frames: Seq<Seq<Node>>, filter: Seq<char>) -> Seq<Seq<char>>
    decreases frames.len(),
{
    if frames.len() == 0 {
        Seq::empty()
    } else {
        found_all(frames.last(), filter) + found_in_frames(frames.drop_last(), filter)
    }
}

/// The directories under a node, itself included, that cannot be read and lie
/// under no other such directory, in depth-first order.
pub open spec fn denied(n: Node) -> Seq<Seq<char>>
    decreases n,
{
    match n {
        Node::File(_) => Seq::empty(),
        Node::Dir(p, None) => seq![p],
        Node::Dir(_, Some(cs)) => denied_all(cs),
    }
}

/// The unreadable directories under a sequence of nodes, in order.
pub open spec fn denied_all(cs: Seq<Node>) -> Seq<Seq<char>>
    decreases cs,
{
    if cs.len() == 0 {
        Seq::empty()
    } else {
        denied(cs[0]) + denied_all(cs.subrange(1, cs.len() as int))
    }
}

/// The unreadable directories under the nodes still to classify in each open
/// directory, innermost first.
pub open spec fn denied_in_frames(frames: Seq<Seq<Node>>) -> Seq<Seq<char>>
    decreases frames.len(),
{
    if frames.len() == 0 {
        Seq::empty()
    } else {
        denied_all(frames.last()) + denied_in_frames(frames.drop_last())
    }
}

/// The rounds that a walk spends on a node after classifying it: none for a
/// file; for a directory, one to receive its listing and, when it can be read,
/// one to classify each entry, those spent on the entries, and one to close it.
pub open spec fn rounds(n: Node) -> nat
    decreases n,
{
    match n {
        Node::File(_) => 0,
        Node::Dir(_, None) => 1,
        Node::Dir(_, Some(cs)) => rounds_all(cs) + 2,
    }
}

/// The rounds that a walk spends classifying a sequence of nodes and on each.
pub open spec fn rounds_all(cs: Seq<Node>) -> nat
    decreases cs,
{
    if cs.len() == 0 {
        0
    } else {
        1 + rounds(cs[0]) + rounds_all(cs.subrange(1, cs.len() as int))
    }
}

/// The rounds that a walk spends on the rest of each open directory.
pub open spec fn rounds_in_frames(frames: Seq<Seq<Node>>) -> nat
    decreases frames.len(),
{
    if frames.len() == 0 {
        0
    } else {
        rounds_all(frames.last()) + 1 + rounds_in_frames(frames.drop_last())
    }
}

/// The nodes behind a walk in progress: the nodes still to classify in each
/// open directory (innermost last), and the directory whose listing is awaited.
pub struct Shadow {
    pub frames: Seq<Seq<Node>>,
    pub pending: Option<Node>,
}

/// The files that a walk over the nodes `sh` has yet to visit.
pub open spec fn still_found(sh: Shadow, filter: Seq<char>) -> Seq<Seq<char>> {
    let here = match sh.pending {
        Some(n) => found(n, filter),
        None => Seq::empty(),
    };
    here + found_in_frames(sh.frames, filter)
}

/// The walker's state `s` stands for the nodes `sh`: each entry is the entry of
/// its node, and the awaited listing is that of a directory node.
pub open spec fn tracks(s: WalkState, sh: Shadow) -> bool {
    &&& s.frames == sh.frames.map_values(|f: Seq<Node>| f.map_values(|c: Node| entry_of(c)))
    &&& match sh.pending {
        Some(n) => n is Dir && s.pending == Some(entry_of(n).path),
        None => s.pending is None,
    }
}

/// The nodes behind the walk after one round: the awaited directory's entries
/// opened, or else the next transition made.
pub open spec fn shadow_after(sh: Shadow) -> Shadow {
    match sh.pending {
        Some(n) => Shadow {
            frames: match n {
                Node::Dir(_, Some(cs)) => sh.frames.push(cs),
                _ => sh.frames,
            },
            pending: None,
        },
        None => if sh.frames.len() == 0 {
            sh
        } else if sh.frames.last().len() == 0 {
            Shadow { frames: sh.frames.drop_last(), pending: None }
        } else {
            let top = sh.frames.last();
            Shadow {
                frames: sh.frames.update(sh.frames.len() - 1, top.drop_first()),
                pending: if top[0] is Dir {
                    Some(top[0])
                } else {
                    None
                },
            }
        },
    }
}

/// The rounds left in a walk over the nodes `sh` before it is done.
pub open spec fn rounds_left(sh: Shadow) -> nat {
    let here = match sh.pending {
        Some(n) => rounds(n),
        None => 0,
    };
    here + rounds_in_frames(sh.frames)
}

/// The unreadable directories that a walk over the nodes `sh` has yet to
/// report.
pub open spec fn still_denied(sh: Shadow) -> Seq<Seq<char>> {
    let here = match sh.pending {
        Some(n) => denied(n),
        None => Seq::empty(),
    };
    here + denied_in_frames(sh.frames)
}

/// The path that a step hands to the visitor, if any.
pub open spec fn visited_by(step: StepView) -> Seq<Seq<char>> {
    match step {
        StepView::Visit(p) => seq![p],
        _ => Seq::empty(),
    }
}

/// A walk of the directory `root` starts out tracking it, with every file under
/// it that passes the filter still to be visited.
pub proof fn lemma_start_tracks(root: Node, filter: Seq<char>)
    requires
        root is Dir,
    ensures
        tracks(start(entry_of(root).path, true, filter), Shadow { frames: Seq::empty(), pending: Some(root) }),
        still_found(Shadow { frames: Seq::empty(), pending: Some(root) }, filter) == found(root, filter),
        still_denied(Shadow { frames: Seq::empty(), pending: Some(root) }) == denied(root),
{
    let sh = Shadow { frames: Seq::empty(), pending: Some(root) };
    assert(sh.frames.map_values(|f: Seq<Node>| f.map_values(|c: Node| entry_of(c))) =~= Seq::empty());
    assert(still_found(sh, filter) =~= found(root, filter));
    assert(still_denied(sh) =~= denied(root));
}

/// One round of a walk over a tree keeps the walker tracking the tree, where a
/// round answers an awaited listing with the listing of the directory it names,
/// and otherwise makes one transition. What the round visits, followed by what
/// is still to be visited after it, is what was to be visited before it; a
/// walk that is done has nothing left to visit; and each round that does not
/// end the walk spends one of the rounds left.
pub proof fn lemma_round_keeps_found(s: WalkState, sh: Shadow)
    requires
        tracks(s, sh),
    ensures
        s.pending is Some ==> {
            &&& tracks(delivered(s, listing_of(sh.pending->Some_0)), shadow_after(sh))
            &&& still_found(shadow_after(sh), s.filter) == still_found(sh, s.filter)
        },
        s.pending is None ==> {
            &&& tracks(next(s).0, shadow_after(sh))
            &&& still_found(sh, s.filter) == visited_by(next(s).1) + still_found(
                shadow_after(sh),
                s.filter,
            )
        },
        next(s).1 is Done ==> still_found(sh, s.filter) == Seq::<Seq<char>>::empty(),
        s.pending is Some || !(next(s).1 is Done) ==> rounds_left(shadow_after(sh)) + 1
            == rounds_left(sh),
        s.pending is Some ==> delivered(s, listing_of(sh.pending->Some_0)).skipped + still_denied(
            shadow_after(sh),
        ) == s.skipped + still_denied(sh),
        s.pending is None ==> next(s).0.skipped + still_denied(shadow_after(sh)) == s.skipped
            + still_denied(sh),
        next(s).1 is Done ==> still_denied(sh) == Seq::<Seq<char>>::empty(),
{
    let filter = s.filter;
    let sh2 = shadow_after(sh);
    if let Some(n) = sh.pending {
        if let Node::Dir(_, Some(cs)) = n {
            let s2 = delivered(s, listing_of(n));
            assert(s2.frames =~= sh2.frames.map_values(|f: Seq<Node>| f.map_values(|c: Node| entry_of(c))));
            assert(sh2.frames.drop_last() =~= sh.frames);
            assert(still_found(sh2, filter) =~= still_found(sh, filter));
            assert(still_denied(sh2) =~= still_denied(sh));
        } else {
            assert(still_found(sh2, filter) =~= still_found(sh, filter));
            assert(s.skipped + still_denied(sh) =~= s.skipped.push(entry_of(n).path)
                + still_denied(sh2));
        }
    } else if sh.frames.len() == 0 {
        assert(still_found(sh, filter) =~= Seq::empty());
        assert(still_denied(sh) =~= Seq::empty());
    } else {
        let top = sh.frames.last();
        if top.len() == 0 {
            assert(next(s).0.frames =~= sh2.frames.map_values(|f: Seq<Node>| f.map_values(|c: Node| entry_of(c))));
            assert(still_found(sh, filter) =~= still_found(sh2, filter));
            assert(still_denied(sh) =~= still_denied(sh2));
        } else {
            let c = top[0];
            assert(s.frames.last() == top.map_values(|c: Node| entry_of(c)));
            assert(next(s).0.frames =~= sh2.frames.map_values(|f: Seq<Node>| f.map_values(|c: Node| entry_of(c)))) by {
                assert(top.drop_first().map_values(|c: Node| entry_of(c)) =~= s.frames.last().drop_first());
            }
            assert(sh2.frames.drop_last() =~= sh.frames.drop_last());
            assert(sh2.frames.last() == top.drop_first());
            assert(found_all(top, filter) == found(c, filter) + found_all(top.drop_first(), filter));
            assert(rounds_all(top) == 1 + rounds(c) + rounds_all(top.drop_first()));
            assert(denied_all(top) == denied(c) + denied_all(top.drop_first()));
            assert(still_denied(sh) =~= still_denied(sh2));
            assert(still_found(sh, filter) =~= visited_by(next(s).1) + still_found(sh2, filter));
        }
    }
}

/// The paths visited in at most `fuel` rounds of a walk from state `s` over the
/// nodes `sh`, each awaited listing answered with the listing of the directory
/// it names; the walk stops when it is done.
pub open spec fn run(s: WalkState, sh: Shadow, fuel: nat) -> Seq<Seq<char>>
    decreases fuel,
{
    if fuel == 0 {
        Seq::empty()
    } else if s.pending is Some {
        run(delivered(s, listing_of(sh.pending->Some_0)), shadow_after(sh), (fuel - 1) as nat)
    } else if next(s).1 is Done {
        Seq::empty()
    } else {
        visited_by(next(s).1) + run(next(s).0, shadow_after(sh), (fuel - 1) as nat)
    }
}

/// The walker's state after at most `fuel` rounds of a walk from state `s`
/// over the nodes `sh`, as in `run`.
pub open spec fn finish(s: WalkState, sh: Shadow, fuel: nat) -> WalkState
    decreases fuel,
{
    if fuel == 0 {
        s
    } else if s.pending is Some {
        finish(delivered(s, listing_of(sh.pending->Some_0)), shadow_after(sh), (fuel - 1) as nat)
    } else if next(s).1 is Done {
        s
    } else {
        finish(next(s).0, shadow_after(sh), (fuel - 1) as nat)
    }
}

/// Given more rounds than are left, a walk that tracks the nodes `sh` visits
/// exactly the files still to be visited.
pub proof fn lemma_run_visits_still_found(s: WalkState, sh: Shadow, fuel: nat)
    requires
        tracks(s, sh),
        fuel > rounds_left(sh),
    ensures
        run(s, sh, fuel) == still_found(sh, s.filter),
        finish(s, sh, fuel).skipped == s.skipped + still_denied(sh),
    decreases fuel,
{
    lemma_round_keeps_found(s, sh);
    if s.pending is Some {
        let s2 = delivered(s, listing_of(sh.pending->Some_0));
        lemma_run_visits_still_found(s2, shadow_after(sh), (fuel - 1) as nat);
        assert(s2.skipped + still_denied(shadow_after(sh)) + Seq::empty() =~= s.skipped
            + still_denied(sh));
    } else if !(next(s).1 is Done) {
        lemma_run_visits_still_found(next(s).0, shadow_after(sh), (fuel - 1) as nat);
    } else {
        assert(s.skipped + still_denied(sh) =~= s.skipped);
    }
}

/// A walk of the directory `root`, each awaited listing answered with the
/// listing of the directory it names, visits exactly the files under `root`
/// that pass the filter: each once, in depth-first order, and none under a
/// directory that cannot be read. Once done, it has reported each directory
/// that cannot be read and lies under no other such directory, in depth-first
/// order.
pub proof fn lemma_complete_walk(root: Node, filter: Seq<char>)
    requires
        root is Dir,
    ensures
        run(
            start(entry_of(root).path, true, filter),
            Shadow { frames: Seq::empty(), pending: Some(root) },
            rounds(root) + 1,
        ) == found(root, filter),
        finish(
            start(entry_of(root).path, true, filter),
            Shadow { frames: Seq::empty(), pending: Some(root) },
            rounds(root) + 1,
        ).skipped == denied(root),
{
    lemma_start_tracks(root, filter);
    lemma_run_visits_still_found(
        start(entry_of(root).path, true, filter),
        Shadow { frames: Seq::empty(), pending: Some(root) },
        rounds(root) + 1,
    );
}

} // verus!
