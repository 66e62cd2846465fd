//! What the search for a control group finds in a tree of directories: the
//! first directory with the name, in the order of the walk.
//!
//! A tree is given by the entries of its root, each with the entries below
//! it. The search is run on it by handing it, whenever it wants the listing
//! of a directory, the entries of that directory in the tree.

use vstd::prelude::*;
use crate::cgroup::{
    advanced, not_found, path_join, walk, weight, EntryView, FrameView, ListingView, SearchView,
    Status,
};
use crate::error::ErrorView;

verus! {

/// An entry of a directory, with the entries below it if it is a directory.
pub struct Tree {
    pub name: Seq<char>,
    pub is_dir: bool,
    pub children: Seq<Tree>,
}

/// The listing of a directory that holds the entries `forest`.
pub open spec fn listing_of(forest: Seq<Tree>) -> Seq<EntryView> {
    forest.map_values(|t: Tree| EntryView { name: t.name, is_dir: t.is_dir })
}

/// The number of entries in `forest`, those below directories included.
pub open spec fn nodes(forest: Seq<Tree>) -> nat
    decreases forest,
{
    if forest.len() == 0 {
        0
    } else {
        (if forest[0].is_dir {
            nodes(forest[0].children)
        } else {
            0
        }) + 1 + nodes(forest.drop_first())
    }
}

/// The path of the first directory named `target` among the entries
/// `forest` of the directory `dir` and below them, if there is one. A
/// directory comes before the entries below it, and these before the
/// entries that follow the directory in its listing.
pub open spec fn first_match(forest: Seq<Tree>, dir: Seq<char>, target: Seq<char>) -> Option<
    Seq<char>,
>
    decreases forest,
{
    if forest.len() == 0 {
        None
    } else {
        let here = path_join(dir, forest[0].name);
        let inside = if !forest[0].is_dir {
            None
        } else if forest[0].name == target {
            Some(here)
        } else {
            first_match(forest[0].children, here, target)
        };
        match inside {
            Some(path) => Some(path),
            None => first_match(forest.drop_first(), dir, target),
        }
    }
}

/// The paths of all directories named `target` among the entries `forest`
/// of the directory `dir` and below them, in the order of the walk.
pub open spec fn all_named(forest: Seq<Tree>, dir: Seq<char>, target: Seq<char>) -> Seq<
    Seq<char>,
>
    decreases forest,
{
    if forest.len() == 0 {
        Seq::empty()
    } else {
        let here = path_join(dir, forest[0].name);
        let this = if forest[0].is_dir && forest[0].name == target {
            seq![here]
        } else {
            Seq::empty()
        };
        let inside = if forest[0].is_dir {
            all_named(forest[0].children, here, target)
        } else {
            Seq::empty()
        };
        this + inside + all_named(forest.drop_first(), dir, target)
    }
}

/// The first match is the first of all directories with the name.
pub proof fn lemma_first_of_all(forest: Seq<Tree>, dir: Seq<char>, target: Seq<char>)
    ensures
        first_match(forest, dir, target) == if all_named(forest, dir, target).len() > 0 {
            Some(all_named(forest, dir, target)[0])
        } else {
            None
        },
    decreases forest,
{
    if forest.len() > 0 {
        let here = path_join(dir, forest[0].name);
        if forest[0].is_dir {
            lemma_first_of_all(forest[0].children, here, target);
        }
        lemma_first_of_all(forest.drop_first(), dir, target);
    }
}

/// A directory that a walk has entered: its path, and the entries of it that
/// the walk has not taken yet.
pub struct Pending {
    pub dir: Seq<char>,
    pub forest: Seq<Tree>,
}

/// The number of entries that a walk with `rest` before it can still take.
pub open spec fn nodes_pending(rest: Seq<Pending>) -> nat
    decreases rest.len(),
{
    if rest.len() == 0 {
        0
    } else {
        nodes_pending(rest.drop_last()) + nodes(rest.last().forest)
    }
}

/// The first match that a walk with `rest` before it comes to: in what is
/// left of the innermost directory, or else of the one around it, and so on.
pub open spec fn first_pending(rest: Seq<Pending>, target: Seq<char>) -> Option<Seq<char>>
    decreases rest.len(),
{
    if rest.len() == 0 {
        None
    } else {
        match first_match(rest.last().forest, rest.last().dir, target) {
            Some(path) => Some(path),
            None => first_pending(rest.drop_last(), target),
        }
    }
}

/// Where a walk over a tree comes to next.
pub enum Heading {
    /// To the directory with the name, at this path.
    Found(Seq<char>),
    /// Into the directory at this path, which holds these entries.
    Into(Seq<char>, Seq<Tree>),
    /// To the end of the tree.
    Nowhere,
}

/// The number of steps that a walk with `rest` before it takes at most until
/// it enters a directory or ends.
pub open spec fn steps(rest: Seq<Pending>) -> nat
    decreases rest.len(),
{
    if rest.len() == 0 {
        0
    } else {
        steps(rest.drop_last()) + rest.last().forest.len() + 1
    }
}

/// `rest` with the first entry of what is left of the innermost directory
/// taken.
pub open spec fn taken(rest: Seq<Pending>) -> Seq<Pending> {
    rest.drop_last().push(
        Pending { dir: rest.last().dir, forest: rest.last().forest.drop_first() },
    )
}

/// Walks on over the tree, from `rest`, to the next directory: what is then
/// left, and where the walk has come.
pub open spec fn head_on(rest: Seq<Pending>, target: Seq<char>) -> (Seq<Pending>, Heading)
    decreases steps(rest),
{
    if rest.len() == 0 {
        (rest, Heading::Nowhere)
    } else if rest.last().forest.len() == 0 {
        head_on(rest.drop_last(), target)
    } else {
        let entry = rest.last().forest[0];
        let here = path_join(rest.last().dir, entry.name);
        proof {
            assert(taken(rest).drop_last() == rest.drop_last());
        }
        if !entry.is_dir {
            head_on(taken(rest), target)
        } else if entry.name == target {
            (taken(rest), Heading::Found(here))
        } else {
            (taken(rest), Heading::Into(here, entry.children))
        }
    }
}

/// The search in state `s`, which wants the listing of the directory `dir`,
/// run on a tree in which `dir` holds the entries `forest` and `rest` is
/// what the walk has before it in the directories around `dir`: the state in
/// which the search ends, or in which it stands after `fuel` listings.
pub open spec fn search_from(
    s: SearchView,
    rest: Seq<Pending>,
    dir: Seq<char>,
    forest: Seq<Tree>,
    fuel: nat,
) -> SearchView
    decreases fuel,
{
    if fuel == 0 {
        s
    } else {
        let listed = s.listed(ListingView { entries: listing_of(forest), failure: None });
        let (left, heading) = head_on(rest.push(Pending { dir, forest }), s.target);
        match heading {
            Heading::Into(path, children) => search_from(
                listed,
                left,
                path,
                children,
                (fuel - 1) as nat,
            ),
            _ => listed,
        }
    }
}

/// The search for a directory named `target`, run on the tree whose root
/// `root` holds the entries `forest`, with at most `fuel` listings.
pub open spec fn search_tree(root: Seq<char>, forest: Seq<Tree>, target: Seq<char>, fuel: nat)
    -> SearchView {
    search_from(SearchView::start(root, target), Seq::empty(), root, forest, fuel)
}

/// What a search answers that went through a tree in which `found` is the
/// first match.
pub open spec fn answer(found: Option<Seq<char>>) -> Option<Result<Seq<char>, ErrorView>> {
    match found {
        Some(path) => Some(Ok(path)),
        None => Some(Err(not_found())),
    }
}

/// Whether the directories `frames` that a search has entered are those of
/// which `rest` is left.
pub open spec fn consistent(frames: Seq<FrameView>, rest: Seq<Pending>) -> bool {
    &&& frames.len() == rest.len()
    &&& forall|k: int|
        0 <= k < frames.len() ==> {
            &&& (#[trigger] frames[k]).dir == rest[k].dir
            &&& frames[k].next <= frames[k].entries.len()
            &&& frames[k].entries.skip(frames[k].next as int) == listing_of(rest[k].forest)
        }
}

/// Whether the search stands where the walk over the tree has come.
pub open spec fn agrees(status: Status, heading: Heading, complete: bool) -> bool {
    match heading {
        Heading::Found(path) => status == Status::Found(path),
        Heading::Into(path, _) => status == Status::Awaiting(path),
        Heading::Nowhere => status == if complete {
            Status::NotFound
        } else {
            Status::Failed
        },
    }
}

/// The search walks as the walk over the tree does: from directories of
/// which the same is left, both come to the same place.
pub proof fn lemma_walks_agree(
    frames: Seq<FrameView>,
    rest: Seq<Pending>,
    target: Seq<char>,
    complete: bool,
)
    requires
        consistent(frames, rest),
    ensures
        consistent(walk(frames, target, complete).0, head_on(rest, target).0),
        agrees(walk(frames, target, complete).1, head_on(rest, target).1, complete),
    decreases weight(frames),
{
    if frames.len() > 0 {
        let top = frames.last();
        let left = rest.last();
        assert(top == frames[frames.len() - 1]);
        assert(top.entries.skip(top.next as int) == listing_of(left.forest));
        assert(listing_of(left.forest).len() == left.forest.len());
        if top.next >= top.entries.len() {
            assert(top.entries.skip(top.next as int).len() == 0);
            assert(consistent(frames.drop_last(), rest.drop_last())) by {
                assert forall|k: int| 0 <= k < frames.drop_last().len() implies {
                    &&& (#[trigger] frames.drop_last()[k]).dir == rest.drop_last()[k].dir
                    &&& frames.drop_last()[k].next <= frames.drop_last()[k].entries.len()
                    &&& frames.drop_last()[k].entries.skip(frames.drop_last()[k].next as int)
                        == listing_of(rest.drop_last()[k].forest)
                } by {
                    assert(frames.drop_last()[k] == frames[k]);
                }
            }
            lemma_walks_agree(frames.drop_last(), rest.drop_last(), target, complete);
        } else {
            assert(top.entries.skip(top.next as int).len() > 0);
            let entry = top.entries[top.next as int];
            assert(entry == top.entries.skip(top.next as int)[0]);
            assert(entry == listing_of(left.forest)[0]);
            assert(entry.name == left.forest[0].name && entry.is_dir == left.forest[0].is_dir);
            assert(advanced(frames).drop_last() == frames.drop_last());
            assert(taken(rest).drop_last() == rest.drop_last());
            assert(consistent(advanced(frames), taken(rest))) by {
                assert forall|k: int| 0 <= k < advanced(frames).len() implies {
                    &&& (#[trigger] advanced(frames)[k]).dir == taken(rest)[k].dir
                    &&& advanced(frames)[k].next <= advanced(frames)[k].entries.len()
                    &&& advanced(frames)[k].entries.skip(advanced(frames)[k].next as int)
                        == listing_of(taken(rest)[k].forest)
                } by {
                    if k < frames.len() - 1 {
                        assert(advanced(frames)[k] == frames[k]);
                        assert(taken(rest)[k] == rest[k]);
                    } else {
                        assert(top.entries.skip(top.next as int + 1) =~= top.entries.skip(
                            top.next as int,
                        ).drop_first());
                        assert(listing_of(left.forest).drop_first() =~= listing_of(
                            left.forest.drop_first(),
                        ));
                    }
                }
            }
            if !entry.is_dir {
                lemma_walks_agree(advanced(frames), taken(rest), target, complete);
            }
        }
    }
}

/// Where the walk over the tree comes to is where the first match lies: it
/// is found at once, or it is the first match of what is left with the
/// entered directory before it, or there is none. Entering a directory
/// leaves less to walk.
pub proof fn lemma_heading(rest: Seq<Pending>, target: Seq<char>)
    ensures
        match head_on(rest, target).1 {
            Heading::Found(path) => first_pending(rest, target) == Some(path),
            Heading::Into(path, children) => {
                &&& first_pending(rest, target) == first_pending(
                    head_on(rest, target).0.push(Pending { dir: path, forest: children }),
                    target,
                )
                &&& nodes_pending(head_on(rest, target).0) + nodes(children) < nodes_pending(rest)
            },
            Heading::Nowhere => first_pending(rest, target) is None,
        },
        nodes_pending(head_on(rest, target).0) <= nodes_pending(rest),
    decreases steps(rest),
{
    if rest.len() == 0 {
    } else if rest.last().forest.len() == 0 {
        lemma_heading(rest.drop_last(), target);
    } else {
        let entry = rest.last().forest[0];
        let here = path_join(rest.last().dir, entry.name);
        let next = taken(rest);
        assert(next.drop_last() == rest.drop_last());
        assert(next.last().forest == rest.last().forest.drop_first());
        if !entry.is_dir {
            lemma_heading(next, target);
        } else if entry.name == target {
        } else {
            let entered = next.push(Pending { dir: here, forest: entry.children });
            assert(entered.drop_last() == next);
            assert(entered.last().forest == entry.children);
        }
    }
}

/// The search that stands before a directory ends with the first match of
/// that directory and of what is left around it.
pub proof fn lemma_search_from(
    s: SearchView,
    rest: Seq<Pending>,
    dir: Seq<char>,
    forest: Seq<Tree>,
    fuel: nat,
)
    requires
        consistent(s.frames, rest),
        s.status == Status::Awaiting(dir),
        s.root_failure is None,
        fuel > nodes_pending(rest) + nodes(forest),
    ensures
        search_from(s, rest, dir, forest, fuel).outcome() == answer(
            first_pending(rest.push(Pending { dir, forest }), s.target),
        ),
    decreases fuel,
{
    let listed = s.listed(ListingView { entries: listing_of(forest), failure: None });
    let entered = s.frames.push(FrameView { dir, entries: listing_of(forest), next: 0 });
    let before = rest.push(Pending { dir, forest });
    assert(before.drop_last() == rest);
    assert(consistent(entered, before)) by {
        assert forall|k: int| 0 <= k < entered.len() implies {
            &&& (#[trigger] entered[k]).dir == before[k].dir
            &&& entered[k].next <= entered[k].entries.len()
            &&& entered[k].entries.skip(entered[k].next as int) == listing_of(before[k].forest)
        } by {
            if k < s.frames.len() {
                assert(entered[k] == s.frames[k]);
                assert(before[k] == rest[k]);
            } else {
                assert(listing_of(forest).skip(0) =~= listing_of(forest));
            }
        }
    }
    lemma_walks_agree(entered, before, s.target, true);
    lemma_heading(before, s.target);
    let (left, heading) = head_on(before, s.target);
    match heading {
        Heading::Into(path, children) => {
            lemma_search_from(listed, left, path, children, (fuel - 1) as nat);
        },
        _ => {},
    }
}

/// The search finds the first match. Run on a tree, with a listing for each
/// of the directories of the tree at least, the search ends with the path
/// of the first directory that has the name, in the order of the walk, and
/// with `NotFound` where no directory has it.
pub proof fn law_search_finds_first_match(
    root: Seq<char>,
    forest: Seq<Tree>,
    target: Seq<char>,
    fuel: nat,
)
    requires
        fuel > nodes(forest),
    ensures
        search_tree(root, forest, target, fuel).outcome() == answer(
            first_match(forest, root, target),
        ),
{
    let s = SearchView::start(root, target);
    assert(nodes_pending(Seq::<Pending>::empty()) == 0);
    lemma_search_from(s, Seq::empty(), root, forest, fuel);
    let only = Seq::<Pending>::empty().push(Pending { dir: root, forest });
    assert(only.drop_last() == Seq::<Pending>::empty());
    assert(first_pending(only.drop_last(), target) is None);
}

/// The search finds the directory that alone has the name. Run on a tree
/// that holds exactly one directory named `target`, anywhere below the
/// root, the search ends with the path of that directory; run on a tree
/// that holds none, it ends with `NotFound`.
pub proof fn law_search_finds_the_only_match(
    root: Seq<char>,
    forest: Seq<Tree>,
    target: Seq<char>,
    fuel: nat,
)
    requires
        fuel > nodes(forest),
        all_named(forest, root, target).len() <= 1,
    ensures
        search_tree(root, forest, target, fuel).outcome() == if all_named(
            forest,
            root,
            target,
        ).len() == 1 {
            Some(Ok::<Seq<char>, ErrorView>(all_named(forest, root, target)[0]))
        } else {
            Some(Err::<Seq<char>, ErrorView>(not_found()))
        },
{
    law_search_finds_first_match(root, forest, target, fuel);
    lemma_first_of_all(forest, root, target);
}

} // verus!
