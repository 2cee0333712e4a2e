//! What the directory loader makes of a tree of directories.
//!
//! A tree is described by what lies behind each entry of a listing: a file
//! with the outcome of decoding it, or a directory with the outcome of
//! listing it and, again, what lies behind each of its entries. The laws of
//! this module say what a directory walk finds when its caller answers from
//! such a tree, and what the loader then returns.

use vstd::prelude::*;
use crate::assets::asset::Asset;
use crate::assets::directory_loader::{distinct_uuids, lemma_merged_distinct, merged};
use crate::assets::directory_walk::{
    is_asset_file_name,
    settled,
    started,
    stepped,
    DirEntry,
    Listing,
    WalkEvent,
    WalkModel,
    WalkRequest,
};
use crate::assets::io_failure::IoFailure;

verus! {

/// What lies behind one entry of a listing.
pub enum Node<T> {
    /// A file, and the outcome of reading and decoding it.
    File { content: Result<T, IoFailure> },
    /// A directory, the outcome of listing it, and what lies behind each of
    /// its entries.
    Dir { listing: Listing, children: Seq<Node<T>> },
}

/// The nodes describe the entries, to a depth of at most `depth`
/// directories: there is one node for each entry, behind an entry that is a
/// directory lies a directory, whose children describe its listing, and
/// behind a file with the asset extension lies a file.
pub open spec fn describes<T>(
    depth: nat,
    entries: Seq<Result<DirEntry, IoFailure>>,
    nodes: Seq<Node<T>>,
) -> bool
    decreases depth, entries.len(),
{
    if entries.len() == 0 {
        nodes.len() == 0
    } else {
        &&& nodes.len() == entries.len()
        &&& describes(depth, entries.drop_first(), nodes.drop_first())
        &&& match entries[0] {
            Err(_) => true,
            Ok(entry) => if entry.is_dir {
                match nodes[0] {
                    Node::Dir { listing: Ok(listed), children } => depth > 0 && describes(
                        (depth - 1) as nat,
                        listed@,
                        children,
                    ),
                    Node::Dir { listing: Err(_), .. } => true,
                    Node::File { .. } => false,
                }
            } else if is_asset_file_name(entry.file_name@) {
                nodes[0] is File
            } else {
                true
            },
        }
    }
}

/// What the caller of a walk hands back, in order, while the walk visits
/// the entries and all that lies below them.
pub open spec fn answers<T>(
    depth: nat,
    entries: Seq<Result<DirEntry, IoFailure>>,
    nodes: Seq<Node<T>>,
) -> Seq<WalkEvent<T>>
    decreases depth, entries.len(),
{
    if entries.len() == 0 || nodes.len() == 0 {
        Seq::empty()
    } else {
        let after = answers(depth, entries.drop_first(), nodes.drop_first());
        match entries[0] {
            Err(_) => after,
            Ok(entry) => if entry.is_dir {
                match nodes[0] {
                    Node::Dir { listing: Ok(listed), children } => if depth > 0 {
                        seq![WalkEvent::Listing(Ok(listed))] + answers(
                            (depth - 1) as nat,
                            listed@,
                            children,
                        ) + after
                    } else {
                        after
                    },
                    Node::Dir { listing: Err(failure), .. } => seq![
                        WalkEvent::Listing(Err(failure)),
                    ] + after,
                    Node::File { .. } => after,
                }
            } else if is_asset_file_name(entry.file_name@) {
                match nodes[0] {
                    Node::File { content } => seq![WalkEvent::Decoded(content)] + after,
                    Node::Dir { .. } => after,
                }
            } else {
                after
            },
        }
    }
}

/// What the directory loader is to find below the entries: the asset of
/// every file with the asset extension, in the order of the listings, a
/// directory's files before the entry after it; or the first failure on the
/// way.
pub open spec fn assets_below<T>(
    depth: nat,
    entries: Seq<Result<DirEntry, IoFailure>>,
    nodes: Seq<Node<T>>,
) -> Result<Seq<T>, IoFailure>
    decreases depth, entries.len(),
{
    if entries.len() == 0 || nodes.len() == 0 {
        Ok(Seq::empty())
    } else {
        let after = assets_below(depth, entries.drop_first(), nodes.drop_first());
        match entries[0] {
            Err(failure) => Err(failure),
            Ok(entry) => if entry.is_dir {
                match nodes[0] {
                    Node::Dir { listing: Ok(listed), children } => if depth > 0 {
                        match assets_below((depth - 1) as nat, listed@, children) {
                            Err(failure) => Err(failure),
                            Ok(inner) => match after {
                                Err(failure) => Err(failure),
                                Ok(outer) => Ok(inner + outer),
                            },
                        }
                    } else {
                        after
                    },
                    Node::Dir { listing: Err(failure), .. } => Err(failure),
                    Node::File { .. } => after,
                }
            } else if is_asset_file_name(entry.file_name@) {
                match nodes[0] {
                    Node::File { content: Ok(asset) } => match after {
                        Err(failure) => Err(failure),
                        Ok(outer) => Ok(seq![asset] + outer),
                    },
                    Node::File { content: Err(failure) } => Err(failure),
                    Node::Dir { .. } => after,
                }
            } else {
                after
            },
        }
    }
}

/// The number of files with the asset extension below the entries.
pub open spec fn asset_files<T>(
    depth: nat,
    entries: Seq<Result<DirEntry, IoFailure>>,
    nodes: Seq<Node<T>>,
) -> nat
    decreases depth, entries.len(),
{
    if entries.len() == 0 || nodes.len() == 0 {
        0
    } else {
        let after = asset_files(depth, entries.drop_first(), nodes.drop_first());
        match entries[0] {
            Err(_) => after,
            Ok(entry) => if entry.is_dir {
                match nodes[0] {
                    Node::Dir { listing: Ok(listed), children } => if depth > 0 {
                        asset_files((depth - 1) as nat, listed@, children) + after
                    } else {
                        after
                    },
                    _ => after,
                }
            } else if is_asset_file_name(entry.file_name@) {
                1 + after
            } else {
                after
            },
        }
    }
}

/// The walk after a sequence of events.
pub open spec fn walk_ran<T>(walk: WalkModel<T>, events: Seq<WalkEvent<T>>) -> WalkModel<T>
    decreases events.len(),
{
    if events.len() == 0 {
        walk
    } else {
        walk_ran(stepped(walk, events[0]), events.drop_first())
    }
}

/// A walk that has nothing to ask for, with the given entries pending and
/// the given assets found.
pub open spec fn resting<T>(pending: Seq<Result<DirEntry, IoFailure>>, found: Seq<T>) -> WalkModel<
    T,
> {
    WalkModel { pending, found, request: WalkRequest::Finished, failure: None }
}

/// What a walk settles into does not depend on what it waited for before.
pub proof fn lemma_settled_whatever_request<T>(walk: WalkModel<T>, request: WalkRequest)
    ensures
        settled(WalkModel { request, ..walk }) == settled(walk),
    decreases walk.pending.len(),
{
    if walk.pending.len() > 0 {
        let rest = WalkModel { pending: walk.pending.drop_first(), ..walk };
        lemma_settled_whatever_request(rest, request);
    }
}

/// A walk that has ended takes no event in.
pub proof fn lemma_ended_walk_stays<T>(walk: WalkModel<T>, events: Seq<WalkEvent<T>>)
    requires
        walk.request is Finished,
    ensures
        walk_ran(walk, events) == walk,
    decreases events.len(),
{
    if events.len() > 0 {
        lemma_ended_walk_stays(walk, events.drop_first());
    }
}

/// Running through one event is taking that event in.
pub proof fn lemma_walk_ran_one<T>(walk: WalkModel<T>, event: WalkEvent<T>)
    ensures
        walk_ran(walk, seq![event]) == stepped(walk, event),
{
    let events = seq![event];
    assert(events.len() == 1);
    assert(events[0] == event);
    assert(events.drop_first().len() == 0);
    assert(walk_ran(stepped(walk, event), events.drop_first()) == stepped(walk, event));
}

/// Running through two sequences of events, one after the other, is running
/// through both.
pub proof fn lemma_walk_ran_on<T>(
    walk: WalkModel<T>,
    first: Seq<WalkEvent<T>>,
    second: Seq<WalkEvent<T>>,
)
    ensures
        walk_ran(walk, first + second) == walk_ran(walk_ran(walk, first), second),
    decreases first.len(),
{
    if first.len() == 0 {
        assert(first + second =~= second);
    } else {
        assert((first + second)[0] == first[0]);
        assert((first + second).drop_first() =~= first.drop_first() + second);
        lemma_walk_ran_on(stepped(walk, first[0]), first.drop_first(), second);
    }
}

/// The walk through a part of a tree: a walk that has settled before
/// entries which the nodes describe, and is answered from the nodes, comes
/// to settle before what was pending behind those entries, with the assets
/// below the entries added to those it had found; or it has ended with the
/// first failure below the entries.
pub proof fn lemma_walk_through<T>(
    depth: nat,
    entries: Seq<Result<DirEntry, IoFailure>>,
    nodes: Seq<Node<T>>,
    behind: Seq<Result<DirEntry, IoFailure>>,
    found: Seq<T>,
)
    requires
        describes(depth, entries, nodes),
    ensures
        ({
            let end = walk_ran(
                settled(resting(entries + behind, found)),
                answers(depth, entries, nodes),
            );
            match assets_below(depth, entries, nodes) {
                Ok(below) => end == settled(resting(behind, found + below)),
                Err(failure) => end.request is Finished && end.failure == Some(failure),
            }
        }),
    decreases depth, entries.len(),
{
    let begun = settled(resting(entries + behind, found));
    let events = answers(depth, entries, nodes);
    if entries.len() == 0 {
        assert(entries + behind =~= behind);
        assert(found + Seq::<T>::empty() =~= found);
    } else {
        let rest = entries.drop_first();
        let rest_nodes = nodes.drop_first();
        let after = answers(depth, rest, rest_nodes);
        assert((entries + behind)[0] == entries[0]);
        assert((entries + behind).drop_first() =~= rest + behind);
        match entries[0] {
            Err(failure) => {
                lemma_ended_walk_stays(begun, events);
            },
            Ok(entry) => {
                if entry.is_dir {
                    match nodes[0] {
                        Node::Dir { listing: Ok(listed), children } => {
                            let inner = answers((depth - 1) as nat, listed@, children);
                            let listing = seq![WalkEvent::<T>::Listing(Ok(listed))];
                            assert(events == listing + inner + after);
                            assert(events =~= listing + (inner + after));
                            lemma_walk_ran_on(begun, listing, inner + after);
                            lemma_walk_ran_one(begun, WalkEvent::<T>::Listing(Ok(listed)));
                            let entered = stepped(begun, listing[0]);
                            assert(walk_ran(begun, listing) == entered);
                            lemma_settled_whatever_request(
                                resting(listed@ + (rest + behind), found),
                                begun.request,
                            );
                            assert(entered == settled(
                                resting(listed@ + (rest + behind), found),
                            ));
                            lemma_walk_ran_on(entered, inner, after);
                            lemma_walk_through(
                                (depth - 1) as nat,
                                listed@,
                                children,
                                rest + behind,
                                found,
                            );
                            let left = walk_ran(entered, inner);
                            match assets_below((depth - 1) as nat, listed@, children) {
                                Err(failure) => {
                                    lemma_ended_walk_stays(left, after);
                                },
                                Ok(first) => {
                                    lemma_walk_through(
                                        depth,
                                        rest,
                                        rest_nodes,
                                        behind,
                                        found + first,
                                    );
                                    match assets_below(depth, rest, rest_nodes) {
                                        Ok(second) => {
                                            assert((found + first) + second =~= found + (first
                                                + second));
                                        },
                                        Err(_) => {},
                                    }
                                },
                            }
                        },
                        Node::Dir { listing: Err(failure), .. } => {
                            let listing = seq![WalkEvent::<T>::Listing(Err(failure))];
                            assert(events == listing + after);
                            lemma_walk_ran_on(begun, listing, after);
                            lemma_walk_ran_one(begun, WalkEvent::<T>::Listing(Err(failure)));
                            let ended = stepped(begun, listing[0]);
                            assert(walk_ran(begun, listing) == ended);
                            lemma_ended_walk_stays(ended, after);
                        },
                        Node::File { .. } => {},
                    }
                } else if is_asset_file_name(entry.file_name@) {
                    match nodes[0] {
                        Node::File { content } => {
                            let decoded = seq![WalkEvent::<T>::Decoded(content)];
                            assert(events == decoded + after);
                            lemma_walk_ran_on(begun, decoded, after);
                            lemma_walk_ran_one(begun, WalkEvent::<T>::Decoded(content));
                            let taken = stepped(begun, decoded[0]);
                            assert(walk_ran(begun, decoded) == taken);
                            match content {
                                Ok(asset) => {
                                    assert(found.push(asset) =~= found + seq![asset]);
                                    lemma_settled_whatever_request(
                                        resting(rest + behind, found + seq![asset]),
                                        begun.request,
                                    );
                                    lemma_walk_through(
                                        depth,
                                        rest,
                                        rest_nodes,
                                        behind,
                                        found + seq![asset],
                                    );
                                    match assets_below(depth, rest, rest_nodes) {
                                        Ok(second) => {
                                            assert((found + seq![asset]) + second =~= found + (
                                            seq![asset] + second));
                                        },
                                        Err(_) => {},
                                    }
                                },
                                Err(failure) => {
                                    lemma_ended_walk_stays(taken, after);
                                },
                            }
                        },
                        Node::Dir { .. } => {},
                    }
                } else {
                    lemma_walk_through(depth, rest, rest_nodes, behind, found);
                }
            },
        }
    }
}

/// The events fit the walk: each one comes while the walk waits for
/// something, or after the walk has failed, when it takes nothing more in.
pub open spec fn tight<T>(walk: WalkModel<T>, events: Seq<WalkEvent<T>>) -> bool
    decreases events.len(),
{
    ||| events.len() == 0
    ||| walk.request is Finished && walk.failure is Some
    ||| !(walk.request is Finished) && tight(stepped(walk, events[0]), events.drop_first())
}

/// Events that fit a walk, followed by events that fit the walk they leave,
/// fit the walk.
pub proof fn lemma_tight_on<T>(
    walk: WalkModel<T>,
    first: Seq<WalkEvent<T>>,
    second: Seq<WalkEvent<T>>,
)
    requires
        tight(walk, first),
        tight(walk_ran(walk, first), second),
    ensures
        tight(walk, first + second),
    decreases first.len(),
{
    if first.len() == 0 {
        assert(first + second =~= second);
    } else if walk.request is Finished && walk.failure is Some {
    } else {
        assert((first + second)[0] == first[0]);
        assert((first + second).drop_first() =~= first.drop_first() + second);
        lemma_tight_on(stepped(walk, first[0]), first.drop_first(), second);
    }
}

/// The answers from a tree fit the walk that they are given to: the walk
/// asks for each of them, up to its first failure.
pub proof fn lemma_answers_tight<T>(
    depth: nat,
    entries: Seq<Result<DirEntry, IoFailure>>,
    nodes: Seq<Node<T>>,
    behind: Seq<Result<DirEntry, IoFailure>>,
    found: Seq<T>,
)
    requires
        describes(depth, entries, nodes),
    ensures
        tight(settled(resting(entries + behind, found)), answers(depth, entries, nodes)),
    decreases depth, entries.len(),
{
    let begun = settled(resting(entries + behind, found));
    let events = answers(depth, entries, nodes);
    if entries.len() > 0 {
        let rest = entries.drop_first();
        let rest_nodes = nodes.drop_first();
        let after = answers(depth, rest, rest_nodes);
        assert((entries + behind)[0] == entries[0]);
        assert((entries + behind).drop_first() =~= rest + behind);
        match entries[0] {
            Err(failure) => {
                assert(tight(begun, events));
            },
            Ok(entry) => {
                if entry.is_dir {
                    match nodes[0] {
                        Node::Dir { listing: Ok(listed), children } => {
                            let inner = answers((depth - 1) as nat, listed@, children);
                            let listing = seq![WalkEvent::<T>::Listing(Ok(listed))];
                            assert(events =~= listing + (inner + after));
                            assert((listing + (inner + after)).drop_first() =~= inner + after);
                            let entered = stepped(begun, listing[0]);
                            lemma_settled_whatever_request(
                                resting(listed@ + (rest + behind), found),
                                begun.request,
                            );
                            lemma_answers_tight(
                                (depth - 1) as nat,
                                listed@,
                                children,
                                rest + behind,
                                found,
                            );
                            lemma_walk_through(
                                (depth - 1) as nat,
                                listed@,
                                children,
                                rest + behind,
                                found,
                            );
                            match assets_below((depth - 1) as nat, listed@, children) {
                                Err(_) => {},
                                Ok(first) => {
                                    lemma_answers_tight(
                                        depth,
                                        rest,
                                        rest_nodes,
                                        behind,
                                        found + first,
                                    );
                                },
                            }
                            lemma_tight_on(entered, inner, after);
                            assert(tight(entered, inner + after));
                            assert(events[0] == listing[0]);
                            assert(events.drop_first() =~= inner + after);
                            assert(tight(begun, events));
                        },
                        Node::Dir { listing: Err(failure), .. } => {
                            let listing = seq![WalkEvent::<T>::Listing(Err(failure))];
                            assert(events =~= listing + after);
                            assert(events[0] == listing[0]);
                            assert(events.drop_first() =~= after);
                            assert(tight(stepped(begun, events[0]), after));
                            assert(tight(begun, events));
                        },
                        Node::File { .. } => {},
                    }
                } else if is_asset_file_name(entry.file_name@) {
                    match nodes[0] {
                        Node::File { content } => {
                            let decoded = seq![WalkEvent::<T>::Decoded(content)];
                            assert(events =~= decoded + after);
                            assert(events[0] == decoded[0]);
                            assert(events.drop_first() =~= after);
                            match content {
                                Ok(asset) => {
                                    assert(found.push(asset) =~= found + seq![asset]);
                                    lemma_settled_whatever_request(
                                        resting(rest + behind, found + seq![asset]),
                                        begun.request,
                                    );
                                    lemma_answers_tight(
                                        depth,
                                        rest,
                                        rest_nodes,
                                        behind,
                                        found + seq![asset],
                                    );
                                },
                                Err(failure) => {},
                            }
                            assert(tight(stepped(begun, events[0]), after));
                            assert(tight(begun, events));
                        },
                        Node::Dir { .. } => {},
                    }
                } else {
                    lemma_answers_tight(depth, rest, rest_nodes, behind, found);
                    assert(tight(begun, events));
                }
            },
        }
    }
}

/// Where nothing fails, the loader finds one asset for each file with the
/// asset extension.
pub proof fn lemma_one_asset_per_file<T>(
    depth: nat,
    entries: Seq<Result<DirEntry, IoFailure>>,
    nodes: Seq<Node<T>>,
)
    requires
        describes(depth, entries, nodes),
        assets_below(depth, entries, nodes) is Ok,
    ensures
        assets_below(depth, entries, nodes)->Ok_0.len() == asset_files(depth, entries, nodes),
    decreases depth, entries.len(),
{
    if entries.len() > 0 {
        let rest = entries.drop_first();
        let rest_nodes = nodes.drop_first();
        match entries[0] {
            Err(_) => {},
            Ok(entry) => {
                if entry.is_dir {
                    match nodes[0] {
                        Node::Dir { listing: Ok(listed), children } => {
                            lemma_one_asset_per_file((depth - 1) as nat, listed@, children);
                            lemma_one_asset_per_file(depth, rest, rest_nodes);
                        },
                        _ => {},
                    }
                } else {
                    lemma_one_asset_per_file(depth, rest, rest_nodes);
                }
            },
        }
    }
}

/// What the loader returns for a root directory whose listing and tree are
/// given: the collection of the assets below it, or the first failure.
pub open spec fn loaded<T: Asset>(depth: nat, listing: Listing, nodes: Seq<Node<T>>) -> Result<
    Map<u128, T>,
    IoFailure,
> {
    match listing {
        Err(failure) => Err(failure),
        Ok(listed) => match assets_below(depth, listed@, nodes) {
            Err(failure) => Err(failure),
            Ok(below) => Ok(merged(Map::empty(), below)),
        },
    }
}

/// The events of a whole load: the listing of the root directory, then the
/// answers from the tree below it.
pub open spec fn load_events<T>(depth: nat, listing: Listing, nodes: Seq<Node<T>>) -> Seq<
    WalkEvent<T>,
> {
    match listing {
        Err(_) => seq![WalkEvent::Listing(listing)],
        Ok(listed) => seq![WalkEvent::Listing(listing)] + answers(depth, listed@, nodes),
    }
}

/// The directory loader on a tree: a walk that begins at a root directory
/// and is answered from the tree below it ends, and its assets, gathered
/// into a collection, are what the tree holds; where a read fails, it ends
/// with the first failure.
pub proof fn lemma_load<T: Asset>(
    root_dir: Seq<char>,
    depth: nat,
    listing: Listing,
    nodes: Seq<Node<T>>,
)
    requires
        listing is Ok ==> describes(depth, listing->Ok_0@, nodes),
    ensures
        ({
            let end = walk_ran(started::<T>(root_dir), load_events(depth, listing, nodes));
            &&& end.request is Finished
            &&& match loaded(depth, listing, nodes) {
                Ok(collection) => end.failure is None && merged(Map::empty(), end.found)
                    == collection,
                Err(failure) => end.failure == Some(failure),
            }
        }),
{
    let begun = started::<T>(root_dir);
    let first = seq![WalkEvent::<T>::Listing(listing)];
    lemma_walk_ran_one(begun, WalkEvent::<T>::Listing(listing));
    assert(walk_ran(begun, first) == stepped(begun, first[0]));
    match listing {
        Err(_) => {},
        Ok(listed) => {
            let empty = Seq::<Result<DirEntry, IoFailure>>::empty();
            lemma_walk_ran_on(begun, first, answers(depth, listed@, nodes));
            assert(listed@ + empty =~= listed@);
            assert(begun.pending =~= empty);
            lemma_settled_whatever_request(
                resting(listed@ + empty, Seq::<T>::empty()),
                begun.request,
            );
            lemma_walk_through(depth, listed@, nodes, empty, Seq::<T>::empty());
            match assets_below(depth, listed@, nodes) {
                Ok(below) => {
                    assert(Seq::<T>::empty() + below =~= below);
                },
                Err(_) => {},
            }
        },
    }
}

/// For any tree with N well-formed files of one kind, at any depth, whose
/// identifiers differ, the loader returns exactly N entries, each file's
/// asset under the file's own identifier.
pub proof fn lemma_load_distinct<T: Asset>(depth: nat, listing: Listing, nodes: Seq<Node<T>>)
    requires
        listing is Ok,
        describes(depth, listing->Ok_0@, nodes),
        assets_below(depth, listing->Ok_0@, nodes) is Ok,
        distinct_uuids(assets_below(depth, listing->Ok_0@, nodes)->Ok_0),
    ensures
        loaded(depth, listing, nodes) is Ok,
        ({
            let collection = loaded(depth, listing, nodes)->Ok_0;
            let below = assets_below(depth, listing->Ok_0@, nodes)->Ok_0;
            &&& collection.dom().finite()
            &&& collection.len() == asset_files(depth, listing->Ok_0@, nodes)
            &&& forall|i: int|
                0 <= i < below.len() ==> collection.contains_key((#[trigger] below[i]).uuid())
                    && collection[below[i].uuid()] == below[i]
            &&& forall|id: u128| #[trigger]
                collection.contains_key(id) ==> collection[id].uuid() == id
        }),
{
    let below = assets_below(depth, listing->Ok_0@, nodes)->Ok_0;
    lemma_one_asset_per_file(depth, listing->Ok_0@, nodes);
    lemma_merged_distinct(Map::<u128, T>::empty(), below);
    let collection = merged(Map::<u128, T>::empty(), below);
    assert forall|id: u128| #[trigger] collection.contains_key(id) implies collection[id].uuid()
        == id by {
        let i = choose|i: int| 0 <= i < below.len() && (#[trigger] below[i]).uuid() == id;
        assert(collection[below[i].uuid()] == below[i]);
    }
}

} // verus!
