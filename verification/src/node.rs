//! The nodes of the graph as the host keeps them.

use vstd::prelude::*;
use crate::geometry::Vector;

verus! {

/// What a node holds.
#[derive(Clone, Copy, Debug, PartialEq, Eq, Structural)]
pub enum Kind {
    A,
    B,
    C,
    D,
}

/// One node of the host's graph.
#[derive(Debug, PartialEq, Eq)]
pub struct Node {
    /// What the node holds.
    pub kind: Kind,
    /// The committed position of its top-left corner, in canvas-local space.
    pub offset: Vector,
    /// The nodes its edges lead to, as indices into the node list.
    pub edges: Vec<usize>,
}

/// The edge targets of a node once the node at place `removed` has left the
/// list: edges to the removed node are gone, targets behind it move up by
/// one place, and the order of the others is kept.
pub open spec fn renumbered(edges: Seq<usize>, removed: usize) -> Seq<usize> {
    edges.filter(survives(removed)).map_values(moved_up(removed))
}

/// Tells the targets that remain once the node at place `removed` has left.
pub open spec fn survives(removed: usize) -> spec_fn(usize) -> bool {
    |target: usize| target != removed
}

/// The new place of each remaining target.
pub open spec fn moved_up(removed: usize) -> spec_fn(usize) -> usize {
    |target: usize|
        if target > removed {
            (target - 1) as usize
        } else {
            target
        }
}

/// Renumbers edge targets for the removal of the node at place `removed`.
pub fn renumber(edges: &Vec<usize>, removed: usize) -> (kept: Vec<usize>)
    ensures
        kept@ == renumbered(edges@, removed),
{
    let ghost keep = survives(removed);
    let ghost shift = moved_up(removed);
    let mut kept: Vec<usize> = Vec::new();
    let mut k: usize = 0;
    proof {
        reveal(Seq::filter);
        assert(edges@.take(0).filter(keep) =~= Seq::<usize>::empty());
    }
    while k < edges.len()
        invariant
            k <= edges@.len(),
            keep == survives(removed),
            shift == moved_up(removed),
            kept@ == edges@.take(k as int).filter(keep).map_values(shift),
        decreases edges@.len() - k,
    {
        let target = edges[k];
        proof {
            reveal(Seq::filter);
            let next = edges@.take(k + 1);
            assert(next.drop_last() =~= edges@.take(k as int));
            assert(next.last() == target);
            if keep(target) {
                assert(next.filter(keep).map_values(shift) =~= edges@.take(k as int).filter(
                    keep,
                ).map_values(shift).push(shift(target)));
            }
        }
        if target != removed {
            kept.push(
                if target > removed {
                    target - 1
                } else {
                    target
                },
            );
        }
        k += 1;
    }
    proof {
        assert(edges@.take(edges@.len() as int) =~= edges@);
    }
    kept
}

/// Removing a node keeps the edges sound: where every target was a place in
/// the list of `count` nodes, every target left is a place in the list of
/// `count - 1`.
pub proof fn lemma_renumbered_in_range(edges: Seq<usize>, removed: usize, count: nat)
    requires
        removed < count,
        forall|k: int| 0 <= k < edges.len() ==> edges[k] < count,
    ensures
        forall|k: int|
            0 <= k < renumbered(edges, removed).len() ==> #[trigger] renumbered(edges, removed)[k]
                < count - 1,
{
    let kept = edges.filter(survives(removed));
    assert forall|k: int| 0 <= k < renumbered(edges, removed).len() implies #[trigger] renumbered(
        edges,
        removed,
    )[k] < count - 1 by {
        edges.lemma_filter_pred(survives(removed), k);
        assert(kept.contains(kept[k]));
        edges.lemma_filter_contains_rev(survives(removed), kept[k]);
        let at = choose|at: int| 0 <= at < edges.len() && edges[at] == kept[k];
        assert(edges[at] < count);
    }
}

/// Removing a node leaves no edge to it and loses no other edge: as many
/// targets are left as were different from the removed place.
pub proof fn lemma_renumbered_len(edges: Seq<usize>, removed: usize)
    ensures
        renumbered(edges, removed).len() == edges.filter(survives(removed)).len(),
        renumbered(edges, removed).len() <= edges.len(),
{
    edges.lemma_filter_len(survives(removed));
}

} // verus!
