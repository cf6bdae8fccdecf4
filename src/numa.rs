use vstd::prelude::*;

verus! {

/// Largest distance at which a lower-numbered node is treated as local.
pub const CLUSTER_DISTANCE: i32 = 11;

/// Index of a NUMA node.
#[derive(Clone, Copy, Debug, PartialEq, Eq, Structural, PartialOrd, Ord, Hash)]
pub struct NumaNodeIndex {
    value: u32,
}

impl NumaNodeIndex {
    pub closed spec fn view(&self) -> nat {
        self.value as nat
    }

    /// Creates the index of node `value`.
    pub fn new(value: u32) -> (r: Self)
        ensures
            r@ == value,
    {
        NumaNodeIndex { value }
    }

    /// The node's number.
    pub fn value(&self) -> (r: u32)
        ensures
            r == self@,
    {
        self.value
    }
}

/// Candidate `c` may stand in for the detected node, given `distances[c]`,
/// the distance from `c` to it.
pub open spec fn is_close(distances: Seq<i32>, c: int) -> bool {
    distances[c] <= CLUSTER_DISTANCE
}

/// The node chosen for detected node `detected`: the smallest candidate
/// below it whose distance is at most `CLUSTER_DISTANCE`, or `detected`
/// itself when there is none.
pub open spec fn clustered_node(detected: nat, distances: Seq<i32>) -> nat {
    if exists|c: int| 0 <= c < detected && is_close(distances, c) {
        let c = choose|c: int|
            0 <= c < detected && is_close(distances, c) && forall|b: int|
                0 <= b < c ==> !is_close(distances, b);
        c as nat
    } else {
        detected
    }
}

/// Clusters `original` onto the lowest-numbered node that is effectively
/// local to it.
///
/// `distances[c]` is the distance reported from node `c` to `original`,
/// for each `c` below `original`.
pub fn select_node(original: NumaNodeIndex, distances: &Vec<i32>) -> (r: NumaNodeIndex)
    requires
        distances@.len() == original@,
    ensures
        r@ <= original@,
        r@ < original@ ==> is_close(distances@, r@ as int),
        forall|b: int| 0 <= b < r@ ==> !is_close(distances@, b),
        r@ == clustered_node(original@, distances@),
{
    let detected = original.value();
    let mut current: u32 = 0;
    while current < detected
        invariant
            current <= detected,
            detected == original@,
            distances@.len() == detected,
            forall|b: int| 0 <= b < current ==> !is_close(distances@, b),
        decreases detected - current,
    {
        if distances[current as usize] <= CLUSTER_DISTANCE {
            proof {
                lemma_first_close_is_clustered(detected as nat, distances@, current as int);
            }
            return NumaNodeIndex::new(current);
        }
        current = current + 1;
    }
    NumaNodeIndex::new(detected)
}

/// The first close candidate below `detected` is the clustered node.
proof fn lemma_first_close_is_clustered(detected: nat, distances: Seq<i32>, c: int)
    requires
        0 <= c < detected,
        is_close(distances, c),
        forall|b: int| 0 <= b < c ==> !is_close(distances, b),
    ensures
        clustered_node(detected, distances) == c,
{
    let d = choose|d: int|
        0 <= d < detected && is_close(distances, d) && forall|b: int|
            0 <= b < d ==> !is_close(distances, b);
    assert(0 <= d < detected && is_close(distances, d) && forall|b: int|
        0 <= b < d ==> !is_close(distances, b));
    assert(d == c);
}

/// Clustering depends on nothing but the detected node and the distances
/// below it: two tables that agree there give the same node.
pub proof fn lemma_clustering_deterministic(detected: nat, a: Seq<i32>, b: Seq<i32>)
    requires
        a.len() == detected,
        b.len() == detected,
        forall|c: int| 0 <= c < detected ==> a[c] == b[c],
    ensures
        clustered_node(detected, a) == clustered_node(detected, b),
{
    assert(a =~= b);
}

/// When no node below the detected one is within `CLUSTER_DISTANCE`, the
/// detected node is kept.
pub proof fn lemma_no_close_keeps_detected(detected: nat, distances: Seq<i32>)
    requires
        forall|c: int| 0 <= c < detected ==> distances[c] > CLUSTER_DISTANCE,
    ensures
        clustered_node(detected, distances) == detected,
{
}

} // verus!
