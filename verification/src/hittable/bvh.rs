//! The bounding volume hierarchy: a binary tree built once by median split
//! along the longest axis, used for logarithmic-time culling.

use vstd::prelude::*;
use super::aabb::{axis_interval_of, box_contains_v, box_union_v, Aabb};
use super::hittable_list::HittableList;
use super::{bounding_box_v, deterministic, hittable_wf, leaves_v, Hittable};

verus! {

pub struct BvhNode {
    pub left: Box<Hittable>,
    pub right: Box<Hittable>,
    pub bbox: Aabb,
}

/// The sort key of a primitive along an axis: the lower bound of its box.
pub open spec fn axis_key_v(h: Hittable, axis: int) -> i64 {
    axis_interval_of(bounding_box_v(h), axis).min
}

impl BvhNode {
    /// Build a tree over the objects of a list.
    pub fn from_list(list: HittableList) -> (r: Self)
        requires
            list.objects@.len() >= 1,
            super::list_wf(list.objects@),
        ensures
            hittable_wf(*r.left),
            hittable_wf(*r.right),
            r.bbox == box_union_v(bounding_box_v(*r.left), bounding_box_v(*r.right)),
            forall|x: Hittable|
                list.objects@.to_multiset().count(x) > 0 ==> box_contains_v(
                    r.bbox,
                    #[trigger] bounding_box_v(x),
                ),
            plain_leaves(list.objects@) ==> leaves_v(
                Hittable::BvhNode(r),
            ).to_multiset() == list.objects@.to_multiset(),
            all_deterministic(list.objects@) ==> deterministic(Hittable::BvhNode(r)),
    {
        BvhNode::new(list.objects)
    }

    /// Build a tree over a set of primitives: find the longest axis of their
    /// common box, split the set at the median of that axis, and recurse.
    /// One object becomes a leaf paired with an empty list; two become the
    /// two children directly.
    pub fn new(objects: Vec<Hittable>) -> (r: Self)
        requires
            objects@.len() >= 1,
            super::list_wf(objects@),
        ensures
            hittable_wf(*r.left),
            hittable_wf(*r.right),
            r.bbox == box_union_v(bounding_box_v(*r.left), bounding_box_v(*r.right)),
            forall|x: Hittable|
                objects@.to_multiset().count(x) > 0 ==> box_contains_v(
                    r.bbox,
                    #[trigger] bounding_box_v(x),
                ),
            plain_leaves(objects@) ==> leaves_v(Hittable::BvhNode(r)).to_multiset()
                == objects@.to_multiset(),
            all_deterministic(objects@) ==> deterministic(Hittable::BvhNode(r)),
        decreases objects@.len(),
    {
        proof {
            objects@.to_multiset_ensures();
        }
        proof {
            super::lemma_list_wf_char(objects@);
        }
        let mut objs = objects;
        let mut bbox = Aabb::empty();
        let mut i: usize = 0;
        while i < objs.len()
            invariant
                i <= objs@.len(),
                objs@ == objects@,
                forall|k: int| 0 <= k < objects@.len() ==> hittable_wf(#[trigger] objects@[k]),
            decreases objs@.len() - i,
        {
            let obox = objs[i].bounding_box();
            bbox = Aabb::from_boxes(&bbox, &obox);
            i = i + 1;
        }
        let axis = bbox.longest_axis();
        let left: Hittable;
        let right: Hittable;
        if objs.len() == 1 {
            left = objs.remove(0);
            right = Hittable::HittableList(HittableList::new());
            proof {
                assert(hittable_wf(left));
                assert(right->HittableList_0.objects@.len() == 0);
                assert(super::list_wf(right->HittableList_0.objects@));
                assert(hittable_wf(right));
                assert(leaves_v(right) =~= Seq::<Hittable>::empty());
                assert(objects@.contains(left));
                if plain_leaves(objects@) {
                    assert(leaves_v(left) == seq![left]);
                    assert(leaves_v(left) + leaves_v(right) =~= seq![left]);
                    assert(objects@ =~= seq![left]);
                }
                if all_deterministic(objects@) {
                    assert(deterministic(left));
                    assert(super::det_seq(right->HittableList_0.objects@));
                    assert(deterministic(right));
                }
                assert forall|x: Hittable| objects@.to_multiset().count(x) > 0 implies (
                box_contains_v(bounding_box_v(left), #[trigger] bounding_box_v(x))
                    || box_contains_v(bounding_box_v(right), bounding_box_v(x))) by {
                    assert(objects@.contains(x));
                    assert(x == left);
                }
            }
        } else if objs.len() == 2 {
            right = objs.remove(1);
            left = objs.remove(0);
            proof {
                assert(objects@.contains(left));
                assert(objects@.contains(right));
                if plain_leaves(objects@) {
                    assert(leaves_v(left) + leaves_v(right) =~= seq![left, right]);
                    assert(objects@ =~= seq![left, right]);
                }
                assert forall|x: Hittable| objects@.to_multiset().count(x) > 0 implies (
                box_contains_v(bounding_box_v(left), #[trigger] bounding_box_v(x))
                    || box_contains_v(bounding_box_v(right), bounding_box_v(x))) by {
                    assert(objects@.contains(x));
                    assert(x == objects@[0] || x == objects@[1]);
                }
            }
        } else {
            let mut sorted = sort_by_axis(objs, axis);
            let ghost sortedv = sorted@;
            let mid = sorted.len() / 2;
            let right_list = sorted.split_off(mid);
            let left_list = sorted;
            proof {
                assert forall|k: int| 0 <= k < left_list@.len() implies hittable_wf(
                    #[trigger] left_list@[k],
                ) by {
                    assert(left_list@[k] == sortedv[k]);
                }
                assert forall|k: int| 0 <= k < right_list@.len() implies hittable_wf(
                    #[trigger] right_list@[k],
                ) by {
                    assert(right_list@[k] == sortedv[mid + k]);
                }
                super::lemma_list_wf_char(left_list@);
                super::lemma_list_wf_char(right_list@);
            }
            proof {
                broadcast use vstd::multiset::group_multiset_axioms;

                vstd::seq_lib::lemma_multiset_commutative(left_list@, right_list@);
                assert(left_list@ + right_list@ =~= sortedv);
                assert forall|x: Hittable|
                    #[trigger] left_list@.to_multiset().count(x) <= objects@.to_multiset().count(
                        x,
                    ) by {
                    assert(sortedv.to_multiset().count(x) == left_list@.to_multiset().count(x)
                        + right_list@.to_multiset().count(x));
                }
                assert forall|x: Hittable|
                    #[trigger] right_list@.to_multiset().count(x) <= objects@.to_multiset().count(
                        x,
                    ) by {
                    assert(sortedv.to_multiset().count(x) == left_list@.to_multiset().count(x)
                        + right_list@.to_multiset().count(x));
                }
                if plain_leaves(objects@) {
                    lemma_plain_leaves_transfer(objects@, left_list@);
                    lemma_plain_leaves_transfer(objects@, right_list@);
                }
                if all_deterministic(objects@) {
                    lemma_all_det_transfer(objects@, left_list@);
                    lemma_all_det_transfer(objects@, right_list@);
                }
            }
            let lnode = BvhNode::new(left_list);
            let rnode = BvhNode::new(right_list);
            left = Hittable::BvhNode(lnode);
            right = Hittable::BvhNode(rnode);
            proof {
                assert(hittable_wf(left));
                assert(hittable_wf(right));
                if plain_leaves(objects@) {
                    vstd::seq_lib::lemma_multiset_commutative(leaves_v(left), leaves_v(right));
                    assert(leaves_v(left).to_multiset().add(leaves_v(right).to_multiset())
                        =~= objects@.to_multiset());
                    assert((leaves_v(left) + leaves_v(right)).to_multiset()
                        =~= objects@.to_multiset());
                }
                assert forall|x: Hittable| objects@.to_multiset().count(x) > 0 implies (
                box_contains_v(bounding_box_v(left), #[trigger] bounding_box_v(x))
                    || box_contains_v(bounding_box_v(right), bounding_box_v(x))) by {
                    broadcast use vstd::multiset::group_multiset_axioms;

                    assert(sortedv.to_multiset().count(x) == left_list@.to_multiset().count(x)
                        + right_list@.to_multiset().count(x));
                    assert(left_list@.to_multiset().count(x) > 0
                        || right_list@.to_multiset().count(x) > 0);
                    assert(bounding_box_v(left) == lnode.bbox);
                    assert(bounding_box_v(right) == rnode.bbox);
                }
            }
        }
        proof {
            if all_deterministic(objects@) {
                assert(deterministic(left));
                assert(deterministic(right));
            }
        }
        let lbox = left.bounding_box();
        let rbox = right.bounding_box();
        let bbox = Aabb::from_boxes(&lbox, &rbox);
        proof {
            assert forall|x: Hittable| objects@.to_multiset().count(x) > 0 implies box_contains_v(
                bbox,
                #[trigger] bounding_box_v(x),
            ) by {
                assert(box_contains_v(bbox, bounding_box_v(left)));
                assert(box_contains_v(bbox, bounding_box_v(right)));
            }
        }
        BvhNode { left: Box::new(left), right: Box::new(right), bbox }
    }
}

/// Every element is its own single leaf: no element is itself a tree node,
/// and none is an empty list.
pub open spec fn plain_leaves(s: Seq<Hittable>) -> bool {
    forall|x: Hittable| s.to_multiset().count(x) > 0 ==> (#[trigger] leaves_v(x)) == seq![x]
}

/// Every element is free of randomness.
pub open spec fn all_deterministic(s: Seq<Hittable>) -> bool {
    forall|x: Hittable| s.to_multiset().count(x) > 0 ==> #[trigger] deterministic(x)
}

/// Single-leaf-ness carries to any part of a reordering.
proof fn lemma_plain_leaves_transfer(full: Seq<Hittable>, part: Seq<Hittable>)
    requires
        plain_leaves(full),
        forall|x: Hittable|
            #[trigger] part.to_multiset().count(x) <= full.to_multiset().count(x),
    ensures
        plain_leaves(part),
{
    assert forall|x: Hittable| part.to_multiset().count(x) > 0 implies (#[trigger] leaves_v(x))
        == seq![x] by {
        assert(full.to_multiset().count(x) > 0);
    }
}

/// Determinism carries to any part of a reordering.
proof fn lemma_all_det_transfer(full: Seq<Hittable>, part: Seq<Hittable>)
    requires
        all_deterministic(full),
        forall|x: Hittable|
            #[trigger] part.to_multiset().count(x) <= full.to_multiset().count(x),
    ensures
        all_deterministic(part),
{
    assert forall|x: Hittable| part.to_multiset().count(x) > 0 implies #[trigger] deterministic(
        x,
    ) by {
        assert(full.to_multiset().count(x) > 0);
    }
}

/// Sort primitives by the lower bound of their boxes along an axis, by
/// repeatedly extracting a minimum. The result is a reordering: its
/// multiset of primitives is unchanged.
fn sort_by_axis(objects: Vec<Hittable>, axis: usize) -> (r: Vec<Hittable>)
    requires
        axis < 3,
        forall|k: int| 0 <= k < objects@.len() ==> hittable_wf(#[trigger] objects@[k]),
    ensures
        r@.len() == objects@.len(),
        r@.to_multiset() == objects@.to_multiset(),
        forall|k: int| 0 <= k < r@.len() ==> hittable_wf(#[trigger] r@[k]),
        forall|a: int, b: int|
            0 <= a < b < r@.len() ==> axis_key_v(#[trigger] r@[a], axis as int) <= axis_key_v(
                #[trigger] r@[b],
                axis as int,
            ),
{
    let mut rest = objects;
    let mut out: Vec<Hittable> = Vec::new();
    proof {
        rest@.to_multiset_ensures();
        out@.to_multiset_ensures();
        assert(out@.to_multiset().add(rest@.to_multiset()) =~= rest@.to_multiset());
        assert(out@.to_multiset().add(rest@.to_multiset()) == objects@.to_multiset());
    }
    while rest.len() > 0
        invariant
            out@.to_multiset().add(rest@.to_multiset()) == objects@.to_multiset(),
            out@.len() + rest@.len() == objects@.len(),
            forall|k: int| 0 <= k < rest@.len() ==> hittable_wf(#[trigger] rest@[k]),
            forall|k: int| 0 <= k < out@.len() ==> hittable_wf(#[trigger] out@[k]),
            axis < 3,
            forall|a: int, b: int|
                0 <= a < b < out@.len() ==> axis_key_v(#[trigger] out@[a], axis as int)
                    <= axis_key_v(#[trigger] out@[b], axis as int),
            forall|a: int, b: int|
                0 <= a < out@.len() && 0 <= b < rest@.len() ==> axis_key_v(
                    #[trigger] out@[a],
                    axis as int,
                ) <= axis_key_v(#[trigger] rest@[b], axis as int),
        decreases rest@.len(),
    {
        let mut mi: usize = 0;
        let mut j: usize = 1;
        let mut mkey = key_of(&rest, 0, axis);
        while j < rest.len()
            invariant
                0 < rest@.len(),
                mi < rest@.len(),
                j <= rest@.len(),
                axis < 3,
                mkey == axis_key_v(rest@[mi as int], axis as int),
                forall|k: int|
                    0 <= k < j ==> mkey <= axis_key_v(#[trigger] rest@[k], axis as int),
            decreases rest@.len() - j,
        {
            let jkey = key_of(&rest, j, axis);
            if jkey < mkey {
                mi = j;
                mkey = jkey;
            }
            j = j + 1;
        }
        let ghost rest_before = rest@;
        let picked = rest.remove(mi);
        let ghost out_before = out@;
        out.push(picked);
        proof {
            assert(rest@ =~= rest_before.remove(mi as int));
            assert(out@ =~= out_before.push(picked));
            lemma_multiset_bookkeeping(out_before, rest_before, rest@, picked, mi as int);
            assert(out@.to_multiset().add(rest@.to_multiset()) == objects@.to_multiset());
        }
    }
    proof {
        rest@.to_multiset_ensures();
        assert(out@.to_multiset() =~= objects@.to_multiset());
    }
    out
}

/// Removing one element and appending it elsewhere keeps the combined
/// multiset of the two sequences.
proof fn lemma_multiset_bookkeeping(
    out_before: Seq<Hittable>,
    rest_before: Seq<Hittable>,
    rest_after: Seq<Hittable>,
    picked: Hittable,
    mi: int,
)
    requires
        0 <= mi < rest_before.len(),
        rest_before[mi] == picked,
        rest_after == rest_before.remove(mi),
    ensures
        out_before.push(picked).to_multiset().add(rest_after.to_multiset())
            == out_before.to_multiset().add(rest_before.to_multiset()),
{
    out_before.to_multiset_ensures();
    rest_before.to_multiset_ensures();
    assert(out_before.push(picked).to_multiset() =~= out_before.to_multiset().insert(picked));
    assert(rest_after.to_multiset() =~= rest_before.to_multiset().remove(picked));
    assert(rest_before.contains(picked));
    assert(rest_before.to_multiset().count(picked) > 0);
    assert(out_before.push(picked).to_multiset().add(rest_after.to_multiset())
        =~= out_before.to_multiset().add(rest_before.to_multiset()));
}

/// The sort key of one element of a vector.
fn key_of(v: &Vec<Hittable>, i: usize, axis: usize) -> (r: i64)
    requires
        i < v@.len(),
        axis < 3,
    ensures
        r == axis_key_v(v@[i as int], axis as int),
{
    let b = v[i].bounding_box();
    let itv = b.index(axis);
    itv.min
}

} // verus!
