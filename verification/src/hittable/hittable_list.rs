//! A flat collection of primitives, scanned linearly for the nearest hit.

use vstd::prelude::*;
use super::aabb::{box_union_v, Aabb};
use super::{bounding_box_v, hittable_wf, Hittable};

verus! {

pub struct HittableList {
    pub objects: Vec<Hittable>,
    pub bbox: Aabb,
}

impl HittableList {
    /// An empty list with an empty bounding box.
    pub fn new() -> (r: Self)
        ensures
            r.objects@.len() == 0,
            r.bbox == super::aabb::empty_box_v(),
    {
        HittableList { objects: Vec::new(), bbox: Aabb::empty() }
    }

    /// Drop every object; the cached bounding box is left as it was.
    pub fn clear(&mut self)
        ensures
            final(self).objects@.len() == 0,
            final(self).bbox == old(self).bbox,
    {
        self.objects.clear();
    }

    /// Append an object, growing the cached bounding box around it.
    pub fn add(&mut self, object: Hittable)
        ensures
            final(self).objects@ == old(self).objects@.push(object),
            final(self).bbox == box_union_v(old(self).bbox, bounding_box_v(object)),
            super::list_wf(old(self).objects@) && hittable_wf(object) ==> super::list_wf(
                final(self).objects@,
            ),
            super::det_seq(old(self).objects@) && super::deterministic(object)
                ==> super::det_seq(final(self).objects@),
    {
        let ghost before = self.objects@;
        let obox = object.bounding_box();
        self.bbox = Aabb::from_boxes(&self.bbox, &obox);
        self.objects.push(object);
        proof {
            assert(self.objects@.drop_last() =~= before);
            assert(self.objects@.last() == object);
        }
    }
}

} // verus!
