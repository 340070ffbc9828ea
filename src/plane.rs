use vstd::prelude::*;

use crate::crtc::Crtc;
use crate::device::Device;
use crate::encoder::crtc_ids;
use crate::error::Error;
use crate::graph::select_by_mask;
use crate::graph::select_masked;
use crate::object::Object;
use crate::object::ObjectType;
use crate::transport::Transport;

verus! {

/// The ids of a list of plane handles, in order.
pub open spec fn plane_ids<'a, T: Transport>(v: Seq<Plane<'a, T>>) -> Seq<u32> {
    v.map_values(|p: Plane<'a, T>| p.spec_id())
}

/// A scanout layer that is composited onto a CRTC's output.
#[derive(Debug)]
pub struct Plane<'a, T: Transport> {
    dev: &'a Device<T>,
    id: u32,
}

impl<'a, T: Transport> Object<T> for Plane<'a, T> {
    open spec fn spec_id(&self) -> u32 {
        self.view_id()
    }

    open spec fn spec_type(&self) -> ObjectType {
        ObjectType::Plane
    }

    fn get_dev(&self) -> &Device<T> {
        self.dev
    }

    fn get_id(&self) -> u32 {
        self.id
    }

    fn get_type(&self) -> ObjectType {
        ObjectType::Plane
    }

    fn get_property_id(&self, property: &str) -> Result<u32, Error> {
        self.dev.lookup_property_id(ObjectType::Plane, self.id, property)
    }
}

impl<'a, T: Transport> Plane<'a, T> {
    /// The device this handle belongs to.
    pub closed spec fn spec_dev(&self) -> Device<T> {
        *self.dev
    }

    /// The kernel id of this object.
    pub closed spec fn view_id(&self) -> u32 {
        self.id
    }

    pub fn new(dev: &'a Device<T>, id: u32) -> (r: Plane<'a, T>)
        ensures
            r.spec_id() == id,
            r.spec_dev() == *dev,
    {
        Plane { dev, id }
    }

    /// The ids of the given planes, in order.
    pub fn ids_of(v: &Vec<Plane<'a, T>>) -> (r: Vec<u32>)
        ensures
            r@.len() == v@.len(),
            forall|i: int| 0 <= i < v@.len() ==> #[trigger] r@[i] == v@[i].spec_id(),
    {
        let mut out: Vec<u32> = Vec::new();
        let mut i: usize = 0;
        while i < v.len()
            invariant
                i <= v@.len(),
                out@.len() == i,
                forall|k: int| 0 <= k < i ==> #[trigger] out@[k] == v@[k].spec_id(),
            decreases v.len() - i,
        {
            out.push(v[i].get_id());
            i = i + 1;
        }
        out
    }

    /// Handles for the planes with the given ids, in order.
    pub fn from_ids(dev: &'a Device<T>, ids: &Vec<u32>) -> (r: Vec<Plane<'a, T>>)
        ensures
            plane_ids(r@) == ids@,
            forall|i: int| 0 <= i < r@.len() ==> #[trigger] r@[i].spec_dev() == *dev,
    {
        let mut out: Vec<Plane<'a, T>> = Vec::new();
        let mut i: usize = 0;
        while i < ids.len()
            invariant
                i <= ids@.len(),
                out@.len() == i,
                forall|k: int| 0 <= k < i ==> #[trigger] out@[k].spec_id() == ids@[k],
                forall|k: int| 0 <= k < out@.len() ==> #[trigger] out@[k].spec_dev() == *dev,
            decreases ids.len() - i,
        {
            out.push(Plane::new(dev, ids[i]));
            i = i + 1;
        }
        assert(plane_ids(out@) =~= ids@);
        out
    }

    /// The CRTCs this plane can be shown on: those whose position in the
    /// device's current CRTC enumeration is set in the plane's compatibility
    /// mask, which is fetched afresh on each call.
    pub fn get_possible_crtcs(&self) -> (r: Result<Vec<Crtc<'a, T>>, Error>)
        ensures
            r matches Ok(v) ==> exists|mask: u32, ids: Seq<u32>|
                #[trigger] select_masked(mask, ids) == crtc_ids(v@),
            r matches Ok(v) ==> forall|i: int| 0 <= i < v@.len() ==> #[trigger] v@[i].spec_dev()
                == self.spec_dev(),
    {
        let plane = self.dev.raw.get_plane(self.id)?;
        let ids = self.dev.raw.get_crtcs()?;
        let selected = select_by_mask(plane.possible_crtcs, &ids);
        let v = Crtc::from_ids(self.dev, &selected);
        assert(select_masked(plane.possible_crtcs, ids@) == crtc_ids(v@));
        Ok(v)
    }
}

} // verus!
