use vstd::prelude::*;

use crate::device::Device;
use crate::error::Error;
use crate::graph::filter_by_crtc;
use crate::graph::selecting;
use crate::object::Object;
use crate::object::ObjectType;
use crate::plane::plane_ids;
use crate::plane::Plane;
use crate::transport::Transport;

verus! {

/// A scanout engine: it drives one display timing from a framebuffer.
#[derive(Debug)]
pub struct Crtc<'a, T: Transport> {
    dev: &'a Device<T>,
    id: u32,
}

impl<'a, T: Transport> Object<T> for Crtc<'a, T> {
    open spec fn spec_id(&self) -> u32 {
        self.view_id()
    }

    open spec fn spec_type(&self) -> ObjectType {
        ObjectType::Crtc
    }

    fn get_dev(&self) -> &Device<T> {
        self.dev
    }

    fn get_id(&self) -> u32 {
        self.id
    }

    fn get_type(&self) -> ObjectType {
        ObjectType::Crtc
    }

    fn get_property_id(&self, property: &str) -> Result<u32, Error> {
        self.dev.lookup_property_id(ObjectType::Crtc, self.id, property)
    }
}

impl<'a, T: Transport> Crtc<'a, T> {
    /// The device this handle belongs to.
    pub closed spec fn spec_dev(&self) -> Device<T> {
        *self.dev
    }

    /// The kernel id of this object.
    pub closed spec fn view_id(&self) -> u32 {
        self.id
    }

    pub fn new(dev: &'a Device<T>, id: u32) -> (r: Crtc<'a, T>)
        ensures
            r.spec_id() == id,
            r.spec_dev() == *dev,
    {
        Crtc { dev, id }
    }

    /// Handles for the CRTCs with the given ids, in order.
    pub fn from_ids(dev: &'a Device<T>, ids: &Vec<u32>) -> (r: Vec<Crtc<'a, T>>)
        ensures
            r@.len() == ids@.len(),
            forall|i: int| 0 <= i < ids@.len() ==> #[trigger] r@[i].spec_id() == ids@[i],
            forall|i: int| 0 <= i < ids@.len() ==> #[trigger] r@[i].spec_dev() == *dev,
    {
        let mut out: Vec<Crtc<'a, T>> = Vec::new();
        let mut i: usize = 0;
        while i < ids.len()
            invariant
                i <= ids@.len(),
                out@.len() == i,
                forall|k: int| 0 <= k < i ==> #[trigger] out@[k].spec_id() == ids@[k],
                forall|k: int| 0 <= k < i ==> #[trigger] out@[k].spec_dev() == *dev,
            decreases ids.len() - i,
        {
            out.push(Crtc::new(dev, ids[i]));
            i = i + 1;
        }
        out
    }

    /// The ids of the given CRTCs, in order.
    pub fn ids_of(v: &Vec<Crtc<'a, T>>) -> (r: Vec<u32>)
        ensures
            r@.len() == v@.len(),
            forall|i: int| 0 <= i < v@.len() ==> #[trigger] r@[i] == v@[i].spec_id(),
    {
        let mut out: Vec<u32> = Vec::new();
        let mut i: usize = 0;
        while i < v.len()
            invariant
                i <= v@.len(),
                out@.len() == i,
                forall|k: int| 0 <= k < i ==> #[trigger] out@[k] == v@[k].spec_id(),
            decreases v.len() - i,
        {
            out.push(v[i].get_id());
            i = i + 1;
        }
        out
    }

    /// The planes that can be shown on this CRTC: each plane of the device, in
    /// enumeration order, whose compatibility mask selects this CRTC's position
    /// in the device's CRTC enumeration.
    pub fn get_possible_planes(&self) -> (r: Result<Vec<Plane<'a, T>>, Error>)
        ensures
            r matches Ok(v) ==> exists|ids: Seq<u32>, masks: Seq<u32>, crtcs: Seq<u32>|
                #[trigger] selecting(ids, masks, crtcs, self.view_id()) == plane_ids(v@),
            r matches Ok(v) ==> forall|i: int| 0 <= i < v@.len() ==> #[trigger] v@[i].spec_dev()
                == self.spec_dev(),
    {
        let ids = self.dev.raw.get_planes()?;
        let mut masks: Vec<u32> = Vec::new();
        let mut i: usize = 0;
        while i < ids.len()
            invariant
                i <= ids@.len(),
                masks@.len() == i,
            decreases ids.len() - i,
        {
            let plane = self.dev.raw.get_plane(ids[i])?;
            masks.push(plane.possible_crtcs);
            i = i + 1;
        }
        let crtcs = self.dev.raw.get_crtcs()?;
        let kept = filter_by_crtc(&ids, &masks, &crtcs, self.id);
        let v = Plane::from_ids(self.dev, &kept);
        assert(selecting(ids@, masks@, crtcs@, self.view_id()) == plane_ids(v@));
        Ok(v)
    }
}

} // verus!
