use vstd::prelude::*;

use crate::atomic::build_batch;
use crate::atomic::has_conflict;
use crate::atomic::AtomicProperty;
use crate::buffer::Buffer;
use crate::buffer::BufferType;
use crate::connector::connector_ids;
use crate::connector::Connector;
use crate::crtc::Crtc;
use crate::encoder::Encoder;
use crate::error::Error;
use crate::mode::modes_of;
use crate::mode::modes_of_timings;
use crate::mode::Mode;
use crate::text::trim_nul;
use vstd::utf8::decode_utf8;
use crate::object::Object;
use crate::object::ObjectType;
use crate::plane::Plane;
use crate::property::find_property_id;
use crate::property::first_match;
use crate::property::named_ids;
use crate::property::Property;
use crate::transport::Transport;

verus! {

/// The flags of every atomic commit: the update may change display modes.
pub const ATOMIC_COMMIT_FLAGS: u32 = 0x0400;

/// Optional behaviours that a client asks the kernel to enable.
#[derive(Debug, Clone, Copy, PartialEq, Eq, Structural)]
pub enum ClientCapability {
    Stereo3d,
    UniversalPlanes,
    Atomic,
    AspectRatio,
    WritebackConnectors,
}

/// The kernel's id of each capability, counted from 1.
pub open spec fn capability_code(c: ClientCapability) -> u64 {
    match c {
        ClientCapability::Stereo3d => 1,
        ClientCapability::UniversalPlanes => 2,
        ClientCapability::Atomic => 3,
        ClientCapability::AspectRatio => 4,
        ClientCapability::WritebackConnectors => 5,
    }
}

impl ClientCapability {
    pub fn code(&self) -> (r: u64)
        ensures
            r == capability_code(*self),
    {
        match self {
            ClientCapability::Stereo3d => 1,
            ClientCapability::UniversalPlanes => 2,
            ClientCapability::Atomic => 3,
            ClientCapability::AspectRatio => 4,
            ClientCapability::WritebackConnectors => 5,
        }
    }
}

/// A connection to one kernel display subsystem; every other handle borrows it.
#[derive(Debug)]
pub struct Device<T: Transport> {
    pub(crate) raw: T,
}

impl<T: Transport> Device<T> {
    pub closed spec fn spec_raw(&self) -> T {
        self.raw
    }

    /// A device over `raw`, with the atomic and universal-planes capabilities
    /// negotiated; fails if the kernel refuses either.
    pub fn new(raw: T) -> (r: Result<Device<T>, Error>)
        ensures
            r matches Ok(d) ==> d.spec_raw() == raw,
    {
        let device = Device { raw };
        let device = device.set_client_capability(ClientCapability::Atomic)?;
        device.set_client_capability(ClientCapability::UniversalPlanes)
    }

    /// The transport this device talks through.
    pub fn get_raw(&self) -> (r: &T)
        ensures
            *r == self.spec_raw(),
    {
        &self.raw
    }

    /// Asks the kernel to enable `cap`.
    pub fn set_client_capability(self, cap: ClientCapability) -> (r: Result<Device<T>, Error>)
        ensures
            r matches Ok(d) ==> d == self,
    {
        self.raw.set_client_capability(cap.code())?;
        Ok(self)
    }

    /// Submits the writes as one indivisible transaction: sorted by key, exact
    /// repeats dropped, grouped by object. Fails before reaching the kernel
    /// when there is nothing to submit, when two writes give one property
    /// different values, or when the count does not fit 32 bits.
    pub fn atomic_commit(&self, properties: &Vec<AtomicProperty>) -> (r: Result<(), Error>)
        ensures
            properties@.len() == 0 ==> r == Err::<(), Error>(Error::NoneError),
            properties@.len() > u32::MAX ==> r == Err::<(), Error>(Error::OutOfRangeError),
            0 < properties@.len() <= u32::MAX && has_conflict(properties@) ==> r == Err::<(), Error>(
                Error::UnsupportedError,
            ),
    {
        let batch = build_batch(properties)?;
        self.raw.atomic_commit(
            &batch.objects,
            &batch.counts,
            &batch.props,
            &batch.values,
            ATOMIC_COMMIT_FLAGS,
        )
    }

    /// Allocates a buffer of the given geometry, not mapped and not
    /// registered. Fails with `OutOfRangeError` when a dimension does not fit
    /// 32 bits.
    pub fn allocate_buffer<'a>(
        &'a self,
        buftype: BufferType,
        width: usize,
        height: usize,
        bpp: usize,
    ) -> (r: Result<Buffer<'a, T>, Error>)
        ensures
            width > u32::MAX || height > u32::MAX || bpp > u32::MAX ==> r == Err::<
                Buffer<'a, T>,
                Error,
            >(Error::OutOfRangeError),
            r matches Ok(b) ==> b.wf() && !b.spec_mapped() && b.spec_fb_id() is None && b.spec_dev()
                == *self,
    {
        if width > 0xffff_ffffusize || height > 0xffff_ffffusize || bpp > 0xffff_ffffusize {
            return Err(Error::OutOfRangeError);
        }
        let raw = match buftype {
            BufferType::Dumb => self.raw.allocate_dumb_buffer(width as u32, height as u32, bpp as u32)?,
        };
        Buffer::new(self, raw)
    }

    /// Shows `buffer` on `crtc` through `connectors` without a transaction,
    /// optionally switching to `mode`. Fails with `UninitializedError` when the
    /// buffer is not registered as a framebuffer, and with `OutOfRangeError`
    /// when an offset does not fit 32 bits.
    pub fn set_crtc(
        &self,
        buffer: &Buffer<'_, T>,
        crtc: &Crtc<'_, T>,
        connectors: &[&Connector<'_, T>],
        x: usize,
        y: usize,
        mode: Option<&Mode>,
    ) -> (r: Result<(), Error>)
        ensures
            buffer.spec_fb_id() is None ==> r == Err::<(), Error>(Error::UninitializedError),
            buffer.spec_fb_id() is Some && (x > u32::MAX || y > u32::MAX) ==> r == Err::<(), Error>(
                Error::OutOfRangeError,
            ),
    {
        let con_ids = connector_ids(connectors);
        let modeinfo = match mode {
            Some(m) => Some(m.into_inner()),
            None => None,
        };
        let fb_id = match buffer.get_framebuffer_id() {
            Some(f) => f,
            None => return Err(Error::UninitializedError),
        };
        if x > 0xffff_ffffusize || y > 0xffff_ffffusize {
            return Err(Error::OutOfRangeError);
        }
        self.raw.set_crtc(fb_id, crtc.get_id(), &con_ids, x as u32, y as u32, modeinfo)
    }

    /// Shows `buffer` on `plane` of `crtc` without a transaction, at the given
    /// size. Fails with `UninitializedError` when the buffer is not registered
    /// as a framebuffer, and with `OutOfRangeError` when a dimension does not
    /// fit 32 bits.
    pub fn set_plane(
        &self,
        buffer: &Buffer<'_, T>,
        plane: &Plane<'_, T>,
        crtc: &Crtc<'_, T>,
        width: usize,
        height: usize,
    ) -> (r: Result<(), Error>)
        ensures
            buffer.spec_fb_id() is None ==> r == Err::<(), Error>(Error::UninitializedError),
            buffer.spec_fb_id() is Some && (width > u32::MAX || height > u32::MAX) ==> r == Err::<
                (),
                Error,
            >(Error::OutOfRangeError),
    {
        let fb_id = match buffer.get_framebuffer_id() {
            Some(f) => f,
            None => return Err(Error::UninitializedError),
        };
        if width > 0xffff_ffffusize || height > 0xffff_ffffusize {
            return Err(Error::OutOfRangeError);
        }
        self.raw.set_plane(fb_id, plane.get_id(), crtc.get_id(), width as u32, height as u32)
    }

    /// The encoders that can feed `connector`, in the kernel's order.
    pub fn get_connector_encoders<'a>(&'a self, connector: &Connector<'_, T>) -> (r: Result<
        Vec<Encoder<'a, T>>,
        Error,
    >)
        ensures
            r matches Ok(v) ==> forall|i: int| 0 <= i < v@.len() ==> #[trigger] v@[i].spec_dev() == *self,
    {
        let ids = self.raw.get_connector_encoders(connector.get_id())?;
        let mut encoders: Vec<Encoder<'a, T>> = Vec::new();
        let mut i: usize = 0;
        while i < ids.len()
            invariant
                i <= ids@.len(),
                forall|k: int| 0 <= k < encoders@.len() ==> #[trigger] encoders@[k].spec_dev() == *self,
            decreases ids.len() - i,
        {
            encoders.push(Encoder::new_from_id(self, ids[i])?);
            i = i + 1;
        }
        Ok(encoders)
    }

    /// The display modes that `connector` offers.
    pub fn get_connector_modes(&self, connector: &Connector<'_, T>) -> (r: Result<Vec<Mode>, Error>)
        ensures
            r matches Ok(v) ==> modes_of_timings(v@),
    {
        let infos = self.raw.get_connector_modes(connector.get_id())?;
        let mut modes: Vec<Mode> = Vec::new();
        let mut i: usize = 0;
        while i < infos.len()
            invariant
                i <= infos@.len(),
                modes_of(modes@, infos@.take(i as int)),
            decreases infos.len() - i,
        {
            let m = Mode::new(infos[i])?;
            modes.push(m);
            assert(modes_of(modes@, infos@.take(i as int + 1))) by {
                assert forall|k: int| 0 <= k < modes@.len() implies {
                    &&& (#[trigger] modes@[k]).spec_info() == infos@.take(i as int + 1)[k]
                    &&& modes@[k].spec_name() == decode_utf8(trim_nul(infos@.take(i as int + 1)[k].name@))
                } by {
                    if k < i {
                        assert(infos@.take(i as int + 1)[k] == infos@.take(i as int)[k]);
                    }
                }
            }
            i = i + 1;
        }
        assert(infos@.take(infos@.len() as int) =~= infos@);
        assert(modes_of(modes@, infos@));
        assert(modes_of_timings(modes@));
        Ok(modes)
    }

    /// All connectors of the device, in enumeration order.
    pub fn get_connectors<'a>(&'a self) -> (r: Result<Vec<Connector<'a, T>>, Error>)
        ensures
            r matches Ok(v) ==> forall|i: int| 0 <= i < v@.len() ==> #[trigger] v@[i].spec_dev() == *self,
    {
        let raws = self.raw.get_connectors()?;
        let mut connectors: Vec<Connector<'a, T>> = Vec::new();
        let mut i: usize = 0;
        while i < raws.len()
            invariant
                i <= raws@.len(),
                forall|k: int| 0 <= k < connectors@.len() ==> #[trigger] connectors@[k].spec_dev() == *self,
            decreases raws.len() - i,
        {
            connectors.push(Connector::new(self, raws[i])?);
            i = i + 1;
        }
        Ok(connectors)
    }

    /// All CRTCs of the device, in enumeration order.
    pub fn get_crtcs<'a>(&'a self) -> (r: Result<Vec<Crtc<'a, T>>, Error>)
        ensures
            r matches Ok(v) ==> forall|i: int| 0 <= i < v@.len() ==> #[trigger] v@[i].spec_dev() == *self,
    {
        let ids = self.raw.get_crtcs()?;
        Ok(Crtc::from_ids(self, &ids))
    }

    /// All planes of the device, in enumeration order.
    pub fn get_planes<'a>(&'a self) -> (r: Result<Vec<Plane<'a, T>>, Error>)
        ensures
            r matches Ok(v) ==> forall|i: int| 0 <= i < v@.len() ==> #[trigger] v@[i].spec_dev() == *self,
    {
        let ids = self.raw.get_planes()?;
        let mut planes: Vec<Plane<'a, T>> = Vec::new();
        let mut i: usize = 0;
        while i < ids.len()
            invariant
                i <= ids@.len(),
                forall|k: int| 0 <= k < planes@.len() ==> #[trigger] planes@[k].spec_dev() == *self,
            decreases ids.len() - i,
        {
            planes.push(Plane::new(self, ids[i]));
            i = i + 1;
        }
        Ok(planes)
    }

    /// The properties of the object of type `object_type` and id `object_id`,
    /// with their names, from a fresh query.
    pub fn get_object_properties<'a>(&'a self, object_type: ObjectType, object_id: u32) -> (r: Result<
        Vec<Property<'a, T>>,
        Error,
    >)
        ensures
            r matches Ok(v) ==> forall|i: int| 0 <= i < v@.len() ==> #[trigger] v@[i].spec_dev() == *self,
    {
        let ids = self.raw.get_properties(object_type.code(), object_id)?;
        let mut properties: Vec<Property<'a, T>> = Vec::new();
        let mut i: usize = 0;
        while i < ids.len()
            invariant
                i <= ids@.len(),
                forall|k: int| 0 <= k < properties@.len() ==> #[trigger] properties@[k].spec_dev() == *self,
            decreases ids.len() - i,
        {
            let raw = self.raw.get_property(ids[i])?;
            properties.push(Property::new(self, raw)?);
            i = i + 1;
        }
        Ok(properties)
    }

    /// The properties of `obj`, with their names, from a fresh query.
    pub fn get_properties<'a, O: Object<T>>(&'a self, obj: &O) -> (r: Result<
        Vec<Property<'a, T>>,
        Error,
    >)
        ensures
            r matches Ok(v) ==> forall|i: int| 0 <= i < v@.len() ==> #[trigger] v@[i].spec_dev() == *self,
    {
        self.get_object_properties(obj.get_type(), obj.get_id())
    }

    /// The id of the property named `name` of the given object, from a fresh
    /// query; `NoneError` when the object has no property of that name.
    pub fn lookup_property_id(&self, object_type: ObjectType, object_id: u32, name: &str) -> (r:
        Result<u32, Error>)
        ensures
            r is Ok || r == Err::<u32, Error>(Error::NoneError) ==> exists|entries: Seq<(u32, Seq<char>)>|
                #[trigger] first_match(entries, name@) == r,
    {
        let props = match self.get_object_properties(object_type, object_id) {
            Ok(v) => v,
            Err(e) => {
                assert(first_match(Seq::<(u32, Seq<char>)>::empty(), name@) == Err::<u32, Error>(
                    Error::NoneError,
                ));
                return Err(e);
            },
        };
        let r = find_property_id(&props, name);
        assert(first_match(named_ids(props@), name@) == r);
        r
    }
}

} // verus!
