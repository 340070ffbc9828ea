use vstd::prelude::*;

use crate::atomic::replaced;
use crate::atomic::AtomicProperty;
use crate::atomic::AtomicRequest;
use crate::buffer::Buffer;
use crate::connector::Connector;
use crate::crtc::Crtc;
use crate::device::Device;
use crate::encoder::Encoder;
use crate::error::Error;
use crate::graph::first_fit;
use crate::graph::first_of;
use crate::mode::Mode;
use crate::mode::ModeInfo;
use crate::object::Object;
use crate::plane::Plane;
use crate::transport::Transport;

verus! {

/// What a buffer contributes to a pipeline: width, height and framebuffer id.
pub type BufferInfo = (usize, usize, Option<u32>);

/// The model of a pipeline under construction.
pub struct InitView {
    pub buffer: Option<BufferInfo>,
    pub mode: Option<ModeInfo>,
    pub plane: Option<u32>,
    pub crtc: Option<u32>,
    pub encoder: Option<u32>,
    pub connector: Option<u32>,
    pub plane_x: isize,
    pub plane_y: isize,
    pub plane_w: Option<usize>,
    pub plane_h: Option<usize>,
    pub request: Seq<AtomicProperty>,
}

impl InitView {
    /// All six entity slots are filled.
    pub open spec fn complete(self) -> bool {
        &&& self.buffer is Some
        &&& self.mode is Some
        &&& self.plane is Some
        &&& self.crtc is Some
        &&& self.encoder is Some
        &&& self.connector is Some
    }

    /// The buffer's size in 16.16 fixed point fits 64 bits.
    pub open spec fn source_fits(self) -> bool {
        let (w, h, fb) = self.buffer->0;
        fixed16(w) <= u64::MAX && fixed16(h) <= u64::MAX
    }

    /// The buffer slot holds a buffer registered as a framebuffer.
    pub open spec fn buffer_registered(self) -> bool {
        self.buffer matches Some((_, _, Some(_)))
    }
}

/// A source or on-screen extent in the 16.16 fixed-point form that planes take.
pub open spec fn fixed16(v: usize) -> int {
    v as int * 65536
}

/// The writes that the first commit of a complete pipeline adds, as (object
/// id, value) pairs in order; the value of the mode blob is the kernel's.
pub open spec fn initial_writes(v: InitView) -> Seq<(u32, Option<u64>)> {
    let plane = v.plane->0;
    let crtc = v.crtc->0;
    let conn = v.connector->0;
    let (bw, bh, fb) = v.buffer->0;
    let pw = match v.plane_w {
        Some(w) => w,
        None => bw,
    };
    let ph = match v.plane_h {
        Some(h) => h,
        None => bh,
    };
    seq![
        (plane, Some(fb->0 as u64)),
        (plane, Some(crtc as u64)),
        (plane, Some(0u64)),
        (plane, Some(0u64)),
        (plane, Some(fixed16(bh) as u64)),
        (plane, Some(fixed16(bw) as u64)),
        (plane, Some(v.plane_x as u64)),
        (plane, Some(v.plane_y as u64)),
        (plane, Some(ph as u64)),
        (plane, Some(pw as u64)),
        (crtc, None),
        (crtc, Some(1u64)),
        (conn, Some(crtc as u64)),
    ]
}

/// `s` is `before` followed by writes that match `w` in object and value.
pub open spec fn extends_with(s: Seq<AtomicProperty>, before: Seq<AtomicProperty>, w: Seq<(u32, Option<u64>)>) -> bool {
    &&& s.len() == before.len() + w.len()
    &&& s.take(before.len() as int) == before
    &&& forall|k: int|
        0 <= k < w.len() ==> {
            &&& (#[trigger] s[before.len() + k]).object_id == w[k].0
            &&& (w[k].1 matches Some(val) ==> s[before.len() + k].value == val)
        }
}

/// The 16.16 fixed-point form of `v`; `OutOfRangeError` when it does not fit
/// 64 bits.
pub fn to_fixed16(v: usize) -> (r: Result<u64, Error>)
    ensures
        fixed16(v) <= u64::MAX ==> r == Ok::<u64, Error>(fixed16(v) as u64),
        fixed16(v) > u64::MAX ==> r == Err::<u64, Error>(Error::OutOfRangeError),
{
    if v as u64 > 0xffff_ffff_ffffu64 {
        return Err(Error::OutOfRangeError);
    }
    Ok((v as u64) * 65536)
}

/// A pipeline being assembled: a connector, encoder, CRTC and plane chain, a
/// mode, a buffer and plane geometry, plus extra writes for the first commit.
pub struct PipelineInit<'a, T: Transport> {
    dev: &'a Device<T>,
    buffer: Option<&'a Buffer<'a, T>>,
    mode: Option<Mode>,
    plane: Option<Plane<'a, T>>,
    plane_x: isize,
    plane_y: isize,
    plane_h: Option<usize>,
    plane_w: Option<usize>,
    crtc: Option<Crtc<'a, T>>,
    encoder: Option<Encoder<'a, T>>,
    connector: Option<Connector<'a, T>>,
    request: AtomicRequest<'a, T>,
}

pub open spec fn buffer_info<'a, T: Transport>(b: &Buffer<'a, T>) -> BufferInfo {
    (b.spec_width(), b.spec_height(), b.spec_fb_id())
}

impl<'a, T: Transport> View for PipelineInit<'a, T> {
    type V = InitView;

    closed spec fn view(&self) -> InitView {
        InitView {
            buffer: match self.buffer {
                Some(b) => Some(buffer_info(b)),
                None => None,
            },
            mode: match self.mode {
                Some(m) => Some(m.spec_info()),
                None => None,
            },
            plane: match self.plane {
                Some(p) => Some(p.spec_id()),
                None => None,
            },
            crtc: match self.crtc {
                Some(c) => Some(c.spec_id()),
                None => None,
            },
            encoder: match self.encoder {
                Some(e) => Some(e.spec_id()),
                None => None,
            },
            connector: match self.connector {
                Some(c) => Some(c.spec_id()),
                None => None,
            },
            plane_x: self.plane_x,
            plane_y: self.plane_y,
            plane_w: self.plane_w,
            plane_h: self.plane_h,
            request: self.request.spec_properties(),
        }
    }
}

impl<'a, T: Transport> PipelineInit<'a, T> {
    /// An empty builder on `dev`: no slot filled, plane at the origin.
    pub fn new(dev: &'a Device<T>) -> (r: PipelineInit<'a, T>)
        ensures
            r@ == (InitView {
                buffer: None,
                mode: None,
                plane: None,
                crtc: None,
                encoder: None,
                connector: None,
                plane_x: 0,
                plane_y: 0,
                plane_w: None,
                plane_h: None,
                request: Seq::<AtomicProperty>::empty(),
            }),
    {
        PipelineInit {
            dev,
            buffer: None,
            mode: None,
            plane: None,
            plane_x: 0,
            plane_y: 0,
            plane_h: None,
            plane_w: None,
            crtc: None,
            encoder: None,
            connector: None,
            request: AtomicRequest::new(dev),
        }
    }

    /// Adds a write of `value` to `object`'s property named `property` to the
    /// first commit.
    pub fn add_property<O: Object<T>>(self, object: &O, property: &str, value: u64) -> (r: Result<
        PipelineInit<'a, T>,
        Error,
    >)
        ensures
            r matches Ok(q) ==> exists|pid: u32|
                q@ == (InitView {
                    request: self@.request.push(
                        #[trigger] AtomicProperty::new_spec(object.spec_id(), pid, value),
                    ),
                    ..self@
                }),
    {
        let mut q = self;
        let request = q.request.add_property(object, property, value)?;
        q.request = request;
        Ok(q)
    }

    pub fn set_buffer(self, buffer: &'a Buffer<'a, T>) -> (r: PipelineInit<'a, T>)
        ensures
            r@ == (InitView { buffer: Some(buffer_info(buffer)), ..self@ }),
    {
        let mut q = self;
        q.buffer = Some(buffer);
        q
    }

    pub fn set_connector(self, connector: Connector<'a, T>) -> (r: PipelineInit<'a, T>)
        ensures
            r@ == (InitView { connector: Some(connector.spec_id()), ..self@ }),
    {
        let mut q = self;
        q.connector = Some(connector);
        q
    }

    pub fn set_crtc(self, crtc: Crtc<'a, T>) -> (r: PipelineInit<'a, T>)
        ensures
            r@ == (InitView { crtc: Some(crtc.spec_id()), ..self@ }),
    {
        let mut q = self;
        q.crtc = Some(crtc);
        q
    }

    pub fn set_encoder(self, encoder: Encoder<'a, T>) -> (r: PipelineInit<'a, T>)
        ensures
            r@ == (InitView { encoder: Some(encoder.spec_id()), ..self@ }),
    {
        let mut q = self;
        q.encoder = Some(encoder);
        q
    }

    pub fn set_mode(self, mode: Mode) -> (r: PipelineInit<'a, T>)
        ensures
            r@ == (InitView { mode: Some(mode.spec_info()), ..self@ }),
    {
        let mut q = self;
        q.mode = Some(mode);
        q
    }

    pub fn set_plane(self, plane: Plane<'a, T>) -> (r: PipelineInit<'a, T>)
        ensures
            r@ == (InitView { plane: Some(plane.spec_id()), ..self@ }),
    {
        let mut q = self;
        q.plane = Some(plane);
        q
    }

    /// The on-screen position of the plane's top-left corner.
    pub fn set_plane_coordinates(self, x: isize, y: isize) -> (r: PipelineInit<'a, T>)
        ensures
            r@ == (InitView { plane_x: x, plane_y: y, ..self@ }),
    {
        let mut q = self;
        q.plane_x = x;
        q.plane_y = y;
        q
    }

    /// The on-screen size of the plane; the buffer's size when never set.
    pub fn set_plane_dimensions(self, w: usize, h: usize) -> (r: PipelineInit<'a, T>)
        ensures
            r@ == (InitView { plane_w: Some(w), plane_h: Some(h), ..self@ }),
    {
        let mut q = self;
        q.plane_h = Some(h);
        q.plane_w = Some(w);
        q
    }

    /// Fills the connector, encoder, CRTC and plane slots by a first-fit walk
    /// from `connector`: its first encoder, that encoder's first possible CRTC,
    /// that CRTC's first possible plane. Fails with `NoneError` as soon as a
    /// list is empty; it never goes back to try a later candidate.
    pub fn discover(self, connector: Connector<'a, T>) -> (r: Result<PipelineInit<'a, T>, Error>)
        ensures
            r matches Ok(q) ==> {
                &&& q@ == (InitView {
                    connector: Some(connector.spec_id()),
                    encoder: q@.encoder,
                    crtc: q@.crtc,
                    plane: q@.plane,
                    ..self@
                })
                &&& q@.encoder is Some
                &&& q@.crtc is Some
                &&& q@.plane is Some
                &&& exists|encoders: Seq<u32>, crtcs: Seq<u32>, planes: Seq<u32>|
                    #[trigger] first_fit(encoders, crtcs, planes) == Ok::<(u32, u32, u32), Error>(
                        (q@.encoder->0, q@.crtc->0, q@.plane->0),
                    )
            },
    {
        let mut encoders = connector.get_encoders()?;
        let encoder_ids = Encoder::ids_of(&encoders);
        let encoder_id = first_of(&encoder_ids)?;
        let encoder = encoders.remove(0);
        let mut crtcs = encoder.get_possible_crtcs()?;
        let crtc_ids = Crtc::ids_of(&crtcs);
        let crtc_id = first_of(&crtc_ids)?;
        let crtc = crtcs.remove(0);
        let mut planes = crtc.get_possible_planes()?;
        let plane_ids = Plane::ids_of(&planes);
        let plane_id = first_of(&plane_ids)?;
        let plane = planes.remove(0);
        assert(first_fit(encoder_ids@, crtc_ids@, plane_ids@) == Ok::<(u32, u32, u32), Error>(
            (encoder_id, crtc_id, plane_id),
        ));
        let mut q = self;
        q.connector = Some(connector);
        q.encoder = Some(encoder);
        q.crtc = Some(crtc);
        q.plane = Some(plane);
        assert(q@.encoder->0 == encoder_id && q@.crtc->0 == crtc_id && q@.plane->0 == plane_id);
        Ok(q)
    }

    /// Registers the mode as a property blob, adds the writes that put the
    /// buffer on screen through the chain, and commits them with any extra
    /// writes as one transaction.
    ///
    /// Fails with `UninitializedError`, before any request to the device, when
    /// a slot among buffer, mode, plane, CRTC, encoder and connector is empty
    /// or when the buffer is not registered as a framebuffer, and with
    /// `OutOfRangeError` when the buffer's size does not fit 16.16 fixed point
    /// in 64 bits. A property name that does not resolve fails the build with
    /// `NoneError` before the commit.
    pub fn build(self) -> (r: Result<Pipeline<'a, T>, Error>)
        ensures
            !self@.complete() ==> r == Err::<Pipeline<'a, T>, Error>(Error::UninitializedError),
            self@.complete() && !self@.buffer_registered() ==> r == Err::<Pipeline<'a, T>, Error>(
                Error::UninitializedError,
            ),
            self@.complete() && self@.buffer_registered() && !self@.source_fits() ==> r == Err::<
                Pipeline<'a, T>,
                Error,
            >(Error::OutOfRangeError),
            r matches Ok(p) ==> {
                &&& p@.buffer == self@.buffer->0
                &&& p@.plane == self@.plane->0
                &&& p@.crtc == self@.crtc->0
                &&& extends_with(p@.request, self@.request, initial_writes(self@))
            },
    {
        if self.buffer.is_none() || self.mode.is_none() || self.plane.is_none()
            || self.crtc.is_none() || self.encoder.is_none() || self.connector.is_none() {
            return Err(Error::UninitializedError);
        }
        let ghost v = self@;
        let PipelineInit {
            dev,
            buffer,
            mode,
            plane,
            plane_x,
            plane_y,
            plane_h,
            plane_w,
            crtc,
            encoder: _,
            connector,
            request,
        } = self;
        let buffer = buffer.unwrap();
        let mode = mode.unwrap();
        let plane = plane.unwrap();
        let crtc = crtc.unwrap();
        let connector = connector.unwrap();
        let fb_id = match buffer.get_framebuffer_id() {
            Some(f) => f,
            None => return Err(Error::UninitializedError),
        };
        let bh = buffer.get_height();
        let bw = buffer.get_width();
        let ph = match plane_h {
            Some(x) => x,
            None => bh,
        };
        let pw = match plane_w {
            Some(x) => x,
            None => bw,
        };
        let src_h = to_fixed16(bh)?;
        let src_w = to_fixed16(bw)?;
        let mode_id = dev.raw.create_property_blob(&mode.into_inner().to_bytes())?;
        let plane_id = plane.get_id();
        let crtc_id = crtc.get_id();
        let ghost before = request.spec_properties();
        let mut req = request;
        let id = plane.get_property_id("FB_ID")?;
        req = req.push_property(AtomicProperty::new(plane_id, id, fb_id as u64));
        let id = plane.get_property_id("CRTC_ID")?;
        req = req.push_property(AtomicProperty::new(plane_id, id, crtc_id as u64));
        let id = plane.get_property_id("SRC_X")?;
        req = req.push_property(AtomicProperty::new(plane_id, id, 0));
        let id = plane.get_property_id("SRC_Y")?;
        req = req.push_property(AtomicProperty::new(plane_id, id, 0));
        let id = plane.get_property_id("SRC_H")?;
        req = req.push_property(AtomicProperty::new(plane_id, id, src_h));
        let id = plane.get_property_id("SRC_W")?;
        req = req.push_property(AtomicProperty::new(plane_id, id, src_w));
        let id = plane.get_property_id("CRTC_X")?;
        req = req.push_property(AtomicProperty::new(plane_id, id, plane_x as u64));
        let id = plane.get_property_id("CRTC_Y")?;
        req = req.push_property(AtomicProperty::new(plane_id, id, plane_y as u64));
        let id = plane.get_property_id("CRTC_H")?;
        req = req.push_property(AtomicProperty::new(plane_id, id, ph as u64));
        let id = plane.get_property_id("CRTC_W")?;
        req = req.push_property(AtomicProperty::new(plane_id, id, pw as u64));
        let id = crtc.get_property_id("MODE_ID")?;
        req = req.push_property(AtomicProperty::new(crtc_id, id, mode_id as u64));
        let id = crtc.get_property_id("ACTIVE")?;
        req = req.push_property(AtomicProperty::new(crtc_id, id, 1));
        let id = connector.get_property_id("CRTC_ID")?;
        req = req.push_property(AtomicProperty::new(connector.get_id(), id, crtc_id as u64));
        proof {
            let s = req.spec_properties();
            let w = initial_writes(v);
            assert(s.take(before.len() as int) =~= before);
            assert forall|k: int| 0 <= k < w.len() implies {
                &&& (#[trigger] s[before.len() + k]).object_id == w[k].0
                &&& (w[k].1 matches Some(val) ==> s[before.len() + k].value == val)
            } by {}
        }
        req.commit()?;
        Ok(Pipeline { dev, buffer, plane, crtc, request: req })
    }
}

/// The model of a committed pipeline.
pub struct PipelineView {
    pub buffer: BufferInfo,
    pub plane: u32,
    pub crtc: u32,
    pub request: Seq<AtomicProperty>,
}

/// A committed pipeline: the writes of its last commit, which updates change
/// in place until the next commit.
pub struct Pipeline<'a, T: Transport> {
    dev: &'a Device<T>,
    buffer: &'a Buffer<'a, T>,
    plane: Plane<'a, T>,
    crtc: Crtc<'a, T>,
    request: AtomicRequest<'a, T>,
}

impl<'a, T: Transport> View for Pipeline<'a, T> {
    type V = PipelineView;

    closed spec fn view(&self) -> PipelineView {
        PipelineView {
            buffer: buffer_info(self.buffer),
            plane: self.plane.spec_id(),
            crtc: self.crtc.spec_id(),
            request: self.request.spec_properties(),
        }
    }
}

/// `after` is `before` with the first write to each (object, property) key of
/// `a` and then of `b` replaced by them.
pub open spec fn replaced_two(
    before: Seq<AtomicProperty>,
    a: AtomicProperty,
    b: AtomicProperty,
    after: Seq<AtomicProperty>,
) -> bool {
    replaced(before, a) matches Some(mid) && replaced(mid, b) == Some(after)
}

impl<'a, T: Transport> Pipeline<'a, T> {
    /// The writes of the next commit.
    pub fn get_properties(&self) -> (r: &Vec<AtomicProperty>)
        ensures
            r@ == self@.request,
    {
        self.request.get_properties()
    }

    /// Submits the writes as one transaction; the pipeline is unchanged.
    pub fn commit(self) -> (r: Result<Pipeline<'a, T>, Error>)
        ensures
            r matches Ok(p) ==> p@ == self@,
    {
        self.request.commit()?;
        Ok(self)
    }

    /// Shows `buffer` from the next commit on: replaces the plane's `FB_ID`
    /// write by the buffer's framebuffer id. Fails with `UninitializedError`
    /// when the buffer is not registered as a framebuffer, or when the plane
    /// has no `FB_ID` write.
    pub fn update_buffer(self, buffer: &'a Buffer<'a, T>) -> (r: Result<Pipeline<'a, T>, Error>)
        ensures
            buffer.spec_fb_id() is None ==> r == Err::<Pipeline<'a, T>, Error>(
                Error::UninitializedError,
            ),
            r matches Ok(p) ==> {
                &&& p@.buffer == buffer_info(buffer)
                &&& p@.plane == self@.plane
                &&& p@.crtc == self@.crtc
                &&& exists|pid: u32|
                    replaced(
                        self@.request,
                        #[trigger] AtomicProperty::new_spec(
                            self@.plane,
                            pid,
                            buffer.spec_fb_id()->0 as u64,
                        ),
                    ) == Some(p@.request)
            },
    {
        let fb_id = match buffer.get_framebuffer_id() {
            Some(f) => f,
            None => return Err(Error::UninitializedError),
        };
        let Pipeline { dev, buffer: _, plane, crtc, request } = self;
        let id = plane.get_property_id("FB_ID")?;
        let p = AtomicProperty::new(plane.get_id(), id, fb_id as u64);
        let request = request.replace_property(p)?;
        assert(p == AtomicProperty::new_spec(self@.plane, id, buffer.spec_fb_id()->0 as u64));
        Ok(Pipeline { dev, buffer, plane, crtc, request })
    }

    /// Moves the plane on screen from the next commit on: replaces its
    /// `CRTC_X` and `CRTC_Y` writes.
    pub fn update_plane_coordinates(self, x: isize, y: isize) -> (r: Result<Pipeline<'a, T>, Error>)
        ensures
            r matches Ok(p) ==> {
                &&& p@.buffer == self@.buffer
                &&& p@.plane == self@.plane
                &&& p@.crtc == self@.crtc
                &&& exists|px: u32, py: u32|
                    replaced_two(
                        self@.request,
                        #[trigger] AtomicProperty::new_spec(self@.plane, px, x as u64),
                        #[trigger] AtomicProperty::new_spec(self@.plane, py, y as u64),
                        p@.request,
                    )
            },
    {
        self.update_two("CRTC_X", x as u64, "CRTC_Y", y as u64)
    }

    /// Changes the part of the buffer shown from the next commit on: replaces
    /// the plane's `SRC_H` and `SRC_W` writes by `h` and `w` in 16.16 fixed
    /// point. Fails with `OutOfRangeError` when either does not fit 64 bits.
    pub fn update_plane_size(self, w: usize, h: usize) -> (r: Result<Pipeline<'a, T>, Error>)
        ensures
            fixed16(w) > u64::MAX || fixed16(h) > u64::MAX ==> r == Err::<Pipeline<'a, T>, Error>(
                Error::OutOfRangeError,
            ),
            r matches Ok(p) ==> {
                &&& p@.buffer == self@.buffer
                &&& p@.plane == self@.plane
                &&& p@.crtc == self@.crtc
                &&& exists|ph: u32, pw: u32|
                    replaced_two(
                        self@.request,
                        #[trigger] AtomicProperty::new_spec(self@.plane, ph, fixed16(h) as u64),
                        #[trigger] AtomicProperty::new_spec(self@.plane, pw, fixed16(w) as u64),
                        p@.request,
                    )
            },
    {
        let src_h = to_fixed16(h)?;
        let src_w = to_fixed16(w)?;
        self.update_two("SRC_H", src_h, "SRC_W", src_w)
    }

    /// Changes the plane's on-screen size from the next commit on: replaces
    /// its `CRTC_H` and `CRTC_W` writes.
    pub fn update_plane_display_size(self, w: usize, h: usize) -> (r: Result<Pipeline<'a, T>, Error>)
        ensures
            r matches Ok(p) ==> {
                &&& p@.buffer == self@.buffer
                &&& p@.plane == self@.plane
                &&& p@.crtc == self@.crtc
                &&& exists|ph: u32, pw: u32|
                    replaced_two(
                        self@.request,
                        #[trigger] AtomicProperty::new_spec(self@.plane, ph, h as u64),
                        #[trigger] AtomicProperty::new_spec(self@.plane, pw, w as u64),
                        p@.request,
                    )
            },
    {
        self.update_two("CRTC_H", h as u64, "CRTC_W", w as u64)
    }

    /// Replaces the plane's write named `first`, then the one named `second`.
    fn update_two(self, first: &str, v1: u64, second: &str, v2: u64) -> (r: Result<
        Pipeline<'a, T>,
        Error,
    >)
        ensures
            r matches Ok(p) ==> {
                &&& p@.buffer == self@.buffer
                &&& p@.plane == self@.plane
                &&& p@.crtc == self@.crtc
                &&& exists|id1: u32, id2: u32|
                    replaced_two(
                        self@.request,
                        #[trigger] AtomicProperty::new_spec(self@.plane, id1, v1),
                        #[trigger] AtomicProperty::new_spec(self@.plane, id2, v2),
                        p@.request,
                    )
            },
    {
        let Pipeline { dev, buffer, plane, crtc, request } = self;
        let id1 = plane.get_property_id(first)?;
        let a = AtomicProperty::new(plane.get_id(), id1, v1);
        let request = request.replace_property(a)?;
        let id2 = plane.get_property_id(second)?;
        let b = AtomicProperty::new(plane.get_id(), id2, v2);
        let request = request.replace_property(b)?;
        assert(a == AtomicProperty::new_spec(self@.plane, id1, v1));
        assert(b == AtomicProperty::new_spec(self@.plane, id2, v2));
        Ok(Pipeline { dev, buffer, plane, crtc, request })
    }
}

} // verus!
