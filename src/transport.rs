use vstd::prelude::*;

use crate::error::Error;
use crate::mode::ModeInfo;

verus! {

/// A connector as the kernel reports it.
#[derive(Debug, Clone, Copy)]
pub struct RawConnector {
    pub connector_id: u32,
    pub connector_type: u32,
    /// Index among connectors of the same type, counted from 1.
    pub connector_type_id: u32,
    pub connection: u32,
    pub mm_width: u32,
    pub mm_height: u32,
}

/// An encoder as the kernel reports it.
#[derive(Debug, Clone, Copy)]
pub struct RawEncoder {
    pub encoder_id: u32,
    pub encoder_type: u32,
    /// Bit `i` set: the encoder can drive the `i`-th CRTC in enumeration order.
    pub possible_crtcs: u32,
}

/// A plane as the kernel reports it.
#[derive(Debug, Clone, Copy)]
pub struct RawPlane {
    pub plane_id: u32,
    /// Bit `i` set: the plane can be shown on the `i`-th CRTC in enumeration order.
    pub possible_crtcs: u32,
}

/// A property as the kernel reports it; the name is zero-padded.
#[derive(Debug, Clone, Copy)]
pub struct RawProperty {
    pub prop_id: u32,
    pub name: [u8; 32],
}

/// A dumb buffer as the kernel allocated it.
#[derive(Debug, Clone, Copy)]
pub struct RawDumbBuffer {
    pub width: u32,
    pub height: u32,
    pub bpp: u32,
    pub handle: u32,
    pub pitch: u32,
    pub size: u64,
}

/// The requests that the library issues to a kernel mode-setting device.
///
/// Nothing is assumed of the answers: every operation of the library is
/// correct whatever an implementation returns.
pub trait Transport {
    /// A CPU-visible mapping of a buffer's memory.
    type Mapping;

    fn set_client_capability(&self, cap: u64) -> Result<(), Error>;

    /// All connectors, in enumeration order.
    fn get_connectors(&self) -> Result<Vec<RawConnector>, Error>;

    fn get_connector_modes(&self, id: u32) -> Result<Vec<ModeInfo>, Error>;

    /// The ids of the encoders that can feed connector `id`, in the kernel's order.
    fn get_connector_encoders(&self, id: u32) -> Result<Vec<u32>, Error>;

    fn get_encoder(&self, id: u32) -> Result<RawEncoder, Error>;

    /// The ids of all CRTCs, in enumeration order.
    fn get_crtcs(&self) -> Result<Vec<u32>, Error>;

    /// The ids of all planes, in enumeration order.
    fn get_planes(&self) -> Result<Vec<u32>, Error>;

    fn get_plane(&self, id: u32) -> Result<RawPlane, Error>;

    /// The ids of the properties of an object of the given type tag.
    fn get_properties(&self, object_type: u32, object_id: u32) -> Result<Vec<u32>, Error>;

    fn get_property(&self, id: u32) -> Result<RawProperty, Error>;

    fn allocate_dumb_buffer(&self, width: u32, height: u32, bpp: u32) -> Result<
        RawDumbBuffer,
        Error,
    >;

    fn destroy_dumb_buffer(&self, handle: u32) -> Result<(), Error>;

    fn map_dumb_buffer(&self, handle: u32, size: usize) -> Result<Self::Mapping, Error>;

    fn unmap(&self, mapping: Self::Mapping) -> Result<(), Error>;

    fn add_framebuffer(&self, handle: u32, width: u32, pitch: u32, height: u32, fmt: u32) -> Result<
        u32,
        Error,
    >;

    fn remove_framebuffer(&self, fb_id: u32) -> Result<(), Error>;

    fn create_property_blob(&self, data: &Vec<u8>) -> Result<u32, Error>;

    /// One indivisible transaction, in the kernel's parallel-array layout.
    fn atomic_commit(
        &self,
        objects: &Vec<u32>,
        counts: &Vec<u32>,
        props: &Vec<u32>,
        values: &Vec<u64>,
        flags: u32,
    ) -> Result<(), Error>;

    fn set_crtc(
        &self,
        fb_id: u32,
        crtc_id: u32,
        connectors: &Vec<u32>,
        x: u32,
        y: u32,
        mode: Option<ModeInfo>,
    ) -> Result<(), Error>;

    fn set_plane(&self, fb_id: u32, plane_id: u32, crtc_id: u32, w: u32, h: u32) -> Result<
        (),
        Error,
    >;
}

} // verus!
