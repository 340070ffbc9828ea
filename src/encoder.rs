use vstd::prelude::*;

use crate::crtc::Crtc;
use crate::device::Device;
use crate::error::Error;
use crate::graph::select_by_mask;
use crate::graph::select_masked;
use crate::object::Object;
use crate::transport::Transport;

verus! {

/// Kinds of encoders.
#[derive(Debug, Clone, Copy, PartialEq, Eq, Structural)]
pub enum EncoderType {
    NoType,
    DAC,
    TMDS,
    LVDS,
    TVDAC,
    Virtual,
    DSI,
    DPMST,
}

/// The kernel's code for each encoder type.
pub open spec fn encoder_type_code(t: EncoderType) -> u32 {
    match t {
        EncoderType::NoType => 0,
        EncoderType::DAC => 1,
        EncoderType::TMDS => 2,
        EncoderType::LVDS => 3,
        EncoderType::TVDAC => 4,
        EncoderType::Virtual => 5,
        EncoderType::DSI => 6,
        EncoderType::DPMST => 7,
    }
}

impl EncoderType {
    /// The encoder type the kernel means by `v`; `None` for a code it does not
    /// define.
    pub fn from_code(v: u32) -> (r: Option<EncoderType>)
        ensures
            r is Some <==> v < 8,
            r matches Some(t) ==> encoder_type_code(t) == v,
    {
        match v {
            0 => Some(EncoderType::NoType),
            1 => Some(EncoderType::DAC),
            2 => Some(EncoderType::TMDS),
            3 => Some(EncoderType::LVDS),
            4 => Some(EncoderType::TVDAC),
            5 => Some(EncoderType::Virtual),
            6 => Some(EncoderType::DSI),
            7 => Some(EncoderType::DPMST),
            _ => None,
        }
    }
}

/// A hardware block that turns a CRTC's pixel stream into a connector's signal.
#[derive(Debug)]
pub struct Encoder<'a, T: Transport> {
    dev: &'a Device<T>,
    id: u32,
    type_: EncoderType,
}

/// The ids of a list of CRTC handles, in order.
pub open spec fn crtc_ids<'a, T: Transport>(v: Seq<Crtc<'a, T>>) -> Seq<u32> {
    v.map_values(|c: Crtc<'a, T>| c.spec_id())
}

impl<'a, T: Transport> Encoder<'a, T> {
    /// The device this handle belongs to.
    pub closed spec fn spec_dev(&self) -> Device<T> {
        *self.dev
    }

    pub closed spec fn spec_id(&self) -> u32 {
        self.id
    }

    pub closed spec fn spec_encoder_type(&self) -> EncoderType {
        self.type_
    }

    /// The encoder with id `id`, as the device describes it now. Fails with
    /// `OutOfRangeError` on a type code the kernel does not define.
    pub fn new_from_id(dev: &'a Device<T>, id: u32) -> (r: Result<Encoder<'a, T>, Error>)
        ensures
            r matches Ok(e) ==> e.spec_id() == id && e.spec_dev() == *dev,
    {
        let encoder = dev.raw.get_encoder(id)?;
        let type_ = match EncoderType::from_code(encoder.encoder_type) {
            Some(t) => t,
            None => return Err(Error::OutOfRangeError),
        };
        Ok(Encoder { dev, id, type_ })
    }

    /// The ids of the given encoders, in order.
    pub fn ids_of(v: &Vec<Encoder<'a, T>>) -> (r: Vec<u32>)
        ensures
            r@.len() == v@.len(),
            forall|i: int| 0 <= i < v@.len() ==> #[trigger] r@[i] == v@[i].spec_id(),
    {
        let mut out: Vec<u32> = Vec::new();
        let mut i: usize = 0;
        while i < v.len()
            invariant
                i <= v@.len(),
                out@.len() == i,
                forall|k: int| 0 <= k < i ==> #[trigger] out@[k] == v@[k].spec_id(),
            decreases v.len() - i,
        {
            out.push(v[i].get_id());
            i = i + 1;
        }
        out
    }

    pub fn get_id(&self) -> (r: u32)
        ensures
            r == self.spec_id(),
    {
        self.id
    }

    pub fn get_type(&self) -> (r: EncoderType)
        ensures
            r == self.spec_encoder_type(),
    {
        self.type_
    }

    /// The CRTCs this encoder can drive: those whose position in the device's
    /// current CRTC enumeration is set in the encoder's compatibility mask, in
    /// enumeration order.
    pub fn get_possible_crtcs(&self) -> (r: Result<Vec<Crtc<'a, T>>, Error>)
        ensures
            r matches Ok(v) ==> exists|mask: u32, ids: Seq<u32>|
                #[trigger] select_masked(mask, ids) == crtc_ids(v@),
            r matches Ok(v) ==> forall|i: int| 0 <= i < v@.len() ==> #[trigger] v@[i].spec_dev()
                == self.spec_dev(),
    {
        let encoder = self.dev.raw.get_encoder(self.id)?;
        let ids = self.dev.raw.get_crtcs()?;
        let selected = select_by_mask(encoder.possible_crtcs, &ids);
        let v = Crtc::from_ids(self.dev, &selected);
        assert(select_masked(encoder.possible_crtcs, ids@) == crtc_ids(v@));
        Ok(v)
    }
}

} // verus!
