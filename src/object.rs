use vstd::prelude::*;

use crate::device::Device;
use crate::error::Error;
use crate::property::first_match;
use crate::transport::Transport;

verus! {

/// Kinds of kernel mode-setting objects.
#[derive(Debug, Clone, Copy, PartialEq, Eq, Structural)]
pub enum ObjectType {
    Any,
    Property,
    Blob,
    Connector,
    Crtc,
    Mode,
    Encoder,
    Plane,
    Fb,
}

/// The tag under which the kernel knows each kind of object.
pub open spec fn object_type_code(t: ObjectType) -> u32 {
    match t {
        ObjectType::Any => 0,
        ObjectType::Property => 0xb0b0b0b0,
        ObjectType::Blob => 0xbbbbbbbb,
        ObjectType::Connector => 0xc0c0c0c0,
        ObjectType::Crtc => 0xcccccccc,
        ObjectType::Mode => 0xdededede,
        ObjectType::Encoder => 0xe0e0e0e0,
        ObjectType::Plane => 0xeeeeeeee,
        ObjectType::Fb => 0xfbfbfbfb,
    }
}

impl ObjectType {
    /// The kernel's tag for this kind of object.
    pub fn code(&self) -> (r: u32)
        ensures
            r == object_type_code(*self),
    {
        match self {
            ObjectType::Any => 0,
            ObjectType::Property => 0xb0b0b0b0,
            ObjectType::Blob => 0xbbbbbbbb,
            ObjectType::Connector => 0xc0c0c0c0,
            ObjectType::Crtc => 0xcccccccc,
            ObjectType::Mode => 0xdededede,
            ObjectType::Encoder => 0xe0e0e0e0,
            ObjectType::Plane => 0xeeeeeeee,
            ObjectType::Fb => 0xfbfbfbfb,
        }
    }
}

/// A kernel object with an identity and a type tag, whose properties can be
/// looked up by name through its device.
pub trait Object<T: Transport> {
    spec fn spec_id(&self) -> u32;

    spec fn spec_type(&self) -> ObjectType;

    fn get_dev(&self) -> &Device<T>;

    fn get_id(&self) -> (r: u32)
        ensures
            r == self.spec_id(),
    ;

    fn get_type(&self) -> (r: ObjectType)
        ensures
            r == self.spec_type(),
    ;

    /// The id of this object's property named `property`, from a fresh query
    /// of the device; `NoneError` when no property has that name.
    fn get_property_id(&self, property: &str) -> (r: Result<u32, Error>)
        ensures
            r is Ok || r == Err::<u32, Error>(Error::NoneError) ==> exists|entries: Seq<(u32, Seq<char>)>|
                #[trigger] first_match(entries, property@) == r,
    ;
}

} // verus!
