use vstd::prelude::*;

use crate::device::Device;
use crate::encoder::Encoder;
use crate::error::Error;
use crate::mode::modes_of_timings;
use crate::mode::Mode;
use crate::object::Object;
use crate::object::ObjectType;
use crate::transport::RawConnector;
use crate::transport::Transport;

verus! {

/// Whether a display is plugged into a connector.
#[derive(Debug, Clone, Copy, PartialEq, Eq, Structural)]
pub enum ConnectorStatus {
    Connected,
    Disconnected,
    Unknown,
}

/// The kernel's code for each connector status.
pub open spec fn status_code(s: ConnectorStatus) -> u32 {
    match s {
        ConnectorStatus::Connected => 1,
        ConnectorStatus::Disconnected => 2,
        ConnectorStatus::Unknown => 3,
    }
}

impl ConnectorStatus {
    /// The status the kernel means by `v`; `None` for a code it does not define.
    pub fn from_code(v: u32) -> (r: Option<ConnectorStatus>)
        ensures
            r is Some <==> 1 <= v <= 3,
            r matches Some(s) ==> status_code(s) == v,
    {
        match v {
            1 => Some(ConnectorStatus::Connected),
            2 => Some(ConnectorStatus::Disconnected),
            3 => Some(ConnectorStatus::Unknown),
            _ => None,
        }
    }
}

/// Physical kinds of display outputs.
#[derive(Debug, Clone, Copy, PartialEq, Eq, Structural)]
pub enum ConnectorType {
    Unknown,
    VGA,
    DVII,
    DVID,
    DVIA,
    Composite,
    SVIDEO,
    LVDS,
    Component,
    MiniDin9,
    DisplayPort,
    HDMIA,
    HDMIB,
    TV,
    EDP,
    Virtual,
    DSI,
    DPI,
    Writeback,
    SPI,
}

/// The kernel's code for each connector type.
pub open spec fn connector_type_code(t: ConnectorType) -> u32 {
    match t {
        ConnectorType::Unknown => 0,
        ConnectorType::VGA => 1,
        ConnectorType::DVII => 2,
        ConnectorType::DVID => 3,
        ConnectorType::DVIA => 4,
        ConnectorType::Composite => 5,
        ConnectorType::SVIDEO => 6,
        ConnectorType::LVDS => 7,
        ConnectorType::Component => 8,
        ConnectorType::MiniDin9 => 9,
        ConnectorType::DisplayPort => 10,
        ConnectorType::HDMIA => 11,
        ConnectorType::HDMIB => 12,
        ConnectorType::TV => 13,
        ConnectorType::EDP => 14,
        ConnectorType::Virtual => 15,
        ConnectorType::DSI => 16,
        ConnectorType::DPI => 17,
        ConnectorType::Writeback => 18,
        ConnectorType::SPI => 19,
    }
}

/// The conventional name of each connector type.
pub open spec fn connector_type_name(t: ConnectorType) -> Seq<char> {
    match t {
        ConnectorType::Component => "Component"@,
        ConnectorType::Composite => "Composite"@,
        ConnectorType::DPI => "DPI"@,
        ConnectorType::DSI => "DSI"@,
        ConnectorType::DVIA => "DVI-A"@,
        ConnectorType::DVID => "DVI-D"@,
        ConnectorType::DVII => "DVI-I"@,
        ConnectorType::DisplayPort => "DisplayPort"@,
        ConnectorType::EDP => "eDP"@,
        ConnectorType::HDMIA => "HDMI-A"@,
        ConnectorType::HDMIB => "HDMI-B"@,
        ConnectorType::LVDS => "LVDS"@,
        ConnectorType::MiniDin9 => "MiniDin9"@,
        ConnectorType::SPI => "SPI"@,
        ConnectorType::SVIDEO => "S-VIDEO"@,
        ConnectorType::TV => "TV"@,
        ConnectorType::Unknown => "Unknown"@,
        ConnectorType::VGA => "VGA"@,
        ConnectorType::Virtual => "Virtual"@,
        ConnectorType::Writeback => "Writeback"@,
    }
}

impl ConnectorType {
    /// The connector type the kernel means by `v`; `None` for a code it does
    /// not define.
    pub fn from_code(v: u32) -> (r: Option<ConnectorType>)
        ensures
            r is Some <==> v < 20,
            r matches Some(t) ==> connector_type_code(t) == v,
    {
        match v {
            0 => Some(ConnectorType::Unknown),
            1 => Some(ConnectorType::VGA),
            2 => Some(ConnectorType::DVII),
            3 => Some(ConnectorType::DVID),
            4 => Some(ConnectorType::DVIA),
            5 => Some(ConnectorType::Composite),
            6 => Some(ConnectorType::SVIDEO),
            7 => Some(ConnectorType::LVDS),
            8 => Some(ConnectorType::Component),
            9 => Some(ConnectorType::MiniDin9),
            10 => Some(ConnectorType::DisplayPort),
            11 => Some(ConnectorType::HDMIA),
            12 => Some(ConnectorType::HDMIB),
            13 => Some(ConnectorType::TV),
            14 => Some(ConnectorType::EDP),
            15 => Some(ConnectorType::Virtual),
            16 => Some(ConnectorType::DSI),
            17 => Some(ConnectorType::DPI),
            18 => Some(ConnectorType::Writeback),
            19 => Some(ConnectorType::SPI),
            _ => None,
        }
    }

    /// The conventional name of this connector type, such as `HDMI-A`.
    pub fn name(&self) -> (r: &'static str)
        ensures
            r@ == connector_type_name(*self),
    {
        match self {
            ConnectorType::Component => "Component",
            ConnectorType::Composite => "Composite",
            ConnectorType::DPI => "DPI",
            ConnectorType::DSI => "DSI",
            ConnectorType::DVIA => "DVI-A",
            ConnectorType::DVID => "DVI-D",
            ConnectorType::DVII => "DVI-I",
            ConnectorType::DisplayPort => "DisplayPort",
            ConnectorType::EDP => "eDP",
            ConnectorType::HDMIA => "HDMI-A",
            ConnectorType::HDMIB => "HDMI-B",
            ConnectorType::LVDS => "LVDS",
            ConnectorType::MiniDin9 => "MiniDin9",
            ConnectorType::SPI => "SPI",
            ConnectorType::SVIDEO => "S-VIDEO",
            ConnectorType::TV => "TV",
            ConnectorType::Unknown => "Unknown",
            ConnectorType::VGA => "VGA",
            ConnectorType::Virtual => "Virtual",
            ConnectorType::Writeback => "Writeback",
        }
    }
}

/// The ids of the given connectors, in order.
pub fn connector_ids<T: Transport>(cs: &[&Connector<'_, T>]) -> (r: Vec<u32>)
    ensures
        r@.len() == cs@.len(),
        forall|i: int| 0 <= i < cs@.len() ==> #[trigger] r@[i] == cs@[i].spec_id(),
{
    let mut out: Vec<u32> = Vec::new();
    let mut i: usize = 0;
    while i < cs.len()
        invariant
            i <= cs@.len(),
            out@.len() == i,
            forall|k: int| 0 <= k < i ==> #[trigger] out@[k] == cs@[k].spec_id(),
        decreases cs.len() - i,
    {
        out.push(cs[i].get_id());
        i = i + 1;
    }
    out
}

/// A physical display output of a device.
#[derive(Debug)]
pub struct Connector<'a, T: Transport> {
    dev: &'a Device<T>,
    id: u32,
    type_: ConnectorType,
    type_id: u32,
    status: ConnectorStatus,
    mm_height: usize,
    mm_width: usize,
}

impl<'a, T: Transport> Object<T> for Connector<'a, T> {
    open spec fn spec_id(&self) -> u32 {
        self.view_id()
    }

    open spec fn spec_type(&self) -> ObjectType {
        ObjectType::Connector
    }

    fn get_dev(&self) -> &Device<T> {
        self.dev
    }

    fn get_id(&self) -> u32 {
        self.id
    }

    fn get_type(&self) -> ObjectType {
        ObjectType::Connector
    }

    fn get_property_id(&self, property: &str) -> Result<u32, Error> {
        self.dev.lookup_property_id(ObjectType::Connector, self.id, property)
    }
}

impl<'a, T: Transport> Connector<'a, T> {
    /// The device this handle belongs to.
    pub closed spec fn spec_dev(&self) -> Device<T> {
        *self.dev
    }

    /// The kernel id of this object.
    pub closed spec fn view_id(&self) -> u32 {
        self.id
    }

    pub closed spec fn spec_connector_type(&self) -> ConnectorType {
        self.type_
    }

    pub closed spec fn spec_index(&self) -> u32 {
        self.type_id
    }

    pub closed spec fn spec_status(&self) -> ConnectorStatus {
        self.status
    }

    pub closed spec fn spec_size_mm(&self) -> (usize, usize) {
        (self.mm_width, self.mm_height)
    }

    /// A connector from the kernel's description. Its index is made 0-based.
    /// Fails with `OutOfRangeError` on a status or type code the kernel does
    /// not define, or on an index of 0.
    pub fn new(dev: &'a Device<T>, connector: RawConnector) -> (r: Result<Connector<'a, T>, Error>)
        ensures
            (1 <= connector.connection <= 3 && connector.connector_type < 20
                && connector.connector_type_id >= 1) <==> r is Ok,
            r is Err ==> r == Err::<Connector<'a, T>, Error>(Error::OutOfRangeError),
            r matches Ok(c) ==> {
                &&& c.spec_id() == connector.connector_id
                &&& c.spec_dev() == *dev
                &&& status_code(c.spec_status()) == connector.connection
                &&& connector_type_code(c.spec_connector_type()) == connector.connector_type
                &&& c.spec_index() == connector.connector_type_id - 1
                &&& c.spec_size_mm() == (connector.mm_width as usize, connector.mm_height as usize)
            },
    {
        let status = match ConnectorStatus::from_code(connector.connection) {
            Some(s) => s,
            None => return Err(Error::OutOfRangeError),
        };
        let type_ = match ConnectorType::from_code(connector.connector_type) {
            Some(t) => t,
            None => return Err(Error::OutOfRangeError),
        };
        if connector.connector_type_id == 0 {
            return Err(Error::OutOfRangeError);
        }
        Ok(Connector {
            dev,
            id: connector.connector_id,
            status,
            type_,
            type_id: connector.connector_type_id - 1,
            mm_height: connector.mm_height as usize,
            mm_width: connector.mm_width as usize,
        })
    }

    /// The encoders that can feed this connector, in the kernel's order.
    pub fn get_encoders(&self) -> (r: Result<Vec<Encoder<'a, T>>, Error>)
        ensures
            r matches Ok(v) ==> forall|i: int| 0 <= i < v@.len() ==> #[trigger] v@[i].spec_dev()
                == self.spec_dev(),
    {
        self.dev.get_connector_encoders(self)
    }

    /// The 0-based index of this connector among those of its type.
    pub fn get_index(&self) -> (r: u32)
        ensures
            r == self.spec_index(),
    {
        self.type_id
    }

    /// The display modes that this connector offers.
    pub fn get_modes(&self) -> (r: Result<Vec<Mode>, Error>)
        ensures
            r matches Ok(v) ==> modes_of_timings(v@),
    {
        self.dev.get_connector_modes(self)
    }

    pub fn get_status(&self) -> (r: ConnectorStatus)
        ensures
            r == self.spec_status(),
    {
        self.status
    }

    pub fn get_type(&self) -> (r: ConnectorType)
        ensures
            r == self.spec_connector_type(),
    {
        self.type_
    }

    /// Physical width and height in millimeters.
    pub fn get_size_mm(&self) -> (r: (usize, usize))
        ensures
            r == self.spec_size_mm(),
    {
        (self.mm_width, self.mm_height)
    }
}

} // verus!
