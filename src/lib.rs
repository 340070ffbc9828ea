use vstd::prelude::*;

pub mod atomic;
pub mod buffer;
pub mod connector;
pub mod crtc;
pub mod device;
pub mod encoder;
pub mod error;
pub mod format;
pub mod graph;
pub mod layout;
pub mod mode;
pub mod object;
pub mod pipeline;
pub mod plane;
pub mod property;
pub mod text;
pub mod transport;

pub use crate::atomic::AtomicBatch;
pub use crate::atomic::AtomicProperty;
pub use crate::atomic::AtomicRequest;
pub use crate::buffer::Buffer;
pub use crate::buffer::BufferType;
pub use crate::buffer::TeardownStep;
pub use crate::connector::Connector;
pub use crate::connector::ConnectorStatus;
pub use crate::connector::ConnectorType;
pub use crate::crtc::Crtc;
pub use crate::device::ClientCapability;
pub use crate::device::Device;
pub use crate::encoder::Encoder;
pub use crate::encoder::EncoderType;
pub use crate::error::Error;
pub use crate::format::Format;
pub use crate::layout::Placement;
pub use crate::mode::Mode;
pub use crate::mode::ModeInfo;
pub use crate::mode::ModeType;
pub use crate::object::Object;
pub use crate::object::ObjectType;
pub use crate::pipeline::Pipeline;
pub use crate::pipeline::PipelineInit;
pub use crate::plane::Plane;
pub use crate::property::Property;
pub use crate::transport::RawConnector;
pub use crate::transport::RawDumbBuffer;
pub use crate::transport::RawEncoder;
pub use crate::transport::RawPlane;
pub use crate::transport::RawProperty;
pub use crate::transport::Transport;
