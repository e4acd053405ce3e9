//! Verified translation layer for a tree-shaped, JSON-transported binary
//! property protocol used by an HVAC device.
//!
//! The crate models the property tree, the hex-packed binary value codec,
//! typed accessors binding domain values to tree leaves, the request/response
//! envelopes, the device status snapshot, and the semantic mapping tables
//! between native discrete codes and protocol-agnostic scales.

pub mod codec;
pub mod constraints;
pub mod error;
pub mod fan_mapping;
pub mod info;
pub mod mapping;
pub mod mode_mapping;
pub mod property;
pub mod request;
pub mod response;
pub mod state;
pub mod status;
pub mod temperature;

pub use codec::{Decimal, ValueError};
pub use constraints::ValueConstraints;
pub use error::Error;
pub use info::DaikinInfo;
pub use property::{Binary, BinaryStep, Item, Metadata, PropValue, Property};
pub use request::{DaikinRequest, Request};
pub use response::{DaikinResponse, EnvelopeError, Response};
pub use state::{DeviceState, PowerState, StateTransition, StateTransitionError};
pub use status::DaikinStatus;
pub use temperature::{TemperatureError, TemperatureTarget};
pub use types::{AutoModeWindSpeed, HorizontalDirection, Mode, VerticalDirection, WindSpeed};
pub mod types;
