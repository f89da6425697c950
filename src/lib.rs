//! Device Reference Format (DRF): parsing and canonical rendering of
//! requests that name a control point, a data facet, a sub-range and a
//! delivery event.

pub mod entity;
pub mod event;
pub mod event_round;
pub mod laws;
pub mod numeral;
pub mod range_round;
pub mod request;
pub mod scan;
pub mod text;
pub mod vocab;

pub use entity::{
    AnalogField, ClockType, Device, DigitalField, ErrorKind, Event, ParseError, Property, Range,
    ReadingField, Request, SettingField, StateOp, StatusField,
};
pub use request::{parse, parse_drf, parse_event, parse_range};
