//! Verified core of a browser utility that turns a selected image file into a
//! base64 payload with derived metadata.
//!
//! The library holds the pure helpers (byte-size formatting, filename format
//! detection, aspect-ratio reduction), the base64/data-URI encoding step, and
//! the event-driven ingestion pipeline as an explicit state machine
//! ([`model::Model`]): the surrounding runtime performs the I/O that each
//! returned [`model::Action`] asks for and feeds the outcome back in as a
//! [`model::Msg`].

pub mod digits;
pub mod size;
pub mod detect;
pub mod ratio;
pub mod encode;
pub mod model;
