//! A tagged-value conversion and streaming-pipeline execution model.
//!
//! The crate centres on a closed tagged-union [`value::Value`] that flows
//! through pipeline stages.  Two transforms over it are provided: a
//! conversion of a value into its canonical byte encoding
//! ([`binary::action`]) and a rendering of a point in time as a
//! human-readable relative-time phrase ([`humanize::helper`]).  A
//! single-pass streaming operator ([`pipeline::map_values`]) applies such a
//! transform element-wise over a batch while honouring cooperative
//! cancellation and preserving order.


pub mod binary;
pub mod command;
pub mod dates;
pub mod encode;
pub mod humanize;
pub mod pipeline;
pub mod value;
