//! Classification of Xbox controllers into a normalized status record.
//!
//! `registry` holds the vendor and product identifiers of the family,
//! `controller` the status record and its model, `device` the snapshot of a
//! discovered device, and `xbox` the two ways of building a record: from
//! identifiers alone, or from a device record and the outcome of a live
//! battery lookup, taken one stage at a time. `laws` states and proves what
//! holds of both.

pub mod controller;
pub mod device;
pub mod laws;
pub mod registry;
pub mod xbox;
