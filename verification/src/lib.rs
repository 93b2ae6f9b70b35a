//! A hotel room that several tenants can book up to a fixed capacity.
//!
//! The crate holds the occupancy rules of a single [`model::Room`], the
//! mathematical model those rules are stated over ([`occupancy`]), what
//! follows from the rules across several operations ([`laws`]), and a
//! [`registry::Registry`] that keys rooms by their number and answers the
//! single-room requests from them.

pub mod error;
pub mod laws;
pub mod model;
pub mod occupancy;
pub mod registry;
